//! The resolved per-request identity: just a user id, produced once per
//! request by the context resolver and immutable afterwards.

use vstd::prelude::*;

verus! {

/// A resolved request identity.
#[derive(Clone, Copy, Debug, PartialEq, Eq, Structural)]
pub struct Ctx {
    user_id: u64,
}

impl Ctx {
    /// The user this request acts as.
    pub closed spec fn spec_user_id(self) -> u64 {
        self.user_id
    }

    pub fn new(user_id: u64) -> (c: Self)
        ensures
            c.spec_user_id() == user_id,
    {
        Ctx { user_id }
    }

    pub fn user_id(&self) -> (r: u64)
        ensures
            r == self.spec_user_id(),
    {
        self.user_id
    }
}

} // verus!
