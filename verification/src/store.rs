//! The in-memory ticket store.
//!
//! Tickets are kept in creation order and keyed by an id counter that only
//! ever moves forward: every id the store has ever issued is recorded in a
//! ghost sequence, and the next id to be issued is strictly greater than all
//! of them. Deletion removes exactly one ticket and never disturbs the order
//! of the rest; a failed deletion leaves the store untouched.
//!
//! The store is the pipeline's one shared mutable resource. The transport
//! shell guards a single instance behind one mutual-exclusion lock and runs
//! each operation as one critical section, so a listing and a concurrent
//! delete never observe a torn state; the operations here are those
//! serialized steps.

use vstd::prelude::*;

use crate::error::Error;

verus! {

/// The first id a fresh store issues. Kept above any externally seeded demo
/// ids so that store-issued ids are recognizable.
pub const FIRST_TICKET_ID: u64 = 1000;

/// A stored ticket: an id the store issued and the client-supplied title.
#[derive(Debug, PartialEq, Eq)]
pub struct Ticket {
    pub id: u64,
    pub title: String,
}

/// The mathematical image of a [`Ticket`].
pub struct TicketView {
    pub id: u64,
    pub title: Seq<char>,
}

impl View for Ticket {
    type V = TicketView;

    open spec fn view(&self) -> TicketView {
        TicketView { id: self.id, title: self.title@ }
    }
}

/// True when `v` holds a ticket with id `id`.
pub open spec fn has_ticket(v: Seq<TicketView>, id: u64) -> bool {
    exists|i: int| 0 <= i < v.len() && v[i].id == id
}

/// The index of the ticket with id `id` in `v` (meaningful when
/// `has_ticket(v, id)` holds and ids are distinct).
pub open spec fn ticket_index(v: Seq<TicketView>, id: u64) -> int {
    choose|i: int| 0 <= i < v.len() && v[i].id == id
}

/// Ids strictly increase along `v`; in particular they are distinct.
pub open spec fn ids_increasing(v: Seq<TicketView>) -> bool {
    forall|i: int, j: int| 0 <= i < j < v.len() ==> v[i].id < v[j].id
}

/// The ticket collection, its id counter, and a ghost record of every id the
/// store has ever issued, in issue order.
pub struct ModelController {
    tickets: Vec<Ticket>,
    next_id: u64,
    issued: Ghost<Seq<u64>>,
}

impl View for ModelController {
    type V = Seq<TicketView>;

    closed spec fn view(&self) -> Seq<TicketView> {
        self.tickets@.map_values(|t: Ticket| t@)
    }
}

impl ModelController {
    /// The id the next create will be given.
    pub closed spec fn spec_next_id(self) -> u64 {
        self.next_id
    }

    /// Every id this store has ever issued, in issue order.
    pub closed spec fn issued_ids(self) -> Seq<u64> {
        self.issued@
    }

    /// Store well-formedness: every issued id (and so every stored one) is
    /// below the counter, stored ids strictly increase in creation order, and
    /// every stored ticket carries an issued id.
    pub closed spec fn wf(self) -> bool {
        &&& forall|i: int| 0 <= i < self.issued@.len() ==> self.issued@[i] < self.next_id
        &&& forall|i: int| 0 <= i < self@.len() ==> self.issued@.contains(self@[i].id)
        &&& ids_increasing(self@)
    }

    /// A fresh, empty store.
    pub fn new() -> (s: Self)
        ensures
            s.wf(),
            s@ == Seq::<TicketView>::empty(),
            s.issued_ids() == Seq::<u64>::empty(),
            s.spec_next_id() == FIRST_TICKET_ID,
    {
        let s = ModelController { tickets: Vec::new(), next_id: FIRST_TICKET_ID, issued: Ghost(Seq::empty()) };
        proof {
            assert(s@ =~= Seq::<TicketView>::empty());
        }
        s
    }

    /// Whether the id counter can still move forward. Exhausting `u64` takes
    /// close to 2^64 creates; the bound exists only because the counter is a
    /// machine word.
    pub fn can_issue(&self) -> (r: bool)
        ensures
            r == (self.spec_next_id() < u64::MAX),
    {
        self.next_id < u64::MAX
    }

    /// Create a ticket: issue the next id, append, return the new ticket.
    /// The new id is strictly greater than every id ever issued before.
    pub fn create_ticket(&mut self, title: String) -> (t: Ticket)
        requires
            old(self).wf(),
            old(self).spec_next_id() < u64::MAX,
        ensures
            final(self).wf(),
            t.id == old(self).spec_next_id(),
            t@.title == title@,
            final(self)@ == old(self)@.push(t@),
            final(self).issued_ids() == old(self).issued_ids().push(t.id),
            final(self).spec_next_id() == old(self).spec_next_id() + 1,
            forall|i: int|
                0 <= i < old(self).issued_ids().len() ==> old(self).issued_ids()[i] < t.id,
    {
        let id = self.next_id;
        let t = Ticket { id, title };
        let stored = Ticket { id, title: t.title.clone() };
        self.tickets.push(stored);
        self.next_id = id + 1;
        proof {
            self.issued@ = self.issued@.push(id);
            assert(self@ =~= old(self)@.push(t@));
            assert forall|i: int| 0 <= i < self@.len() implies self.issued@.contains(
                self@[i].id,
            ) by {
                if i < self@.len() - 1 {
                    assert(old(self).issued@.contains(old(self)@[i].id));
                    let k = choose|k: int|
                        0 <= k < old(self).issued@.len() && old(self).issued@[k] == old(
                            self,
                        )@[i].id;
                    assert(self.issued@[k] == self@[i].id);
                } else {
                    assert(self.issued@[self.issued@.len() - 1] == id);
                }
            }
        }
        t
    }

    /// List all tickets, in creation order.
    pub fn list_tickets(&self) -> (r: Vec<Ticket>)
        ensures
            r@.map_values(|t: Ticket| t@) == self@,
    {
        let mut out: Vec<Ticket> = Vec::new();
        let n = self.tickets.len();
        let mut i: usize = 0;
        while i < n
            invariant
                i <= n,
                n == self.tickets.len(),
                out@.len() == i as int,
                forall|j: int| 0 <= j < i as int ==> out@[j]@ == self@[j],
            decreases n - i,
        {
            let t = &self.tickets[i];
            out.push(Ticket { id: t.id, title: t.title.clone() });
            i = i + 1;
        }
        proof {
            assert(out@.map_values(|t: Ticket| t@) =~= self@);
        }
        out
    }

    /// Delete the ticket with id `id` and return it. Succeeds exactly when a
    /// ticket with that id is stored; on failure the store is unchanged and
    /// the error names the missing id.
    pub fn delete_ticket(&mut self, id: u64) -> (r: Result<Ticket, Error>)
        requires
            old(self).wf(),
        ensures
            final(self).wf(),
            final(self).issued_ids() == old(self).issued_ids(),
            final(self).spec_next_id() == old(self).spec_next_id(),
            r is Ok <==> has_ticket(old(self)@, id),
            match r {
                Ok(t) => {
                    &&& t.id == id
                    &&& t@ == old(self)@[ticket_index(old(self)@, id)]
                    &&& final(self)@ == old(self)@.remove(ticket_index(old(self)@, id))
                },
                Err(e) => {
                    &&& e == (Error::TicketDeleteFailIdNotFound { id })
                    &&& final(self)@ == old(self)@
                },
            },
    {
        let ghost pre = *old(self);
        let n = self.tickets.len();
        let mut i: usize = 0;
        while i < n
            invariant
                i <= n,
                *self == pre,
                pre == *old(self),
                pre.wf(),
                n == self.tickets.len(),
                forall|j: int| 0 <= j < i as int ==> self@[j].id != id,
            decreases n - i,
        {
            if self.tickets[i].id == id {
                proof {
                    assert(self@[i as int].id == id);
                    assert(has_ticket(pre@, id));
                    let k = ticket_index(pre@, id);
                    assert(0 <= k < pre@.len() && pre@[k].id == id);
                    if k < i as int {
                        assert(pre@[k].id != id);
                    }
                    if k > i as int {
                        assert(pre@[i as int].id < pre@[k].id);
                    }
                    assert(k == i as int);
                }
                let t = self.tickets.remove(i);
                proof {
                    assert(self@ =~= pre@.remove(i as int));
                    assert forall|a: int, b: int| 0 <= a < b < self@.len() implies self@[a].id
                        < self@[b].id by {
                        let a2: int = if a < i as int { a } else { a + 1 };
                        let b2: int = if b < i as int { b } else { b + 1 };
                        assert(self@[a] == pre@[a2]);
                        assert(self@[b] == pre@[b2]);
                    }
                    assert forall|a: int| 0 <= a < self@.len() implies self.issued@.contains(
                        self@[a].id,
                    ) by {
                        let a2: int = if a < i as int { a } else { a + 1 };
                        assert(self@[a] == pre@[a2]);
                    }
                }
                return Ok(t);
            }
            i = i + 1;
        }
        proof {
            assert(self@.len() == n);
            assert(!has_ticket(self@, id));
        }
        Err(Error::TicketDeleteFailIdNotFound { id })
    }
}

/// A well-formed store lists its tickets under strictly increasing — in
/// particular pairwise distinct — ids, which is what the deletion laws below
/// ask of a listing.
pub proof fn lemma_wf_store_ids_increasing(s: ModelController)
    requires
        s.wf(),
    ensures
        ids_increasing(s@),
        ids_distinct(s@),
{
}

/// Ids are pairwise distinct along `v` (implied by [`ids_increasing`]).
pub open spec fn ids_distinct(v: Seq<TicketView>) -> bool {
    forall|i: int, j: int| 0 <= i < j < v.len() ==> v[i].id != v[j].id
}

/// The predicate selecting the tickets that survive deleting `id`.
pub open spec fn keeps_id(id: u64) -> spec_fn(TicketView) -> bool {
    |t: TicketView| t.id != id
}

/// The predicate selecting the tickets whose id is in none of `ids`.
pub open spec fn keeps_ids(ids: Seq<u64>) -> spec_fn(TicketView) -> bool {
    |t: TicketView| !ids.contains(t.id)
}

/// What deleting `id` leaves of `v`: untouched when absent, else with
/// exactly the matching ticket removed.
pub open spec fn remove_ticket(v: Seq<TicketView>, id: u64) -> Seq<TicketView> {
    if has_ticket(v, id) {
        v.remove(ticket_index(v, id))
    } else {
        v
    }
}

/// What a series of deletes leaves, first id deleted first.
pub open spec fn remove_tickets(v: Seq<TicketView>, ids: Seq<u64>) -> Seq<TicketView>
    decreases ids.len(),
{
    if ids.len() == 0 {
        v
    } else {
        remove_tickets(remove_ticket(v, ids[0]), ids.drop_first())
    }
}

/// A filter that keeps every element changes nothing.
pub proof fn lemma_filter_keep_all(v: Seq<TicketView>, pred: spec_fn(TicketView) -> bool)
    requires
        forall|i: int| 0 <= i < v.len() ==> pred(v[i]),
    ensures
        v.filter(pred) == v,
    decreases v.len(),
{
    reveal(Seq::filter);
    if v.len() > 0 {
        lemma_filter_keep_all(v.drop_last(), pred);
        assert(pred(v.last()));
        assert(v.drop_last().push(v.last()) =~= v);
    }
}

/// Filtering twice is filtering by the conjunction.
pub proof fn lemma_filter_filter(
    v: Seq<TicketView>,
    p: spec_fn(TicketView) -> bool,
    q: spec_fn(TicketView) -> bool,
    r: spec_fn(TicketView) -> bool,
)
    requires
        forall|t: TicketView| #[trigger] r(t) == (p(t) && q(t)),
    ensures
        v.filter(p).filter(q) == v.filter(r),
    decreases v.len(),
{
    reveal(Seq::filter);
    if v.len() > 0 {
        lemma_filter_filter(v.drop_last(), p, q, r);
        let d = v.drop_last();
        if p(v.last()) {
            assert(v.filter(p) == d.filter(p).push(v.last()));
            assert(d.filter(p).push(v.last()).drop_last() =~= d.filter(p));
            assert(d.filter(p).push(v.last()).last() == v.last());
        } else {
            assert(v.filter(p) == d.filter(p));
            assert(!r(v.last()));
        }
    } else {
        assert(v.filter(p) =~= v);
        assert(v.filter(p).filter(q) =~= v);
        assert(v.filter(r) =~= v);
    }
}

/// Deleting one id is filtering by it: with distinct ids, removing the
/// matching ticket (or nothing) leaves exactly the tickets of other ids, in
/// order.
pub proof fn lemma_remove_ticket_is_filter(v: Seq<TicketView>, id: u64)
    requires
        ids_distinct(v),
    ensures
        remove_ticket(v, id) == v.filter(keeps_id(id)),
    decreases v.len(),
{
    reveal(Seq::filter);
    let p = keeps_id(id);
    if !has_ticket(v, id) {
        assert(forall|i: int| 0 <= i < v.len() ==> p(v[i]));
        lemma_filter_keep_all(v, p);
    } else {
        let k = ticket_index(v, id);
        assert(0 <= k < v.len() && v[k].id == id);
        let d = v.drop_last();
        if k == v.len() - 1 {
            assert(!p(v.last()));
            assert(v.filter(p) == d.filter(p));
            assert(forall|i: int| 0 <= i < d.len() ==> p(d[i]));
            lemma_filter_keep_all(d, p);
            assert(v.remove(k) =~= d);
        } else {
            assert(p(v.last()));
            assert(v.filter(p) == d.filter(p).push(v.last()));
            assert(ids_distinct(d));
            assert(d[k].id == id);
            assert(has_ticket(d, id));
            let kd = ticket_index(d, id);
            assert(0 <= kd < d.len() && d[kd].id == id);
            assert(kd == k);
            lemma_remove_ticket_is_filter(d, id);
            assert(remove_ticket(d, id) == d.remove(k));
            assert(v.remove(k) =~= d.remove(k).push(v.last()));
        }
    }
}

/// Distinctness survives removing one element.
proof fn lemma_remove_keeps_distinct(v: Seq<TicketView>, k: int)
    requires
        ids_distinct(v),
        0 <= k < v.len(),
    ensures
        ids_distinct(v.remove(k)),
{
    let w = v.remove(k);
    assert forall|i: int, j: int| 0 <= i < j < w.len() implies w[i].id != w[j].id by {
        let i2: int = if i < k { i } else { i + 1 };
        let j2: int = if j < k { j } else { j + 1 };
        assert(w[i] == v[i2]);
        assert(w[j] == v[j2]);
    }
}

/// Listing after a series of creates and then a series of successful deletes
/// returns exactly the undeleted tickets, in original creation order: if `v`
/// is the listing after the creates (ids distinct, as the store guarantees)
/// and `ids` are distinct ids all present in `v`, then deleting them one by
/// one leaves precisely the tickets whose id is in none of them, in order —
/// and the count drops by exactly the number of deletes.
pub proof fn lemma_list_after_deletes(v: Seq<TicketView>, ids: Seq<u64>)
    requires
        ids_distinct(v),
        forall|k: int| 0 <= k < ids.len() ==> has_ticket(v, #[trigger] ids[k]),
        forall|k: int, l: int| 0 <= k < l < ids.len() ==> ids[k] != ids[l],
    ensures
        remove_tickets(v, ids) == v.filter(keeps_ids(ids)),
        remove_tickets(v, ids).len() == v.len() - ids.len(),
    decreases ids.len(),
{
    if ids.len() == 0 {
        assert(forall|i: int| 0 <= i < v.len() ==> #[trigger] keeps_ids(ids)(v[i]));
        lemma_filter_keep_all(v, keeps_ids(ids));
    } else {
        let id0 = ids[0];
        let rest = ids.drop_first();
        let k = ticket_index(v, id0);
        assert(has_ticket(v, id0));
        assert(0 <= k < v.len() && v[k].id == id0);
        let v1 = remove_ticket(v, id0);
        assert(v1 == v.remove(k));
        lemma_remove_keeps_distinct(v, k);
        assert forall|m: int| 0 <= m < rest.len() implies has_ticket(v1, #[trigger] rest[m]) by {
            assert(rest[m] == ids[m + 1]);
            assert(has_ticket(v, ids[m + 1]));
            let j = choose|j: int| 0 <= j < v.len() && v[j].id == ids[m + 1];
            assert(v[j].id != id0);
            assert(j != k);
            let j1: int = if j < k { j } else { j - 1 };
            assert(v1[j1] == v[j]);
        }
        lemma_list_after_deletes(v1, rest);
        lemma_remove_ticket_is_filter(v, id0);
        assert forall|t: TicketView| #[trigger] keeps_ids(ids)(t) == (keeps_id(id0)(t)
            && keeps_ids(rest)(t)) by {
            assert(ids.contains(t.id) == (t.id == id0 || rest.contains(t.id))) by {
                if ids.contains(t.id) {
                    let j = choose|j: int| 0 <= j < ids.len() && ids[j] == t.id;
                    if j > 0 {
                        assert(rest[j - 1] == t.id);
                        assert(rest.contains(t.id));
                    }
                }
                if rest.contains(t.id) {
                    let j = choose|j: int| 0 <= j < rest.len() && rest[j] == t.id;
                    assert(ids[j + 1] == t.id);
                    assert(ids.contains(t.id));
                }
                if t.id == id0 {
                    assert(ids.contains(t.id));
                }
            }
        }
        lemma_filter_filter(v, keeps_id(id0), keeps_ids(rest), keeps_ids(ids));
        assert(remove_tickets(v, ids) == remove_tickets(v1, rest));
        assert(v1.filter(keeps_ids(rest)) == v.filter(keeps_id(id0)).filter(keeps_ids(rest)));
    }
}

} // verus!
