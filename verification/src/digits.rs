//! Decimal digits: parsing a `u64` out of a character range and rendering a
//! `u64` back into characters. Both directions are specified against the same
//! mathematical digit-string value, so the pipeline's id parsing (cookie user
//! ids, delete-route ids) and its JSON number output agree exactly.

use vstd::prelude::*;

use crate::ext::push_char;

verus! {

/// `c` is one of `'0'` through `'9'`.
pub open spec fn is_digit_char(c: char) -> bool {
    48 <= c as int <= 57
}

/// The numeric value of a digit character.
pub open spec fn digit_val(c: char) -> int {
    c as int - 48
}

/// The digit character for `d` (meaningful for `0 <= d <= 9`).
pub open spec fn digit_char(d: int) -> char {
    ((d + 48) as u8) as char
}

/// Every character of `s` is a decimal digit.
pub open spec fn all_digits(s: Seq<char>) -> bool {
    forall|i: int| 0 <= i < s.len() ==> is_digit_char(s[i])
}

/// The value of a digit string, most significant digit first.
pub open spec fn digits_val(s: Seq<char>) -> int
    decreases s.len(),
{
    if s.len() == 0 {
        0
    } else {
        digits_val(s.drop_last()) * 10 + digit_val(s.last())
    }
}

/// What parsing a `u64` out of `s` yields: the digit-string value when `s` is
/// nonempty, all digits, and the value fits in a `u64`; nothing otherwise.
pub open spec fn spec_parse_u64(s: Seq<char>) -> Option<u64> {
    if s.len() > 0 && all_digits(s) && digits_val(s) <= u64::MAX {
        Some(digits_val(s) as u64)
    } else {
        None
    }
}

/// A digit string's value is never negative.
pub proof fn lemma_digits_val_nonneg(s: Seq<char>)
    requires
        all_digits(s),
    ensures
        digits_val(s) >= 0,
    decreases s.len(),
{
    if s.len() > 0 {
        lemma_digits_val_nonneg(s.drop_last());
    }
}

/// A prefix of a digit string never exceeds the whole string's value.
pub proof fn lemma_digits_val_prefix_le(s: Seq<char>, i: int)
    requires
        all_digits(s),
        0 <= i <= s.len(),
    ensures
        digits_val(s.subrange(0, i)) <= digits_val(s),
    decreases s.len() - i,
{
    if i == s.len() {
        assert(s.subrange(0, i) =~= s);
    } else {
        lemma_digits_val_prefix_le(s, i + 1);
        let p = s.subrange(0, i + 1);
        assert(p.drop_last() =~= s.subrange(0, i));
        assert(all_digits(s.subrange(0, i)));
        lemma_digits_val_nonneg(s.subrange(0, i));
        assert(digits_val(p) == digits_val(s.subrange(0, i)) * 10 + digit_val(s[i]));
    }
}

/// Parse the characters of `s` in `[from, to)` as an unsigned decimal number.
/// Returns the value exactly when the range is a nonempty all-digit string
/// whose value fits in a `u64`.
pub fn parse_u64_in(s: &str, from: usize, to: usize) -> (r: Option<u64>)
    requires
        from <= to <= s@.len(),
    ensures
        r == spec_parse_u64(s@.subrange(from as int, to as int)),
{
    let ghost d = s@.subrange(from as int, to as int);
    if from == to {
        return None;
    }
    let mut val: u64 = 0;
    let mut i: usize = from;
    while i < to
        invariant
            from <= i <= to,
            to <= s@.len(),
            d == s@.subrange(from as int, to as int),
            d.len() == to - from,
            all_digits(d.subrange(0, i - from)),
            val == digits_val(d.subrange(0, i - from)),
        decreases to - i,
    {
        let c = s.get_char(i);
        proof {
            assert(d[i - from] == s@[i as int]);
        }
        let u = c as u32;
        if u < 48 || u > 57 {
            proof {
                assert(!is_digit_char(d[i - from]));
            }
            return None;
        }
        let dig = (u - 48) as u64;
        let ghost p = d.subrange(0, i + 1 - from);
        proof {
            assert(p.drop_last() =~= d.subrange(0, i - from));
            assert(p.last() == d[i - from]);
            assert(all_digits(p));
            assert(digits_val(p) == val * 10 + dig);
        }
        let next = match val.checked_mul(10) {
            Some(v) => v.checked_add(dig),
            None => None,
        };
        match next {
            Some(v) => {
                val = v;
                i = i + 1;
            },
            None => {
                proof {
                    assert(digits_val(p) > u64::MAX);
                    if all_digits(d) {
                        lemma_digits_val_prefix_le(d, i + 1 - from);
                        assert(digits_val(d) > u64::MAX);
                    }
                }
                return None;
            },
        }
    }
    proof {
        assert(d.subrange(0, to - from) =~= d);
    }
    Some(val)
}

/// The decimal rendering of `n`, most significant digit first, no leading
/// zeros (a single `'0'` for zero).
pub open spec fn spec_u64_digits(n: int) -> Seq<char>
    decreases n,
{
    if n < 10 {
        seq![digit_char(n)]
    } else {
        spec_u64_digits(n / 10).push(digit_char(n % 10))
    }
}

/// Render `n` in decimal.
pub fn u64_to_string(n: u64) -> (s: String)
    ensures
        s@ == spec_u64_digits(n as int),
    decreases n,
{
    let d = ((n % 10) as u8 + 48) as char;
    if n < 10 {
        let mut s = String::new();
        push_char(&mut s, d);
        proof {
            assert(s@ =~= seq![digit_char(n as int)]);
        }
        s
    } else {
        let mut s = u64_to_string(n / 10);
        push_char(&mut s, d);
        s
    }
}

/// Printing a number and parsing it back returns the same number: the decimal
/// rendering is nonempty, all digits, and evaluates to `n`.
pub proof fn lemma_u64_digits_round_trip(n: int)
    requires
        0 <= n <= u64::MAX,
    ensures
        all_digits(spec_u64_digits(n)),
        spec_u64_digits(n).len() > 0,
        digits_val(spec_u64_digits(n)) == n,
        spec_parse_u64(spec_u64_digits(n)) == Some(n as u64),
    decreases n,
{
    if n < 10 {
        assert(spec_u64_digits(n) =~= seq![digit_char(n)]);
        assert(digit_char(n) as int == n + 48);
        let s1 = seq![digit_char(n)];
        assert(s1.drop_last() =~= Seq::<char>::empty());
        assert(digits_val(Seq::<char>::empty()) == 0);
        assert(s1.last() == digit_char(n));
        assert(digits_val(s1) == digit_val(digit_char(n)));
    } else {
        lemma_u64_digits_round_trip(n / 10);
        let s = spec_u64_digits(n);
        assert(s.drop_last() =~= spec_u64_digits(n / 10));
        assert(s.last() == digit_char(n % 10));
        assert(digit_char(n % 10) as int == n % 10 + 48);
        assert(digits_val(s) == (n / 10) * 10 + n % 10);
    }
}

} // verus!
