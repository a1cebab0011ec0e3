//! JSON output. The pipeline's wire shapes are stable and small, so they are
//! built here directly, character-exactly: the ticket object, the ticket
//! array in creation order, the uniform error envelope, and the login
//! success body. String content is escaped per JSON's rules for the quote,
//! the backslash and control characters.

use vstd::prelude::*;

use crate::digits::digit_char;
use crate::digits::spec_u64_digits;
use crate::digits::u64_to_string;
use crate::ext::push_char;
use crate::store::Ticket;
use crate::store::TicketView;

verus! {

/// The lowercase hex digit for `d` (meaningful for `0 <= d <= 15`).
pub open spec fn hex_digit(d: int) -> char {
    if d < 10 {
        digit_char(d)
    } else {
        ((87 + d) as u8) as char
    }
}

/// The JSON escape of one character inside a string literal.
pub open spec fn spec_escape_char(c: char) -> Seq<char> {
    if c == '"' {
        seq!['\\', '"']
    } else if c == '\\' {
        seq!['\\', '\\']
    } else if c == '\n' {
        seq!['\\', 'n']
    } else if c == '\r' {
        seq!['\\', 'r']
    } else if c == '\t' {
        seq!['\\', 't']
    } else if (c as int) < 32 {
        seq!['\\', 'u', '0', '0', hex_digit(c as int / 16), hex_digit(c as int % 16)]
    } else {
        seq![c]
    }
}

/// The JSON escape of a whole string body.
pub open spec fn spec_escape(s: Seq<char>) -> Seq<char>
    decreases s.len(),
{
    if s.len() == 0 {
        Seq::empty()
    } else {
        spec_escape(s.drop_last()) + spec_escape_char(s.last())
    }
}

/// Escape `s` for inclusion inside a JSON string literal.
pub fn escape_json(s: &str) -> (r: String)
    ensures
        r@ == spec_escape(s@),
{
    let n = s.unicode_len();
    let mut out = String::new();
    let mut i: usize = 0;
    while i < n
        invariant
            i <= n,
            n == s@.len(),
            out@ == spec_escape(s@.subrange(0, i as int)),
        decreases n - i,
    {
        let c = s.get_char(i);
        if c == '"' {
            push_char(&mut out, '\\');
            push_char(&mut out, '"');
        } else if c == '\\' {
            push_char(&mut out, '\\');
            push_char(&mut out, '\\');
        } else if c == '\n' {
            push_char(&mut out, '\\');
            push_char(&mut out, 'n');
        } else if c == '\r' {
            push_char(&mut out, '\\');
            push_char(&mut out, 'r');
        } else if c == '\t' {
            push_char(&mut out, '\\');
            push_char(&mut out, 't');
        } else if (c as u32) < 32 {
            let u = c as u32;
            let hi = ((u / 16) as u8 + 48) as char;
            let lo8 = (u % 16) as u8;
            let lo = if lo8 < 10 {
                (lo8 + 48) as char
            } else {
                (lo8 + 87) as char
            };
            push_char(&mut out, '\\');
            push_char(&mut out, 'u');
            push_char(&mut out, '0');
            push_char(&mut out, '0');
            push_char(&mut out, hi);
            push_char(&mut out, lo);
            proof {
                assert(hi == hex_digit(c as int / 16));
                assert(lo == hex_digit(c as int % 16));
            }
        } else {
            push_char(&mut out, c);
        }
        proof {
            let p = s@.subrange(0, i + 1);
            assert(p.drop_last() =~= s@.subrange(0, i as int));
            assert(p.last() == s@[i as int]);
            assert(out@ =~= spec_escape(s@.subrange(0, i as int)) + spec_escape_char(
                s@[i as int],
            ));
        }
        i = i + 1;
    }
    proof {
        assert(s@.subrange(0, n as int) =~= s@);
    }
    out
}

/// The wire shape of one ticket: `{"id":<id>,"title":"<escaped title>"}`.
pub open spec fn spec_ticket_json(t: TicketView) -> Seq<char> {
    "{\"id\":"@ + spec_u64_digits(t.id as int) + ",\"title\":\""@ + spec_escape(t.title)
        + "\"}"@
}

/// Render one ticket as JSON.
pub fn ticket_json(t: &Ticket) -> (r: String)
    ensures
        r@ == spec_ticket_json(t@),
{
    let mut out = String::from_str("{\"id\":");
    let num = u64_to_string(t.id);
    out.append(num.as_str());
    out.append(",\"title\":\"");
    let esc = escape_json(t.title.as_str());
    out.append(esc.as_str());
    out.append("\"}");
    proof {
        assert(out@ =~= spec_ticket_json(t@));
    }
    out
}

/// The comma-separated bodies of a ticket array, in sequence order.
pub open spec fn spec_tickets_json_items(v: Seq<TicketView>) -> Seq<char>
    decreases v.len(),
{
    if v.len() == 0 {
        Seq::empty()
    } else if v.len() == 1 {
        spec_ticket_json(v[0])
    } else {
        spec_tickets_json_items(v.drop_last()) + ","@ + spec_ticket_json(v.last())
    }
}

/// The wire shape of a ticket listing: a JSON array in sequence order.
pub open spec fn spec_tickets_json(v: Seq<TicketView>) -> Seq<char> {
    "["@ + spec_tickets_json_items(v) + "]"@
}

/// Render a ticket listing as JSON, in the order given.
pub fn tickets_json(v: &Vec<Ticket>) -> (r: String)
    ensures
        r@ == spec_tickets_json(v@.map_values(|t: Ticket| t@)),
{
    let ghost w = v@.map_values(|t: Ticket| t@);
    let mut out = String::from_str("[");
    let n = v.len();
    let mut i: usize = 0;
    while i < n
        invariant
            i <= n,
            n == v@.len(),
            w == v@.map_values(|t: Ticket| t@),
            out@ == "["@ + spec_tickets_json_items(w.subrange(0, i as int)),
        decreases n - i,
    {
        if i > 0 {
            out.append(",");
        }
        let tj = ticket_json(&v[i]);
        out.append(tj.as_str());
        proof {
            let p = w.subrange(0, i + 1);
            assert(p.drop_last() =~= w.subrange(0, i as int));
            assert(p.last() == w[i as int]);
            if i == 0 {
                assert(spec_tickets_json_items(p) == spec_ticket_json(w[0]));
                assert(out@ =~= "["@ + spec_tickets_json_items(p));
            } else {
                assert(spec_tickets_json_items(p) == spec_tickets_json_items(
                    w.subrange(0, i as int),
                ) + ","@ + spec_ticket_json(w[i as int]));
                assert(out@ =~= "["@ + spec_tickets_json_items(p));
            }
        }
        i = i + 1;
    }
    out.append("]");
    proof {
        assert(w.subrange(0, n as int) =~= w);
        assert(out@ =~= spec_tickets_json(w));
    }
    out
}

/// The uniform error envelope:
/// `{"error":{"type":"<code>","req_uuid":"<id>"}}`.
pub open spec fn spec_error_envelope(code: Seq<char>, req_uuid: Seq<char>) -> Seq<char> {
    "{\"error\":{\"type\":\""@ + code + "\",\"req_uuid\":\""@ + req_uuid + "\"}}"@
}

/// Render the uniform error envelope for a client code and correlation id.
pub fn error_envelope(code: &str, req_uuid: &str) -> (r: String)
    ensures
        r@ == spec_error_envelope(code@, req_uuid@),
{
    let mut out = String::from_str("{\"error\":{\"type\":\"");
    out.append(code);
    out.append("\",\"req_uuid\":\"");
    out.append(req_uuid);
    out.append("\"}}");
    proof {
        assert(out@ =~= spec_error_envelope(code@, req_uuid@));
    }
    out
}

/// The login route's success body.
pub open spec fn spec_login_success_json() -> Seq<char> {
    "{\"result\":{\"success\":true}}"@
}

/// Render the login route's success body.
pub fn login_success_json() -> (r: String)
    ensures
        r@ == spec_login_success_json(),
{
    String::from_str("{\"result\":{\"success\":true}}")
}

} // verus!
