use vstd::prelude::*;

use crate::api::{CreateDnsRecordRequest, CreateRequestView, UpdateDnsRecordRequest,
    UpdateRequestView};
use crate::text::{char_to_string, spec_decimal, spec_digit, u32_decimal};

verus! {

/// The lowercase hexadecimal digit character for `d`.
pub open spec fn spec_hex_digit(d: nat) -> char {
    if d < 10 {
        spec_digit(d)
    } else {
        ((87 + d) as u8) as char
    }
}

/// The JSON escaping of one character: quote and backslash escaped, the named
/// control characters short-escaped, the other control characters written as
/// `\u00..`, everything else kept as it is.
pub open spec fn spec_escape_char(c: char) -> Seq<char> {
    if c == '"' {
        seq!['\\', '"']
    } else if c == '\\' {
        seq!['\\', '\\']
    } else if c == '\u{8}' {
        seq!['\\', 'b']
    } else if c == '\u{c}' {
        seq!['\\', 'f']
    } else if c == '\n' {
        seq!['\\', 'n']
    } else if c == '\r' {
        seq!['\\', 'r']
    } else if c == '\t' {
        seq!['\\', 't']
    } else if (c as u32) < 32 {
        seq!['\\', 'u', '0', '0', spec_hex_digit((c as u32 / 16) as nat), spec_hex_digit(
            (c as u32 % 16) as nat,
        )]
    } else {
        seq![c]
    }
}

/// The JSON escaping of a whole string.
pub open spec fn spec_escape(s: Seq<char>) -> Seq<char>
    decreases s.len(),
{
    if s.len() == 0 {
        Seq::empty()
    } else {
        spec_escape(s.drop_last()) + spec_escape_char(s.last())
    }
}

/// A JSON string literal: the escaped characters between quotes.
pub open spec fn spec_json_string(s: Seq<char>) -> Seq<char> {
    seq!['"'] + spec_escape(s) + seq!['"']
}

/// An optional number member's rendering: decimal digits, or `null`.
pub open spec fn spec_json_opt_u32(v: Option<u32>) -> Seq<char> {
    match v {
        Some(u) => spec_decimal(u as nat),
        None => "null"@,
    }
}

/// An optional string member's rendering: a JSON string, or `null`.
pub open spec fn spec_json_opt_string(v: Option<Seq<char>>) -> Seq<char> {
    match v {
        Some(s) => spec_json_string(s),
        None => "null"@,
    }
}

fn escape_char(c: char) -> (r: String)
    ensures
        r@ == spec_escape_char(c),
{
    if c == '"' {
        let r = String::from_str("\\\"");
        proof {
            reveal_strlit("\\\"");
            assert(r@ =~= spec_escape_char(c));
        }
        r
    } else if c == '\\' {
        let r = String::from_str("\\\\");
        proof {
            reveal_strlit("\\\\");
            assert(r@ =~= spec_escape_char(c));
        }
        r
    } else if c == '\u{8}' {
        let r = String::from_str("\\b");
        proof {
            reveal_strlit("\\b");
            assert(r@ =~= spec_escape_char(c));
        }
        r
    } else if c == '\u{c}' {
        let r = String::from_str("\\f");
        proof {
            reveal_strlit("\\f");
            assert(r@ =~= spec_escape_char(c));
        }
        r
    } else if c == '\n' {
        let r = String::from_str("\\n");
        proof {
            reveal_strlit("\\n");
            assert(r@ =~= spec_escape_char(c));
        }
        r
    } else if c == '\r' {
        let r = String::from_str("\\r");
        proof {
            reveal_strlit("\\r");
            assert(r@ =~= spec_escape_char(c));
        }
        r
    } else if c == '\t' {
        let r = String::from_str("\\t");
        proof {
            reveal_strlit("\\t");
            assert(r@ =~= spec_escape_char(c));
        }
        r
    } else if (c as u32) < 32 {
        let code = c as u32;
        let hi: u8 = (code / 16) as u8 + 48;
        let lo_val = code % 16;
        let lo: u8 = if lo_val < 10 {
            lo_val as u8 + 48
        } else {
            lo_val as u8 + 87
        };
        let mut r = String::from_str("\\u00");
        let hs = char_to_string(hi as char);
        r.append(hs.as_str());
        let ls = char_to_string(lo as char);
        r.append(ls.as_str());
        proof {
            reveal_strlit("\\u00");
            assert(r@ =~= spec_escape_char(c));
        }
        r
    } else {
        char_to_string(c)
    }
}

fn escape_str(s: &str) -> (r: String)
    ensures
        r@ == spec_escape(s@),
{
    let n = s.unicode_len();
    let mut r = String::new();
    proof {
        assert(s@.take(0) =~= Seq::<char>::empty());
    }
    for i in 0..n
        invariant
            n == s@.len(),
            r@ == spec_escape(s@.take(i as int)),
    {
        let c = s.get_char(i);
        let e = escape_char(c);
        r.append(e.as_str());
        proof {
            assert(s@.take(i + 1).drop_last() =~= s@.take(i as int));
            assert(s@.take(i + 1).last() == s@[i as int]);
        }
    }
    proof {
        assert(s@.take(n as int) =~= s@);
    }
    r
}

fn json_string(s: &str) -> (r: String)
    ensures
        r@ == spec_json_string(s@),
{
    let mut r = String::from_str("\"");
    let e = escape_str(s);
    r.append(e.as_str());
    r.append("\"");
    proof {
        reveal_strlit("\"");
        assert(r@ =~= spec_json_string(s@));
    }
    r
}

fn json_opt_u32(v: &Option<u32>) -> (r: String)
    ensures
        r@ == spec_json_opt_u32(*v),
{
    match v {
        Some(u) => u32_decimal(*u),
        None => String::from_str("null"),
    }
}

fn json_opt_string(v: &Option<String>) -> (r: String)
    ensures
        r@ == spec_json_opt_string(v.deep_view()),
{
    match v {
        Some(s) => json_string(s.as_str()),
        None => String::from_str("null"),
    }
}

/// The wire body of a create request: the caller's fields under their wire
/// names, in a fixed member order, an absent optional field written as
/// `null`.
pub open spec fn spec_create_body(r: CreateRequestView) -> Seq<char> {
    "{\"type\":"@ + spec_json_string(r.record_type) + ",\"name\":"@ + spec_json_string(r.name)
        + ",\"data\":"@ + spec_json_string(r.data) + ",\"priority\":"@ + spec_json_opt_u32(
        r.priority,
    ) + ",\"ttl\":"@ + spec_json_opt_u32(r.ttl) + ",\"comment\":"@ + spec_json_opt_string(
        r.comment,
    ) + "}"@
}

/// The wire body of an update request: as the create body, without the
/// comment member.
pub open spec fn spec_update_body(r: UpdateRequestView) -> Seq<char> {
    "{\"type\":"@ + spec_json_string(r.record_type) + ",\"name\":"@ + spec_json_string(r.name)
        + ",\"data\":"@ + spec_json_string(r.data) + ",\"priority\":"@ + spec_json_opt_u32(
        r.priority,
    ) + ",\"ttl\":"@ + spec_json_opt_u32(r.ttl) + "}"@
}

/// Serializes a create request into its wire body.
pub fn create_request_body(req: &CreateDnsRecordRequest) -> (r: String)
    ensures
        r@ == spec_create_body(req@),
{
    let mut r = String::from_str("{\"type\":");
    let s = json_string(req.record_type.as_str());
    r.append(s.as_str());
    r.append(",\"name\":");
    let s = json_string(req.name.as_str());
    r.append(s.as_str());
    r.append(",\"data\":");
    let s = json_string(req.data.as_str());
    r.append(s.as_str());
    r.append(",\"priority\":");
    let s = json_opt_u32(&req.priority);
    r.append(s.as_str());
    r.append(",\"ttl\":");
    let s = json_opt_u32(&req.ttl);
    r.append(s.as_str());
    r.append(",\"comment\":");
    let s = json_opt_string(&req.comment);
    r.append(s.as_str());
    r.append("}");
    proof {
        assert(r@ =~= spec_create_body(req@));
    }
    r
}

/// Serializes an update request into its wire body.
pub fn update_request_body(req: &UpdateDnsRecordRequest) -> (r: String)
    ensures
        r@ == spec_update_body(req@),
{
    let mut r = String::from_str("{\"type\":");
    let s = json_string(req.record_type.as_str());
    r.append(s.as_str());
    r.append(",\"name\":");
    let s = json_string(req.name.as_str());
    r.append(s.as_str());
    r.append(",\"data\":");
    let s = json_string(req.data.as_str());
    r.append(s.as_str());
    r.append(",\"priority\":");
    let s = json_opt_u32(&req.priority);
    r.append(s.as_str());
    r.append(",\"ttl\":");
    let s = json_opt_u32(&req.ttl);
    r.append(s.as_str());
    r.append("}");
    proof {
        assert(r@ =~= spec_update_body(req@));
    }
    r
}

} // verus!
