//! JSON text of the request bodies that the client and the command line send.
//! String escaping is serde_json's; the objects around it are framed here.

use vstd::prelude::*;
use vstd::string::*;
use crate::numeral::{dec_int, push_dec_i64};

verus! {

/// Lower-case hexadecimal digit of `d` (`d < 16`).
pub open spec fn hex_digit_lower(d: int) -> char {
    if d < 10 {
        crate::numeral::digit_char(d as nat)
    } else if d == 10 { 'a' }
    else if d == 11 { 'b' }
    else if d == 12 { 'c' }
    else if d == 13 { 'd' }
    else if d == 14 { 'e' }
    else { 'f' }
}

/// How serde_json writes one character inside a JSON string: `"` and `\`
/// and the control characters below U+0020 are escaped, everything else is
/// written as it is.
pub open spec fn json_escape_char(c: char) -> Seq<char> {
    if c == '"' {
        seq!['\\', '"']
    } else if c == '\\' {
        seq!['\\', '\\']
    } else if c == '\u{8}' {
        seq!['\\', 'b']
    } else if c == '\t' {
        seq!['\\', 't']
    } else if c == '\n' {
        seq!['\\', 'n']
    } else if c == '\u{c}' {
        seq!['\\', 'f']
    } else if c == '\r' {
        seq!['\\', 'r']
    } else if (c as u32) < 0x20 {
        seq![
            '\\',
            'u',
            '0',
            '0',
            hex_digit_lower((c as u32) as int / 16),
            hex_digit_lower((c as u32) as int % 16),
        ]
    } else {
        seq![c]
    }
}

/// The escaped contents of a JSON string.
pub open spec fn json_escape(s: Seq<char>) -> Seq<char>
    decreases s.len(),
{
    if s.len() == 0 {
        Seq::empty()
    } else {
        json_escape(s.drop_last()) + json_escape_char(s.last())
    }
}

/// A JSON string literal holding `s`.
pub open spec fn json_string(s: Seq<char>) -> Seq<char> {
    seq!['"'] + json_escape(s) + seq!['"']
}

/// serde_json's `to_string` on a `&str`: the string in double quotes, with
/// `"`, `\` and the characters below U+0020 escaped as its `ESCAPE` table and
/// `write_char_escape` do (`\b \t \n \f \r`, other controls as `\u00xx` in
/// lower-case hex). Serialising a `str` into a `Vec` cannot fail, so the
/// error arm is never taken.
#[verifier::external_body]
fn json_quote(s: &str) -> (r: String)
    ensures
        r@ == json_string(s@),
{
    match serde_json::to_string(s) {
        Ok(t) => t,
        Err(_) => String::new(),
    }
}

/// Body of a student's login request: `{"code":<code>}`.
pub fn student_credentials(code: &str) -> (r: String)
    ensures
        r@ == "{\"code\":"@ + json_string(code@) + "}"@,
{
    let mut r = String::from_str("{\"code\":");
    let q = json_quote(code);
    r.append(q.as_str());
    r.append("}");
    r
}

/// Body of a teacher's login request, with the keys in serde_json's map
/// order: `{"pass":<password>,"user":<user>}`.
pub fn teacher_credentials(user: &str, password: &str) -> (r: String)
    ensures
        r@ == "{\"pass\":"@ + json_string(password@) + ",\"user\":"@ + json_string(user@) + "}"@,
{
    let mut r = String::from_str("{\"pass\":");
    let p = json_quote(password);
    r.append(p.as_str());
    r.append(",\"user\":");
    let u = json_quote(user);
    r.append(u.as_str());
    r.append("}");
    r
}

/// The JSON text of an optional integer: the numeral, or `null`.
pub open spec fn json_opt_int(v: Option<i64>) -> Seq<char> {
    match v {
        Some(n) => dec_int(n as int),
        None => "null"@,
    }
}

/// Body of the request that chooses (or, with `None`, withdraws) the
/// delivered attempt: `{"simulation_id":<id or null>}`.
pub fn delivery_body(simulation_id: Option<i64>) -> (r: String)
    ensures
        r@ == "{\"simulation_id\":"@ + json_opt_int(simulation_id) + "}"@,
{
    let mut r = String::from_str("{\"simulation_id\":");
    match simulation_id {
        Some(n) => push_dec_i64(&mut r, n),
        None => r.append("null"),
    }
    r.append("}");
    r
}

/// Body that creates or updates a student (a group or a single pupil):
/// `{"name":<name>,"project_id":<id>}`.
pub fn student_body(name: &str, project_id: i64) -> (r: String)
    ensures
        r@ == "{\"name\":"@ + json_string(name@) + ",\"project_id\":"@ + dec_int(project_id as int)
            + "}"@,
{
    let mut r = String::from_str("{\"name\":");
    let q = json_quote(name);
    r.append(q.as_str());
    r.append(",\"project_id\":");
    push_dec_i64(&mut r, project_id);
    r.append("}");
    r
}

/// Body of the command line's user requests (login, new teacher, new
/// password): `{"user":<user>,"pass":<password>}`.
pub fn user_request_body(user: &str, password: &str) -> (r: String)
    ensures
        r@ == "{\"user\":"@ + json_string(user@) + ",\"pass\":"@ + json_string(password@) + "}"@,
{
    let mut r = String::from_str("{\"user\":");
    let u = json_quote(user);
    r.append(u.as_str());
    r.append(",\"pass\":");
    let p = json_quote(password);
    r.append(p.as_str());
    r.append("}");
    r
}

} // verus!
