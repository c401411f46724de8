//! A JSON document tree, a verified renderer for it, and a trusted
//! parsing boundary.
//!
//! Requests are assembled as [`JsonValue`] trees and rendered to wire
//! text by [`JsonValue::to_text`], whose output is pinned down exactly
//! by the spec function [`json_text`]. Reply bodies are parsed by the
//! outside JSON parser and handed to verified code as the same tree.

use vstd::prelude::*;
use vstd::string::*;
use crate::strutil::push_char;

verus! {

/// A JSON document: the unit of exchange with the endpoint.
///
/// Numbers are carried as their decimal text, which keeps values of any
/// precision intact; the crate only ever builds digit strings itself.
#[derive(Debug)]
pub enum JsonValue {
    /// The JSON null value.
    Null,
    /// A JSON boolean.
    Bool(bool),
    /// A JSON number, held as its literal text.
    Num(String),
    /// A JSON string.
    Str(String),
    /// A JSON array.
    Arr(Vec<JsonValue>),
    /// A JSON object: ordered members with their keys.
    Obj(Vec<(String, JsonValue)>),
}

/// Structural equality of two documents: same shape, with strings
/// compared by content.
pub open spec fn jv_equiv(a: JsonValue, b: JsonValue) -> bool
    decreases a,
{
    match (a, b) {
        (JsonValue::Null, JsonValue::Null) => true,
        (JsonValue::Bool(x), JsonValue::Bool(y)) => x == y,
        (JsonValue::Num(x), JsonValue::Num(y)) => x@ == y@,
        (JsonValue::Str(x), JsonValue::Str(y)) => x@ == y@,
        (JsonValue::Arr(x), JsonValue::Arr(y)) => x@.len() == y@.len() && (forall|i: int|
            0 <= i < x@.len() ==> jv_equiv(#[trigger] x@[i], y@[i])),
        (JsonValue::Obj(x), JsonValue::Obj(y)) => x@.len() == y@.len() && (forall|i: int|
            0 <= i < x@.len() ==> (#[trigger] x@[i]).0@ == y@[i].0@ && jv_equiv(x@[i].1, y@[i].1)),
        _ => false,
    }
}

/// The hexadecimal digit character for a value below sixteen.
pub open spec fn hex_digit(n: nat) -> char {
    if n == 0 {
        '0'
    } else if n == 1 {
        '1'
    } else if n == 2 {
        '2'
    } else if n == 3 {
        '3'
    } else if n == 4 {
        '4'
    } else if n == 5 {
        '5'
    } else if n == 6 {
        '6'
    } else if n == 7 {
        '7'
    } else if n == 8 {
        '8'
    } else if n == 9 {
        '9'
    } else if n == 10 {
        'a'
    } else if n == 11 {
        'b'
    } else if n == 12 {
        'c'
    } else if n == 13 {
        'd'
    } else if n == 14 {
        'e'
    } else {
        'f'
    }
}

/// The escape of one character inside a JSON string literal: quote and
/// backslash get a backslash escape, control characters a `\u00XX`
/// escape, and everything else stands for itself.
pub open spec fn esc_char(c: char) -> Seq<char> {
    if c == '"' {
        seq!['\\', '"']
    } else if c == '\\' {
        seq!['\\', '\\']
    } else if (c as u32) < 32 {
        seq!['\\', 'u', '0', '0', hex_digit((c as u32 / 16) as nat), hex_digit(
            (c as u32 % 16) as nat,
        )]
    } else {
        seq![c]
    }
}

/// The escaped text of the characters of `s` from position `i` on.
pub open spec fn esc_from(s: Seq<char>, i: int) -> Seq<char>
    decreases s.len() - i,
{
    if i < 0 || i >= s.len() {
        Seq::empty()
    } else {
        esc_char(s[i]) + esc_from(s, i + 1)
    }
}

/// The JSON string literal for the character sequence `s`.
pub open spec fn str_text(s: Seq<char>) -> Seq<char> {
    seq!['"'] + esc_from(s, 0) + seq!['"']
}

/// The JSON text of a document.
pub open spec fn json_text(v: JsonValue) -> Seq<char>
    decreases v,
{
    match v {
        JsonValue::Null => "null"@,
        JsonValue::Bool(b) => if b {
            "true"@
        } else {
            "false"@
        },
        JsonValue::Num(s) => s@,
        JsonValue::Str(s) => str_text(s@),
        JsonValue::Arr(items) => seq!['['] + arr_body_text(items@) + seq![']'],
        JsonValue::Obj(members) => seq!['{'] + obj_body_text(members@) + seq!['}'],
    }
}

/// The comma-separated texts of an array's elements.
pub open spec fn arr_body_text(items: Seq<JsonValue>) -> Seq<char>
    decreases items, 2int, 0int,
{
    if items.len() == 0 {
        Seq::empty()
    } else {
        json_text(items[0]) + arr_tail_text(items, 1)
    }
}

/// The texts of `items[i..]`, each preceded by a comma.
pub open spec fn arr_tail_text(items: Seq<JsonValue>, i: int) -> Seq<char>
    decreases items, 1int, items.len() - i,
{
    if i < 1 || i >= items.len() {
        Seq::empty()
    } else {
        seq![','] + json_text(items[i]) + arr_tail_text(items, i + 1)
    }
}

/// The text of one object member: quoted key, colon, value.
pub open spec fn member_text(m: (String, JsonValue)) -> Seq<char>
    decreases m, 0int, 0int,
{
    str_text(m.0@) + seq![':'] + json_text(m.1)
}

/// The comma-separated texts of an object's members.
pub open spec fn obj_body_text(members: Seq<(String, JsonValue)>) -> Seq<char>
    decreases members, 2int, 0int,
{
    if members.len() == 0 {
        Seq::empty()
    } else {
        member_text(members[0]) + obj_tail_text(members, 1)
    }
}

/// The texts of `members[i..]`, each preceded by a comma.
pub open spec fn obj_tail_text(members: Seq<(String, JsonValue)>, i: int) -> Seq<char>
    decreases members, 1int, members.len() - i,
{
    if i < 1 || i >= members.len() {
        Seq::empty()
    } else {
        seq![','] + member_text(members[i]) + obj_tail_text(members, i + 1)
    }
}

fn hex_digit_of(n: u32) -> (c: char)
    requires
        n < 16,
    ensures
        c == hex_digit(n as nat),
{
    if n == 0 {
        '0'
    } else if n == 1 {
        '1'
    } else if n == 2 {
        '2'
    } else if n == 3 {
        '3'
    } else if n == 4 {
        '4'
    } else if n == 5 {
        '5'
    } else if n == 6 {
        '6'
    } else if n == 7 {
        '7'
    } else if n == 8 {
        '8'
    } else if n == 9 {
        '9'
    } else if n == 10 {
        'a'
    } else if n == 11 {
        'b'
    } else if n == 12 {
        'c'
    } else if n == 13 {
        'd'
    } else if n == 14 {
        'e'
    } else {
        'f'
    }
}

/// Appends the JSON string literal for `s` to `out`.
fn append_str_literal(s: &str, out: &mut String)
    ensures
        final(out)@ == old(out)@ + str_text(s@),
{
    push_char(out, '"');
    let n = s.unicode_len();
    let mut i: usize = 0;
    while i < n
        invariant
            n == s@.len(),
            0 <= i <= n,
            out@ + esc_from(s@, i as int) == old(out)@ + seq!['"'] + esc_from(s@, 0),
        decreases n - i,
    {
        let c = s.get_char(i);
        if c == '"' {
            push_char(out, '\\');
            push_char(out, '"');
        } else if c == '\\' {
            push_char(out, '\\');
            push_char(out, '\\');
        } else if (c as u32) < 32 {
            push_char(out, '\\');
            push_char(out, 'u');
            push_char(out, '0');
            push_char(out, '0');
            push_char(out, hex_digit_of((c as u32) / 16));
            push_char(out, hex_digit_of((c as u32) % 16));
        } else {
            push_char(out, c);
        }
        i += 1;
        proof {
            assert(out@ + esc_from(s@, i as int) == old(out)@ + seq!['"'] + esc_from(s@, 0));
        }
    }
    push_char(out, '"');
    proof {
        assert(final(out)@ =~= old(out)@ + str_text(s@));
    }
}

/// Appends the JSON text of `v` to `out`.
#[verifier::loop_isolation(false)]
#[verifier::rlimit(60)]
fn render_into(v: &JsonValue, out: &mut String)
    ensures
        final(out)@ == old(out)@ + json_text(*v),
    decreases v,
{
    match v {
        JsonValue::Null => {
            out.append("null");
        },
        JsonValue::Bool(b) => {
            if *b {
                out.append("true");
            } else {
                out.append("false");
            }
        },
        JsonValue::Num(s) => {
            out.append(s.as_str());
        },
        JsonValue::Str(s) => {
            append_str_literal(s.as_str(), out);
        },
        JsonValue::Arr(items) => {
            push_char(out, '[');
            proof {
                assert(out@ =~= old(out)@ + seq!['[']);
            }
            let n = items.len();
            let mut i: usize = 0;
            while i < n
                invariant
                    n == items@.len(),
                    0 <= i <= n,
                    i == 0 ==> out@ == old(out)@ + seq!['['],
                    i > 0 ==> out@ + arr_tail_text(items@, i as int) == old(out)@ + seq!['[']
                        + arr_body_text(items@),
                decreases n - i,
            {
                if i > 0 {
                    push_char(out, ',');
                }
                proof {
                    vstd::std_specs::vec::axiom_vec_index_decreases(*items, i as int);
                }
                render_into(&items[i], out);
                proof {
                    if i == 0 {
                        assert(arr_body_text(items@) == json_text(items@[0]) + arr_tail_text(
                            items@,
                            1,
                        ));
                    } else {
                        assert(arr_tail_text(items@, i as int) == seq![','] + json_text(
                            items@[i as int],
                        ) + arr_tail_text(items@, i + 1));
                    }
                    assert(out@ + arr_tail_text(items@, i + 1) =~= old(out)@ + seq!['[']
                        + arr_body_text(items@));
                }
                i += 1;
            }
            proof {
                if n == 0 {
                    assert(out@ + arr_tail_text(items@, 0) =~= old(out)@ + seq!['[']
                        + arr_body_text(items@));
                }
            }
            push_char(out, ']');
            proof {
                assert(final(out)@ =~= old(out)@ + json_text(*v));
            }
        },
        JsonValue::Obj(members) => {
            push_char(out, '{');
            proof {
                assert(out@ =~= old(out)@ + seq!['{']);
            }
            let n = members.len();
            let mut i: usize = 0;
            while i < n
                invariant
                    n == members@.len(),
                    0 <= i <= n,
                    i == 0 ==> out@ == old(out)@ + seq!['{'],
                    i > 0 ==> out@ + obj_tail_text(members@, i as int) == old(out)@ + seq!['{']
                        + obj_body_text(members@),
                decreases n - i,
            {
                if i > 0 {
                    push_char(out, ',');
                }
                proof {
                    vstd::std_specs::vec::axiom_vec_index_decreases(*members, i as int);
                }
                let m = &members[i];
                append_str_literal(m.0.as_str(), out);
                push_char(out, ':');
                render_into(&m.1, out);
                proof {
                    if i == 0 {
                        assert(obj_body_text(members@) == member_text(members@[0]) + obj_tail_text(
                            members@,
                            1,
                        ));
                    } else {
                        assert(obj_tail_text(members@, i as int) == seq![','] + member_text(
                            members@[i as int],
                        ) + obj_tail_text(members@, i + 1));
                    }
                    assert(member_text(members@[i as int]) == str_text(members@[i as int].0@)
                        + seq![':'] + json_text(members@[i as int].1));
                    assert(out@ + obj_tail_text(members@, i + 1) =~= old(out)@ + seq!['{']
                        + obj_body_text(members@));
                }
                i += 1;
            }
            proof {
                if n == 0 {
                    assert(out@ + obj_tail_text(members@, 0) =~= old(out)@ + seq!['{']
                        + obj_body_text(members@));
                }
            }
            push_char(out, '}');
            proof {
                assert(final(out)@ =~= old(out)@ + json_text(*v));
            }
        },
    }
}

impl JsonValue {
    /// Renders this document as JSON text.
    pub fn to_text(&self) -> (r: String)
        ensures
            r@ == json_text(*self),
    {
        let mut out = String::new();
        render_into(self, &mut out);
        proof {
            assert(out@ =~= json_text(*self));
        }
        out
    }

    /// A structurally equal copy of this document.
    #[verifier::loop_isolation(false)]
    pub fn duplicate(&self) -> (r: JsonValue)
        ensures
            jv_equiv(r, *self),
        decreases self,
    {
        match self {
            JsonValue::Null => JsonValue::Null,
            JsonValue::Bool(b) => JsonValue::Bool(*b),
            JsonValue::Num(s) => JsonValue::Num(s.clone()),
            JsonValue::Str(s) => JsonValue::Str(s.clone()),
            JsonValue::Arr(items) => {
                let mut out: Vec<JsonValue> = Vec::new();
                let n = items.len();
                let mut i: usize = 0;
                while i < n
                    invariant
                        n == items@.len(),
                        0 <= i <= n,
                        out@.len() == i,
                        forall|j: int| 0 <= j < i ==> jv_equiv(#[trigger] out@[j], items@[j]),
                    decreases n - i,
                {
                    proof {
                        vstd::std_specs::vec::axiom_vec_index_decreases(*items, i as int);
                    }
                    out.push(items[i].duplicate());
                    i += 1;
                }
                JsonValue::Arr(out)
            },
            JsonValue::Obj(members) => {
                let mut out: Vec<(String, JsonValue)> = Vec::new();
                let n = members.len();
                let mut i: usize = 0;
                while i < n
                    invariant
                        n == members@.len(),
                        0 <= i <= n,
                        out@.len() == i,
                        forall|j: int|
                            0 <= j < i ==> (#[trigger] out@[j]).0@ == members@[j].0@ && jv_equiv(
                                out@[j].1,
                                members@[j].1,
                            ),
                    decreases n - i,
                {
                    proof {
                        vstd::std_specs::vec::axiom_vec_index_decreases(*members, i as int);
                    }
                    let m = &members[i];
                    out.push((m.0.clone(), m.1.duplicate()));
                    i += 1;
                }
                JsonValue::Obj(out)
            },
        }
    }
}

#[verifier::external_type_specification]
#[verifier::external_body]
pub struct ExValue(serde_json::Value);

/// What the outside JSON parser returns for a given text, as this
/// crate's tree or the parser's error message. The result depends on
/// the text alone; nothing else is assumed about it.
pub uninterp spec fn spec_parse_json(s: Seq<char>) -> Result<JsonValue, String>;

/// Relies on `serde_json::from_str::<serde_json::Value>` to parse JSON
/// text; the result is a function of the text alone, named by
/// [`spec_parse_json`] and otherwise unconstrained. A successful parse
/// is converted node for node into this crate's tree; a failure
/// becomes the parser's error message.
#[verifier::external_body]
pub(crate) fn parse_json(s: &str) -> (r: Result<JsonValue, String>)
    ensures
        r == spec_parse_json(s@),
{
    match serde_json::from_str::<serde_json::Value>(s) {
        Ok(v) => Ok(value_to_json(v)),
        Err(e) => Err(e.to_string()),
    }
}

/// Relies on the variants of `serde_json::Value`: each node is moved,
/// one for one, into the matching [`JsonValue`] variant, with numbers
/// carried as their decimal text.
#[verifier::external_body]
fn value_to_json(v: serde_json::Value) -> JsonValue {
    match v {
        serde_json::Value::Null => JsonValue::Null,
        serde_json::Value::Bool(b) => JsonValue::Bool(b),
        serde_json::Value::Number(n) => JsonValue::Num(n.to_string()),
        serde_json::Value::String(s) => JsonValue::Str(s),
        serde_json::Value::Array(a) => JsonValue::Arr(a.into_iter().map(value_to_json).collect()),
        serde_json::Value::Object(m) => JsonValue::Obj(
            m.into_iter().map(|(k, x)| (k, value_to_json(x))).collect(),
        ),
    }
}

} // verus!
