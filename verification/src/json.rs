use vstd::prelude::*;

use crate::text::{is_ascii_digit, opt_view, str_equals};
use vstd::std_specs::cmp::PartialEqSpecImpl;

verus! {

/// serde_json's compact text of the JSON value that `serde_json::from_str` reads from `text`,
/// or `None` where serde_json refuses `text`.
pub uninterp spec fn json_normal_form(text: Seq<char>) -> Option<Seq<char>>;

/// Whether serde_json holds the values it reads from `a` and from `b` equal (`None` where it
/// refuses the text). Numbers compare as serde_json compares them, so `0.0` equals `-0.0`.
pub uninterp spec fn json_equal(a: Seq<char>, b: Seq<char>) -> bool;

/// The text holds no number written as serde_json writes a float: outside its strings there is
/// no `.` and no `e` or `E` right after a digit.
pub open spec fn json_float_free(t: Seq<char>) -> bool
    decreases t.len(),
{
    if t.len() == 0 {
        true
    } else if t[0] == '"' {
        json_float_free_in_string(t.skip(1))
    } else if t[0] == '.' {
        false
    } else if is_ascii_digit(t[0]) && t.len() > 1 && (t[1] == 'e' || t[1] == 'E') {
        false
    } else {
        json_float_free(t.skip(1))
    }
}

/// `json_float_free` for the rest of a text that starts inside a string.
pub open spec fn json_float_free_in_string(t: Seq<char>) -> bool
    decreases t.len(),
{
    if t.len() == 0 {
        true
    } else if t[0] == '\\' {
        if t.len() < 2 {
            true
        } else {
            json_float_free_in_string(t.skip(2))
        }
    } else if t[0] == '"' {
        json_float_free(t.skip(1))
    } else {
        json_float_free_in_string(t.skip(1))
    }
}

/// The text holds a JSON object with at least one member.
pub open spec fn json_text_is_nonempty_object(t: Seq<char>) -> bool {
    json_text_is_object(t) && t != "{}"@
}

/// What holds of every text that serde_json writes for a value: without floats, reading it
/// back gives the same text, and an object with a member takes at least six characters
/// (`{"":0}`).
pub open spec fn json_written(t: Seq<char>) -> bool {
    &&& json_float_free(t) ==> json_normal_form(t) == Some(t)
    &&& json_text_is_nonempty_object(t) ==> t.len() >= 6
}

/// The hexadecimal digit of `d`, in lower case.
pub open spec fn hex_digit(d: u32) -> char {
    if d < 10 {
        (d + 48) as char
    } else {
        (d + 87) as char
    }
}

/// How serde_json writes a character inside a string: `"` and `\` escaped, the short escapes
/// of backspace, tab, line feed, form feed and carriage return, `\u00XX` for the other
/// characters below 0x20, and every other character as it is.
pub open spec fn json_escape_char(c: char) -> Seq<char> {
    let n = c as u32;
    if c == '"' {
        seq!['\\', '"']
    } else if c == '\\' {
        seq!['\\', '\\']
    } else if n == 8 {
        seq!['\\', 'b']
    } else if n == 9 {
        seq!['\\', 't']
    } else if n == 10 {
        seq!['\\', 'n']
    } else if n == 12 {
        seq!['\\', 'f']
    } else if n == 13 {
        seq!['\\', 'r']
    } else if n < 32 {
        seq!['\\', 'u', '0', '0', hex_digit(n / 16), hex_digit(n % 16)]
    } else {
        seq![c]
    }
}

/// The characters of `s`, each written as serde_json writes it inside a string.
pub open spec fn json_escape(s: Seq<char>) -> Seq<char>
    decreases s.len(),
{
    if s.len() == 0 {
        seq![]
    } else {
        json_escape(s.drop_last()) + json_escape_char(s.last())
    }
}

/// serde_json's compact text of the JSON string whose contents are `s`: `s` escaped, between
/// quotes.
pub open spec fn json_string_text(s: Seq<char>) -> Seq<char> {
    seq!['"'] + json_escape(s) + seq!['"']
}

/// Calls `serde_json::from_str::<serde_json::Value>` on `text` and writes the value that comes
/// back with its compact `Display`. The result is the name `json_normal_form` of the text; what
/// serde_json accepts and how it writes a value is not stated beyond two facts of its writer:
/// text without floats reads back as itself (integers that fit in `u64` or `i64`, strings and
/// the sorted keys of its maps all read back unchanged, and it writes every float with a `.` or
/// with an exponent right after a digit), and an object with a member holds at least a key in
/// quotes, a `:` and a value.
#[verifier::external_body]
fn normalize_json(text: &str) -> (r: Option<String>)
    ensures
        opt_view(r) == json_normal_form(text@),
        r matches Some(t) ==> (json_float_free(t@) ==> json_normal_form(t@) == Some(t@)),
        r matches Some(t) ==> (json_text_is_nonempty_object(t@) ==> t@.len() >= 6),
{
    match serde_json::from_str::<serde_json::Value>(text) {
        Ok(value) => Some(value.to_string()),
        Err(_) => None,
    }
}

/// Writes `serde_json::Value::String(s)` with its compact `Display`: `s` between quotes, with
/// `"`, `\` and the characters below 0x20 escaped as `json_escape_char` says. Reading that text
/// back gives the same string, which serde_json writes the same way.
#[verifier::external_body]
fn quote_json_string(s: &str) -> (r: String)
    ensures
        r@ == json_string_text(s@),
        json_normal_form(r@) == Some(r@),
{
    serde_json::Value::String(s.to_owned()).to_string()
}

/// Writes `serde_json::Value::Null` with its compact `Display`, which is `null`; reading that
/// back gives `null` again.
#[verifier::external_body]
fn null_json_text() -> (r: String)
    ensures
        r@ == "null"@,
        json_normal_form(r@) == Some(r@),
{
    serde_json::Value::Null.to_string()
}

/// Reads both texts with `serde_json::from_str::<serde_json::Value>` and compares what comes
/// back with `==`. The result is the name `json_equal` of the two texts; equal texts compare
/// equal.
#[verifier::external_body]
fn json_values_equal(a: &str, b: &str) -> (r: bool)
    ensures
        r == json_equal(a@, b@),
        a@ == b@ ==> r,
{
    serde_json::from_str::<serde_json::Value>(a).ok() == serde_json::from_str::<serde_json::Value>(b).ok()
}

/// A JSON value, held as serde_json's compact text of it.
#[derive(Debug, Eq)]
pub struct JsonValue {
    text: String,
}

impl JsonValue {
    /// The text is one that serde_json writes.
    #[verifier::type_invariant]
    spec fn inv(&self) -> bool {
        json_written(self.text@)
    }
}

impl Clone for JsonValue {
    fn clone(&self) -> (r: Self)
        ensures
            r == *self,
    {
        proof {
            use_type_invariant(self);
        }
        JsonValue { text: self.text.clone() }
    }
}

impl PartialEq for JsonValue {
    fn eq(&self, other: &Self) -> (r: bool) {
        json_values_equal(self.text.as_str(), other.text.as_str())
    }
}

impl PartialEqSpecImpl for JsonValue {
    open spec fn obeys_eq_spec() -> bool {
        true
    }

    open spec fn eq_spec(&self, other: &JsonValue) -> bool {
        json_equal(self@, other@)
    }
}

impl View for JsonValue {
    type V = Seq<char>;

    closed spec fn view(&self) -> Seq<char> {
        self.text@
    }
}

/// The views of an optional JSON value.
pub open spec fn opt_json_view(o: Option<JsonValue>) -> Option<Seq<char>> {
    match o {
        Some(j) => Some(j@),
        None => None,
    }
}

/// The text holds a JSON object.
pub open spec fn json_text_is_object(t: Seq<char>) -> bool {
    t.len() > 0 && t[0] == '{'
}

/// The text holds a JSON array.
pub open spec fn json_text_is_array(t: Seq<char>) -> bool {
    t.len() > 0 && t[0] == '['
}

/// The text holds a JSON array with at least one element.
pub open spec fn json_text_is_nonempty_array(t: Seq<char>) -> bool {
    json_text_is_array(t) && t != "[]"@
}

/// The text holds JSON `null`.
pub open spec fn json_text_is_null(t: Seq<char>) -> bool {
    t == "null"@
}

impl JsonValue {
    /// Reads a JSON value from text, as `serde_json::from_str` does; `None` where serde_json
    /// refuses the text.
    pub fn parse(text: &str) -> (r: Option<JsonValue>)
        ensures
            opt_json_view(r) == json_normal_form(text@),
    {
        match normalize_json(text) {
            Some(t) => Some(JsonValue { text: t }),
            None => None,
        }
    }

    /// The JSON string whose contents are `s`.
    pub fn string(s: &str) -> (r: JsonValue)
        ensures
            r@ == json_string_text(s@),
    {
        JsonValue { text: quote_json_string(s) }
    }

    /// JSON `null`, the value serde_json gives by default.
    pub fn null() -> (r: JsonValue)
        ensures
            r@ == "null"@,
    {
        let text = null_json_text();
        proof {
            reveal_strlit("null");
        }
        JsonValue { text }
    }

    /// The compact text of the value.
    pub fn as_str(&self) -> (r: &str)
        ensures
            r@ == self@,
            json_written(self@),
    {
        proof {
            use_type_invariant(self);
        }
        self.text.as_str()
    }

    /// The value is an object.
    pub fn is_object(&self) -> (r: bool)
        ensures
            r == json_text_is_object(self@),
    {
        let t = self.text.as_str();
        !t.is_empty() && t.get_char(0) == '{'
    }

    /// The value is an array.
    pub fn is_array(&self) -> (r: bool)
        ensures
            r == json_text_is_array(self@),
    {
        let t = self.text.as_str();
        !t.is_empty() && t.get_char(0) == '['
    }

    /// The value is an array with at least one element.
    pub fn is_nonempty_array(&self) -> (r: bool)
        ensures
            r == json_text_is_nonempty_array(self@),
    {
        proof {
            reveal_strlit("[]");
        }
        self.is_array() && !str_equals(self.text.as_str(), "[]")
    }

    /// The value is `null`.
    pub fn is_null(&self) -> (r: bool)
        ensures
            r == json_text_is_null(self@),
    {
        str_equals(self.text.as_str(), "null")
    }
}

} // verus!
