//! JSON values as the protocol logic reads and builds them.
use vstd::prelude::*;

use crate::assoc::{AssocList, KeyEq};
use crate::text::{chars_of, decimal, decimal_string, push_char, push_str, signed_decimal, signed_decimal_string};

verus! {

impl KeyEq for String {
    fn key_eq(&self, other: &Self) -> (r: bool) {
        self.eq(other)
    }
}

/// A JSON number: an integer, or the text of any other number.
#[derive(Debug, PartialEq)]
pub enum JsonNumber {
    PosInt(u64),
    NegInt(i64),
    /// A number that is not an integer, kept as its JSON text.
    Float(String),
}

/// A JSON value.
#[derive(Debug, PartialEq)]
pub enum JsonValue {
    Null,
    Bool(bool),
    Number(JsonNumber),
    String(String),
    Array(Vec<JsonValue>),
    Object(JsonObject),
}

/// The mathematical value of a JSON number.
pub enum JsonNumberSpec {
    PosInt(u64),
    NegInt(i64),
    Float(Seq<char>),
}

/// The mathematical value of a JSON value.
pub enum JsonSpec {
    Null,
    Bool(bool),
    Number(JsonNumberSpec),
    String(Seq<char>),
    Array(Seq<JsonSpec>),
    Object(Map<Seq<char>, JsonSpec>),
}

impl View for JsonNumber {
    type V = JsonNumberSpec;

    open spec fn view(&self) -> JsonNumberSpec {
        match self {
            JsonNumber::PosInt(n) => JsonNumberSpec::PosInt(*n),
            JsonNumber::NegInt(n) => JsonNumberSpec::NegInt(*n),
            JsonNumber::Float(s) => JsonNumberSpec::Float(s@),
        }
    }
}

/// The mathematical value of a JSON value.
pub open spec fn json_view(v: JsonValue) -> JsonSpec
    decreases v,
{
    match v {
        JsonValue::Null => JsonSpec::Null,
        JsonValue::Bool(b) => JsonSpec::Bool(b),
        JsonValue::Number(n) => JsonSpec::Number(n@),
        JsonValue::String(s) => JsonSpec::String(s@),
        JsonValue::Array(items) => JsonSpec::Array(
            Seq::new(items@.len(), |i: int| if 0 <= i < items@.len() { json_view(items@[i]) } else { JsonSpec::Null }),
        ),
        JsonValue::Object(o) => JsonSpec::Object(
            Map::new(
                |k: Seq<char>| o.view().contains_key(k),
                |k: Seq<char>| json_view_member(o, k),
            ),
        ),
    }
}

pub open spec fn json_view_member(o: JsonObject, k: Seq<char>) -> JsonSpec
    decreases o,
{
    if exists|i: int| crate::assoc::has_key_at(o.entries@, k, i) {
        let i = choose|i: int| crate::assoc::has_key_at(o.entries@, k, i);
        json_view(o.entries@[i].1)
    } else {
        JsonSpec::Null
    }
}

impl View for JsonValue {
    type V = JsonSpec;

    open spec fn view(&self) -> JsonSpec {
        json_view(*self)
    }
}

/// A JSON object: keys and their values, each key once.
pub type JsonObject = AssocList<String, JsonValue>;

/// The member `key` of `v`, when `v` is an object that has it.
pub open spec fn json_get(v: JsonValue, key: Seq<char>) -> Option<JsonValue> {
    match v {
        JsonValue::Object(o) => if o.view().contains_key(key) {
            Some(o.view()[key])
        } else {
            None
        },
        _ => None,
    }
}

/// The text of `v`, when `v` is a string.
pub open spec fn json_str(v: JsonValue) -> Option<Seq<char>> {
    match v {
        JsonValue::String(s) => Some(s@),
        _ => None,
    }
}

/// The text of the member `key` of `v`, when it is a string.
pub open spec fn json_get_str(v: JsonValue, key: Seq<char>) -> Option<Seq<char>> {
    match json_get(v, key) {
        Some(m) => json_str(m),
        None => None,
    }
}

/// Every object in `v`, at any depth, has unique keys.
pub open spec fn json_wf(v: JsonValue) -> bool
    decreases v,
{
    match v {
        JsonValue::Object(o) => o.wf(),
        _ => true,
    }
}

/// Every object in `v`, at any depth, has unique keys (as every parsed JSON value does).
pub open spec fn json_deep_wf(v: JsonValue) -> bool
    decreases v,
{
    match v {
        JsonValue::Object(o) => o.wf() && forall|i: int|
            0 <= i < o.entries@.len() ==> json_deep_wf(#[trigger] o.entries@[i].1),
        JsonValue::Array(items) => forall|i: int| 0 <= i < items@.len() ==> json_deep_wf(#[trigger] items@[i]),
        _ => true,
    }
}

/// A member of a deeply well-formed value is deeply well-formed.
pub proof fn lemma_member_deep_wf(v: JsonValue, key: Seq<char>)
    requires
        json_deep_wf(v),
        json_get(v, key) is Some,
    ensures
        json_deep_wf(json_get(v, key).unwrap()),
{
    if let JsonValue::Object(o) = v {
        let i = choose|i: int| crate::assoc::has_key_at(o.entries@, key, i);
        crate::assoc::lemma_assoc_at(o.entries@, i);
    }
}

impl JsonValue {
    /// The member `key`, when this is an object that has it.
    pub fn get(&self, key: &str) -> (r: Option<&JsonValue>)
        requires
            json_wf(*self),
        ensures
            r matches Some(m) ==> json_get(*self, key@) == Some(*m),
            r is None ==> json_get(*self, key@) is None,
    {
        match self {
            JsonValue::Object(o) => {
                let k = key.to_owned();
                o.get(&k)
            },
            _ => None,
        }
    }

    /// The text, when this is a string.
    pub fn as_str(&self) -> (r: Option<&String>)
        ensures
            r matches Some(s) ==> json_str(*self) == Some(s@),
            r is None ==> json_str(*self) is None,
    {
        match self {
            JsonValue::String(s) => Some(s),
            _ => None,
        }
    }

    /// The members, when this is an object.
    pub fn as_object(&self) -> (r: Option<&JsonObject>)
        ensures
            r matches Some(o) ==> *self == JsonValue::Object(*o),
            r is None ==> !(*self is Object),
    {
        match self {
            JsonValue::Object(o) => Some(o),
            _ => None,
        }
    }

    pub fn is_object(&self) -> (r: bool)
        ensures
            r == (*self is Object),
    {
        match self {
            JsonValue::Object(_) => true,
            _ => false,
        }
    }

    /// A string value.
    pub fn from_str(s: &str) -> (r: JsonValue)
        ensures
            json_str(r) == Some(s@),
    {
        JsonValue::String(s.to_owned())
    }
}

/// The view of a well-formed object is the view of each of its members.
pub proof fn lemma_object_view(o: JsonObject)
    requires
        o.wf(),
    ensures
        json_view(JsonValue::Object(o)) == JsonSpec::Object(o.view().map_values(|v: JsonValue| json_view(v))),
{
    assert forall|k: Seq<char>| #[trigger] o.view().contains_key(k) implies json_view_member(o, k) == json_view(
        o.view()[k],
    ) by {
        let i = choose|i: int| crate::assoc::has_key_at(o.entries@, k, i);
        crate::assoc::lemma_assoc_at(o.entries@, i);
    }
    let v = json_view(JsonValue::Object(o));
    let m = v->Object_0;
    assert forall|k: Seq<char>| #[trigger] m.contains_key(k) == o.view().contains_key(k) by {}
    assert forall|k: Seq<char>| #[trigger] m.contains_key(k) implies m[k] == json_view_member(o, k) by {}
    assert(m =~= o.view().map_values(|v: JsonValue| json_view(v)));
}

/// The view of an array is the view of each of its items.
pub proof fn lemma_array_view(items: Vec<JsonValue>)
    ensures
        json_view(JsonValue::Array(items)) == JsonSpec::Array(items@.map_values(|v: JsonValue| json_view(v))),
{
    let v = json_view(JsonValue::Array(items));
    let a = v->Array_0;
    assert(a.len() == items@.len());
    assert forall|i: int| 0 <= i < a.len() implies #[trigger] a[i] == json_view(items@[i]) by {}
    assert(a =~= items@.map_values(|v: JsonValue| json_view(v)));
}

/// A string value.
pub fn json_string(s: &str) -> (r: JsonValue)
    ensures
        r@ == JsonSpec::String(s@),
        json_wf(r),
{
    JsonValue::String(s.to_owned())
}

/// Wraps a finished object as a value.
pub fn json_object(o: JsonObject) -> (r: JsonValue)
    requires
        o.wf(),
    ensures
        r@ == JsonSpec::Object(o.view().map_values(|v: JsonValue| json_view(v))),
        json_wf(r),
{
    proof {
        lemma_object_view(o);
    }
    JsonValue::Object(o)
}

/// Wraps items as an array value.
pub fn json_array(items: Vec<JsonValue>) -> (r: JsonValue)
    ensures
        r@ == JsonSpec::Array(items@.map_values(|v: JsonValue| json_view(v))),
        json_wf(r),
{
    proof {
        lemma_array_view(items);
    }
    JsonValue::Array(items)
}

/// An object with no member.
pub fn empty_object() -> (r: JsonObject)
    ensures
        r.wf(),
        r.view() == Map::<Seq<char>, JsonValue>::empty(),
{
    AssocList::new()
}

/// Adds the member `key` to an object under construction.
pub fn put(o: &mut JsonObject, key: &str, value: JsonValue)
    requires
        old(o).wf(),
    ensures
        final(o).wf(),
        final(o).view() == old(o).view().insert(key@, value),
{
    o.insert(key.to_owned(), value);
}


/// The lowercase hexadecimal digits.
pub open spec fn hex_digits() -> Seq<char> {
    seq!['0', '1', '2', '3', '4', '5', '6', '7', '8', '9', 'a', 'b', 'c', 'd', 'e', 'f']
}

/// How a character stands inside a JSON string: a quote and a backslash behind a
/// backslash, the usual short escapes for backspace, form feed, line feed,
/// carriage return and tab, `\u00XX` for the other control characters, and
/// every other character as it is.
pub open spec fn escaped_char(c: char) -> Seq<char> {
    if c == '"' {
        seq!['\\', '"']
    } else if c == '\\' {
        seq!['\\', '\\']
    } else if c == '\x08' {
        seq!['\\', 'b']
    } else if c == '\x0c' {
        seq!['\\', 'f']
    } else if c == '\n' {
        seq!['\\', 'n']
    } else if c == '\r' {
        seq!['\\', 'r']
    } else if c == '\t' {
        seq!['\\', 't']
    } else if (c as u32) < 0x20 {
        seq!['\\', 'u', '0', '0', hex_digits()[((c as u32) / 16) as int], hex_digits()[((c as u32) % 16) as int]]
    } else {
        seq![c]
    }
}

/// The characters of `s`, each escaped.
pub open spec fn escaped(s: Seq<char>) -> Seq<char>
    decreases s.len(),
{
    if s.len() == 0 {
        Seq::empty()
    } else {
        escaped(s.drop_last()) + escaped_char(s.last())
    }
}

/// `s` as a JSON string.
pub open spec fn quoted(s: Seq<char>) -> Seq<char> {
    seq!['"'] + escaped(s) + seq!['"']
}

/// The texts of `parts` with a comma between each two.
pub open spec fn joined(parts: Seq<Seq<char>>) -> Seq<char>
    decreases parts.len(),
{
    if parts.len() == 0 {
        Seq::empty()
    } else if parts.len() == 1 {
        parts[0]
    } else {
        joined(parts.drop_last()) + seq![','] + parts.last()
    }
}

/// The JSON text of a number.
pub open spec fn number_text(n: JsonNumberSpec) -> Seq<char> {
    match n {
        JsonNumberSpec::PosInt(u) => decimal(u as nat),
        JsonNumberSpec::NegInt(i) => signed_decimal(i as int),
        JsonNumberSpec::Float(s) => s,
    }
}

/// The texts of the items of an array, and of the members (`"key":value`) of an
/// object, in their order; nothing for any other value.
pub open spec fn element_texts(v: JsonValue) -> Seq<Seq<char>>
    decreases v, 0int,
{
    match v {
        JsonValue::Array(items) => Seq::new(
            items@.len(),
            |i: int| if 0 <= i < items@.len() { json_text(items@[i]) } else { Seq::empty() },
        ),
        JsonValue::Object(o) => Seq::new(
            o.entries@.len(),
            |i: int| if 0 <= i < o.entries@.len() {
                quoted(o.entries@[i].0@) + seq![':'] + json_text(o.entries@[i].1)
            } else {
                Seq::empty()
            },
        ),
        _ => Seq::empty(),
    }
}

/// The compact JSON text of a value, with no whitespace: object members in the
/// object's order.
pub open spec fn json_text(v: JsonValue) -> Seq<char>
    decreases v, 1int,
{
    match v {
        JsonValue::Null => seq!['n', 'u', 'l', 'l'],
        JsonValue::Bool(b) => if b {
            seq!['t', 'r', 'u', 'e']
        } else {
            seq!['f', 'a', 'l', 's', 'e']
        },
        JsonValue::Number(n) => number_text(n@),
        JsonValue::String(s) => quoted(s@),
        JsonValue::Array(_) => seq!['['] + joined(element_texts(v)) + seq![']'],
        JsonValue::Object(_) => seq!['{'] + joined(element_texts(v)) + seq!['}'],
    }
}

fn push_escaped_char(out: &mut String, c: char)
    ensures
        final(out)@ == old(out)@ + escaped_char(c),
{
    let ghost start = out@;
    if c == '"' {
        push_char(out, '\\');
        push_char(out, '"');
    } else if c == '\\' {
        push_char(out, '\\');
        push_char(out, '\\');
    } else if c == '\x08' {
        push_char(out, '\\');
        push_char(out, 'b');
    } else if c == '\x0c' {
        push_char(out, '\\');
        push_char(out, 'f');
    } else if c == '\n' {
        push_char(out, '\\');
        push_char(out, 'n');
    } else if c == '\r' {
        push_char(out, '\\');
        push_char(out, 'r');
    } else if c == '\t' {
        push_char(out, '\\');
        push_char(out, 't');
    } else if (c as u32) < 0x20 {
        let digits = ['0', '1', '2', '3', '4', '5', '6', '7', '8', '9', 'a', 'b', 'c', 'd', 'e', 'f'];
        assert(digits@ =~= hex_digits());
        let n = c as u32;
        push_char(out, '\\');
        push_char(out, 'u');
        push_char(out, '0');
        push_char(out, '0');
        push_char(out, digits[(n / 16) as usize]);
        push_char(out, digits[(n % 16) as usize]);
    } else {
        push_char(out, c);
    }
    assert(out@ =~= start + escaped_char(c));
}

/// Appends `s` as a JSON string.
fn push_quoted(out: &mut String, s: &str)
    ensures
        final(out)@ == old(out)@ + quoted(s@),
{
    let ghost start = out@;
    let chars = chars_of(s);
    push_char(out, '"');
    let n = chars.len();
    let mut i: usize = 0;
    while i < n
        invariant
            n == chars@.len(),
            chars@ == s@,
            i <= n,
            out@ == start + seq!['"'] + escaped(s@.take(i as int)),
        decreases n - i,
    {
        proof {
            assert(s@.take(i + 1).drop_last() =~= s@.take(i as int));
        }
        push_escaped_char(out, chars[i]);
        proof {
            assert(out@ =~= start + seq!['"'] + escaped(s@.take(i + 1)));
        }
        i = i + 1;
    }
    assert(s@.take(n as int) =~= s@);
    push_char(out, '"');
    assert(out@ =~= start + quoted(s@));
}

proof fn lemma_joined_step(parts: Seq<Seq<char>>, i: int)
    requires
        0 <= i < parts.len(),
    ensures
        joined(parts.take(i + 1)) == if i == 0 {
            parts[0]
        } else {
            joined(parts.take(i)) + seq![','] + parts[i]
        },
{
    let t = parts.take(i + 1);
    if i > 0 {
        assert(t.drop_last() =~= parts.take(i));
    }
}

/// Appends the compact JSON text of `v`.
pub fn push_json_text(out: &mut String, v: &JsonValue)
    ensures
        final(out)@ == old(out)@ + json_text(*v),
    decreases v,
{
    let ghost start = out@;
    match v {
        JsonValue::Null => {
            push_str(out, "null");
            proof {
                reveal_strlit("null");
            }
        },
        JsonValue::Bool(b) => {
            if *b {
                push_str(out, "true");
                proof {
                    reveal_strlit("true");
                }
            } else {
                push_str(out, "false");
                proof {
                    reveal_strlit("false");
                }
            }
        },
        JsonValue::Number(n) => {
            match n {
                JsonNumber::PosInt(u) => {
                    let text = decimal_string(*u);
                    push_str(out, text.as_str());
                },
                JsonNumber::NegInt(i) => {
                    let text = signed_decimal_string(*i);
                    push_str(out, text.as_str());
                },
                JsonNumber::Float(s) => push_str(out, s.as_str()),
            }
            assert(out@ =~= start + json_text(*v));
        },
        JsonValue::String(s) => {
            push_quoted(out, s.as_str());
            assert(out@ =~= start + json_text(*v));
        },
        JsonValue::Array(items) => {
            let ghost parts = element_texts(*v);
            push_char(out, '[');
            let n = items.len();
            let mut i: usize = 0;
            while i < n
                invariant
                    *v == JsonValue::Array(*items),
                    n == items@.len(),
                    i <= n,
                    parts == element_texts(*v),
                    out@ == start + seq!['['] + joined(parts.take(i as int)),
                decreases n - i,
            {
                proof {
                    lemma_joined_step(parts, i as int);
                }
                if i > 0 {
                    push_char(out, ',');
                }
                proof {
                    assert(decreases_to!(*v => (*v)->Array_0));
                    assert(decreases_to!(*items => items@));
                    assert(decreases_to!(items@ => items@[i as int]));
                }
                push_json_text(out, &items[i]);
                proof {
                    assert(out@ =~= start + seq!['['] + joined(parts.take(i + 1)));
                }
                i = i + 1;
            }
            assert(parts.take(n as int) =~= parts);
            push_char(out, ']');
            assert(out@ =~= start + json_text(*v));
        },
        JsonValue::Object(o) => {
            let ghost parts = element_texts(*v);
            push_char(out, '{');
            let n = o.entries.len();
            let mut i: usize = 0;
            while i < n
                invariant
                    *v == JsonValue::Object(*o),
                    n == o.entries@.len(),
                    i <= n,
                    parts == element_texts(*v),
                    out@ == start + seq!['{'] + joined(parts.take(i as int)),
                decreases n - i,
            {
                proof {
                    lemma_joined_step(parts, i as int);
                }
                if i > 0 {
                    push_char(out, ',');
                }
                push_quoted(out, o.entries[i].0.as_str());
                push_char(out, ':');
                proof {
                    assert(decreases_to!(*v => (*v)->Object_0));
                    assert(decreases_to!(*o => o.entries));
                    assert(decreases_to!(o.entries => o.entries@));
                    assert(decreases_to!(o.entries@ => o.entries@[i as int]));
                    assert(decreases_to!(o.entries@[i as int] => o.entries@[i as int].1));
                }
                push_json_text(out, &o.entries[i].1);
                proof {
                    assert(out@ =~= start + seq!['{'] + joined(parts.take(i + 1)));
                }
                i = i + 1;
            }
            assert(parts.take(n as int) =~= parts);
            push_char(out, '}');
            assert(out@ =~= start + json_text(*v));
        },
    }
    assert(out@ =~= start + json_text(*v));
}

/// The compact JSON text of `v`.
pub fn to_json_text(v: &JsonValue) -> (r: String)
    ensures
        r@ == json_text(*v),
{
    let mut out = String::new();
    push_json_text(&mut out, v);
    out
}

} // verus!
