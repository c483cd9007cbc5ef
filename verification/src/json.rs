//! A plain model of JSON documents, as exchanged with the services the router
//! talks to, and the lookups the router performs on them.

use vstd::prelude::*;
use crate::text::str_eq;

verus! {

/// A JSON value.  Numbers keep their textual form; an object keeps its
/// members in order, and a lookup finds the first member with the key.
pub enum Json {
    Null,
    Bool(bool),
    Number(String),
    Str(String),
    Array(Vec<Json>),
    Object(Vec<(String, Json)>),
}

/// The value of the first member of `entries` whose key is `key`.
pub open spec fn entry_value(entries: Seq<(String, Json)>, key: Seq<char>) -> Option<Json>
    decreases entries.len(),
{
    if entries.len() == 0 {
        None
    } else if entries[0].0@ == key {
        Some(entries[0].1)
    } else {
        entry_value(entries.drop_first(), key)
    }
}

/// Skipping members whose key differs from `key` does not change the lookup.
pub proof fn lemma_entry_value_skip(entries: Seq<(String, Json)>, key: Seq<char>, i: int)
    requires
        0 <= i <= entries.len(),
        forall|j: int| 0 <= j < i ==> #[trigger] entries[j].0@ != key,
    ensures
        entry_value(entries, key) == entry_value(entries.skip(i), key),
    decreases i,
{
    if i > 0 {
        assert(entries[0].0@ != key);
        let rest = entries.drop_first();
        assert forall|j: int| 0 <= j < i - 1 implies #[trigger] rest[j].0@ != key by {
            assert(rest[j] == entries[j + 1]);
        }
        lemma_entry_value_skip(rest, key, i - 1);
        assert(rest.skip(i - 1) =~= entries.skip(i));
    } else {
        assert(entries.skip(0) =~= entries);
    }
}

impl Json {
    /// The member `key` of an object; `None` for a missing key or a value
    /// that is not an object.
    pub open spec fn member(self, key: Seq<char>) -> Option<Json> {
        match self {
            Json::Object(entries) => entry_value(entries@, key),
            _ => None,
        }
    }

    /// The text of a string value.
    pub open spec fn text(self) -> Option<Seq<char>> {
        match self {
            Json::Str(s) => Some(s@),
            _ => None,
        }
    }

    /// The elements of an array value.
    pub open spec fn items(self) -> Option<Seq<Json>> {
        match self {
            Json::Array(v) => Some(v@),
            _ => None,
        }
    }

    /// Member lookup on an object (`Value::get` with a string key).
    pub fn get(&self, key: &str) -> (res: Option<&Json>)
        ensures
            match res {
                Some(v) => self.member(key@) == Some(*v),
                None => self.member(key@) is None,
            },
    {
        match self {
            Json::Object(entries) => {
                let n = entries.len();
                let mut i: usize = 0;
                while i < n
                    invariant
                        n == entries@.len(),
                        self.member(key@) == entry_value(entries@, key@),
                        i <= n,
                        forall|j: int| 0 <= j < i ==> #[trigger] entries@[j].0@ != key@,
                    decreases n - i,
                {
                    if str_eq(entries[i].0.as_str(), key) {
                        proof {
                            lemma_entry_value_skip(entries@, key@, i as int);
                            let rest = entries@.skip(i as int);
                            assert(rest[0] == entries@[i as int]);
                            assert(rest.len() > 0);
                            assert(entry_value(rest, key@) == Some(entries@[i as int].1));
                        }
                        return Some(&entries[i].1);
                    }
                    i = i + 1;
                }
                proof {
                    lemma_entry_value_skip(entries@, key@, n as int);
                }
                None
            },
            _ => None,
        }
    }

    /// The text of a string value (`Value::as_str`).
    pub fn as_str(&self) -> (res: Option<&str>)
        ensures
            match res {
                Some(t) => self.text() == Some(t@),
                None => self.text() is None,
            },
    {
        match self {
            Json::Str(s) => Some(s.as_str()),
            _ => None,
        }
    }

    /// The elements of an array value (`Value::as_array`).
    pub fn as_array(&self) -> (res: Option<&Vec<Json>>)
        ensures
            match res {
                Some(v) => self.items() == Some(v@),
                None => self.items() is None,
            },
    {
        match self {
            Json::Array(v) => Some(v),
            _ => None,
        }
    }

    /// Whether the value is an object.
    pub fn is_object(&self) -> (res: bool)
        ensures
            res == (self is Object),
    {
        match self {
            Json::Object(_) => true,
            _ => false,
        }
    }
}

/// The members of an object with their keys as character sequences.
pub open spec fn keyed(entries: Seq<(String, Json)>) -> Seq<(Seq<char>, Json)> {
    entries.map_values(|e: (String, Json)| (e.0@, e.1))
}

/// `members` with the member `key` set to `value`: the first member with that
/// key takes the value, or the member is added at the end.
pub open spec fn with_entry(members: Seq<(Seq<char>, Json)>, key: Seq<char>, value: Json) -> Seq<(Seq<char>, Json)>
    decreases members.len(),
{
    if members.len() == 0 {
        seq![(key, value)]
    } else if members[0].0 == key {
        seq![(key, value)] + members.drop_first()
    } else {
        seq![members[0]] + with_entry(members.drop_first(), key, value)
    }
}

/// The value of the first member of `members` whose key is `key`.
pub open spec fn lookup(members: Seq<(Seq<char>, Json)>, key: Seq<char>) -> Option<Json>
    decreases members.len(),
{
    if members.len() == 0 {
        None
    } else if members[0].0 == key {
        Some(members[0].1)
    } else {
        lookup(members.drop_first(), key)
    }
}

/// Looking a key up in an object is looking it up among its members with
/// their keys as character sequences.
pub proof fn lemma_entry_value_keyed(entries: Seq<(String, Json)>, key: Seq<char>)
    ensures
        entry_value(entries, key) == lookup(keyed(entries), key),
    decreases entries.len(),
{
    if entries.len() > 0 {
        assert(keyed(entries).drop_first() =~= keyed(entries.drop_first()));
        lemma_entry_value_keyed(entries.drop_first(), key);
    }
}

/// Setting a member replaces the first member with the key.
pub proof fn lemma_with_entry_found(members: Seq<(Seq<char>, Json)>, key: Seq<char>, value: Json, i: int)
    requires
        0 <= i < members.len(),
        members[i].0 == key,
        forall|j: int| 0 <= j < i ==> #[trigger] members[j].0 != key,
    ensures
        with_entry(members, key, value) == members.update(i, (key, value)),
    decreases i,
{
    if i == 0 {
        assert(with_entry(members, key, value) =~= members.update(0, (key, value)));
    } else {
        let rest = members.drop_first();
        assert forall|j: int| 0 <= j < i - 1 implies #[trigger] rest[j].0 != key by {
            assert(rest[j] == members[j + 1]);
        }
        assert(members[0].0 != key);
        lemma_with_entry_found(rest, key, value, i - 1);
        assert(with_entry(members, key, value) =~= members.update(i, (key, value)));
    }
}

/// Setting a member whose key is absent adds it at the end.
pub proof fn lemma_with_entry_absent(members: Seq<(Seq<char>, Json)>, key: Seq<char>, value: Json)
    requires
        forall|j: int| 0 <= j < members.len() ==> #[trigger] members[j].0 != key,
    ensures
        with_entry(members, key, value) == members.push((key, value)),
    decreases members.len(),
{
    if members.len() > 0 {
        let rest = members.drop_first();
        assert forall|j: int| 0 <= j < rest.len() implies #[trigger] rest[j].0 != key by {
            assert(rest[j] == members[j + 1]);
        }
        assert(members[0].0 != key);
        lemma_with_entry_absent(rest, key, value);
        assert(with_entry(members, key, value) =~= members.push((key, value)));
    } else {
        assert(with_entry(members, key, value) =~= members.push((key, value)));
    }
}

impl Json {
    /// Set the member `key` of an object to `value` (`Map::insert`); a value
    /// that is not an object is left as it is.
    pub fn set_member(&mut self, key: String, value: Json)
        ensures
            match *old(self) {
                Json::Object(entries) => *final(self) matches Json::Object(after)
                    && keyed(after@) == with_entry(keyed(entries@), key@, value),
                _ => *final(self) == *old(self),
            },
    {
        let mut current = Json::Null;
        std::mem::swap(&mut current, self);
        match current {
            Json::Object(mut entries) => {
                let ghost before = entries@;
                let ghost kb = keyed(before);
                let n = entries.len();
                let mut i: usize = 0;
                while i < n
                    invariant
                        n == entries@.len(),
                        entries@ == before,
                        kb == keyed(before),
                        *old(self) matches Json::Object(e) && e@ == before,
                        i <= n,
                        forall|j: int| 0 <= j < i ==> #[trigger] entries@[j].0@ != key@,
                    decreases n - i,
                {
                    if str_eq(entries[i].0.as_str(), key.as_str()) {
                        proof {
                            assert(kb[i as int].0 == key@);
                            assert forall|j: int| 0 <= j < i implies #[trigger] kb[j].0 != key@ by {
                                assert(kb[j].0 == entries@[j].0@);
                            }
                            lemma_with_entry_found(kb, key@, value, i as int);
                        }
                        let ghost k = key@;
                        entries.set(i, (key, value));
                        assert(keyed(entries@) =~= kb.update(i as int, (k, value)));
                        *self = Json::Object(entries);
                        return;
                    }
                    i = i + 1;
                }
                proof {
                    assert forall|j: int| 0 <= j < kb.len() implies #[trigger] kb[j].0 != key@ by {
                        assert(kb[j].0 == entries@[j].0@);
                    }
                    lemma_with_entry_absent(kb, key@, value);
                }
                let ghost k = key@;
                entries.push((key, value));
                assert(keyed(entries@) =~= kb.push((k, value)));
                *self = Json::Object(entries);
            },
            other => {
                *self = other;
            },
        }
    }

    /// An object with these members, in order.
    pub fn object(members: Vec<(String, Json)>) -> (res: Json)
        ensures
            res matches Json::Object(e) && e@ == members@,
    {
        Json::Object(members)
    }

    /// The text value `s`.
    pub fn text_value(s: &str) -> (res: Json)
        ensures
            res.text() == Some(s@),
    {
        Json::Str(s.to_string())
    }
}

/// One step of a JSON pointer: the member `token` of an object, or, when the
/// token reads as the index `index`, that element of an array.
pub open spec fn pointer_step(v: Json, token: Seq<char>, index: Option<nat>) -> Option<Json> {
    match v {
        Json::Object(entries) => entry_value(entries@, token),
        Json::Array(items) => match index {
            Some(i) => if i < items@.len() { Some(items@[i as int]) } else { None },
            None => None,
        },
        _ => None,
    }
}

/// One step of a JSON pointer (`Value::pointer` follows these).
pub fn follow<'a>(v: &'a Json, token: &str, index: Option<usize>) -> (res: Option<&'a Json>)
    ensures
        match res {
            Some(r) => pointer_step(*v, token@, match index { Some(i) => Some(i as nat), None => None })
                == Some(*r),
            None => pointer_step(*v, token@, match index { Some(i) => Some(i as nat), None => None }) is None,
        },
{
    match v {
        Json::Object(_) => v.get(token),
        Json::Array(items) => match index {
            Some(i) => if i < items.len() { Some(&items[i]) } else { None },
            None => None,
        },
        _ => None,
    }
}

/// A lowercase hexadecimal digit.
pub open spec fn lower_hex_digit(d: int) -> char {
    if d < 10 { ((d + 48) as u8) as char } else { ((d + 87) as u8) as char }
}

/// How serde_json writes one character inside a JSON string: `"` and `\`
/// behind a backslash; backspace, tab, line feed, form feed and carriage
/// return as `\b`, `\t`, `\n`, `\f`, `\r`; the other characters below
/// U+0020 as `\u00` and two lowercase hexadecimal digits; every other
/// character as it is.
pub open spec fn json_escape(c: char) -> Seq<char> {
    if c == '"' {
        seq!['\\', '"']
    } else if c == '\\' {
        seq!['\\', '\\']
    } else if c == '\u{8}' {
        seq!['\\', 'b']
    } else if c == '\t' {
        seq!['\\', 't']
    } else if c == '\n' {
        seq!['\\', 'n']
    } else if c == '\u{c}' {
        seq!['\\', 'f']
    } else if c == '\r' {
        seq!['\\', 'r']
    } else if (c as int) < 0x20 {
        seq!['\\', 'u', '0', '0', lower_hex_digit((c as int) / 16), lower_hex_digit((c as int) % 16)]
    } else {
        seq![c]
    }
}

/// The characters of a string, each escaped as serde_json writes it.
pub open spec fn json_escaped(s: Seq<char>) -> Seq<char>
    decreases s.len(),
{
    if s.len() == 0 {
        Seq::empty()
    } else {
        json_escaped(s.drop_last()) + json_escape(s.last())
    }
}

/// The JSON text serde_json writes for a string: the string between double
/// quotes, its characters escaped.
pub open spec fn json_string_text(s: Seq<char>) -> Seq<char> {
    seq!['"'] + json_escaped(s) + seq!['"']
}

/// `serde_json::to_string` on a string slice: the string quoted and escaped
/// by serde_json's table of escapes (`format_escaped_str`).  Writing a string
/// into memory cannot fail, so the error arm is never taken.
#[verifier::external_body]
pub(crate) fn json_quote(s: &str) -> (res: String)
    ensures
        res@ == json_string_text(s@),
{
    match serde_json::to_string(s) {
        Ok(t) => t,
        Err(_) => String::new(),
    }
}

} // verus!
