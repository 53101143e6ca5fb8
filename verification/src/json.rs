//! JSON values as the adapters read them from work-order payloads.

use vstd::prelude::*;

use crate::text::str_eq;

verus! {

/// A JSON number: non-negative and negative integers exactly, other numbers by
/// their JSON text.
#[derive(Clone, Debug, PartialEq, Eq)]
pub enum JsonNumber {
    PosInt(u64),
    NegInt(i64),
    Float(String),
}

/// A JSON value. Object members keep their order; keys are unique.
#[derive(Debug)]
pub enum Json {
    Null,
    Bool(bool),
    Number(JsonNumber),
    String(String),
    Array(Vec<Json>),
    Object(Vec<(String, Json)>),
}

/// The value of the first member named `key`.
pub open spec fn lookup(entries: Seq<(String, Json)>, key: Seq<char>) -> Option<Json>
    decreases entries.len(),
{
    if entries.len() == 0 {
        None
    } else if entries[0].0@ == key {
        Some(entries[0].1)
    } else {
        lookup(entries.drop_first(), key)
    }
}

/// The member `key` of an object; `None` for other values.
pub open spec fn json_get(j: Json, key: Seq<char>) -> Option<Json> {
    match j {
        Json::Object(entries) => lookup(entries@, key),
        _ => None,
    }
}

/// The text of a JSON string value.
pub open spec fn json_str(j: Option<Json>) -> Option<Seq<char>> {
    match j {
        Some(Json::String(s)) => Some(s@),
        _ => None,
    }
}

/// The member `key` of an object when it is a string.
pub open spec fn json_get_str(j: Json, key: Seq<char>) -> Option<Seq<char>> {
    json_str(json_get(j, key))
}

/// A JSON value that is a non-negative integer.
pub open spec fn json_u64(j: Option<Json>) -> Option<u64> {
    match j {
        Some(Json::Number(JsonNumber::PosInt(n))) => Some(n),
        _ => None,
    }
}

/// A JSON value that is a boolean.
pub open spec fn json_bool(j: Option<Json>) -> Option<bool> {
    match j {
        Some(Json::Bool(b)) => Some(b),
        _ => None,
    }
}

/// The member of an optional object; `None` when there is no object.
pub open spec fn member(o: Option<Json>, key: Seq<char>) -> Option<Json> {
    match o {
        Some(j) => json_get(j, key),
        None => None,
    }
}

/// Looking a key up after one more member was appended.
pub proof fn lemma_lookup_push(s: Seq<(String, Json)>, e: (String, Json), key: Seq<char>)
    ensures
        lookup(s.push(e), key) == (match lookup(s, key) {
            Some(v) => Some(v),
            None => if e.0@ == key {
                Some(e.1)
            } else {
                None
            },
        }),
    decreases s.len(),
{
    let t = s.push(e);
    if s.len() == 0 {
        assert(t[0] == e);
        assert(t.drop_first() =~= Seq::<(String, Json)>::empty());
        assert(lookup(t.drop_first(), key) is None);
        assert(lookup(s, key) is None);
    } else {
        assert(t[0] == s[0]);
        assert(t.drop_first() =~= s.drop_first().push(e));
        lemma_lookup_push(s.drop_first(), e, key);
        if s[0].0@ == key {
            assert(lookup(t, key) == Some(s[0].1));
        } else {
            assert(lookup(t, key) == lookup(t.drop_first(), key));
            assert(lookup(s, key) == lookup(s.drop_first(), key));
        }
    }
}

/// The value of the first member named `key`.
pub fn entries_get<'a>(entries: &'a Vec<(String, Json)>, key: &str) -> (v: Option<&'a Json>)
    ensures
        match v {
            Some(v) => lookup(entries@, key@) == Some(*v),
            None => lookup(entries@, key@) is None,
        },
{
    let mut i: usize = 0;
    assert(entries@.subrange(0, entries@.len() as int) =~= entries@);
    while i < entries.len()
        invariant
            i <= entries@.len(),
            lookup(entries@, key@) == lookup(
                entries@.subrange(i as int, entries@.len() as int),
                key@,
            ),
        decreases entries@.len() - i,
    {
        let ghost rest = entries@.subrange(i as int, entries@.len() as int);
        assert(rest.drop_first() =~= entries@.subrange(i + 1, entries@.len() as int));
        assert(rest[0] == entries@[i as int]);
        if str_eq(entries[i].0.as_str(), key) {
            return Some(&entries[i].1);
        }
        i = i + 1;
    }
    None
}

/// The string member `key`, if it is one.
pub fn entries_get_str<'a>(entries: &'a Vec<(String, Json)>, key: &str) -> (s: Option<&'a str>)
    ensures
        match s {
            Some(s) => json_str(lookup(entries@, key@)) == Some(s@),
            None => json_str(lookup(entries@, key@)) is None,
        },
{
    match entries_get(entries, key) {
        Some(Json::String(s)) => Some(s.as_str()),
        _ => None,
    }
}

/// Removes every member named `key` and returns the value of the first.
pub fn take_member(entries: &mut Vec<(String, Json)>, key: &str) -> (v: Option<Json>)
    ensures
        v == lookup(old(entries)@, key@),
        lookup(final(entries)@, key@) is None,
        forall|k: Seq<char>| k != key@ ==> lookup(final(entries)@, k) == lookup(old(entries)@, k),
{
    let ghost orig = entries@;
    let n: usize = entries.len();
    assert(orig.len() == n);
    let mut kept: Vec<(String, Json)> = Vec::new();
    let mut found: Option<Json> = None;
    let mut i: usize = 0;
    assert(orig.subrange(0, orig.len() as int) =~= orig);
    assert(orig.take(0) =~= Seq::<(String, Json)>::empty());
    while entries.len() > 0
        invariant
            orig.len() <= usize::MAX,
            i + entries@.len() == orig.len(),
            entries@ == orig.subrange(i as int, orig.len() as int),
            found == lookup(orig.take(i as int), key@),
            lookup(kept@, key@) is None,
            forall|k: Seq<char>| k != key@ ==> lookup(kept@, k) == lookup(orig.take(i as int), k),
        decreases entries@.len(),
    {
        let ghost before = entries@;
        let ghost kept_before = kept@;
        let (k, v) = entries.remove(0);
        proof {
            assert(entries@ =~= orig.subrange(i + 1, orig.len() as int));
            assert(orig[i as int] == (k, v));
            assert(orig.take(i + 1) =~= orig.take(i as int).push((k, v)));
            lemma_lookup_push(orig.take(i as int), (k, v), key@);
        }
        if str_eq(k.as_str(), key) {
            if found.is_none() {
                found = Some(v);
            }
            proof {
                assert forall|q: Seq<char>| q != key@ implies lookup(kept@, q) == lookup(
                    orig.take(i + 1),
                    q,
                ) by {
                    lemma_lookup_push(orig.take(i as int), orig[i as int], q);
                }
            }
        } else {
            let ghost e = (k, v);
            kept.push((k, v));
            proof {
                assert(kept@ == kept_before.push(e));
                lemma_lookup_push(kept_before, e, key@);
                assert forall|q: Seq<char>| q != key@ implies lookup(kept@, q) == lookup(
                    orig.take(i + 1),
                    q,
                ) by {
                    lemma_lookup_push(orig.take(i as int), e, q);
                    lemma_lookup_push(kept_before, e, q);
                }
            }
        }
        i = i + 1;
    }
    assert(orig.take(i as int) =~= orig);
    *entries = kept;
    found
}

/// Sets the member `key` to `value`, replacing any member of that name.
pub fn set_member(entries: &mut Vec<(String, Json)>, key: String, value: Json)
    ensures
        lookup(final(entries)@, key@) == Some(value),
        forall|k: Seq<char>| k != key@ ==> lookup(final(entries)@, k) == lookup(old(entries)@, k),
{
    let _ = take_member(entries, key.as_str());
    let ghost mid = entries@;
    let ghost e = (key, value);
    entries.push((key, value));
    proof {
        assert(entries@ == mid.push(e));
        lemma_lookup_push(mid, e, e.0@);
        assert forall|k: Seq<char>| k != e.0@ implies lookup(entries@, k) == lookup(mid, k) by {
            lemma_lookup_push(mid, e, k);
        }
    }
}

impl Json {
    /// The member `key` of an object.
    pub fn get(&self, key: &str) -> (v: Option<&Json>)
        ensures
            match v {
                Some(v) => json_get(*self, key@) == Some(*v),
                None => json_get(*self, key@) is None,
            },
    {
        match self {
            Json::Object(entries) => entries_get(entries, key),
            _ => None,
        }
    }

    /// The value when it is a boolean.
    pub fn as_bool(&self) -> (b: Option<bool>)
        ensures
            b == json_bool(Some(*self)),
    {
        match self {
            Json::Bool(b) => Some(*b),
            _ => None,
        }
    }

    /// The member `key` of an object, when it is a string.
    pub fn get_str(&self, key: &str) -> (s: Option<&str>)
        ensures
            match s {
                Some(s) => json_get_str(*self, key@) == Some(s@),
                None => json_get_str(*self, key@) is None,
            },
    {
        match self.get(key) {
            Some(Json::String(s)) => Some(s.as_str()),
            _ => None,
        }
    }

    /// The value when it is a non-negative integer.
    pub fn as_u64(&self) -> (n: Option<u64>)
        ensures
            n == json_u64(Some(*self)),
    {
        match self {
            Json::Number(JsonNumber::PosInt(n)) => Some(*n),
            _ => None,
        }
    }
}


/// Some string inside the value, ASCII lower-cased, contains `needle`.
pub open spec fn value_contains_spec(j: Json, needle: Seq<char>) -> bool
    decreases j,
{
    match j {
        Json::String(s) => crate::text::contains_text(crate::text::ascii_lower_text(s@), needle),
        Json::Array(items) => exists|i: int|
            0 <= i < items@.len() && value_contains_spec(#[trigger] items@[i], needle),
        Json::Object(entries) => exists|i: int|
            0 <= i < entries@.len() && value_contains_spec((#[trigger] entries@[i]).1, needle),
        _ => false,
    }
}

/// Whether some string anywhere in the value, ASCII lower-cased, contains `needle`.
pub fn value_contains(j: &Json, needle: &str) -> (r: bool)
    ensures
        r == value_contains_spec(*j, needle@),
    decreases j,
{
    match j {
        Json::String(s) => {
            let lower = crate::text::to_ascii_lowercase(s.as_str());
            crate::text::contains(lower.as_str(), needle)
        },
        Json::Array(items) => {
            let mut i: usize = 0;
            while i < items.len()
                invariant
                    i <= items@.len(),
                    *j == Json::Array(*items),
                    forall|k: int| 0 <= k < i ==> !value_contains_spec(#[trigger] items@[k], needle@),
                decreases items@.len() - i,
            {
                proof {
                    assert(decreases_to!(*j => (*j)->Array_0));
                    assert((*j)->Array_0 == *items);
                    assert(decreases_to!(*items => items@));
                    assert(decreases_to!(items@ => items@[i as int]));
                }
                if value_contains(&items[i], needle) {
                    assert(value_contains_spec(items@[i as int], needle@));
                    assert(exists|k: int|
                        0 <= k < items@.len() && value_contains_spec(#[trigger] items@[k], needle@));
                    assert(value_contains_spec(*j, needle@));
                    return true;
                }
                i = i + 1;
            }
            false
        },
        Json::Object(entries) => {
            let mut i: usize = 0;
            while i < entries.len()
                invariant
                    i <= entries@.len(),
                    *j == Json::Object(*entries),
                    forall|k: int|
                        0 <= k < i ==> !value_contains_spec((#[trigger] entries@[k]).1, needle@),
                decreases entries@.len() - i,
            {
                proof {
                    assert(decreases_to!(*j => (*j)->Object_0));
                    assert((*j)->Object_0 == *entries);
                    assert(decreases_to!(*entries => entries@));
                    assert(decreases_to!(entries@ => entries@[i as int]));
                    assert(decreases_to!(entries@[i as int] => entries@[i as int].1));
                }
                if value_contains(&entries[i].1, needle) {
                    assert(value_contains_spec(entries@[i as int].1, needle@));
                    assert(value_contains_spec(*j, needle@));
                    return true;
                }
                i = i + 1;
            }
            false
        },
        _ => false,
    }
}

/// Some member value of the object contains `needle`; `false` for other values.
pub open spec fn payload_contains_spec(j: Json, needle: Seq<char>) -> bool {
    match j {
        Json::Object(entries) => exists|i: int|
            0 <= i < entries@.len() && value_contains_spec((#[trigger] entries@[i]).1, needle),
        _ => false,
    }
}

/// Whether some member value of an object payload contains `needle`.
pub fn work_order_payload_contains(payload: &Json, needle: &str) -> (r: bool)
    ensures
        r == payload_contains_spec(*payload, needle@),
{
    match payload {
        Json::Object(_) => value_contains(payload, needle),
        _ => false,
    }
}

} // verus!
