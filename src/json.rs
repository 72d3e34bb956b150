use vstd::prelude::*;

verus! {

/// A JSON document: numbers keep their text, objects keep their members in order.
#[derive(Debug)]
pub enum JsonValue {
    Null,
    Bool(bool),
    Number(String),
    Str(String),
    Array(Vec<JsonValue>),
    Object(Vec<(String, JsonValue)>),
}

/// Position of the first member named `key`, if any.
pub open spec fn member_index(entries: Seq<(String, JsonValue)>, key: Seq<char>) -> Option<int>
    decreases entries.len(),
{
    if entries.len() == 0 {
        None
    } else {
        match member_index(entries.drop_last(), key) {
            Some(i) => Some(i),
            None => if entries.last().0@ == key {
                Some(entries.len() - 1)
            } else {
                None
            },
        }
    }
}

/// The value of the first member named `key`, if any.
pub open spec fn member(entries: Seq<(String, JsonValue)>, key: Seq<char>) -> Option<JsonValue> {
    match member_index(entries, key) {
        Some(i) => Some(entries[i].1),
        None => None,
    }
}

/// What `v.get(key)` finds: a member of an object, nothing for any other value.
pub open spec fn field(v: JsonValue, key: Seq<char>) -> Option<JsonValue> {
    match v {
        JsonValue::Object(m) => member(m@, key),
        _ => None,
    }
}

/// The text of a string value; the empty text for any other value or none.
pub open spec fn text_or_empty(v: Option<JsonValue>) -> Seq<char> {
    match v {
        Some(JsonValue::Str(s)) => s@,
        _ => Seq::empty(),
    }
}

/// The flag of a boolean value; `fallback` for any other value or none.
pub open spec fn flag_or(v: Option<JsonValue>, fallback: bool) -> bool {
    match v {
        Some(JsonValue::Bool(b)) => b,
        _ => fallback,
    }
}

proof fn lemma_member_index_bounds(entries: Seq<(String, JsonValue)>, key: Seq<char>)
    ensures
        member_index(entries, key) matches Some(i) ==> 0 <= i < entries.len() && entries[i].0@
            == key,
        member_index(entries, key) is None ==> forall|j: int|
            0 <= j < entries.len() ==> entries[j].0@ != key,
    decreases entries.len(),
{
    if entries.len() > 0 {
        lemma_member_index_bounds(entries.drop_last(), key);
        assert forall|j: int| 0 <= j < entries.len() - 1 implies entries[j] == entries.drop_last()[j]
            by {}
    }
}

proof fn lemma_member_index_prefix(entries: Seq<(String, JsonValue)>, key: Seq<char>, n: int)
    requires
        0 <= n <= entries.len(),
        member_index(entries.subrange(0, n), key) is Some,
    ensures
        member_index(entries, key) == member_index(entries.subrange(0, n), key),
    decreases entries.len() - n,
{
    if n < entries.len() {
        assert(entries.subrange(0, n + 1).drop_last() =~= entries.subrange(0, n));
        lemma_member_index_prefix(entries, key, n + 1);
    } else {
        assert(entries.subrange(0, n) =~= entries);
    }
}

/// Index of the first member named `key` in `entries`.
pub fn find_member(entries: &Vec<(String, JsonValue)>, key: &str) -> (r: Option<usize>)
    ensures
        match r {
            Some(i) => i < entries.len() && member_index(entries@, key@) == Some(i as int),
            None => member_index(entries@, key@) is None,
        },
{
    proof {
        lemma_member_index_bounds(entries@, key@);
    }
    let k = key.to_owned();
    let mut i: usize = 0;
    while i < entries.len()
        invariant
            i <= entries.len(),
            k@ == key@,
            member_index(entries@.subrange(0, i as int), key@) is None,
        decreases entries.len() - i,
    {
        proof {
            assert(entries@.subrange(0, i + 1).drop_last() =~= entries@.subrange(0, i as int));
        }
        if entries[i].0 == k {
            proof {
                lemma_member_index_prefix(entries@, key@, i + 1);
            }
            return Some(i);
        }
        i = i + 1;
    }
    proof {
        assert(entries@.subrange(0, i as int) =~= entries@);
    }
    None
}

/// Whether an object's members name `key`.
pub fn has_member(entries: &Vec<(String, JsonValue)>, key: &str) -> (r: bool)
    ensures
        r == member(entries@, key@) is Some,
{
    find_member(entries, key).is_some()
}

/// The text of member `key` when it is a string, else the empty text.
pub fn get_str_h<'a>(entries: &'a Vec<(String, JsonValue)>, key: &str) -> (r: &'a str)
    ensures
        r@ == text_or_empty(member(entries@, key@)),
{
    proof {
        reveal_strlit("");
    }
    match find_member(entries, key) {
        Some(i) => match &entries[i].1 {
            JsonValue::Str(s) => s.as_str(),
            _ => "",
        },
        None => "",
    }
}

/// The text of field `key` of `v` when it is a string, else the empty text.
pub fn get_str<'a>(v: &'a JsonValue, key: &str) -> (r: &'a str)
    ensures
        r@ == text_or_empty(field(*v, key@)),
{
    proof {
        reveal_strlit("");
    }
    match v {
        JsonValue::Object(m) => get_str_h(m, key),
        _ => "",
    }
}

/// The flag of field `key` of `v` when it is a boolean, else `fallback`.
pub fn get_bool(v: &JsonValue, key: &str, fallback: bool) -> (r: bool)
    ensures
        r == flag_or(field(*v, key@), fallback),
{
    match v {
        JsonValue::Object(m) => match find_member(m, key) {
            Some(i) => match &m[i].1 {
                JsonValue::Bool(b) => *b,
                _ => fallback,
            },
            None => fallback,
        },
        _ => fallback,
    }
}

} // verus!
