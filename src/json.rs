//! Decoded JSON objects: what a response body or a parameter string holds.

use vstd::prelude::*;

verus! {

/// `serde_json::Value`: a JSON value that this library carries without reading it.
#[verifier::external_type_specification]
#[verifier::external_body]
pub struct ExJsonValue(serde_json::Value);

/// `serde_json::Error`: why a text is not the JSON that was asked for.
#[verifier::external_type_specification]
#[verifier::external_body]
pub struct ExJsonError(serde_json::Error);

/// One member value of a decoded JSON object.
#[derive(Debug)]
pub enum JsonValue {
    /// A JSON string.
    Text(String),
    /// Any other JSON value: null, a boolean, a number, an array or an object.
    Other(serde_json::Value),
}

/// The text of a JSON string, or `None` for any other value.
pub open spec fn text_of(v: JsonValue) -> Option<Seq<char>> {
    match v {
        JsonValue::Text(s) => Some(s@),
        JsonValue::Other(_) => None,
    }
}

/// For each key of an object, the text of its value where that is a string.
pub open spec fn texts_of(m: Map<Seq<char>, JsonValue>) -> Map<Seq<char>, Option<Seq<char>>> {
    m.map_values(|v: JsonValue| text_of(v))
}

/// The object that a list of members describes: a later member with the same key wins.
pub open spec fn entries_view(s: Seq<(String, JsonValue)>) -> Map<Seq<char>, JsonValue>
    decreases s.len(),
{
    if s.len() == 0 {
        Map::empty()
    } else {
        entries_view(s.drop_last()).insert(s.last().0@, s.last().1)
    }
}

/// What `serde_json` decodes from `text` as one JSON object: for each key, the
/// text of its value where that is a string; `None` where `text` is no JSON object.
pub uninterp spec fn decoded_object(text: Seq<char>) -> Option<Map<Seq<char>, Option<Seq<char>>>>;

/// Relies on `serde_json::from_str` into a `serde_json::Map`: it succeeds exactly when
/// the text is one JSON object, hands over its members once per key, and
/// depends on the text alone. An empty text holds no JSON value.
#[verifier::external_body]
fn decode_members(text: &str) -> (r: Result<Vec<(String, JsonValue)>, serde_json::Error>)
    ensures
        match r {
            Ok(members) => decoded_object(text@) == Some(texts_of(entries_view(members@))),
            Err(_) => decoded_object(text@) is None,
        },
        text@.len() == 0 ==> r is Err,
{
    serde_json::from_str::<serde_json::Map<String, serde_json::Value>>(text).map(|m| {
        m.into_iter().map(|(k, v)| match v {
            serde_json::Value::String(s) => (k, JsonValue::Text(s)),
            other => (k, JsonValue::Other(other)),
        }).collect()
    })
}

/// Relies on `<serde_json::Error as serde::de::Error>::custom`: an error that carries `msg`.
#[verifier::external_body]
pub(crate) fn json_error(msg: &str) -> (r: serde_json::Error) {
    <serde_json::Error as serde::de::Error>::custom(msg)
}

/// Relies on the derived `Clone` of `serde_json::Value`: the copy is the same value.
#[verifier::external_body]
fn clone_value(v: &serde_json::Value) -> (r: serde_json::Value)
    ensures
        r == *v,
{
    v.clone()
}

impl JsonValue {
    pub fn copy(&self) -> (r: JsonValue)
        ensures
            r == *self,
    {
        match self {
            JsonValue::Text(s) => JsonValue::Text(s.clone()),
            JsonValue::Other(v) => JsonValue::Other(clone_value(v)),
        }
    }

    /// The text of a JSON string.
    pub fn as_text(&self) -> (r: Option<&String>)
        ensures
            match r {
                Some(s) => text_of(*self) == Some(s@),
                None => text_of(*self) is None,
            },
    {
        match self {
            JsonValue::Text(s) => Some(s),
            JsonValue::Other(_) => None,
        }
    }
}

proof fn lemma_view_last(s: Seq<(String, JsonValue)>, i: int)
    requires
        0 <= i < s.len(),
        forall|j: int| i < j < s.len() ==> s[j].0@ != s[i].0@,
    ensures
        entries_view(s).contains_key(s[i].0@),
        entries_view(s)[s[i].0@] == s[i].1,
    decreases s.len(),
{
    if i < s.len() - 1 {
        let t = s.drop_last();
        assert(t[i] == s[i]);
        assert forall|j: int| i < j < t.len() implies t[j].0@ != t[i].0@ by {
            assert(t[j] == s[j]);
        }
        lemma_view_last(t, i);
        assert(s.last() == s[s.len() - 1]);
    }
}

proof fn lemma_view_lacks(s: Seq<(String, JsonValue)>, k: Seq<char>)
    requires
        forall|i: int| 0 <= i < s.len() ==> s[i].0@ != k,
    ensures
        !entries_view(s).contains_key(k),
    decreases s.len(),
{
    if s.len() > 0 {
        let t = s.drop_last();
        assert forall|i: int| 0 <= i < t.len() implies t[i].0@ != k by {
            assert(t[i] == s[i]);
        }
        lemma_view_lacks(t, k);
        assert(s.last() == s[s.len() - 1]);
    }
}

/// A decoded JSON object. A key that was set twice holds its later value.
pub struct JsonObject {
    entries: Vec<(String, JsonValue)>,
}

impl View for JsonObject {
    type V = Map<Seq<char>, JsonValue>;

    closed spec fn view(&self) -> Map<Seq<char>, JsonValue> {
        entries_view(self.entries@)
    }
}

impl JsonObject {
    /// The empty object.
    pub fn new() -> (r: JsonObject)
        ensures
            r@ == Map::<Seq<char>, JsonValue>::empty(),
    {
        JsonObject { entries: Vec::new() }
    }

    /// Where `key` was set last among the members.
    fn last_position(&self, key: &str) -> (r: Option<usize>)
        ensures
            match r {
                Some(i) => i < self.entries@.len() && self.entries@[i as int].0@ == key@ && forall|
                    j: int,
                | i < j < self.entries@.len() ==> self.entries@[j].0@ != key@,
                None => forall|i: int| 0 <= i < self.entries@.len() ==> self.entries@[i].0@ != key@,
            },
    {
        let wanted = String::from_str(key);
        let mut i: usize = self.entries.len();
        while i > 0
            invariant
                wanted@ == key@,
                i <= self.entries@.len(),
                forall|j: int| i <= j < self.entries@.len() ==> self.entries@[j].0@ != key@,
            decreases i,
        {
            i = i - 1;
            if self.entries[i].0 == wanted {
                return Some(i);
            }
        }
        None
    }

    pub fn contains_key(&self, key: &str) -> (r: bool)
        ensures
            r == self@.contains_key(key@),
    {
        match self.last_position(key) {
            Some(i) => {
                proof {
                    lemma_view_last(self.entries@, i as int);
                }
                true
            },
            None => {
                proof {
                    lemma_view_lacks(self.entries@, key@);
                }
                false
            },
        }
    }

    pub fn get(&self, key: &str) -> (r: Option<&JsonValue>)
        ensures
            match r {
                Some(v) => self@.contains_key(key@) && self@[key@] == *v,
                None => !self@.contains_key(key@),
            },
    {
        match self.last_position(key) {
            Some(i) => {
                proof {
                    lemma_view_last(self.entries@, i as int);
                }
                Some(&self.entries[i].1)
            },
            None => {
                proof {
                    lemma_view_lacks(self.entries@, key@);
                }
                None
            },
        }
    }

    /// Sets `key` to `value`, in place of any value it had.
    pub fn insert(&mut self, key: String, value: JsonValue)
        ensures
            final(self)@ == old(self)@.insert(key@, value),
    {
        let ghost before = self.entries@;
        self.entries.push((key, value));
        assert(self.entries@.drop_last() == before);
    }

    pub fn is_empty(&self) -> (r: bool)
        ensures
            r == (self@ == Map::<Seq<char>, JsonValue>::empty()),
    {
        if self.entries.len() == 0 {
            assert(self@ =~= Map::<Seq<char>, JsonValue>::empty());
            true
        } else {
            proof {
                let s = self.entries@;
                lemma_view_last(s, s.len() - 1);
                assert(self@.contains_key(s[s.len() - 1].0@));
            }
            false
        }
    }

    /// The members in the order they were set; where a key occurs twice, the later one counts.
    pub fn into_entries(self) -> (r: Vec<(String, JsonValue)>)
        ensures
            entries_view(r@) == self@,
    {
        self.entries
    }
}

/// Decodes `text` as one JSON object.
pub fn decode_object(text: &str) -> (r: Result<JsonObject, serde_json::Error>)
    ensures
        match r {
            Ok(obj) => decoded_object(text@) == Some(texts_of(obj@)),
            Err(_) => decoded_object(text@) is None,
        },
        text@.len() == 0 ==> r is Err,
{
    match decode_members(text) {
        Ok(members) => Ok(JsonObject { entries: members }),
        Err(e) => Err(e),
    }
}

} // verus!
