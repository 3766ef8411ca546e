use vstd::prelude::*;

verus! {

/// A JSON document as a tree of plain values.
///
/// Numbers keep the text that the decoder printed for them: nothing here
/// computes with them.
#[derive(Debug)]
pub enum Json {
    Null,
    Bool(bool),
    Number(String),
    Text(String),
    Array(Vec<Json>),
    /// Members in document order; the decoder leaves no key twice.
    Object(Vec<(String, Json)>),
}

/// The value of the first member named `key`.
pub open spec fn lookup(members: Seq<(String, Json)>, key: Seq<char>) -> Option<Json>
    decreases members.len(),
{
    if members.len() == 0 {
        None
    } else if members[0].0@ == key {
        Some(members[0].1)
    } else {
        lookup(members.drop_first(), key)
    }
}

/// The member `key` of `doc`, when `doc` is an object that has one.
pub open spec fn field(doc: Json, key: Seq<char>) -> Option<Json> {
    match doc {
        Json::Object(members) => lookup(members@, key),
        _ => None,
    }
}

/// The text that `v` holds, when it is a string.
pub open spec fn text_of(v: Json) -> Option<Seq<char>> {
    match v {
        Json::Text(s) => Some(s@),
        _ => None,
    }
}

/// The document that serde_json reads out of `text`, if the text is one JSON
/// document.
pub uninterp spec fn json_of_text(text: Seq<char>) -> Option<Json>;

/// Relies on `serde_json::from_str` into `serde_json::Value`: it reads one JSON
/// document or fails, and depends on the text alone.
#[verifier::external_body]
pub(crate) fn decode_json(text: &str) -> (r: Option<Json>)
    ensures
        r == json_of_text(text@),
{
    serde_json::from_str::<serde_json::Value>(text).ok().map(json_from_value)
}

/// `serde_json::Value`, carried only from the decoder to `json_from_value`.
#[verifier::external_type_specification]
#[verifier::external_body]
pub struct ExValue(serde_json::Value);

/// Relies on the six variants of `serde_json::Value`: copies the tree one
/// variant for one, numbers as their printed text.
#[verifier::external_body]
fn json_from_value(v: serde_json::Value) -> Json {
    match v {
        serde_json::Value::Null => Json::Null,
        serde_json::Value::Bool(b) => Json::Bool(b),
        serde_json::Value::Number(n) => Json::Number(n.to_string()),
        serde_json::Value::String(s) => Json::Text(s),
        serde_json::Value::Array(a) => Json::Array(a.into_iter().map(json_from_value).collect()),
        serde_json::Value::Object(m) => Json::Object(
            m.into_iter().map(|(k, v)| (k, json_from_value(v))).collect(),
        ),
    }
}

/// The member `key` of `doc`.
pub fn get_field<'a>(doc: &'a Json, key: &str) -> (r: Option<&'a Json>)
    ensures
        match r {
            Some(v) => field(*doc, key@) == Some(*v),
            None => field(*doc, key@) is None,
        },
{
    match doc {
        Json::Object(members) => {
            let wanted = key.to_owned();
            let n = members.len();
            let mut i: usize = 0;
            assert(members@.subrange(0, n as int) =~= members@);
            while i < n
                invariant
                    n == members@.len(),
                    i <= n,
                    wanted@ == key@,
                    field(*doc, key@) == lookup(members@, key@),
                    lookup(members@, key@) == lookup(members@.subrange(i as int, n as int), key@),
                decreases n - i,
            {
                assert(members@.subrange(i as int, n as int).drop_first() =~= members@.subrange(
                    i + 1,
                    n as int,
                ));
                assert(members@.subrange(i as int, n as int)[0] == members@[i as int]);
                if members[i].0 == wanted {
                    return Some(&members[i].1);
                }
                i = i + 1;
            }
            None
        },
        _ => None,
    }
}

/// The text of `v`, when it is a string.
pub fn get_text(v: &Json) -> (r: Option<&String>)
    ensures
        match r {
            Some(s) => text_of(*v) == Some(s@),
            None => text_of(*v) is None,
        },
{
    match v {
        Json::Text(s) => Some(s),
        _ => None,
    }
}

} // verus!
