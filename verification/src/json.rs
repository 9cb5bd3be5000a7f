//! JSON texts, as `serde_json` reads and writes them.

use vstd::prelude::*;

verus! {

/// What `serde_json` says is wrong with a text that is no JSON; nothing where
/// the text is JSON.
pub uninterp spec fn json_error(text: Seq<char>) -> Option<Seq<char>>;

/// The string under a key of the object that a text holds.
pub uninterp spec fn json_text_member(text: Seq<char>, key: Seq<char>) -> Option<Seq<char>>;

/// The number under a key of the object that a text holds, as the bit pattern
/// of an IEEE 754 double.
pub uninterp spec fn json_number_member(text: Seq<char>, key: Seq<char>) -> Option<u64>;

/// The array under a key of the object that a text holds: for each item the
/// bit pattern of the number that it is, if it is one.
pub uninterp spec fn json_numbers_member(text: Seq<char>, key: Seq<char>) -> Option<
    Seq<Option<u64>>,
>;

/// `serde_json::from_str` into a `serde_json::Value`: the message of its error
/// where it fails. The message is named, not described.
#[verifier::external_body]
pub(crate) fn json_error_of(text: &str) -> (r: Option<String>)
    ensures
        match r {
            Some(e) => json_error(text@) == Some(e@),
            None => json_error(text@) is None,
        },
{
    serde_json::from_str::<serde_json::Value>(text).err().map(|e| e.to_string())
}

/// `serde_json::Value::get` and `as_str` on the value that
/// `serde_json::from_str` reads: the string under `key`. The result is named,
/// not described.
#[verifier::external_body]
pub(crate) fn json_text_member_of(text: &str, key: &str) -> (r: Option<String>)
    ensures
        match r {
            Some(s) => json_text_member(text@, key@) == Some(s@),
            None => json_text_member(text@, key@) is None,
        },
{
    let value: serde_json::Value = serde_json::from_str(text).ok()?;
    value.get(key)?.as_str().map(|s| s.to_string())
}

/// `serde_json::Value::get` and its conversion to a double, on the value that
/// `serde_json::from_str` reads: the bits of the number under `key`. The
/// result is named, not described.
#[verifier::external_body]
pub(crate) fn json_number_member_of(text: &str, key: &str) -> (r: Option<u64>)
    ensures
        r == json_number_member(text@, key@),
{
    let value: serde_json::Value = serde_json::from_str(text).ok()?;
    value.get(key)?.as_f64().map(|n| n.to_bits())
}

/// `serde_json::Value::get` and `as_array` on the value that
/// `serde_json::from_str` reads: the bits of the numbers in the array under
/// `key`. The result is named, not described.
#[verifier::external_body]
pub(crate) fn json_numbers_member_of(text: &str, key: &str) -> (r: Option<Vec<Option<u64>>>)
    ensures
        match r {
            Some(v) => json_numbers_member(text@, key@) == Some(v@),
            None => json_numbers_member(text@, key@) is None,
        },
{
    let value: serde_json::Value = serde_json::from_str(text).ok()?;
    let items = value.get(key)?.as_array()?;
    Some(items.iter().map(|item| item.as_f64().map(|n| n.to_bits())).collect())
}

/// The object of strings that a text holds, if it holds one.
pub uninterp spec fn json_text_map(text: Seq<char>) -> Option<Map<Seq<char>, Seq<char>>>;

/// The array of strings that a text holds, as a set, if it holds one.
pub uninterp spec fn json_text_set(text: Seq<char>) -> Option<Set<Seq<char>>>;

/// The map that pairs of a key and a value make, a later pair over an earlier
/// one.
pub open spec fn pairs_map(pairs: Seq<(String, String)>) -> Map<Seq<char>, Seq<char>>
    decreases pairs.len(),
{
    if pairs.len() == 0 {
        Map::empty()
    } else {
        pairs_map(pairs.drop_last()).insert(pairs.last().0@, pairs.last().1@)
    }
}

/// No key stands twice.
pub open spec fn distinct_keys(pairs: Seq<(String, String)>) -> bool {
    forall|i: int, j: int|
        0 <= i < j < pairs.len() ==> (#[trigger] pairs[i]).0@ != (#[trigger] pairs[j]).0@
}

/// The set that texts make.
pub open spec fn texts_set(texts: Seq<String>) -> Set<Seq<char>> {
    crate::text::texts_view(texts).to_set()
}

/// No text stands twice.
pub open spec fn distinct_texts(texts: Seq<String>) -> bool {
    forall|i: int, j: int|
        0 <= i < j < texts.len() ==> (#[trigger] texts[i])@ != (#[trigger] texts[j])@
}

/// `serde_json::from_str` into a map of strings: its pairs, where it reads
/// one. Which map a text holds is named, not described.
#[verifier::external_body]
pub(crate) fn json_text_map_of(text: &str) -> (r: Option<Vec<(String, String)>>)
    ensures
        match r {
            Some(pairs) => distinct_keys(pairs@) && json_text_map(text@) == Some(pairs_map(pairs@)),
            None => json_text_map(text@) is None,
        },
{
    let map: std::collections::BTreeMap<String, String> = serde_json::from_str(text).ok()?;
    Some(map.into_iter().collect())
}

/// `serde_json::to_string_pretty` of a map of strings: it succeeds, and the
/// text reads back as the map.
#[verifier::external_body]
pub(crate) fn json_of_text_map(pairs: &Vec<(String, String)>) -> (r: Result<String, String>)
    requires
        distinct_keys(pairs@),
    ensures
        r is Ok,
        r matches Ok(text) ==> json_text_map(text@) == Some(pairs_map(pairs@)),
{
    let map: std::collections::BTreeMap<&String, &String> =
        pairs.iter().map(|pair| (&pair.0, &pair.1)).collect();
    serde_json::to_string_pretty(&map).map_err(|e| e.to_string())
}

/// `serde_json::from_str` into a set of strings: its items, where it reads
/// one. Which set a text holds is named, not described.
#[verifier::external_body]
pub(crate) fn json_text_set_of(text: &str) -> (r: Option<Vec<String>>)
    ensures
        match r {
            Some(items) => distinct_texts(items@) && json_text_set(text@) == Some(texts_set(items@)),
            None => json_text_set(text@) is None,
        },
{
    let set: std::collections::BTreeSet<String> = serde_json::from_str(text).ok()?;
    Some(set.into_iter().collect())
}

/// `serde_json::to_string_pretty` of a set of strings: it succeeds, and the
/// text reads back as the set.
#[verifier::external_body]
pub(crate) fn json_of_text_set(items: &Vec<String>) -> (r: Result<String, String>)
    ensures
        r is Ok,
        r matches Ok(text) ==> json_text_set(text@) == Some(texts_set(items@)),
{
    let set: std::collections::BTreeSet<&String> = items.iter().collect();
    serde_json::to_string_pretty(&set).map_err(|e| e.to_string())
}

} // verus!
