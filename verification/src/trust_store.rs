//! The projects whose commands may run, as a file keeps them.

use vstd::prelude::*;

use crate::json::{json_of_text_set, json_text_set_of};

verus! {

pub const CONFIG_FILE_NAME: &'static str = "trusted.json";

/// The projects that a file's text trusts: none where there is no file or
/// where it cannot be read as a set of projects.
pub open spec fn trusted(file: Option<Seq<char>>) -> Set<Seq<char>> {
    match file {
        Some(text) => match crate::json::json_text_set(text) {
            Some(set) => set,
            None => Set::empty(),
        },
        None => Set::empty(),
    }
}

fn load(file: &Option<String>) -> (r: Vec<String>)
    ensures
        crate::json::distinct_texts(r@),
        crate::json::texts_set(r@) == trusted(crate::text::opt_view(*file)),
{
    match file {
        Some(text) => match json_text_set_of(text.as_str()) {
            Some(items) => items,
            None => {
                let none: Vec<String> = Vec::new();
                assert(crate::json::texts_set(none@) =~= Set::<Seq<char>>::empty());
                none
            },
        },
        None => {
            let none: Vec<String> = Vec::new();
            assert(crate::json::texts_set(none@) =~= Set::<Seq<char>>::empty());
            none
        },
    }
}

/// Whether `item` stands among `items`.
pub fn holds(items: &Vec<String>, item: &str) -> (r: bool)
    ensures
        r == crate::json::texts_set(items@).contains(item@),
{
    let wanted = item.to_string();
    let ghost texts = crate::text::texts_view(items@);
    let mut i: usize = 0;
    while i < items.len()
        invariant
            i <= items@.len(),
            wanted@ == item@,
            texts == crate::text::texts_view(items@),
            forall|k: int| 0 <= k < i ==> texts[k] != item@,
        decreases items.len() - i,
    {
        assert(texts[i as int] == items@[i as int]@);
        if items[i] == wanted {
            assert(texts.contains(item@));
            return true;
        }
        i += 1;
    }
    assert(!texts.contains(item@));
    false
}

/// Whether the file trusts a project.
pub fn is_trusted(file: &Option<String>, project_id: &str) -> (r: bool)
    ensures
        r == trusted(crate::text::opt_view(*file)).contains(project_id@),
{
    holds(&load(file), project_id)
}

/// `items` with `item` among them.
pub fn with_item(items: Vec<String>, item: &str) -> (r: Vec<String>)
    ensures
        crate::json::texts_set(r@) == crate::json::texts_set(items@).insert(item@),
        crate::json::distinct_texts(items@) ==> crate::json::distinct_texts(r@),
{
    if holds(&items, item) {
        assert(crate::json::texts_set(items@) =~= crate::json::texts_set(items@).insert(item@));
        return items;
    }
    let ghost before = items@;
    let ghost old_texts = crate::text::texts_view(before);
    let mut r = items;
    r.push(item.to_string());
    proof {
        let texts = crate::text::texts_view(r@);
        assert(texts =~= old_texts.push(item@));
        assert forall|x: Seq<char>| texts.contains(x) <==> old_texts.contains(x) || x == item@ by {
            assert(texts[before.len() as int] == item@);
            if old_texts.contains(x) {
                let k = choose|k: int| 0 <= k < old_texts.len() && old_texts[k] == x;
                assert(texts[k] == x);
            }
        }
        assert(crate::json::texts_set(r@) =~= crate::json::texts_set(before).insert(item@));
        if crate::json::distinct_texts(before) {
            assert forall|a: int, b: int| 0 <= a < b < r@.len() implies (#[trigger] r@[a])@ != (
            #[trigger] r@[b])@ by {
                assert(r@[a] == before[a]);
                assert(old_texts[a] == before[a]@);
                if b < before.len() {
                    assert(r@[b] == before[b]);
                } else {
                    assert(!old_texts.contains(item@));
                }
            }
        }
    }
    r
}

/// The text of the file that trusts what the file trusted, and the project.
pub fn mark_trusted(file: &Option<String>, project_id: &str) -> (r: Result<String, String>)
    ensures
        r is Ok,
        r matches Ok(text) ==> trusted(Some(text@)) == trusted(
            crate::text::opt_view(*file),
        ).insert(project_id@),
{
    let items = with_item(load(file), project_id);
    json_of_text_set(&items)
}

/// Trusting a project keeps every project trusted that was, trusts that one,
/// and no other; trusting it again changes nothing.
pub proof fn trust_only_grows(before: Set<Seq<char>>, id: Seq<char>, other: Seq<char>)
    ensures
        before.insert(id).contains(id),
        before.contains(other) ==> before.insert(id).contains(other),
        before.insert(id).contains(other) ==> before.contains(other) || other == id,
        before.insert(id).insert(id) == before.insert(id),
{
    assert(before.insert(id).insert(id) =~= before.insert(id));
}


/// Nothing is trusted where there is no file, or one that cannot be read; else
/// just what the file holds.
pub proof fn files_say_what_is_trusted(text: Seq<char>, id: Seq<char>)
    ensures
        !trusted(None).contains(id),
        crate::json::json_text_set(text) is None ==> !trusted(Some(text)).contains(id),
        crate::json::json_text_set(text) matches Some(held) ==> (trusted(Some(text)).contains(id)
            <==> held.contains(id)),
{
}

} // verus!
