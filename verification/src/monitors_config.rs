//! Which project is assigned to which monitor, as a file keeps it.

use vstd::prelude::*;

use crate::json::{json_of_text_map, json_text_map_of};

verus! {

/// The file's directory below the user's configuration.
pub const CONFIG_SUBDIR: &'static str = "wp_linux";

pub const CONFIG_FILE_NAME: &'static str = "monitors.json";

/// The project's directory of each monitor that has one.
pub struct Assignments {
    pub entries: Vec<(String, String)>,
}

impl View for Assignments {
    type V = Map<Seq<char>, Seq<char>>;

    open spec fn view(&self) -> Map<Seq<char>, Seq<char>> {
        crate::json::pairs_map(self.entries@)
    }
}

impl Assignments {
    /// No monitor stands twice.
    pub open spec fn wf(self) -> bool {
        crate::json::distinct_keys(self.entries@)
    }

    pub fn new() -> (r: Assignments)
        ensures
            r.wf(),
            r@ == Map::<Seq<char>, Seq<char>>::empty(),
    {
        Assignments { entries: Vec::new() }
    }

    /// The project of a monitor.
    pub fn get(&self, monitor: &str) -> (r: Option<String>)
        requires
            self.wf(),
        ensures
            match r {
                Some(dir) => self@.dom().contains(monitor@) && self@[monitor@] == dir@,
                None => !self@.dom().contains(monitor@),
            },
    {
        let wanted = monitor.to_string();
        let mut i: usize = 0;
        while i < self.entries.len()
            invariant
                self.wf(),
                wanted@ == monitor@,
                i <= self.entries@.len(),
                forall|k: int| 0 <= k < i ==> (#[trigger] self.entries@[k]).0@ != monitor@,
            decreases self.entries.len() - i,
        {
            if self.entries[i].0 == wanted {
                proof {
                    pair_in_map(self.entries@, i as int);
                }
                return Some(self.entries[i].1.clone());
            }
            i += 1;
        }
        proof {
            key_not_in_map(self.entries@, monitor@);
        }
        None
    }

    /// Assigns a project to a monitor, in place of the one that it had.
    pub fn insert(&mut self, monitor: &str, dir: &str)
        requires
            old(self).wf(),
        ensures
            final(self).wf(),
            final(self)@ == old(self)@.insert(monitor@, dir@),
    {
        let wanted = monitor.to_string();
        let ghost before = self.entries@;
        let mut i: usize = 0;
        while i < self.entries.len()
            invariant
                self.wf(),
                self.entries@ == before,
                before == old(self).entries@,
                wanted@ == monitor@,
                i <= self.entries@.len(),
                forall|k: int| 0 <= k < i ==> (#[trigger] self.entries@[k]).0@ != monitor@,
            decreases self.entries.len() - i,
        {
            if self.entries[i].0 == wanted {
                self.entries.set(i, (wanted, dir.to_string()));
                proof {
                    replaced_in_map(before, i as int, self.entries@[i as int]);
                    assert(self.entries@ =~= before.update(i as int, self.entries@[i as int]));
                    assert forall|a: int, b: int|
                        0 <= a < b < self.entries@.len() implies (
                    #[trigger] self.entries@[a]).0@ != (#[trigger] self.entries@[b]).0@ by {
                        assert(before[a].0@ != before[b].0@);
                    }
                }
                return;
            }
            i += 1;
        }
        self.entries.push((wanted, dir.to_string()));
        proof {
            assert(self.entries@.drop_last() =~= before);
            assert forall|a: int, b: int| 0 <= a < b < self.entries@.len() implies (
            #[trigger] self.entries@[a]).0@ != (#[trigger] self.entries@[b]).0@ by {
                assert(before[a] == self.entries@[a]);
                if b < before.len() {
                    assert(before[b] == self.entries@[b]);
                }
            }
        }
    }
}

proof fn key_not_in_map(pairs: Seq<(String, String)>, key: Seq<char>)
    requires
        forall|k: int| 0 <= k < pairs.len() ==> (#[trigger] pairs[k]).0@ != key,
    ensures
        !crate::json::pairs_map(pairs).dom().contains(key),
    decreases pairs.len(),
{
    if pairs.len() > 0 {
        assert(pairs.last().0@ != key);
        assert forall|k: int| 0 <= k < pairs.drop_last().len() implies (
        #[trigger] pairs.drop_last()[k]).0@ != key by {
            assert(pairs.drop_last()[k] == pairs[k]);
        }
        key_not_in_map(pairs.drop_last(), key);
    }
}

proof fn pair_in_map(pairs: Seq<(String, String)>, i: int)
    requires
        crate::json::distinct_keys(pairs),
        0 <= i < pairs.len(),
    ensures
        crate::json::pairs_map(pairs).dom().contains(pairs[i].0@),
        crate::json::pairs_map(pairs)[pairs[i].0@] == pairs[i].1@,
    decreases pairs.len(),
{
    if i < pairs.len() - 1 {
        let before = pairs.drop_last();
        assert forall|a: int, b: int| 0 <= a < b < before.len() implies (
        #[trigger] before[a]).0@ != (#[trigger] before[b]).0@ by {
            assert(pairs[a].0@ != pairs[b].0@);
        }
        pair_in_map(before, i);
        assert(before[i] == pairs[i]);
        assert(pairs[i].0@ != pairs[pairs.len() - 1].0@);
    }
}

proof fn replaced_in_map(pairs: Seq<(String, String)>, i: int, new: (String, String))
    requires
        crate::json::distinct_keys(pairs),
        0 <= i < pairs.len(),
        new.0@ == pairs[i].0@,
    ensures
        crate::json::pairs_map(pairs.update(i, new)) == crate::json::pairs_map(pairs).insert(
            new.0@,
            new.1@,
        ),
    decreases pairs.len(),
{
    let after = pairs.update(i, new);
    let n = pairs.len() - 1;
    if i == n {
        assert(after.drop_last() =~= pairs.drop_last());
        assert(crate::json::pairs_map(after) =~= crate::json::pairs_map(pairs).insert(
            new.0@,
            new.1@,
        ));
    } else {
        let before = pairs.drop_last();
        assert forall|a: int, b: int| 0 <= a < b < before.len() implies (
        #[trigger] before[a]).0@ != (#[trigger] before[b]).0@ by {
            assert(pairs[a].0@ != pairs[b].0@);
        }
        assert(before[i] == pairs[i]);
        replaced_in_map(before, i, new);
        assert(after.drop_last() =~= before.update(i, new));
        assert(pairs[i].0@ != pairs[n].0@);
        assert(crate::json::pairs_map(after) =~= crate::json::pairs_map(pairs).insert(
            new.0@,
            new.1@,
        ));
    }
}

/// What a file's text assigns: nothing where there is no file or where it
/// cannot be read as assignments.
pub open spec fn assigned(file: Option<Seq<char>>) -> Map<Seq<char>, Seq<char>> {
    match file {
        Some(text) => match crate::json::json_text_map(text) {
            Some(map) => map,
            None => Map::empty(),
        },
        None => Map::empty(),
    }
}

/// The assignments that a file's parsed pairs make.
pub fn assignments_from(pairs: Option<Vec<(String, String)>>) -> (r: Assignments)
    requires
        pairs matches Some(p) ==> crate::json::distinct_keys(p@),
    ensures
        r.wf(),
        r@ == match pairs {
            Some(p) => crate::json::pairs_map(p@),
            None => Map::empty(),
        },
{
    match pairs {
        Some(entries) => Assignments { entries },
        None => Assignments::new(),
    }
}

/// The assignments that the file holds. No file, or one that cannot be read as
/// assignments, holds none.
pub fn load(file: &Option<String>) -> (r: Assignments)
    ensures
        r.wf(),
        r@ == assigned(crate::text::opt_view(*file)),
{
    match file {
        Some(text) => assignments_from(json_text_map_of(text.as_str())),
        None => Assignments::new(),
    }
}

/// The text of the file that holds the assignments, all of them and no others.
pub fn save(assignments: &Assignments) -> (r: Result<String, String>)
    requires
        assignments.wf(),
    ensures
        r is Ok,
        r matches Ok(text) ==> assigned(Some(text@)) == assignments@,
{
    json_of_text_map(&assignments.entries)
}


/// No monitor has a project where there is no file, or one that cannot be read;
/// else each has the one that the file holds for it.
pub proof fn files_say_what_is_assigned(text: Seq<char>, monitor: Seq<char>)
    ensures
        !assigned(None).dom().contains(monitor),
        crate::json::json_text_map(text) is None ==> !assigned(Some(text)).dom().contains(monitor),
        crate::json::json_text_map(text) matches Some(held) ==> {
            &&& assigned(Some(text)).dom().contains(monitor) <==> held.dom().contains(monitor)
            &&& held.dom().contains(monitor) ==> assigned(Some(text))[monitor] == held[monitor]
        },
{
}

} // verus!
