//! Bookkeeping for the simulator connection: the ids that the simulator gave
//! to the events this program registered.

use vstd::prelude::*;

verus! {

/// The map that a list of (name, id) entries stands for; a later entry for a
/// name overrides an earlier one.
pub open spec fn entries_map(entries: Seq<(String, u32)>) -> Map<Seq<char>, u32>
    decreases entries.len(),
{
    if entries.len() == 0 {
        Map::empty()
    } else {
        entries_map(entries.drop_last()).insert(entries.last().0@, entries.last().1)
    }
}

/// No name occurs twice.
pub open spec fn names_unique(entries: Seq<(String, u32)>) -> bool {
    forall|i: int, j: int|
        0 <= i < entries.len() && 0 <= j < entries.len() && i != j ==> (#[trigger] entries[i]).0@
            != (#[trigger] entries[j]).0@
}

/// Replacing the id of the entry for a name that occurs once sets that name's
/// id in the map.
proof fn lemma_entries_map_update(entries: Seq<(String, u32)>, k: int, name: String, id: u32)
    requires
        names_unique(entries),
        0 <= k < entries.len(),
        entries[k].0@ == name@,
    ensures
        entries_map(entries.update(k, (name, id))) == entries_map(entries).insert(name@, id),
    decreases entries.len(),
{
    let updated = entries.update(k, (name, id));
    if k == entries.len() - 1 {
        assert(updated.drop_last() == entries.drop_last());
    } else {
        let shorter = entries.drop_last();
        assert(names_unique(shorter)) by {
            assert forall|i: int, j: int|
                0 <= i < shorter.len() && 0 <= j < shorter.len() && i != j implies (
                #[trigger] shorter[i]).0@ != (#[trigger] shorter[j]).0@ by {
                assert(shorter[i] == entries[i] && shorter[j] == entries[j]);
            }
        }
        lemma_entries_map_update(shorter, k, name, id);
        assert(updated.drop_last() == shorter.update(k, (name, id)));
        let last = entries.last();
        assert(last == entries[entries.len() - 1]);
        assert(last.0@ != name@);
        assert(entries_map(updated) == entries_map(entries).insert(name@, id));
    }
}

/// The ids of the simulator events registered so far, by event name.
#[derive(Debug)]
pub struct EventIdTable {
    map: Vec<(String, u32)>,
}

impl View for EventIdTable {
    type V = Map<Seq<char>, u32>;

    closed spec fn view(&self) -> Map<Seq<char>, u32> {
        entries_map(self.map@)
    }
}

impl EventIdTable {
    /// Each event name is held once.
    pub closed spec fn wf(&self) -> bool {
        names_unique(self.map@)
    }

    /// An empty table.
    pub fn new() -> (r: Self)
        ensures
            r.wf(),
            r@ == Map::<Seq<char>, u32>::empty(),
    {
        EventIdTable { map: Vec::new() }
    }

    /// Records `id` for `name`, replacing any id recorded for it before.
    pub fn add(&mut self, name: String, id: u32)
        requires
            old(self).wf(),
        ensures
            final(self).wf(),
            final(self)@ == old(self)@.insert(name@, id),
    {
        let mut i: usize = 0;
        while i < self.map.len()
            invariant
                i <= self.map@.len(),
                self.map@ == old(self).map@,
                names_unique(self.map@),
                forall|j: int| 0 <= j < i ==> (#[trigger] self.map@[j]).0@ != name@,
            decreases self.map.len() - i,
        {
            if self.map[i].0 == name {
                proof {
                    lemma_entries_map_update(self.map@, i as int, name, id);
                }
                let ghost before = self.map@;
                self.map.set(i, (name, id));
                assert(names_unique(self.map@)) by {
                    assert forall|a: int, b: int|
                        0 <= a < self.map@.len() && 0 <= b < self.map@.len() && a != b implies (
                        #[trigger] self.map@[a]).0@ != (#[trigger] self.map@[b]).0@ by {
                        assert(before[a].0@ != before[b].0@);
                    }
                }
                return;
            }
            i = i + 1;
        }
        let ghost before = self.map@;
        self.map.push((name, id));
        assert(self.map@.drop_last() == before);
        assert(names_unique(self.map@)) by {
            assert forall|a: int, b: int|
                0 <= a < self.map@.len() && 0 <= b < self.map@.len() && a != b implies (
                #[trigger] self.map@[a]).0@ != (#[trigger] self.map@[b]).0@ by {
                if a < before.len() && b < before.len() {
                    assert(before[a].0@ != before[b].0@);
                } else if a < before.len() {
                    assert(before[a].0@ != name@);
                } else {
                    assert(before[b].0@ != name@);
                }
            }
        }
    }

    /// The id recorded for `name`, if any.
    pub fn get(&mut self, name: String) -> (r: Option<u32>)
        ensures
            *final(self) == *old(self),
            r == (if old(self)@.contains_key(name@) {
                Some(old(self)@[name@])
            } else {
                None
            }),
    {
        let mut i: usize = self.map.len();
        assert(self.map@.subrange(0, i as int) == self.map@);
        while i > 0
            invariant
                i <= self.map@.len(),
                self.map@ == old(self).map@,
                entries_map(self.map@.subrange(0, i as int)).contains_key(name@) == self@.contains_key(
                    name@,
                ),
                entries_map(self.map@.subrange(0, i as int)).contains_key(name@) ==> entries_map(
                    self.map@.subrange(0, i as int),
                )[name@] == self@[name@],
            decreases i,
        {
            let ghost prefix = self.map@.subrange(0, i as int);
            assert(prefix.drop_last() == self.map@.subrange(0, i - 1));
            assert(prefix.last() == self.map@[i - 1]);
            if self.map[i - 1].0 == name {
                return Some(self.map[i - 1].1);
            }
            i = i - 1;
        }
        None
    }

    /// How many event names have an id.
    pub fn len(&self) -> (r: usize)
        requires
            self.wf(),
        ensures
            r == self@.len(),
    {
        proof {
            lemma_entries_map_len(self.map@);
        }
        self.map.len()
    }
}

/// With every name held once, the map has one key per entry.
proof fn lemma_entries_map_len(entries: Seq<(String, u32)>)
    requires
        names_unique(entries),
    ensures
        entries_map(entries).len() == entries.len(),
        entries_map(entries).dom().finite(),
        forall|k: Seq<char>| #[trigger] entries_map(entries).contains_key(k) <==> exists|i: int|
            0 <= i < entries.len() && (#[trigger] entries[i]).0@ == k,
    decreases entries.len(),
{
    if entries.len() > 0 {
        let shorter = entries.drop_last();
        assert(names_unique(shorter)) by {
            assert forall|i: int, j: int|
                0 <= i < shorter.len() && 0 <= j < shorter.len() && i != j implies (
                #[trigger] shorter[i]).0@ != (#[trigger] shorter[j]).0@ by {
                assert(shorter[i] == entries[i] && shorter[j] == entries[j]);
            }
        }
        lemma_entries_map_len(shorter);
        let last = entries[entries.len() - 1];
        assert(!entries_map(shorter).contains_key(last.0@)) by {
            if entries_map(shorter).contains_key(last.0@) {
                let i = choose|i: int| 0 <= i < shorter.len() && (#[trigger] shorter[i]).0@ == last.0@;
                assert(shorter[i] == entries[i]);
            }
        }
        assert forall|k: Seq<char>| #[trigger] entries_map(entries).contains_key(k) <==> exists|i: int|
            0 <= i < entries.len() && (#[trigger] entries[i]).0@ == k by {
            if entries_map(entries).contains_key(k) && k != last.0@ {
                let i = choose|i: int| 0 <= i < shorter.len() && (#[trigger] shorter[i]).0@ == k;
                assert(entries[i] == shorter[i]);
            }
            if exists|i: int| 0 <= i < entries.len() && (#[trigger] entries[i]).0@ == k {
                let i = choose|i: int| 0 <= i < entries.len() && (#[trigger] entries[i]).0@ == k;
                if i < entries.len() - 1 {
                    assert(shorter[i] == entries[i]);
                }
            }
        }
    }
}

} // verus!
