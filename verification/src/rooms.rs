//! The table of open rooms, keyed by room name.
//!
//! A room name occurs at most once; the table is seen as a finite map from
//! names to rooms, and the order in which entries are stored is not part of
//! that view.
use vstd::prelude::*;
use crate::models::{Room, RoomView};

verus! {

/// One stored room and its name.
pub struct RoomEntry {
    pub name: String,
    pub room: Room,
}

/// The abstract table: what is stored, as (name, room) pairs.
pub open spec fn entries_view(entries: Seq<RoomEntry>) -> Seq<(Seq<char>, RoomView)> {
    entries.map_values(|e: RoomEntry| (e.name@, e.room@))
}

/// No name occurs twice.
pub open spec fn keys_unique(s: Seq<(Seq<char>, RoomView)>) -> bool {
    forall|i: int, j: int|
        0 <= i < s.len() && 0 <= j < s.len() && i != j ==> #[trigger] s[i].0 != #[trigger] s[j].0
}

/// Some stored pair has the name `k`.
pub open spec fn has_key(s: Seq<(Seq<char>, RoomView)>, k: Seq<char>) -> bool {
    exists|i: int| 0 <= i < s.len() && #[trigger] s[i].0 == k
}

/// The map that the stored pairs describe.
pub open spec fn pairs_to_map(s: Seq<(Seq<char>, RoomView)>) -> Map<Seq<char>, RoomView> {
    Map::new(
        |k: Seq<char>| has_key(s, k),
        |k: Seq<char>| s[choose|i: int| 0 <= i < s.len() && #[trigger] s[i].0 == k].1,
    )
}

/// With unique names, the pair at index `i` is what the map holds under its name.
pub proof fn lemma_pair_in_map(s: Seq<(Seq<char>, RoomView)>, i: int)
    requires
        keys_unique(s),
        0 <= i < s.len(),
    ensures
        pairs_to_map(s).contains_key(s[i].0),
        pairs_to_map(s)[s[i].0] == s[i].1,
{
    assert(has_key(s, s[i].0));
    let j = choose|j: int| 0 <= j < s.len() && #[trigger] s[j].0 == s[i].0;
    assert(s[j].0 == s[i].0);
}

/// Pairs with unique names describe `m` when they have exactly its names and,
/// under each name, its room.
proof fn lemma_same_map(t: Seq<(Seq<char>, RoomView)>, m: Map<Seq<char>, RoomView>)
    requires
        keys_unique(t),
        forall|k: Seq<char>| #[trigger] has_key(t, k) <==> m.contains_key(k),
        forall|i: int| 0 <= i < t.len() ==> m[#[trigger] t[i].0] == t[i].1,
    ensures
        pairs_to_map(t) == m,
{
    assert forall|k: Seq<char>| #[trigger] pairs_to_map(t).contains_key(k) implies pairs_to_map(
        t,
    )[k] == m[k] by {
        let i = choose|i: int| 0 <= i < t.len() && #[trigger] t[i].0 == k;
        lemma_pair_in_map(t, i);
    }
    assert(pairs_to_map(t).dom() =~= m.dom());
    assert(pairs_to_map(t) =~= m);
}

/// The rooms that the server keeps, by name.
pub struct RoomMap {
    entries: Vec<RoomEntry>,
}

impl View for RoomMap {
    type V = Map<Seq<char>, RoomView>;

    closed spec fn view(&self) -> Map<Seq<char>, RoomView> {
        pairs_to_map(entries_view(self.entries@))
    }
}

impl RoomMap {
    /// The table's invariant: no room name is stored twice.
    pub closed spec fn wf(&self) -> bool {
        keys_unique(entries_view(self.entries@))
    }

    /// An empty table.
    pub fn new() -> (m: RoomMap)
        ensures
            m.wf(),
            m@ == Map::<Seq<char>, RoomView>::empty(),
    {
        let m = RoomMap { entries: Vec::new() };
        assert(m@ =~= Map::<Seq<char>, RoomView>::empty());
        m
    }

    /// Where the room named `name` is stored, if anywhere.
    fn find(&self, name: &String) -> (r: Option<usize>)
        requires
            self.wf(),
        ensures
            match r {
                Some(i) => i < self.entries.len() && self.entries@[i as int].name@ == name@,
                None => !self@.contains_key(name@),
            },
    {
        let ghost s = entries_view(self.entries@);
        let mut i: usize = 0;
        while i < self.entries.len()
            invariant
                i <= self.entries.len(),
                s == entries_view(self.entries@),
                forall|j: int| 0 <= j < i ==> #[trigger] s[j].0 != name@,
            decreases self.entries.len() - i,
        {
            if self.entries[i].name == *name {
                return Some(i);
            }
            assert(s[i as int].0 == self.entries@[i as int].name@);
            i = i + 1;
        }
        assert(!has_key(s, name@));
        None
    }

    /// Whether a room named `name` is open.
    pub fn contains_key(&self, name: &String) -> (b: bool)
        requires
            self.wf(),
        ensures
            b == self@.contains_key(name@),
    {
        match self.find(name) {
            Some(i) => {
                proof {
                    lemma_pair_in_map(entries_view(self.entries@), i as int);
                }
                true
            },
            None => false,
        }
    }

    /// The room named `name`, if it is open.
    pub fn get(&self, name: &String) -> (r: Option<&Room>)
        requires
            self.wf(),
        ensures
            match r {
                Some(room) => self@.contains_key(name@) && self@[name@] == room@,
                None => !self@.contains_key(name@),
            },
    {
        match self.find(name) {
            Some(i) => {
                proof {
                    lemma_pair_in_map(entries_view(self.entries@), i as int);
                }
                Some(&self.entries[i].room)
            },
            None => None,
        }
    }

    /// Opens `room` under `name`, in place of the room that had that name, if
    /// any, which is handed back.
    pub fn insert(&mut self, name: String, room: Room) -> (old_room: Option<Room>)
        requires
            old(self).wf(),
        ensures
            final(self).wf(),
            final(self)@ == old(self)@.insert(name@, room@),
            match old_room {
                Some(r) => old(self)@.contains_key(name@) && old(self)@[name@] == r@,
                None => !old(self)@.contains_key(name@),
            },
    {
        let ghost s0 = entries_view(self.entries@);
        let ghost m0 = self@;
        let ghost key = name@;
        let ghost rv = room@;
        match self.find(&name) {
            Some(i) => {
                proof {
                    lemma_pair_in_map(s0, i as int);
                }
                let entry = self.entries.remove(i);
                self.entries.insert(i, RoomEntry { name, room });
                let ghost s1 = entries_view(self.entries@);
                assert(s1 =~= s0.update(i as int, (key, rv)));
                assert(keys_unique(s1)) by {
                    assert forall|a: int, b: int|
                        0 <= a < s1.len() && 0 <= b < s1.len() && a != b implies #[trigger] s1[a].0
                        != #[trigger] s1[b].0 by {
                        assert(s0[a].0 != s0[b].0);
                    }
                }
                proof {
                    let m1 = m0.insert(key, rv);
                    assert forall|k: Seq<char>| #[trigger] has_key(s1, k) <==> m1.contains_key(
                        k,
                    ) by {
                        if has_key(s1, k) {
                            let a = choose|a: int| 0 <= a < s1.len() && #[trigger] s1[a].0 == k;
                            if a != i {
                                assert(s1[a] == s0[a]);
                                lemma_pair_in_map(s0, a);
                            }
                        }
                        if m1.contains_key(k) {
                            if k == key {
                                assert(s1[i as int].0 == k);
                            } else {
                                let a = choose|a: int|
                                    0 <= a < s0.len() && #[trigger] s0[a].0 == k;
                                assert(a != i);
                                assert(s1[a].0 == k);
                            }
                        }
                    }
                    assert forall|a: int| 0 <= a < s1.len() implies m1[#[trigger] s1[a].0]
                        == s1[a].1 by {
                        if a != i {
                            lemma_pair_in_map(s0, a);
                        }
                    }
                    lemma_same_map(s1, m1);
                }
                Some(entry.room)
            },
            None => {
                self.entries.push(RoomEntry { name, room });
                let ghost s1 = entries_view(self.entries@);
                assert(s1 =~= s0.push((key, rv)));
                assert(keys_unique(s1)) by {
                    assert forall|a: int, b: int|
                        0 <= a < s1.len() && 0 <= b < s1.len() && a != b implies #[trigger] s1[a].0
                        != #[trigger] s1[b].0 by {
                        if a < s0.len() && b < s0.len() {
                            assert(s0[a].0 != s0[b].0);
                        } else if a < s0.len() {
                            lemma_pair_in_map(s0, a);
                        } else {
                            lemma_pair_in_map(s0, b);
                        }
                    }
                }
                proof {
                    let m1 = m0.insert(key, rv);
                    assert forall|k: Seq<char>| #[trigger] has_key(s1, k) <==> m1.contains_key(
                        k,
                    ) by {
                        if has_key(s1, k) {
                            let a = choose|a: int| 0 <= a < s1.len() && #[trigger] s1[a].0 == k;
                            if a < s0.len() {
                                lemma_pair_in_map(s0, a);
                            }
                        }
                        if m1.contains_key(k) {
                            if k == key {
                                assert(s1[s0.len() as int].0 == k);
                            } else {
                                let a = choose|a: int|
                                    0 <= a < s0.len() && #[trigger] s0[a].0 == k;
                                assert(s1[a].0 == k);
                            }
                        }
                    }
                    assert forall|a: int| 0 <= a < s1.len() implies m1[#[trigger] s1[a].0]
                        == s1[a].1 by {
                        if a < s0.len() {
                            lemma_pair_in_map(s0, a);
                        }
                    }
                    lemma_same_map(s1, m1);
                }
                None
            },
        }
    }

    /// Closes the room named `name`, if it is open, and hands it back.
    pub fn remove(&mut self, name: &String) -> (removed: Option<Room>)
        requires
            old(self).wf(),
        ensures
            final(self).wf(),
            final(self)@ == old(self)@.remove(name@),
            match removed {
                Some(r) => old(self)@.contains_key(name@) && old(self)@[name@] == r@,
                None => !old(self)@.contains_key(name@),
            },
    {
        let ghost s0 = entries_view(self.entries@);
        let ghost m0 = self@;
        let ghost key = name@;
        match self.find(name) {
            Some(i) => {
                proof {
                    lemma_pair_in_map(s0, i as int);
                }
                let entry = self.entries.remove(i);
                let ghost s1 = entries_view(self.entries@);
                assert(s1 =~= s0.remove(i as int));
                assert(keys_unique(s1)) by {
                    assert forall|a: int, b: int|
                        0 <= a < s1.len() && 0 <= b < s1.len() && a != b implies #[trigger] s1[a].0
                        != #[trigger] s1[b].0 by {
                        let a0 = if a < i { a } else { a + 1 };
                        let b0 = if b < i { b } else { b + 1 };
                        assert(s1[a] == s0[a0]);
                        assert(s1[b] == s0[b0]);
                        assert(s0[a0].0 != s0[b0].0);
                    }
                }
                proof {
                    let m1 = m0.remove(key);
                    assert forall|k: Seq<char>| #[trigger] has_key(s1, k) <==> m1.contains_key(
                        k,
                    ) by {
                        if has_key(s1, k) {
                            let a = choose|a: int| 0 <= a < s1.len() && #[trigger] s1[a].0 == k;
                            let a0 = if a < i { a } else { a + 1 };
                            assert(s1[a] == s0[a0]);
                            lemma_pair_in_map(s0, a0);
                            assert(s0[a0].0 != s0[i as int].0);
                        }
                        if m1.contains_key(k) {
                            let a = choose|a: int| 0 <= a < s0.len() && #[trigger] s0[a].0 == k;
                            assert(a != i);
                            let a1 = if a < i { a } else { a - 1 };
                            assert(s1[a1] == s0[a]);
                        }
                    }
                    assert forall|a: int| 0 <= a < s1.len() implies m1[#[trigger] s1[a].0]
                        == s1[a].1 by {
                        let a0 = if a < i { a } else { a + 1 };
                        assert(s1[a] == s0[a0]);
                        lemma_pair_in_map(s0, a0);
                    }
                    lemma_same_map(s1, m1);
                }
                Some(entry.room)
            },
            None => {
                assert(m0.remove(key) =~= m0);
                None
            },
        }
    }
}

} // verus!
