//! The engine processes that are running, by the id of their task. Its model
//! is a map from task id to process id.

use vstd::prelude::*;
use crate::text::same_text;

verus! {

pub open spec fn keys_unique(s: Seq<(Seq<char>, u32)>) -> bool {
    forall|i: int, j: int|
        0 <= i < s.len() && 0 <= j < s.len() && i != j ==> #[trigger] s[i].0 != #[trigger] s[j].0
}

pub open spec fn has_key(s: Seq<(Seq<char>, u32)>, k: Seq<char>) -> bool {
    exists|i: int| 0 <= i < s.len() && #[trigger] s[i].0 == k
}

pub open spec fn pair_map(s: Seq<(Seq<char>, u32)>) -> Map<Seq<char>, u32>
    decreases s.len(),
{
    if s.len() == 0 {
        Map::empty()
    } else {
        pair_map(s.drop_last()).insert(s.last().0, s.last().1)
    }
}

proof fn lemma_pair_map(s: Seq<(Seq<char>, u32)>)
    requires
        keys_unique(s),
    ensures
        forall|k: Seq<char>| #[trigger] pair_map(s).contains_key(k) <==> has_key(s, k),
        forall|i: int| 0 <= i < s.len() ==> pair_map(s)[#[trigger] s[i].0] == s[i].1,
    decreases s.len(),
{
    if s.len() > 0 {
        let t = s.drop_last();
        assert forall|i: int, j: int|
            0 <= i < t.len() && 0 <= j < t.len() && i != j implies #[trigger] t[i].0
            != #[trigger] t[j].0 by {
            assert(t[i] == s[i] && t[j] == s[j]);
        }
        lemma_pair_map(t);
        let last = s.last();
        assert(pair_map(s) == pair_map(t).insert(last.0, last.1));
        assert forall|k: Seq<char>| #[trigger] pair_map(s).contains_key(k) <==> has_key(s, k) by {
            if has_key(s, k) {
                let i = choose|i: int| 0 <= i < s.len() && #[trigger] s[i].0 == k;
                if i < s.len() - 1 {
                    assert(t[i].0 == k);
                }
            }
            if has_key(t, k) {
                let i = choose|i: int| 0 <= i < t.len() && #[trigger] t[i].0 == k;
                assert(s[i].0 == k);
            }
        }
        assert forall|i: int| 0 <= i < s.len() implies pair_map(s)[#[trigger] s[i].0] == s[i].1 by {
            if i < s.len() - 1 {
                assert(t[i] == s[i]);
                assert(s[i].0 != last.0);
            }
        }
    }
}

/// The pairs of task id and process id that a vector of entries holds.
pub open spec fn pairs_of(entries: Seq<(String, u32)>) -> Seq<(Seq<char>, u32)> {
    entries.map_values(|e: (String, u32)| (e.0@, e.1))
}

/// The running engine processes, by task id.
pub struct RunningProcesses {
    entries: Vec<(String, u32)>,
}

impl RunningProcesses {
    pub closed spec fn pairs(self) -> Seq<(Seq<char>, u32)> {
        pairs_of(self.entries@)
    }

    /// No task id is recorded twice.
    #[verifier::type_invariant]
    spec fn well_formed(self) -> bool {
        keys_unique(self.pairs())
    }

    pub fn new() -> (r: RunningProcesses)
        ensures
            r@ == Map::<Seq<char>, u32>::empty(),
    {
        let r = RunningProcesses { entries: Vec::new() };
        assert(r.pairs() =~= Seq::<(Seq<char>, u32)>::empty());
        r
    }

    fn position(&self, task_id: &str) -> (r: Option<usize>)
        ensures
            match r {
                Some(i) => i < self.pairs().len() && self.pairs()[i as int].0 == task_id@,
                None => !has_key(self.pairs(), task_id@),
            },
    {
        let mut i: usize = 0;
        while i < self.entries.len()
            invariant
                i <= self.entries@.len(),
                forall|j: int| 0 <= j < i ==> #[trigger] self.pairs()[j].0 != task_id@,
            decreases self.entries@.len() - i,
        {
            if same_text(self.entries[i].0.as_str(), task_id) {
                return Some(i);
            }
            i = i + 1;
        }
        None
    }

    /// Records that task `task_id` runs in process `pid`.
    pub fn insert(&mut self, task_id: String, pid: u32)
        ensures
            final(self)@ == old(self)@.insert(task_id@, pid),
    {
        proof {
            use_type_invariant(&*self);
        }
        let ghost old_pairs = self.pairs();
        let ghost key = task_id@;
        proof {
            lemma_pair_map(old_pairs);
        }
        let found = self.position(task_id.as_str());
        let mut entries: Vec<(String, u32)> = Vec::new();
        std::mem::swap(&mut entries, &mut self.entries);
        match found {
            Some(i) => {
                entries.set(i, (task_id, pid));
                let ghost new_pairs = pairs_of(entries@);
                assert(new_pairs =~= old_pairs.update(i as int, (key, pid)));
                assert(keys_unique(new_pairs)) by {
                    assert forall|a: int, b: int|
                        0 <= a < new_pairs.len() && 0 <= b < new_pairs.len() && a != b implies #[trigger] new_pairs[a].0
                        != #[trigger] new_pairs[b].0 by {
                        assert(new_pairs[a].0 == old_pairs[a].0);
                        assert(new_pairs[b].0 == old_pairs[b].0);
                    }
                }
                self.entries = entries;
                proof {
                    lemma_pair_map(new_pairs);
                }
                assert(self@ =~= old(self)@.insert(key, pid)) by {
                    assert forall|k: Seq<char>| #[trigger] self@.contains_key(k) <==> old(self)@.insert(key, pid).contains_key(k) by {
                        if has_key(new_pairs, k) {
                            let j = choose|j: int| 0 <= j < new_pairs.len() && #[trigger] new_pairs[j].0 == k;
                            assert(old_pairs[j].0 == k);
                        }
                        if has_key(old_pairs, k) {
                            let j = choose|j: int| 0 <= j < old_pairs.len() && #[trigger] old_pairs[j].0 == k;
                            assert(new_pairs[j].0 == k);
                        }
                    }
                    assert forall|k: Seq<char>| #[trigger] self@.contains_key(k) implies self@[k] == old(self)@.insert(key, pid)[k] by {
                        let j = choose|j: int| 0 <= j < new_pairs.len() && #[trigger] new_pairs[j].0 == k;
                        if j != i {
                            assert(old_pairs[j] == new_pairs[j]);
                        }
                    }
                }
            },
            None => {
                entries.push((task_id, pid));
                let ghost new_pairs = pairs_of(entries@);
                assert(new_pairs =~= old_pairs.push((key, pid)));
                assert(new_pairs.drop_last() =~= old_pairs);
                assert(keys_unique(new_pairs)) by {
                    assert forall|a: int, b: int|
                        0 <= a < new_pairs.len() && 0 <= b < new_pairs.len() && a != b implies #[trigger] new_pairs[a].0
                        != #[trigger] new_pairs[b].0 by {
                        if a < old_pairs.len() && b < old_pairs.len() {
                            assert(new_pairs[a] == old_pairs[a]);
                            assert(new_pairs[b] == old_pairs[b]);
                        } else if a < old_pairs.len() {
                            assert(new_pairs[a] == old_pairs[a]);
                        } else {
                            assert(new_pairs[b] == old_pairs[b]);
                        }
                    }
                }
                self.entries = entries;
            },
        }
    }

    /// Takes out the process of task `task_id`, if one is recorded.
    pub fn remove(&mut self, task_id: &str) -> (r: Option<u32>)
        ensures
            final(self)@ == old(self)@.remove(task_id@),
            r is Some == old(self)@.contains_key(task_id@),
            r matches Some(pid) ==> pid == old(self)@[task_id@],
    {
        proof {
            use_type_invariant(&*self);
        }
        let ghost old_pairs = self.pairs();
        proof {
            lemma_pair_map(old_pairs);
        }
        match self.position(task_id) {
            Some(i) => {
                let mut entries: Vec<(String, u32)> = Vec::new();
                std::mem::swap(&mut entries, &mut self.entries);
                let (_, pid) = entries.remove(i);
                let ghost new_pairs = pairs_of(entries@);
                assert(new_pairs =~= old_pairs.remove(i as int));
                assert(keys_unique(new_pairs)) by {
                    assert forall|a: int, b: int|
                        0 <= a < new_pairs.len() && 0 <= b < new_pairs.len() && a != b implies #[trigger] new_pairs[a].0
                        != #[trigger] new_pairs[b].0 by {
                        let a2 = if a < i { a } else { a + 1 };
                        let b2 = if b < i { b } else { b + 1 };
                        assert(new_pairs[a] == old_pairs[a2]);
                        assert(new_pairs[b] == old_pairs[b2]);
                    }
                }
                self.entries = entries;
                proof {
                    lemma_pair_map(new_pairs);
                }
                assert(self@ =~= old(self)@.remove(task_id@)) by {
                    assert forall|k: Seq<char>| #[trigger] self@.contains_key(k) <==> old(self)@.remove(task_id@).contains_key(k) by {
                        if has_key(new_pairs, k) {
                            let j = choose|j: int| 0 <= j < new_pairs.len() && #[trigger] new_pairs[j].0 == k;
                            let j2 = if j < i { j } else { j + 1 };
                            assert(old_pairs[j2].0 == k);
                        }
                        if has_key(old_pairs, k) && k != task_id@ {
                            let j = choose|j: int| 0 <= j < old_pairs.len() && #[trigger] old_pairs[j].0 == k;
                            if j < i {
                                assert(new_pairs[j].0 == k);
                            } else {
                                assert(new_pairs[j - 1].0 == k);
                            }
                        }
                    }
                    assert forall|k: Seq<char>| #[trigger] self@.contains_key(k) implies self@[k] == old(self)@.remove(task_id@)[k] by {
                        let j = choose|j: int| 0 <= j < new_pairs.len() && #[trigger] new_pairs[j].0 == k;
                        let j2 = if j < i { j } else { j + 1 };
                        assert(old_pairs[j2] == new_pairs[j]);
                    }
                }
                assert(old_pairs[i as int].1 == pid);
                Some(pid)
            },
            None => {
                assert(self@ =~= old(self)@.remove(task_id@));
                None
            },
        }
    }
}

impl View for RunningProcesses {
    type V = Map<Seq<char>, u32>;

    closed spec fn view(&self) -> Map<Seq<char>, u32> {
        pair_map(self.pairs())
    }
}

} // verus!
