//! The task store: every task the application knows of, keyed by its id.
//! Its model is a map from task id to task; the records are kept in a vector
//! in which no id occurs twice.

use vstd::prelude::*;
use crate::models::{TaskRecord, TaskView};
use crate::text::{
    lemma_text_lt_irreflexive, lemma_text_lt_total, lemma_text_lt_transitive, same_text,
    text_less, text_lt,
};

verus! {

/// No two entries carry the same id.
pub open spec fn ids_unique(s: Seq<TaskView>) -> bool {
    forall|i: int, j: int|
        0 <= i < s.len() && 0 <= j < s.len() && i != j ==> #[trigger] s[i].id != #[trigger] s[j].id
}

/// Some entry carries the id `k`.
pub open spec fn has_id(s: Seq<TaskView>, k: Seq<char>) -> bool {
    exists|i: int| 0 <= i < s.len() && #[trigger] s[i].id == k
}

/// The map from id to entry that a sequence of entries describes (a later
/// entry wins, which never matters when the ids are unique).
pub open spec fn index_map(s: Seq<TaskView>) -> Map<Seq<char>, TaskView>
    decreases s.len(),
{
    if s.len() == 0 {
        Map::empty()
    } else {
        index_map(s.drop_last()).insert(s.last().id, s.last())
    }
}

pub proof fn lemma_index_map(s: Seq<TaskView>)
    requires
        ids_unique(s),
    ensures
        index_map(s).dom().finite(),
        index_map(s).len() == s.len(),
        forall|k: Seq<char>| #[trigger] index_map(s).contains_key(k) <==> has_id(s, k),
        forall|i: int| 0 <= i < s.len() ==> index_map(s)[#[trigger] s[i].id] == s[i],
    decreases s.len(),
{
    if s.len() > 0 {
        let t = s.drop_last();
        assert forall|i: int, j: int|
            0 <= i < t.len() && 0 <= j < t.len() && i != j implies #[trigger] t[i].id
            != #[trigger] t[j].id by {
            assert(t[i] == s[i] && t[j] == s[j]);
        }
        lemma_index_map(t);
        let last = s.last();
        assert(!has_id(t, last.id)) by {
            if has_id(t, last.id) {
                let i = choose|i: int| 0 <= i < t.len() && #[trigger] t[i].id == last.id;
                assert(s[i].id == s[s.len() - 1].id);
            }
        }
        assert forall|k: Seq<char>| #[trigger] index_map(s).contains_key(k) <==> has_id(s, k) by {
            if has_id(s, k) {
                let i = choose|i: int| 0 <= i < s.len() && #[trigger] s[i].id == k;
                if i < s.len() - 1 {
                    assert(t[i].id == k);
                }
            }
            if has_id(t, k) {
                let i = choose|i: int| 0 <= i < t.len() && #[trigger] t[i].id == k;
                assert(s[i].id == k);
            }
        }
        assert forall|i: int| 0 <= i < s.len() implies index_map(s)[#[trigger] s[i].id] == s[i] by {
            if i < s.len() - 1 {
                assert(t[i] == s[i]);
                assert(s[i].id != last.id);
            }
        }
    }
}

/// All the tasks, by id.
pub struct TaskStore {
    tasks: Vec<TaskRecord>,
}

impl TaskStore {
    /// The entries in the order they are kept.
    pub closed spec fn entries(self) -> Seq<TaskView> {
        views(self.tasks@)
    }

    /// The store's invariant: no id is kept twice.
    #[verifier::type_invariant]
    spec fn well_formed(self) -> bool {
        ids_unique(self.entries())
    }

    /// An empty store.
    pub fn new() -> (s: TaskStore)
        ensures
            s@ == Map::<Seq<char>, TaskView>::empty(),
    {
        let s = TaskStore { tasks: Vec::new() };
        assert(s.entries() =~= Seq::<TaskView>::empty());
        s
    }

    /// The number of tasks.
    pub fn len(&self) -> (n: usize)
        ensures
            n == self@.len(),
    {
        proof {
            use_type_invariant(self);
            lemma_index_map(self.entries());
        }
        self.tasks.len()
    }

    /// The position at which the task `id` is kept.
    fn position(&self, id: &str) -> (r: Option<usize>)
        ensures
            match r {
                Some(i) => i < self.entries().len() && self.entries()[i as int].id == id@,
                None => !has_id(self.entries(), id@),
            },
    {
        let mut i: usize = 0;
        while i < self.tasks.len()
            invariant
                i <= self.tasks@.len(),
                forall|j: int| 0 <= j < i ==> #[trigger] self.entries()[j].id != id@,
            decreases self.tasks@.len() - i,
        {
            if same_text(self.tasks[i].id.as_str(), id) {
                return Some(i);
            }
            i = i + 1;
        }
        None
    }

    /// The task `id`, if the store holds it.
    pub fn get(&self, id: &str) -> (r: Option<&TaskRecord>)
        ensures
            r is Some == self@.contains_key(id@),
            r matches Some(t) ==> t@ == self@[id@] && t@.id == id@,
    {
        proof {
            use_type_invariant(self);
            lemma_index_map(self.entries());
        }
        match self.position(id) {
            Some(i) => {
                assert(self.entries()[i as int] == self.tasks@[i as int]@);
                Some(&self.tasks[i])
            },
            None => None,
        }
    }

    /// Adds the task, or replaces the one with the same id.
    pub fn insert(&mut self, record: TaskRecord)
        ensures
            final(self)@ == old(self)@.insert(record@.id, record@),
    {
        proof {
            use_type_invariant(&*self);
        }
        let ghost old_entries = self.entries();
        let ghost rec = record@;
        proof {
            lemma_index_map(old_entries);
        }
        let found = self.position(record.id.as_str());
        let mut tasks: Vec<TaskRecord> = Vec::new();
        std::mem::swap(&mut tasks, &mut self.tasks);
        match found {
            Some(i) => {
                tasks.set(i, record);
                let ghost new_entries = views(tasks@);
                assert(new_entries =~= old_entries.update(i as int, rec));
                assert(ids_unique(new_entries)) by {
                    assert forall|a: int, b: int|
                        0 <= a < new_entries.len() && 0 <= b < new_entries.len() && a != b implies #[trigger] new_entries[a].id
                        != #[trigger] new_entries[b].id by {
                        assert(new_entries[a].id == old_entries[a].id);
                        assert(new_entries[b].id == old_entries[b].id);
                    }
                }
                self.tasks = tasks;
                proof {
                    lemma_index_map(new_entries);
                }
                assert(self@ =~= old(self)@.insert(rec.id, rec)) by {
                    assert forall|k: Seq<char>| #[trigger] self@.contains_key(k) <==> old(self)@.insert(rec.id, rec).contains_key(k) by {
                        if has_id(new_entries, k) {
                            let j = choose|j: int| 0 <= j < new_entries.len() && #[trigger] new_entries[j].id == k;
                            assert(old_entries[j].id == k);
                        }
                        if has_id(old_entries, k) {
                            let j = choose|j: int| 0 <= j < old_entries.len() && #[trigger] old_entries[j].id == k;
                            assert(new_entries[j].id == k);
                        }
                    }
                    assert forall|k: Seq<char>| #[trigger] self@.contains_key(k) implies self@[k] == old(self)@.insert(rec.id, rec)[k] by {
                        let j = choose|j: int| 0 <= j < new_entries.len() && #[trigger] new_entries[j].id == k;
                        if j != i {
                            assert(old_entries[j] == new_entries[j]);
                        }
                    }
                }
            },
            None => {
                tasks.push(record);
                let ghost new_entries = views(tasks@);
                assert(new_entries =~= old_entries.push(rec));
                assert(new_entries.drop_last() =~= old_entries);
                assert(ids_unique(new_entries)) by {
                    assert forall|a: int, b: int|
                        0 <= a < new_entries.len() && 0 <= b < new_entries.len() && a != b implies #[trigger] new_entries[a].id
                        != #[trigger] new_entries[b].id by {
                        if a < old_entries.len() && b < old_entries.len() {
                            assert(new_entries[a] == old_entries[a]);
                            assert(new_entries[b] == old_entries[b]);
                        } else if a < old_entries.len() {
                            assert(new_entries[a] == old_entries[a]);
                        } else {
                            assert(new_entries[b] == old_entries[b]);
                        }
                    }
                }
                self.tasks = tasks;
            },
        }
    }

    /// Takes the task `id` out of the store.
    pub fn remove(&mut self, id: &str) -> (r: Option<TaskRecord>)
        ensures
            final(self)@ == old(self)@.remove(id@),
            r is Some == old(self)@.contains_key(id@),
            r matches Some(t) ==> t@ == old(self)@[id@],
    {
        proof {
            use_type_invariant(&*self);
        }
        let ghost old_entries = self.entries();
        proof {
            lemma_index_map(old_entries);
        }
        match self.position(id) {
            Some(i) => {
                let mut tasks: Vec<TaskRecord> = Vec::new();
                std::mem::swap(&mut tasks, &mut self.tasks);
                let t = tasks.remove(i);
                let ghost new_entries = views(tasks@);
                assert(new_entries =~= old_entries.remove(i as int));
                assert(ids_unique(new_entries)) by {
                    assert forall|a: int, b: int|
                        0 <= a < new_entries.len() && 0 <= b < new_entries.len() && a != b implies #[trigger] new_entries[a].id
                        != #[trigger] new_entries[b].id by {
                        let a2 = if a < i { a } else { a + 1 };
                        let b2 = if b < i { b } else { b + 1 };
                        assert(new_entries[a] == old_entries[a2]);
                        assert(new_entries[b] == old_entries[b2]);
                    }
                }
                self.tasks = tasks;
                proof {
                    lemma_index_map(new_entries);
                }
                assert(self@ =~= old(self)@.remove(id@)) by {
                    assert forall|k: Seq<char>| #[trigger] self@.contains_key(k) <==> old(self)@.remove(id@).contains_key(k) by {
                        if has_id(new_entries, k) {
                            let j = choose|j: int| 0 <= j < new_entries.len() && #[trigger] new_entries[j].id == k;
                            let j2 = if j < i { j } else { j + 1 };
                            assert(old_entries[j2].id == k);
                        }
                        if has_id(old_entries, k) && k != id@ {
                            let j = choose|j: int| 0 <= j < old_entries.len() && #[trigger] old_entries[j].id == k;
                            if j < i {
                                assert(new_entries[j].id == k);
                            } else {
                                assert(new_entries[j - 1].id == k);
                            }
                        }
                    }
                    assert forall|k: Seq<char>| #[trigger] self@.contains_key(k) implies self@[k] == old(self)@.remove(id@)[k] by {
                        let j = choose|j: int| 0 <= j < new_entries.len() && #[trigger] new_entries[j].id == k;
                        let j2 = if j < i { j } else { j + 1 };
                        assert(old_entries[j2] == new_entries[j]);
                    }
                }
                Some(t)
            },
            None => {
                assert(self@ =~= old(self)@.remove(id@));
                None
            },
        }
    }
}

/// The tasks are listed most recently updated first.
pub open spec fn newest_first(s: Seq<TaskView>) -> bool {
    forall|i: int, j: int|
        0 <= i < j < s.len() ==> !text_lt(#[trigger] s[i].updated_at, #[trigger] s[j].updated_at)
}

/// `list` holds each task of `tasks` once, and nothing else.
pub open spec fn lists_all(list: Seq<TaskView>, tasks: Map<Seq<char>, TaskView>) -> bool {
    &&& list.len() == tasks.len()
    &&& forall|i: int|
        0 <= i < list.len() ==> tasks.contains_key(#[trigger] list[i].id) && tasks[list[i].id]
            == list[i]
    &&& forall|i: int, j: int|
        0 <= i < list.len() && 0 <= j < list.len() && i != j ==> #[trigger] list[i].id
            != #[trigger] list[j].id
}

pub open spec fn views(records: Seq<TaskRecord>) -> Seq<TaskView> {
    records.map_values(|t: TaskRecord| t@)
}

impl TaskStore {
    /// Every task, the most recently updated first; tasks updated at the same
    /// time come in no promised order.
    pub fn by_recent_update(&self) -> (r: Vec<TaskRecord>)
        ensures
            lists_all(views(r@), self@),
            newest_first(views(r@)),
    {
        proof {
            use_type_invariant(self);
        }
        let ghost e = self.entries();
        let n = self.tasks.len();
        let mut out: Vec<TaskRecord> = Vec::new();
        let mut k: usize = 0;
        while k < n
            invariant
                n == e.len(),
                e == self.entries(),
                ids_unique(e),
                k <= n,
                out@.len() == k,
                newest_first(views(out@)),
                forall|i: int| 0 <= i < k ==> exists|j: int| 0 <= j < k && #[trigger] out@[i]@ == e[j],
                forall|i: int, i2: int|
                    0 <= i < k && 0 <= i2 < k && i != i2 ==> #[trigger] out@[i]@.id != #[trigger] out@[i2]@.id,
            decreases n - k,
        {
            let rec = self.tasks[k].duplicate();
            let ghost x = rec@;
            assert(x == e[k as int]);
            let mut p: usize = 0;
            while p < out.len() && !text_less(out[p].updated_at.as_str(), rec.updated_at.as_str())
                invariant
                    p <= out@.len(),
                    rec@ == x,
                    forall|q: int| 0 <= q < p ==> !text_lt(#[trigger] out@[q]@.updated_at, x.updated_at),
                decreases out@.len() - p,
            {
                p = p + 1;
            }
            let ghost old_out = out@;
            let ghost xr = rec;
            out.insert(p, rec);
            assert(out@ == old_out.insert(p as int, xr));
            assert forall|i: int| 0 <= i < out@.len() implies #[trigger] out@[i] == (if i < p {
                old_out[i]
            } else if i == p {
                xr
            } else {
                old_out[i - 1]
            }) by {}
            assert forall|i: int| 0 <= i <= k implies exists|j: int|
                0 <= j <= k && #[trigger] out@[i]@ == e[j] by {
                if i < p {
                    let j = choose|j: int| 0 <= j < k && #[trigger] old_out[i]@ == e[j];
                    assert(out@[i]@ == e[j]);
                } else if i == p {
                    assert(out@[i]@ == e[k as int]);
                } else {
                    let j = choose|j: int| 0 <= j < k && #[trigger] old_out[i - 1]@ == e[j];
                    assert(out@[i]@ == e[j]);
                }
            }
            assert forall|i: int| 0 <= i < k implies #[trigger] old_out[i]@.id != x.id by {
                let j = choose|j: int| 0 <= j < k && #[trigger] old_out[i]@ == e[j];
                assert(e[j].id != e[k as int].id);
            }
            assert forall|i: int, i2: int|
                0 <= i <= k && 0 <= i2 <= k && i != i2 implies #[trigger] out@[i]@.id
                != #[trigger] out@[i2]@.id by {
                let a = if i < p { i } else if i == p { -1 } else { i - 1 };
                let b = if i2 < p { i2 } else if i2 == p { -1 } else { i2 - 1 };
                if a >= 0 && b >= 0 {
                    assert(old_out[a]@.id != old_out[b]@.id);
                } else if a >= 0 {
                    assert(old_out[a]@.id != x.id);
                } else if b >= 0 {
                    assert(old_out[b]@.id != x.id);
                }
            }
            assert forall|i: int, j: int|
                0 <= i < j < out@.len() implies !text_lt(#[trigger] out@[i]@.updated_at, #[trigger] out@[j]@.updated_at) by {
                assert(views(out@)[i] == out@[i]@);
                assert(views(out@)[j] == out@[j]@);
                if j < p {
                    assert(views(old_out)[i] == old_out[i]@);
                    assert(views(old_out)[j] == old_out[j]@);
                } else if j == p {
                } else if i == p {
                    // old_out[p] sorts before x, and old_out[j - 1] does not sort after old_out[p]
                    let y = old_out[j - 1]@.updated_at;
                    let z = old_out[p as int]@.updated_at;
                    assert(text_lt(z, x.updated_at));
                    if j - 1 > p {
                        assert(views(old_out)[p as int] == old_out[p as int]@);
                        assert(views(old_out)[j - 1] == old_out[j - 1]@);
                        assert(!text_lt(z, y));
                    }
                    if text_lt(x.updated_at, y) {
                        lemma_text_lt_total(y, z);
                        if y != z {
                            lemma_text_lt_transitive(x.updated_at, y, z);
                            lemma_text_lt_transitive(x.updated_at, z, x.updated_at);
                        } else {
                            lemma_text_lt_transitive(x.updated_at, z, x.updated_at);
                        }
                        lemma_text_lt_irreflexive(x.updated_at);
                    }
                } else if i < p {
                    assert(views(old_out)[i] == old_out[i]@);
                    assert(views(old_out)[j - 1] == old_out[j - 1]@);
                } else {
                    assert(views(old_out)[i - 1] == old_out[i - 1]@);
                    assert(views(old_out)[j - 1] == old_out[j - 1]@);
                }
            }
            k = k + 1;
        }
        proof {
            lemma_index_map(e);
            assert forall|i: int|
                0 <= i < n implies self@.contains_key(#[trigger] views(out@)[i].id) && self@[views(out@)[i].id]
                == views(out@)[i] by {
                let j = choose|j: int| 0 <= j < k && #[trigger] out@[i]@ == e[j];
                assert(views(out@)[i] == e[j]);
                assert(has_id(e, e[j].id));
            }
            assert forall|i: int, j: int|
                0 <= i < n && 0 <= j < n && i != j implies #[trigger] views(out@)[i].id
                != #[trigger] views(out@)[j].id by {
                assert(views(out@)[i] == out@[i]@);
                assert(views(out@)[j] == out@[j]@);
            }
        }
        out
    }
}

/// The tasks that have not come to an end.
pub open spec fn unfinished(tasks: Map<Seq<char>, TaskView>) -> Map<Seq<char>, TaskView> {
    tasks.restrict(tasks.dom().filter(|k: Seq<char>| !tasks[k].status.is_terminal()))
}

/// The ids of the tasks that have come to an end.
pub open spec fn finished_ids(tasks: Map<Seq<char>, TaskView>) -> Set<Seq<char>> {
    tasks.dom().filter(|k: Seq<char>| tasks[k].status.is_terminal())
}

/// The unfinished and the finished tasks together are all the tasks.
pub proof fn lemma_unfinished_len(tasks: Map<Seq<char>, TaskView>)
    requires
        tasks.dom().finite(),
    ensures
        unfinished(tasks).len() + finished_ids(tasks).len() == tasks.len(),
{
    let u = tasks.dom().filter(|k: Seq<char>| !tasks[k].status.is_terminal());
    let f = finished_ids(tasks);
    assert(unfinished(tasks).dom() =~= u);
    assert(u + f =~= tasks.dom());
    vstd::set_lib::lemma_set_subset_finite(tasks.dom(), u);
    vstd::set_lib::lemma_set_subset_finite(tasks.dom(), f);
    vstd::set_lib::lemma_set_disjoint_lens(u, f);
}

/// `f` holds, in order, exactly the unfinished entries among `e[..k]`;
/// `src` tells where each one comes from.
spec fn keeps_unfinished(e: Seq<TaskView>, f: Seq<TaskView>, src: Seq<int>, k: int) -> bool {
    &&& f.len() == src.len()
    &&& forall|i: int|
        0 <= i < f.len() ==> 0 <= #[trigger] src[i] < k && f[i] == e[src[i]]
            && !e[src[i]].status.is_terminal()
    &&& forall|i: int, i2: int| 0 <= i < i2 < src.len() ==> #[trigger] src[i] < #[trigger] src[i2]
    &&& forall|j: int|
        0 <= j < k && !#[trigger] e[j].status.is_terminal() ==> exists|i: int|
            0 <= i < src.len() && #[trigger] src[i] == j
}

proof fn lemma_keep_step(e: Seq<TaskView>, f: Seq<TaskView>, src: Seq<int>, k: int)
    requires
        0 <= k < e.len(),
        keeps_unfinished(e, f, src, k),
    ensures
        e[k].status.is_terminal() ==> keeps_unfinished(e, f, src, k + 1),
        !e[k].status.is_terminal() ==> keeps_unfinished(e, f.push(e[k]), src.push(k), k + 1),
{
    if !e[k].status.is_terminal() {
        let g = f.push(e[k]);
        let s2 = src.push(k);
        assert forall|i: int| 0 <= i < g.len() implies 0 <= #[trigger] s2[i] < k + 1 && g[i] == e[s2[i]]
            && !e[s2[i]].status.is_terminal() by {
            if i < f.len() {
                assert(s2[i] == src[i]);
            }
        }
        assert forall|i: int, i2: int| 0 <= i < i2 < s2.len() implies #[trigger] s2[i] < #[trigger] s2[i2] by {
            assert(s2[i] == src[i]);
            if i2 < src.len() {
                assert(s2[i2] == src[i2]);
            }
        }
        assert forall|j: int|
            0 <= j < k + 1 && !#[trigger] e[j].status.is_terminal() implies exists|i: int|
                0 <= i < s2.len() && #[trigger] s2[i] == j by {
            if j == k {
                assert(s2[src.len() as int] == j);
            } else {
                let i = choose|i: int| 0 <= i < src.len() && #[trigger] src[i] == j;
                assert(s2[i] == j);
            }
        }
    } else {
        assert forall|j: int|
            0 <= j < k + 1 && !#[trigger] e[j].status.is_terminal() implies exists|i: int|
                0 <= i < src.len() && #[trigger] src[i] == j by {
            assert(j < k);
        }
    }
}

#[verifier::rlimit(40)]
proof fn lemma_kept_map(e: Seq<TaskView>, f: Seq<TaskView>, src: Seq<int>)
    requires
        ids_unique(e),
        keeps_unfinished(e, f, src, e.len() as int),
    ensures
        ids_unique(f),
        index_map(f) == unfinished(index_map(e)),
        index_map(f).len() == f.len(),
        index_map(e).len() == e.len(),
{
    assert forall|a: int, b: int|
        0 <= a < f.len() && 0 <= b < f.len() && a != b implies #[trigger] f[a].id != #[trigger] f[b].id by {
        if a < b {
            assert(src[a] < src[b]);
        } else {
            assert(src[b] < src[a]);
        }
    }
    lemma_index_map(e);
    lemma_index_map(f);
    let target = unfinished(index_map(e));
    assert forall|key: Seq<char>| #[trigger] index_map(f).contains_key(key) <==> target.contains_key(key) by {
        if has_id(f, key) {
            let i = choose|i: int| 0 <= i < f.len() && #[trigger] f[i].id == key;
            let j = src[i];
            assert(f[i] == e[j]);
            assert(has_id(e, key));
            assert(index_map(e)[key] == e[j]);
        }
        if target.contains_key(key) {
            assert(has_id(e, key));
            let j = choose|j: int| 0 <= j < e.len() && #[trigger] e[j].id == key;
            assert(index_map(e)[key] == e[j]);
            let i = choose|i: int| 0 <= i < src.len() && #[trigger] src[i] == j;
            assert(f[i].id == key);
            assert(has_id(f, key));
        }
    }
    assert forall|key: Seq<char>| #[trigger] index_map(f).contains_key(key) implies index_map(f)[key]
        == target[key] by {
        let i = choose|i: int| 0 <= i < f.len() && #[trigger] f[i].id == key;
        let j = src[i];
        assert(f[i] == e[j]);
        assert(index_map(e)[e[j].id] == e[j]);
    }
    assert(index_map(f) =~= target);
}

impl TaskStore {
    /// Drops every completed, failed or cancelled task and tells how many
    /// were dropped.
    pub fn clear_finished(&mut self) -> (removed: usize)
        ensures
            final(self)@ == unfinished(old(self)@),
            removed == finished_ids(old(self)@).len(),
    {
        proof {
            use_type_invariant(&*self);
        }
        let ghost e = self.entries();
        let n = self.tasks.len();
        let mut kept: Vec<TaskRecord> = Vec::new();
        let ghost mut src: Seq<int> = Seq::empty();
        let mut k: usize = 0;
        assert(views(kept@) =~= Seq::<TaskView>::empty());
        while k < n
            invariant
                n == e.len(),
                e == self.entries(),
                k <= n,
                kept@.len() <= k,
                keeps_unfinished(e, views(kept@), src, k as int),
            decreases n - k,
        {
            let ghost before = views(kept@);
            proof {
                lemma_keep_step(e, before, src, k as int);
            }
            assert(self.tasks@[k as int]@ == e[k as int]);
            if !self.tasks[k].status.is_finished() {
                let rec = self.tasks[k].duplicate();
                kept.push(rec);
                assert(views(kept@) =~= before.push(e[k as int]));
                proof {
                    src = src.push(k as int);
                }
            }
            k = k + 1;
        }
        let removed = n - kept.len();
        proof {
            lemma_kept_map(e, views(kept@), src);
        }
        self.tasks = kept;
        proof {
            assert(self.entries() == views(kept@));
            lemma_index_map(e);
            lemma_unfinished_len(index_map(e));
        }
        removed
    }
}

impl View for TaskStore {
    type V = Map<Seq<char>, TaskView>;

    closed spec fn view(&self) -> Map<Seq<char>, TaskView> {
        index_map(self.entries())
    }
}

} // verus!
