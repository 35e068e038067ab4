//! The status store: the latest probe result of each (task type, target).
use crate::settings::pong_settings::TaskType;
use vstd::prelude::*;

verus! {

/// Elapsed value that records a failed probe.
pub const FAILURE_ELAPSED: i64 = -1;

/// The result of one probe: a latency in milliseconds when non-negative,
/// `FAILURE_ELAPSED` when the probe failed.
#[derive(Debug, Clone)]
pub struct TargetStatus {
    pub task_type: TaskType,
    pub target: String,
    pub elapsed: i64,
}

/// A status as plain values: task type, target and elapsed time.
pub type StatusView = (TaskType, Seq<char>, i64);

/// Key of a status: its task type and its target.
pub type StatusKey = (TaskType, Seq<char>);

impl TargetStatus {
    pub open spec fn view(&self) -> StatusView {
        (self.task_type, self.target@, self.elapsed)
    }

    pub open spec fn key(&self) -> StatusKey {
        (self.task_type, self.target@)
    }
}

/// Text form of the key of a status: the task type's name, a space, the target.
pub open spec fn key_text(task_type: TaskType, target: Seq<char>) -> Seq<char> {
    task_type.name_spec() + " "@ + target
}

/// Entries of the store as a map from key to elapsed time.
pub open spec fn entries_map(entries: Seq<StatusView>) -> Map<StatusKey, i64>
    decreases entries.len(),
{
    if entries.len() == 0 {
        Map::empty()
    } else {
        let last = entries.last();
        entries_map(entries.drop_last()).insert((last.0, last.1), last.2)
    }
}

/// The store after one update: the entry is written unless it already holds
/// the same elapsed value.
pub open spec fn apply_update(m: Map<StatusKey, i64>, key: StatusKey, elapsed: i64) -> Map<
    StatusKey,
    i64,
> {
    m.insert(key, elapsed)
}

/// An update replaces the stored entry when the key is new or its elapsed value differs.
pub open spec fn update_replaces(m: Map<StatusKey, i64>, key: StatusKey, elapsed: i64) -> bool {
    !m.contains_key(key) || m[key] != elapsed
}

/// No key occurs twice among `entries`.
pub open spec fn keys_unique(entries: Seq<StatusView>) -> bool {
    forall|i: int, j: int|
        0 <= i < j < entries.len() ==> ((#[trigger] entries[i]).0, entries[i].1) != (
        (#[trigger] entries[j]).0,
        entries[j].1,
    )
}

/// With unique keys, the map holds exactly the keys of the entries, each with its elapsed time.
proof fn lemma_entries_map_lookup(e: Seq<StatusView>)
    requires
        keys_unique(e),
    ensures
        forall|i: int|
            0 <= i < e.len() ==> entries_map(e).contains_key((#[trigger] e[i].0, e[i].1))
                && entries_map(e)[(e[i].0, e[i].1)] == e[i].2,
        forall|k: StatusKey|
            #[trigger] entries_map(e).contains_key(k) ==> exists|i: int|
                0 <= i < e.len() && (e[i].0, e[i].1) == k,
    decreases e.len(),
{
    if e.len() > 0 {
        let d = e.drop_last();
        assert(keys_unique(d)) by {
            assert forall|i: int, j: int| 0 <= i < j < d.len() implies ((#[trigger] d[i]).0, d[i].1) != (
                (#[trigger] d[j]).0,
                d[j].1,
            ) by {
                assert(d[i] == e[i] && d[j] == e[j]);
            }
        }
        lemma_entries_map_lookup(d);
        assert forall|k: StatusKey| #[trigger] entries_map(e).contains_key(k) implies exists|i: int|
            0 <= i < e.len() && (e[i].0, e[i].1) == k by {
            if k != (e.last().0, e.last().1) {
                assert(entries_map(e) == entries_map(d).insert((e.last().0, e.last().1), e.last().2));
                assert(entries_map(d).contains_key(k));
                let i = choose|i: int| 0 <= i < d.len() && (d[i].0, d[i].1) == k;
                assert(e[i] == d[i]);
            }
        }
        assert forall|i: int| 0 <= i < e.len() implies entries_map(e).contains_key(
            (#[trigger] e[i].0, e[i].1),
        ) && entries_map(e)[(e[i].0, e[i].1)] == e[i].2 by {
            if i < e.len() - 1 {
                assert(e[i] == d[i]);
                assert(((e[i]).0, e[i].1) != ((e[e.len() - 1]).0, e[e.len() - 1].1));
            }
        }
    }
}

/// Overwriting an entry in place changes only its key's value in the map.
proof fn lemma_entries_map_update(e: Seq<StatusView>, i: int, v: StatusView)
    requires
        keys_unique(e),
        0 <= i < e.len(),
        (v.0, v.1) == (e[i].0, e[i].1),
    ensures
        entries_map(e.update(i, v)) == entries_map(e).insert((v.0, v.1), v.2),
        keys_unique(e.update(i, v)),
    decreases e.len(),
{
    let u = e.update(i, v);
    let d = e.drop_last();
    assert(keys_unique(u)) by {
        assert forall|a: int, b: int| 0 <= a < b < u.len() implies ((#[trigger] u[a]).0, u[a].1) != (
            (#[trigger] u[b]).0,
            u[b].1,
        ) by {
            assert(((e[a]).0, e[a].1) != ((e[b]).0, e[b].1));
        }
    }
    if i == e.len() - 1 {
        assert(u.drop_last() =~= d);
        assert(entries_map(u) =~= entries_map(e).insert((v.0, v.1), v.2));
    } else {
        assert(keys_unique(d)) by {
            assert forall|a: int, b: int| 0 <= a < b < d.len() implies ((#[trigger] d[a]).0, d[a].1) != (
                (#[trigger] d[b]).0,
                d[b].1,
            ) by {
                assert(d[a] == e[a] && d[b] == e[b]);
            }
        }
        lemma_entries_map_update(d, i, v);
        assert(u.drop_last() =~= d.update(i, v));
        assert(((e[i]).0, e[i].1) != ((e[e.len() - 1]).0, e[e.len() - 1].1));
        assert(u.last() == e.last());
        assert(entries_map(u) =~= entries_map(e).insert((v.0, v.1), v.2));
    }
}

/// Repeating an update with the elapsed value just stored is not a replacement
/// and leaves the store as it was; an update with another value replaces the
/// entry and is what is stored afterwards.
pub proof fn lemma_update_dedup(m: Map<StatusKey, i64>, key: StatusKey, first: i64, second: i64)
    ensures
        !update_replaces(apply_update(m, key, first), key, first),
        apply_update(apply_update(m, key, first), key, first) == apply_update(m, key, first),
        first != second ==> update_replaces(apply_update(m, key, first), key, second),
        apply_update(apply_update(m, key, first), key, second)[key] == second,
{
    let once = apply_update(m, key, first);
    assert(once.insert(key, first) =~= once);
}

/// The latest status of each target, in the order in which targets were first seen.
pub struct Targets {
    statuses: Vec<TargetStatus>,
}

impl Targets {
    /// Stored statuses, in the order in which their keys were first seen.
    pub closed spec fn entries(&self) -> Seq<StatusView> {
        self.statuses@.map_values(|s: TargetStatus| s@)
    }

    /// Stored elapsed time of each key.
    pub open spec fn view(&self) -> Map<StatusKey, i64> {
        entries_map(self.entries())
    }

    /// No key is stored twice.
    pub open spec fn wf(&self) -> bool {
        keys_unique(self.entries())
    }

    /// An empty store.
    pub fn new() -> (r: Targets)
        ensures
            r.wf(),
            r.entries() == Seq::<StatusView>::empty(),
            r@ == Map::<StatusKey, i64>::empty(),
    {
        let r = Targets { statuses: Vec::new() };
        assert(r.entries() =~= Seq::<StatusView>::empty());
        r
    }

    /// Text key of a status: the task type's name, a space and the target.
    pub fn calc_key(task_type: &TaskType, target: &str) -> (r: String)
        ensures
            r@ == key_text(*task_type, target@),
    {
        let name = String::from_str(task_type.name());
        name.concat(" ").concat(target)
    }

    /// Records `status` for its key. The stored entry is replaced when the key
    /// is new (it is appended) or its elapsed value differs; an update with the
    /// value already stored changes nothing.
    pub fn update(&mut self, status: TargetStatus) -> (replaced: bool)
        requires
            old(self).wf(),
        ensures
            final(self).wf(),
            replaced == update_replaces(old(self)@, status.key(), status.elapsed),
            final(self)@ == apply_update(old(self)@, status.key(), status.elapsed),
            !replaced ==> final(self).entries() == old(self).entries(),
            final(self).entries().len() == old(self).entries().len() + (if old(
                self,
            )@.contains_key(status.key()) {
                0int
            } else {
                1int
            }),
            !old(self)@.contains_key(status.key()) ==> final(self).entries() == old(
                self,
            ).entries().push(status@),
            forall|i: int|
                0 <= i < old(self).entries().len() && (old(self).entries()[i].0, old(
                    self,
                ).entries()[i].1) == status.key() && replaced ==> final(self).entries() == old(
                    self,
                ).entries().update(i, status@),
    {
        let ghost e = self.entries();
        proof {
            lemma_entries_map_lookup(e);
        }
        let n = self.statuses.len();
        let mut i: usize = 0;
        while i < n
            invariant
                n == self.statuses@.len(),
                e == self.entries(),
                e == old(self).entries(),
                e.len() == n,
                keys_unique(e),
                i <= n,
                forall|j: int| 0 <= j < i ==> (#[trigger] e[j].0, e[j].1) != status.key(),
            decreases n - i,
        {
            assert(e[i as int] == self.statuses@[i as int]@);
            if self.statuses[i].task_type == status.task_type && self.statuses[i].target
                == status.target {
                assert(e[i as int].0 == status.task_type && e[i as int].1 == status.target@);
                if self.statuses[i].elapsed != status.elapsed {
                    let ghost v = status@;
                    self.statuses.set(i, status);
                    proof {
                        lemma_entries_map_lookup(e);
                        assert(self.entries() =~= e.update(i as int, v));
                        lemma_entries_map_update(e, i as int, v);
                        assert(entries_map(e).contains_key(status.key()));
                        assert(entries_map(e)[status.key()] == e[i as int].2);
                        assert(e[i as int].2 != v.2);
                        assert(self@ == entries_map(e).insert((v.0, v.1), v.2));
                        assert forall|k: int|
                            0 <= k < e.len() && (e[k].0, e[k].1) == (v.0, v.1) implies k == i by {
                            if k < i {
                                assert(((e[k]).0, e[k].1) != ((e[i as int]).0, e[i as int].1));
                            } else if k > i {
                                assert(((e[i as int]).0, e[i as int].1) != ((e[k]).0, e[k].1));
                            }
                        }
                    }
                    return true;
                } else {
                    proof {
                        lemma_entries_map_lookup(e);
                        assert(e[i as int].2 == status.elapsed);
                        assert(entries_map(e).insert(status.key(), status.elapsed) =~= entries_map(e));
                    }
                    return false;
                }
            }
            i = i + 1;
        }
        proof {
            lemma_entries_map_lookup(e);
            assert forall|k: StatusKey| entries_map(e).contains_key(k) implies k != status.key() by {
                if k == status.key() {
                    let j = choose|j: int| 0 <= j < e.len() && (e[j].0, e[j].1) == k;
                    assert((e[j].0, e[j].1) != status.key());
                }
            }
        }
        let ghost v = status@;
        self.statuses.push(status);
        proof {
            let f = self.entries();
            assert(f =~= e.push(v));
            assert(f.drop_last() =~= e);
            assert(keys_unique(f)) by {
                assert forall|a: int, b: int| 0 <= a < b < f.len() implies ((#[trigger] f[a]).0, f[a].1) != (
                    (#[trigger] f[b]).0,
                    f[b].1,
                ) by {
                    if b == e.len() {
                        assert(f[a] == e[a]);
                        assert(entries_map(e).contains_key((e[a].0, e[a].1)));
                    } else {
                        assert(f[a] == e[a] && f[b] == e[b]);
                    }
                }
            }
        }
        true
    }

    /// A point-in-time copy of the store: each entry with its text key, in the
    /// order in which keys were first seen.
    pub fn get_all(&self) -> (r: Vec<(String, TargetStatus)>)
        ensures
            r@.len() == self.entries().len(),
            forall|i: int|
                0 <= i < r@.len() ==> (#[trigger] r@[i]).0@ == key_text(
                    self.entries()[i].0,
                    self.entries()[i].1,
                ) && r@[i].1@ == self.entries()[i],
    {
        let mut r: Vec<(String, TargetStatus)> = Vec::new();
        let mut i: usize = 0;
        while i < self.statuses.len()
            invariant
                i <= self.statuses@.len(),
                r@.len() == i,
                forall|j: int|
                    0 <= j < i ==> (#[trigger] r@[j]).0@ == key_text(
                        self.entries()[j].0,
                        self.entries()[j].1,
                    ) && r@[j].1@ == self.entries()[j],
            decreases self.statuses@.len() - i,
        {
            let s = &self.statuses[i];
            let key = Targets::calc_key(&s.task_type, s.target.as_str());
            let copy = TargetStatus {
                task_type: s.task_type,
                target: s.target.clone(),
                elapsed: s.elapsed,
            };
            r.push((key, copy));
            i = i + 1;
        }
        r
    }
}

} // verus!
