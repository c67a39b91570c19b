//! The in-memory data the renderer paints from: one shape per view.
//!
//! The single-pipeline view keeps at most one project and replaces it
//! wholesale on every update. The history view keeps one entry per
//! (project, branch) key, ordered lexicographically for stable rendering;
//! an update replaces the entry with its key outright — the newest received
//! update is authoritative, never merged element-wise with an older one.

use vstd::prelude::*;
use vstd::pervasive::VecAdditionalExecFns;
use crate::model::{BranchPipelineUpdate, Project};
use crate::status::PipelineStatus;
use crate::text::{
    lemma_lex_asym, lemma_lex_irrefl, lemma_lex_total, lemma_lex_trans, lex_lt, str_eq, str_lt,
};

verus! {

/// Projection of the single-pipeline view: the last received project, if
/// any. Replaced wholesale on each update.
pub struct SingleProjection {
    pub project: Option<Project>,
}

impl SingleProjection {
    /// An empty projection: nothing received yet, nothing painted.
    pub fn new() -> (r: Self)
        ensures
            r.project is None,
    {
        SingleProjection { project: None }
    }

    /// Replace the held project with the received one.
    pub fn apply(&mut self, update: Project)
        ensures
            final(self).project == Some(update),
    {
        self.project = Some(update);
    }

    /// Drain a batch of received updates in arrival order. The projection
    /// afterwards holds exactly the last published value; with nothing to
    /// drain it is unchanged.
    pub fn drain(&mut self, updates: Vec<Project>)
        ensures
            final(self).project == if updates@.len() == 0 {
                old(self).project
            } else {
                Some(updates@.last())
            },
    {
        let ghost all = updates@;
        let mut rest = updates;
        let ghost mut taken: int = 0;
        while rest.len() > 0
            invariant
                0 <= taken <= all.len(),
                taken + rest@.len() == all.len(),
                rest@ =~= all.skip(taken),
                self.project == if taken == 0 {
                    old(self).project
                } else {
                    Some(all[taken - 1])
                },
            decreases rest@.len(),
        {
            proof {
                assert(all.skip(taken)[0] == all[taken]);
                assert(rest@[0] == all[taken]);
            }
            let ghost prev = rest@;
            let u = rest.remove(0);
            self.apply(u);
            proof {
                assert forall|k: int| 0 <= k < rest@.len() implies rest@[k] == all.skip(
                    taken + 1,
                )[k] by {
                    assert(rest@[k] == prev[k + 1]);
                    assert(prev[k + 1] == all.skip(taken)[k + 1]);
                    assert(all.skip(taken)[k + 1] == all[taken + k + 1]);
                    assert(all.skip(taken + 1)[k] == all[taken + 1 + k]);
                }
                assert(rest@ =~= all.skip(taken + 1));
                taken = taken + 1;
            }
        }
    }
}

/// The view of a nullable branch name.
pub open spec fn branch_view(b: Option<String>) -> Option<Seq<char>> {
    match b {
        Some(s) => Some(s@),
        None => None,
    }
}

/// Order on nullable branch names: "no branch" sorts before every named
/// branch; named branches sort lexicographically.
pub open spec fn opt_lex_lt(a: Option<Seq<char>>, b: Option<Seq<char>>) -> bool {
    match a {
        None => b is Some,
        Some(x) => match b {
            None => false,
            Some(y) => lex_lt(x, y),
        },
    }
}

/// Strict order on (project, branch) keys: by project path, then by branch.
pub open spec fn key_lt(
    pa: Seq<char>,
    ba: Option<Seq<char>>,
    pb: Seq<char>,
    bb: Option<Seq<char>>,
) -> bool {
    lex_lt(pa, pb) || (pa == pb && opt_lex_lt(ba, bb))
}

/// Two distinct keys are ordered one way or the other.
pub proof fn lemma_key_total(pa: Seq<char>, ba: Option<Seq<char>>, pb: Seq<char>, bb: Option<Seq<char>>)
    ensures
        (pa == pb && ba == bb) || key_lt(pa, ba, pb, bb) || key_lt(pb, bb, pa, ba),
{
    lemma_lex_total(pa, pb);
    if pa == pb {
        match ba {
            None => {},
            Some(x) => match bb {
                None => {},
                Some(y) => {
                    lemma_lex_total(x, y);
                },
            },
        }
    }
}

/// The key order is asymmetric, and ordered keys are distinct.
pub proof fn lemma_key_asym(pa: Seq<char>, ba: Option<Seq<char>>, pb: Seq<char>, bb: Option<Seq<char>>)
    requires
        key_lt(pa, ba, pb, bb),
    ensures
        !key_lt(pb, bb, pa, ba),
        !(pa == pb && ba == bb),
{
    if lex_lt(pa, pb) {
        lemma_lex_asym(pa, pb);
    } else {
        lemma_lex_irrefl(pa);
        match ba {
            None => {},
            Some(x) => match bb {
                None => {},
                Some(y) => {
                    lemma_lex_asym(x, y);
                },
            },
        }
    }
}

/// The key order is transitive.
pub proof fn lemma_key_trans(
    pa: Seq<char>,
    ba: Option<Seq<char>>,
    pb: Seq<char>,
    bb: Option<Seq<char>>,
    pc: Seq<char>,
    bc: Option<Seq<char>>,
)
    requires
        key_lt(pa, ba, pb, bb),
        key_lt(pb, bb, pc, bc),
    ensures
        key_lt(pa, ba, pc, bc),
{
    if lex_lt(pa, pb) && lex_lt(pb, pc) {
        lemma_lex_trans(pa, pb, pc);
    }
    if pa == pb && pb == pc {
        lemma_lex_irrefl(pa);
        match ba {
            None => {},
            Some(x) => match bb {
                None => {},
                Some(y) => match bc {
                    None => {},
                    Some(z) => {
                        lemma_lex_trans(x, y, z);
                    },
                },
            },
        }
    }
}

/// One row of the history-view projection: the most recent pipeline
/// statuses of one (project, branch) key.
#[derive(Debug, PartialEq, Eq)]
pub struct ProjectionEntry {
    pub project: String,
    pub branch: Option<String>,
    pub states: Vec<PipelineStatus>,
}

/// Whether entry `e` carries the key `(p, b)`.
pub open spec fn entry_key_is(e: ProjectionEntry, p: Seq<char>, b: Option<Seq<char>>) -> bool {
    e.project@ == p && branch_view(e.branch) == b
}

/// Strict key order between two entries.
pub open spec fn entry_key_lt(a: ProjectionEntry, b: ProjectionEntry) -> bool {
    key_lt(a.project@, branch_view(a.branch), b.project@, branch_view(b.branch))
}

/// Entries strictly sorted by key: lexicographic order, and hence unique
/// keys.
pub open spec fn entries_sorted(s: Seq<ProjectionEntry>) -> bool {
    forall|i: int, j: int| 0 <= i < j < s.len() ==> entry_key_lt(#[trigger] s[i], #[trigger] s[j])
}

/// The states held for key `(p, b)`: those of the first entry with that
/// key, or `None` if there is none.
pub open spec fn lookup(
    s: Seq<ProjectionEntry>,
    p: Seq<char>,
    b: Option<Seq<char>>,
) -> Option<Seq<PipelineStatus>>
    decreases s.len(),
{
    if s.len() == 0 {
        None
    } else if entry_key_is(s[0], p, b) {
        Some(s[0].states@)
    } else {
        lookup(s.drop_first(), p, b)
    }
}

/// If `s[i]` carries `(p, b)` and no earlier entry does, the lookup finds
/// exactly `s[i]`.
proof fn lemma_lookup_at(s: Seq<ProjectionEntry>, i: int, p: Seq<char>, b: Option<Seq<char>>)
    requires
        0 <= i < s.len(),
        entry_key_is(s[i], p, b),
        forall|j: int| 0 <= j < i ==> !entry_key_is(#[trigger] s[j], p, b),
    ensures
        lookup(s, p, b) == Some(s[i].states@),
    decreases s.len(),
{
    if i > 0 {
        assert forall|j: int| 0 <= j < i - 1 implies !entry_key_is(#[trigger] s.drop_first()[j], p, b) by {
            assert(s.drop_first()[j] == s[j + 1]);
        }
        assert(s.drop_first()[i - 1] == s[i]);
        lemma_lookup_at(s.drop_first(), i - 1, p, b);
    }
}

/// If no entry carries `(p, b)`, the lookup finds nothing.
proof fn lemma_lookup_absent(s: Seq<ProjectionEntry>, p: Seq<char>, b: Option<Seq<char>>)
    requires
        forall|j: int| 0 <= j < s.len() ==> !entry_key_is(#[trigger] s[j], p, b),
    ensures
        lookup(s, p, b) is None,
    decreases s.len(),
{
    if s.len() != 0 {
        assert forall|j: int| 0 <= j < s.drop_first().len() implies !entry_key_is(
            #[trigger] s.drop_first()[j],
            p,
            b,
        ) by {
            assert(s.drop_first()[j] == s[j + 1]);
        }
        lemma_lookup_absent(s.drop_first(), p, b);
    }
}

/// In a sorted sequence, the entry at `i` is exactly what the lookup of its
/// key finds.
proof fn lemma_lookup_of_sorted(s: Seq<ProjectionEntry>, i: int)
    requires
        entries_sorted(s),
        0 <= i < s.len(),
    ensures
        lookup(s, s[i].project@, branch_view(s[i].branch)) == Some(s[i].states@),
{
    assert forall|j: int| 0 <= j < i implies !entry_key_is(
        #[trigger] s[j],
        s[i].project@,
        branch_view(s[i].branch),
    ) by {
        lemma_key_asym(
            s[j].project@,
            branch_view(s[j].branch),
            s[i].project@,
            branch_view(s[i].branch),
        );
    }
    lemma_lookup_at(s, i, s[i].project@, branch_view(s[i].branch));
}

/// Replacing the entry at `i` by one with the same key keeps the entries
/// sorted; the lookup of that key now finds the new states and every other
/// lookup is unchanged.
proof fn lemma_replace(
    s_old: Seq<ProjectionEntry>,
    s_new: Seq<ProjectionEntry>,
    i: int,
    p: Seq<char>,
    b: Option<Seq<char>>,
    st: Seq<PipelineStatus>,
)
    requires
        entries_sorted(s_old),
        s_new.len() == s_old.len(),
        0 <= i < s_old.len(),
        entry_key_is(s_old[i], p, b),
        entry_key_is(s_new[i], p, b),
        s_new[i].states@ == st,
        forall|j: int| 0 <= j < s_old.len() && j != i ==> s_new[j] == #[trigger] s_old[j],
    ensures
        entries_sorted(s_new),
        forall|q: Seq<char>, c: Option<Seq<char>>| #[trigger] lookup(s_new, q, c) == if q == p
            && c == b {
            Some(st)
        } else {
            lookup(s_old, q, c)
        },
{
    assert forall|a: int, bb: int| 0 <= a < bb < s_new.len() implies entry_key_lt(
        #[trigger] s_new[a],
        #[trigger] s_new[bb],
    ) by {
        assert(entry_key_lt(s_old[a], s_old[bb]));
    }
    assert forall|q: Seq<char>, c: Option<Seq<char>>| #[trigger] lookup(s_new, q, c) == (if q == p
        && c == b {
        Some(st)
    } else {
        lookup(s_old, q, c)
    }) by {
        if q == p && c == b {
            lemma_lookup_of_sorted(s_new, i);
        } else {
            if exists|j: int| 0 <= j < s_old.len() && entry_key_is(#[trigger] s_old[j], q, c) {
                let j = choose|j: int|
                    0 <= j < s_old.len() && entry_key_is(#[trigger] s_old[j], q, c);
                assert(j != i);
                lemma_lookup_of_sorted(s_old, j);
                lemma_lookup_of_sorted(s_new, j);
            } else {
                assert forall|j: int| 0 <= j < s_new.len() implies !entry_key_is(
                    #[trigger] s_new[j],
                    q,
                    c,
                ) by {
                    if j != i {
                        assert(!entry_key_is(s_old[j], q, c));
                    }
                }
                lemma_lookup_absent(s_old, q, c);
                lemma_lookup_absent(s_new, q, c);
            }
        }
    }
}

/// Inserting an entry at its sorted position keeps the entries sorted; the
/// lookup of its key finds the new states and every other lookup is
/// unchanged.
proof fn lemma_insert(
    s_old: Seq<ProjectionEntry>,
    s_new: Seq<ProjectionEntry>,
    i: int,
    p: Seq<char>,
    b: Option<Seq<char>>,
    st: Seq<PipelineStatus>,
)
    requires
        entries_sorted(s_old),
        0 <= i <= s_old.len(),
        s_new.len() == s_old.len() + 1,
        entry_key_is(s_new[i], p, b),
        s_new[i].states@ == st,
        forall|j: int| 0 <= j < i ==> s_new[j] == #[trigger] s_old[j],
        forall|j: int| i <= j < s_old.len() ==> s_new[j + 1] == #[trigger] s_old[j],
        forall|j: int| 0 <= j < i ==> key_lt(
            (#[trigger] s_old[j]).project@,
            branch_view(s_old[j].branch),
            p,
            b,
        ),
        i < s_old.len() ==> key_lt(p, b, s_old[i].project@, branch_view(s_old[i].branch)),
    ensures
        entries_sorted(s_new),
        forall|q: Seq<char>, c: Option<Seq<char>>| #[trigger] lookup(s_new, q, c) == if q == p
            && c == b {
            Some(st)
        } else {
            lookup(s_old, q, c)
        },
{
    assert forall|a: int, bb: int| 0 <= a < bb < s_new.len() implies entry_key_lt(
        #[trigger] s_new[a],
        #[trigger] s_new[bb],
    ) by {
        if bb < i {
            assert(entry_key_lt(s_old[a], s_old[bb]));
        } else if a < i && bb == i {
            assert(key_lt(s_old[a].project@, branch_view(s_old[a].branch), p, b));
        } else if a < i && bb > i {
            assert(s_new[bb] == s_old[bb - 1]);
            assert(entry_key_lt(s_old[a], s_old[bb - 1]));
        } else if a == i && bb > i {
            assert(s_new[bb] == s_old[bb - 1]);
            if bb - 1 > i {
                assert(entry_key_lt(s_old[i], s_old[bb - 1]));
                lemma_key_trans(
                    p,
                    b,
                    s_old[i].project@,
                    branch_view(s_old[i].branch),
                    s_old[bb - 1].project@,
                    branch_view(s_old[bb - 1].branch),
                );
            }
        } else {
            assert(a > i);
            assert(s_new[a] == s_old[a - 1]);
            assert(s_new[bb] == s_old[bb - 1]);
            assert(entry_key_lt(s_old[a - 1], s_old[bb - 1]));
        }
    }
    assert forall|q: Seq<char>, c: Option<Seq<char>>| #[trigger] lookup(s_new, q, c) == (if q == p
        && c == b {
        Some(st)
    } else {
        lookup(s_old, q, c)
    }) by {
        if q == p && c == b {
            lemma_lookup_of_sorted(s_new, i);
        } else {
            if exists|j: int| 0 <= j < s_old.len() && entry_key_is(#[trigger] s_old[j], q, c) {
                let j = choose|j: int|
                    0 <= j < s_old.len() && entry_key_is(#[trigger] s_old[j], q, c);
                lemma_lookup_of_sorted(s_old, j);
                if j < i {
                    lemma_lookup_of_sorted(s_new, j);
                } else {
                    assert(s_new[j + 1] == s_old[j]);
                    lemma_lookup_of_sorted(s_new, j + 1);
                }
            } else {
                assert forall|j: int| 0 <= j < s_new.len() implies !entry_key_is(
                    #[trigger] s_new[j],
                    q,
                    c,
                ) by {
                    if j < i {
                        assert(!entry_key_is(s_old[j], q, c));
                    } else if j > i {
                        assert(s_new[j] == s_old[j - 1]);
                        assert(!entry_key_is(s_old[j - 1], q, c));
                    }
                }
                lemma_lookup_absent(s_old, q, c);
                lemma_lookup_absent(s_new, q, c);
            }
        }
    }
}

/// Decide whether two (project, branch) keys are equal.
fn keys_equal(p1: &String, b1: &Option<String>, p2: &String, b2: &Option<String>) -> (r: bool)
    ensures
        r == (p1@ == p2@ && branch_view(*b1) == branch_view(*b2)),
{
    if !str_eq(p1.as_str(), p2.as_str()) {
        return false;
    }
    match b1 {
        None => match b2 {
            None => true,
            Some(_) => false,
        },
        Some(x) => match b2 {
            None => false,
            Some(y) => str_eq(x.as_str(), y.as_str()),
        },
    }
}

/// Decide the strict key order between two (project, branch) keys.
fn key_less(p1: &String, b1: &Option<String>, p2: &String, b2: &Option<String>) -> (r: bool)
    ensures
        r == key_lt(p1@, branch_view(*b1), p2@, branch_view(*b2)),
{
    if str_lt(p1.as_str(), p2.as_str()) {
        return true;
    }
    if !str_eq(p1.as_str(), p2.as_str()) {
        return false;
    }
    proof {
        lemma_lex_irrefl(p1@);
    }
    match b1 {
        None => match b2 {
            None => false,
            Some(_) => true,
        },
        Some(x) => match b2 {
            None => false,
            Some(y) => str_lt(x.as_str(), y.as_str()),
        },
    }
}

/// The states the last update for key `(p, b)` carried, or `None` if the
/// batch holds no update for that key.
pub open spec fn last_for(
    updates: Seq<BranchPipelineUpdate>,
    p: Seq<char>,
    b: Option<Seq<char>>,
) -> Option<Seq<PipelineStatus>>
    decreases updates.len(),
{
    if updates.len() == 0 {
        None
    } else if updates.last().project@ == p && branch_view(updates.last().branch) == b {
        Some(updates.last().states@)
    } else {
        last_for(updates.drop_last(), p, b)
    }
}

/// Projection of the history view: one entry per (project, branch) key,
/// strictly sorted by key so that rendering is stable.
pub struct MultiProjection {
    pub entries: Vec<ProjectionEntry>,
}

impl MultiProjection {
    /// Well-formed: entries strictly sorted by key — lexicographic order,
    /// unique keys.
    pub open spec fn wf(self) -> bool {
        entries_sorted(self.entries@)
    }

    /// An empty projection.
    pub fn new() -> (r: Self)
        ensures
            r.wf(),
            r.entries@.len() == 0,
    {
        MultiProjection { entries: Vec::new() }
    }

    /// Merge one received update: the entry with its (project, branch) key
    /// is replaced outright — never merged element-wise — or a new entry is
    /// inserted at its sorted position. Every other key is untouched.
    pub fn upsert(&mut self, u: BranchPipelineUpdate)
        requires
            old(self).wf(),
        ensures
            final(self).wf(),
            forall|p: Seq<char>, b: Option<Seq<char>>|
                #[trigger] lookup(final(self).entries@, p, b) == if p == u.project@ && b
                    == branch_view(u.branch) {
                    Some(u.states@)
                } else {
                    lookup(old(self).entries@, p, b)
                },
    {
        let ghost pk = u.project@;
        let ghost bk = branch_view(u.branch);
        let ghost stg = u.states@;
        let ghost s_old = self.entries@;
        let n = self.entries.len();
        let mut i: usize = 0;
        while i < n
            invariant
                0 <= i <= n,
                n == s_old.len(),
                self.entries@ == s_old,
                s_old == old(self).entries@,
                entries_sorted(s_old),
                u.project@ == pk,
                branch_view(u.branch) == bk,
                u.states@ == stg,
                forall|j: int| 0 <= j < i ==> key_lt(
                    (#[trigger] s_old[j]).project@,
                    branch_view(s_old[j].branch),
                    pk,
                    bk,
                ),
            decreases n - i,
        {
            let eq = keys_equal(&self.entries[i].project, &self.entries[i].branch, &u.project, &u.branch);
            if eq {
                let e = ProjectionEntry { project: u.project, branch: u.branch, states: u.states };
                self.entries.set(i, e);
                proof {
                    assert(entry_key_is(self.entries@[i as int], pk, bk));
                    assert(self.entries@[i as int].states@ == stg);
                    lemma_replace(s_old, self.entries@, i as int, pk, bk, stg);
                }
                return;
            }
            let lt = key_less(&u.project, &u.branch, &self.entries[i].project, &self.entries[i].branch);
            if lt {
                let e = ProjectionEntry { project: u.project, branch: u.branch, states: u.states };
                self.entries.insert(i, e);
                proof {
                    s_old.insert_ensures(i as int, self.entries@[i as int]);
                    assert(entry_key_is(self.entries@[i as int], pk, bk));
                    assert(self.entries@[i as int].states@ == stg);
                    lemma_insert(s_old, self.entries@, i as int, pk, bk, stg);
                }
                return;
            }
            proof {
                lemma_key_total(
                    pk,
                    bk,
                    s_old[i as int].project@,
                    branch_view(s_old[i as int].branch),
                );
            }
            i = i + 1;
        }
        let e = ProjectionEntry { project: u.project, branch: u.branch, states: u.states };
        self.entries.push(e);
        proof {
            assert(entry_key_is(self.entries@[n as int], pk, bk));
            assert(self.entries@[n as int].states@ == stg);
            lemma_insert(s_old, self.entries@, n as int, pk, bk, stg);
        }
    }

    /// Drain a batch of received updates in arrival order. Afterwards each
    /// key holds the states of the last update for it in the batch —
    /// last write wins — and keys the batch never mentioned are unchanged.
    pub fn drain(&mut self, updates: Vec<BranchPipelineUpdate>)
        requires
            old(self).wf(),
        ensures
            final(self).wf(),
            forall|p: Seq<char>, b: Option<Seq<char>>|
                #[trigger] lookup(final(self).entries@, p, b) == match last_for(updates@, p, b) {
                    Some(st) => Some(st),
                    None => lookup(old(self).entries@, p, b),
                },
    {
        let ghost all = updates@;
        let mut rest = updates;
        let ghost mut taken: int = 0;
        proof {
            assert(all.take(0) =~= Seq::<BranchPipelineUpdate>::empty());
        }
        while rest.len() > 0
            invariant
                0 <= taken <= all.len(),
                taken + rest@.len() == all.len(),
                rest@ =~= all.skip(taken),
                self.wf(),
                forall|p: Seq<char>, b: Option<Seq<char>>|
                    #[trigger] lookup(self.entries@, p, b) == match last_for(
                        all.take(taken),
                        p,
                        b,
                    ) {
                        Some(st) => Some(st),
                        None => lookup(old(self).entries@, p, b),
                    },
            decreases rest@.len(),
        {
            proof {
                assert(all.skip(taken)[0] == all[taken]);
                assert(rest@[0] == all[taken]);
            }
            let ghost prev = rest@;
            let ghost mid = self.entries@;
            let u = rest.remove(0);
            let ghost pk = u.project@;
            let ghost bk = branch_view(u.branch);
            let ghost stg = u.states@;
            self.upsert(u);
            proof {
                assert forall|k: int| 0 <= k < rest@.len() implies rest@[k] == all.skip(
                    taken + 1,
                )[k] by {
                    assert(rest@[k] == prev[k + 1]);
                    assert(prev[k + 1] == all.skip(taken)[k + 1]);
                    assert(all.skip(taken)[k + 1] == all[taken + k + 1]);
                    assert(all.skip(taken + 1)[k] == all[taken + 1 + k]);
                }
                assert(rest@ =~= all.skip(taken + 1));
                assert(all.take(taken + 1).drop_last() =~= all.take(taken));
                assert(all.take(taken + 1).last() == all[taken]);
                assert forall|p: Seq<char>, b: Option<Seq<char>>|
                    #[trigger] lookup(self.entries@, p, b) == (match last_for(
                        all.take(taken + 1),
                        p,
                        b,
                    ) {
                        Some(st) => Some(st),
                        None => lookup(old(self).entries@, p, b),
                    }) by {
                    if p == pk && b == bk {
                        assert(last_for(all.take(taken + 1), p, b) == Some(stg));
                    } else {
                        assert(lookup(self.entries@, p, b) == lookup(mid, p, b));
                        assert(last_for(all.take(taken + 1), p, b) == last_for(
                            all.take(taken),
                            p,
                            b,
                        ));
                    }
                }
                taken = taken + 1;
            }
        }
        proof {
            assert(all.take(taken) =~= all);
        }
    }
}

} // verus!
