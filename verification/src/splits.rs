use vstd::prelude::*;

use crate::dur::sat_sub;

verus! {

/// The most splits one session may hold.
pub const MAX_SPLITS: usize = 100;

/// Why a split could not be opened.
#[derive(Clone, Copy, PartialEq, Eq, Structural, Debug)]
pub enum SplitError {
    /// The collection already holds `MAX_SPLITS` splits.
    CapacityExceeded,
    /// A nested open was asked for while no split was active.
    NoActiveSplit,
}

/// One named, timed interval, possibly nested under an earlier one.
///
/// Offsets are milliseconds of *session elapsed time* (pause-aware), not raw
/// clock readings, so a pause never inflates a split's duration. Wall stamps
/// are milliseconds since the Unix epoch, kept only for the log's
/// human-readable clock range.
pub struct Split {
    /// User-supplied label.
    pub name: String,
    /// Session elapsed total at which this split began.
    pub start_offset: u64,
    /// Session elapsed total at which it ended; `None` while it runs.
    /// Set exactly once: a closed split is never reopened or restamped.
    pub end_offset: Option<u64>,
    /// Wall stamp captured when the split was opened.
    pub start_wall: u64,
    /// Wall stamp captured when the split was closed.
    pub end_wall: Option<u64>,
    /// Index of the enclosing split; `None` for a top-level split.
    pub parent: Option<usize>,
    /// Nesting depth: `0` for top-level, else one more than the parent's.
    pub level: usize,
}

impl Split {
    /// A split is closed once its end offset is stamped.
    pub open spec fn is_closed(self) -> bool {
        self.end_offset is Some
    }

    /// Duration in milliseconds of a closed split.
    pub open spec fn spec_duration(self) -> int {
        sat_sub(self.end_offset.unwrap() as int, self.start_offset as int)
    }
}

/// Local well-formedness of the split at index `i`, against `stamp`, the
/// largest session elapsed total the tree has seen.
pub open spec fn split_wf_at(s: Seq<Split>, stamp: int, i: int) -> bool {
    &&& match s[i].parent {
        Some(p) => p < i && s[i].level == s[p as int].level + 1,
        None => s[i].level == 0,
    }
    &&& s[i].level <= i
    &&& s[i].start_offset <= stamp
    &&& match s[i].end_offset {
        Some(e) => s[i].start_offset <= e <= stamp,
        None => true,
    }
    &&& s[i].end_offset is Some <==> s[i].end_wall is Some
}

/// Every ancestor of the split at `i`, and the split itself, is still open.
pub open spec fn ancestors_open(s: Seq<Split>, i: int) -> bool
    decreases i,
{
    &&& 0 <= i < s.len()
    &&& s[i].end_offset is None
    &&& match s[i].parent {
        Some(p) => p < i && ancestors_open(s, p as int),
        None => true,
    }
}

/// The forest of splits plus the active pointer.
///
/// Splits are append-only: they are never removed or reordered, so
/// index-based parent links stay valid for the whole session. `stamp` is a
/// ghost record of the largest elapsed total ever handed to a mutator; every
/// stored offset lies at or below it, which is what makes closed durations
/// non-negative.
pub struct SplitTree {
    /// All splits of the session, in insertion order.
    pub splits: Vec<Split>,
    /// Index of the innermost open (focused) split, if any.
    pub active: Option<usize>,
    /// Largest session elapsed total this tree has been given.
    pub stamp: Ghost<u64>,
}

impl SplitTree {
    /// The tree's invariant: capacity, parent/level consistency, offsets
    /// bounded by the stamp, and the whole active chain open.
    pub open spec fn wf(self) -> bool {
        &&& self.splits@.len() <= MAX_SPLITS
        &&& forall|i: int|
            0 <= i < self.splits@.len() ==> #[trigger] split_wf_at(
                self.splits@,
                self.stamp@ as int,
                i,
            )
        &&& match self.active {
            Some(a) => a < self.splits@.len() && ancestors_open(self.splits@, a as int),
            None => true,
        }
    }

    /// The level a split opened now would get: one below the active split,
    /// or top-level when nothing is active.
    pub open spec fn next_level(self) -> int {
        match self.active {
            Some(a) => self.splits@[a as int].level + 1,
            None => 0,
        }
    }

    /// An empty tree with nothing active.
    pub fn new() -> (t: Self)
        ensures
            t.wf(),
            t.splits@.len() == 0,
            t.active is None,
            t.stamp@ == 0,
    {
        SplitTree { splits: Vec::new(), active: None, stamp: Ghost(0) }
    }

    /// Drop every split and the active pointer; a fresh session begins.
    pub fn clear(&mut self)
        ensures
            final(self).wf(),
            final(self).splits@.len() == 0,
            final(self).active is None,
            final(self).stamp@ == 0,
    {
        self.splits = Vec::new();
        self.active = None;
        self.stamp = Ghost(0);
    }

    /// Open a new split under the active one (top-level when nothing is
    /// active), stamped with the current elapsed total and wall time, and
    /// focus it. Refused with `CapacityExceeded`, leaving the tree as it
    /// was, exactly when the tree is full.
    pub fn open_split(&mut self, name: String, now_total: u64, wall: u64) -> (r: Result<
        usize,
        SplitError,
    >)
        requires
            old(self).wf(),
            now_total >= old(self).stamp@,
        ensures
            final(self).wf(),
            final(self).stamp@ == now_total,
            old(self).splits@.len() >= MAX_SPLITS ==> r == Err::<usize, SplitError>(
                SplitError::CapacityExceeded,
            ) && final(self).splits@ == old(self).splits@
                && final(self).active == old(self).active,
            old(self).splits@.len() < MAX_SPLITS ==> {
                &&& r == Ok::<usize, SplitError>(old(self).splits@.len() as usize)
                &&& final(self).splits@ == old(self).splits@.push(
                    Split {
                        name: name,
                        start_offset: now_total,
                        end_offset: None,
                        start_wall: wall,
                        end_wall: None,
                        parent: old(self).active,
                        level: old(self).next_level() as usize,
                    },
                )
                &&& final(self).active == Some(old(self).splits@.len() as usize)
            },
    {
        proof {
            lemma_stamp_raise(self.splits@, self.stamp@ as int, now_total as int);
        }
        if self.splits.len() >= MAX_SPLITS {
            self.stamp = Ghost(now_total);
            return Err(SplitError::CapacityExceeded);
        }
        let level: usize;
        match self.active {
            Some(a) => {
                proof {
                    assert(split_wf_at(self.splits@, self.stamp@ as int, a as int));
                }
                level = self.splits[a].level + 1;
            },
            None => {
                level = 0;
            },
        }
        let idx: usize = self.splits.len();
        self.splits.push(
            Split {
                name: name,
                start_offset: now_total,
                end_offset: None,
                start_wall: wall,
                end_wall: None,
                parent: self.active,
                level: level,
            },
        );
        proof {
            if old(self).active is Some {
                let a = old(self).active.unwrap() as int;
                lemma_ancestors_open_agree(old(self).splits@, self.splits@, a);
                assert(split_wf_at(old(self).splits@, old(self).stamp@ as int, a));
            }
            let olds = old(self).splits@;
            let news = self.splits@;
            assert forall|i: int| 0 <= i < news.len() implies #[trigger] split_wf_at(
                news,
                now_total as int,
                i,
            ) by {
                if i < olds.len() {
                    assert(split_wf_at(olds, now_total as int, i));
                    assert(news[i] == olds[i]);
                }
            };
        }
        self.active = Some(idx);
        self.stamp = Ghost(now_total);
        Ok(idx)
    }

    /// Open a split strictly nested under the active one. Refused with
    /// `NoActiveSplit` when nothing is active, else exactly `open_split`.
    pub fn open_nested(&mut self, name: String, now_total: u64, wall: u64) -> (r: Result<
        usize,
        SplitError,
    >)
        requires
            old(self).wf(),
            now_total >= old(self).stamp@,
        ensures
            final(self).wf(),
            old(self).active is Some ==> final(self).stamp@ == now_total,
            old(self).active is None ==> r == Err::<usize, SplitError>(SplitError::NoActiveSplit)
                && *final(self) == *old(self),
            old(self).active is Some && old(self).splits@.len() >= MAX_SPLITS ==> r == Err::<
                usize,
                SplitError,
            >(SplitError::CapacityExceeded) && final(self).splits@ == old(self).splits@
                && final(self).active == old(self).active,
            old(self).active is Some && old(self).splits@.len() < MAX_SPLITS ==> {
                &&& r == Ok::<usize, SplitError>(old(self).splits@.len() as usize)
                &&& final(self).splits@ == old(self).splits@.push(
                    Split {
                        name: name,
                        start_offset: now_total,
                        end_offset: None,
                        start_wall: wall,
                        end_wall: None,
                        parent: old(self).active,
                        level: old(self).next_level() as usize,
                    },
                )
                &&& final(self).active == Some(old(self).splits@.len() as usize)
            },
    {
        if self.active.is_none() {
            return Err(SplitError::NoActiveSplit);
        }
        self.open_split(name, now_total, wall)
    }

    /// Close the active split: stamp its end offset and wall time, move the
    /// focus to its parent, and return the closed index. With nothing
    /// active this is a no-op returning `None` — calling it again once the
    /// stack is empty changes nothing.
    pub fn close_active(&mut self, now_total: u64, wall: u64) -> (r: Option<usize>)
        requires
            old(self).wf(),
            now_total >= old(self).stamp@,
        ensures
            final(self).wf(),
            final(self).stamp@ == now_total,
            old(self).active is None ==> r is None && final(self).splits@ == old(self).splits@
                && final(self).active is None,
            old(self).active matches Some(a) ==> {
                &&& r == Some(a)
                &&& final(self).splits@ == old(self).splits@.update(
                    a as int,
                    (Split {
                        end_offset: Some(now_total),
                        end_wall: Some(wall),
                        ..old(self).splits@[a as int]
                    }),
                )
                &&& final(self).active == old(self).splits@[a as int].parent
                &&& final(self).splits@[a as int].start_offset <= now_total
            },
    {
        proof {
            lemma_stamp_raise(self.splits@, self.stamp@ as int, now_total as int);
        }
        match self.active {
            None => {
                self.stamp = Ghost(now_total);
                None
            },
            Some(a) => {
                proof {
                    assert(split_wf_at(self.splits@, self.stamp@ as int, a as int));
                }
                let closed = Split {
                    name: self.splits[a].name.clone(),
                    start_offset: self.splits[a].start_offset,
                    end_offset: Some(now_total),
                    start_wall: self.splits[a].start_wall,
                    end_wall: Some(wall),
                    parent: self.splits[a].parent,
                    level: self.splits[a].level,
                };
                let parent: Option<usize> = self.splits[a].parent;
                proof {
                    assert(closed == (Split {
                        end_offset: Some(now_total),
                        end_wall: Some(wall),
                        ..old(self).splits@[a as int]
                    }));
                }
                self.splits.set(a, closed);
                proof {
                    let olds = old(self).splits@;
                    let news = self.splits@;
                    assert forall|i: int| 0 <= i < news.len() implies #[trigger] split_wf_at(
                        news,
                        now_total as int,
                        i,
                    ) by {
                        assert(split_wf_at(olds, now_total as int, i));
                        if i != a {
                            assert(news[i] == olds[i]);
                        }
                    };
                    if parent is Some {
                        let p = parent.unwrap() as int;
                        assert(ancestors_open(olds, p));
                        lemma_ancestors_open_agree(olds, news, p);
                    }
                }
                self.active = parent;
                self.stamp = Ghost(now_total);
                Some(a)
            },
        }
    }

    /// Move the focus to the active split's parent without closing anything;
    /// the previously active split keeps running. Returns the index the
    /// focus left, or `None` (a no-op) when nothing was active.
    pub fn ascend(&mut self) -> (r: Option<usize>)
        ensures
            final(self).splits@ == old(self).splits@,
            final(self).stamp@ == old(self).stamp@,
            old(self).wf() ==> final(self).wf(),
            old(self).active is None ==> r is None && final(self).active is None,
            old(self).active matches Some(a) ==> r == Some(a) && (old(self).wf()
                ==> final(self).active == old(self).splits@[a as int].parent),
    {
        match self.active {
            None => None,
            Some(a) => {
                if a < self.splits.len() {
                    self.active = self.splits[a].parent;
                } else {
                    // unreachable under `wf`; keep the focus sane regardless
                    self.active = None;
                }
                Some(a)
            },
        }
    }

    /// How many splits are closed (and will therefore reach the log).
    pub fn closed_count(&self) -> (n: usize)
        ensures
            n == spec_closed_count(self.splits@),
    {
        let mut n: usize = 0;
        let mut i: usize = 0;
        while i < self.splits.len()
            invariant
                i <= self.splits@.len(),
                n == spec_closed_count(self.splits@.take(i as int)),
                n <= i,
            decreases self.splits@.len() - i,
        {
            proof {
                assert(self.splits@.take(i as int + 1).drop_last() =~= self.splits@.take(i as int));
                assert(self.splits@.take(i as int + 1).last() == self.splits@[i as int]);
            }
            if self.splits[i].end_offset.is_some() {
                n = n + 1;
            }
            i = i + 1;
        }
        proof {
            assert(self.splits@.take(self.splits@.len() as int) =~= self.splits@);
        }
        n
    }
}

/// How many splits of `s` are closed.
pub open spec fn spec_closed_count(s: Seq<Split>) -> nat
    decreases s.len(),
{
    if s.len() == 0 {
        0
    } else {
        spec_closed_count(s.drop_last()) + if s.last().is_closed() {
            1nat
        } else {
            0nat
        }
    }
}

/// Raising the stamp keeps every split locally well-formed: all its clauses
/// bound offsets from above by the stamp.
proof fn lemma_stamp_raise(s: Seq<Split>, stamp1: int, stamp2: int)
    requires
        stamp1 <= stamp2,
        forall|i: int| 0 <= i < s.len() ==> #[trigger] split_wf_at(s, stamp1, i),
    ensures
        forall|i: int| 0 <= i < s.len() ==> #[trigger] split_wf_at(s, stamp2, i),
{
    assert forall|i: int| 0 <= i < s.len() implies #[trigger] split_wf_at(s, stamp2, i) by {
        assert(split_wf_at(s, stamp1, i));
    };
}

/// `ancestors_open` looks only at indices up to `i`, so any extension or
/// later-index update of the sequence preserves it.
proof fn lemma_ancestors_open_agree(s1: Seq<Split>, s2: Seq<Split>, i: int)
    requires
        ancestors_open(s1, i),
        i < s2.len(),
        forall|j: int| 0 <= j <= i ==> s1[j] == s2[j],
    ensures
        ancestors_open(s2, i),
    decreases i,
{
    match s1[i].parent {
        Some(p) => {
            lemma_ancestors_open_agree(s1, s2, p as int);
        },
        None => {},
    }
}

/// Every closed split's end offset lies at or past its start offset: its
/// duration is never negative, whatever open/close commands produced it.
pub proof fn lemma_closed_end_after_start(t: SplitTree, i: int)
    requires
        t.wf(),
        0 <= i < t.splits@.len(),
        t.splits@[i].is_closed(),
    ensures
        t.splits@[i].end_offset.unwrap() >= t.splits@[i].start_offset,
        t.splits@[i].spec_duration() == t.splits@[i].end_offset.unwrap()
            - t.splits@[i].start_offset,
{
    assert(split_wf_at(t.splits@, t.stamp@ as int, i));
}

/// A split is top-level (level 0) exactly when it has no parent; otherwise
/// its level is one more than its parent's, at all times.
pub proof fn lemma_level_parent(t: SplitTree, i: int)
    requires
        t.wf(),
        0 <= i < t.splits@.len(),
    ensures
        t.splits@[i].parent is None <==> t.splits@[i].level == 0,
        t.splits@[i].parent matches Some(p) ==> p < i && t.splits@[i].level == t.splits@[
            p as int
        ].level + 1,
{
    assert(split_wf_at(t.splits@, t.stamp@ as int, i));
}

/// The active pointer, when set, always refers to a split that is still
/// open (its end offset unset).
pub proof fn lemma_active_open(t: SplitTree)
    requires
        t.wf(),
        t.active is Some,
    ensures
        t.active.unwrap() < t.splits@.len(),
        t.splits@[t.active.unwrap() as int].end_offset is None,
{
}

} // verus!
