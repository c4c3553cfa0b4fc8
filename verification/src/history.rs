//! Bounded, most-recent-first list of persisted capture artifacts.

use vstd::prelude::*;

verus! {

/// How many capture artifacts are retained before the oldest is evicted.
pub const HISTORY_CAPACITY: usize = 20;

/// What one insertion does to the list of retained paths: the new path is
/// put in front; if that pushes the length past the bound, the oldest entry
/// leaves and is handed back so its backing file can be deleted.
pub open spec fn ring_insert(entries: Seq<Seq<char>>, path: Seq<char>) -> (Seq<Seq<char>>, Option<
    Seq<char>,
>) {
    let grown = seq![path] + entries;
    if grown.len() > HISTORY_CAPACITY {
        (grown.take(HISTORY_CAPACITY as int), Some(grown.last()))
    } else {
        (grown, None)
    }
}

/// The result of inserting every path of `paths` in order, starting from
/// `entries`: the retained list, and every evicted path, oldest first.
pub open spec fn ring_insert_all(entries: Seq<Seq<char>>, paths: Seq<Seq<char>>) -> (Seq<
    Seq<char>,
>, Seq<Seq<char>>)
    decreases paths.len(),
{
    if paths.len() == 0 {
        (entries, Seq::empty())
    } else {
        let prev = ring_insert_all(entries, paths.drop_last());
        let step = ring_insert(prev.0, paths.last());
        (
            step.0,
            prev.1 + (match step.1 {
                Some(e) => seq![e],
                None => Seq::empty(),
            }),
        )
    }
}

/// Bounded ordered list of prior capture artifacts, most recent first, with
/// a wrapping cursor for stepping through them.
pub struct HistoryRing {
    entries: Vec<String>,
    cursor: usize,
}

impl HistoryRing {
    /// The retained paths, most recent first.
    pub closed spec fn paths(&self) -> Seq<Seq<char>> {
        self.entries.deep_view()
    }

    /// Where the viewing cursor stands.
    pub closed spec fn cursor_pos(&self) -> int {
        self.cursor as int
    }

    /// The length stays within the bound and the cursor stays on an entry
    /// (or at zero while the list is empty).
    pub open spec fn wf(&self) -> bool {
        &&& self.paths().len() <= HISTORY_CAPACITY
        &&& self.paths().len() == 0 ==> self.cursor_pos() == 0
        &&& self.paths().len() > 0 ==> 0 <= self.cursor_pos() < self.paths().len()
    }

    /// A fresh ring holds nothing.
    pub fn new() -> (r: HistoryRing)
        ensures
            r.wf(),
            r.paths() == Seq::<Seq<char>>::empty(),
            r.cursor_pos() == 0,
    {
        let r = HistoryRing { entries: Vec::new(), cursor: 0 };
        proof {
            assert(r.paths() =~= Seq::<Seq<char>>::empty());
        }
        r
    }

    /// How many artifacts are retained.
    pub fn len(&self) -> (n: usize)
        ensures
            n == self.paths().len(),
    {
        self.entries.len()
    }

    /// Prepends a new artifact and resets the cursor, so the next view starts
    /// at the newest item.  Returns the evicted oldest path, if the bound was
    /// exceeded; deleting its backing file is the caller's task.
    pub fn insert(&mut self, path: String) -> (evicted: Option<String>)
        requires
            old(self).wf(),
        ensures
            final(self).wf(),
            final(self).paths() == ring_insert(old(self).paths(), path@).0,
            final(self).cursor_pos() == 0,
            match evicted {
                Some(e) => ring_insert(old(self).paths(), path@).1 == Some(e@),
                None => ring_insert(old(self).paths(), path@).1 is None,
            },
    {
        let ghost grown = seq![path@] + old(self).paths();
        self.entries.insert(0, path);
        self.cursor = 0;
        proof {
            assert(self.entries.deep_view() =~= grown);
        }
        if self.entries.len() > HISTORY_CAPACITY {
            let evicted = self.entries.pop();
            proof {
                assert(self.entries.deep_view() =~= grown.take(HISTORY_CAPACITY as int));
            }
            evicted
        } else {
            None
        }
    }

    /// Steps the cursor one entry onward, wrapping past the oldest back to
    /// the newest.  With an empty history this is a no-op.
    pub fn advance_cursor(&mut self)
        requires
            old(self).wf(),
        ensures
            final(self).wf(),
            final(self).paths() == old(self).paths(),
            old(self).paths().len() == 0 ==> final(self).cursor_pos() == 0,
            old(self).paths().len() > 0 ==> final(self).cursor_pos() == (old(self).cursor_pos()
                + 1) % (old(self).paths().len() as int),
    {
        if self.entries.len() > 0 {
            self.cursor = (self.cursor + 1) % self.entries.len();
        }
    }

    /// The artifact under the cursor; nothing while the history is empty.
    pub fn current(&self) -> (r: Option<&String>)
        requires
            self.wf(),
        ensures
            match r {
                Some(p) => self.paths().len() > 0 && p@ == self.paths()[self.cursor_pos()],
                None => self.paths().len() == 0,
            },
    {
        if self.entries.len() > 0 {
            Some(&self.entries[self.cursor])
        } else {
            None
        }
    }

    /// Empties the history, handing every retained path back so the caller
    /// can delete the backing files.
    pub fn clear(&mut self) -> (removed: Vec<String>)
        ensures
            final(self).wf(),
            final(self).paths() == Seq::<Seq<char>>::empty(),
            final(self).cursor_pos() == 0,
            removed.deep_view() == old(self).paths(),
    {
        let mut removed: Vec<String> = Vec::new();
        core::mem::swap(&mut removed, &mut self.entries);
        self.cursor = 0;
        proof {
            assert(self.paths() =~= Seq::<Seq<char>>::empty());
        }
        removed
    }
}

/// Law: after any number of insertions into a fresh ring, at most the bound
/// is retained; what is retained is exactly the most recent insertions in
/// most-recent-first order; and what was evicted is exactly the oldest
/// insertions beyond the bound, oldest first.
pub proof fn lemma_history_bound(paths: Seq<Seq<char>>)
    ensures
        ring_insert_all(Seq::empty(), paths).0.len() == if paths.len() <= HISTORY_CAPACITY {
            paths.len() as int
        } else {
            HISTORY_CAPACITY as int
        },
        forall|i: int|
            0 <= i < ring_insert_all(Seq::empty(), paths).0.len() ==> ring_insert_all(
                Seq::empty(),
                paths,
            ).0[i] == paths[paths.len() - 1 - i],
        ring_insert_all(Seq::empty(), paths).1.len() == if paths.len() <= HISTORY_CAPACITY {
            0int
        } else {
            paths.len() - HISTORY_CAPACITY
        },
        forall|i: int|
            0 <= i < ring_insert_all(Seq::empty(), paths).1.len() ==> ring_insert_all(
                Seq::empty(),
                paths,
            ).1[i] == paths[i],
    decreases paths.len(),
{
    if paths.len() > 0 {
        let init = paths.drop_last();
        lemma_history_bound(init);
        let prev = ring_insert_all(Seq::empty(), init);
        let grown = seq![paths.last()] + prev.0;
        assert(forall|i: int| 0 <= i < init.len() ==> init[i] == paths[i]);
        assert(forall|i: int| 1 <= i < grown.len() ==> grown[i] == prev.0[i - 1]);
        if grown.len() > HISTORY_CAPACITY {
            assert(grown.last() == prev.0[HISTORY_CAPACITY - 1]);
            assert(ring_insert_all(Seq::empty(), paths).1 =~= prev.1 + seq![grown.last()]);
        } else {
            assert(ring_insert_all(Seq::empty(), paths).1 =~= prev.1);
        }
    }
}

} // verus!
