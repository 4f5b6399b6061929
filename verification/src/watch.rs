//! The content watcher's decision rule.
//!
//! The watcher keeps one "last known change" timestamp. On each poll the
//! surrounding loop reads the modification timestamps of the entries
//! directly under the content root and hands them here; the watcher
//! reports a change exactly when some timestamp advanced past the stored
//! one, and raises the stored timestamp to the maximum observed. All file
//! changes seen within one poll coalesce into a single change event.

use vstd::prelude::*;

verus! {

/// The watcher's whole state: the last known change timestamp.
pub struct Watcher {
    pub last_modified: u64,
}

impl Watcher {
    /// A watcher starting at the given timestamp (the time it starts).
    pub fn new(start: u64) -> (r: Watcher)
        ensures
            r.last_modified == start,
    {
        Watcher { last_modified: start }
    }

    /// One poll over the observed modification timestamps: reports a change
    /// exactly when one of them exceeds the stored timestamp, and raises
    /// the stored timestamp to the maximum of itself and every observation.
    pub fn poll(&mut self, mtimes: &Vec<u64>) -> (changed: bool)
        ensures
            changed == (exists|k: int|
                0 <= k < mtimes@.len() && mtimes@[k] > old(self).last_modified),
            !changed ==> final(self).last_modified == old(self).last_modified,
            final(self).last_modified >= old(self).last_modified,
            forall|k: int| 0 <= k < mtimes@.len() ==> final(self).last_modified >= mtimes@[k],
            final(self).last_modified == old(self).last_modified || (exists|k: int|
                0 <= k < mtimes@.len() && final(self).last_modified == mtimes@[k]),
    {
        let mut changed = false;
        let mut idx: usize = 0;
        while idx < mtimes.len()
            invariant
                idx <= mtimes@.len(),
                changed == (exists|k: int|
                    0 <= k < idx && mtimes@[k] > old(self).last_modified),
                !changed ==> self.last_modified == old(self).last_modified,
                self.last_modified >= old(self).last_modified,
                forall|k: int| 0 <= k < idx ==> self.last_modified >= mtimes@[k],
                self.last_modified == old(self).last_modified || (exists|k: int|
                    0 <= k < idx && self.last_modified == mtimes@[k]),
            decreases mtimes@.len() - idx,
        {
            if mtimes[idx] > self.last_modified {
                changed = true;
                self.last_modified = mtimes[idx];
            }
            idx = idx + 1;
        }
        changed
    }
}

/// Changes coalesce: once a poll has raised the stored timestamp to
/// dominate every observation, polling the same observations again reports
/// no change — each burst of file changes yields one event.
pub proof fn lemma_polls_coalesce(last_after: u64, mtimes: Seq<u64>)
    requires
        forall|k: int| 0 <= k < mtimes.len() ==> last_after >= mtimes[k],
    ensures
        !(exists|k: int| 0 <= k < mtimes.len() && mtimes[k] > last_after),
{
}

} // verus!
