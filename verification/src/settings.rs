//! The external configuration surface, collapsed into one table.
//!
//! Instead of one named flag per act, the per-act split enables form a
//! mapping from (level, mode bucket) to a boolean, where the bucket is
//! Story versus everything else.  Beside it stand the four per-title
//! auto-start enables and the story-mode auto-start enable.  Everything
//! defaults to enabled.

use vstd::prelude::*;

use crate::LevelID;
use crate::levels::LEVEL_COUNT;
use crate::levels::level_index;
use crate::levels::spec_level_index;

verus! {

/// All configuration the decision engine consults.
pub struct Settings {
    /// Auto start at the first act of a story run.
    pub story_start: bool,
    /// Per-title manual-start enables.
    pub s1_start: bool,
    pub s2_start: bool,
    pub s3_start: bool,
    pub scd_start: bool,
    /// Split enables outside story mode, indexed by [`spec_level_index`]
    /// of the level being left.
    pub splits_normal: Vec<bool>,
    /// Split enables in story mode, indexed the same way.
    pub splits_story: Vec<bool>,
}

impl Settings {
    /// Both split tables hold one flag per level.
    pub open spec fn wf(&self) -> bool {
        self.splits_normal@.len() == LEVEL_COUNT && self.splits_story@.len() == LEVEL_COUNT
    }

    /// The split enable consulted when leaving `level` in the given
    /// mode bucket.
    pub open spec fn spec_split_enabled(&self, level: LevelID, story: bool) -> bool {
        if story {
            self.splits_story@[spec_level_index(level)]
        } else {
            self.splits_normal@[spec_level_index(level)]
        }
    }

    /// The default configuration: every enable on.
    pub fn all_enabled() -> (r: Settings)
        ensures
            r.wf(),
            r.story_start && r.s1_start && r.s2_start && r.s3_start && r.scd_start,
            forall|l: LevelID, b: bool| #[trigger] r.spec_split_enabled(l, b),
    {
        let mut splits_normal: Vec<bool> = Vec::new();
        let mut splits_story: Vec<bool> = Vec::new();
        let mut i: usize = 0;
        while i < LEVEL_COUNT
            invariant
                splits_normal@.len() == i,
                splits_story@.len() == i,
                i <= LEVEL_COUNT,
                forall|k: int| 0 <= k < i ==> #[trigger] splits_normal@[k],
                forall|k: int| 0 <= k < i ==> #[trigger] splits_story@[k],
            decreases LEVEL_COUNT - i,
        {
            splits_normal.push(true);
            splits_story.push(true);
            i += 1;
        }
        Settings {
            story_start: true,
            s1_start: true,
            s2_start: true,
            s3_start: true,
            scd_start: true,
            splits_normal,
            splits_story,
        }
    }

    /// Read the split enable for leaving `level` in the given bucket.
    pub fn split_enabled(&self, level: LevelID, story: bool) -> (r: bool)
        requires
            self.wf(),
        ensures
            r == self.spec_split_enabled(level, story),
    {
        let i = level_index(level);
        if story {
            self.splits_story[i]
        } else {
            self.splits_normal[i]
        }
    }

    /// Set the split enable for leaving `level` in the given bucket.
    pub fn set_split_enabled(&mut self, level: LevelID, story: bool, value: bool)
        requires
            old(self).wf(),
        ensures
            final(self).wf(),
            final(self).spec_split_enabled(level, story) == value,
            forall|l: LevelID, b: bool|
                !(spec_level_index(l) == spec_level_index(level) && b == story)
                    ==> #[trigger] final(self).spec_split_enabled(l, b)
                        == old(self).spec_split_enabled(l, b),
            final(self).story_start == old(self).story_start,
            final(self).s1_start == old(self).s1_start,
            final(self).s2_start == old(self).s2_start,
            final(self).s3_start == old(self).s3_start,
            final(self).scd_start == old(self).scd_start,
    {
        let i = level_index(level);
        if story {
            self.splits_story.set(i, value);
        } else {
            self.splits_normal.set(i, value);
        }
    }
}

} // verus!
