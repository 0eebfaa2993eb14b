//! The adapter for the CD title.
//!
//! Structurally parallel to the first title's adapter; its raw level
//! indices come in per-time-zone bands that all collapse onto one act,
//! and its time-bonus predicate also reports the time-travel sequence.

use vstd::prelude::*;

use crate::GameMode;
use crate::LevelID;
use crate::image::MemoryImage;
use crate::levels::mode_of_index;
use crate::levels::spec_mode_of_index;
use crate::pattern::Pattern;
use crate::resolve::disp_abs;
use crate::resolve::pointer_path;
use crate::resolve::rel32;
use crate::resolve::rel8;
use crate::resolve::scan_at;
use crate::resolve::spec_disp_abs;
use crate::resolve::spec_pointer_path;
use crate::resolve::spec_rel32;
use crate::resolve::spec_rel8;
use crate::resolve::spec_scan_at;
use crate::tracker::Tracker;
use crate::tracker::bonus_active;
use crate::tracker::bonus_baseline_next;
use crate::tracker::bonus_step;
use crate::tracker::current_or;
use crate::tracker::edge_from_to;
use crate::tracker::pushed;
use crate::tracker::sample_or;
use crate::tracker::trigger_step;

verus! {

/// Signature of the dispatch table the `ptr` anchor is decoded from.
pub open spec fn cd_ptr_sig() -> Seq<i16> {
    seq![0x3Di16, 0xE4i16, 0x00i16, 0x00i16, 0x00i16, 0x0Fi16, 0x87i16, -1i16, -1i16, -1i16,
        -1i16, 0x41i16, 0x8Bi16, 0x8Ci16, 0x84i16, -1i16, -1i16, -1i16, -1i16, 0x49i16, 0x03i16,
        0xCCi16, 0xFFi16, -1i16, 0x41i16, 0x8Bi16, 0x84i16]
}

/// Signature of the load instruction the `lea` anchor is decoded from.
pub open spec fn cd_lea_sig() -> Seq<i16> {
    seq![0xEBi16, -1i16, 0x45i16, 0x33i16, 0xFFi16, 0x45i16, 0x85i16, 0xD2i16]
}

/// The `ptr` anchor: a module-relative slot fifteen bytes past the
/// dispatch-table signature, rebased onto the load base.
pub open spec fn spec_cd_ptr(img: MemoryImage) -> Option<u64> {
    match spec_scan_at(img, cd_ptr_sig(), 15) {
        Some(at) => spec_disp_abs(img, at, 0),
        None => None,
    }
}

/// The `lea` anchor: a short-jump byte one past the signature, then a
/// 32-bit relative displacement.
pub open spec fn spec_cd_lea(img: MemoryImage) -> Option<u64> {
    match spec_scan_at(img, cd_lea_sig(), 1) {
        Some(s) => match spec_rel8(img, s) {
            Some(t) => spec_rel32(img, t, 0),
            None => None,
        },
        None => None,
    }
}

/// The six addresses this adapter samples, in declaration order, or
/// failure as soon as any single step fails.
pub open spec fn spec_cd_resolution(img: MemoryImage) -> Option<(u64, u64, u64, u64, u64, u64)> {
    match (spec_cd_ptr(img), spec_cd_lea(img)) {
        (Some(p), Some(l)) => match (
            spec_pointer_path(img, p, l, 480, 46, 0, false),
            spec_pointer_path(img, p, l, 0, 0, 0x814, false),
            spec_pointer_path(img, p, l, 0, 0, 0x942, false),
            spec_pointer_path(img, p, l, 44, 15, 428, true),
            spec_pointer_path(img, p, l, 44, 15, 476, true),
            spec_pointer_path(img, p, l, 44, 15, 120, true),
        ) {
            (Some(a1), Some(a2), Some(a3), Some(a4), Some(a5), Some(a6)) => Some(
                (a1, a2, a3, a4, a5, a6),
            ),
            _ => None,
        },
        _ => None,
    }
}

/// The level a raw level-index byte maps to, or nothing for an index
/// outside the title's table.  Each act appears once per time zone, so
/// several raw bands collapse onto one identifier.
pub open spec fn spec_cd_level_of(v: u8) -> Option<LevelID> {
    if v == 0 {
        Some(LevelID::SonicCD_TitleScreen)
    } else if v == 8 {
        Some(LevelID::SonicCD_Ending)
    } else if 13 <= v <= 16 {
        Some(LevelID::SonicCD_PalmtreePanicAct1)
    } else if 17 <= v <= 20 {
        Some(LevelID::SonicCD_PalmtreePanicAct2)
    } else if 21 <= v <= 22 {
        Some(LevelID::SonicCD_PalmtreePanicAct3)
    } else if 23 <= v <= 26 {
        Some(LevelID::SonicCD_CollisionChaosAct1)
    } else if 27 <= v <= 30 {
        Some(LevelID::SonicCD_CollisionChaosAct2)
    } else if 31 <= v <= 32 {
        Some(LevelID::SonicCD_CollisionChaosAct3)
    } else if 33 <= v <= 36 {
        Some(LevelID::SonicCD_TidalTempestAct1)
    } else if 37 <= v <= 40 {
        Some(LevelID::SonicCD_TidalTempestAct2)
    } else if 41 <= v <= 42 {
        Some(LevelID::SonicCD_TidalTempestAct3)
    } else if 43 <= v <= 46 {
        Some(LevelID::SonicCD_QuartzQuadrantAct1)
    } else if 47 <= v <= 50 {
        Some(LevelID::SonicCD_QuartzQuadrantAct2)
    } else if 51 <= v <= 52 {
        Some(LevelID::SonicCD_QuartzQuadrantAct3)
    } else if 53 <= v <= 56 {
        Some(LevelID::SonicCD_WackyWorkbenchAct1)
    } else if 57 <= v <= 60 {
        Some(LevelID::SonicCD_WackyWorkbenchAct2)
    } else if 61 <= v <= 62 {
        Some(LevelID::SonicCD_WackyWorkbenchAct3)
    } else if 63 <= v <= 66 {
        Some(LevelID::SonicCD_StardustSpeedwayAct1)
    } else if 67 <= v <= 70 {
        Some(LevelID::SonicCD_StardustSpeedwayAct2)
    } else if 71 <= v <= 72 {
        Some(LevelID::SonicCD_StardustSpeedwayAct3)
    } else if 73 <= v <= 76 {
        Some(LevelID::SonicCD_MetallicMadnessAct1)
    } else if 77 <= v <= 80 {
        Some(LevelID::SonicCD_MetallicMadnessAct2)
    } else if 81 <= v <= 82 {
        Some(LevelID::SonicCD_MetallicMadnessAct3)
    } else {
        None
    }
}

/// The level reported this tick: a mapped raw index wins; an unmapped one
/// keeps the previously tracked level.
pub open spec fn spec_cd_level_next(w: Tracker<LevelID>, v: u8) -> LevelID {
    match spec_cd_level_of(v) {
        Some(l) => l,
        None => current_or(w, LevelID::MainMenu),
    }
}

/// A freshly constructed adapter for this image: every address equals its
/// resolved value and no sample has been tracked yet.
pub open spec fn spec_cd_fresh(s: SonicCD, img: MemoryImage) -> bool {
    match spec_cd_resolution(img) {
        Some(t) => s.level_id == t.0 && s.time_bonus == t.1 && s.start_trigger == t.2
            && s.demo_mode == t.3 && s.game_mode == t.4 && s.time_travel == t.5
            && s.level_watcher.pair is None && s.start_trigger_value.pair is None
            && s.time_bonus_value.pair is None && s.time_bonus_start_value == 0,
        None => false,
    }
}

/// Adapter for the CD title.
pub struct SonicCD {
    pub level_id: u64,
    pub time_bonus: u64,
    pub start_trigger: u64,
    pub demo_mode: u64,
    pub game_mode: u64,
    pub time_travel: u64,
    pub level_watcher: Tracker<LevelID>,
    pub start_trigger_value: Tracker<u8>,
    pub time_bonus_value: Tracker<u32>,
    pub time_bonus_start_value: u32,
}

impl SonicCD {
    /// Resolve every address this adapter needs out of the captured
    /// image.  All-or-nothing: any failed step yields no adapter.
    pub fn new(img: &MemoryImage) -> (r: Option<SonicCD>)
        ensures
            r is Some <==> spec_cd_resolution(*img) is Some,
            r matches Some(s) ==> spec_cd_fresh(s, *img),
    {
        let ptr_sig = Pattern::new(
            vec![0x3D, 0xE4, 0x00, 0x00, 0x00, 0x0F, 0x87, -1, -1, -1, -1, 0x41, 0x8B, 0x8C,
                0x84, -1, -1, -1, -1, 0x49, 0x03, 0xCC, 0xFF, -1, 0x41, 0x8B, 0x84],
        );
        proof {
            assert(ptr_sig@ =~= cd_ptr_sig());
        }
        let ptr = {
            let at = match scan_at(img, &ptr_sig, 15) {
                Some(x) => x,
                None => return None,
            };
            match disp_abs(img, at, 0) {
                Some(x) => x,
                None => return None,
            }
        };

        let lea_sig = Pattern::new(vec![0xEB, -1, 0x45, 0x33, 0xFF, 0x45, 0x85, 0xD2]);
        proof {
            assert(lea_sig@ =~= cd_lea_sig());
        }
        let lea = {
            let s = match scan_at(img, &lea_sig, 1) {
                Some(x) => x,
                None => return None,
            };
            let t = match rel8(img, s) {
                Some(x) => x,
                None => return None,
            };
            match rel32(img, t, 0) {
                Some(x) => x,
                None => return None,
            }
        };

        let level_id = match pointer_path(img, ptr, lea, 480, 46, 0, false) {
            Some(x) => x,
            None => return None,
        };
        let time_bonus = match pointer_path(img, ptr, lea, 0, 0, 0x814, false) {
            Some(x) => x,
            None => return None,
        };
        let start_trigger = match pointer_path(img, ptr, lea, 0, 0, 0x942, false) {
            Some(x) => x,
            None => return None,
        };
        let demo_mode = match pointer_path(img, ptr, lea, 44, 15, 428, true) {
            Some(x) => x,
            None => return None,
        };
        let game_mode = match pointer_path(img, ptr, lea, 44, 15, 476, true) {
            Some(x) => x,
            None => return None,
        };
        let time_travel = match pointer_path(img, ptr, lea, 44, 15, 120, true) {
            Some(x) => x,
            None => return None,
        };

        Some(
            SonicCD {
                level_id,
                time_bonus,
                start_trigger,
                demo_mode,
                game_mode,
                time_travel,
                level_watcher: Tracker::new(),
                start_trigger_value: Tracker::new(),
                time_bonus_value: Tracker::new(),
                time_bonus_start_value: 0,
            },
        )
    }

    /// Decode the sampled level-index byte (zero on a failed read) and
    /// track the result.
    pub fn get_current_level(&mut self, raw: Option<u8>) -> (r: LevelID)
        ensures
            r == spec_cd_level_next(old(self).level_watcher, sample_or(raw, 0u8)),
            *final(self) == (SonicCD {
                level_watcher: pushed(old(self).level_watcher, r),
                ..*old(self)
            }),
    {
        let v = match raw {
            Some(x) => x,
            None => 0u8,
        };
        let mapped = match v {
            0 => Some(LevelID::SonicCD_TitleScreen),
            8 => Some(LevelID::SonicCD_Ending),
            13 | 14 | 15 | 16 => Some(LevelID::SonicCD_PalmtreePanicAct1),
            17 | 18 | 19 | 20 => Some(LevelID::SonicCD_PalmtreePanicAct2),
            21 | 22 => Some(LevelID::SonicCD_PalmtreePanicAct3),
            23 | 24 | 25 | 26 => Some(LevelID::SonicCD_CollisionChaosAct1),
            27 | 28 | 29 | 30 => Some(LevelID::SonicCD_CollisionChaosAct2),
            31 | 32 => Some(LevelID::SonicCD_CollisionChaosAct3),
            33 | 34 | 35 | 36 => Some(LevelID::SonicCD_TidalTempestAct1),
            37 | 38 | 39 | 40 => Some(LevelID::SonicCD_TidalTempestAct2),
            41 | 42 => Some(LevelID::SonicCD_TidalTempestAct3),
            43 | 44 | 45 | 46 => Some(LevelID::SonicCD_QuartzQuadrantAct1),
            47 | 48 | 49 | 50 => Some(LevelID::SonicCD_QuartzQuadrantAct2),
            51 | 52 => Some(LevelID::SonicCD_QuartzQuadrantAct3),
            53 | 54 | 55 | 56 => Some(LevelID::SonicCD_WackyWorkbenchAct1),
            57 | 58 | 59 | 60 => Some(LevelID::SonicCD_WackyWorkbenchAct2),
            61 | 62 => Some(LevelID::SonicCD_WackyWorkbenchAct3),
            63 | 64 | 65 | 66 => Some(LevelID::SonicCD_StardustSpeedwayAct1),
            67 | 68 | 69 | 70 => Some(LevelID::SonicCD_StardustSpeedwayAct2),
            71 | 72 => Some(LevelID::SonicCD_StardustSpeedwayAct3),
            73 | 74 | 75 | 76 => Some(LevelID::SonicCD_MetallicMadnessAct1),
            77 | 78 | 79 | 80 => Some(LevelID::SonicCD_MetallicMadnessAct2),
            81 | 82 => Some(LevelID::SonicCD_MetallicMadnessAct3),
            _ => None,
        };
        let level = match mapped {
            Some(l) => l,
            None => self.level_watcher.current_or(LevelID::MainMenu),
        };
        self.level_watcher.update(level);
        level
    }

    /// Track the sampled bonus counter and report whether a time bonus is
    /// actively counting, or a time-travel sequence is in progress.
    pub fn is_in_time_bonus(&mut self, raw: Option<u32>, time_travel: Option<u32>) -> (r: bool)
        ensures
            *final(self) == (SonicCD {
                time_bonus_value: pushed(old(self).time_bonus_value, sample_or(raw, 0u32)),
                time_bonus_start_value: bonus_baseline_next(
                    pushed(old(self).time_bonus_value, sample_or(raw, 0u32)),
                    old(self).time_bonus_start_value,
                ),
                ..*old(self)
            }),
            r == (bonus_active(final(self).time_bonus_value, final(self).time_bonus_start_value)
                || sample_or(time_travel, 0u32) != 0),
    {
        let base = bonus_step(&mut self.time_bonus_value, &mut self.time_bonus_start_value, raw);
        let travelling = match time_travel {
            Some(t) => t != 0,
            None => false,
        };
        base || travelling
    }

    /// Track the sampled trigger byte and report the armed-to-fired edge.
    pub fn get_start_trigger(&mut self, raw: Option<u8>) -> (r: bool)
        ensures
            *final(self) == (SonicCD {
                start_trigger_value: pushed(old(self).start_trigger_value, sample_or(raw, 0u8)),
                ..*old(self)
            }),
            r == edge_from_to(final(self).start_trigger_value, 11u8, 2u8),
    {
        trigger_step(&mut self.start_trigger_value, raw, 11, 2)
    }

    /// The sampled demo/attract flag; a failed read counts as not demo.
    pub fn is_demo_mode(&self, raw: Option<bool>) -> (r: bool)
        ensures
            r == sample_or(raw, false),
    {
        match raw {
            Some(x) => x,
            None => false,
        }
    }

    /// Decode the sampled mode-index byte; a failed read counts as zero.
    pub fn get_game_mode(&self, raw: Option<u8>) -> (r: GameMode)
        ensures
            r == spec_mode_of_index(sample_or(raw, 0u8) as int),
    {
        let v = match raw {
            Some(x) => x,
            None => 0u8,
        };
        mode_of_index(v as i64)
    }
}

/// An unmapped raw level index never regresses the observed level: the
/// previously tracked value is reported again, not a fresh default.
pub proof fn lemma_cd_unmapped_retains(w: Tracker<LevelID>, v: u8)
    requires
        spec_cd_level_of(v) is None,
        w.pair is Some,
    ensures
        w.pair matches Some(p) ==> spec_cd_level_next(w, v) == p.current,
{
}

/// Repeating a raw sample changes nothing: the level reported for a
/// sample, once tracked, is reported again if the same sample arrives on
/// the next tick, so tick-timing jitter cannot alter the level sequence.
pub proof fn lemma_cd_level_stutter(w: Tracker<LevelID>, v: u8)
    ensures
        ({
            let first = spec_cd_level_next(w, v);
            spec_cd_level_next(pushed(w, first), v) == first
        }),
{
}

} // verus!
