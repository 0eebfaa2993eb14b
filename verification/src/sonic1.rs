//! The adapter for the first title.
//!
//! `new` resolves the five addresses the adapter samples, entirely out of
//! the captured image; every step must succeed or the whole adapter fails
//! to construct.  The per-tick readers take the raw values the host
//! sampled at those addresses (`None` for a failed read) and decode them
//! against the title's tables.

use vstd::prelude::*;

use crate::GameMode;
use crate::LevelID;
use crate::image::MemoryImage;
use crate::levels::mode_of_index;
use crate::levels::spec_mode_of_index;
use crate::pattern::Pattern;
use crate::resolve::disp_abs;
use crate::resolve::pointer_path;
use crate::resolve::rel32;
use crate::resolve::rel8;
use crate::resolve::scan_at;
use crate::resolve::spec_disp_abs;
use crate::resolve::spec_pointer_path;
use crate::resolve::spec_rel32;
use crate::resolve::spec_rel8;
use crate::resolve::spec_scan_at;
use crate::tracker::Tracker;
use crate::tracker::bonus_active;
use crate::tracker::bonus_baseline_next;
use crate::tracker::bonus_step;
use crate::tracker::current_or;
use crate::tracker::edge_from_to;
use crate::tracker::pushed;
use crate::tracker::sample_or;
use crate::tracker::trigger_step;

verus! {

/// Signature of the dispatch table the `ptr` anchor is decoded from.
pub open spec fn s1_ptr_sig() -> Seq<i16> {
    seq![0x3Di16, 0xF9i16, 0x00i16, 0x00i16, 0x00i16, 0x0Fi16, 0x87i16, -1i16, -1i16, -1i16, -1i16, 0x41i16, 0x8Bi16, 0x8Ci16, 0x84i16, -1i16, -1i16, -1i16, -1i16, 0x49i16, 0x03i16, 0xCCi16, 0xFFi16, -1i16, 0x41i16, 0x8Bi16, 0x84i16]
}

/// Signature of the load instruction the `lea` anchor is decoded from.
pub open spec fn s1_lea_sig() -> Seq<i16> {
    seq![0xEBi16, -1i16, 0x8Bi16, 0xCFi16, 0xE8i16, -1i16, -1i16, -1i16, -1i16, 0x8Bi16, 0x3Di16]
}

/// The `ptr` anchor: a module-relative slot fifteen bytes past the
/// dispatch-table signature, rebased onto the load base.
pub open spec fn spec_s1_ptr(img: MemoryImage) -> Option<u64> {
    match spec_scan_at(img, s1_ptr_sig(), 15) {
        Some(at) => spec_disp_abs(img, at, 0),
        None => None,
    }
}

/// The `lea` anchor: a short-jump byte one past the signature, then a
/// 32-bit relative displacement.
pub open spec fn spec_s1_lea(img: MemoryImage) -> Option<u64> {
    match spec_scan_at(img, s1_lea_sig(), 1) {
        Some(s) => match spec_rel8(img, s) {
            Some(t) => spec_rel32(img, t, 0),
            None => None,
        },
        None => None,
    }
}

/// The five addresses this adapter samples, in declaration order, or
/// failure as soon as any single step fails.
pub open spec fn spec_s1_resolution(img: MemoryImage) -> Option<(u64, u64, u64, u64, u64)> {
    match (spec_s1_ptr(img), spec_s1_lea(img)) {
        (Some(p), Some(l)) => match (
            spec_pointer_path(img, p, l, 488, 39, 0, false),
            spec_pointer_path(img, p, l, 0, 0, 0x20F8, false),
            spec_pointer_path(img, p, l, 0, 0, 0x24EC, false),
            spec_pointer_path(img, p, l, 68, 15, 20, true),
            spec_pointer_path(img, p, l, 68, 15, 428, true),
        ) {
            (Some(a1), Some(a2), Some(a3), Some(a4), Some(a5)) => Some((a1, a2, a3, a4, a5)),
            _ => None,
        },
        _ => None,
    }
}

/// The level a raw level-index byte maps to, or nothing for an index
/// outside the title's table.
pub open spec fn spec_s1_level_of(v: u8) -> Option<LevelID> {
    match v {
        0 => Some(LevelID::Sonic1_TitleScreen),
        1 => Some(LevelID::Sonic1_Ending),
        2 => Some(LevelID::Sonic1_Ending),
        6 => Some(LevelID::Sonic1_GreenHillAct1),
        7 => Some(LevelID::Sonic1_GreenHillAct2),
        8 => Some(LevelID::Sonic1_GreenHillAct3),
        9 => Some(LevelID::Sonic1_MarbleAct1),
        10 => Some(LevelID::Sonic1_MarbleAct2),
        11 => Some(LevelID::Sonic1_MarbleAct3),
        12 => Some(LevelID::Sonic1_SpringYardAct1),
        13 => Some(LevelID::Sonic1_SpringYardAct2),
        14 => Some(LevelID::Sonic1_SpringYardAct3),
        15 => Some(LevelID::Sonic1_LabyrinthAct1),
        16 => Some(LevelID::Sonic1_LabyrinthAct2),
        17 => Some(LevelID::Sonic1_LabyrinthAct3),
        18 => Some(LevelID::Sonic1_StarLightAct1),
        19 => Some(LevelID::Sonic1_StarLightAct2),
        20 => Some(LevelID::Sonic1_StarLightAct3),
        21 => Some(LevelID::Sonic1_ScrapBrainAct1),
        22 => Some(LevelID::Sonic1_ScrapBrainAct2),
        23 => Some(LevelID::Sonic1_ScrapBrainAct3),
        24 => Some(LevelID::Sonic1_FinalZone),
        _ => None,
    }
}

/// The level reported this tick: a mapped raw index wins; an unmapped one
/// keeps the previously tracked level, so transient garbage reads during
/// scene loads never regress the observed level.
pub open spec fn spec_s1_level_next(w: Tracker<LevelID>, v: u8) -> LevelID {
    match spec_s1_level_of(v) {
        Some(l) => l,
        None => current_or(w, LevelID::MainMenu),
    }
}

/// A freshly constructed adapter for this image: every address equals its
/// resolved value and no sample has been tracked yet.
pub open spec fn spec_s1_fresh(s: Sonic1, img: MemoryImage) -> bool {
    match spec_s1_resolution(img) {
        Some(t) => s.level_id == t.0 && s.time_bonus == t.1 && s.start_trigger == t.2
            && s.demo_mode == t.3 && s.game_mode == t.4 && s.level_watcher.pair is None
            && s.start_trigger_value.pair is None && s.time_bonus_value.pair is None
            && s.time_bonus_start_value == 0,
        None => false,
    }
}

/// Adapter for the first title: the resolved addresses it samples and the
/// trackers its edge predicates are defined over.
pub struct Sonic1 {
    pub level_id: u64,
    pub time_bonus: u64,
    pub start_trigger: u64,
    pub demo_mode: u64,
    pub game_mode: u64,
    pub level_watcher: Tracker<LevelID>,
    pub start_trigger_value: Tracker<u8>,
    pub time_bonus_value: Tracker<u32>,
    pub time_bonus_start_value: u32,
}

impl Sonic1 {
    /// Resolve every address this adapter needs out of the captured
    /// image.  All-or-nothing: any failed step yields no adapter.
    pub fn new(img: &MemoryImage) -> (r: Option<Sonic1>)
        ensures
            r is Some <==> spec_s1_resolution(*img) is Some,
            r matches Some(s) ==> spec_s1_fresh(s, *img),
    {
        let ptr_sig = Pattern::new(
            vec![0x3D, 0xF9, 0x00, 0x00, 0x00, 0x0F, 0x87, -1, -1, -1, -1, 0x41, 0x8B, 0x8C,
                0x84, -1, -1, -1, -1, 0x49, 0x03, 0xCC, 0xFF, -1, 0x41, 0x8B, 0x84],
        );
        proof {
            assert(ptr_sig@ =~= s1_ptr_sig());
        }
        let ptr = {
            let at = match scan_at(img, &ptr_sig, 15) {
                Some(x) => x,
                None => return None,
            };
            match disp_abs(img, at, 0) {
                Some(x) => x,
                None => return None,
            }
        };

        let lea_sig = Pattern::new(vec![0xEB, -1, 0x8B, 0xCF, 0xE8, -1, -1, -1, -1, 0x8B, 0x3D]);
        proof {
            assert(lea_sig@ =~= s1_lea_sig());
        }
        let lea = {
            let s = match scan_at(img, &lea_sig, 1) {
                Some(x) => x,
                None => return None,
            };
            let t = match rel8(img, s) {
                Some(x) => x,
                None => return None,
            };
            match rel32(img, t, 0) {
                Some(x) => x,
                None => return None,
            }
        };

        let level_id = match pointer_path(img, ptr, lea, 488, 39, 0, false) {
            Some(x) => x,
            None => return None,
        };
        let time_bonus = match pointer_path(img, ptr, lea, 0, 0, 0x20F8, false) {
            Some(x) => x,
            None => return None,
        };
        let start_trigger = match pointer_path(img, ptr, lea, 0, 0, 0x24EC, false) {
            Some(x) => x,
            None => return None,
        };
        let demo_mode = match pointer_path(img, ptr, lea, 68, 15, 20, true) {
            Some(x) => x,
            None => return None,
        };
        let game_mode = match pointer_path(img, ptr, lea, 68, 15, 428, true) {
            Some(x) => x,
            None => return None,
        };

        Some(
            Sonic1 {
                level_id,
                time_bonus,
                start_trigger,
                demo_mode,
                game_mode,
                level_watcher: Tracker::new(),
                start_trigger_value: Tracker::new(),
                time_bonus_value: Tracker::new(),
                time_bonus_start_value: 0,
            },
        )
    }

    /// Decode the sampled level-index byte (zero on a failed read) and
    /// track the result.
    pub fn get_current_level(&mut self, raw: Option<u8>) -> (r: LevelID)
        ensures
            r == spec_s1_level_next(old(self).level_watcher, sample_or(raw, 0u8)),
            *final(self) == (Sonic1 {
                level_watcher: pushed(old(self).level_watcher, r),
                ..*old(self)
            }),
    {
        let v = match raw {
            Some(x) => x,
            None => 0u8,
        };
        let mapped = match v {
            0 => Some(LevelID::Sonic1_TitleScreen),
            1 | 2 => Some(LevelID::Sonic1_Ending),
            6 => Some(LevelID::Sonic1_GreenHillAct1),
            7 => Some(LevelID::Sonic1_GreenHillAct2),
            8 => Some(LevelID::Sonic1_GreenHillAct3),
            9 => Some(LevelID::Sonic1_MarbleAct1),
            10 => Some(LevelID::Sonic1_MarbleAct2),
            11 => Some(LevelID::Sonic1_MarbleAct3),
            12 => Some(LevelID::Sonic1_SpringYardAct1),
            13 => Some(LevelID::Sonic1_SpringYardAct2),
            14 => Some(LevelID::Sonic1_SpringYardAct3),
            15 => Some(LevelID::Sonic1_LabyrinthAct1),
            16 => Some(LevelID::Sonic1_LabyrinthAct2),
            17 => Some(LevelID::Sonic1_LabyrinthAct3),
            18 => Some(LevelID::Sonic1_StarLightAct1),
            19 => Some(LevelID::Sonic1_StarLightAct2),
            20 => Some(LevelID::Sonic1_StarLightAct3),
            21 => Some(LevelID::Sonic1_ScrapBrainAct1),
            22 => Some(LevelID::Sonic1_ScrapBrainAct2),
            23 => Some(LevelID::Sonic1_ScrapBrainAct3),
            24 => Some(LevelID::Sonic1_FinalZone),
            _ => None,
        };
        let level = match mapped {
            Some(l) => l,
            None => self.level_watcher.current_or(LevelID::MainMenu),
        };
        self.level_watcher.update(level);
        level
    }

    /// Track the sampled bonus counter and report whether a time bonus is
    /// actively counting.
    pub fn is_in_time_bonus(&mut self, raw: Option<u32>) -> (r: bool)
        ensures
            *final(self) == (Sonic1 {
                time_bonus_value: pushed(old(self).time_bonus_value, sample_or(raw, 0u32)),
                time_bonus_start_value: bonus_baseline_next(
                    pushed(old(self).time_bonus_value, sample_or(raw, 0u32)),
                    old(self).time_bonus_start_value,
                ),
                ..*old(self)
            }),
            r == bonus_active(final(self).time_bonus_value, final(self).time_bonus_start_value),
    {
        bonus_step(&mut self.time_bonus_value, &mut self.time_bonus_start_value, raw)
    }

    /// Track the sampled trigger byte and report the armed-to-fired edge.
    pub fn get_start_trigger(&mut self, raw: Option<u8>) -> (r: bool)
        ensures
            *final(self) == (Sonic1 {
                start_trigger_value: pushed(old(self).start_trigger_value, sample_or(raw, 0u8)),
                ..*old(self)
            }),
            r == edge_from_to(final(self).start_trigger_value, 6u8, 1u8),
    {
        trigger_step(&mut self.start_trigger_value, raw, 6, 1)
    }

    /// The sampled demo/attract flag; a failed read counts as not demo.
    pub fn is_demo_mode(&self, raw: Option<bool>) -> (r: bool)
        ensures
            r == sample_or(raw, false),
    {
        match raw {
            Some(x) => x,
            None => false,
        }
    }

    /// Decode the sampled mode-index byte; a failed read counts as zero.
    pub fn get_game_mode(&self, raw: Option<u8>) -> (r: GameMode)
        ensures
            r == spec_mode_of_index(sample_or(raw, 0u8) as int),
    {
        let v = match raw {
            Some(x) => x,
            None => 0u8,
        };
        mode_of_index(v as i64)
    }
}

/// An unmapped raw level index never regresses the observed level: the
/// previously tracked value is reported again, not a fresh default.
pub proof fn lemma_s1_unmapped_retains(w: Tracker<LevelID>, v: u8)
    requires
        spec_s1_level_of(v) is None,
        w.pair is Some,
    ensures
        w.pair matches Some(p) ==> spec_s1_level_next(w, v) == p.current,
{
}

/// Repeating a raw sample changes nothing: the level reported for a
/// sample, once tracked, is reported again if the same sample arrives on
/// the next tick, so tick-timing jitter cannot alter the level sequence.
pub proof fn lemma_s1_level_stutter(w: Tracker<LevelID>, v: u8)
    ensures
        ({
            let first = spec_s1_level_next(w, v);
            spec_s1_level_next(pushed(w, first), v) == first
        }),
{
}

} // verus!
