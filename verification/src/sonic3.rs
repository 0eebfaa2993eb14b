//! The adapter for the third title.
//!
//! This title keeps two cooperating indices — a logical act index and an
//! apparent act index — that are reconciled into one level identifier,
//! plus a status byte and a hidden-palace flag consulted for one
//! transitional state.  It has no time-bonus or demo concept, and its
//! start edge is the tracked move from the save-select screen into the
//! first act.

use vstd::prelude::*;

use crate::GameMode;
use crate::LevelID;
use crate::image::MemoryImage;
use crate::image::spec_read_u32;
use crate::levels::mode_of_index;
use crate::levels::spec_mode_of_index;
use crate::pattern::Pattern;
use crate::resolve::addr_add_u;
use crate::resolve::disp_abs;
use crate::resolve::rel32;
use crate::resolve::scan_at;
use crate::resolve::spec_addr_add;
use crate::resolve::spec_disp_abs;
use crate::resolve::spec_rel32;
use crate::resolve::spec_scan_at;
use crate::tracker::Tracker;
use crate::tracker::current_or;
use crate::tracker::edge_from_to;
use crate::tracker::pushed;
use crate::tracker::sample_or;

verus! {

/// Signature next to the status byte's store instruction.
pub open spec fn s3_status_sig() -> Seq<i16> {
    seq![0x0Ai16, 0xC1i16, 0x88i16, 0x05i16]
}

/// Signature next to the logical act index's store instruction.
pub open spec fn s3_level_sig() -> Seq<i16> {
    seq![0x66i16, 0x89i16, 0x05i16, -1i16, -1i16, -1i16, -1i16, 0x3Bi16, 0xDFi16]
}

/// Signature next to the apparent act index's store instruction.
pub open spec fn s3_apparent_sig() -> Seq<i16> {
    seq![0x89i16, 0x15i16, -1i16, -1i16, -1i16, -1i16, 0x48i16, 0x8Bi16, 0x87i16]
}

/// Signature next to the hidden-palace flag's compare instruction.
pub open spec fn s3_hpz_sig() -> Seq<i16> {
    seq![0x4Ci16, 0x39i16, 0x35i16, -1i16, -1i16, -1i16, -1i16, 0x74i16, 0x05i16]
}

/// Signature of the mode dispatch the `ptr` anchor is decoded from.
pub open spec fn s3_ptr_sig() -> Seq<i16> {
    seq![0x41i16, 0x83i16, 0xF8i16, 0x05i16, 0x0Fi16, 0x85i16, -1i16, -1i16, -1i16, -1i16,
        0x83i16, 0xF9i16, 0x16i16, 0x0Fi16, 0x87i16, -1i16, -1i16, -1i16, -1i16, 0x48i16,
        0x63i16, 0xC1i16, 0x48i16, 0x8Di16, 0x0Di16]
}

/// The six resolved values this adapter needs: the five addresses it
/// samples and the extra offset applied under the mode pointer, in the
/// order (level, apparent level, status, mode, mode offset, hidden-palace
/// flag).  All-or-nothing.
pub open spec fn spec_s3_resolution(img: MemoryImage) -> Option<(u64, u64, u64, u64, u64, u64)> {
    let status = match spec_scan_at(img, s3_status_sig(), 4) {
        Some(at) => spec_rel32(img, at, 0),
        None => None::<u64>,
    };
    let level = match spec_scan_at(img, s3_level_sig(), 3) {
        Some(at) => spec_rel32(img, at, 0),
        None => None::<u64>,
    };
    let apparent = match spec_scan_at(img, s3_apparent_sig(), 2) {
        Some(at) => spec_rel32(img, at, 0),
        None => None::<u64>,
    };
    let hpz = match spec_scan_at(img, s3_hpz_sig(), 3) {
        Some(at) => spec_rel32(img, at, 0),
        None => None::<u64>,
    };
    let ptr = match spec_scan_at(img, s3_ptr_sig(), 32) {
        Some(at) => spec_disp_abs(img, at, 0),
        None => None::<u64>,
    };
    match (status, level, apparent, hpz, ptr) {
        (Some(st), Some(lv), Some(ap), Some(hp), Some(p)) => match spec_disp_abs(img, p, 3) {
            Some(b_base) => match (spec_rel32(img, b_base, 0), spec_addr_add(b_base, 6)) {
                (Some(gm), Some(off_at)) => match spec_read_u32(img, off_at) {
                    Some(off) => Some((lv, ap, st, gm, off as u64, hp)),
                    None => None,
                },
                _ => None,
            },
            None => None,
        },
        _ => None,
    }
}

/// The level reported this tick, reconciled from the logical act index,
/// the apparent act index, the status byte and the hidden-palace flag.
/// A handful of logical indices decide alone; otherwise the apparent
/// index decides, retaining the previously tracked level for transitional
/// values.
pub open spec fn spec_s3_level_next(
    w: Tracker<LevelID>,
    act: u8,
    apparent: u8,
    zone_status: Option<u8>,
    hpz: Option<u8>,
) -> LevelID {
    let cur = current_or(w, LevelID::Sonic3_AngelIslandAct1);
    if act == 0 {
        LevelID::Sonic3_TitleScreen
    } else if act == 2 {
        LevelID::Sonic3_SaveSelect
    } else if act == 5 {
        LevelID::Sonic3_Ending
    } else if act == 15 {
        LevelID::Sonic3_AngelIslandAct1
    } else {
        match apparent {
            0 => LevelID::Sonic3_AngelIslandAct1,
            1 => LevelID::Sonic3_AngelIslandAct2,
            2 => if act == 17 {
                LevelID::Sonic3_HydrocityAct1
            } else {
                cur
            },
            3 => LevelID::Sonic3_HydrocityAct2,
            4 => LevelID::Sonic3_MarbleGardenAct1,
            5 => LevelID::Sonic3_MarbleGardenAct2,
            6 => LevelID::Sonic3_CarnivalNightAct1,
            7 => LevelID::Sonic3_CarnivalNightAct2,
            8 => LevelID::Sonic3_IceCapAct1,
            9 => LevelID::Sonic3_IceCapAct2,
            10 => LevelID::Sonic3_LaunchBaseAct1,
            11 => LevelID::Sonic3_LaunchBaseAct2,
            12 => LevelID::Sonic3_MushroomHillAct1,
            13 => LevelID::Sonic3_MushroomHillAct2,
            14 => LevelID::Sonic3_FlyingBatteryAct1,
            15 => LevelID::Sonic3_FlyingBatteryAct2,
            16 => LevelID::Sonic3_SandopolisAct1,
            17 => LevelID::Sonic3_SandopolisAct2,
            18 => LevelID::Sonic3_LavaReefAct1,
            19 | 20 => LevelID::Sonic3_LavaReefAct2,
            21 => if zone_status matches Some(s) && s != 2 {
                cur
            } else {
                match hpz {
                    Some(h) => if h == 0 {
                        LevelID::Sonic3_HiddenPalace
                    } else {
                        cur
                    },
                    None => cur,
                }
            },
            22 | 23 => LevelID::Sonic3_SkySanctuary,
            24 => LevelID::Sonic3_DeathEggAct1,
            25 | 26 => LevelID::Sonic3_DeathEggAct2,
            27 => LevelID::Sonic3_Doomsday,
            _ => cur,
        }
    }
}

/// A freshly constructed adapter for this image: every resolved value is
/// in place and no sample has been tracked yet.
pub open spec fn spec_s3_fresh(s: Sonic3, img: MemoryImage) -> bool {
    match spec_s3_resolution(img) {
        Some(t) => s.level_id == t.0 && s.level_id_apparent == t.1 && s.status == t.2
            && s.game_mode == t.3 && s.game_mode_offset == t.4 && s.hpz_flag == t.5
            && s.level_watcher.pair is None,
        None => false,
    }
}

/// Adapter for the third title.
pub struct Sonic3 {
    pub level_id: u64,
    pub level_id_apparent: u64,
    pub status: u64,
    pub game_mode: u64,
    pub game_mode_offset: u64,
    pub hpz_flag: u64,
    pub level_watcher: Tracker<LevelID>,
}

impl Sonic3 {
    /// Resolve every address this adapter needs out of the captured
    /// image.  All-or-nothing: any failed step yields no adapter.
    pub fn new(img: &MemoryImage) -> (r: Option<Sonic3>)
        ensures
            r is Some <==> spec_s3_resolution(*img) is Some,
            r matches Some(s) ==> spec_s3_fresh(s, *img),
    {
        let status_sig = Pattern::new(vec![0x0A, 0xC1, 0x88, 0x05]);
        proof {
            assert(status_sig@ =~= s3_status_sig());
        }
        let status = {
            let at = match scan_at(img, &status_sig, 4) {
                Some(x) => x,
                None => return None,
            };
            match rel32(img, at, 0) {
                Some(x) => x,
                None => return None,
            }
        };

        let level_sig = Pattern::new(vec![0x66, 0x89, 0x05, -1, -1, -1, -1, 0x3B, 0xDF]);
        proof {
            assert(level_sig@ =~= s3_level_sig());
        }
        let level_id = {
            let at = match scan_at(img, &level_sig, 3) {
                Some(x) => x,
                None => return None,
            };
            match rel32(img, at, 0) {
                Some(x) => x,
                None => return None,
            }
        };

        let apparent_sig = Pattern::new(vec![0x89, 0x15, -1, -1, -1, -1, 0x48, 0x8B, 0x87]);
        proof {
            assert(apparent_sig@ =~= s3_apparent_sig());
        }
        let level_id_apparent = {
            let at = match scan_at(img, &apparent_sig, 2) {
                Some(x) => x,
                None => return None,
            };
            match rel32(img, at, 0) {
                Some(x) => x,
                None => return None,
            }
        };

        let hpz_sig = Pattern::new(vec![0x4C, 0x39, 0x35, -1, -1, -1, -1, 0x74, 0x05]);
        proof {
            assert(hpz_sig@ =~= s3_hpz_sig());
        }
        let hpz_flag = {
            let at = match scan_at(img, &hpz_sig, 3) {
                Some(x) => x,
                None => return None,
            };
            match rel32(img, at, 0) {
                Some(x) => x,
                None => return None,
            }
        };

        let ptr_sig = Pattern::new(
            vec![0x41, 0x83, 0xF8, 0x05, 0x0F, 0x85, -1, -1, -1, -1, 0x83, 0xF9, 0x16, 0x0F,
                0x87, -1, -1, -1, -1, 0x48, 0x63, 0xC1, 0x48, 0x8D, 0x0D],
        );
        proof {
            assert(ptr_sig@ =~= s3_ptr_sig());
        }
        let ptr = {
            let at = match scan_at(img, &ptr_sig, 32) {
                Some(x) => x,
                None => return None,
            };
            match disp_abs(img, at, 0) {
                Some(x) => x,
                None => return None,
            }
        };

        let b_base = match disp_abs(img, ptr, 3) {
            Some(x) => x,
            None => return None,
        };
        let game_mode = match rel32(img, b_base, 0) {
            Some(x) => x,
            None => return None,
        };
        let off_at = match addr_add_u(b_base, 6) {
            Some(x) => x,
            None => return None,
        };
        let game_mode_offset = match img.read_u32(off_at) {
            Some(x) => x as u64,
            None => return None,
        };

        Some(
            Sonic3 {
                level_id,
                level_id_apparent,
                status,
                game_mode,
                game_mode_offset,
                hpz_flag,
                level_watcher: Tracker::new(),
            },
        )
    }

    /// Reconcile the sampled indices into one level (failed reads of the
    /// act indices count as zero) and track the result.
    pub fn get_current_level(
        &mut self,
        act: Option<u8>,
        apparent: Option<u8>,
        zone_status: Option<u8>,
        hpz: Option<u8>,
    ) -> (r: LevelID)
        ensures
            r == spec_s3_level_next(
                old(self).level_watcher,
                sample_or(act, 0u8),
                sample_or(apparent, 0u8),
                zone_status,
                hpz,
            ),
            *final(self) == (Sonic3 {
                level_watcher: pushed(old(self).level_watcher, r),
                ..*old(self)
            }),
    {
        let a = match act {
            Some(x) => x,
            None => 0u8,
        };
        let ap = match apparent {
            Some(x) => x,
            None => 0u8,
        };
        let cur = self.level_watcher.current_or(LevelID::Sonic3_AngelIslandAct1);
        let level = if a == 0 {
            LevelID::Sonic3_TitleScreen
        } else if a == 2 {
            LevelID::Sonic3_SaveSelect
        } else if a == 5 {
            LevelID::Sonic3_Ending
        } else if a == 15 {
            LevelID::Sonic3_AngelIslandAct1
        } else {
            match ap {
                0 => LevelID::Sonic3_AngelIslandAct1,
                1 => LevelID::Sonic3_AngelIslandAct2,
                2 => {
                    if a == 17 {
                        LevelID::Sonic3_HydrocityAct1
                    } else {
                        cur
                    }
                },
                3 => LevelID::Sonic3_HydrocityAct2,
                4 => LevelID::Sonic3_MarbleGardenAct1,
                5 => LevelID::Sonic3_MarbleGardenAct2,
                6 => LevelID::Sonic3_CarnivalNightAct1,
                7 => LevelID::Sonic3_CarnivalNightAct2,
                8 => LevelID::Sonic3_IceCapAct1,
                9 => LevelID::Sonic3_IceCapAct2,
                10 => LevelID::Sonic3_LaunchBaseAct1,
                11 => LevelID::Sonic3_LaunchBaseAct2,
                12 => LevelID::Sonic3_MushroomHillAct1,
                13 => LevelID::Sonic3_MushroomHillAct2,
                14 => LevelID::Sonic3_FlyingBatteryAct1,
                15 => LevelID::Sonic3_FlyingBatteryAct2,
                16 => LevelID::Sonic3_SandopolisAct1,
                17 => LevelID::Sonic3_SandopolisAct2,
                18 => LevelID::Sonic3_LavaReefAct1,
                19 | 20 => LevelID::Sonic3_LavaReefAct2,
                21 => {
                    let status_known_other = match zone_status {
                        Some(s) => s != 2,
                        None => false,
                    };
                    if status_known_other {
                        cur
                    } else {
                        match hpz {
                            Some(h) => {
                                if h == 0 {
                                    LevelID::Sonic3_HiddenPalace
                                } else {
                                    cur
                                }
                            },
                            None => cur,
                        }
                    }
                },
                22 | 23 => LevelID::Sonic3_SkySanctuary,
                24 => LevelID::Sonic3_DeathEggAct1,
                25 | 26 => LevelID::Sonic3_DeathEggAct2,
                27 => LevelID::Sonic3_Doomsday,
                _ => cur,
            }
        };
        self.level_watcher.update(level);
        level
    }

    /// This title has no time-bonus sequence; never pauses for loads.
    pub fn is_in_time_bonus(&self) -> (r: bool)
        ensures
            r == false,
    {
        false
    }

    /// The start edge: the tracked level just moved from the save-select
    /// screen into the first act.
    pub fn get_start_trigger(&self) -> (r: bool)
        ensures
            r == edge_from_to(
                self.level_watcher,
                LevelID::Sonic3_SaveSelect,
                LevelID::Sonic3_AngelIslandAct1,
            ),
    {
        match &self.level_watcher.pair {
            Some(p) => p.previous == LevelID::Sonic3_SaveSelect && p.current
                == LevelID::Sonic3_AngelIslandAct1,
            None => false,
        }
    }

    /// This title has no demo/attract mode.
    pub fn is_demo_mode(&self) -> (r: bool)
        ensures
            r == false,
    {
        false
    }

    /// Decode the sampled mode word; a failed read counts as zero.
    pub fn get_game_mode(&self, raw: Option<i32>) -> (r: GameMode)
        ensures
            r == spec_mode_of_index(sample_or(raw, 0i32) as int),
    {
        let v = match raw {
            Some(x) => x,
            None => 0i32,
        };
        mode_of_index(v as i64)
    }
}

/// An apparent act index outside the table never regresses the observed
/// level when no logical index decides: the previously tracked value is
/// reported again, not a fresh default.
pub proof fn lemma_s3_unmapped_retains(
    w: Tracker<LevelID>,
    act: u8,
    apparent: u8,
    zone_status: Option<u8>,
    hpz: Option<u8>,
)
    requires
        w.pair is Some,
        act != 0 && act != 2 && act != 5 && act != 15,
        apparent > 27,
    ensures
        w.pair matches Some(p) ==> spec_s3_level_next(w, act, apparent, zone_status, hpz)
            == p.current,
{
}

/// Repeating a sample changes nothing: the level reported for a sample,
/// once tracked, is reported again if the same sample arrives on the
/// next tick.
pub proof fn lemma_s3_level_stutter(
    w: Tracker<LevelID>,
    act: u8,
    apparent: u8,
    zone_status: Option<u8>,
    hpz: Option<u8>,
)
    ensures
        ({
            let first = spec_s3_level_next(w, act, apparent, zone_status, hpz);
            spec_s3_level_next(pushed(w, first), act, apparent, zone_status, hpz) == first
        }),
{
}

} // verus!
