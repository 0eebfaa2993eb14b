//! Auto-splitter core for the Sonic Origins collection.
//!
//! The library derives a small set of abstract facts from raw byte values
//! sampled out of the game's memory — which title and mode is active, which
//! level is loaded, whether a time-bonus sequence is running, whether a new
//! attempt just started — and turns those facts into timing actions (start,
//! split, pause and resume of game-time accrual).  Everything here is pure
//! logic over plain values: the host that attaches to the process, reads its
//! memory and drives the timer lives outside and feeds samples in.

use vstd::prelude::*;

use crate::image::MemoryImage;
use crate::levels::is_successor;
use crate::levels::mode_splits;
use crate::levels::spec_is_successor;
use crate::levels::spec_mode_of_index;
use crate::levels::spec_mode_splits;
use crate::pattern::Pattern;
use crate::resolve::disp_abs;
use crate::resolve::rel32;
use crate::resolve::scan_at;
use crate::resolve::spec_disp_abs;
use crate::resolve::spec_rel32;
use crate::resolve::spec_scan_at;
use crate::rtti::Rtti;
use crate::settings::Settings;
use crate::sonic1::Sonic1;
use crate::sonic1::spec_s1_fresh;
use crate::sonic1::spec_s1_level_next;
use crate::sonic1::spec_s1_resolution;
use crate::sonic2::Sonic2;
use crate::sonic2::spec_s2_fresh;
use crate::sonic2::spec_s2_level_next;
use crate::sonic2::spec_s2_resolution;
use crate::sonic2::spec_s2_tally_active;
use crate::sonic3::Sonic3;
use crate::sonic3::spec_s3_fresh;
use crate::sonic3::spec_s3_level_next;
use crate::sonic3::spec_s3_resolution;
use crate::soniccd::SonicCD;
use crate::soniccd::spec_cd_fresh;
use crate::soniccd::spec_cd_level_next;
use crate::soniccd::spec_cd_resolution;
use crate::tracker::Tracker;
use crate::tracker::bonus_active;
use crate::tracker::bonus_baseline_next;
use crate::tracker::current_or;
use crate::tracker::edge_from_to;
use crate::tracker::edge_to;
use crate::tracker::pushed;
use crate::tracker::sample_or;

pub mod image;
pub mod levels;
pub mod pattern;
pub mod resolve;
pub mod rtti;
pub mod settings;
pub mod sonic1;
pub mod sonic2;
pub mod sonic3;
pub mod soniccd;
pub mod tracker;

verus! {

/// High-level engine state, recovered from the runtime type name of the
/// active game-mode object.
#[derive(Debug, Clone, Copy, PartialEq, Eq, Structural)]
pub enum GameStatus {
    MainMenu,
    RetroEngine,
    GameGear,
}

/// Which of the four playable titles the retro engine is currently running.
#[derive(Debug, Clone, Copy, PartialEq, Eq, Structural)]
pub enum Game {
    NoGame,
    Sonic1,
    SonicCD,
    Sonic2,
    Sonic3,
}

/// The play mode selected for the current run.
#[derive(Debug, Clone, Copy, PartialEq, Eq, Structural)]
pub enum GameMode {
    Classic,
    Anniversary,
    BossRush,
    Mirror,
    Mission,
    Story,
    BlueSpheresClassic,
    BlueSpheresNew,
}

/// The state of the external timer; the decision engine only requests
/// transitions, it never owns this state.
#[derive(Debug, Clone, Copy, PartialEq, Eq, Structural)]
pub enum TimerState {
    NotRunning,
    Running,
    Paused,
}

/// One flat identifier per (title, zone, act), plus per-title title-screen
/// and ending markers, shared across all four titles.
#[derive(Debug, Clone, Copy, PartialEq, Eq, Structural)]
#[allow(non_camel_case_types)]
pub enum LevelID {
    MainMenu,
    Unknown,
    Sonic1_TitleScreen,
    Sonic1_GreenHillAct1,
    Sonic1_GreenHillAct2,
    Sonic1_GreenHillAct3,
    Sonic1_MarbleAct1,
    Sonic1_MarbleAct2,
    Sonic1_MarbleAct3,
    Sonic1_SpringYardAct1,
    Sonic1_SpringYardAct2,
    Sonic1_SpringYardAct3,
    Sonic1_LabyrinthAct1,
    Sonic1_LabyrinthAct2,
    Sonic1_LabyrinthAct3,
    Sonic1_StarLightAct1,
    Sonic1_StarLightAct2,
    Sonic1_StarLightAct3,
    Sonic1_ScrapBrainAct1,
    Sonic1_ScrapBrainAct2,
    Sonic1_ScrapBrainAct3,
    Sonic1_FinalZone,
    Sonic1_Ending,
    Sonic2_TitleScreen,
    Sonic2_EmeraldHillAct1,
    Sonic2_EmeraldHillAct2,
    Sonic2_ChemicalPlantAct1,
    Sonic2_ChemicalPlantAct2,
    Sonic2_AquaticRuinAct1,
    Sonic2_AquaticRuinAct2,
    Sonic2_CasinoNightAct1,
    Sonic2_CasinoNightAct2,
    Sonic2_HillTopAct1,
    Sonic2_HillTopAct2,
    Sonic2_MysticCaveAct1,
    Sonic2_MysticCaveAct2,
    Sonic2_OilOceanAct1,
    Sonic2_OilOceanAct2,
    Sonic2_MetropolisAct1,
    Sonic2_MetropolisAct2,
    Sonic2_MetropolisAct3,
    Sonic2_SkyChase,
    Sonic2_WingFortress,
    Sonic2_DeathEgg,
    Sonic2_Ending,
    Sonic3_TitleScreen,
    Sonic3_SaveSelect,
    Sonic3_AngelIslandAct1,
    Sonic3_AngelIslandAct2,
    Sonic3_HydrocityAct1,
    Sonic3_HydrocityAct2,
    Sonic3_MarbleGardenAct1,
    Sonic3_MarbleGardenAct2,
    Sonic3_CarnivalNightAct1,
    Sonic3_CarnivalNightAct2,
    Sonic3_IceCapAct1,
    Sonic3_IceCapAct2,
    Sonic3_LaunchBaseAct1,
    Sonic3_LaunchBaseAct2,
    Sonic3_MushroomHillAct1,
    Sonic3_MushroomHillAct2,
    Sonic3_FlyingBatteryAct1,
    Sonic3_FlyingBatteryAct2,
    Sonic3_SandopolisAct1,
    Sonic3_SandopolisAct2,
    Sonic3_LavaReefAct1,
    Sonic3_LavaReefAct2,
    Sonic3_HiddenPalace,
    Sonic3_SkySanctuary,
    Sonic3_DeathEggAct1,
    Sonic3_DeathEggAct2,
    Sonic3_Doomsday,
    Sonic3_Ending,
    SonicCD_TitleScreen,
    SonicCD_PalmtreePanicAct1,
    SonicCD_PalmtreePanicAct2,
    SonicCD_PalmtreePanicAct3,
    SonicCD_CollisionChaosAct1,
    SonicCD_CollisionChaosAct2,
    SonicCD_CollisionChaosAct3,
    SonicCD_TidalTempestAct1,
    SonicCD_TidalTempestAct2,
    SonicCD_TidalTempestAct3,
    SonicCD_QuartzQuadrantAct1,
    SonicCD_QuartzQuadrantAct2,
    SonicCD_QuartzQuadrantAct3,
    SonicCD_WackyWorkbenchAct1,
    SonicCD_WackyWorkbenchAct2,
    SonicCD_WackyWorkbenchAct3,
    SonicCD_StardustSpeedwayAct1,
    SonicCD_StardustSpeedwayAct2,
    SonicCD_StardustSpeedwayAct3,
    SonicCD_MetallicMadnessAct1,
    SonicCD_MetallicMadnessAct2,
    SonicCD_MetallicMadnessAct3,
    SonicCD_Ending,
}

/// The raw values sampled for the first title this tick; `None` marks a
/// failed read.
#[derive(Debug, Clone, Copy)]
pub struct Sonic1Sample {
    pub level: Option<u8>,
    pub time_bonus: Option<u32>,
    pub start_trigger: Option<u8>,
    pub demo: Option<bool>,
    pub mode: Option<u8>,
}

/// The raw values sampled for the second title this tick.
#[derive(Debug, Clone, Copy)]
pub struct Sonic2Sample {
    pub level: Option<u8>,
    pub time_bonus: Option<u32>,
    pub start_trigger: Option<u8>,
    pub demo: Option<bool>,
    pub mode: Option<u8>,
    pub score_tally: Option<u8>,
    pub continue_bonus: Option<u8>,
}

/// The raw values sampled for the third title this tick.
#[derive(Debug, Clone, Copy)]
pub struct Sonic3Sample {
    pub act: Option<u8>,
    pub apparent: Option<u8>,
    pub zone_status: Option<u8>,
    pub hpz: Option<u8>,
    pub mode: Option<i32>,
}

/// The raw values sampled for the CD title this tick.
#[derive(Debug, Clone, Copy)]
pub struct SonicCDSample {
    pub level: Option<u8>,
    pub time_bonus: Option<u32>,
    pub start_trigger: Option<u8>,
    pub demo: Option<bool>,
    pub mode: Option<u8>,
    pub time_travel: Option<u32>,
}

/// What the host sampled this tick: the raw values for the active title,
/// or nothing when no title is active.
#[derive(Debug, Clone, Copy)]
pub enum TickSample {
    NoTitle,
    ForSonic1(Sonic1Sample),
    ForSonic2(Sonic2Sample),
    ForSonic3(Sonic3Sample),
    ForSonicCD(SonicCDSample),
}

/// One initialized adapter per title.  Constructed all-or-nothing: if any
/// title's resolution fails, no adapter for any title becomes available.
pub struct Managers {
    pub sonic_1: Sonic1,
    pub sonic_2: Sonic2,
    pub sonic_cd: SonicCD,
    pub sonic_3: Sonic3,
}

impl Managers {
    /// Resolve all four title adapters out of the captured image.
    pub fn new(img: &MemoryImage) -> (r: Option<Managers>)
        ensures
            r is Some <==> (spec_s1_resolution(*img) is Some && spec_s2_resolution(*img) is Some
                && spec_cd_resolution(*img) is Some && spec_s3_resolution(*img) is Some),
            r matches Some(m) ==> spec_s1_fresh(m.sonic_1, *img) && spec_s2_fresh(m.sonic_2, *img)
                && spec_cd_fresh(m.sonic_cd, *img) && spec_s3_fresh(m.sonic_3, *img),
    {
        let sonic_1 = match Sonic1::new(img) {
            Some(x) => x,
            None => return None,
        };
        let sonic_2 = match Sonic2::new(img) {
            Some(x) => x,
            None => return None,
        };
        let sonic_cd = match SonicCD::new(img) {
            Some(x) => x,
            None => return None,
        };
        let sonic_3 = match Sonic3::new(img) {
            Some(x) => x,
            None => return None,
        };
        Some(Managers { sonic_1, sonic_2, sonic_cd, sonic_3 })
    }
}

/// All per-tick tracked state: one tracker per derived fact, plus the
/// standing story-run armable flag.
pub struct Watchers {
    pub game_status: Tracker<GameStatus>,
    pub game: Tracker<Game>,
    pub game_mode: Tracker<GameMode>,
    pub act_id: Tracker<LevelID>,
    pub start_trigger: Tracker<bool>,
    pub is_in_time_bonus: Tracker<bool>,
    pub demo_mode: Tracker<bool>,
    pub story_start_flag: bool,
}

/// The engine status after this tick: a fresh classification wins; a
/// failed lookup keeps the previous one (main menu before any sample).
pub open spec fn spec_next_status(t: Tracker<GameStatus>, s: Option<GameStatus>) -> GameStatus {
    match s {
        Some(x) => x,
        None => current_or(t, GameStatus::MainMenu),
    }
}

/// The active title after this tick: in the retro engine the selector
/// byte picks it, an unmapped byte keeping the previous title; outside
/// the retro engine no title is active.
pub open spec fn spec_next_game(t: Tracker<Game>, status: GameStatus, raw: u8) -> Game {
    match status {
        GameStatus::RetroEngine => if raw == 0 {
            Game::Sonic1
        } else if raw == 1 {
            Game::Sonic2
        } else if raw == 2 {
            Game::Sonic3
        } else if raw == 3 {
            Game::SonicCD
        } else {
            current_or(t, Game::Sonic1)
        },
        _ => Game::NoGame,
    }
}

/// One tick of the first title's adapter: the new adapter state and the
/// (mode, level, start edge, bonus, demo) facts it reports.
pub open spec fn spec_s1_tick(m: Sonic1, s: Sonic1Sample) -> (Sonic1, GameMode, LevelID, bool, bool, bool) {
    let mode_v = spec_mode_of_index(sample_or(s.mode, 0u8) as int);
    let level_v = spec_s1_level_next(m.level_watcher, sample_or(s.level, 0u8));
    let tt = pushed(m.start_trigger_value, sample_or(s.start_trigger, 0u8));
    let trig_v = edge_from_to(tt, 6u8, 1u8);
    let bt = pushed(m.time_bonus_value, sample_or(s.time_bonus, 0u32));
    let nb = bonus_baseline_next(bt, m.time_bonus_start_value);
    let bonus_v = bonus_active(bt, nb);
    let demo_v = sample_or(s.demo, false);
    let m2 = Sonic1 {
        level_watcher: pushed(m.level_watcher, level_v),
        start_trigger_value: tt,
        time_bonus_value: bt,
        time_bonus_start_value: nb,
        ..m
    };
    (m2, mode_v, level_v, trig_v, bonus_v, demo_v)
}

/// One tick of the second title's adapter.
pub open spec fn spec_s2_tick(m: Sonic2, s: Sonic2Sample) -> (Sonic2, GameMode, LevelID, bool, bool, bool) {
    let mode_v = spec_mode_of_index(sample_or(s.mode, 0u8) as int);
    let level_v = spec_s2_level_next(m.level_watcher, sample_or(s.level, 0u8));
    let tt = pushed(m.start_trigger_value, sample_or(s.start_trigger, 0u8));
    let trig_v = edge_from_to(tt, 8u8, 9u8);
    let bt = pushed(m.time_bonus_value, sample_or(s.time_bonus, 0u32));
    let nb = bonus_baseline_next(bt, m.time_bonus_start_value);
    let bonus_v = bonus_active(bt, nb) || spec_s2_tally_active(s.score_tally, s.continue_bonus);
    let demo_v = sample_or(s.demo, false);
    let m2 = Sonic2 {
        level_watcher: pushed(m.level_watcher, level_v),
        start_trigger_value: tt,
        time_bonus_value: bt,
        time_bonus_start_value: nb,
        ..m
    };
    (m2, mode_v, level_v, trig_v, bonus_v, demo_v)
}

/// One tick of the third title's adapter.  Its start edge is read off the
/// level tracker after the level update; it reports no bonus and no demo.
pub open spec fn spec_s3_tick(m: Sonic3, s: Sonic3Sample) -> (Sonic3, GameMode, LevelID, bool, bool, bool) {
    let mode_v = spec_mode_of_index(sample_or(s.mode, 0i32) as int);
    let level_v = spec_s3_level_next(
        m.level_watcher,
        sample_or(s.act, 0u8),
        sample_or(s.apparent, 0u8),
        s.zone_status,
        s.hpz,
    );
    let lw = pushed(m.level_watcher, level_v);
    let trig_v = edge_from_to(lw, LevelID::Sonic3_SaveSelect, LevelID::Sonic3_AngelIslandAct1);
    let m2 = Sonic3 { level_watcher: lw, ..m };
    (m2, mode_v, level_v, trig_v, false, false)
}

/// One tick of the CD title's adapter.
pub open spec fn spec_cd_tick(m: SonicCD, s: SonicCDSample) -> (SonicCD, GameMode, LevelID, bool, bool, bool) {
    let mode_v = spec_mode_of_index(sample_or(s.mode, 0u8) as int);
    let level_v = spec_cd_level_next(m.level_watcher, sample_or(s.level, 0u8));
    let tt = pushed(m.start_trigger_value, sample_or(s.start_trigger, 0u8));
    let trig_v = edge_from_to(tt, 11u8, 2u8);
    let bt = pushed(m.time_bonus_value, sample_or(s.time_bonus, 0u32));
    let nb = bonus_baseline_next(bt, m.time_bonus_start_value);
    let bonus_v = bonus_active(bt, nb) || sample_or(s.time_travel, 0u32) != 0;
    let demo_v = sample_or(s.demo, false);
    let m2 = SonicCD {
        level_watcher: pushed(m.level_watcher, level_v),
        start_trigger_value: tt,
        time_bonus_value: bt,
        time_bonus_start_value: nb,
        ..m
    };
    (m2, mode_v, level_v, trig_v, bonus_v, demo_v)
}

/// The watcher state after the title facts of one tick have been pushed:
/// each fact lands in its tracker, and observing the main menu arms the
/// story-run flag (nothing else clears it here).
pub open spec fn spec_watchers_tick(
    w: Watchers,
    mo: GameMode,
    lv: LevelID,
    tr: bool,
    bo: bool,
    de: bool,
) -> Watchers {
    Watchers {
        game_mode: pushed(w.game_mode, mo),
        act_id: pushed(w.act_id, lv),
        start_trigger: pushed(w.start_trigger, tr),
        is_in_time_bonus: pushed(w.is_in_time_bonus, bo),
        demo_mode: pushed(w.demo_mode, de),
        story_start_flag: w.story_start_flag || lv == LevelID::MainMenu,
        ..w
    }
}

impl Watchers {
    /// Trackers that have seen no sample, story flag unarmed.
    pub fn new() -> (r: Watchers)
        ensures
            r.game_status.pair is None,
            r.game.pair is None,
            r.game_mode.pair is None,
            r.act_id.pair is None,
            r.start_trigger.pair is None,
            r.is_in_time_bonus.pair is None,
            r.demo_mode.pair is None,
            !r.story_start_flag,
    {
        Watchers {
            game_status: Tracker::new(),
            game: Tracker::new(),
            game_mode: Tracker::new(),
            act_id: Tracker::new(),
            start_trigger: Tracker::new(),
            is_in_time_bonus: Tracker::new(),
            demo_mode: Tracker::new(),
            story_start_flag: false,
        }
    }

    /// First phase of a tick: refresh the engine status from the
    /// type-name classification and derive the active title from the
    /// selector byte.  Returns the title whose addresses the host should
    /// sample for the second phase.
    pub fn update_status(&mut self, status_sample: Option<GameStatus>, rsdk_game: Option<u8>) -> (g:
        Game)
        ensures
            ({
                let st = spec_next_status(old(self).game_status, status_sample);
                let gm = spec_next_game(old(self).game, st, sample_or(rsdk_game, 0u8));
                &&& *final(self) == (Watchers {
                    game_status: pushed(old(self).game_status, st),
                    game: pushed(old(self).game, gm),
                    ..*old(self)
                })
                &&& g == gm
            }),
    {
        let st = match status_sample {
            Some(x) => x,
            None => self.game_status.current_or(GameStatus::MainMenu),
        };
        self.game_status.update(st);
        let raw = match rsdk_game {
            Some(x) => x,
            None => 0u8,
        };
        let g = match st {
            GameStatus::RetroEngine => {
                if raw == 0 {
                    Game::Sonic1
                } else if raw == 1 {
                    Game::Sonic2
                } else if raw == 2 {
                    Game::Sonic3
                } else if raw == 3 {
                    Game::SonicCD
                } else {
                    self.game.current_or(Game::Sonic1)
                }
            },
            _ => Game::NoGame,
        };
        self.game.update(g);
        g
    }

    /// Second phase of a tick: run the active title's adapter over the
    /// sampled raw values (or the documented defaults when no title is
    /// active) and push every derived fact into its tracker.
    pub fn update_title(&mut self, managers: &mut Managers, sample: &TickSample)
        ensures
            match *sample {
                TickSample::NoTitle => *final(self) == spec_watchers_tick(
                    *old(self),
                    GameMode::Classic,
                    LevelID::MainMenu,
                    false,
                    false,
                    false,
                ) && *final(managers) == *old(managers),
                TickSample::ForSonic1(s) => ({
                    let (m2, mo, lv, tr, bo, de) = spec_s1_tick(old(managers).sonic_1, s);
                    &&& *final(managers) == (Managers { sonic_1: m2, ..*old(managers) })
                    &&& *final(self) == spec_watchers_tick(*old(self), mo, lv, tr, bo, de)
                }),
                TickSample::ForSonic2(s) => ({
                    let (m2, mo, lv, tr, bo, de) = spec_s2_tick(old(managers).sonic_2, s);
                    &&& *final(managers) == (Managers { sonic_2: m2, ..*old(managers) })
                    &&& *final(self) == spec_watchers_tick(*old(self), mo, lv, tr, bo, de)
                }),
                TickSample::ForSonic3(s) => ({
                    let (m2, mo, lv, tr, bo, de) = spec_s3_tick(old(managers).sonic_3, s);
                    &&& *final(managers) == (Managers { sonic_3: m2, ..*old(managers) })
                    &&& *final(self) == spec_watchers_tick(*old(self), mo, lv, tr, bo, de)
                }),
                TickSample::ForSonicCD(s) => ({
                    let (m2, mo, lv, tr, bo, de) = spec_cd_tick(old(managers).sonic_cd, s);
                    &&& *final(managers) == (Managers { sonic_cd: m2, ..*old(managers) })
                    &&& *final(self) == spec_watchers_tick(*old(self), mo, lv, tr, bo, de)
                }),
            },
    {
        match sample {
            TickSample::NoTitle => {
                self.game_mode.update(GameMode::Classic);
                self.act_id.update(LevelID::MainMenu);
                self.start_trigger.update(false);
                self.is_in_time_bonus.update(false);
                self.demo_mode.update(false);
                self.story_start_flag = true;
            },
            TickSample::ForSonic1(s) => {
                let mode = managers.sonic_1.get_game_mode(s.mode);
                let level = managers.sonic_1.get_current_level(s.level);
                let trig = managers.sonic_1.get_start_trigger(s.start_trigger);
                let bonus = managers.sonic_1.is_in_time_bonus(s.time_bonus);
                let demo = managers.sonic_1.is_demo_mode(s.demo);
                self.game_mode.update(mode);
                self.act_id.update(level);
                self.start_trigger.update(trig);
                self.is_in_time_bonus.update(bonus);
                self.demo_mode.update(demo);
                if level == LevelID::MainMenu {
                    self.story_start_flag = true;
                }
            },
            TickSample::ForSonic2(s) => {
                let mode = managers.sonic_2.get_game_mode(s.mode);
                let level = managers.sonic_2.get_current_level(s.level);
                let trig = managers.sonic_2.get_start_trigger(s.start_trigger);
                let bonus = managers.sonic_2.is_in_time_bonus(
                    s.time_bonus,
                    s.score_tally,
                    s.continue_bonus,
                );
                let demo = managers.sonic_2.is_demo_mode(s.demo);
                self.game_mode.update(mode);
                self.act_id.update(level);
                self.start_trigger.update(trig);
                self.is_in_time_bonus.update(bonus);
                self.demo_mode.update(demo);
                if level == LevelID::MainMenu {
                    self.story_start_flag = true;
                }
            },
            TickSample::ForSonic3(s) => {
                let mode = managers.sonic_3.get_game_mode(s.mode);
                let level = managers.sonic_3.get_current_level(
                    s.act,
                    s.apparent,
                    s.zone_status,
                    s.hpz,
                );
                let trig = managers.sonic_3.get_start_trigger();
                let bonus = managers.sonic_3.is_in_time_bonus();
                let demo = managers.sonic_3.is_demo_mode();
                self.game_mode.update(mode);
                self.act_id.update(level);
                self.start_trigger.update(trig);
                self.is_in_time_bonus.update(bonus);
                self.demo_mode.update(demo);
                if level == LevelID::MainMenu {
                    self.story_start_flag = true;
                }
            },
            TickSample::ForSonicCD(s) => {
                let mode = managers.sonic_cd.get_game_mode(s.mode);
                let level = managers.sonic_cd.get_current_level(s.level);
                let trig = managers.sonic_cd.get_start_trigger(s.start_trigger);
                let bonus = managers.sonic_cd.is_in_time_bonus(s.time_bonus, s.time_travel);
                let demo = managers.sonic_cd.is_demo_mode(s.demo);
                self.game_mode.update(mode);
                self.act_id.update(level);
                self.start_trigger.update(trig);
                self.is_in_time_bonus.update(bonus);
                self.demo_mode.update(demo);
                if level == LevelID::MainMenu {
                    self.story_start_flag = true;
                }
            },
        }
    }
}

/// Signature of the call whose displacement chain reaches the engine
/// object's base slot.
pub open spec fn hedgehog_sig() -> Seq<i16> {
    seq![0xE8i16, -1i16, -1i16, -1i16, -1i16, 0x44i16, 0x39i16, 0x75i16, 0x48i16]
}

/// Signature of the stores around the active-title selector byte.
pub open spec fn rsdk_sig() -> Seq<i16> {
    seq![0x89i16, 0x0Di16, -1i16, -1i16, -1i16, -1i16, 0x89i16, 0x15i16, -1i16, -1i16, -1i16,
        -1i16, 0xC7i16, 0x05i16]
}

/// The engine object's base slot: two chained relative displacements past
/// the call signature.
pub open spec fn spec_hedgehog_base(img: MemoryImage) -> Option<u64> {
    match spec_scan_at(img, hedgehog_sig(), 1) {
        Some(p) => match spec_rel32(img, p, 3) {
            Some(t) => spec_rel32(img, t, 0),
            None => None,
        },
        None => None,
    }
}

/// The active-title selector byte's address: one relative displacement
/// past the store signature.
pub open spec fn spec_current_rsdk_game(img: MemoryImage) -> Option<u64> {
    match spec_scan_at(img, rsdk_sig(), 2) {
        Some(p) => spec_rel32(img, p, 0),
        None => None,
    }
}

/// What the loading-pause rule requests: pause game-time accrual while a
/// time bonus runs, resume otherwise; no request before the first sample.
pub open spec fn spec_is_loading(w: Watchers) -> Option<bool> {
    match w.is_in_time_bonus.pair {
        Some(p) => Some(p.current),
        None => None,
    }
}

/// Whether this tick's state asks for a split: not in a demo, in one of
/// the four splitting modes, the enable flag for the level being left (in
/// its mode bucket) on, and the current level a legal successor of the
/// previous one.
pub open spec fn spec_split(w: Watchers, settings: Settings) -> bool {
    &&& !(w.demo_mode.pair matches Some(d) && d.current)
    &&& w.game_mode.pair matches Some(gm)
    &&& w.act_id.pair matches Some(lv)
    &&& spec_mode_splits(gm.current)
    &&& settings.spec_split_enabled(lv.previous, gm.current == GameMode::Story)
    &&& spec_is_successor(lv.previous, lv.current)
}

/// Whether the start rule may fire at all: the title, mode and trigger
/// trackers have all seen a sample.
pub open spec fn spec_start_guards(w: Watchers) -> bool {
    w.game.pair is Some && w.game_mode.pair is Some && w.start_trigger.pair is Some
}

/// The story auto-start conditions: the armable flag stands, the current
/// level is the first act of the first title, and the mode is story.
pub open spec fn spec_story_conditions(w: Watchers) -> bool {
    &&& w.story_start_flag
    &&& w.act_id.pair matches Some(p) && p.current == LevelID::Sonic1_GreenHillAct1
    &&& w.game_mode.pair matches Some(g) && g.current == GameMode::Story
}

/// The modes in which a manual start is honoured.
pub open spec fn spec_manual_mode(m: GameMode) -> bool {
    m == GameMode::Classic || m == GameMode::Anniversary || m == GameMode::Mirror
}

/// The per-title manual start conditions: that title active, a manual
/// mode, and the start trigger just pulsed.
pub open spec fn spec_title_start(w: Watchers, g: Game) -> bool {
    &&& w.game.pair matches Some(p) && p.current == g
    &&& w.game_mode.pair matches Some(q) && spec_manual_mode(q.current)
    &&& edge_to(w.start_trigger, true)
}

/// What the start rule returns, first match winning: the story auto-start
/// (gated by its enable), then each title's manual start (gated by that
/// title's enable).
pub open spec fn spec_start_result(w: Watchers, s: Settings) -> bool {
    if !spec_start_guards(w) {
        false
    } else if spec_story_conditions(w) {
        s.story_start
    } else if spec_title_start(w, Game::Sonic1) {
        s.s1_start
    } else if spec_title_start(w, Game::SonicCD) {
        s.scd_start
    } else if spec_title_start(w, Game::Sonic2) {
        s.s2_start
    } else if spec_title_start(w, Game::Sonic3) {
        s.s3_start
    } else {
        false
    }
}

/// The loading-pause rule: pause game time while a time bonus runs,
/// resume otherwise; nothing before the first sample.
pub fn is_loading(watchers: &Watchers, _settings: &Settings) -> (r: Option<bool>)
    ensures
        r == spec_is_loading(*watchers),
{
    match &watchers.is_in_time_bonus.pair {
        Some(p) => Some(p.current),
        None => None,
    }
}

/// The elapsed-time override: reserved, never set in this core.
pub fn game_time(_watchers: &Watchers, _settings: &Settings, _addresses: &Addresses) -> (r: Option<
    i64,
>)
    ensures
        r is None,
{
    None
}

/// The reset rule: reserved, never fires in this core.
pub fn reset(_watchers: &Watchers, _settings: &Settings) -> (r: bool)
    ensures
        r == false,
{
    false
}

/// The split rule.
pub fn split(watchers: &Watchers, settings: &Settings) -> (r: bool)
    requires
        settings.wf(),
    ensures
        r == spec_split(*watchers, *settings),
{
    let demo = match &watchers.demo_mode.pair {
        Some(d) => d.current,
        None => false,
    };
    if demo {
        return false;
    }
    let gm = match &watchers.game_mode.pair {
        Some(p) => p,
        None => return false,
    };
    let lv = match &watchers.act_id.pair {
        Some(p) => p,
        None => return false,
    };
    if !mode_splits(gm.current) {
        return false;
    }
    let enabled = settings.split_enabled(lv.previous, gm.current == GameMode::Story);
    enabled && is_successor(lv.previous, lv.current)
}

/// The start rule.  The story auto-start consumes the armable flag when
/// its conditions hold (whether or not its enable lets the start
/// through); the per-title manual starts leave the flag alone.
pub fn start(watchers: &mut Watchers, settings: &Settings) -> (r: bool)
    ensures
        r == spec_start_result(*old(watchers), *settings),
        *final(watchers) == (Watchers {
            story_start_flag: old(watchers).story_start_flag && !(spec_start_guards(*old(watchers))
                && spec_story_conditions(*old(watchers))),
            ..*old(watchers)
        }),
{
    let game = match &watchers.game.pair {
        Some(p) => p.current,
        None => return false,
    };
    let game_mode = match &watchers.game_mode.pair {
        Some(p) => p.current,
        None => return false,
    };
    let (trig_prev, trig_cur) = match &watchers.start_trigger.pair {
        Some(p) => (p.previous, p.current),
        None => return false,
    };
    let at_first_act = match &watchers.act_id.pair {
        Some(p) => p.current == LevelID::Sonic1_GreenHillAct1,
        None => false,
    };
    if watchers.story_start_flag && at_first_act && game_mode == GameMode::Story {
        watchers.story_start_flag = false;
        return settings.story_start;
    }
    let manual = game_mode == GameMode::Classic || game_mode == GameMode::Anniversary || game_mode
        == GameMode::Mirror;
    let edge = !trig_prev && trig_cur;
    if game == Game::Sonic1 && manual && edge {
        return settings.s1_start;
    }
    if game == Game::SonicCD && manual && edge {
        return settings.scd_start;
    }
    if game == Game::Sonic2 && manual && edge {
        return settings.s2_start;
    }
    if game == Game::Sonic3 && manual && edge {
        return settings.s3_start;
    }
    false
}

/// The timing actions one tick requests of the external timer.
#[derive(Debug, Clone, Copy)]
pub struct TickActions {
    /// While the timer runs: pause game-time accrual (`Some(true)`),
    /// resume it (`Some(false)`), or leave it (`None`).
    pub set_loading: Option<bool>,
    /// The elapsed-time override; always absent in this core.
    pub game_time: Option<i64>,
    /// Request a reset; never set in this core.
    pub reset: bool,
    /// Request a split.
    pub split: bool,
    /// Request a start.  The host pauses game time on the fresh run and
    /// then applies `start_loading`.
    pub start: bool,
    /// The loading-pause rule re-evaluated once right after a start, so a
    /// freshly started run does not begin mid-load.
    pub start_loading: Option<bool>,
}

/// One tick of the decision engine, keyed on the external timer's state.
/// While the timer is running or paused the loading-pause, override,
/// reset and split rules are evaluated in that order (a reset would
/// suppress the split); while it is not running, the start rule alone.
pub fn evaluate_tick(watchers: &mut Watchers, settings: &Settings, timer_state: TimerState) -> (r:
    TickActions)
    requires
        settings.wf(),
    ensures
        timer_state == TimerState::Running || timer_state == TimerState::Paused ==> ({
            &&& r.set_loading == spec_is_loading(*old(watchers))
            &&& r.game_time is None
            &&& r.reset == false
            &&& r.split == spec_split(*old(watchers), *settings)
            &&& r.start == false
            &&& r.start_loading is None
            &&& *final(watchers) == *old(watchers)
        }),
        timer_state == TimerState::NotRunning ==> ({
            &&& r.set_loading is None
            &&& r.game_time is None
            &&& r.reset == false
            &&& r.split == false
            &&& r.start == spec_start_result(*old(watchers), *settings)
            &&& r.start_loading == (if r.start {
                spec_is_loading(*old(watchers))
            } else {
                None::<bool>
            })
            &&& *final(watchers) == (Watchers {
                story_start_flag: old(watchers).story_start_flag && !(spec_start_guards(
                    *old(watchers),
                ) && spec_story_conditions(*old(watchers))),
                ..*old(watchers)
            })
        }),
{
    match timer_state {
        TimerState::Running | TimerState::Paused => {
            let load = is_loading(watchers, settings);
            let gt = game_time_none();
            let rst = reset(watchers, settings);
            let sp = if rst {
                false
            } else {
                split(watchers, settings)
            };
            TickActions {
                set_loading: load,
                game_time: gt,
                reset: rst,
                split: sp,
                start: false,
                start_loading: None,
            }
        },
        TimerState::NotRunning => {
            let st = start(watchers, settings);
            let load = if st {
                is_loading(watchers, settings)
            } else {
                None
            };
            TickActions {
                set_loading: None,
                game_time: None,
                reset: false,
                split: false,
                start: st,
                start_loading: load,
            }
        },
    }
}

/// The story auto-start fires at most once per menu visit, first half:
/// the start that consumes the armable flag leaves a state in which the
/// story conditions no longer hold, so an immediate re-evaluation cannot
/// fire the story rule again.
pub proof fn lemma_story_start_consumes_flag(w: Watchers)
    requires
        spec_start_guards(w),
        spec_story_conditions(w),
    ensures
        !spec_story_conditions(Watchers { story_start_flag: false, ..w }),
{
}

/// The story auto-start fires at most once per menu visit, second half:
/// ticks that do not observe the main-menu level keep the armable flag
/// down, so without a fresh menu visit the story rule stays disarmed.
pub proof fn lemma_tick_keeps_flag_down(
    w: Watchers,
    mo: GameMode,
    lv: LevelID,
    tr: bool,
    bo: bool,
    de: bool,
)
    requires
        !w.story_start_flag,
        lv != LevelID::MainMenu,
    ensures
        !spec_watchers_tick(w, mo, lv, tr, bo, de).story_start_flag,
        !spec_story_conditions(spec_watchers_tick(w, mo, lv, tr, bo, de)),
{
}

/// The elapsed-time override without a bundle at hand; always absent.
fn game_time_none() -> (r: Option<i64>)
    ensures
        r is None,
{
    None
}

/// The per-attach bundle: the two engine-level addresses, one adapter per
/// title, and the type-name walker.  Never partially constructed.
pub struct Addresses {
    pub hedgehog_base: u64,
    pub current_rsdk_game: u64,
    pub managers: Managers,
    pub rtti: Rtti,
}

impl Addresses {
    /// Run the whole resolution pass against the captured image.
    /// All-or-nothing: if any one step for any title fails, no bundle —
    /// and so no adapter for any title — becomes available.
    pub fn init(img: &MemoryImage) -> (r: Option<Addresses>)
        ensures
            r is Some <==> (spec_hedgehog_base(*img) is Some && spec_current_rsdk_game(*img)
                is Some && spec_s1_resolution(*img) is Some && spec_s2_resolution(*img) is Some
                && spec_cd_resolution(*img) is Some && spec_s3_resolution(*img) is Some),
            r matches Some(a) ==> Some(a.hedgehog_base) == spec_hedgehog_base(*img)
                && Some(a.current_rsdk_game) == spec_current_rsdk_game(*img)
                && spec_s1_fresh(a.managers.sonic_1, *img) && spec_s2_fresh(a.managers.sonic_2, *img)
                && spec_cd_fresh(a.managers.sonic_cd, *img) && spec_s3_fresh(a.managers.sonic_3, *img)
                && a.rtti.base_address == img.base,
    {
        let hh_sig = Pattern::new(vec![0xE8, -1, -1, -1, -1, 0x44, 0x39, 0x75, 0x48]);
        proof {
            assert(hh_sig@ =~= hedgehog_sig());
        }
        let hedgehog_base = {
            let p = match scan_at(img, &hh_sig, 1) {
                Some(x) => x,
                None => return None,
            };
            let t = match rel32(img, p, 3) {
                Some(x) => x,
                None => return None,
            };
            match rel32(img, t, 0) {
                Some(x) => x,
                None => return None,
            }
        };

        let sel_sig = Pattern::new(
            vec![0x89, 0x0D, -1, -1, -1, -1, 0x89, 0x15, -1, -1, -1, -1, 0xC7, 0x05],
        );
        proof {
            assert(sel_sig@ =~= rsdk_sig());
        }
        let current_rsdk_game = {
            let p = match scan_at(img, &sel_sig, 2) {
                Some(x) => x,
                None => return None,
            };
            match rel32(img, p, 0) {
                Some(x) => x,
                None => return None,
            }
        };

        let managers = match Managers::new(img) {
            Some(x) => x,
            None => return None,
        };

        Some(
            Addresses {
                hedgehog_base,
                current_rsdk_game,
                managers,
                rtti: Rtti::new(img.base),
            },
        )
    }
}

} // verus!
