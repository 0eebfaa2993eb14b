use origins_splitter::Game;
use origins_splitter::GameMode;
use origins_splitter::GameStatus;
use origins_splitter::LevelID;
use origins_splitter::Managers;
use origins_splitter::Sonic1Sample;
use origins_splitter::Sonic3Sample;
use origins_splitter::TickSample;
use origins_splitter::Watchers;
use origins_splitter::image::MemoryImage;

fn place(bytes: &mut Vec<u8>, at: usize, sig: &[u8]) {
    bytes[at..at + sig.len()].copy_from_slice(sig);
}

/// An image from which all four adapters resolve.
fn managers() -> Managers {
    let mut bytes = vec![0u8; 4096];
    place(&mut bytes, 100, &[
        0x3D, 0xF9, 0x00, 0x00, 0x00, 0x0F, 0x87, 0, 0, 0, 0, 0x41, 0x8B, 0x8C, 0x84, 0, 0, 0,
        0, 0x49, 0x03, 0xCC, 0xFF, 0, 0x41, 0x8B, 0x84,
    ]);
    place(&mut bytes, 200, &[0xEB, 0, 0x8B, 0xCF, 0xE8, 0, 0, 0, 0, 0x8B, 0x3D]);
    place(&mut bytes, 300, &[
        0x3D, 0xE4, 0x00, 0x00, 0x00, 0x0F, 0x87, 0, 0, 0, 0, 0x41, 0x8B, 0x8C, 0x84, 0, 0, 0,
        0, 0x49, 0x03, 0xCC, 0xFF, 0, 0x41, 0x8B, 0x84,
    ]);
    place(&mut bytes, 400, &[0xEB, 0, 0x45, 0x33, 0xFF, 0x45, 0x85, 0xD2]);
    place(&mut bytes, 500, &[0x0A, 0xC1, 0x88, 0x05]);
    place(&mut bytes, 600, &[0x66, 0x89, 0x05, 0, 0, 0, 0, 0x3B, 0xDF]);
    place(&mut bytes, 700, &[0x89, 0x15, 0, 0, 0, 0, 0x48, 0x8B, 0x87]);
    place(&mut bytes, 800, &[0x4C, 0x39, 0x35, 0, 0, 0, 0, 0x74, 0x05]);
    place(&mut bytes, 900, &[
        0x41, 0x83, 0xF8, 0x05, 0x0F, 0x85, 0, 0, 0, 0, 0x83, 0xF9, 0x16, 0x0F, 0x87, 0, 0, 0,
        0, 0x48, 0x63, 0xC1, 0x48, 0x8D, 0x0D,
    ]);
    Managers::new(&MemoryImage::new(0x1000, bytes)).unwrap()
}

fn s1_sample(level: u8, mode: u8) -> TickSample {
    TickSample::ForSonic1(Sonic1Sample {
        level: Some(level),
        time_bonus: Some(0),
        start_trigger: Some(0),
        demo: Some(false),
        mode: Some(mode),
    })
}

#[test]
fn status_classification_picks_the_active_title() {
    let mut w = Watchers::new();
    assert_eq!(w.update_status(Some(GameStatus::RetroEngine), Some(0)), Game::Sonic1);
    assert_eq!(w.update_status(Some(GameStatus::RetroEngine), Some(1)), Game::Sonic2);
    assert_eq!(w.update_status(Some(GameStatus::RetroEngine), Some(2)), Game::Sonic3);
    assert_eq!(w.update_status(Some(GameStatus::RetroEngine), Some(3)), Game::SonicCD);
    assert_eq!(w.update_status(Some(GameStatus::MainMenu), Some(0)), Game::NoGame);
    assert_eq!(w.update_status(Some(GameStatus::GameGear), Some(0)), Game::NoGame);
}

#[test]
fn unmapped_selector_keeps_the_previous_title() {
    let mut w = Watchers::new();
    assert_eq!(w.update_status(Some(GameStatus::RetroEngine), Some(3)), Game::SonicCD);
    assert_eq!(w.update_status(Some(GameStatus::RetroEngine), Some(9)), Game::SonicCD);
    // before any title was seen the fallback is the first title
    let mut fresh = Watchers::new();
    assert_eq!(fresh.update_status(Some(GameStatus::RetroEngine), Some(9)), Game::Sonic1);
    // a failed selector read samples zero
    assert_eq!(fresh.update_status(Some(GameStatus::RetroEngine), None), Game::Sonic1);
}

#[test]
fn failed_classification_keeps_the_previous_status() {
    let mut w = Watchers::new();
    w.update_status(Some(GameStatus::RetroEngine), Some(0));
    // lookup failure: previous classification retained
    assert_eq!(w.update_status(None, Some(0)), Game::Sonic1);
    let p = w.game_status.pair.unwrap();
    assert_eq!(p.current, GameStatus::RetroEngine);
    // before any classification the fallback is the main menu
    let mut fresh = Watchers::new();
    assert_eq!(fresh.update_status(None, Some(0)), Game::NoGame);
}

#[test]
fn title_tick_pushes_every_fact() {
    let mut w = Watchers::new();
    let mut m = managers();
    w.update_title(&mut m, &s1_sample(6, 5));
    let lv = w.act_id.pair.unwrap();
    assert_eq!(lv.current, LevelID::Sonic1_GreenHillAct1);
    let md = w.game_mode.pair.unwrap();
    assert_eq!(md.current, GameMode::Story);
    assert!(!w.start_trigger.pair.unwrap().current);
    assert!(!w.is_in_time_bonus.pair.unwrap().current);
    assert!(!w.demo_mode.pair.unwrap().current);
    assert!(!w.story_start_flag);

    w.update_title(&mut m, &s1_sample(7, 5));
    let lv = w.act_id.pair.unwrap();
    assert_eq!(lv.previous, LevelID::Sonic1_GreenHillAct1);
    assert_eq!(lv.current, LevelID::Sonic1_GreenHillAct2);
}

#[test]
fn no_title_tick_reports_the_menu_and_arms_the_story_flag() {
    let mut w = Watchers::new();
    let mut m = managers();
    w.update_title(&mut m, &TickSample::NoTitle);
    assert_eq!(w.act_id.pair.unwrap().current, LevelID::MainMenu);
    assert_eq!(w.game_mode.pair.unwrap().current, GameMode::Classic);
    assert!(w.story_start_flag);
}

#[test]
fn sonic3_tick_reports_the_tracked_start_edge() {
    let mut w = Watchers::new();
    let mut m = managers();
    let save_select = TickSample::ForSonic3(Sonic3Sample {
        act: Some(2),
        apparent: Some(0),
        zone_status: None,
        hpz: None,
        mode: Some(0),
    });
    let first_act = TickSample::ForSonic3(Sonic3Sample {
        act: Some(15),
        apparent: Some(0),
        zone_status: None,
        hpz: None,
        mode: Some(0),
    });
    w.update_title(&mut m, &save_select);
    assert!(!w.start_trigger.pair.unwrap().current);
    w.update_title(&mut m, &first_act);
    assert!(w.start_trigger.pair.unwrap().current);
    w.update_title(&mut m, &first_act);
    assert!(!w.start_trigger.pair.unwrap().current);
}
