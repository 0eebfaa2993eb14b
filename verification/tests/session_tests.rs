//! A whole scripted session: resolve, then tick through menu, story
//! start, and a first split, exactly as the host would drive it.

use origins_splitter::Game;
use origins_splitter::GameStatus;
use origins_splitter::LevelID;
use origins_splitter::Managers;
use origins_splitter::Sonic1Sample;
use origins_splitter::TickSample;
use origins_splitter::TimerState;
use origins_splitter::Watchers;
use origins_splitter::evaluate_tick;
use origins_splitter::image::MemoryImage;
use origins_splitter::settings::Settings;

fn place(bytes: &mut Vec<u8>, at: usize, sig: &[u8]) {
    bytes[at..at + sig.len()].copy_from_slice(sig);
}

fn managers() -> Managers {
    let mut bytes = vec![0u8; 4096];
    place(&mut bytes, 100, &[
        0x3D, 0xF9, 0x00, 0x00, 0x00, 0x0F, 0x87, 0, 0, 0, 0, 0x41, 0x8B, 0x8C, 0x84, 0, 0, 0,
        0, 0x49, 0x03, 0xCC, 0xFF, 0, 0x41, 0x8B, 0x84,
    ]);
    place(&mut bytes, 200, &[0xEB, 0, 0x8B, 0xCF, 0xE8, 0, 0, 0, 0, 0x8B, 0x3D]);
    place(&mut bytes, 300, &[
        0x3D, 0xE4, 0x00, 0x00, 0x00, 0x0F, 0x87, 0, 0, 0, 0, 0x41, 0x8B, 0x8C, 0x84, 0, 0, 0,
        0, 0x49, 0x03, 0xCC, 0xFF, 0, 0x41, 0x8B, 0x84,
    ]);
    place(&mut bytes, 400, &[0xEB, 0, 0x45, 0x33, 0xFF, 0x45, 0x85, 0xD2]);
    place(&mut bytes, 500, &[0x0A, 0xC1, 0x88, 0x05]);
    place(&mut bytes, 600, &[0x66, 0x89, 0x05, 0, 0, 0, 0, 0x3B, 0xDF]);
    place(&mut bytes, 700, &[0x89, 0x15, 0, 0, 0, 0, 0x48, 0x8B, 0x87]);
    place(&mut bytes, 800, &[0x4C, 0x39, 0x35, 0, 0, 0, 0, 0x74, 0x05]);
    place(&mut bytes, 900, &[
        0x41, 0x83, 0xF8, 0x05, 0x0F, 0x85, 0, 0, 0, 0, 0x83, 0xF9, 0x16, 0x0F, 0x87, 0, 0, 0,
        0, 0x48, 0x63, 0xC1, 0x48, 0x8D, 0x0D,
    ]);
    Managers::new(&MemoryImage::new(0x1000, bytes)).unwrap()
}

fn story_sample(level: u8) -> TickSample {
    TickSample::ForSonic1(Sonic1Sample {
        level: Some(level),
        time_bonus: Some(0),
        start_trigger: Some(0),
        demo: Some(false),
        mode: Some(5), // story
    })
}

#[test]
fn a_story_run_starts_once_and_splits_on_the_first_act_change() {
    let settings = Settings::all_enabled();
    let mut managers = managers();
    let mut watchers = Watchers::new();

    // In the menu frontend: no title active, the story flag arms.
    let g = watchers.update_status(Some(GameStatus::MainMenu), None);
    assert_eq!(g, Game::NoGame);
    watchers.update_title(&mut managers, &TickSample::NoTitle);
    let a = evaluate_tick(&mut watchers, &settings, TimerState::NotRunning);
    assert!(!a.start); // mode tracked as classic in the menu

    // The retro engine loads the first title's first act in story mode.
    let g = watchers.update_status(Some(GameStatus::RetroEngine), Some(0));
    assert_eq!(g, Game::Sonic1);
    watchers.update_title(&mut managers, &story_sample(6));
    let a = evaluate_tick(&mut watchers, &settings, TimerState::NotRunning);
    assert!(a.start);
    assert_eq!(a.start_loading, Some(false));

    // The same state one tick later must not start again.
    let g = watchers.update_status(Some(GameStatus::RetroEngine), Some(0));
    assert_eq!(g, Game::Sonic1);
    watchers.update_title(&mut managers, &story_sample(6));
    let a = evaluate_tick(&mut watchers, &settings, TimerState::NotRunning);
    assert!(!a.start);

    // The timer now runs; moving to the second act splits exactly once.
    watchers.update_status(Some(GameStatus::RetroEngine), Some(0));
    watchers.update_title(&mut managers, &story_sample(7));
    let a = evaluate_tick(&mut watchers, &settings, TimerState::Running);
    assert!(a.split);
    assert_eq!(a.set_loading, Some(false));

    // Staying in the second act splits no further.
    watchers.update_status(Some(GameStatus::RetroEngine), Some(0));
    watchers.update_title(&mut managers, &story_sample(7));
    let a = evaluate_tick(&mut watchers, &settings, TimerState::Running);
    assert!(!a.split);
    assert!(!a.reset);
    assert_eq!(a.game_time, None);
}
