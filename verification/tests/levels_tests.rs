use origins_splitter::GameMode;
use origins_splitter::LevelID;
use origins_splitter::levels::LEVEL_COUNT;
use origins_splitter::levels::is_successor;
use origins_splitter::levels::level_index;
use origins_splitter::levels::mode_of_index;
use origins_splitter::settings::Settings;

#[test]
fn level_indices_are_in_range_and_ordered() {
    assert_eq!(level_index(LevelID::MainMenu), 0);
    assert_eq!(level_index(LevelID::Unknown), 1);
    assert_eq!(level_index(LevelID::Sonic1_TitleScreen), 2);
    assert_eq!(level_index(LevelID::SonicCD_Ending), LEVEL_COUNT - 1);
}

#[test]
fn successors_follow_the_running_order() {
    assert!(is_successor(LevelID::Sonic1_GreenHillAct1, LevelID::Sonic1_GreenHillAct2));
    assert!(!is_successor(LevelID::Sonic1_GreenHillAct1, LevelID::Sonic1_GreenHillAct3));
    assert!(is_successor(LevelID::Sonic1_GreenHillAct3, LevelID::Sonic1_MarbleAct1));
    assert!(is_successor(LevelID::Sonic1_MarbleAct2, LevelID::Sonic1_MarbleAct3));
    assert!(is_successor(LevelID::Sonic1_FinalZone, LevelID::Sonic1_Ending));
    assert!(is_successor(LevelID::Sonic2_DeathEgg, LevelID::Sonic2_Ending));
    assert!(is_successor(LevelID::SonicCD_MetallicMadnessAct3, LevelID::SonicCD_Ending));
}

#[test]
fn late_game_branches_admit_two_successors() {
    assert!(is_successor(LevelID::Sonic3_MushroomHillAct1, LevelID::Sonic3_MushroomHillAct2));
    assert!(is_successor(LevelID::Sonic3_MushroomHillAct1, LevelID::Sonic3_HiddenPalace));
    assert!(is_successor(LevelID::Sonic3_LavaReefAct1, LevelID::Sonic3_HiddenPalace));
    assert!(is_successor(LevelID::Sonic3_SkySanctuary, LevelID::Sonic3_DeathEggAct1));
    assert!(is_successor(LevelID::Sonic3_SkySanctuary, LevelID::Sonic3_Ending));
    assert!(is_successor(LevelID::Sonic3_DeathEggAct2, LevelID::Sonic3_Doomsday));
    assert!(is_successor(LevelID::Sonic3_DeathEggAct2, LevelID::Sonic3_Ending));
    assert!(!is_successor(LevelID::Sonic3_DeathEggAct2, LevelID::Sonic3_HiddenPalace));
}

#[test]
fn markers_and_endings_never_split() {
    assert!(!is_successor(LevelID::MainMenu, LevelID::Sonic1_GreenHillAct1));
    assert!(!is_successor(LevelID::Sonic1_TitleScreen, LevelID::Sonic1_GreenHillAct1));
    assert!(!is_successor(LevelID::Sonic1_Ending, LevelID::Sonic1_GreenHillAct1));
    assert!(!is_successor(LevelID::Unknown, LevelID::MainMenu));
}

#[test]
fn mode_index_decodes_the_eight_modes() {
    assert_eq!(mode_of_index(0), GameMode::Classic);
    assert_eq!(mode_of_index(1), GameMode::Anniversary);
    assert_eq!(mode_of_index(2), GameMode::BossRush);
    assert_eq!(mode_of_index(3), GameMode::Mirror);
    assert_eq!(mode_of_index(4), GameMode::Mission);
    assert_eq!(mode_of_index(5), GameMode::Story);
    assert_eq!(mode_of_index(6), GameMode::BlueSpheresClassic);
    assert_eq!(mode_of_index(7), GameMode::BlueSpheresNew);
    assert_eq!(mode_of_index(8), GameMode::Classic);
    assert_eq!(mode_of_index(255), GameMode::Classic);
    assert_eq!(mode_of_index(-1), GameMode::Classic);
}

#[test]
fn settings_default_to_all_enabled() {
    let s = Settings::all_enabled();
    assert!(s.story_start && s.s1_start && s.s2_start && s.s3_start && s.scd_start);
    assert!(s.split_enabled(LevelID::Sonic1_GreenHillAct1, false));
    assert!(s.split_enabled(LevelID::Sonic1_GreenHillAct1, true));
    assert!(s.split_enabled(LevelID::Sonic3_Doomsday, true));
}

#[test]
fn split_enables_are_per_level_and_per_bucket() {
    let mut s = Settings::all_enabled();
    s.set_split_enabled(LevelID::Sonic1_GreenHillAct1, false, false);
    assert!(!s.split_enabled(LevelID::Sonic1_GreenHillAct1, false));
    // the story bucket and every other level are untouched
    assert!(s.split_enabled(LevelID::Sonic1_GreenHillAct1, true));
    assert!(s.split_enabled(LevelID::Sonic1_GreenHillAct2, false));
    s.set_split_enabled(LevelID::Sonic1_GreenHillAct1, false, true);
    assert!(s.split_enabled(LevelID::Sonic1_GreenHillAct1, false));
}
