use origins_splitter::GameMode;
use origins_splitter::LevelID;
use origins_splitter::image::MemoryImage;
use origins_splitter::sonic1::Sonic1;
use origins_splitter::sonic2::Sonic2;
use origins_splitter::sonic3::Sonic3;
use origins_splitter::soniccd::SonicCD;

fn place(bytes: &mut Vec<u8>, at: usize, sig: &[u8]) {
    bytes[at..at + sig.len()].copy_from_slice(sig);
}

fn sonic1() -> Sonic1 {
    let mut bytes = vec![0u8; 4096];
    place(&mut bytes, 100, &[
        0x3D, 0xF9, 0x00, 0x00, 0x00, 0x0F, 0x87, 0, 0, 0, 0, 0x41, 0x8B, 0x8C, 0x84, 0, 0, 0,
        0, 0x49, 0x03, 0xCC, 0xFF, 0, 0x41, 0x8B, 0x84,
    ]);
    place(&mut bytes, 200, &[0xEB, 0, 0x8B, 0xCF, 0xE8, 0, 0, 0, 0, 0x8B, 0x3D]);
    Sonic1::new(&MemoryImage::new(0x1000, bytes)).unwrap()
}

fn sonic2() -> Sonic2 {
    let mut bytes = vec![0u8; 4096];
    place(&mut bytes, 100, &[
        0x3D, 0xF9, 0x00, 0x00, 0x00, 0x0F, 0x87, 0, 0, 0, 0, 0x41, 0x8B, 0x8C, 0x84, 0, 0, 0,
        0, 0x49, 0x03, 0xCC, 0xFF, 0, 0x41, 0x8B, 0x84,
    ]);
    place(&mut bytes, 200, &[0xEB, 0, 0x8B, 0xCF, 0xE8, 0, 0, 0, 0, 0x8B, 0x3D]);
    Sonic2::new(&MemoryImage::new(0x1000, bytes)).unwrap()
}

fn soniccd() -> SonicCD {
    let mut bytes = vec![0u8; 4096];
    place(&mut bytes, 100, &[
        0x3D, 0xE4, 0x00, 0x00, 0x00, 0x0F, 0x87, 0, 0, 0, 0, 0x41, 0x8B, 0x8C, 0x84, 0, 0, 0,
        0, 0x49, 0x03, 0xCC, 0xFF, 0, 0x41, 0x8B, 0x84,
    ]);
    place(&mut bytes, 200, &[0xEB, 0, 0x45, 0x33, 0xFF, 0x45, 0x85, 0xD2]);
    SonicCD::new(&MemoryImage::new(0x1000, bytes)).unwrap()
}

fn sonic3() -> Sonic3 {
    let mut bytes = vec![0u8; 4096];
    place(&mut bytes, 500, &[0x0A, 0xC1, 0x88, 0x05]);
    place(&mut bytes, 600, &[0x66, 0x89, 0x05, 0, 0, 0, 0, 0x3B, 0xDF]);
    place(&mut bytes, 700, &[0x89, 0x15, 0, 0, 0, 0, 0x48, 0x8B, 0x87]);
    place(&mut bytes, 800, &[0x4C, 0x39, 0x35, 0, 0, 0, 0, 0x74, 0x05]);
    place(&mut bytes, 900, &[
        0x41, 0x83, 0xF8, 0x05, 0x0F, 0x85, 0, 0, 0, 0, 0x83, 0xF9, 0x16, 0x0F, 0x87, 0, 0, 0,
        0, 0x48, 0x63, 0xC1, 0x48, 0x8D, 0x0D,
    ]);
    Sonic3::new(&MemoryImage::new(0x1000, bytes)).unwrap()
}

#[test]
fn sonic1_level_sequence_round_trip() {
    // A scripted raw sequence reproduces the table-defined level
    // sequence; unmapped values repeat the previous level.
    let mut s = sonic1();
    let raws = [0u8, 6, 7, 255, 8, 3, 24, 1];
    let expect = [
        LevelID::Sonic1_TitleScreen,
        LevelID::Sonic1_GreenHillAct1,
        LevelID::Sonic1_GreenHillAct2,
        LevelID::Sonic1_GreenHillAct2, // 255 is unmapped: retained
        LevelID::Sonic1_GreenHillAct3,
        LevelID::Sonic1_GreenHillAct3, // 3 is unmapped: retained
        LevelID::Sonic1_FinalZone,
        LevelID::Sonic1_Ending,
    ];
    for (raw, want) in raws.iter().zip(expect.iter()) {
        assert_eq!(s.get_current_level(Some(*raw)), *want);
    }
}

#[test]
fn sonic1_unmapped_before_any_sample_reports_main_menu() {
    let mut s = sonic1();
    assert_eq!(s.get_current_level(Some(99)), LevelID::MainMenu);
}

#[test]
fn sonic1_start_trigger_is_a_pulse() {
    let mut s = sonic1();
    assert!(!s.get_start_trigger(Some(6)));
    assert!(s.get_start_trigger(Some(1))); // 6 -> 1
    assert!(!s.get_start_trigger(Some(1))); // repeated fired value
}

#[test]
fn sonic1_time_bonus_phases() {
    let mut s = sonic1();
    assert!(!s.is_in_time_bonus(Some(0)));
    assert!(!s.is_in_time_bonus(Some(180))); // capture tick
    assert!(s.is_in_time_bonus(Some(179))); // counting down
    assert!(!s.is_in_time_bonus(Some(0))); // over
}

#[test]
fn sonic1_mode_and_demo_decode() {
    let s = sonic1();
    assert_eq!(s.get_game_mode(Some(5)), GameMode::Story);
    assert_eq!(s.get_game_mode(Some(0)), GameMode::Classic);
    assert_eq!(s.get_game_mode(None), GameMode::Classic);
    assert!(s.is_demo_mode(Some(true)));
    assert!(!s.is_demo_mode(None));
}

#[test]
fn sonic2_level_and_trigger_tables() {
    let mut s = sonic2();
    assert_eq!(s.get_current_level(Some(6)), LevelID::Sonic2_EmeraldHillAct1);
    assert_eq!(s.get_current_level(Some(25)), LevelID::Sonic2_DeathEgg);
    assert_eq!(s.get_current_level(Some(5)), LevelID::Sonic2_DeathEgg); // unmapped
    assert!(!s.get_start_trigger(Some(8)));
    assert!(s.get_start_trigger(Some(9))); // 8 -> 9
    assert!(!s.get_start_trigger(Some(9)));
}

#[test]
fn sonic2_tally_extends_the_bonus() {
    let mut s = sonic2();
    // no counter movement, but the score tally is in phase four with a
    // continue bonus still counting
    assert!(s.is_in_time_bonus(Some(0), Some(4), Some(2)));
    // a failed read of either sample drops the tally part
    assert!(!s.is_in_time_bonus(Some(0), None, Some(2)));
    assert!(!s.is_in_time_bonus(Some(0), Some(4), Some(0)));
    assert!(!s.is_in_time_bonus(Some(0), Some(3), Some(2)));
}

#[test]
fn soniccd_bands_collapse_onto_acts() {
    let mut s = soniccd();
    assert_eq!(s.get_current_level(Some(13)), LevelID::SonicCD_PalmtreePanicAct1);
    assert_eq!(s.get_current_level(Some(16)), LevelID::SonicCD_PalmtreePanicAct1);
    assert_eq!(s.get_current_level(Some(17)), LevelID::SonicCD_PalmtreePanicAct2);
    assert_eq!(s.get_current_level(Some(82)), LevelID::SonicCD_MetallicMadnessAct3);
    assert_eq!(s.get_current_level(Some(8)), LevelID::SonicCD_Ending);
    assert_eq!(s.get_current_level(Some(9)), LevelID::SonicCD_Ending); // unmapped
}

#[test]
fn soniccd_time_travel_pauses_time() {
    let mut s = soniccd();
    assert!(!s.is_in_time_bonus(Some(0), Some(0)));
    assert!(s.is_in_time_bonus(Some(0), Some(1)));
    assert!(!s.is_in_time_bonus(Some(0), None));
    assert!(!s.get_start_trigger(Some(11)));
    assert!(s.get_start_trigger(Some(2))); // 11 -> 2
}

#[test]
fn sonic3_logical_index_decides_special_screens() {
    let mut s = sonic3();
    assert_eq!(s.get_current_level(Some(0), Some(9), None, None), LevelID::Sonic3_TitleScreen);
    assert_eq!(s.get_current_level(Some(2), Some(9), None, None), LevelID::Sonic3_SaveSelect);
    assert_eq!(s.get_current_level(Some(5), Some(9), None, None), LevelID::Sonic3_Ending);
    assert_eq!(
        s.get_current_level(Some(15), Some(9), None, None),
        LevelID::Sonic3_AngelIslandAct1
    );
}

#[test]
fn sonic3_apparent_index_decides_acts() {
    let mut s = sonic3();
    assert_eq!(s.get_current_level(Some(16), Some(1), None, None), LevelID::Sonic3_AngelIslandAct2);
    // transitional apparent value two: only logical seventeen moves on
    assert_eq!(
        s.get_current_level(Some(16), Some(2), None, None),
        LevelID::Sonic3_AngelIslandAct2 // retained
    );
    assert_eq!(s.get_current_level(Some(17), Some(2), None, None), LevelID::Sonic3_HydrocityAct1);
    assert_eq!(s.get_current_level(Some(16), Some(27), None, None), LevelID::Sonic3_Doomsday);
    assert_eq!(
        s.get_current_level(Some(16), Some(99), None, None),
        LevelID::Sonic3_Doomsday // unmapped: retained
    );
}

#[test]
fn sonic3_hidden_palace_needs_status_and_flag() {
    let mut s = sonic3();
    assert_eq!(s.get_current_level(Some(16), Some(18), None, None), LevelID::Sonic3_LavaReefAct1);
    // status known and not two: retain
    assert_eq!(
        s.get_current_level(Some(16), Some(21), Some(1), Some(0)),
        LevelID::Sonic3_LavaReefAct1
    );
    // status two and the flag down: the hidden palace
    assert_eq!(
        s.get_current_level(Some(16), Some(21), Some(2), Some(0)),
        LevelID::Sonic3_HiddenPalace
    );
    // the flag up, or unreadable: retain
    assert_eq!(
        s.get_current_level(Some(16), Some(18), None, None),
        LevelID::Sonic3_LavaReefAct1
    );
    assert_eq!(
        s.get_current_level(Some(16), Some(21), Some(2), Some(7)),
        LevelID::Sonic3_LavaReefAct1
    );
    assert_eq!(
        s.get_current_level(Some(16), Some(21), Some(2), None),
        LevelID::Sonic3_LavaReefAct1
    );
}

#[test]
fn sonic3_start_edge_is_save_select_into_first_act() {
    let mut s = sonic3();
    s.get_current_level(Some(2), Some(0), None, None); // save select
    assert!(!s.get_start_trigger());
    s.get_current_level(Some(15), Some(0), None, None); // first act
    assert!(s.get_start_trigger());
    s.get_current_level(Some(15), Some(0), None, None); // still there
    assert!(!s.get_start_trigger());
}

#[test]
fn sonic3_has_no_bonus_and_no_demo() {
    let s = sonic3();
    assert!(!s.is_in_time_bonus());
    assert!(!s.is_demo_mode());
    assert_eq!(s.get_game_mode(Some(3)), GameMode::Mirror);
    assert_eq!(s.get_game_mode(None), GameMode::Classic);
    assert_eq!(s.get_game_mode(Some(-5)), GameMode::Classic);
}
