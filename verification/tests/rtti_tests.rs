use origins_splitter::GameStatus;
use origins_splitter::rtti::Rtti;
use origins_splitter::rtti::bytes_eq;
use origins_splitter::rtti::classify_name;

#[test]
fn the_three_known_names_classify() {
    assert_eq!(
        classify_name("GameModeMainMenu@game@app@@".as_bytes()),
        Some(GameStatus::MainMenu)
    );
    assert_eq!(
        classify_name("GameModeRetroEngine@game@app@@".as_bytes()),
        Some(GameStatus::RetroEngine)
    );
    assert_eq!(
        classify_name("GameModeGameGear@game@app@@".as_bytes()),
        Some(GameStatus::GameGear)
    );
}

#[test]
fn unknown_or_garbled_names_do_not_classify() {
    assert_eq!(classify_name("GameModeMainMenu@game@app@".as_bytes()), None);
    assert_eq!(classify_name("".as_bytes()), None);
    assert_eq!(classify_name("GameModeSomethingElse@game@app@@".as_bytes()), None);
}

#[test]
fn byte_equality_is_exact() {
    assert!(bytes_eq(&[1, 2, 3], &[1, 2, 3]));
    assert!(!bytes_eq(&[1, 2, 3], &[1, 2]));
    assert!(!bytes_eq(&[1, 2, 3], &[1, 2, 4]));
    assert!(bytes_eq(&[], &[]));
}

#[test]
fn the_walk_steps_compute_checked_addresses() {
    let r = Rtti::new(0x14000_0000);
    assert_eq!(r.base_address, 0x14000_0000);
    assert_eq!(r.type_info_slot(0x1000), Some(0x1000 - 8));
    assert_eq!(r.type_info_slot(7), None); // underflow fails the lookup
    assert_eq!(r.descriptor_slot(0x2000), Some(0x2000 + 0xC));
    assert_eq!(r.name_address(0x30), Some(0x14000_0000 + 0x30 + 0x14));
    let top = Rtti::new(u64::MAX - 4);
    assert_eq!(top.name_address(0x30), None); // overflow fails the lookup
}
