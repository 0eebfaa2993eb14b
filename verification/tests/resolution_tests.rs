use origins_splitter::Addresses;
use origins_splitter::Managers;
use origins_splitter::image::MemoryImage;
use origins_splitter::sonic1::Sonic1;

const BASE: u64 = 0x1000;

fn place(bytes: &mut Vec<u8>, at: usize, sig: &[u8]) {
    bytes[at..at + sig.len()].copy_from_slice(sig);
}

// The shared dispatch-table signature of the first two titles, wildcards
// written as zero.
const PTR_SIG_S1S2: [u8; 27] = [
    0x3D, 0xF9, 0x00, 0x00, 0x00, 0x0F, 0x87, 0, 0, 0, 0, 0x41, 0x8B, 0x8C, 0x84, 0, 0, 0, 0,
    0x49, 0x03, 0xCC, 0xFF, 0, 0x41, 0x8B, 0x84,
];
const LEA_SIG_S1S2: [u8; 11] = [0xEB, 0, 0x8B, 0xCF, 0xE8, 0, 0, 0, 0, 0x8B, 0x3D];
const PTR_SIG_CD: [u8; 27] = [
    0x3D, 0xE4, 0x00, 0x00, 0x00, 0x0F, 0x87, 0, 0, 0, 0, 0x41, 0x8B, 0x8C, 0x84, 0, 0, 0, 0,
    0x49, 0x03, 0xCC, 0xFF, 0, 0x41, 0x8B, 0x84,
];
const LEA_SIG_CD: [u8; 8] = [0xEB, 0, 0x45, 0x33, 0xFF, 0x45, 0x85, 0xD2];
const S3_STATUS: [u8; 4] = [0x0A, 0xC1, 0x88, 0x05];
const S3_LEVEL: [u8; 9] = [0x66, 0x89, 0x05, 0, 0, 0, 0, 0x3B, 0xDF];
const S3_APPARENT: [u8; 9] = [0x89, 0x15, 0, 0, 0, 0, 0x48, 0x8B, 0x87];
const S3_HPZ: [u8; 9] = [0x4C, 0x39, 0x35, 0, 0, 0, 0, 0x74, 0x05];
const S3_PTR: [u8; 25] = [
    0x41, 0x83, 0xF8, 0x05, 0x0F, 0x85, 0, 0, 0, 0, 0x83, 0xF9, 0x16, 0x0F, 0x87, 0, 0, 0, 0,
    0x48, 0x63, 0xC1, 0x48, 0x8D, 0x0D,
];
const HEDGEHOG: [u8; 9] = [0xE8, 0, 0, 0, 0, 0x44, 0x39, 0x75, 0x48];
const RSDK: [u8; 14] = [0x89, 0x0D, 0, 0, 0, 0, 0x89, 0x15, 0, 0, 0, 0, 0xC7, 0x05];

/// An image in which every pattern occurs once, with all displacement
/// fields zero, so every resolution step succeeds.
fn full_image() -> MemoryImage {
    let mut bytes = vec![0u8; 4096];
    place(&mut bytes, 100, &PTR_SIG_S1S2);
    place(&mut bytes, 200, &LEA_SIG_S1S2);
    place(&mut bytes, 300, &PTR_SIG_CD);
    place(&mut bytes, 400, &LEA_SIG_CD);
    place(&mut bytes, 500, &S3_STATUS);
    place(&mut bytes, 600, &S3_LEVEL);
    place(&mut bytes, 700, &S3_APPARENT);
    place(&mut bytes, 800, &S3_HPZ);
    place(&mut bytes, 900, &S3_PTR);
    place(&mut bytes, 1000, &HEDGEHOG);
    place(&mut bytes, 1100, &RSDK);
    MemoryImage::new(BASE, bytes)
}

#[test]
fn sonic1_resolution_computes_documented_addresses() {
    let mut bytes = vec![0u8; 4096];
    place(&mut bytes, 100, &PTR_SIG_S1S2);
    place(&mut bytes, 200, &LEA_SIG_S1S2);
    let img = MemoryImage::new(BASE, bytes);
    let s1 = Sonic1::new(&img).expect("both patterns present");
    // ptr = base (displacement zero); lea = base + 201 + 4 + 0 + 4 = base + 209
    assert_eq!(s1.level_id, BASE + 39 + 4); // rel32 chain under ptr
    assert_eq!(s1.time_bonus, BASE + 209 + 0x20F8); // lea + fixed offset
    assert_eq!(s1.start_trigger, BASE + 209 + 0x24EC);
    assert_eq!(s1.demo_mode, BASE + 20); // absolute chain
    assert_eq!(s1.game_mode, BASE + 428);
    assert!(s1.level_watcher.pair.is_none());
    assert_eq!(s1.time_bonus_start_value, 0);
}

#[test]
fn sonic1_resolution_fails_without_its_patterns() {
    let img = MemoryImage::new(BASE, vec![0u8; 4096]);
    assert!(Sonic1::new(&img).is_none());
}

#[test]
fn full_bundle_resolves_from_a_complete_image() {
    let img = full_image();
    let a = Addresses::init(&img).expect("every pattern present");
    assert_eq!(a.rtti.base_address, BASE);
    // hedgehog chain: match+1, two rel32 decodes; the second reads the
    // tail of the signature (0x48) as its displacement
    assert_eq!(a.hedgehog_base, BASE + 1001 + 4 + 3 + 4 + 0x48);
    // selector chain: match+2, one rel32 decode with zero displacement
    assert_eq!(a.current_rsdk_game, BASE + 1102 + 4);
}

#[test]
fn resolution_is_all_or_nothing() {
    // Corrupting one byte of one title's pattern kills the whole bundle:
    // no adapter for any title becomes available.
    let img = full_image();
    assert!(Addresses::init(&img).is_some());
    assert!(Managers::new(&img).is_some());

    let mut bytes = vec![0u8; 4096];
    place(&mut bytes, 100, &PTR_SIG_S1S2);
    place(&mut bytes, 200, &LEA_SIG_S1S2);
    place(&mut bytes, 300, &PTR_SIG_CD);
    // the CD lea signature is missing its first byte
    let mut broken = LEA_SIG_CD;
    broken[0] = 0x00;
    place(&mut bytes, 400, &broken);
    place(&mut bytes, 500, &S3_STATUS);
    place(&mut bytes, 600, &S3_LEVEL);
    place(&mut bytes, 700, &S3_APPARENT);
    place(&mut bytes, 800, &S3_HPZ);
    place(&mut bytes, 900, &S3_PTR);
    place(&mut bytes, 1000, &HEDGEHOG);
    place(&mut bytes, 1100, &RSDK);
    let img = MemoryImage::new(BASE, bytes);
    assert!(Managers::new(&img).is_none());
    assert!(Addresses::init(&img).is_none());
}
