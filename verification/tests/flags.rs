use blueflame::gdt::{unpack_bool_flags, unpack_s32_flags, Flag, FlagIndex};

#[test]
fn test_unpack() {
    // two packed boolean flags: hash little-endian, then the
    // value/property byte
    let bool_pack: Vec<u8> = vec![
        0x04, 0x03, 0x02, 0x01, 0x87, // hash 0x01020304, value set, properties 7
        0xFB, 0xFF, 0xFF, 0xFF, 0x05, // hash -5, value clear, properties 5
    ];
    let bools = unpack_bool_flags(&bool_pack);
    assert_eq!(bools.len(), 2);
    assert_eq!(bools[0].hash(), 0x01020304);
    assert_eq!(*bools[0].get(), true);
    assert!(bools[0].readable());
    assert!(bools[0].writable());
    assert!(bools[0].savable());
    assert_eq!(bools[1].hash(), -5);
    assert_eq!(*bools[1].get(), false);
    assert!(!bools[1].writable());

    // one packed signed flag: hash, initial, min, max, properties
    let s32_pack: Vec<u8> = vec![
        0x2A, 0x00, 0x00, 0x00, // hash 42
        0x64, 0x00, 0x00, 0x00, // initial value 100
        0x00, 0x00, 0x00, 0x00, // min 0
        0x32, 0x00, 0x00, 0x00, // max 50
        0x9F, // top bits masked off, properties 0x1F
    ];
    let ints = unpack_s32_flags(&s32_pack);
    assert_eq!(ints.len(), 1);
    assert_eq!(ints[0].hash(), 42);
    assert_eq!(*ints[0].get(), 100);
    assert_eq!(ints[0].max(), 50);
    assert!(ints[0].savable());
}

#[test]
fn unpack_empty_archives() {
    assert_eq!(unpack_bool_flags(&[]).len(), 0);
    assert_eq!(unpack_s32_flags(&[]).len(), 0);
}

#[test]
fn set_clamps_to_bounds() {
    let mut f: Flag<i32> = Flag::new_minmax(7, 5, 0, 0, 10);
    f.set(50);
    assert_eq!(*f.get(), 10);
    f.set(-3);
    assert_eq!(*f.get(), 0);
    f.set(4);
    assert_eq!(*f.get(), 4);
}

#[test]
fn reset_restores_initial_value() {
    let mut f: Flag<i32> = Flag::new_minmax(7, 5, 0, 0, 10);
    f.set(9);
    assert_eq!(*f.get(), 9);
    f.reset();
    assert_eq!(*f.get(), 5);
}

#[test]
fn bool_flags_do_not_clamp() {
    let mut f: Flag<bool> = Flag::new(1, false, 0);
    f.set(true);
    assert_eq!(*f.get(), true);
}

#[test]
fn array_flag_accessors() {
    let mut f: Flag<Vec<i32>> = Flag::new(3, vec![10, 20, 30], 0x7);
    assert_eq!(f.len(), 3);
    assert_eq!(f.get_at(1u32), Some(&20));
    assert_eq!(f.get_at(3u32), None);
    assert_eq!(f.get_at(-1i32), None);
    assert!(f.set_at(1u32, 99));
    assert_eq!(f.get_at(1u32), Some(&99));
    assert!(!f.set_at(5u32, 1));
    assert!(f.reset_at(1u32));
    assert_eq!(f.get_at(1u32), Some(&20));
    assert!(!f.reset_at(7u32));
    assert!(!f.reset_at(-2i64));
}

#[test]
fn index_conversions() {
    assert_eq!(5u8.to_index(), Some(5));
    assert_eq!(5u64.to_index(), Some(5));
    assert_eq!((-1i32).to_index(), None);
    assert_eq!((-1i64).to_index(), None);
    assert_eq!(7i64.to_index(), Some(7));
    assert_eq!(usize::MAX.to_index(), Some(usize::MAX));
}
