use blueflame::arena::Arena;
use blueflame::error::Error;
use blueflame::records::{
    load_modifier, sstr_construct, sstr_load, sstr_store, store_modifier, WeaponModifierInfo,
};

const BASE: u64 = 0x1000;

fn arena() -> Arena {
    Arena::new(BASE, 0x1000)
}

#[test]
fn scalar_store_load_round_trip() {
    let mut m = arena();
    m.write_u32(BASE + 16, 0xAABBCCDD).unwrap();
    assert_eq!(m.read_u32(BASE + 16).unwrap(), 0xAABBCCDD);
    m.write_u64(BASE + 32, 0x0102_0304_0506_0708).unwrap();
    assert_eq!(m.read_u64(BASE + 32).unwrap(), 0x0102_0304_0506_0708);
    m.write_i32(BASE + 48, -123456).unwrap();
    assert_eq!(m.read_i32(BASE + 48).unwrap(), -123456);
    // little-endian byte order
    assert_eq!(m.read_u8(BASE + 16).unwrap(), 0xDD);
    assert_eq!(m.read_u8(BASE + 19).unwrap(), 0xAA);
}

#[test]
fn out_of_range_access_is_recoverable() {
    let mut m = arena();
    assert_eq!(m.read_u8(BASE - 1), Err(Error::OutOfRange));
    assert_eq!(m.read_u32(BASE + 0x1000 - 2), Err(Error::OutOfRange));
    assert_eq!(m.write_u64(BASE + 0x1000 - 4, 1), Err(Error::OutOfRange));
    // a failed write changes nothing
    assert_eq!(m.read_u32(BASE + 0x1000 - 4).unwrap(), 0);
}

#[test]
fn modifier_record_round_trip() {
    let mut m = arena();
    let rec = WeaponModifierInfo { flags: 0x81, value: -42 };
    store_modifier(&mut m, BASE + 64, rec).unwrap();
    assert_eq!(load_modifier(&m, BASE + 64).unwrap(), rec);
}

#[test]
fn string_record_round_trip() {
    let mut m = arena();
    let a = BASE + 128;
    sstr_construct(&mut m, a, 0x5555).unwrap();
    assert_eq!(sstr_load(&m, a).unwrap(), b"");
    sstr_store(&mut m, a, b"Weapon_Sword_070").unwrap();
    assert_eq!(sstr_load(&m, a).unwrap(), b"Weapon_Sword_070");
    // the buffer pointer field points at the inline buffer
    assert_eq!(m.read_u64(a + 8).unwrap(), a + 24);
    // the stored bytes are terminated
    assert_eq!(m.read_u8(a + 24 + 16).unwrap(), 0);
}

#[test]
fn string_record_capacity_is_enforced() {
    let mut m = arena();
    let a = BASE + 128;
    sstr_construct(&mut m, a, 0).unwrap();
    let long = [b'A'; 40];
    // a value exceeding the capacity is an error, not a truncation
    assert_eq!(sstr_store(&mut m, a, &long), Err(Error::OutOfRange));
    let ok = [b'B'; 39];
    assert_eq!(sstr_store(&mut m, a, &ok), Ok(()));
    assert_eq!(sstr_load(&m, a).unwrap().len(), 39);
}
