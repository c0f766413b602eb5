use blueflame::arena::Arena;
use blueflame::cpu::VirtualCpu;
use blueflame::env::{Environment, GameVer};
use blueflame::error::Error;
use blueflame::ops;
use blueflame::records::PouchItemPtr;

const BASE: u64 = 0x1000_0000;
const SIZE: usize = 0x02CD_0000;
const FRAME_BASE: u64 = BASE + 0x0011_0000;
const FRAME_SIZE: u64 = 0x1_0000;
const PMDM_SLOT: u64 = BASE + 0x02CA_6D50;
const PMDM_SLOT_160: u64 = BASE + 0x02CC_4E30;
const INFO_SLOT: u64 = BASE + 0x02CA_6D40;
const PMDM: u64 = BASE + 0x4000;

const RET: u32 = 0xD65F03C0;

fn make_cpu(ver: GameVer) -> VirtualCpu {
    let arena = Arena::new(BASE, SIZE);
    let env = Environment { base_address: BASE, game_ver: ver };
    VirtualCpu::new(arena, env, FRAME_BASE, FRAME_SIZE)
}

fn with_pmdm(ver: GameVer) -> VirtualCpu {
    let mut cpu = make_cpu(ver);
    cpu.mem.write_u64(PMDM_SLOT, PMDM).unwrap();
    cpu
}

#[test]
fn stack_alloc_ranges_never_overlap() {
    let mut cpu = make_cpu(GameVer::X150);
    cpu.reset_stack();
    let a1 = cpu.stack_alloc(64).unwrap();
    let a2 = cpu.stack_alloc(32).unwrap();
    // the second range ends where the first begins
    assert_eq!(a1, FRAME_BASE - 64);
    assert_eq!(a2, a1 - 32);
    assert!(a2 + 32 <= a1);
}

#[test]
fn stack_alloc_exhaustion_is_overflow() {
    let mut cpu = make_cpu(GameVer::X150);
    cpu.reset_stack();
    let r = cpu.stack_alloc(FRAME_SIZE + 1);
    assert_eq!(r, Err(Error::StackOverflow));
    // a failed allocation moves nothing
    assert_eq!(cpu.stack_alloc(FRAME_SIZE).unwrap(), FRAME_BASE - FRAME_SIZE);
}

#[test]
fn reset_stack_restores_frame_base() {
    let mut cpu = make_cpu(GameVer::X150);
    cpu.reset_stack();
    let first = cpu.sp;
    cpu.stack_alloc(512).unwrap();
    cpu.stack_alloc(128).unwrap();
    cpu.reset_stack();
    assert_eq!(cpu.sp, first);
    assert_eq!(cpu.sp, FRAME_BASE);
    // and again, regardless of different prior allocations
    cpu.stack_alloc(8).unwrap();
    cpu.reset_stack();
    assert_eq!(cpu.sp, FRAME_BASE);
}

#[test]
fn version_gap_fails_fast() {
    // the later revision has no offset registered for this action
    let mut cpu = make_cpu(GameVer::X160);
    cpu.mem.write_u64(PMDM_SLOT_160, PMDM).unwrap();
    let probe = cpu.mem.read_u64(BASE + 0x0097_66D8).unwrap();
    let r = ops::trash_item(&mut cpu, 0, 0);
    assert_eq!(r, Err(Error::VersionUnsupported));
    // nothing was executed: memory is untouched
    assert_eq!(cpu.mem.read_u64(BASE + 0x0097_66D8).unwrap(), probe);
}

#[test]
fn singleton_not_initialized() {
    let mut cpu = make_cpu(GameVer::X150);
    let r = ops::trash_item(&mut cpu, 0, 0);
    assert_eq!(r, Err(Error::NotInitialized));
}

#[test]
fn unsupported_opcode_is_fatal() {
    // the entry bytes are zero: the loop must fault, never skip
    let mut cpu = with_pmdm(GameVer::X150);
    let r = ops::equip_last_added_item(&mut cpu);
    assert_eq!(r, Err(Error::UnsupportedInstruction));
}

#[test]
fn bool_result_decodes_from_return_register() {
    let mut cpu = with_pmdm(GameVer::X150);
    let entry = BASE + 0x0096_D72C;
    // MOVZ x0, #1 ; RET
    cpu.mem.write_u32(entry, 0xD2800020).unwrap();
    cpu.mem.write_u32(entry + 4, RET).unwrap();
    assert_eq!(ops::cannot_get_item(&mut cpu, "Item_Fruit_A", 3), Ok(true));
    // MOVZ x0, #0 ; RET
    cpu.mem.write_u32(entry, 0xD2800000).unwrap();
    assert_eq!(ops::cannot_get_item(&mut cpu, "Item_Fruit_A", 3), Ok(false));
}

#[test]
fn long_name_is_rejected_not_truncated() {
    let mut cpu = with_pmdm(GameVer::X150);
    let long = "A".repeat(40);
    let r = ops::cannot_get_item(&mut cpu, &long, 1);
    assert_eq!(r, Err(Error::OutOfRange));
}

fn movz_w0(imm: u32) -> u32 {
    0x52800000 | (imm << 5)
}

fn str_x3_x1(slot: u32) -> u32 {
    // STR x3, [x1, #8*slot]
    0xF9000023 | (slot << 10)
}

#[test]
fn dpad_list_count_clamping() {
    let mut cpu = with_pmdm(GameVer::X150);
    let entry = BASE + 0x0097_A7CC;

    // count -1: MOVN w0, #0 ; RET
    cpu.mem.write_u32(entry, 0x12800000).unwrap();
    cpu.mem.write_u32(entry + 4, RET).unwrap();
    assert_eq!(ops::get_weapons_for_dpad(&mut cpu, 0), Ok(vec![]));

    // count 0
    cpu.mem.write_u32(entry, movz_w0(0)).unwrap();
    assert_eq!(ops::get_weapons_for_dpad(&mut cpu, 0), Ok(vec![]));

    // count 21: over the buffer, clamped to empty
    cpu.mem.write_u32(entry, movz_w0(21)).unwrap();
    assert_eq!(ops::get_weapons_for_dpad(&mut cpu, 0), Ok(vec![]));

    // count 20: valid; all slots are null, so nothing is decoded
    cpu.mem.write_u32(entry, movz_w0(20)).unwrap();
    assert_eq!(ops::get_weapons_for_dpad(&mut cpu, 0), Ok(vec![]));
}

#[test]
fn dpad_list_skips_null_entries() {
    let mut cpu = with_pmdm(GameVer::X150);
    let entry = BASE + 0x0097_A7CC;
    // fill slots 0, 1, 3, 4 with 0x2222, leave slot 2 null, count 5
    let mut pc = entry;
    for slot in [0u32, 1, 3, 4] {
        cpu.mem.write_u32(pc, 0xD2800003 | (0x2222 << 5)).unwrap(); // MOVZ x3, #0x2222
        pc += 4;
        cpu.mem.write_u32(pc, str_x3_x1(slot)).unwrap();
        pc += 4;
    }
    cpu.mem.write_u32(pc, movz_w0(5)).unwrap();
    cpu.mem.write_u32(pc + 4, RET).unwrap();
    let r = ops::get_weapons_for_dpad(&mut cpu, 0).unwrap();
    assert_eq!(r.len(), 4);
    for p in &r {
        assert_eq!(p.addr, 0x2222);
    }
}

fn write_item(cpu: &mut VirtualCpu, addr: u64, ty: i32, equipped: bool, next: u64) {
    cpu.mem.write_i32(addr + 16, ty).unwrap();
    cpu.mem.write_u8(addr + 28, if equipped { 1 } else { 0 }).unwrap();
    cpu.mem.write_u64(addr + 8, next).unwrap();
}

#[test]
fn equipped_cache_scan_stops_at_shield_boundary() {
    let mut cpu = with_pmdm(GameVer::X150);
    let list_head = PMDM + 0x68;
    let i1 = BASE + 0x5000;
    let i2 = BASE + 0x5100;
    let i3 = BASE + 0x5200;
    let i4 = BASE + 0x5300;
    let i5 = BASE + 0x5400;
    // item-type sequence [0, 1, 3, 5, 99] with every item equipped
    cpu.mem.write_u64(list_head + 8, i1).unwrap();
    write_item(&mut cpu, i1, 0, true, i2);
    write_item(&mut cpu, i2, 1, true, i3);
    write_item(&mut cpu, i3, 3, true, i4);
    write_item(&mut cpu, i4, 5, true, i5);
    write_item(&mut cpu, i5, 99, true, list_head);
    // pre-fill the cache so the clearing is observable
    cpu.mem.write_u64(PMDM + 0x390 + 16, 0xDEAD).unwrap();
    ops::update_equipped_item_array(&mut cpu).unwrap();
    // only 0, 1, 3 were processed; 5 and 99 were never reached
    assert_eq!(cpu.mem.read_u64(PMDM + 0x390).unwrap(), i1);
    assert_eq!(cpu.mem.read_u64(PMDM + 0x390 + 8).unwrap(), i2);
    assert_eq!(cpu.mem.read_u64(PMDM + 0x390 + 16).unwrap(), 0);
    assert_eq!(cpu.mem.read_u64(PMDM + 0x390 + 24).unwrap(), i3);
}

#[test]
fn equipped_cache_negative_type_falls_back_to_slot_zero() {
    let mut cpu = with_pmdm(GameVer::X150);
    let list_head = PMDM + 0x68;
    let i1 = BASE + 0x5000;
    cpu.mem.write_u64(list_head + 8, i1).unwrap();
    write_item(&mut cpu, i1, -7, true, list_head);
    ops::update_equipped_item_array(&mut cpu).unwrap();
    assert_eq!(cpu.mem.read_u64(PMDM + 0x390).unwrap(), i1);
}

#[test]
fn list_heads_category_routing() {
    let mut cpu = with_pmdm(GameVer::X150);
    let types = PMDM + 0x290;
    let tabs = PMDM + 0x100;
    let heads = PMDM + 0x358;
    // codes 0..=9 route to {0,1,1,2,3,3,3,4,5,6}; 42 is skipped; the
    // first tab per category is kept
    let codes: [i32; 10] = [0, 1, 2, 3, 4, 7, 8, 9, 0, 42];
    for (i, c) in codes.iter().enumerate() {
        cpu.mem.write_i32(types + 4 * i as u64, *c).unwrap();
    }
    // park the remaining tabs outside the known set so they are skipped
    for i in 10..50u64 {
        cpu.mem.write_i32(types + 4 * i, 77).unwrap();
    }
    ops::update_list_heads(&mut cpu).unwrap();
    assert_eq!(cpu.mem.read_u64(heads).unwrap(), tabs); // code 0 at tab 0
    assert_eq!(cpu.mem.read_u64(heads + 8).unwrap(), tabs + 8); // code 1 at tab 1, code 2 never overwrites
    assert_eq!(cpu.mem.read_u64(heads + 16).unwrap(), tabs + 24); // code 3 at tab 3
    assert_eq!(cpu.mem.read_u64(heads + 24).unwrap(), tabs + 32); // code 4 at tab 4
    assert_eq!(cpu.mem.read_u64(heads + 32).unwrap(), tabs + 40); // code 7 at tab 5
    assert_eq!(cpu.mem.read_u64(heads + 40).unwrap(), tabs + 48); // code 8 at tab 6
    assert_eq!(cpu.mem.read_u64(heads + 48).unwrap(), tabs + 56); // code 9 at tab 7
}

#[test]
fn category_codes_route_as_documented() {
    let expect: [(i32, Option<usize>); 12] = [
        (0, Some(0)),
        (1, Some(1)),
        (2, Some(1)),
        (3, Some(2)),
        (4, Some(3)),
        (5, Some(3)),
        (6, Some(3)),
        (7, Some(4)),
        (8, Some(5)),
        (9, Some(6)),
        (-1, None),
        (10, None),
    ];
    for (code, want) in expect {
        assert_eq!(ops::category_index(code), want);
    }
}

#[test]
fn held_capacity_empty_buffer() {
    let cpu = with_pmdm(GameVer::X150);
    assert_eq!(ops::can_hold_another_item(&cpu), Ok(true));
}

#[test]
fn held_capacity_full_buffer() {
    let mut cpu = with_pmdm(GameVer::X150);
    for i in 0..5u64 {
        cpu.mem.write_u64(PMDM + 0x3B0 + 16 * i, BASE + 0x5000 + i).unwrap();
    }
    assert_eq!(ops::can_hold_another_item(&cpu), Ok(false));
}

#[test]
fn held_capacity_single_empty_slot() {
    for empty in 0..5u64 {
        let mut cpu = with_pmdm(GameVer::X150);
        for i in 0..5u64 {
            if i != empty {
                cpu.mem.write_u64(PMDM + 0x3B0 + 16 * i, BASE + 0x5000 + i).unwrap();
            }
        }
        assert_eq!(ops::can_hold_another_item(&cpu), Ok(true));
    }
}

#[test]
fn unequip_clears_flag_and_persists() {
    let mut cpu = with_pmdm(GameVer::X150);
    // saveToGameData: plain return
    cpu.mem.write_u32(BASE + 0x0096_F9BC, RET).unwrap();
    let item = BASE + 0x8000;
    cpu.mem.write_u8(item + 28, 1).unwrap();
    ops::unequip(&mut cpu, PouchItemPtr { addr: item }).unwrap();
    assert_eq!(cpu.mem.read_u8(item + 28).unwrap(), 0);
}

#[test]
fn unequip_null_is_a_successful_no_op() {
    let mut cpu = make_cpu(GameVer::X150);
    // no singleton, no code: a null handle must still succeed
    assert_eq!(ops::unequip(&mut cpu, PouchItemPtr { addr: 0 }), Ok(()));
}

#[test]
fn actor_profile_round_trip() {
    let mut cpu = make_cpu(GameVer::X150);
    let info = BASE + 0x6000;
    cpu.mem.write_u64(INFO_SLOT, info).unwrap();
    // profile string at absolute 0x10010000
    let s = b"WeaponSmallSword\0";
    cpu.mem.write_bytes(0x1001_0000, s).unwrap();
    let entry = BASE + 0x00D3_01FC;
    // MOVZ x3, #0x1001, LSL #16 ; STR x3, [x1] ; RET
    cpu.mem.write_u32(entry, 0xD2A20023).unwrap();
    cpu.mem.write_u32(entry + 4, 0xF9000023).unwrap();
    cpu.mem.write_u32(entry + 8, RET).unwrap();
    let profile = ops::get_actor_profile(&mut cpu, "Weapon_Sword_070").unwrap();
    assert_eq!(profile, "WeaponSmallSword");
    assert_eq!(ops::is_weapon_profile(&mut cpu, "Weapon_Sword_070"), Ok(true));
}

#[test]
fn non_weapon_profile() {
    let mut cpu = make_cpu(GameVer::X150);
    let info = BASE + 0x6000;
    cpu.mem.write_u64(INFO_SLOT, info).unwrap();
    let s = b"Item\0";
    cpu.mem.write_bytes(0x1001_0000, s).unwrap();
    let entry = BASE + 0x00D3_01FC;
    cpu.mem.write_u32(entry, 0xD2A20023).unwrap();
    cpu.mem.write_u32(entry + 4, 0xF9000023).unwrap();
    cpu.mem.write_u32(entry + 8, RET).unwrap();
    assert_eq!(ops::is_weapon_profile(&mut cpu, "Item_Fruit_A"), Ok(false));
}

#[test]
fn holding_items_marks_spawned_slots() {
    let mut cpu = with_pmdm(GameVer::X150);
    // spawn routine: plain return
    cpu.mem.write_u32(BASE + 0x0073_C5B4, RET).unwrap();
    // a string vtable whose termination-assurance slot returns at once
    let vtable = BASE + 0x9000;
    let vfunc = BASE + 0x9100;
    cpu.mem.write_u32(vfunc, RET).unwrap();
    cpu.mem.write_u64(vtable + 0x18, vfunc).unwrap();
    // slot 0: an item to spawn; slot 1: already spawned; rest empty
    let item = BASE + 0xA000;
    cpu.mem.write_u64(item + 32, vtable).unwrap();
    cpu.mem.write_u64(PMDM + 0x3B0, item).unwrap();
    cpu.mem.write_u64(PMDM + 0x3B0 + 16, BASE + 0xB000).unwrap();
    cpu.mem.write_u8(PMDM + 0x3B0 + 16 + 8, 1).unwrap();
    cpu.mem.write_u64(BASE + 0xB000 + 32, vtable).unwrap();
    ops::create_holding_items(&mut cpu).unwrap();
    assert_eq!(cpu.mem.read_u8(PMDM + 0x3B0 + 8).unwrap(), 1);
    // the already-spawned slot keeps its mark
    assert_eq!(cpu.mem.read_u8(PMDM + 0x3B0 + 16 + 8).unwrap(), 1);
}

#[test]
fn get_item_dispatches_by_value_presence() {
    let mut cpu = with_pmdm(GameVer::X150);
    // the default-value path and the explicit-value path are distinct entries
    cpu.mem.write_u32(BASE + 0x0073_A464, RET).unwrap();
    cpu.mem.write_u32(BASE + 0x0096_EFB8, RET).unwrap();
    assert_eq!(ops::get_item(&mut cpu, "Weapon_Sword_070", None, None), Ok(()));
    assert_eq!(ops::get_item(&mut cpu, "Weapon_Sword_070", Some(2500), None), Ok(()));
    // with a modifier record marshaled as well
    let m = blueflame::records::WeaponModifierInfo { flags: 0x40, value: 12 };
    assert_eq!(ops::get_item(&mut cpu, "Weapon_Sword_070", Some(2500), Some(m)), Ok(()));
}

#[test]
fn get_cook_item_marshals_record() {
    let mut cpu = with_pmdm(GameVer::X150);
    cpu.mem.write_u32(BASE + 0x0097_0060, RET).unwrap();
    let ing = vec!["Item_Fruit_A".to_string(), "Item_Roast_03".to_string()];
    let r = ops::get_cook_item(
        &mut cpu,
        "Item_Cook_A_01",
        &ing,
        Some(3.5f32.to_bits()),
        Some(30),
        Some(40),
        Some(1),
        Some(2.0f32.to_bits()),
    );
    assert_eq!(r, Ok(()));
    // the record was marshaled at the top of the frame
    let cook = FRAME_BASE - 416;
    assert_eq!(cpu.mem.read_u32(cook + 384).unwrap(), 3.5f32.to_bits());
    assert_eq!(cpu.mem.read_i32(cook + 388).unwrap(), 30);
    assert_eq!(cpu.mem.read_i32(cook + 392).unwrap(), 40);
    assert_eq!(cpu.mem.read_i32(cook + 396).unwrap(), 1);
    assert_eq!(cpu.mem.read_u32(cook + 400).unwrap(), 2.0f32.to_bits());
}

#[test]
fn ldr_and_str_round_trip_through_memory() {
    // a routine that copies a value through memory:
    //   LDR x3, [x2] ; STR x3, [x1] ; RET
    let mut cpu = with_pmdm(GameVer::X150);
    let entry = BASE + 0xD000;
    cpu.mem.write_u32(entry, 0xF9400043).unwrap();
    cpu.mem.write_u32(entry + 4, 0xF9000023).unwrap();
    cpu.mem.write_u32(entry + 8, RET).unwrap();
    let src = BASE + 0xC000;
    let dst = BASE + 0xC100;
    cpu.mem.write_u64(src, 0x1122_3344_5566_7788).unwrap();
    cpu.reset_stack();
    cpu.write_x(1, dst);
    cpu.write_x(2, src);
    cpu.native_jump(entry).unwrap();
    assert_eq!(cpu.mem.read_u64(dst).unwrap(), 0x1122_3344_5566_7788);
}

#[test]
fn cyclic_item_list_is_a_data_fault() {
    let mut cpu = with_pmdm(GameVer::X150);
    let list_head = PMDM + 0x68;
    let i1 = BASE + 0x5000;
    let i2 = BASE + 0x5100;
    cpu.mem.write_u64(list_head + 8, i1).unwrap();
    // two equipped items that point at each other forever
    write_item(&mut cpu, i1, 0, true, i2);
    write_item(&mut cpu, i2, 1, true, i1);
    let r = ops::update_equipped_item_array(&mut cpu);
    assert_eq!(r, Err(Error::DataFault));
}

#[test]
fn equipped_item_pointer_decodes_from_return_register() {
    let mut cpu = with_pmdm(GameVer::X150);
    let entry = BASE + 0x0097_92F4;
    // MOVZ x0, #0x3333 ; RET
    cpu.mem.write_u32(entry, 0xD2800000 | (0x3333 << 5)).unwrap();
    cpu.mem.write_u32(entry + 4, RET).unwrap();
    let p = ops::get_equipped_item(&mut cpu, 0).unwrap();
    assert_eq!(p, PouchItemPtr { addr: 0x3333 });
    assert!(!p.is_nullptr());
    // a null return is an ordinary "nothing equipped" outcome
    cpu.mem.write_u32(entry, 0xD2800000).unwrap();
    let p = ops::get_equipped_item(&mut cpu, 0).unwrap();
    assert!(p.is_nullptr());
}

#[test]
fn plain_native_dispatches_succeed() {
    let mut cpu = with_pmdm(GameVer::X150);
    // give every fixed-offset action a plain-return routine
    for off in [
        0x0097_0264u64, // equip last added
        0x0097_7128, // delete removed
        0x0097_1B00, // remove held
        0x0097_ADFC, // unhold
        0x0097_D250, // sell
        0x0097_0A04, // remove weapon if equipped
        0x0097_A944, // equip weapon
        0x0097_1438, // set equipped weapon value
        0x0096_C954, // update inventory info
        0x0096_F9BC, // save
        0x0096_BE24, // load
        0x0097_1504, // create player equipment
        0x0097_6CC4, // use item
        0x0097_2608, // break sword
        0x0097_0D84, // remove arrow
        0x0097_04BC, // remove item by name
        0x0097_62A8, // equip from tab slot
        0x0097_64A0, // unequip from tab slot
        0x0097_66D8, // trash item
    ] {
        cpu.mem.write_u32(BASE + off, RET).unwrap();
    }
    assert_eq!(ops::equip_last_added_item(&mut cpu), Ok(()));
    assert_eq!(ops::delete_removed_items(&mut cpu), Ok(()));
    assert_eq!(ops::remove_held_items(&mut cpu), Ok(()));
    assert_eq!(ops::unhold_items(&mut cpu), Ok(()));
    assert_eq!(ops::sell_item(&mut cpu, PouchItemPtr { addr: BASE + 0x5000 }, 2), Ok(()));
    assert_eq!(ops::remove_weapon_if_equipped(&mut cpu, "Weapon_Sword_070"), Ok(()));
    assert_eq!(ops::equip_weapon(&mut cpu, PouchItemPtr { addr: BASE + 0x5000 }), Ok(()));
    assert_eq!(ops::set_equipped_weapon_value(&mut cpu, 10, 0), Ok(()));
    assert_eq!(ops::update_inventory_info(&mut cpu), Ok(()));
    assert_eq!(ops::save_to_game_data(&mut cpu), Ok(()));
    assert_eq!(ops::load_from_game_data(&mut cpu), Ok(()));
    assert_eq!(ops::create_player_equipment(&mut cpu), Ok(()));
    assert_eq!(ops::use_item(&mut cpu, 1, 2, 3), Ok(()));
    assert_eq!(ops::break_master_sword(&mut cpu), Ok(()));
    assert_eq!(ops::remove_arrow(&mut cpu, "NormalArrow", -2), Ok(()));
    assert_eq!(ops::remove_item_by_name(&mut cpu, "Animal_Insect_F"), Ok(()));
    assert_eq!(ops::equip_from_tab_slot(&mut cpu, 0, 1), Ok(()));
    assert_eq!(ops::unequip_from_tab_slot(&mut cpu, 0, 1), Ok(()));
    assert_eq!(ops::trash_item(&mut cpu, 0, 1), Ok(()));
}

#[test]
fn runaway_execution_hits_the_instruction_budget() {
    let mut cpu = with_pmdm(GameVer::X150);
    let entry = BASE + 0x0097_0264;
    // a routine that never returns: one instruction jumping to itself
    // is not encodable here, so pave a long road of no-ops past the
    // budget instead
    for k in 0..70_000u64 {
        cpu.mem.write_u32(entry + 4 * k, 0xD503201F).unwrap();
    }
    let r = ops::equip_last_added_item(&mut cpu);
    assert_eq!(r, Err(Error::UnsupportedInstruction));
}
