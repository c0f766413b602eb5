//! The operation library: one typed, fallible function per logical
//! game action.
//!
//! Each operation validates its inputs, resolves the manager
//! singleton(s) it needs, marshals arguments via typed stores and
//! register writes, dispatches per the revision table — a fixed native
//! offset, or a hand-written reimplementation where the routine is
//! inlined in the active revision — decodes results from registers and
//! memory, and returns a typed value or nothing. A missing
//! `(operation, revision)` combination fails fast with
//! `VersionUnsupported` and never jumps to a zero or stale address.

use vstd::prelude::*;
use vstd::string::StringSliceAdditionalSpecFns;

use crate::arena::{i32_as_u32, mem_in_range, mem_read_u32, mem_read_u64, mem_write_u32, mem_write_u64, u32_as_i32};
use crate::cpu::{jump_outcome, MState, VirtualCpu};
use crate::env::{dispatch_of, op_dispatch, Dispatch, Environment, Operation};
use crate::error::Error;
use crate::records::{
    modifier_image, sstr_bytes, sstr_construct_image, sstr_store_image, sstr_vtable_offset,
    COOK_ITEM_EFFECT_ID_OFF, COOK_ITEM_EFFECT_TIME_OFF, COOK_ITEM_INGREDIENTS_OFF,
    COOK_ITEM_IS_CRIT_OFF, COOK_ITEM_LIFE_RECOVER_OFF, COOK_ITEM_SELL_PRICE_OFF, COOK_ITEM_SIZE,
    COOK_ITEM_VITALITY_BOOST_OFF,
    sstr_vtable_offset_exec, PouchItemPtr, WeaponModifierInfo, CATEGORY_SLOTS, EQUIPPED_SLOTS,
    GRABBED_SLOTS, PMDM_EQUIPPED_OFF, PMDM_GRABBED_OFF, PMDM_GRABBED_STRIDE, PMDM_LIST1_OFF,
    PMDM_LIST_HEADS_OFF, PMDM_SIZE, PMDM_TABS_OFF, PMDM_TABS_TYPE_OFF, POUCH_ITEM_EQUIPPED_OFF,
    POUCH_ITEM_NAME_OFF, POUCH_ITEM_NEXT_OFF, POUCH_ITEM_TYPE_OFF, SAFE_STRING_VFUNC_OFF, STRING40_BUF_OFF,
    STRING40_CAP, STRING40_SIZE, TAB_SLOTS, WEAPON_MODIFIER_SIZE,
};
use crate::singleton::{resolve, resolve_spec, SingletonId};

verus! {

/// The 32-bit two's-complement image of a signed argument, as it is
/// placed in a register's low view.
fn i32_bits(v: i32) -> (r: u32)
    ensures
        r == i32_as_u32(v),
{
    proof {
        assert(v < 0 ==> v as int + 0x1_0000_0000 == (v as u32) as int) by (bit_vector);
    }
    #[verifier::truncate]
    (v as u32)
}

/// The 64-bit sign-extended image of a signed argument, as it is
/// placed in a full register.
pub open spec fn i32_sx_u64(v: i32) -> u64 {
    if v >= 0 {
        v as u64
    } else {
        (v + 0x1_0000_0000_0000_0000) as u64
    }
}

/// Executable counterpart of [`i32_sx_u64`].
fn i32_sx_bits(v: i32) -> (r: u64)
    ensures
        r == i32_sx_u64(v),
{
    proof {
        assert(v < 0 ==> v as int + 0x1_0000_0000_0000_0000 == ((v as i64) as u64) as int)
            by (bit_vector);
        assert(v >= 0 ==> v as int == ((v as i64) as u64) as int) by (bit_vector);
    }
    #[verifier::truncate]
    ((v as i64) as u64)
}

/// What jumping into an operation's native entry yields, from the
/// given marshaled register file over the CPU's current memory: the
/// dispatch table is consulted first, and a gap never executes.
pub open spec fn simple_call_outcome(cpu: VirtualCpu, op: Operation, regs1: Seq<u64>) -> Result<
    MState,
    Error,
> {
    match dispatch_of(op, cpu.env.game_ver) {
        Dispatch::Native(off) => {
            if cpu.env.base_address as int + off as int > u64::MAX {
                Err(Error::OutOfRange)
            } else {
                jump_outcome(
                    cpu.mem.base as int,
                    cpu.mem.data@,
                    regs1,
                    (cpu.env.base_address + off) as u64,
                )
            }
        },
        _ => Err(Error::VersionUnsupported),
    }
}

/// What jumping into an operation's native entry yields from an
/// explicitly given marshaled memory and register file.
pub open spec fn call_outcome(cpu: VirtualCpu, op: Operation, mem1: Seq<u8>, regs1: Seq<u64>) -> Result<
    MState,
    Error,
> {
    match dispatch_of(op, cpu.env.game_ver) {
        Dispatch::Native(off) => {
            if cpu.env.base_address as int + off as int > u64::MAX {
                Err(Error::OutOfRange)
            } else {
                jump_outcome(cpu.mem.base as int, mem1, regs1, (cpu.env.base_address + off) as u64)
            }
        },
        _ => Err(Error::VersionUnsupported),
    }
}

/// The memory image after a fixed string record holding `bytes` has
/// been constructed and stored at `a`, over `cpu`'s current memory.
pub open spec fn string40_image(cpu: VirtualCpu, a: int, bytes: Seq<u8>) -> Seq<u8> {
    let base = cpu.mem.base as int;
    let vt = (cpu.env.base_address + sstr_vtable_offset(cpu.env.game_ver)) as u64;
    sstr_store_image(base, sstr_construct_image(base, cpu.mem.data@, a, vt), a, bytes)
}

/// The error [`stack_alloc_string40`] fails with over a fresh frame of
/// `cpu`, if any: the value must fit the container, the vtable address
/// must resolve, and the frame must have room.
pub open spec fn string40_alloc_err(cpu: VirtualCpu, bytes: Seq<u8>) -> Option<Error> {
    if bytes.len() >= STRING40_CAP {
        Some(Error::OutOfRange)
    } else if cpu.env.base_address as int + sstr_vtable_offset(cpu.env.game_ver) as int
        > u64::MAX {
        Some(Error::OutOfRange)
    } else if cpu.frame_base as int - STRING40_SIZE < cpu.stack_limit as int {
        Some(Error::StackOverflow)
    } else {
        None
    }
}

/// Allocate a fixed string record on the stack frame, run its foreign
/// default-initialization, and encode `value` into it. Returns the
/// record's address.
pub fn stack_alloc_string40(cpu: &mut VirtualCpu, value: &str) -> (r: Result<u64, Error>)
    requires
        old(cpu).wf(),
    ensures
        final(cpu).wf(),
        final(cpu).same_session(&*old(cpu)),
        final(cpu).regs == old(cpu).regs,
        ({
            let base = old(cpu).mem.base as int;
            let vt = old(cpu).env.base_address as int + sstr_vtable_offset(
                old(cpu).env.game_ver,
            ) as int;
            if value.spec_bytes().len() >= STRING40_CAP {
                r == Err::<u64, Error>(Error::OutOfRange) && *final(cpu) == *old(cpu)
            } else if vt > u64::MAX {
                r == Err::<u64, Error>(Error::OutOfRange) && *final(cpu) == *old(cpu)
            } else if old(cpu).sp as int - STRING40_SIZE < old(cpu).stack_limit as int {
                r == Err::<u64, Error>(Error::StackOverflow) && *final(cpu) == *old(cpu)
            } else {
                let a = (old(cpu).sp - STRING40_SIZE) as u64;
                &&& r == Ok::<u64, Error>(a)
                &&& final(cpu).sp == a
                &&& final(cpu).mem.data@ == sstr_store_image(
                    base,
                    sstr_construct_image(base, old(cpu).mem.data@, a as int, (vt as u64)),
                    a as int,
                    value.spec_bytes(),
                )
                &&& sstr_bytes(base, final(cpu).mem.data@, a as int) == value.spec_bytes()
            }
        }),
{
    let bytes = value.as_bytes();
    if bytes.len() as u64 >= STRING40_CAP {
        return Err(Error::OutOfRange);
    }
    let vt_off = sstr_vtable_offset_exec(cpu.env.game_ver);
    if vt_off > u64::MAX - cpu.env.base_address {
        return Err(Error::OutOfRange);
    }
    let vtable = cpu.env.base_address + vt_off;
    let a = match cpu.stack_alloc(STRING40_SIZE) {
        Ok(a) => a,
        Err(e) => {
            return Err(e);
        },
    };
    let r1 = crate::records::sstr_construct(&mut cpu.mem, a, vtable);
    proof {
        assert(r1 is Ok);
    }
    let r2 = crate::records::sstr_store(&mut cpu.mem, a, bytes);
    proof {
        assert(r2 is Ok);
    }
    Ok(a)
}

/// Allocate a weapon-modifier record on the stack frame and store the
/// value in it; a `None` marshals as the null pointer without
/// allocating.
pub fn stack_alloc_weapon_modifier(cpu: &mut VirtualCpu, value: Option<WeaponModifierInfo>) -> (r:
    Result<u64, Error>)
    requires
        old(cpu).wf(),
    ensures
        final(cpu).wf(),
        final(cpu).same_session(&*old(cpu)),
        final(cpu).regs == old(cpu).regs,
        ({
            match value {
                None => r == Ok::<u64, Error>(0) && *final(cpu) == *old(cpu),
                Some(m) => {
                    if old(cpu).sp as int - WEAPON_MODIFIER_SIZE < old(cpu).stack_limit as int {
                        r == Err::<u64, Error>(Error::StackOverflow) && *final(cpu) == *old(cpu)
                    } else {
                        let a = (old(cpu).sp - WEAPON_MODIFIER_SIZE) as u64;
                        &&& r == Ok::<u64, Error>(a)
                        &&& final(cpu).sp == a
                        &&& final(cpu).mem.data@ == modifier_image(
                            old(cpu).mem.base as int,
                            old(cpu).mem.data@,
                            a as int,
                            m,
                        )
                    }
                },
            }
        }),
{
    match value {
        Some(m) => {
            let a = match cpu.stack_alloc(WEAPON_MODIFIER_SIZE) {
                Ok(a) => a,
                Err(e) => {
                    return Err(e);
                },
            };
            let r1 = crate::records::store_modifier(&mut cpu.mem, a, m);
            proof {
                assert(r1 is Ok);
            }
            Ok(a)
        },
        None => Ok(0),
    }
}

/// Call the termination-assurance virtual function of a foreign string
/// object: the target address is read from the object's own dispatch
/// table and validated before the jump, a distinct primitive from the
/// fixed-offset path. Trashes registers like any call.
pub fn assure_termination(cpu: &mut VirtualCpu, ptr: u64) -> (r: Result<(), Error>)
    requires
        old(cpu).wf(),
    ensures
        final(cpu).wf(),
        final(cpu).same_session(&*old(cpu)),
        final(cpu).sp == old(cpu).sp,
        ({
            let base = old(cpu).mem.base as int;
            let m = old(cpu).mem.data@;
            if !mem_in_range(base, m, ptr as int, 8) {
                r == Err::<(), Error>(Error::OutOfRange) && *final(cpu) == *old(cpu)
            } else {
                let vtable = mem_read_u64(base, m, ptr as int);
                if vtable as int + SAFE_STRING_VFUNC_OFF as int + 8 > u64::MAX {
                    r == Err::<(), Error>(Error::OutOfRange) && *final(cpu) == *old(cpu)
                } else if !mem_in_range(base, m, vtable as int + SAFE_STRING_VFUNC_OFF as int, 8) {
                    r == Err::<(), Error>(Error::OutOfRange) && *final(cpu) == *old(cpu)
                } else {
                    let func = mem_read_u64(base, m, vtable as int + SAFE_STRING_VFUNC_OFF as int);
                    match jump_outcome(base, m, old(cpu).regs@.update(0, ptr), func) {
                        Ok(ms) => r is Ok && final(cpu).regs@ == ms.regs && final(cpu).mem.data@
                            == ms.mem,
                        Err(e) => r is Err && r->Err_0 == e,
                    }
                }
            }
        }),
{
    let vtable = match cpu.mem.read_u64(ptr) {
        Ok(v) => v,
        Err(e) => {
            return Err(e);
        },
    };
    if vtable > u64::MAX - SAFE_STRING_VFUNC_OFF - 8 {
        return Err(Error::OutOfRange);
    }
    let func = match cpu.mem.read_u64(vtable + SAFE_STRING_VFUNC_OFF) {
        Ok(v) => v,
        Err(e) => {
            return Err(e);
        },
    };
    cpu.write_x(0, ptr);
    cpu.native_jump(func)
}

/// Call the native routine that auto-equips the last added item.
pub fn equip_last_added_item(cpu: &mut VirtualCpu) -> (r: Result<(), Error>)
    requires
        old(cpu).wf(),
    ensures
        final(cpu).wf(),
        final(cpu).same_session(&*old(cpu)),
        final(cpu).sp == old(cpu).frame_base,
        dispatch_of(Operation::EquipLastAddedItem, old(cpu).env.game_ver)
            == Dispatch::Unimplemented ==> final(cpu).mem.data@ == old(cpu).mem.data@,
        ({
            let m = old(cpu).mem;
            match resolve_spec(m.base as int, m.data@, old(cpu).env, SingletonId::PauseMenuDataMgr) {
                Err(e) => r is Err && r->Err_0 == e && final(cpu).mem.data@ == m.data@,
                Ok(this) => match simple_call_outcome(
                    *old(cpu),
                    Operation::EquipLastAddedItem,
                    old(cpu).regs@.update(0, this),
                ) {
                    Ok(ms) => r is Ok && final(cpu).regs@ == ms.regs && final(cpu).mem.data@
                        == ms.mem,
                    Err(e) => r is Err && r->Err_0 == e,
                },
            }
        }),
{
    cpu.reset_stack();
    let this_ptr = match resolve(&cpu.mem, &cpu.env, SingletonId::PauseMenuDataMgr) {
        Ok(p) => p,
        Err(e) => {
            return Err(e);
        },
    };
    cpu.write_x(0, this_ptr);
    match op_dispatch(Operation::EquipLastAddedItem, cpu.env.game_ver) {
        Dispatch::Native(off) => cpu.native_jump_to_main_offset(off),
        _ => Err(Error::VersionUnsupported),
    }
}

/// Call the native routine that deletes removed (translucent) items.
pub fn delete_removed_items(cpu: &mut VirtualCpu) -> (r: Result<(), Error>)
    requires
        old(cpu).wf(),
    ensures
        final(cpu).wf(),
        final(cpu).same_session(&*old(cpu)),
        final(cpu).sp == old(cpu).frame_base,
        dispatch_of(Operation::DeleteRemovedItems, old(cpu).env.game_ver)
            == Dispatch::Unimplemented ==> final(cpu).mem.data@ == old(cpu).mem.data@,
        ({
            let m = old(cpu).mem;
            match resolve_spec(m.base as int, m.data@, old(cpu).env, SingletonId::PauseMenuDataMgr) {
                Err(e) => r is Err && r->Err_0 == e && final(cpu).mem.data@ == m.data@,
                Ok(this) => match simple_call_outcome(
                    *old(cpu),
                    Operation::DeleteRemovedItems,
                    old(cpu).regs@.update(0, this),
                ) {
                    Ok(ms) => r is Ok && final(cpu).regs@ == ms.regs && final(cpu).mem.data@
                        == ms.mem,
                    Err(e) => r is Err && r->Err_0 == e,
                },
            }
        }),
{
    cpu.reset_stack();
    let this_ptr = match resolve(&cpu.mem, &cpu.env, SingletonId::PauseMenuDataMgr) {
        Ok(p) => p,
        Err(e) => {
            return Err(e);
        },
    };
    cpu.write_x(0, this_ptr);
    match op_dispatch(Operation::DeleteRemovedItems, cpu.env.game_ver) {
        Dispatch::Native(off) => cpu.native_jump_to_main_offset(off),
        _ => Err(Error::VersionUnsupported),
    }
}

/// Call the native routine that removes the currently held items.
pub fn remove_held_items(cpu: &mut VirtualCpu) -> (r: Result<(), Error>)
    requires
        old(cpu).wf(),
    ensures
        final(cpu).wf(),
        final(cpu).same_session(&*old(cpu)),
        final(cpu).sp == old(cpu).frame_base,
        dispatch_of(Operation::RemoveHeldItems, old(cpu).env.game_ver) == Dispatch::Unimplemented
            ==> final(cpu).mem.data@ == old(cpu).mem.data@,
        ({
            let m = old(cpu).mem;
            match resolve_spec(m.base as int, m.data@, old(cpu).env, SingletonId::PauseMenuDataMgr) {
                Err(e) => r is Err && r->Err_0 == e && final(cpu).mem.data@ == m.data@,
                Ok(this) => match simple_call_outcome(
                    *old(cpu),
                    Operation::RemoveHeldItems,
                    old(cpu).regs@.update(0, this),
                ) {
                    Ok(ms) => r is Ok && final(cpu).regs@ == ms.regs && final(cpu).mem.data@
                        == ms.mem,
                    Err(e) => r is Err && r->Err_0 == e,
                },
            }
        }),
{
    cpu.reset_stack();
    let this_ptr = match resolve(&cpu.mem, &cpu.env, SingletonId::PauseMenuDataMgr) {
        Ok(p) => p,
        Err(e) => {
            return Err(e);
        },
    };
    cpu.write_x(0, this_ptr);
    match op_dispatch(Operation::RemoveHeldItems, cpu.env.game_ver) {
        Dispatch::Native(off) => cpu.native_jump_to_main_offset(off),
        _ => Err(Error::VersionUnsupported),
    }
}

/// Call the native routine that unholds the currently grabbed items.
pub fn unhold_items(cpu: &mut VirtualCpu) -> (r: Result<(), Error>)
    requires
        old(cpu).wf(),
    ensures
        final(cpu).wf(),
        final(cpu).same_session(&*old(cpu)),
        final(cpu).sp == old(cpu).frame_base,
        dispatch_of(Operation::UnholdItems, old(cpu).env.game_ver) == Dispatch::Unimplemented
            ==> final(cpu).mem.data@ == old(cpu).mem.data@,
        ({
            let m = old(cpu).mem;
            match resolve_spec(m.base as int, m.data@, old(cpu).env, SingletonId::PauseMenuDataMgr) {
                Err(e) => r is Err && r->Err_0 == e && final(cpu).mem.data@ == m.data@,
                Ok(this) => match simple_call_outcome(
                    *old(cpu),
                    Operation::UnholdItems,
                    old(cpu).regs@.update(0, this),
                ) {
                    Ok(ms) => r is Ok && final(cpu).regs@ == ms.regs && final(cpu).mem.data@
                        == ms.mem,
                    Err(e) => r is Err && r->Err_0 == e,
                },
            }
        }),
{
    cpu.reset_stack();
    let this_ptr = match resolve(&cpu.mem, &cpu.env, SingletonId::PauseMenuDataMgr) {
        Ok(p) => p,
        Err(e) => {
            return Err(e);
        },
    };
    cpu.write_x(0, this_ptr);
    match op_dispatch(Operation::UnholdItems, cpu.env.game_ver) {
        Dispatch::Native(off) => cpu.native_jump_to_main_offset(off),
        _ => Err(Error::VersionUnsupported),
    }
}

/// Call the native routine that breaks the hero's sword.
pub fn break_master_sword(cpu: &mut VirtualCpu) -> (r: Result<(), Error>)
    requires
        old(cpu).wf(),
    ensures
        final(cpu).wf(),
        final(cpu).same_session(&*old(cpu)),
        final(cpu).sp == old(cpu).frame_base,
        dispatch_of(Operation::BreakMasterSword, old(cpu).env.game_ver) == Dispatch::Unimplemented
            ==> final(cpu).mem.data@ == old(cpu).mem.data@,
        ({
            let m = old(cpu).mem;
            match resolve_spec(m.base as int, m.data@, old(cpu).env, SingletonId::PauseMenuDataMgr) {
                Err(e) => r is Err && r->Err_0 == e && final(cpu).mem.data@ == m.data@,
                Ok(this) => match simple_call_outcome(
                    *old(cpu),
                    Operation::BreakMasterSword,
                    old(cpu).regs@.update(0, this),
                ) {
                    Ok(ms) => r is Ok && final(cpu).regs@ == ms.regs && final(cpu).mem.data@
                        == ms.mem,
                    Err(e) => r is Err && r->Err_0 == e,
                },
            }
        }),
{
    cpu.reset_stack();
    let this_ptr = match resolve(&cpu.mem, &cpu.env, SingletonId::PauseMenuDataMgr) {
        Ok(p) => p,
        Err(e) => {
            return Err(e);
        },
    };
    cpu.write_x(0, this_ptr);
    match op_dispatch(Operation::BreakMasterSword, cpu.env.game_ver) {
        Dispatch::Native(off) => cpu.native_jump_to_main_offset(off),
        _ => Err(Error::VersionUnsupported),
    }
}

/// Call the native routine that reloads the inventory from persisted
/// game data; the persisted format is owned by the target binary.
pub fn load_from_game_data(cpu: &mut VirtualCpu) -> (r: Result<(), Error>)
    requires
        old(cpu).wf(),
    ensures
        final(cpu).wf(),
        final(cpu).same_session(&*old(cpu)),
        final(cpu).sp == old(cpu).frame_base,
        dispatch_of(Operation::LoadFromGameData, old(cpu).env.game_ver) == Dispatch::Unimplemented
            ==> final(cpu).mem.data@ == old(cpu).mem.data@,
        ({
            let m = old(cpu).mem;
            match resolve_spec(m.base as int, m.data@, old(cpu).env, SingletonId::PauseMenuDataMgr) {
                Err(e) => r is Err && r->Err_0 == e && final(cpu).mem.data@ == m.data@,
                Ok(this) => match simple_call_outcome(
                    *old(cpu),
                    Operation::LoadFromGameData,
                    old(cpu).regs@.update(0, this),
                ) {
                    Ok(ms) => r is Ok && final(cpu).regs@ == ms.regs && final(cpu).mem.data@
                        == ms.mem,
                    Err(e) => r is Err && r->Err_0 == e,
                },
            }
        }),
{
    cpu.reset_stack();
    let this_ptr = match resolve(&cpu.mem, &cpu.env, SingletonId::PauseMenuDataMgr) {
        Ok(p) => p,
        Err(e) => {
            return Err(e);
        },
    };
    cpu.write_x(0, this_ptr);
    match op_dispatch(Operation::LoadFromGameData, cpu.env.game_ver) {
        Dispatch::Native(off) => cpu.native_jump_to_main_offset(off),
        _ => Err(Error::VersionUnsupported),
    }
}

/// Call the native routine that spawns the player's equipment actors.
pub fn create_player_equipment(cpu: &mut VirtualCpu) -> (r: Result<(), Error>)
    requires
        old(cpu).wf(),
    ensures
        final(cpu).wf(),
        final(cpu).same_session(&*old(cpu)),
        final(cpu).sp == old(cpu).frame_base,
        dispatch_of(Operation::CreatePlayerEquipment, old(cpu).env.game_ver)
            == Dispatch::Unimplemented ==> final(cpu).mem.data@ == old(cpu).mem.data@,
        ({
            let m = old(cpu).mem;
            match resolve_spec(m.base as int, m.data@, old(cpu).env, SingletonId::PauseMenuDataMgr) {
                Err(e) => r is Err && r->Err_0 == e && final(cpu).mem.data@ == m.data@,
                Ok(this) => match simple_call_outcome(
                    *old(cpu),
                    Operation::CreatePlayerEquipment,
                    old(cpu).regs@.update(0, this),
                ) {
                    Ok(ms) => r is Ok && final(cpu).regs@ == ms.regs && final(cpu).mem.data@
                        == ms.mem,
                    Err(e) => r is Err && r->Err_0 == e,
                },
            }
        }),
{
    cpu.reset_stack();
    let this_ptr = match resolve(&cpu.mem, &cpu.env, SingletonId::PauseMenuDataMgr) {
        Ok(p) => p,
        Err(e) => {
            return Err(e);
        },
    };
    cpu.write_x(0, this_ptr);
    match op_dispatch(Operation::CreatePlayerEquipment, cpu.env.game_ver) {
        Dispatch::Native(off) => cpu.native_jump_to_main_offset(off),
        _ => Err(Error::VersionUnsupported),
    }
}

/// Call the native routine that trashes (holds or drops) the item in
/// the given tab and slot.
pub fn trash_item(cpu: &mut VirtualCpu, tab_index: i32, slot_index: i32) -> (r: Result<(), Error>)
    requires
        old(cpu).wf(),
    ensures
        final(cpu).wf(),
        final(cpu).same_session(&*old(cpu)),
        final(cpu).sp == old(cpu).frame_base,
        dispatch_of(Operation::TrashItem, old(cpu).env.game_ver) == Dispatch::Unimplemented
            ==> final(cpu).mem.data@ == old(cpu).mem.data@,
        ({
            let m = old(cpu).mem;
            match resolve_spec(m.base as int, m.data@, old(cpu).env, SingletonId::PauseMenuDataMgr) {
                Err(e) => r is Err && r->Err_0 == e && final(cpu).mem.data@ == m.data@,
                Ok(this) => match simple_call_outcome(
                    *old(cpu),
                    Operation::TrashItem,
                    old(cpu).regs@.update(0, this).update(1, i32_as_u32(tab_index) as u64).update(
                        2,
                        i32_as_u32(slot_index) as u64,
                    ),
                ) {
                    Ok(ms) => r is Ok && final(cpu).regs@ == ms.regs && final(cpu).mem.data@
                        == ms.mem,
                    Err(e) => r is Err && r->Err_0 == e,
                },
            }
        }),
{
    cpu.reset_stack();
    let this_ptr = match resolve(&cpu.mem, &cpu.env, SingletonId::PauseMenuDataMgr) {
        Ok(p) => p,
        Err(e) => {
            return Err(e);
        },
    };
    cpu.write_x(0, this_ptr);
    cpu.write_w(1, i32_bits(tab_index));
    cpu.write_w(2, i32_bits(slot_index));
    match op_dispatch(Operation::TrashItem, cpu.env.game_ver) {
        Dispatch::Native(off) => cpu.native_jump_to_main_offset(off),
        _ => Err(Error::VersionUnsupported),
    }
}

/// Call the native routine that equips the item in the given tab and
/// slot.
pub fn equip_from_tab_slot(cpu: &mut VirtualCpu, tab_index: i32, slot_index: i32) -> (r: Result<
    (),
    Error,
>)
    requires
        old(cpu).wf(),
    ensures
        final(cpu).wf(),
        final(cpu).same_session(&*old(cpu)),
        final(cpu).sp == old(cpu).frame_base,
        dispatch_of(Operation::EquipFromTabSlot, old(cpu).env.game_ver) == Dispatch::Unimplemented
            ==> final(cpu).mem.data@ == old(cpu).mem.data@,
        ({
            let m = old(cpu).mem;
            match resolve_spec(m.base as int, m.data@, old(cpu).env, SingletonId::PauseMenuDataMgr) {
                Err(e) => r is Err && r->Err_0 == e && final(cpu).mem.data@ == m.data@,
                Ok(this) => match simple_call_outcome(
                    *old(cpu),
                    Operation::EquipFromTabSlot,
                    old(cpu).regs@.update(0, this).update(1, i32_as_u32(tab_index) as u64).update(
                        2,
                        i32_as_u32(slot_index) as u64,
                    ),
                ) {
                    Ok(ms) => r is Ok && final(cpu).regs@ == ms.regs && final(cpu).mem.data@
                        == ms.mem,
                    Err(e) => r is Err && r->Err_0 == e,
                },
            }
        }),
{
    cpu.reset_stack();
    let this_ptr = match resolve(&cpu.mem, &cpu.env, SingletonId::PauseMenuDataMgr) {
        Ok(p) => p,
        Err(e) => {
            return Err(e);
        },
    };
    cpu.write_x(0, this_ptr);
    cpu.write_w(1, i32_bits(tab_index));
    cpu.write_w(2, i32_bits(slot_index));
    match op_dispatch(Operation::EquipFromTabSlot, cpu.env.game_ver) {
        Dispatch::Native(off) => cpu.native_jump_to_main_offset(off),
        _ => Err(Error::VersionUnsupported),
    }
}

/// Call the native routine that unequips the item in the given tab and
/// slot.
pub fn unequip_from_tab_slot(cpu: &mut VirtualCpu, tab_index: i32, slot_index: i32) -> (r: Result<
    (),
    Error,
>)
    requires
        old(cpu).wf(),
    ensures
        final(cpu).wf(),
        final(cpu).same_session(&*old(cpu)),
        final(cpu).sp == old(cpu).frame_base,
        dispatch_of(Operation::UnequipFromTabSlot, old(cpu).env.game_ver)
            == Dispatch::Unimplemented ==> final(cpu).mem.data@ == old(cpu).mem.data@,
        ({
            let m = old(cpu).mem;
            match resolve_spec(m.base as int, m.data@, old(cpu).env, SingletonId::PauseMenuDataMgr) {
                Err(e) => r is Err && r->Err_0 == e && final(cpu).mem.data@ == m.data@,
                Ok(this) => match simple_call_outcome(
                    *old(cpu),
                    Operation::UnequipFromTabSlot,
                    old(cpu).regs@.update(0, this).update(1, i32_as_u32(tab_index) as u64).update(
                        2,
                        i32_as_u32(slot_index) as u64,
                    ),
                ) {
                    Ok(ms) => r is Ok && final(cpu).regs@ == ms.regs && final(cpu).mem.data@
                        == ms.mem,
                    Err(e) => r is Err && r->Err_0 == e,
                },
            }
        }),
{
    cpu.reset_stack();
    let this_ptr = match resolve(&cpu.mem, &cpu.env, SingletonId::PauseMenuDataMgr) {
        Ok(p) => p,
        Err(e) => {
            return Err(e);
        },
    };
    cpu.write_x(0, this_ptr);
    cpu.write_w(1, i32_bits(tab_index));
    cpu.write_w(2, i32_bits(slot_index));
    match op_dispatch(Operation::UnequipFromTabSlot, cpu.env.game_ver) {
        Dispatch::Native(off) => cpu.native_jump_to_main_offset(off),
        _ => Err(Error::VersionUnsupported),
    }
}

/// Call the native routine that consumes `quantity` of the item in the
/// given tab and slot.
pub fn use_item(cpu: &mut VirtualCpu, tab_index: i32, slot_index: i32, quantity: i32) -> (r: Result<
    (),
    Error,
>)
    requires
        old(cpu).wf(),
    ensures
        final(cpu).wf(),
        final(cpu).same_session(&*old(cpu)),
        final(cpu).sp == old(cpu).frame_base,
        dispatch_of(Operation::UseItem, old(cpu).env.game_ver) == Dispatch::Unimplemented
            ==> final(cpu).mem.data@ == old(cpu).mem.data@,
        ({
            let m = old(cpu).mem;
            match resolve_spec(m.base as int, m.data@, old(cpu).env, SingletonId::PauseMenuDataMgr) {
                Err(e) => r is Err && r->Err_0 == e && final(cpu).mem.data@ == m.data@,
                Ok(this) => match simple_call_outcome(
                    *old(cpu),
                    Operation::UseItem,
                    old(cpu).regs@.update(0, this).update(1, i32_as_u32(tab_index) as u64).update(
                        2,
                        i32_as_u32(slot_index) as u64,
                    ).update(3, i32_as_u32(quantity) as u64),
                ) {
                    Ok(ms) => r is Ok && final(cpu).regs@ == ms.regs && final(cpu).mem.data@
                        == ms.mem,
                    Err(e) => r is Err && r->Err_0 == e,
                },
            }
        }),
{
    cpu.reset_stack();
    let this_ptr = match resolve(&cpu.mem, &cpu.env, SingletonId::PauseMenuDataMgr) {
        Ok(p) => p,
        Err(e) => {
            return Err(e);
        },
    };
    cpu.write_x(0, this_ptr);
    cpu.write_w(1, i32_bits(tab_index));
    cpu.write_w(2, i32_bits(slot_index));
    cpu.write_w(3, i32_bits(quantity));
    match op_dispatch(Operation::UseItem, cpu.env.game_ver) {
        Dispatch::Native(off) => cpu.native_jump_to_main_offset(off),
        _ => Err(Error::VersionUnsupported),
    }
}

/// Call the native routine that sets the durability/count value of the
/// equipped weapon of the given type.
pub fn set_equipped_weapon_value(cpu: &mut VirtualCpu, value: i32, item_type: i32) -> (r: Result<
    (),
    Error,
>)
    requires
        old(cpu).wf(),
    ensures
        final(cpu).wf(),
        final(cpu).same_session(&*old(cpu)),
        final(cpu).sp == old(cpu).frame_base,
        dispatch_of(Operation::SetEquippedWeaponValue, old(cpu).env.game_ver)
            == Dispatch::Unimplemented ==> final(cpu).mem.data@ == old(cpu).mem.data@,
        ({
            let m = old(cpu).mem;
            match resolve_spec(m.base as int, m.data@, old(cpu).env, SingletonId::PauseMenuDataMgr) {
                Err(e) => r is Err && r->Err_0 == e && final(cpu).mem.data@ == m.data@,
                Ok(this) => match simple_call_outcome(
                    *old(cpu),
                    Operation::SetEquippedWeaponValue,
                    old(cpu).regs@.update(0, this).update(1, i32_as_u32(value) as u64).update(
                        2,
                        i32_as_u32(item_type) as u64,
                    ),
                ) {
                    Ok(ms) => r is Ok && final(cpu).regs@ == ms.regs && final(cpu).mem.data@
                        == ms.mem,
                    Err(e) => r is Err && r->Err_0 == e,
                },
            }
        }),
{
    cpu.reset_stack();
    let this_ptr = match resolve(&cpu.mem, &cpu.env, SingletonId::PauseMenuDataMgr) {
        Ok(p) => p,
        Err(e) => {
            return Err(e);
        },
    };
    cpu.write_x(0, this_ptr);
    cpu.write_w(1, i32_bits(value));
    cpu.write_w(2, i32_bits(item_type));
    match op_dispatch(Operation::SetEquippedWeaponValue, cpu.env.game_ver) {
        Dispatch::Native(off) => cpu.native_jump_to_main_offset(off),
        _ => Err(Error::VersionUnsupported),
    }
}

/// Call the native routine that sells `count` of the given item.
pub fn sell_item(cpu: &mut VirtualCpu, item: PouchItemPtr, count: i32) -> (r: Result<(), Error>)
    requires
        old(cpu).wf(),
    ensures
        final(cpu).wf(),
        final(cpu).same_session(&*old(cpu)),
        final(cpu).sp == old(cpu).frame_base,
        dispatch_of(Operation::SellItem, old(cpu).env.game_ver) == Dispatch::Unimplemented
            ==> final(cpu).mem.data@ == old(cpu).mem.data@,
        ({
            let m = old(cpu).mem;
            match resolve_spec(m.base as int, m.data@, old(cpu).env, SingletonId::PauseMenuDataMgr) {
                Err(e) => r is Err && r->Err_0 == e && final(cpu).mem.data@ == m.data@,
                Ok(this) => match simple_call_outcome(
                    *old(cpu),
                    Operation::SellItem,
                    old(cpu).regs@.update(0, this).update(1, item.addr).update(
                        2,
                        i32_as_u32(count) as u64,
                    ),
                ) {
                    Ok(ms) => r is Ok && final(cpu).regs@ == ms.regs && final(cpu).mem.data@
                        == ms.mem,
                    Err(e) => r is Err && r->Err_0 == e,
                },
            }
        }),
{
    cpu.reset_stack();
    let this_ptr = match resolve(&cpu.mem, &cpu.env, SingletonId::PauseMenuDataMgr) {
        Ok(p) => p,
        Err(e) => {
            return Err(e);
        },
    };
    cpu.write_x(0, this_ptr);
    cpu.write_x(1, item.addr);
    cpu.write_w(2, i32_bits(count));
    match op_dispatch(Operation::SellItem, cpu.env.game_ver) {
        Dispatch::Native(off) => cpu.native_jump_to_main_offset(off),
        _ => Err(Error::VersionUnsupported),
    }
}

/// Call the native routine that equips an item by pointer.
pub fn equip_weapon(cpu: &mut VirtualCpu, item: PouchItemPtr) -> (r: Result<(), Error>)
    requires
        old(cpu).wf(),
    ensures
        final(cpu).wf(),
        final(cpu).same_session(&*old(cpu)),
        final(cpu).sp == old(cpu).frame_base,
        dispatch_of(Operation::EquipWeapon, old(cpu).env.game_ver) == Dispatch::Unimplemented
            ==> final(cpu).mem.data@ == old(cpu).mem.data@,
        ({
            let m = old(cpu).mem;
            match resolve_spec(m.base as int, m.data@, old(cpu).env, SingletonId::PauseMenuDataMgr) {
                Err(e) => r is Err && r->Err_0 == e && final(cpu).mem.data@ == m.data@,
                Ok(this) => match simple_call_outcome(
                    *old(cpu),
                    Operation::EquipWeapon,
                    old(cpu).regs@.update(0, this).update(1, item.addr),
                ) {
                    Ok(ms) => r is Ok && final(cpu).regs@ == ms.regs && final(cpu).mem.data@
                        == ms.mem,
                    Err(e) => r is Err && r->Err_0 == e,
                },
            }
        }),
{
    cpu.reset_stack();
    let this_ptr = match resolve(&cpu.mem, &cpu.env, SingletonId::PauseMenuDataMgr) {
        Ok(p) => p,
        Err(e) => {
            return Err(e);
        },
    };
    cpu.write_x(0, this_ptr);
    cpu.write_x(1, item.addr);
    match op_dispatch(Operation::EquipWeapon, cpu.env.game_ver) {
        Dispatch::Native(off) => cpu.native_jump_to_main_offset(off),
        _ => Err(Error::VersionUnsupported),
    }
}

/// Call the native routine that persists the inventory to game data;
/// the persisted format is owned by the target binary. The second
/// argument register carries the address of the manager's item list.
pub fn save_to_game_data(cpu: &mut VirtualCpu) -> (r: Result<(), Error>)
    requires
        old(cpu).wf(),
    ensures
        final(cpu).wf(),
        final(cpu).same_session(&*old(cpu)),
        final(cpu).sp == old(cpu).frame_base,
        dispatch_of(Operation::SaveToGameData, old(cpu).env.game_ver) == Dispatch::Unimplemented
            ==> final(cpu).mem.data@ == old(cpu).mem.data@,
        ({
            let m = old(cpu).mem;
            match resolve_spec(m.base as int, m.data@, old(cpu).env, SingletonId::PauseMenuDataMgr) {
                Err(e) => r is Err && r->Err_0 == e && final(cpu).mem.data@ == m.data@,
                Ok(this) => {
                    if this as int + crate::records::PMDM_LIST1_OFF as int > u64::MAX {
                        r is Err && r->Err_0 == Error::OutOfRange && final(cpu).mem.data@
                            == m.data@
                    } else {
                        match simple_call_outcome(
                            *old(cpu),
                            Operation::SaveToGameData,
                            old(cpu).regs@.update(0, this).update(
                                1,
                                (this + crate::records::PMDM_LIST1_OFF) as u64,
                            ),
                        ) {
                            Ok(ms) => r is Ok && final(cpu).regs@ == ms.regs && final(cpu).mem.data@ == ms.mem,
                            Err(e) => r is Err && r->Err_0 == e,
                        }
                    }
                },
            }
        }),
{
    cpu.reset_stack();
    let this_ptr = match resolve(&cpu.mem, &cpu.env, SingletonId::PauseMenuDataMgr) {
        Ok(p) => p,
        Err(e) => {
            return Err(e);
        },
    };
    if this_ptr > u64::MAX - crate::records::PMDM_LIST1_OFF {
        return Err(Error::OutOfRange);
    }
    cpu.write_x(0, this_ptr);
    cpu.write_x(1, this_ptr + crate::records::PMDM_LIST1_OFF);
    match op_dispatch(Operation::SaveToGameData, cpu.env.game_ver) {
        Dispatch::Native(off) => cpu.native_jump_to_main_offset(off),
        _ => Err(Error::VersionUnsupported),
    }
}

/// Call the native routine that refreshes derived inventory state from
/// the manager's item list.
pub fn update_inventory_info(cpu: &mut VirtualCpu) -> (r: Result<(), Error>)
    requires
        old(cpu).wf(),
    ensures
        final(cpu).wf(),
        final(cpu).same_session(&*old(cpu)),
        final(cpu).sp == old(cpu).frame_base,
        dispatch_of(Operation::UpdateInventoryInfo, old(cpu).env.game_ver)
            == Dispatch::Unimplemented ==> final(cpu).mem.data@ == old(cpu).mem.data@,
        ({
            let m = old(cpu).mem;
            match resolve_spec(m.base as int, m.data@, old(cpu).env, SingletonId::PauseMenuDataMgr) {
                Err(e) => r is Err && r->Err_0 == e && final(cpu).mem.data@ == m.data@,
                Ok(this) => {
                    if this as int + crate::records::PMDM_LIST1_OFF as int > u64::MAX {
                        r is Err && r->Err_0 == Error::OutOfRange && final(cpu).mem.data@
                            == m.data@
                    } else {
                        match simple_call_outcome(
                            *old(cpu),
                            Operation::UpdateInventoryInfo,
                            old(cpu).regs@.update(0, this).update(
                                1,
                                (this + crate::records::PMDM_LIST1_OFF) as u64,
                            ),
                        ) {
                            Ok(ms) => r is Ok && final(cpu).regs@ == ms.regs && final(cpu).mem.data@ == ms.mem,
                            Err(e) => r is Err && r->Err_0 == e,
                        }
                    }
                },
            }
        }),
{
    cpu.reset_stack();
    let this_ptr = match resolve(&cpu.mem, &cpu.env, SingletonId::PauseMenuDataMgr) {
        Ok(p) => p,
        Err(e) => {
            return Err(e);
        },
    };
    if this_ptr > u64::MAX - crate::records::PMDM_LIST1_OFF {
        return Err(Error::OutOfRange);
    }
    cpu.write_x(0, this_ptr);
    cpu.write_x(1, this_ptr + crate::records::PMDM_LIST1_OFF);
    match op_dispatch(Operation::UpdateInventoryInfo, cpu.env.game_ver) {
        Dispatch::Native(off) => cpu.native_jump_to_main_offset(off),
        _ => Err(Error::VersionUnsupported),
    }
}

/// Call the native routine that returns the equipped item of the given
/// type; the result is decoded from the return-value register. A null
/// handle is an ordinary "nothing equipped" outcome, not an error.
pub fn get_equipped_item(cpu: &mut VirtualCpu, item_type: i32) -> (r: Result<PouchItemPtr, Error>)
    requires
        old(cpu).wf(),
    ensures
        final(cpu).wf(),
        final(cpu).same_session(&*old(cpu)),
        final(cpu).sp == old(cpu).frame_base,
        dispatch_of(Operation::GetEquippedItem, old(cpu).env.game_ver) == Dispatch::Unimplemented
            ==> final(cpu).mem.data@ == old(cpu).mem.data@,
        ({
            let m = old(cpu).mem;
            match resolve_spec(m.base as int, m.data@, old(cpu).env, SingletonId::PauseMenuDataMgr) {
                Err(e) => r is Err && r->Err_0 == e && final(cpu).mem.data@ == m.data@,
                Ok(this) => match simple_call_outcome(
                    *old(cpu),
                    Operation::GetEquippedItem,
                    old(cpu).regs@.update(0, this).update(1, i32_as_u32(item_type) as u64),
                ) {
                    Ok(ms) => r is Ok && r->Ok_0 == (PouchItemPtr { addr: ms.regs[0] }) && final(cpu).regs@ == ms.regs && final(cpu).mem.data@ == ms.mem,
                    Err(e) => r is Err && r->Err_0 == e,
                },
            }
        }),
{
    cpu.reset_stack();
    let this_ptr = match resolve(&cpu.mem, &cpu.env, SingletonId::PauseMenuDataMgr) {
        Ok(p) => p,
        Err(e) => {
            return Err(e);
        },
    };
    cpu.write_x(0, this_ptr);
    cpu.write_w(1, i32_bits(item_type));
    let jr = match op_dispatch(Operation::GetEquippedItem, cpu.env.game_ver) {
        Dispatch::Native(off) => cpu.native_jump_to_main_offset(off),
        _ => Err(Error::VersionUnsupported),
    };
    match jr {
        Ok(u) => u,
        Err(e) => {
            return Err(e);
        },
    };
    let addr = cpu.read_x(0);
    Ok(PouchItemPtr { addr })
}

/// Call the native predicate that decides whether an item cannot be
/// obtained. `count` should be 1 for unstackable items and the value
/// for stackable ones. The answer is decoded from the truth value of
/// the return register.
pub fn cannot_get_item(cpu: &mut VirtualCpu, name: &str, count: i32) -> (r: Result<bool, Error>)
    requires
        old(cpu).wf(),
    ensures
        final(cpu).wf(),
        final(cpu).same_session(&*old(cpu)),
        ({
            let m = old(cpu).mem;
            let base = m.base as int;
            let fb = old(cpu).frame_base;
            match resolve_spec(base, m.data@, old(cpu).env, SingletonId::PauseMenuDataMgr) {
                Err(e) => r is Err && r->Err_0 == e && final(cpu).mem.data@ == m.data@,
                Ok(this) => match string40_alloc_err(*old(cpu), name.spec_bytes()) {
                    Some(e) => r is Err && r->Err_0 == e && final(cpu).mem.data@ == m.data@,
                    None => {
                        let a = (fb - STRING40_SIZE) as u64;
                        let mem1 = string40_image(*old(cpu), a as int, name.spec_bytes());
                        let regs1 = old(cpu).regs@.update(0, this).update(1, a).update(
                            2,
                            i32_as_u32(count) as u64,
                        );
                        if !(dispatch_of(Operation::CannotGetItem, old(cpu).env.game_ver)
                            is Native) {
                            r is Err && r->Err_0 == Error::VersionUnsupported && final(cpu).mem.data@ == mem1
                        } else {
                            match call_outcome(*old(cpu), Operation::CannotGetItem, mem1, regs1) {
                                Ok(ms) => r is Ok && r->Ok_0 == (ms.regs[0] != 0) && final(cpu).regs@ == ms.regs && final(cpu).mem.data@ == ms.mem,
                                Err(e) => r is Err && r->Err_0 == e,
                            }
                        }
                    },
                },
            }
        }),
{
    cpu.reset_stack();
    let this_ptr = match resolve(&cpu.mem, &cpu.env, SingletonId::PauseMenuDataMgr) {
        Ok(p) => p,
        Err(e) => {
            return Err(e);
        },
    };
    let name_ptr = match stack_alloc_string40(cpu, name) {
        Ok(a) => a,
        Err(e) => {
            return Err(e);
        },
    };
    cpu.write_x(0, this_ptr);
    cpu.write_x(1, name_ptr);
    cpu.write_w(2, i32_bits(count));
    let jr = match op_dispatch(Operation::CannotGetItem, cpu.env.game_ver) {
        Dispatch::Native(off) => cpu.native_jump_to_main_offset(off),
        _ => Err(Error::VersionUnsupported),
    };
    match jr {
        Ok(u) => u,
        Err(e) => {
            return Err(e);
        },
    };
    let ret_val = cpu.read_bool(0);
    let ck = cpu.stack_check(name_ptr, STRING40_SIZE);
    proof {
        assert(ck is Ok);
    }
    Ok(ret_val)
}

/// Call the native routine that unequips and removes a weapon by name
/// if it is currently equipped.
pub fn remove_weapon_if_equipped(cpu: &mut VirtualCpu, name: &str) -> (r: Result<(), Error>)
    requires
        old(cpu).wf(),
    ensures
        final(cpu).wf(),
        final(cpu).same_session(&*old(cpu)),
        ({
            let m = old(cpu).mem;
            let base = m.base as int;
            let fb = old(cpu).frame_base;
            match resolve_spec(base, m.data@, old(cpu).env, SingletonId::PauseMenuDataMgr) {
                Err(e) => r is Err && r->Err_0 == e && final(cpu).mem.data@ == m.data@,
                Ok(this) => match string40_alloc_err(*old(cpu), name.spec_bytes()) {
                    Some(e) => r is Err && r->Err_0 == e && final(cpu).mem.data@ == m.data@,
                    None => {
                        let a = (fb - STRING40_SIZE) as u64;
                        let mem1 = string40_image(*old(cpu), a as int, name.spec_bytes());
                        let regs1 = old(cpu).regs@.update(0, this).update(1, a);
                        if !(dispatch_of(Operation::RemoveWeaponIfEquipped, old(cpu).env.game_ver)
                            is Native) {
                            r is Err && r->Err_0 == Error::VersionUnsupported && final(cpu).mem.data@ == mem1
                        } else {
                            match call_outcome(
                                *old(cpu),
                                Operation::RemoveWeaponIfEquipped,
                                mem1,
                                regs1,
                            ) {
                                Ok(ms) => r is Ok && final(cpu).regs@ == ms.regs && final(cpu).mem.data@ == ms.mem,
                                Err(e) => r is Err && r->Err_0 == e,
                            }
                        }
                    },
                },
            }
        }),
{
    cpu.reset_stack();
    let this_ptr = match resolve(&cpu.mem, &cpu.env, SingletonId::PauseMenuDataMgr) {
        Ok(p) => p,
        Err(e) => {
            return Err(e);
        },
    };
    let name_ptr = match stack_alloc_string40(cpu, name) {
        Ok(a) => a,
        Err(e) => {
            return Err(e);
        },
    };
    cpu.write_x(0, this_ptr);
    cpu.write_x(1, name_ptr);
    let jr = match op_dispatch(Operation::RemoveWeaponIfEquipped, cpu.env.game_ver) {
        Dispatch::Native(off) => cpu.native_jump_to_main_offset(off),
        _ => Err(Error::VersionUnsupported),
    };
    match jr {
        Ok(u) => u,
        Err(e) => {
            return Err(e);
        },
    };
    let ck = cpu.stack_check(name_ptr, STRING40_SIZE);
    proof {
        assert(ck is Ok);
    }
    Ok(())
}

/// Call the native routine that removes `count` arrows by name. The
/// count rides in a full register, sign-extended.
pub fn remove_arrow(cpu: &mut VirtualCpu, arrow_name: &str, count: i32) -> (r: Result<(), Error>)
    requires
        old(cpu).wf(),
    ensures
        final(cpu).wf(),
        final(cpu).same_session(&*old(cpu)),
        ({
            let m = old(cpu).mem;
            let base = m.base as int;
            let fb = old(cpu).frame_base;
            match string40_alloc_err(*old(cpu), arrow_name.spec_bytes()) {
                Some(e) => r is Err && r->Err_0 == e && final(cpu).mem.data@ == m.data@,
                None => {
                    let a = (fb - STRING40_SIZE) as u64;
                    let mem1 = string40_image(*old(cpu), a as int, arrow_name.spec_bytes());
                    match resolve_spec(base, mem1, old(cpu).env, SingletonId::PauseMenuDataMgr) {
                        Err(e) => r is Err && r->Err_0 == e && final(cpu).mem.data@ == mem1,
                        Ok(this) => {
                            let regs1 = old(cpu).regs@.update(0, this).update(1, a).update(
                                2,
                                i32_sx_u64(count),
                            );
                            if !(dispatch_of(Operation::RemoveArrow, old(cpu).env.game_ver)
                                is Native) {
                                r is Err && r->Err_0 == Error::VersionUnsupported && final(cpu).mem.data@ == mem1
                            } else {
                                match call_outcome(*old(cpu), Operation::RemoveArrow, mem1, regs1) {
                                    Ok(ms) => r is Ok && final(cpu).regs@ == ms.regs && final(cpu).mem.data@ == ms.mem,
                                    Err(e) => r is Err && r->Err_0 == e,
                                }
                            }
                        },
                    }
                },
            }
        }),
{
    cpu.reset_stack();
    let arrow_name_ptr = match stack_alloc_string40(cpu, arrow_name) {
        Ok(a) => a,
        Err(e) => {
            return Err(e);
        },
    };
    let this_ptr = match resolve(&cpu.mem, &cpu.env, SingletonId::PauseMenuDataMgr) {
        Ok(p) => p,
        Err(e) => {
            return Err(e);
        },
    };
    cpu.write_x(0, this_ptr);
    cpu.write_x(1, arrow_name_ptr);
    cpu.write_x(2, i32_sx_bits(count));
    let jr = match op_dispatch(Operation::RemoveArrow, cpu.env.game_ver) {
        Dispatch::Native(off) => cpu.native_jump_to_main_offset(off),
        _ => Err(Error::VersionUnsupported),
    };
    match jr {
        Ok(u) => u,
        Err(e) => {
            return Err(e);
        },
    };
    let ck = cpu.stack_check(arrow_name_ptr, STRING40_SIZE);
    proof {
        assert(ck is Ok);
    }
    Ok(())
}

/// Call the native routine that removes one item by name.
pub fn remove_item_by_name(cpu: &mut VirtualCpu, name: &str) -> (r: Result<(), Error>)
    requires
        old(cpu).wf(),
    ensures
        final(cpu).wf(),
        final(cpu).same_session(&*old(cpu)),
        ({
            let m = old(cpu).mem;
            let base = m.base as int;
            let fb = old(cpu).frame_base;
            match string40_alloc_err(*old(cpu), name.spec_bytes()) {
                Some(e) => r is Err && r->Err_0 == e && final(cpu).mem.data@ == m.data@,
                None => {
                    let a = (fb - STRING40_SIZE) as u64;
                    let mem1 = string40_image(*old(cpu), a as int, name.spec_bytes());
                    match resolve_spec(base, mem1, old(cpu).env, SingletonId::PauseMenuDataMgr) {
                        Err(e) => r is Err && r->Err_0 == e && final(cpu).mem.data@ == mem1,
                        Ok(this) => {
                            let regs1 = old(cpu).regs@.update(0, this).update(1, a);
                            if !(dispatch_of(Operation::RemoveItemByName, old(cpu).env.game_ver)
                                is Native) {
                                r is Err && r->Err_0 == Error::VersionUnsupported && final(cpu).mem.data@ == mem1
                            } else {
                                match call_outcome(
                                    *old(cpu),
                                    Operation::RemoveItemByName,
                                    mem1,
                                    regs1,
                                ) {
                                    Ok(ms) => r is Ok && final(cpu).regs@ == ms.regs && final(cpu).mem.data@ == ms.mem,
                                    Err(e) => r is Err && r->Err_0 == e,
                                }
                            }
                        },
                    }
                },
            }
        }),
{
    cpu.reset_stack();
    let name_ptr = match stack_alloc_string40(cpu, name) {
        Ok(a) => a,
        Err(e) => {
            return Err(e);
        },
    };
    let this_ptr = match resolve(&cpu.mem, &cpu.env, SingletonId::PauseMenuDataMgr) {
        Ok(p) => p,
        Err(e) => {
            return Err(e);
        },
    };
    cpu.write_x(0, this_ptr);
    cpu.write_x(1, name_ptr);
    let jr = match op_dispatch(Operation::RemoveItemByName, cpu.env.game_ver) {
        Dispatch::Native(off) => cpu.native_jump_to_main_offset(off),
        _ => Err(Error::VersionUnsupported),
    };
    match jr {
        Ok(u) => u,
        Err(e) => {
            return Err(e);
        },
    };
    let ck = cpu.stack_check(name_ptr, STRING40_SIZE);
    proof {
        assert(ck is Ok);
    }
    Ok(())
}

/// The jump phase shared by [`get_item_with_default_value_post`]:
/// arguments are the marshaled string and modifier addresses.
pub open spec fn get_item_default_call(
    cpu0: VirtualCpu,
    cpu1: VirtualCpu,
    mem2: Seq<u8>,
    a: u64,
    mp: u64,
    r: Result<(), Error>,
) -> bool {
    let regs1 = cpu0.regs@.update(0, a).update(1, mp);
    if !(dispatch_of(Operation::GetItemWithDefaultValue, cpu0.env.game_ver) is Native) {
        r is Err && r->Err_0 == Error::VersionUnsupported && cpu1.mem.data@ == mem2
    } else {
        match call_outcome(cpu0, Operation::GetItemWithDefaultValue, mem2, regs1) {
            Ok(ms) => r is Ok && cpu1.regs@ == ms.regs && cpu1.mem.data@ == ms.mem,
            Err(e) => r is Err && r->Err_0 == e,
        }
    }
}

/// Everything [`get_item_with_default_value`] promises of its result
/// and final state.
pub open spec fn get_item_with_default_value_post(
    cpu0: VirtualCpu,
    cpu1: VirtualCpu,
    actor: Seq<u8>,
    modifier: Option<WeaponModifierInfo>,
    r: Result<(), Error>,
) -> bool {
    let m = cpu0.mem;
    let base = m.base as int;
    let fb = cpu0.frame_base;
    match string40_alloc_err(cpu0, actor) {
        Some(e) => r is Err && r->Err_0 == e && cpu1.mem.data@ == m.data@,
        None => {
            let a = (fb - STRING40_SIZE) as u64;
            let mem1 = string40_image(cpu0, a as int, actor);
            match modifier {
                Some(mi) => {
                    if fb as int - STRING40_SIZE - WEAPON_MODIFIER_SIZE
                        < cpu0.stack_limit as int {
                        r is Err && r->Err_0 == Error::StackOverflow && cpu1.mem.data@ == mem1
                    } else {
                        let mp = (fb - STRING40_SIZE - WEAPON_MODIFIER_SIZE) as u64;
                        let mem2 = modifier_image(base, mem1, mp as int, mi);
                        get_item_default_call(cpu0, cpu1, mem2, a, mp, r)
                    }
                },
                None => get_item_default_call(cpu0, cpu1, mem1, a, 0, r),
            }
        },
    }
}

/// Get one item with the default life value: the caller-specified
/// count and the default count are two distinct native dispatch
/// paths, and this is the default one.
pub fn get_item_with_default_value(
    cpu: &mut VirtualCpu,
    actor: &str,
    modifier: Option<WeaponModifierInfo>,
) -> (r: Result<(), Error>)
    requires
        old(cpu).wf(),
    ensures
        final(cpu).wf(),
        final(cpu).same_session(&*old(cpu)),
        get_item_with_default_value_post(
            *old(cpu),
            *final(cpu),
            actor.spec_bytes(),
            modifier,
            r,
        ),
{
    cpu.reset_stack();
    let actor_name_ptr = match stack_alloc_string40(cpu, actor) {
        Ok(a) => a,
        Err(e) => {
            return Err(e);
        },
    };
    let modifier_ptr = match stack_alloc_weapon_modifier(cpu, modifier) {
        Ok(a) => a,
        Err(e) => {
            return Err(e);
        },
    };
    cpu.write_x(0, actor_name_ptr);
    cpu.write_x(1, modifier_ptr);
    let jr = match op_dispatch(Operation::GetItemWithDefaultValue, cpu.env.game_ver) {
        Dispatch::Native(off) => cpu.native_jump_to_main_offset(off),
        _ => Err(Error::VersionUnsupported),
    };
    match jr {
        Ok(u) => u,
        Err(e) => {
            return Err(e);
        },
    };
    let ck = cpu.stack_check(actor_name_ptr, STRING40_SIZE);
    proof {
        assert(ck is Ok);
    }
    if modifier_ptr != 0 {
        let ck2 = cpu.stack_check(modifier_ptr, WEAPON_MODIFIER_SIZE);
        proof {
            assert(ck2 is Ok);
        }
    }
    Ok(())
}

/// The jump phase shared by [`get_item_with_value_post`].
pub open spec fn get_item_value_call(
    cpu0: VirtualCpu,
    cpu1: VirtualCpu,
    mem2: Seq<u8>,
    this: u64,
    a: u64,
    value: i32,
    mp: u64,
    r: Result<(), Error>,
) -> bool {
    let regs1 = cpu0.regs@.update(0, this).update(1, a).update(2, i32_as_u32(value) as u64).update(
        3,
        mp,
    );
    if !(dispatch_of(Operation::GetItemWithValue, cpu0.env.game_ver) is Native) {
        r is Err && r->Err_0 == Error::VersionUnsupported && cpu1.mem.data@ == mem2
    } else {
        match call_outcome(cpu0, Operation::GetItemWithValue, mem2, regs1) {
            Ok(ms) => r is Ok && cpu1.regs@ == ms.regs && cpu1.mem.data@ == ms.mem,
            Err(e) => r is Err && r->Err_0 == e,
        }
    }
}

/// Everything [`get_item_with_value`] promises of its result and
/// final state.
pub open spec fn get_item_with_value_post(
    cpu0: VirtualCpu,
    cpu1: VirtualCpu,
    actor: Seq<u8>,
    value: i32,
    modifier: Option<WeaponModifierInfo>,
    r: Result<(), Error>,
) -> bool {
    let m = cpu0.mem;
    let base = m.base as int;
    let fb = cpu0.frame_base;
    match resolve_spec(base, m.data@, cpu0.env, SingletonId::PauseMenuDataMgr) {
        Err(e) => r is Err && r->Err_0 == e && cpu1.mem.data@ == m.data@,
        Ok(this) => match string40_alloc_err(cpu0, actor) {
            Some(e) => r is Err && r->Err_0 == e && cpu1.mem.data@ == m.data@,
            None => {
                let a = (fb - STRING40_SIZE) as u64;
                let mem1 = string40_image(cpu0, a as int, actor);
                match modifier {
                    Some(mi) => {
                        if fb as int - STRING40_SIZE - WEAPON_MODIFIER_SIZE
                            < cpu0.stack_limit as int {
                            r is Err && r->Err_0 == Error::StackOverflow && cpu1.mem.data@ == mem1
                        } else {
                            let mp = (fb - STRING40_SIZE - WEAPON_MODIFIER_SIZE) as u64;
                            let mem2 = modifier_image(base, mem1, mp as int, mi);
                            get_item_value_call(cpu0, cpu1, mem2, this, a, value, mp, r)
                        }
                    },
                    None => get_item_value_call(cpu0, cpu1, mem1, this, a, value, 0, r),
                }
            },
        },
    }
}

/// Get one item with an explicit value (durability or count): the
/// other of the two distinct native dispatch paths.
pub fn get_item_with_value(
    cpu: &mut VirtualCpu,
    actor: &str,
    value: i32,
    modifier: Option<WeaponModifierInfo>,
) -> (r: Result<(), Error>)
    requires
        old(cpu).wf(),
    ensures
        final(cpu).wf(),
        final(cpu).same_session(&*old(cpu)),
        get_item_with_value_post(
            *old(cpu),
            *final(cpu),
            actor.spec_bytes(),
            value,
            modifier,
            r,
        ),
{
    cpu.reset_stack();
    let this_ptr = match resolve(&cpu.mem, &cpu.env, SingletonId::PauseMenuDataMgr) {
        Ok(p) => p,
        Err(e) => {
            return Err(e);
        },
    };
    let name_ptr = match stack_alloc_string40(cpu, actor) {
        Ok(a) => a,
        Err(e) => {
            return Err(e);
        },
    };
    let modifier_ptr = match stack_alloc_weapon_modifier(cpu, modifier) {
        Ok(a) => a,
        Err(e) => {
            return Err(e);
        },
    };
    cpu.write_x(0, this_ptr);
    cpu.write_x(1, name_ptr);
    cpu.write_w(2, i32_bits(value));
    cpu.write_x(3, modifier_ptr);
    let jr = match op_dispatch(Operation::GetItemWithValue, cpu.env.game_ver) {
        Dispatch::Native(off) => cpu.native_jump_to_main_offset(off),
        _ => Err(Error::VersionUnsupported),
    };
    match jr {
        Ok(u) => u,
        Err(e) => {
            return Err(e);
        },
    };
    let ck = cpu.stack_check(name_ptr, STRING40_SIZE);
    proof {
        assert(ck is Ok);
    }
    if modifier_ptr != 0 {
        let ck2 = cpu.stack_check(modifier_ptr, WEAPON_MODIFIER_SIZE);
        proof {
            assert(ck2 is Ok);
        }
    }
    Ok(())
}

/// Get an item with the given value or the default value: an explicit
/// value routes to the value path, no value to the default path.
pub fn get_item(
    cpu: &mut VirtualCpu,
    actor: &str,
    value: Option<i32>,
    modifier: Option<WeaponModifierInfo>,
) -> (r: Result<(), Error>)
    requires
        old(cpu).wf(),
    ensures
        final(cpu).wf(),
        final(cpu).same_session(&*old(cpu)),
        match value {
            Some(v) => get_item_with_value_post(
                *old(cpu),
                *final(cpu),
                actor.spec_bytes(),
                v,
                modifier,
                r,
            ),
            None => get_item_with_default_value_post(
                *old(cpu),
                *final(cpu),
                actor.spec_bytes(),
                modifier,
                r,
            ),
        },
{
    match value {
        Some(v) => get_item_with_value(cpu, actor, v, modifier),
        None => get_item_with_default_value(cpu, actor, modifier),
    }
}

/// Budget on intrusive-list scans, bounding a walk over a corrupted
/// or cyclic list; exceeding it is a data fault.
pub const LIST_SCAN_BUDGET: u64 = 1024;

/// Absolute address of held-item slot `i`'s item pointer.
pub open spec fn grabbed_item_addr(this: u64, i: int) -> int {
    this + PMDM_GRABBED_OFF + i * PMDM_GRABBED_STRIDE
}

/// Does held-item slot `i` hold no item?
pub open spec fn grabbed_slot_empty(base: int, m: Seq<u8>, this: u64, i: int) -> bool {
    mem_read_u64(base, m, grabbed_item_addr(this, i)) == 0
}

/// Can the player hold another item? True as soon as any of the fixed
/// held-item slots is empty; false only if all are occupied. This
/// routine is reimplemented on every revision; it reads the arena and
/// never mutates it.
pub fn can_hold_another_item(cpu: &VirtualCpu) -> (r: Result<bool, Error>)
    requires
        cpu.wf(),
    ensures
        ({
            let base = cpu.mem.base as int;
            let m = cpu.mem.data@;
            match resolve_spec(base, m, cpu.env, SingletonId::PauseMenuDataMgr) {
                Err(e) => r is Err && r->Err_0 == e,
                Ok(this) => {
                    if !mem_in_range(base, m, this as int, PMDM_SIZE as int) {
                        r is Err && r->Err_0 == Error::OutOfRange
                    } else {
                        r is Ok && r->Ok_0 == exists|i: int|
                            0 <= i < GRABBED_SLOTS && grabbed_slot_empty(base, m, this, i)
                    }
                },
            }
        }),
{
    let this_ptr = match resolve(&cpu.mem, &cpu.env, SingletonId::PauseMenuDataMgr) {
        Ok(p) => p,
        Err(e) => {
            return Err(e);
        },
    };
    if !cpu.mem.check_range(this_ptr, PMDM_SIZE) {
        return Err(Error::OutOfRange);
    }
    let mut i: u64 = 0;
    while i < GRABBED_SLOTS
        invariant
            i <= GRABBED_SLOTS,
            cpu.wf(),
            resolve_spec(cpu.mem.base as int, cpu.mem.data@, cpu.env, SingletonId::PauseMenuDataMgr)
                == Ok::<u64, Error>(this_ptr),
            mem_in_range(cpu.mem.base as int, cpu.mem.data@, this_ptr as int, PMDM_SIZE as int),
            forall|j: int|
                0 <= j < i ==> !grabbed_slot_empty(cpu.mem.base as int, cpu.mem.data@, this_ptr, j),
        decreases GRABBED_SLOTS - i,
    {
        let slot = match cpu.mem.read_u64(this_ptr + PMDM_GRABBED_OFF + i * PMDM_GRABBED_STRIDE) {
            Ok(v) => v,
            Err(e) => {
                proof {
                    assert(false);
                }
                return Err(e);
            },
        };
        if slot == 0 {
            proof {
                assert(grabbed_slot_empty(cpu.mem.base as int, cpu.mem.data@, this_ptr, i as int));
            }
            return Ok(true);
        }
        i = i + 1;
    }
    Ok(false)
}

/// Unequip an item by pointer: the equipped flag is cleared directly
/// in the arena and the inventory is persisted. A null handle is an
/// ordinary "nothing to unequip" outcome — a successful call that
/// does nothing, never an error.
pub fn unequip(cpu: &mut VirtualCpu, item: PouchItemPtr) -> (r: Result<(), Error>)
    requires
        old(cpu).wf(),
    ensures
        final(cpu).wf(),
        final(cpu).same_session(&*old(cpu)),
        ({
            let base = old(cpu).mem.base as int;
            let m = old(cpu).mem.data@;
            if item.addr == 0 {
                r is Ok && *final(cpu) == *old(cpu)
            } else if !mem_in_range(base, m, item.addr as int + POUCH_ITEM_EQUIPPED_OFF as int, 1) {
                r is Err && r->Err_0 == Error::OutOfRange && final(cpu).mem.data@ == m
            } else {
                let mem1 = m.update(item.addr + POUCH_ITEM_EQUIPPED_OFF - base, 0u8);
                match resolve_spec(base, mem1, old(cpu).env, SingletonId::PauseMenuDataMgr) {
                    Err(e) => r is Err && r->Err_0 == e && final(cpu).mem.data@ == mem1,
                    Ok(this) => {
                        if this as int + crate::records::PMDM_LIST1_OFF as int > u64::MAX {
                            r is Err && r->Err_0 == Error::OutOfRange && final(cpu).mem.data@
                                == mem1
                        } else {
                            let regs1 = old(cpu).regs@.update(0, this).update(
                                1,
                                (this + crate::records::PMDM_LIST1_OFF) as u64,
                            );
                            if !(dispatch_of(Operation::SaveToGameData, old(cpu).env.game_ver)
                                is Native) {
                                r is Err && r->Err_0 == Error::VersionUnsupported && final(cpu).mem.data@ == mem1
                            } else {
                                match call_outcome(
                                    *old(cpu),
                                    Operation::SaveToGameData,
                                    mem1,
                                    regs1,
                                ) {
                                    Ok(ms) => r is Ok && final(cpu).regs@ == ms.regs && final(cpu).mem.data@ == ms.mem,
                                    Err(e) => r is Err && r->Err_0 == e,
                                }
                            }
                        }
                    },
                }
            }
        }),
{
    if item.is_nullptr() {
        return Ok(());
    }
    if item.addr > u64::MAX - (POUCH_ITEM_EQUIPPED_OFF + 1) {
        return Err(Error::OutOfRange);
    }
    match cpu.mem.write_u8(item.addr + POUCH_ITEM_EQUIPPED_OFF, 0) {
        Ok(u) => u,
        Err(e) => {
            return Err(e);
        },
    };
    save_to_game_data(cpu)
}

/// The 7-slot category index a tab-type code routes to, or `-1` for a
/// code outside the known set, which is skipped.
pub open spec fn category_of(code: i32) -> int {
    if code == 0 {
        0
    } else if code == 1 || code == 2 {
        1
    } else if code == 3 {
        2
    } else if 4 <= code && code <= 6 {
        3
    } else if code == 7 {
        4
    } else if code == 8 {
        5
    } else if code == 9 {
        6
    } else {
        -1
    }
}

/// Executable counterpart of [`category_of`]: the category slot, or
/// `None` for a code outside the known set.
pub fn category_index(code: i32) -> (r: Option<usize>)
    ensures
        category_of(code) >= 0 ==> r == Some(category_of(code) as usize),
        category_of(code) < 0 ==> r is None,
{
    if code == 0 {
        Some(0)
    } else if code == 1 || code == 2 {
        Some(1)
    } else if code == 3 {
        Some(2)
    } else if 4 <= code && code <= 6 {
        Some(3)
    } else if code == 7 {
        Some(4)
    } else if code == 8 {
        Some(5)
    } else if code == 9 {
        Some(6)
    } else {
        None
    }
}

/// Law: the tab/category head mapping routes the ten known item-type
/// codes to their seven category slots — one sword, one bow/arrow,
/// one shield, one armor, one material, one food, one key-item slot —
/// and any code outside the set is skipped.
pub proof fn lemma_category_mapping()
    ensures
        category_of(0) == 0,
        category_of(1) == 1,
        category_of(2) == 1,
        category_of(3) == 2,
        category_of(4) == 3,
        category_of(5) == 3,
        category_of(6) == 3,
        category_of(7) == 4,
        category_of(8) == 5,
        category_of(9) == 6,
        forall|c: i32| (c < 0 || c > 9) ==> category_of(c) == -1,
{
}

/// The tab-type code in slot `i` of the manager's tab array.
pub open spec fn tab_type_at(base: int, m: Seq<u8>, this: u64, i: int) -> i32 {
    u32_as_i32(mem_read_u32(base, m, this + PMDM_TABS_TYPE_OFF + 4 * i))
}

/// The category list heads after scanning the first `n` tab slots:
/// the first tab found per category is kept; later tabs in the same
/// category never overwrite it. A head is the address of the tab's
/// pointer slot.
pub open spec fn list_heads_spec(base: int, m: Seq<u8>, this: u64, n: nat) -> Seq<u64>
    decreases n,
{
    if n == 0 {
        seq![0u64, 0u64, 0u64, 0u64, 0u64, 0u64, 0u64]
    } else {
        let prev = list_heads_spec(base, m, this, (n - 1) as nat);
        let c = category_of(tab_type_at(base, m, this, n - 1));
        if 0 <= c < 7 && prev[c] == 0 {
            prev.update(c, (this + PMDM_TABS_OFF + 8 * (n - 1)) as u64)
        } else {
            prev
        }
    }
}

/// The memory view after the first `k` category heads are written
/// back into the manager object.
pub open spec fn heads_image(base: int, m: Seq<u8>, this: u64, hs: Seq<u64>, k: nat) -> Seq<u8>
    decreases k,
{
    if k == 0 {
        m
    } else {
        mem_write_u64(
            base,
            heads_image(base, m, this, hs, (k - 1) as nat),
            this + PMDM_LIST_HEADS_OFF + 8 * (k - 1),
            hs[k - 1],
        )
    }
}

/// Rebuild the per-category list heads from the 50 tab slots. This
/// routine is inlined in most revisions and therefore reimplemented:
/// each tab's type code routes to one of the seven categories, codes
/// outside the set are skipped, and the first tab per category wins.
pub fn update_list_heads(cpu: &mut VirtualCpu) -> (r: Result<(), Error>)
    requires
        old(cpu).wf(),
    ensures
        final(cpu).wf(),
        final(cpu).same_session(&*old(cpu)),
        final(cpu).sp == old(cpu).sp,
        final(cpu).regs == old(cpu).regs,
        ({
            let base = old(cpu).mem.base as int;
            let m = old(cpu).mem.data@;
            match resolve_spec(base, m, old(cpu).env, SingletonId::PauseMenuDataMgr) {
                Err(e) => r is Err && r->Err_0 == e && final(cpu).mem.data@ == m,
                Ok(this) => {
                    if !mem_in_range(base, m, this as int, PMDM_SIZE as int) {
                        r is Err && r->Err_0 == Error::OutOfRange && final(cpu).mem.data@ == m
                    } else {
                        r is Ok && final(cpu).mem.data@ == heads_image(
                            base,
                            m,
                            this,
                            list_heads_spec(base, m, this, TAB_SLOTS as nat),
                            CATEGORY_SLOTS as nat,
                        )
                    }
                },
            }
        }),
{
    let this_ptr = match resolve(&cpu.mem, &cpu.env, SingletonId::PauseMenuDataMgr) {
        Ok(p) => p,
        Err(e) => {
            return Err(e);
        },
    };
    if !cpu.mem.check_range(this_ptr, PMDM_SIZE) {
        return Err(Error::OutOfRange);
    }
    let ghost base = cpu.mem.base as int;
    let ghost m0 = cpu.mem.data@;
    let mut heads: Vec<u64> = Vec::new();
    let mut k: usize = 0;
    while k < 7
        invariant
            k <= 7,
            heads@.len() == k,
            forall|j: int| 0 <= j < k ==> heads@[j] == 0u64,
        decreases 7 - k,
    {
        heads.push(0u64);
        k = k + 1;
    }
    proof {
        assert(heads@ =~= list_heads_spec(base, m0, this_ptr, 0));
    }
    let mut i: u64 = 0;
    while i < TAB_SLOTS
        invariant
            i <= TAB_SLOTS,
            cpu.wf(),
            cpu.mem.base as int == base,
            cpu.mem.data@ == m0,
            mem_in_range(base, m0, this_ptr as int, PMDM_SIZE as int),
            heads@.len() == 7,
            heads@ == list_heads_spec(base, m0, this_ptr, i as nat),
        decreases TAB_SLOTS - i,
    {
        let code = match cpu.mem.read_i32(this_ptr + PMDM_TABS_TYPE_OFF + 4 * i) {
            Ok(v) => v,
            Err(e) => {
                proof {
                    assert(false);
                }
                return Err(e);
            },
        };
        match category_index(code) {
            Some(ci) => {
                if heads[ci] == 0 {
                    let head = this_ptr + PMDM_TABS_OFF + 8 * i;
                    heads[ci] = head;
                }
            },
            None => {},
        }
        i = i + 1;
    }
    let ghost hs = list_heads_spec(base, m0, this_ptr, TAB_SLOTS as nat);
    let mut w: u64 = 0;
    while w < CATEGORY_SLOTS
        invariant
            w <= CATEGORY_SLOTS,
            cpu.wf(),
            cpu.same_session(&*old(cpu)),
            cpu.sp == old(cpu).sp,
            cpu.regs == old(cpu).regs,
            cpu.mem.base as int == base,
            heads@.len() == 7,
            heads@ == hs,
            mem_in_range(base, m0, this_ptr as int, PMDM_SIZE as int),
            cpu.mem.data@.len() == m0.len(),
            cpu.mem.data@ == heads_image(base, m0, this_ptr, hs, w as nat),
        decreases CATEGORY_SLOTS - w,
    {
        let res = cpu.mem.write_u64(this_ptr + PMDM_LIST_HEADS_OFF + 8 * w, heads[w as usize]);
        proof {
            assert(res is Ok);
        }
        w = w + 1;
    }
    Ok(())
}

/// One step of the equipped-weapon cache scan: the intrusive item
/// list is followed through its embedded next pointers. An item-type
/// code greater than the shield boundary (3) terminates the scan as a
/// list-end sentinel; an equipped item lands in the cache slot of its
/// type code, with unrecognized-but-in-range (negative) codes falling
/// back to slot 0.
pub open spec fn equipped_walk(
    base: int,
    m: Seq<u8>,
    iter: u64,
    end_addr: u64,
    slots: Seq<u64>,
    fuel: nat,
) -> Result<Seq<u64>, Error>
    decreases fuel,
{
    if iter == end_addr {
        Ok(slots)
    } else if fuel == 0 {
        Err(Error::DataFault)
    } else if !mem_in_range(base, m, iter as int + POUCH_ITEM_TYPE_OFF as int, 4) {
        Err(Error::OutOfRange)
    } else {
        let ty = u32_as_i32(mem_read_u32(base, m, iter + POUCH_ITEM_TYPE_OFF));
        if ty > 3 {
            Ok(slots)
        } else if !mem_in_range(base, m, iter as int + POUCH_ITEM_EQUIPPED_OFF as int, 1) {
            Err(Error::OutOfRange)
        } else {
            let eq = crate::arena::mem_byte(base, m, iter as int + POUCH_ITEM_EQUIPPED_OFF as int);
            let slots2 = if eq != 0 {
                let idx = if ty >= 0 {
                    ty as int
                } else {
                    0
                };
                slots.update(idx, iter)
            } else {
                slots
            };
            if !mem_in_range(base, m, iter as int + POUCH_ITEM_NEXT_OFF as int, 8) {
                Err(Error::OutOfRange)
            } else {
                equipped_walk(
                    base,
                    m,
                    mem_read_u64(base, m, iter as int + POUCH_ITEM_NEXT_OFF as int),
                    end_addr,
                    slots2,
                    (fuel - 1) as nat,
                )
            }
        }
    }
}

/// The memory view after the first `k` equipped-weapon cache slots
/// are written back into the manager object.
pub open spec fn equipped_image(base: int, m: Seq<u8>, this: u64, slots: Seq<u64>, k: nat) -> Seq<
    u8,
>
    decreases k,
{
    if k == 0 {
        m
    } else {
        mem_write_u64(
            base,
            equipped_image(base, m, this, slots, (k - 1) as nat),
            this + PMDM_EQUIPPED_OFF + 8 * (k - 1),
            slots[k - 1],
        )
    }
}

/// Rebuild the 4-slot equipped-weapon cache by scanning the item
/// list. Inlined in the later revision and therefore reimplemented.
/// The cache is fully cleared before any slot is written: the scan
/// starts from four empty slots and the whole cache is written back
/// at once. The scan stops at the list end or at the first item-type
/// code above the shield boundary, exactly as the native routine
/// does; a scan that exceeds the list budget is a data fault.
pub fn update_equipped_item_array(cpu: &mut VirtualCpu) -> (r: Result<(), Error>)
    requires
        old(cpu).wf(),
    ensures
        final(cpu).wf(),
        final(cpu).same_session(&*old(cpu)),
        final(cpu).sp == old(cpu).frame_base,
        final(cpu).regs == old(cpu).regs,
        ({
            let base = old(cpu).mem.base as int;
            let m = old(cpu).mem.data@;
            match resolve_spec(base, m, old(cpu).env, SingletonId::PauseMenuDataMgr) {
                Err(e) => r is Err && r->Err_0 == e && final(cpu).mem.data@ == m,
                Ok(this) => {
                    if !mem_in_range(base, m, this as int, PMDM_SIZE as int) {
                        r is Err && r->Err_0 == Error::OutOfRange && final(cpu).mem.data@ == m
                    } else {
                        let begin = mem_read_u64(
                            base,
                            m,
                            this + PMDM_LIST1_OFF + POUCH_ITEM_NEXT_OFF,
                        );
                        let end_addr = (this + PMDM_LIST1_OFF) as u64;
                        match equipped_walk(
                            base,
                            m,
                            begin,
                            end_addr,
                            seq![0u64, 0u64, 0u64, 0u64],
                            LIST_SCAN_BUDGET as nat,
                        ) {
                            Ok(slots) => r is Ok && final(cpu).mem.data@ == equipped_image(
                                base,
                                m,
                                this,
                                slots,
                                EQUIPPED_SLOTS as nat,
                            ),
                            Err(e) => r is Err && r->Err_0 == e && final(cpu).mem.data@ == m,
                        }
                    }
                },
            }
        }),
{
    cpu.reset_stack();
    let this_ptr = match resolve(&cpu.mem, &cpu.env, SingletonId::PauseMenuDataMgr) {
        Ok(p) => p,
        Err(e) => {
            return Err(e);
        },
    };
    if !cpu.mem.check_range(this_ptr, PMDM_SIZE) {
        return Err(Error::OutOfRange);
    }
    let ghost base = cpu.mem.base as int;
    let ghost m0 = cpu.mem.data@;
    let begin = match cpu.mem.read_u64(this_ptr + PMDM_LIST1_OFF + POUCH_ITEM_NEXT_OFF) {
        Ok(v) => v,
        Err(e) => {
            proof {
                assert(false);
            }
            return Err(e);
        },
    };
    let end_addr = this_ptr + PMDM_LIST1_OFF;
    let mut slots: Vec<u64> = Vec::new();
    slots.push(0u64);
    slots.push(0u64);
    slots.push(0u64);
    slots.push(0u64);
    proof {
        assert(slots@ =~= seq![0u64, 0u64, 0u64, 0u64]);
    }
    let mut iter = begin;
    let mut fuel: u64 = LIST_SCAN_BUDGET;
    loop
        invariant
            cpu.wf(),
            cpu.same_session(&*old(cpu)),
            cpu.sp == old(cpu).frame_base,
            cpu.regs == old(cpu).regs,
            cpu.mem.base as int == base,
            cpu.mem.data@ == m0,
            base == old(cpu).mem.base as int,
            m0 == old(cpu).mem.data@,
            resolve_spec(base, m0, old(cpu).env, SingletonId::PauseMenuDataMgr) == Ok::<
                u64,
                Error,
            >(this_ptr),
            mem_in_range(base, m0, this_ptr as int, PMDM_SIZE as int),
            begin == mem_read_u64(base, m0, this_ptr + PMDM_LIST1_OFF + POUCH_ITEM_NEXT_OFF),
            end_addr == this_ptr + PMDM_LIST1_OFF,
            slots@.len() == 4,
            fuel <= LIST_SCAN_BUDGET,
            equipped_walk(
                base,
                m0,
                begin,
                end_addr,
                seq![0u64, 0u64, 0u64, 0u64],
                LIST_SCAN_BUDGET as nat,
            ) == equipped_walk(base, m0, iter, end_addr, slots@, fuel as nat),
        ensures
            equipped_walk(
                base,
                m0,
                begin,
                end_addr,
                seq![0u64, 0u64, 0u64, 0u64],
                LIST_SCAN_BUDGET as nat,
            ) == Ok::<Seq<u64>, Error>(slots@),
        decreases fuel,
    {
        if iter == end_addr {
            break;
        }
        if fuel == 0 {
            return Err(Error::DataFault);
        }
        if iter > u64::MAX - (POUCH_ITEM_TYPE_OFF + 4) {
            return Err(Error::OutOfRange);
        }
        let ty = match cpu.mem.read_i32(iter + POUCH_ITEM_TYPE_OFF) {
            Ok(v) => v,
            Err(e) => {
                return Err(e);
            },
        };
        if ty > 3 {
            break;
        }
        if iter > u64::MAX - (POUCH_ITEM_EQUIPPED_OFF + 1) {
            return Err(Error::OutOfRange);
        }
        let eq = match cpu.mem.read_u8(iter + POUCH_ITEM_EQUIPPED_OFF) {
            Ok(v) => v,
            Err(e) => {
                return Err(e);
            },
        };
        if eq != 0 {
            let idx: usize = if ty >= 0 {
                ty as usize
            } else {
                0
            };
            slots[idx] = iter;
        }
        if iter > u64::MAX - (POUCH_ITEM_NEXT_OFF + 8) {
            return Err(Error::OutOfRange);
        }
        let next = match cpu.mem.read_u64(iter + POUCH_ITEM_NEXT_OFF) {
            Ok(v) => v,
            Err(e) => {
                return Err(e);
            },
        };
        iter = next;
        fuel = fuel - 1;
    }
    let ghost walked = equipped_walk(
        base,
        m0,
        begin,
        end_addr,
        seq![0u64, 0u64, 0u64, 0u64],
        LIST_SCAN_BUDGET as nat,
    );
    proof {
        assert(walked == Ok::<Seq<u64>, Error>(slots@));
    }
    let mut w: u64 = 0;
    while w < EQUIPPED_SLOTS
        invariant
            w <= EQUIPPED_SLOTS,
            cpu.wf(),
            cpu.same_session(&*old(cpu)),
            cpu.sp == old(cpu).frame_base,
            cpu.regs == old(cpu).regs,
            cpu.mem.base as int == base,
            slots@.len() == 4,
            mem_in_range(base, m0, this_ptr as int, PMDM_SIZE as int),
            cpu.mem.data@.len() == m0.len(),
            cpu.mem.data@ == equipped_image(base, m0, this_ptr, slots@, w as nat),
        decreases EQUIPPED_SLOTS - w,
    {
        let res = cpu.mem.write_u64(this_ptr + PMDM_EQUIPPED_OFF + 8 * w, slots[w as usize]);
        proof {
            assert(res is Ok);
        }
        w = w + 1;
    }
    Ok(())
}

/// The non-null entries among the first `n` slots of a pointer array
/// at `arr`, in order.
pub open spec fn dpad_nonnull(base: int, m: Seq<u8>, arr: u64, n: nat) -> Seq<PouchItemPtr>
    decreases n,
{
    if n == 0 {
        Seq::empty()
    } else {
        let prev = dpad_nonnull(base, m, arr, (n - 1) as nat);
        let p = mem_read_u64(base, m, arr + 8 * (n - 1));
        if p == 0 {
            prev
        } else {
            prev.push(PouchItemPtr { addr: p })
        }
    }
}

/// The low 32 bits of a register, read as a signed scalar.
fn w_as_i32(w: u32) -> (r: i32)
    ensures
        r == u32_as_i32(w),
{
    proof {
        assert(w > 0x7FFF_FFFF ==> w as int - 0x1_0000_0000 == (w as i32) as int) by (bit_vector);
    }
    #[verifier::truncate]
    (w as i32)
}

/// Call the native routine that fills a fixed 20-slot buffer with the
/// equipable weapons for a selector UI and returns a count. A count
/// outside `0..=20` is a data fault of the native side: the count is
/// never trusted, and the result is clamped to an empty list. Null
/// entries within a valid count are skipped, not propagated as
/// failure.
pub fn get_weapons_for_dpad(cpu: &mut VirtualCpu, target_type: i32) -> (r: Result<
    Vec<PouchItemPtr>,
    Error,
>)
    requires
        old(cpu).wf(),
    ensures
        final(cpu).wf(),
        final(cpu).same_session(&*old(cpu)),
        ({
            let m = old(cpu).mem;
            let base = m.base as int;
            let fb = old(cpu).frame_base;
            if fb as int - 160 < old(cpu).stack_limit as int {
                r is Err && r->Err_0 == Error::StackOverflow && final(cpu).mem.data@ == m.data@
            } else {
                let out = (fb - 160) as u64;
                match resolve_spec(base, m.data@, old(cpu).env, SingletonId::PauseMenuDataMgr) {
                    Err(e) => r is Err && r->Err_0 == e && final(cpu).mem.data@ == m.data@,
                    Ok(this) => {
                        let regs1 = old(cpu).regs@.update(0, this).update(1, out).update(
                            2,
                            i32_as_u32(target_type) as u64,
                        );
                        if !(dispatch_of(Operation::GetWeaponsForDpad, old(cpu).env.game_ver)
                            is Native) {
                            r is Err && r->Err_0 == Error::VersionUnsupported && final(cpu).mem.data@ == m.data@
                        } else {
                            match call_outcome(
                                *old(cpu),
                                Operation::GetWeaponsForDpad,
                                m.data@,
                                regs1,
                            ) {
                                Ok(ms) => {
                                    let count = u32_as_i32((ms.regs[0] & 0xFFFF_FFFF) as u32);
                                    &&& r is Ok
                                    &&& final(cpu).regs@ == ms.regs
                                    &&& final(cpu).mem.data@ == ms.mem
                                    &&& (count < 0 || count > 20) ==> r->Ok_0@
                                        == Seq::<PouchItemPtr>::empty()
                                    &&& (0 <= count <= 20) ==> r->Ok_0@ == dpad_nonnull(
                                        base,
                                        ms.mem,
                                        out,
                                        count as nat,
                                    )
                                },
                                Err(e) => r is Err && r->Err_0 == e,
                            }
                        }
                    },
                }
            }
        }),
{
    cpu.reset_stack();
    let out = match cpu.stack_alloc(160) {
        Ok(a) => a,
        Err(e) => {
            return Err(e);
        },
    };
    let this_ptr = match resolve(&cpu.mem, &cpu.env, SingletonId::PauseMenuDataMgr) {
        Ok(p) => p,
        Err(e) => {
            return Err(e);
        },
    };
    cpu.write_x(0, this_ptr);
    cpu.write_x(1, out);
    cpu.write_w(2, i32_bits(target_type));
    let jr = match op_dispatch(Operation::GetWeaponsForDpad, cpu.env.game_ver) {
        Dispatch::Native(off) => cpu.native_jump_to_main_offset(off),
        _ => Err(Error::VersionUnsupported),
    };
    match jr {
        Ok(u) => u,
        Err(e) => {
            return Err(e);
        },
    };
    let count = w_as_i32(cpu.read_w(0));
    let mut out_vec: Vec<PouchItemPtr> = Vec::new();
    if count < 0 || count > 20 {
        let ck = cpu.stack_check(out, 160);
        proof {
            assert(ck is Ok);
        }
        return Ok(out_vec);
    }
    let n = count as u64;
    let ghost base = cpu.mem.base as int;
    let ghost mem2 = cpu.mem.data@;
    let mut j: u64 = 0;
    while j < n
        invariant
            j <= n <= 20,
            cpu.wf(),
            cpu.same_session(&*old(cpu)),
            cpu.mem.base as int == base,
            cpu.mem.data@ == mem2,
            out == cpu.frame_base - 160,
            cpu.stack_limit <= out,
            out_vec@ == dpad_nonnull(base, mem2, out, j as nat),
        decreases n - j,
    {
        let p = match cpu.mem.read_u64(out + 8 * j) {
            Ok(v) => v,
            Err(e) => {
                proof {
                    assert(false);
                }
                return Err(e);
            },
        };
        if p != 0 {
            out_vec.push(PouchItemPtr { addr: p });
        }
        j = j + 1;
    }
    let ck = cpu.stack_check(out, 160);
    proof {
        assert(ck is Ok);
    }
    Ok(out_vec)
}

/// One pass over the fixed 5-slot held-item buffer, starting at slot
/// `i`. Empty and already-spawned slots are skipped. For each other
/// slot, the item name's termination is assured through the string's
/// own dispatch table, the native spawn routine runs on the name
/// bytes, and the slot is marked spawned only after the spawn call
/// succeeds, so a fault leaves earlier slots marked and later ones
/// not.
pub open spec fn holding_walk(
    env: Environment,
    base: int,
    m: Seq<u8>,
    regs: Seq<u64>,
    this: u64,
    i: nat,
) -> Result<(Seq<u64>, Seq<u8>), Error>
    decreases 5 - i,
{
    if i >= 5 {
        Ok((regs, m))
    } else {
        let entry = this + PMDM_GRABBED_OFF + PMDM_GRABBED_STRIDE * i;
        if !mem_in_range(base, m, entry, 16) {
            Err(Error::OutOfRange)
        } else {
            let item = mem_read_u64(base, m, entry);
            let spawned = crate::arena::mem_byte(base, m, entry + 8);
            if item == 0 || spawned != 0 {
                holding_walk(env, base, m, regs, this, i + 1)
            } else if !mem_in_range(base, m, item + POUCH_ITEM_NAME_OFF, 8) {
                Err(Error::OutOfRange)
            } else {
                let vt = mem_read_u64(base, m, item + POUCH_ITEM_NAME_OFF);
                if vt as int + SAFE_STRING_VFUNC_OFF as int + 8 > u64::MAX {
                    Err(Error::OutOfRange)
                } else if !mem_in_range(base, m, vt as int + SAFE_STRING_VFUNC_OFF as int, 8) {
                    Err(Error::OutOfRange)
                } else {
                    let func = mem_read_u64(base, m, vt as int + SAFE_STRING_VFUNC_OFF as int);
                    match jump_outcome(
                        base,
                        m,
                        regs.update(0, (item + POUCH_ITEM_NAME_OFF) as u64),
                        func,
                    ) {
                        Err(e) => Err(e),
                        Ok(ms1) => {
                            let cstr = crate::cpu::wrap_add_u64(
                                item,
                                (POUCH_ITEM_NAME_OFF + STRING40_BUF_OFF) as u64,
                            );
                            match dispatch_of(Operation::SpawnItemActor, env.game_ver) {
                                Dispatch::Native(off) => {
                                    if env.base_address as int + off as int > u64::MAX {
                                        Err(Error::OutOfRange)
                                    } else {
                                        match jump_outcome(
                                            base,
                                            ms1.mem,
                                            ms1.regs.update(0, cstr).update(1, 0),
                                            (env.base_address + off) as u64,
                                        ) {
                                            Err(e) => Err(e),
                                            Ok(ms2) => {
                                                if !mem_in_range(base, ms2.mem, entry + 8, 1) {
                                                    Err(Error::OutOfRange)
                                                } else {
                                                    holding_walk(
                                                        env,
                                                        base,
                                                        ms2.mem.update(entry + 8 - base, 1u8),
                                                        ms2.regs,
                                                        this,
                                                        i + 1,
                                                    )
                                                }
                                            },
                                        }
                                    }
                                },
                                _ => Err(Error::VersionUnsupported),
                            }
                        },
                    }
                }
            }
        }
    }
}

/// Spawn the actors for the currently held items. Inlined in the
/// later revision and therefore reimplemented; the per-item spawn
/// itself is a native call on both revisions.
pub fn create_holding_items(cpu: &mut VirtualCpu) -> (r: Result<(), Error>)
    requires
        old(cpu).wf(),
    ensures
        final(cpu).wf(),
        final(cpu).same_session(&*old(cpu)),
        final(cpu).sp == old(cpu).frame_base,
        ({
            let base = old(cpu).mem.base as int;
            let m = old(cpu).mem.data@;
            match resolve_spec(base, m, old(cpu).env, SingletonId::PauseMenuDataMgr) {
                Err(e) => r is Err && r->Err_0 == e && final(cpu).mem.data@ == m,
                Ok(this) => match holding_walk(old(cpu).env, base, m, old(cpu).regs@, this, 0) {
                    Ok(p) => r is Ok && final(cpu).regs@ == p.0 && final(cpu).mem.data@ == p.1,
                    Err(e) => r is Err && r->Err_0 == e,
                },
            }
        }),
{
    cpu.reset_stack();
    let this_ptr = match resolve(&cpu.mem, &cpu.env, SingletonId::PauseMenuDataMgr) {
        Ok(p) => p,
        Err(e) => {
            return Err(e);
        },
    };
    let ghost base = cpu.mem.base as int;
    let ghost m0 = cpu.mem.data@;
    let ghost regs0 = cpu.regs@;
    let mut i: u64 = 0;
    while i < GRABBED_SLOTS
        invariant
            i <= GRABBED_SLOTS,
            cpu.wf(),
            cpu.same_session(&*old(cpu)),
            cpu.sp == old(cpu).frame_base,
            cpu.env == old(cpu).env,
            base == old(cpu).mem.base as int,
            m0 == old(cpu).mem.data@,
            regs0 == old(cpu).regs@,
            cpu.mem.base as int == base,
            resolve_spec(base, m0, old(cpu).env, SingletonId::PauseMenuDataMgr) == Ok::<
                u64,
                Error,
            >(this_ptr),
            holding_walk(old(cpu).env, base, m0, regs0, this_ptr, 0) == holding_walk(
                old(cpu).env,
                base,
                cpu.mem.data@,
                cpu.regs@,
                this_ptr,
                i as nat,
            ),
        decreases GRABBED_SLOTS - i,
    {
        if this_ptr > u64::MAX - PMDM_GRABBED_OFF - PMDM_GRABBED_STRIDE * i
            - PMDM_GRABBED_STRIDE {
            return Err(Error::OutOfRange);
        }
        let entry = this_ptr + PMDM_GRABBED_OFF + PMDM_GRABBED_STRIDE * i;
        if !cpu.mem.check_range(entry, 16) {
            return Err(Error::OutOfRange);
        }
        let item = match cpu.mem.read_u64(entry) {
            Ok(v) => v,
            Err(e) => {
                proof {
                    assert(false);
                }
                return Err(e);
            },
        };
        let spawned = match cpu.mem.read_u8(entry + 8) {
            Ok(v) => v,
            Err(e) => {
                proof {
                    assert(false);
                }
                return Err(e);
            },
        };
        if item == 0 || spawned != 0 {
            i = i + 1;
            continue;
        }
        if item > u64::MAX - (POUCH_ITEM_NAME_OFF + 8) {
            return Err(Error::OutOfRange);
        }
        let name_addr = item + POUCH_ITEM_NAME_OFF;
        match assure_termination(cpu, name_addr) {
            Ok(u) => u,
            Err(e) => {
                return Err(e);
            },
        };
        let cstr = item.wrapping_add(POUCH_ITEM_NAME_OFF + STRING40_BUF_OFF);
        cpu.write_x(0, cstr);
        cpu.write_x(1, 0);
        let jr = match op_dispatch(Operation::SpawnItemActor, cpu.env.game_ver) {
            Dispatch::Native(off) => cpu.native_jump_to_main_offset(off),
            _ => Err(Error::VersionUnsupported),
        };
        match jr {
            Ok(u) => u,
            Err(e) => {
                return Err(e);
            },
        };
        match cpu.mem.write_u8(entry + 8, 1) {
            Ok(u) => u,
            Err(e) => {
                return Err(e);
            },
        };
        i = i + 1;
    }
    Ok(())
}

/// A name for what `String::from_utf8_lossy` returns on the given
/// bytes; it depends on the bytes alone.
pub uninterp spec fn utf8_lossy_of(bytes: Seq<u8>) -> Seq<char>;

/// Relies on String::from_utf8_lossy: the result is a function of the
/// bytes alone, and bytes that are valid UTF-8 — in particular pure
/// ASCII — decode to exactly their code points.
#[verifier::external_body]
fn bytes_to_string_lossy(bytes: &Vec<u8>) -> (r: String)
    ensures
        r@ == utf8_lossy_of(bytes@),
        (forall|i: int| 0 <= i < bytes@.len() ==> bytes@[i] < 0x80) ==> r@ == bytes@.map_values(
            |b: u8| b as char,
        ),
{
    String::from_utf8_lossy(bytes.as_slice()).into_owned()
}

/// Everything that determines [`get_actor_profile`]'s outcome, up to
/// the raw profile bytes: the final machine state and the
/// zero-terminated bytes the profile pointer led to.
pub open spec fn actor_profile_outcome(cpu0: VirtualCpu, actor: Seq<u8>) -> Result<
    (MState, Seq<u8>),
    Error,
> {
    let m = cpu0.mem;
    let base = m.base as int;
    let fb = cpu0.frame_base;
    match resolve_spec(base, m.data@, cpu0.env, SingletonId::InfoData) {
        Err(e) => Err(e),
        Ok(this) => {
            if fb as int - 8 < cpu0.stack_limit as int {
                Err(Error::StackOverflow)
            } else if actor.len() >= STRING40_CAP {
                Err(Error::OutOfRange)
            } else if cpu0.env.base_address as int + sstr_vtable_offset(cpu0.env.game_ver) as int
                > u64::MAX {
                Err(Error::OutOfRange)
            } else if fb as int - 8 - STRING40_SIZE < cpu0.stack_limit as int {
                Err(Error::StackOverflow)
            } else {
                let out = (fb - 8) as u64;
                let a = (fb - 8 - STRING40_SIZE) as u64;
                let vt = (cpu0.env.base_address + sstr_vtable_offset(cpu0.env.game_ver)) as u64;
                let mem1 = sstr_store_image(
                    base,
                    sstr_construct_image(base, m.data@, a as int, vt),
                    a as int,
                    actor,
                );
                let cstr = (a + STRING40_BUF_OFF) as u64;
                let regs1 = cpu0.regs@.update(0, this).update(1, out).update(2, cstr);
                match dispatch_of(Operation::GetActorProfile, cpu0.env.game_ver) {
                    Dispatch::Native(off) => {
                        if cpu0.env.base_address as int + off as int > u64::MAX {
                            Err(Error::OutOfRange)
                        } else {
                            match jump_outcome(
                                base,
                                mem1,
                                regs1,
                                (cpu0.env.base_address + off) as u64,
                            ) {
                                Err(e) => Err(e),
                                Ok(ms) => {
                                    if !mem_in_range(base, ms.mem, out as int, 8) {
                                        Err(Error::OutOfRange)
                                    } else {
                                        let p = mem_read_u64(base, ms.mem, out as int);
                                        match crate::records::cstr_scan(
                                            base,
                                            ms.mem,
                                            p as int,
                                            crate::records::CSTR_SCAN_BOUND as nat,
                                        ) {
                                            Err(e) => Err(e),
                                            Ok(bytes) => Ok((ms, bytes)),
                                        }
                                    }
                                },
                            }
                        }
                    },
                    _ => Err(Error::VersionUnsupported),
                }
            }
        },
    }
}

/// Call the native routine that looks up an actor's profile name in
/// the static actor tables, and decode the returned zero-terminated
/// bytes into a string.
pub fn get_actor_profile(cpu: &mut VirtualCpu, actor: &str) -> (r: Result<String, Error>)
    requires
        old(cpu).wf(),
    ensures
        final(cpu).wf(),
        final(cpu).same_session(&*old(cpu)),
        ({
            match actor_profile_outcome(*old(cpu), actor.spec_bytes()) {
                Err(e) => r is Err && r->Err_0 == e,
                Ok(p) => {
                    &&& r is Ok
                    &&& final(cpu).regs@ == p.0.regs
                    &&& final(cpu).mem.data@ == p.0.mem
                    &&& r->Ok_0@ == utf8_lossy_of(p.1)
                    &&& ((forall|k: int| 0 <= k < p.1.len() ==> p.1[k] < 0x80) ==> r->Ok_0@
                        == p.1.map_values(|b: u8| b as char))
                },
            }
        }),
{
    cpu.reset_stack();
    let this_ptr = match resolve(&cpu.mem, &cpu.env, SingletonId::InfoData) {
        Ok(p) => p,
        Err(e) => {
            return Err(e);
        },
    };
    let out_profile = match cpu.stack_alloc(8) {
        Ok(a) => a,
        Err(e) => {
            return Err(e);
        },
    };
    let name_ptr = match stack_alloc_string40(cpu, actor) {
        Ok(a) => a,
        Err(e) => {
            return Err(e);
        },
    };
    let name_cstr = name_ptr + STRING40_BUF_OFF;
    cpu.write_x(0, this_ptr);
    cpu.write_x(1, out_profile);
    cpu.write_x(2, name_cstr);
    let jr = match op_dispatch(Operation::GetActorProfile, cpu.env.game_ver) {
        Dispatch::Native(off) => cpu.native_jump_to_main_offset(off),
        _ => Err(Error::VersionUnsupported),
    };
    match jr {
        Ok(u) => u,
        Err(e) => {
            return Err(e);
        },
    };
    let ck = cpu.stack_check(name_ptr, STRING40_SIZE);
    proof {
        assert(ck is Ok);
    }
    let ck2 = cpu.stack_check(out_profile, 8);
    proof {
        assert(ck2 is Ok);
    }
    let profile_ptr = match cpu.mem.read_u64(out_profile) {
        Ok(v) => v,
        Err(e) => {
            proof {
                assert(false);
            }
            return Err(e);
        },
    };
    let bytes = match crate::records::read_cstr(
        &cpu.mem,
        profile_ptr,
        crate::records::CSTR_SCAN_BOUND,
    ) {
        Ok(v) => v,
        Err(e) => {
            return Err(e);
        },
    };
    Ok(bytes_to_string_lossy(&bytes))
}

/// Does the character sequence start with the weapon profile prefix?
pub open spec fn has_weapon_prefix(s: Seq<char>) -> bool {
    s.len() >= 6 && s[0] == 'W' && s[1] == 'e' && s[2] == 'a' && s[3] == 'p' && s[4] == 'o'
        && s[5] == 'n'
}

/// Prefix test over a decoded profile string.
fn starts_with_weapon(s: &String) -> (r: bool)
    ensures
        r == has_weapon_prefix(s@),
{
    let st = s.as_str();
    let n = st.unicode_len();
    if n < 6 {
        return false;
    }
    st.get_char(0) == 'W' && st.get_char(1) == 'e' && st.get_char(2) == 'a' && st.get_char(3)
        == 'p' && st.get_char(4) == 'o' && st.get_char(5) == 'n'
}

/// Does the actor's profile name start with the weapon prefix?
pub fn is_weapon_profile(cpu: &mut VirtualCpu, actor: &str) -> (r: Result<bool, Error>)
    requires
        old(cpu).wf(),
    ensures
        final(cpu).wf(),
        final(cpu).same_session(&*old(cpu)),
        ({
            match actor_profile_outcome(*old(cpu), actor.spec_bytes()) {
                Err(e) => r is Err && r->Err_0 == e,
                Ok(p) => {
                    &&& r is Ok
                    &&& r->Ok_0 == has_weapon_prefix(utf8_lossy_of(p.1))
                    &&& final(cpu).regs@ == p.0.regs
                    &&& final(cpu).mem.data@ == p.0.mem
                },
            }
        }),
{
    let profile = match get_actor_profile(cpu, actor) {
        Ok(s) => s,
        Err(e) => {
            return Err(e);
        },
    };
    Ok(starts_with_weapon(&profile))
}

/// The memory view after the first `k` fixed string sub-records of a
/// cook-item record at `cook` have been default-constructed, in order:
/// the actor name record first, then the five ingredient records.
pub open spec fn cook_constructs(base: int, m: Seq<u8>, cook: int, vt: u64, k: nat) -> Seq<u8>
    decreases k,
{
    if k == 0 {
        m
    } else {
        sstr_construct_image(
            base,
            cook_constructs(base, m, cook, vt, (k - 1) as nat),
            cook + STRING40_SIZE * (k - 1),
            vt,
        )
    }
}

/// The memory view after the first `k` provided ingredient names have
/// been encoded into their sub-records.
pub open spec fn cook_ing_stores(base: int, m: Seq<u8>, cook: int, ing: Seq<Seq<u8>>, k: nat) -> Seq<
    u8,
>
    decreases k,
{
    if k == 0 {
        m
    } else {
        sstr_store_image(
            base,
            cook_ing_stores(base, m, cook, ing, (k - 1) as nat),
            cook + COOK_ITEM_INGREDIENTS_OFF + STRING40_SIZE * (k - 1),
            ing[k - 1],
        )
    }
}

/// The memory view after the cook-item scalar fields are written: the
/// two intensity fields as raw 32-bit images, the three signed fields
/// two's-complement, and the crit flag cleared.
pub open spec fn cook_scalars(
    base: int,
    m: Seq<u8>,
    cook: int,
    life_bits: u32,
    effect_time: i32,
    sell_price: i32,
    effect_id: i32,
    vitality_bits: u32,
) -> Seq<u8> {
    let m1 = mem_write_u32(base, m, cook + COOK_ITEM_LIFE_RECOVER_OFF, life_bits);
    let m2 = mem_write_u32(base, m1, cook + COOK_ITEM_EFFECT_TIME_OFF, i32_as_u32(effect_time));
    let m3 = mem_write_u32(base, m2, cook + COOK_ITEM_SELL_PRICE_OFF, i32_as_u32(sell_price));
    let m4 = mem_write_u32(base, m3, cook + COOK_ITEM_EFFECT_ID_OFF, i32_as_u32(effect_id));
    let m5 = mem_write_u32(base, m4, cook + COOK_ITEM_VITALITY_BOOST_OFF, vitality_bits);
    m5.update(cook + COOK_ITEM_IS_CRIT_OFF - base, 0u8)
}

/// The byte strings of the ingredient names that are marshaled: at
/// most the first five.
pub open spec fn cook_ing_bytes(ingredients: Seq<String>) -> Seq<Seq<u8>> {
    ingredients.map_values(|s: String| vstd::utf8::encode_utf8(s@))
}

/// How many ingredient names are marshaled.
pub open spec fn cook_ing_count(ingredients: Seq<String>) -> nat {
    if ingredients.len() < 5 {
        ingredients.len()
    } else {
        5
    }
}

/// Marshal a cook-item record — actor name, up to five ingredient
/// names, and the cook intensity fields — and call the native routine
/// that acquires the cooked item. The two intensity fields are carried
/// as the raw 32-bit scalar images the target stores.
#[verifier::rlimit(80)]
pub fn get_cook_item(
    cpu: &mut VirtualCpu,
    actor: &str,
    ingredients: &Vec<String>,
    life_recover_bits: Option<u32>,
    effect_time: Option<i32>,
    sell_price: Option<i32>,
    effect_id: Option<i32>,
    vitality_boost_bits: Option<u32>,
) -> (r: Result<(), Error>)
    requires
        old(cpu).wf(),
    ensures
        final(cpu).wf(),
        final(cpu).same_session(&*old(cpu)),
        ({
            let m = old(cpu).mem;
            let base = m.base as int;
            let fb = old(cpu).frame_base;
            let ing = cook_ing_bytes(ingredients@);
            let n_ing = cook_ing_count(ingredients@);
            let vt_sum = old(cpu).env.base_address as int + sstr_vtable_offset(
                old(cpu).env.game_ver,
            ) as int;
            match resolve_spec(base, m.data@, old(cpu).env, SingletonId::PauseMenuDataMgr) {
                Err(e) => r is Err && r->Err_0 == e && final(cpu).mem.data@ == m.data@,
                Ok(this) => {
                    if actor.spec_bytes().len() >= STRING40_CAP {
                        r is Err && r->Err_0 == Error::OutOfRange && final(cpu).mem.data@
                            == m.data@
                    } else if exists|q: int| 0 <= q < n_ing && #[trigger] ing[q].len()
                        >= STRING40_CAP {
                        r is Err && r->Err_0 == Error::OutOfRange && final(cpu).mem.data@
                            == m.data@
                    } else if vt_sum > u64::MAX {
                        r is Err && r->Err_0 == Error::OutOfRange && final(cpu).mem.data@
                            == m.data@
                    } else if fb as int - COOK_ITEM_SIZE < old(cpu).stack_limit as int {
                        r is Err && r->Err_0 == Error::StackOverflow && final(cpu).mem.data@
                            == m.data@
                    } else {
                        let cook = (fb - COOK_ITEM_SIZE) as u64;
                        let mc = cook_constructs(base, m.data@, cook as int, (vt_sum as u64), 6);
                        let ma = sstr_store_image(base, mc, cook as int, actor.spec_bytes());
                        let mi = cook_ing_stores(base, ma, cook as int, ing, n_ing);
                        let mem1 = cook_scalars(
                            base,
                            mi,
                            cook as int,
                            life_recover_bits.unwrap_or(0),
                            effect_time.unwrap_or(0),
                            sell_price.unwrap_or(0),
                            effect_id.unwrap_or(-1i32),
                            vitality_boost_bits.unwrap_or(0),
                        );
                        let regs1 = old(cpu).regs@.update(0, this).update(1, cook);
                        if !(dispatch_of(Operation::GetCookItem, old(cpu).env.game_ver)
                            is Native) {
                            r is Err && r->Err_0 == Error::VersionUnsupported && final(cpu).mem.data@ == mem1
                        } else {
                            match call_outcome(*old(cpu), Operation::GetCookItem, mem1, regs1) {
                                Ok(ms) => r is Ok && final(cpu).regs@ == ms.regs && final(cpu).mem.data@ == ms.mem,
                                Err(e) => r is Err && r->Err_0 == e,
                            }
                        }
                    }
                },
            }
        }),
{
    cpu.reset_stack();
    let this_ptr = match resolve(&cpu.mem, &cpu.env, SingletonId::PauseMenuDataMgr) {
        Ok(p) => p,
        Err(e) => {
            return Err(e);
        },
    };
    if actor.as_bytes().len() as u64 >= STRING40_CAP {
        return Err(Error::OutOfRange);
    }
    let n_ing: usize = if ingredients.len() < 5 {
        ingredients.len()
    } else {
        5
    };
    let mut q: usize = 0;
    while q < n_ing
        invariant
            q <= n_ing,
            n_ing == cook_ing_count(ingredients@),
            n_ing <= ingredients@.len(),
            cpu.wf(),
            cpu.same_session(&*old(cpu)),
            cpu.mem == old(cpu).mem,
            cpu.regs == old(cpu).regs,
            cpu.sp == old(cpu).frame_base,
            resolve_spec(
                old(cpu).mem.base as int,
                old(cpu).mem.data@,
                old(cpu).env,
                SingletonId::PauseMenuDataMgr,
            ) == Ok::<u64, Error>(this_ptr),
            actor.spec_bytes().len() < STRING40_CAP,
            forall|j: int|
                0 <= j < q ==> #[trigger] cook_ing_bytes(ingredients@)[j].len() < STRING40_CAP,
        decreases n_ing - q,
    {
        if ingredients[q].as_str().as_bytes().len() as u64 >= STRING40_CAP {
            proof {
                assert(cook_ing_bytes(ingredients@)[q as int].len() >= STRING40_CAP);
            }
            return Err(Error::OutOfRange);
        }
        q = q + 1;
    }
    let vt_off = sstr_vtable_offset_exec(cpu.env.game_ver);
    if vt_off > u64::MAX - cpu.env.base_address {
        return Err(Error::OutOfRange);
    }
    let vtable = cpu.env.base_address + vt_off;
    let cook = match cpu.stack_alloc(COOK_ITEM_SIZE) {
        Ok(a) => a,
        Err(e) => {
            return Err(e);
        },
    };
    let ghost base = cpu.mem.base as int;
    let ghost m0 = cpu.mem.data@;
    let mut k: u64 = 0;
    while k < 6
        invariant
            k <= 6,
            cpu.wf(),
            cpu.same_session(&*old(cpu)),
            cpu.sp == cook,
            cpu.regs == old(cpu).regs,
            cpu.mem.base as int == base,
            cook as int + COOK_ITEM_SIZE <= cpu.frame_base,
            cpu.stack_limit <= cook,
            cpu.mem.data@ == cook_constructs(base, m0, cook as int, vtable, k as nat),
            cpu.mem.data@.len() == m0.len(),
        decreases 6 - k,
    {
        let res = crate::records::sstr_construct(&mut cpu.mem, cook + STRING40_SIZE * k, vtable);
        proof {
            assert(res is Ok);
        }
        k = k + 1;
    }
    let ghost mc = cpu.mem.data@;
    let res_a = crate::records::sstr_store(&mut cpu.mem, cook, actor.as_bytes());
    proof {
        assert(res_a is Ok);
    }
    let ghost ma = cpu.mem.data@;
    let mut q2: usize = 0;
    while q2 < n_ing
        invariant
            q2 <= n_ing,
            n_ing == cook_ing_count(ingredients@),
            n_ing <= ingredients@.len(),
            cpu.wf(),
            cpu.same_session(&*old(cpu)),
            cpu.sp == cook,
            cpu.regs == old(cpu).regs,
            cpu.mem.base as int == base,
            cook as int + COOK_ITEM_SIZE <= cpu.frame_base,
            cpu.stack_limit <= cook,
            forall|j: int|
                0 <= j < n_ing ==> #[trigger] cook_ing_bytes(ingredients@)[j].len()
                    < STRING40_CAP,
            cpu.mem.data@ == cook_ing_stores(
                base,
                ma,
                cook as int,
                cook_ing_bytes(ingredients@),
                q2 as nat,
            ),
            cpu.mem.data@.len() == ma.len(),
            ma.len() == m0.len(),
        decreases n_ing - q2,
    {
        let ing_bytes = ingredients[q2].as_str().as_bytes();
        proof {
            assert(cook_ing_bytes(ingredients@)[q2 as int] == vstd::utf8::encode_utf8(
                ingredients@[q2 as int]@,
            ));
            assert(ing_bytes@ == cook_ing_bytes(ingredients@)[q2 as int]);
        }
        let res = crate::records::sstr_store(
            &mut cpu.mem,
            cook + COOK_ITEM_INGREDIENTS_OFF + STRING40_SIZE * (q2 as u64),
            ing_bytes,
        );
        proof {
            assert(res is Ok);
        }
        q2 = q2 + 1;
    }
    let r1 = cpu.mem.write_u32(cook + COOK_ITEM_LIFE_RECOVER_OFF, life_recover_bits.unwrap_or(0));
    proof {
        assert(r1 is Ok);
    }
    let r2 = cpu.mem.write_i32(cook + COOK_ITEM_EFFECT_TIME_OFF, effect_time.unwrap_or(0));
    proof {
        assert(r2 is Ok);
    }
    let r3 = cpu.mem.write_i32(cook + COOK_ITEM_SELL_PRICE_OFF, sell_price.unwrap_or(0));
    proof {
        assert(r3 is Ok);
    }
    let r4 = cpu.mem.write_i32(cook + COOK_ITEM_EFFECT_ID_OFF, effect_id.unwrap_or(-1));
    proof {
        assert(r4 is Ok);
    }
    let r5 = cpu.mem.write_u32(
        cook + COOK_ITEM_VITALITY_BOOST_OFF,
        vitality_boost_bits.unwrap_or(0),
    );
    proof {
        assert(r5 is Ok);
    }
    let r6 = cpu.mem.write_u8(cook + COOK_ITEM_IS_CRIT_OFF, 0);
    proof {
        assert(r6 is Ok);
    }
    cpu.write_x(0, this_ptr);
    cpu.write_x(1, cook);
    let jr = match op_dispatch(Operation::GetCookItem, cpu.env.game_ver) {
        Dispatch::Native(off) => cpu.native_jump_to_main_offset(off),
        _ => Err(Error::VersionUnsupported),
    };
    match jr {
        Ok(u) => u,
        Err(e) => {
            return Err(e);
        },
    };
    let ck = cpu.stack_check(cook, COOK_ITEM_SIZE);
    proof {
        assert(ck is Ok);
    }
    Ok(())
}

} // verus!
