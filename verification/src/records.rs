//! Foreign struct layouts and typed access to them.
//!
//! A layout declares field offsets and sizes mirroring the target's
//! compiled struct layout exactly; the offsets are the central
//! fidelity contract of the whole system, fixed per binary revision. A
//! typed pointer here is a bare address together with the layout the
//! code reads through it; null is the sentinel address `0` and pointer
//! equality is address equality.

use vstd::prelude::*;

use crate::arena::{
    i32_as_u32, lemma_write_read_u32, lemma_write_read_u64, mem_byte, mem_in_range, mem_read_u32,
    mem_read_u64, mem_write_bytes, mem_write_u32, mem_write_u64, u32_as_i32, Arena,
};
use crate::error::Error;

verus! {

/// A weak typed handle into the arena: a raw address read through the
/// pouch-item layout. Not an owner — valid only for the arena's
/// lifetime. Null is the sentinel address `0`; equality is address
/// equality.
#[derive(Clone, Copy, Debug, PartialEq, Eq, Structural)]
pub struct PouchItemPtr {
    pub addr: u64,
}

impl PouchItemPtr {
    /// Is this the null sentinel?
    pub fn is_nullptr(&self) -> (r: bool)
        ensures
            r == (self.addr == 0),
    {
        self.addr == 0
    }
}

// --- weapon-modifier record: { flags: u32, value: i32 } ---

/// Size in bytes of a weapon-modifier record.
pub const WEAPON_MODIFIER_SIZE: u64 = 8;

/// A weapon-modifier record as plain values.
#[derive(Clone, Copy, Debug, PartialEq, Eq, Structural)]
pub struct WeaponModifierInfo {
    pub flags: u32,
    pub value: i32,
}

/// The memory view after storing a weapon-modifier record at `addr`.
pub open spec fn modifier_image(base: int, mem: Seq<u8>, addr: int, m: WeaponModifierInfo) -> Seq<
    u8,
> {
    mem_write_u32(base, mem_write_u32(base, mem, addr, m.flags), addr + 4, i32_as_u32(m.value))
}

/// The weapon-modifier record read from `addr`.
pub open spec fn modifier_at(base: int, mem: Seq<u8>, addr: int) -> WeaponModifierInfo {
    WeaponModifierInfo {
        flags: mem_read_u32(base, mem, addr),
        value: u32_as_i32(mem_read_u32(base, mem, addr + 4)),
    }
}

/// Store a weapon-modifier record; the contract carries the round
/// trip: the stored record reads back equal.
pub fn store_modifier(mem: &mut Arena, addr: u64, m: WeaponModifierInfo) -> (r: Result<(), Error>)
    requires
        old(mem).wf(),
    ensures
        final(mem).wf(),
        final(mem).base == old(mem).base,
        final(mem).data@.len() == old(mem).data@.len(),
        r is Ok <==> old(mem).in_range(addr as int, WEAPON_MODIFIER_SIZE as int),
        r is Ok ==> final(mem).data@ == modifier_image(
            old(mem).base as int,
            old(mem).data@,
            addr as int,
            m,
        ),
        r is Ok ==> modifier_at(final(mem).base as int, final(mem).data@, addr as int) == m,
        r is Err ==> r->Err_0 == Error::OutOfRange && final(mem).data@ == old(mem).data@,
    {
    if !mem.check_range(addr, WEAPON_MODIFIER_SIZE) {
        return Err(Error::OutOfRange);
    }
    let ghost base = mem.base as int;
    let ghost m0 = mem.data@;
    let r1 = mem.write_u32(addr, m.flags);
    proof {
        assert(r1 is Ok);
    }
    let r2 = mem.write_i32(addr + 4, m.value);
    proof {
        assert(r2 is Ok);
        lemma_write_read_u32(base, m0, addr as int, m.flags);
        lemma_write_read_u32(
            base,
            mem_write_u32(base, m0, addr as int, m.flags),
            addr as int + 4,
            i32_as_u32(m.value),
        );
        crate::arena::lemma_i32_u32_round_trip(m.value);
    }
    Ok(())
}

/// Load a weapon-modifier record.
pub fn load_modifier(mem: &Arena, addr: u64) -> (r: Result<WeaponModifierInfo, Error>)
    requires
        mem.wf(),
    ensures
        r is Ok <==> mem.in_range(addr as int, WEAPON_MODIFIER_SIZE as int),
        r is Ok ==> r->Ok_0 == modifier_at(mem.base as int, mem.data@, addr as int),
        r is Err ==> r->Err_0 == Error::OutOfRange,
{
    let flags = match mem.read_u32(addr) {
        Ok(v) => v,
        Err(e) => {
            return Err(e);
        },
    };
    let value = match mem.read_i32(addr + 4) {
        Ok(v) => v,
        Err(e) => {
            return Err(e);
        },
    };
    Ok(WeaponModifierInfo { flags, value })
}

// --- fixed-capacity foreign string buffer ---
//
// Layout: +0 vtable pointer (u64), +8 pointer to the inline buffer
// (u64), +16 stored length (u32), +24 inline buffer of STRING40_CAP
// bytes including the terminator.

/// Total size in bytes of the fixed string record.
pub const STRING40_SIZE: u64 = 64;

/// Offset of the stored length field.
pub const STRING40_LEN_OFF: u64 = 16;

/// Offset of the inline byte buffer.
pub const STRING40_BUF_OFF: u64 = 24;

/// Capacity of the inline buffer, terminator included.
pub const STRING40_CAP: u64 = 40;

/// Offset, within the vtable of the string's base class, of the
/// termination-assurance virtual function slot.
pub const SAFE_STRING_VFUNC_OFF: u64 = 0x18;

/// The stored length field of a fixed string record at `addr`.
pub open spec fn sstr_len(base: int, mem: Seq<u8>, addr: int) -> u32 {
    mem_read_u32(base, mem, addr + STRING40_LEN_OFF)
}

/// The stored content bytes of a fixed string record at `addr`.
pub open spec fn sstr_bytes(base: int, mem: Seq<u8>, addr: int) -> Seq<u8> {
    Seq::new(
        sstr_len(base, mem, addr) as nat,
        |i: int| mem_byte(base, mem, addr + STRING40_BUF_OFF + i),
    )
}

/// The memory view after default-constructing a fixed string record
/// at `addr`: vtable pointer, buffer pointer to the inline buffer,
/// zero length, empty terminated buffer.
pub open spec fn sstr_construct_image(base: int, mem: Seq<u8>, addr: int, vtable: u64) -> Seq<u8> {
    let m1 = mem_write_u64(base, mem, addr, vtable);
    let m2 = mem_write_u64(base, m1, addr + 8, (addr + STRING40_BUF_OFF) as u64);
    let m3 = mem_write_u32(base, m2, addr + STRING40_LEN_OFF, 0);
    m3.update(addr + STRING40_BUF_OFF - base, 0u8)
}

/// The memory view after encoding `bytes` into the record at `addr`:
/// content copied into the inline buffer, terminator appended, length
/// field updated.
pub open spec fn sstr_store_image(base: int, mem: Seq<u8>, addr: int, bytes: Seq<u8>) -> Seq<u8> {
    let m1 = mem_write_bytes(base, mem, addr + STRING40_BUF_OFF, bytes);
    let m2 = m1.update(addr + STRING40_BUF_OFF + bytes.len() - base, 0u8);
    mem_write_u32(base, m2, addr + STRING40_LEN_OFF, bytes.len() as u32)
}

/// Run the foreign default-initialization of a fixed string record:
/// the vtable slot is pointed at `vtable`, the buffer pointer at the
/// inline buffer, and the record becomes the empty string.
pub fn sstr_construct(mem: &mut Arena, addr: u64, vtable: u64) -> (r: Result<(), Error>)
    requires
        old(mem).wf(),
    ensures
        final(mem).wf(),
        final(mem).base == old(mem).base,
        final(mem).data@.len() == old(mem).data@.len(),
        r is Ok <==> old(mem).in_range(addr as int, STRING40_SIZE as int),
        r is Ok ==> final(mem).data@ == sstr_construct_image(
            old(mem).base as int,
            old(mem).data@,
            addr as int,
            vtable,
        ),
        r is Err ==> r->Err_0 == Error::OutOfRange && final(mem).data@ == old(mem).data@,
    {
    if !mem.check_range(addr, STRING40_SIZE) {
        return Err(Error::OutOfRange);
    }
    let r1 = mem.write_u64(addr, vtable);
    proof {
        assert(r1 is Ok);
    }
    let r2 = mem.write_u64(addr + 8, addr + STRING40_BUF_OFF);
    proof {
        assert(r2 is Ok);
    }
    let r3 = mem.write_u32(addr + STRING40_LEN_OFF, 0);
    proof {
        assert(r3 is Ok);
    }
    let r4 = mem.write_u8(addr + STRING40_BUF_OFF, 0);
    proof {
        assert(r4 is Ok);
    }
    Ok(())
}

/// Encode a byte string into the fixed-capacity record at `addr`,
/// honoring its exact layout. A value that does not fit (terminator
/// included) is an error, not a silent truncation. The contract
/// carries the round trip: on success the stored content reads back
/// equal to `value`.
pub fn sstr_store(mem: &mut Arena, addr: u64, value: &[u8]) -> (r: Result<(), Error>)
    requires
        old(mem).wf(),
    ensures
        final(mem).wf(),
        final(mem).base == old(mem).base,
        final(mem).data@.len() == old(mem).data@.len(),
        r is Ok <==> value@.len() < STRING40_CAP && old(mem).in_range(
            addr as int,
            STRING40_SIZE as int,
        ),
        r is Ok ==> final(mem).data@ == sstr_store_image(
            old(mem).base as int,
            old(mem).data@,
            addr as int,
            value@,
        ),
        r is Ok ==> sstr_bytes(final(mem).base as int, final(mem).data@, addr as int) == value@,
        r is Err ==> r->Err_0 == Error::OutOfRange && final(mem).data@ == old(mem).data@,
    {
    if value.len() as u64 >= STRING40_CAP {
        return Err(Error::OutOfRange);
    }
    if !mem.check_range(addr, STRING40_SIZE) {
        return Err(Error::OutOfRange);
    }
    let ghost base = mem.base as int;
    let ghost m0 = mem.data@;
    let n = value.len();
    let r1 = mem.write_bytes(addr + STRING40_BUF_OFF, value);
    proof {
        assert(r1 is Ok);
    }
    let r2 = mem.write_u8(addr + STRING40_BUF_OFF + n as u64, 0);
    proof {
        assert(r2 is Ok);
    }
    let r3 = mem.write_u32(addr + STRING40_LEN_OFF, n as u32);
    proof {
        assert(r3 is Ok);
        let m2 = mem_write_bytes(base, m0, addr as int + STRING40_BUF_OFF, value@).update(
            addr as int + STRING40_BUF_OFF + n - base,
            0u8,
        );
        lemma_write_read_u32(base, m2, addr as int + STRING40_LEN_OFF, n as u32);
        assert(sstr_bytes(base, mem.data@, addr as int) =~= value@);
    }
    Ok(())
}

/// Decode the stored content of a fixed string record back into plain
/// bytes.
pub fn sstr_load(mem: &Arena, addr: u64) -> (r: Result<Vec<u8>, Error>)
    requires
        mem.wf(),
    ensures
        r is Ok <==> mem.in_range(addr as int, STRING40_SIZE as int) && sstr_len(
            mem.base as int,
            mem.data@,
            addr as int,
        ) < STRING40_CAP,
        r is Ok ==> r->Ok_0@ == sstr_bytes(mem.base as int, mem.data@, addr as int),
        r is Err ==> r->Err_0 == Error::OutOfRange || r->Err_0 == Error::DataFault,
{
    if !mem.check_range(addr, STRING40_SIZE) {
        return Err(Error::OutOfRange);
    }
    let len = match mem.read_u32(addr + STRING40_LEN_OFF) {
        Ok(v) => v,
        Err(e) => {
            return Err(e);
        },
    };
    if len as u64 >= STRING40_CAP {
        return Err(Error::DataFault);
    }
    let mut out: Vec<u8> = Vec::new();
    let mut i: u32 = 0;
    while i < len
        invariant
            i <= len,
            len < STRING40_CAP,
            mem.wf(),
            mem.in_range(addr as int, STRING40_SIZE as int),
            out@.len() == i,
            forall|j: int|
                0 <= j < i ==> out@[j] == mem_byte(
                    mem.base as int,
                    mem.data@,
                    addr + STRING40_BUF_OFF + j,
                ),
        decreases len - i,
    {
        let b = match mem.read_u8(addr + STRING40_BUF_OFF + i as u64) {
            Ok(v) => v,
            Err(e) => {
                proof {
                    assert(false);
                }
                return Err(e);
            },
        };
        out.push(b);
        i = i + 1;
    }
    proof {
        assert(out@ =~= sstr_bytes(mem.base as int, mem.data@, addr as int));
    }
    Ok(out)
}

// --- zero-terminated byte strings ---

/// Ceiling on scanned bytes when following a zero-terminated string,
/// bounding a scan over a corrupted buffer.
pub const CSTR_SCAN_BOUND: u64 = 256;

/// What scanning a zero-terminated byte string at `addr` yields: its
/// content bytes, `OutOfRange` when the scan leaves the arena, or
/// `DataFault` when no terminator shows up within `bound` bytes.
pub open spec fn cstr_scan(base: int, mem: Seq<u8>, addr: int, bound: nat) -> Result<
    Seq<u8>,
    Error,
>
    decreases bound,
{
    if !mem_in_range(base, mem, addr, 1) {
        Err(Error::OutOfRange)
    } else if mem_byte(base, mem, addr) == 0 {
        Ok(Seq::empty())
    } else if bound == 0 {
        Err(Error::DataFault)
    } else {
        match cstr_scan(base, mem, addr + 1, (bound - 1) as nat) {
            Ok(t) => Ok(seq![mem_byte(base, mem, addr)] + t),
            Err(e) => Err(e),
        }
    }
}

/// Read a zero-terminated byte string out of the arena.
pub fn read_cstr(mem: &Arena, addr: u64, bound: u64) -> (r: Result<Vec<u8>, Error>)
    requires
        mem.wf(),
    ensures
        match cstr_scan(mem.base as int, mem.data@, addr as int, bound as nat) {
            Ok(bytes) => r is Ok && r->Ok_0@ == bytes,
            Err(e) => r is Err && r->Err_0 == e,
        },
    decreases bound,
{
    let b = match mem.read_u8(addr) {
        Ok(v) => v,
        Err(e) => {
            return Err(e);
        },
    };
    if b == 0 {
        return Ok(Vec::new());
    }
    if bound == 0 {
        return Err(Error::DataFault);
    }
    match read_cstr(mem, addr + 1, bound - 1) {
        Ok(mut t) => {
            t.insert(0, b);
            Ok(t)
        },
        Err(e) => Err(e),
    }
}

// --- pouch-item record ---
//
// An inventory-item record; the intrusive list node sits at offset 0,
// so a node address is the item address.

/// Offset of the intrusive list node's previous-pointer.
pub const POUCH_ITEM_PREV_OFF: u64 = 0;

/// Offset of the intrusive list node's next-pointer.
pub const POUCH_ITEM_NEXT_OFF: u64 = 8;

/// Offset of the item-type code (signed 32-bit).
pub const POUCH_ITEM_TYPE_OFF: u64 = 16;

/// Offset of the item-use code (signed 32-bit).
pub const POUCH_ITEM_USE_OFF: u64 = 20;

/// Offset of the item value (signed 32-bit).
pub const POUCH_ITEM_VALUE_OFF: u64 = 24;

/// Offset of the equipped flag (byte).
pub const POUCH_ITEM_EQUIPPED_OFF: u64 = 28;

/// Offset of the in-inventory flag (byte).
pub const POUCH_ITEM_IN_INVENTORY_OFF: u64 = 29;

/// Offset of the item name, a fixed string record.
pub const POUCH_ITEM_NAME_OFF: u64 = 32;

/// Size in bytes of a pouch-item record.
pub const POUCH_ITEM_SIZE: u64 = 96;

// --- cook-item record ---
//
// The actor name and five ingredient names are fixed string records;
// the two intensity fields hold the target's raw 32-bit scalar images.

pub const COOK_ITEM_ACTOR_OFF: u64 = 0;

/// Offset of the `i`-th ingredient name record: this value plus
/// `i * STRING40_SIZE`.
pub const COOK_ITEM_INGREDIENTS_OFF: u64 = 64;

pub const COOK_ITEM_LIFE_RECOVER_OFF: u64 = 384;

pub const COOK_ITEM_EFFECT_TIME_OFF: u64 = 388;

pub const COOK_ITEM_SELL_PRICE_OFF: u64 = 392;

pub const COOK_ITEM_EFFECT_ID_OFF: u64 = 396;

pub const COOK_ITEM_VITALITY_BOOST_OFF: u64 = 400;

pub const COOK_ITEM_IS_CRIT_OFF: u64 = 404;

/// Size in bytes of a cook-item record.
pub const COOK_ITEM_SIZE: u64 = 416;

// --- pause-menu data manager object ---

/// Offset of the intrusive item list header; the header node's
/// next-pointer is at this offset plus [`POUCH_ITEM_NEXT_OFF`], and
/// the end iterator is the header's own address.
pub const PMDM_LIST1_OFF: u64 = 0x68;

/// Offset of the 50-slot tab head array (64-bit pointers).
pub const PMDM_TABS_OFF: u64 = 0x100;

/// Offset of the 50-slot tab type array (signed 32-bit codes).
pub const PMDM_TABS_TYPE_OFF: u64 = 0x290;

/// Offset of the 7-slot category list-head array (64-bit pointers).
pub const PMDM_LIST_HEADS_OFF: u64 = 0x358;

/// Offset of the 4-slot equipped-weapon cache (64-bit pointers).
pub const PMDM_EQUIPPED_OFF: u64 = 0x390;

/// Offset of the 5-slot held-item buffer; each entry is 16 bytes:
/// item pointer at +0, actor-spawned flag byte at +8.
pub const PMDM_GRABBED_OFF: u64 = 0x3B0;

/// Byte stride of one held-item entry.
pub const PMDM_GRABBED_STRIDE: u64 = 16;

/// Size in bytes of the manager object.
pub const PMDM_SIZE: u64 = 0x400;

/// Number of slots in the held-item buffer.
pub const GRABBED_SLOTS: u64 = 5;

/// Number of slots in the equipped-weapon cache.
pub const EQUIPPED_SLOTS: u64 = 4;

/// Number of tab slots.
pub const TAB_SLOTS: u64 = 50;

/// Number of category list heads.
pub const CATEGORY_SLOTS: u64 = 7;

/// The per-revision offset, from the module base, of the vtable used
/// when constructing fixed string records.
pub open spec fn sstr_vtable_offset(ver: crate::env::GameVer) -> u64 {
    match ver {
        crate::env::GameVer::X150 => 0x0249_6120,
        crate::env::GameVer::X160 => 0x0258_4A80,
    }
}

/// Executable counterpart of [`sstr_vtable_offset`].
pub fn sstr_vtable_offset_exec(ver: crate::env::GameVer) -> (r: u64)
    ensures
        r == sstr_vtable_offset(ver),
{
    match ver {
        crate::env::GameVer::X150 => 0x0249_6120,
        crate::env::GameVer::X160 => 0x0258_4A80,
    }
}

} // verus!
