//! Locating long-lived global manager objects inside the arena.
//!
//! Each well-known manager is discovered through a fixed per-revision
//! pointer slot relative to the module base: the slot holds the
//! manager's address once the target process has constructed it, and
//! null before that. The resolver is never cached — it always reflects
//! the current arena contents, since the arena may be reset or
//! reloaded between sessions.

use vstd::prelude::*;

use crate::arena::{mem_in_range, mem_read_u64, Arena};
use crate::env::{Environment, GameVer};
use crate::error::Error;

verus! {

/// A manager object locatable by convention.
#[derive(Clone, Copy, Debug, PartialEq, Eq, Structural)]
pub enum SingletonId {
    /// The pause-menu data manager that owns the inventory state.
    PauseMenuDataMgr,
    /// The static actor information tables.
    InfoData,
}

/// The per-revision offset, from the module base, of the pointer slot
/// that holds a manager's address.
pub open spec fn singleton_slot(id: SingletonId, ver: GameVer) -> u64 {
    match (id, ver) {
        (SingletonId::PauseMenuDataMgr, GameVer::X150) => 0x02CA_6D50,
        (SingletonId::PauseMenuDataMgr, GameVer::X160) => 0x02CC_4E30,
        (SingletonId::InfoData, GameVer::X150) => 0x02CA_6D40,
        (SingletonId::InfoData, GameVer::X160) => 0x02CC_4E20,
    }
}

/// Executable counterpart of [`singleton_slot`].
pub fn singleton_slot_exec(id: SingletonId, ver: GameVer) -> (r: u64)
    ensures
        r == singleton_slot(id, ver),
{
    match (id, ver) {
        (SingletonId::PauseMenuDataMgr, GameVer::X150) => 0x02CA_6D50,
        (SingletonId::PauseMenuDataMgr, GameVer::X160) => 0x02CC_4E30,
        (SingletonId::InfoData, GameVer::X150) => 0x02CA_6D40,
        (SingletonId::InfoData, GameVer::X160) => 0x02CC_4E20,
    }
}

/// What resolving a manager against the given memory yields: the
/// address stored in its discovery slot, `NotInitialized` while the
/// slot is still null, or `OutOfRange` when the slot itself is not
/// addressable.
pub open spec fn resolve_spec(mem_base: int, mem: Seq<u8>, env: Environment, id: SingletonId) -> Result<
    u64,
    Error,
> {
    let slot = env.base_address + singleton_slot(id, env.game_ver);
    if slot > u64::MAX {
        Err(Error::OutOfRange)
    } else if !mem_in_range(mem_base, mem, slot as int, 8) {
        Err(Error::OutOfRange)
    } else {
        let p = mem_read_u64(mem_base, mem, slot as int);
        if p == 0 {
            Err(Error::NotInitialized)
        } else {
            Ok(p)
        }
    }
}

/// Look up a well-known manager's address via its fixed discovery slot
/// in the arena. Fails with `NotInitialized` if the target process has
/// not constructed it yet.
pub fn resolve(mem: &Arena, env: &Environment, id: SingletonId) -> (r: Result<u64, Error>)
    requires
        mem.wf(),
    ensures
        r == resolve_spec(mem.base as int, mem.data@, *env, id),
{
    let off = singleton_slot_exec(id, env.game_ver);
    if off > u64::MAX - env.base_address {
        return Err(Error::OutOfRange);
    }
    let slot = env.base_address + off;
    match mem.read_u64(slot) {
        Ok(p) => {
            if p == 0 {
                Err(Error::NotInitialized)
            } else {
                Ok(p)
            }
        },
        Err(e) => Err(e),
    }
}

} // verus!
