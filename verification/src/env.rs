//! Per-session execution environment and revision dispatch.
//!
//! The [`Environment`] is created once per session and read-only
//! thereafter: the module base address of the target binary and the
//! active revision. Each operation consults the dispatch table, which
//! maps an `(operation, revision)` pair to a fixed code offset, to a
//! marker meaning "inlined in this revision, use the reimplementation",
//! or to a gap. A gap fails fast with `VersionUnsupported` rather than
//! guessing an offset.

use vstd::prelude::*;

verus! {

/// A distinct compiled build of the target binary, with its own code
/// offsets and struct layouts.
#[derive(Clone, Copy, Debug, PartialEq, Eq, Structural)]
pub enum GameVer {
    X150,
    X160,
}

/// Immutable per-session descriptor: module base address and active
/// revision.
#[derive(Clone, Copy, Debug, PartialEq, Eq, Structural)]
pub struct Environment {
    /// Base address the per-revision code offsets are resolved against.
    pub base_address: u64,
    /// The active revision of the target binary.
    pub game_ver: GameVer,
}

impl Environment {
    /// Revision predicate: is the active revision the later build?
    pub fn is160(&self) -> (r: bool)
        ensures
            r == (self.game_ver == GameVer::X160),
    {
        match self.game_ver {
            GameVer::X160 => true,
            GameVer::X150 => false,
        }
    }
}

/// One logical game action that dispatches through the bridge.
#[derive(Clone, Copy, Debug, PartialEq, Eq, Structural)]
pub enum Operation {
    GetItemWithDefaultValue,
    GetCookItem,
    GetItemWithValue,
    EquipLastAddedItem,
    UpdateEquippedItemArray,
    SpawnItemActor,
    CreateHoldingItems,
    DeleteRemovedItems,
    RemoveHeldItems,
    CanHoldAnotherItem,
    CannotGetItem,
    TrashItem,
    EquipFromTabSlot,
    UnequipFromTabSlot,
    UnholdItems,
    SellItem,
    RemoveWeaponIfEquipped,
    EquipWeapon,
    Unequip,
    GetWeaponsForDpad,
    SetEquippedWeaponValue,
    UpdateInventoryInfo,
    UpdateListHeads,
    SaveToGameData,
    LoadFromGameData,
    CreatePlayerEquipment,
    UseItem,
    GetEquippedItem,
    BreakMasterSword,
    RemoveArrow,
    RemoveItemByName,
    GetActorProfile,
}

/// How an operation is carried out on a given revision.
#[derive(Clone, Copy, Debug, PartialEq, Eq, Structural)]
pub enum Dispatch {
    /// Jump to this fixed code offset relative to the module base.
    Native(u64),
    /// The routine is inlined in this revision; a hand-written
    /// equivalent runs directly against typed pointers.
    Reimplemented,
    /// Neither an offset nor a reimplementation is registered.
    Unimplemented,
}

/// The dispatch table: `(operation, revision)` to how the operation is
/// carried out. Offsets are data per revision, never guessed.
pub open spec fn dispatch_of(op: Operation, ver: GameVer) -> Dispatch {
    match (op, ver) {
        (Operation::GetItemWithDefaultValue, GameVer::X150) => Dispatch::Native(0x0073a464),
        (Operation::GetItemWithDefaultValue, GameVer::X160) => Dispatch::Unimplemented,
        (Operation::GetCookItem, GameVer::X150) => Dispatch::Native(0x00970060),
        (Operation::GetCookItem, GameVer::X160) => Dispatch::Native(0x010be740),
        (Operation::GetItemWithValue, GameVer::X150) => Dispatch::Native(0x0096efb8),
        (Operation::GetItemWithValue, GameVer::X160) => Dispatch::Unimplemented,
        (Operation::EquipLastAddedItem, GameVer::X150) => Dispatch::Native(0x00970264),
        (Operation::EquipLastAddedItem, GameVer::X160) => Dispatch::Unimplemented,
        (Operation::UpdateEquippedItemArray, _) => Dispatch::Reimplemented,
        (Operation::SpawnItemActor, GameVer::X150) => Dispatch::Native(0x0073c5b4),
        (Operation::SpawnItemActor, GameVer::X160) => Dispatch::Native(0x00d23b20),
        (Operation::CreateHoldingItems, _) => Dispatch::Reimplemented,
        (Operation::DeleteRemovedItems, GameVer::X150) => Dispatch::Native(0x00977128),
        (Operation::DeleteRemovedItems, GameVer::X160) => Dispatch::Unimplemented,
        (Operation::RemoveHeldItems, GameVer::X150) => Dispatch::Native(0x00971b00),
        (Operation::RemoveHeldItems, GameVer::X160) => Dispatch::Unimplemented,
        (Operation::CanHoldAnotherItem, _) => Dispatch::Reimplemented,
        (Operation::CannotGetItem, GameVer::X150) => Dispatch::Native(0x0096d72c),
        (Operation::CannotGetItem, GameVer::X160) => Dispatch::Unimplemented,
        (Operation::TrashItem, GameVer::X150) => Dispatch::Native(0x009766d8),
        (Operation::TrashItem, GameVer::X160) => Dispatch::Unimplemented,
        (Operation::EquipFromTabSlot, GameVer::X150) => Dispatch::Native(0x009762a8),
        (Operation::EquipFromTabSlot, GameVer::X160) => Dispatch::Unimplemented,
        (Operation::UnequipFromTabSlot, GameVer::X150) => Dispatch::Native(0x009764a0),
        (Operation::UnequipFromTabSlot, GameVer::X160) => Dispatch::Unimplemented,
        (Operation::UnholdItems, GameVer::X150) => Dispatch::Native(0x0097adfc),
        (Operation::UnholdItems, GameVer::X160) => Dispatch::Unimplemented,
        (Operation::SellItem, GameVer::X150) => Dispatch::Native(0x0097d250),
        (Operation::SellItem, GameVer::X160) => Dispatch::Unimplemented,
        (Operation::RemoveWeaponIfEquipped, GameVer::X150) => Dispatch::Native(0x00970a04),
        (Operation::RemoveWeaponIfEquipped, GameVer::X160) => Dispatch::Unimplemented,
        (Operation::EquipWeapon, GameVer::X150) => Dispatch::Native(0x0097a944),
        (Operation::EquipWeapon, GameVer::X160) => Dispatch::Unimplemented,
        (Operation::Unequip, _) => Dispatch::Reimplemented,
        (Operation::GetWeaponsForDpad, GameVer::X150) => Dispatch::Native(0x0097a7cc),
        (Operation::GetWeaponsForDpad, GameVer::X160) => Dispatch::Unimplemented,
        (Operation::SetEquippedWeaponValue, GameVer::X150) => Dispatch::Native(0x00971438),
        (Operation::SetEquippedWeaponValue, GameVer::X160) => Dispatch::Unimplemented,
        (Operation::UpdateInventoryInfo, GameVer::X150) => Dispatch::Native(0x0096c954),
        (Operation::UpdateInventoryInfo, GameVer::X160) => Dispatch::Unimplemented,
        (Operation::UpdateListHeads, _) => Dispatch::Reimplemented,
        (Operation::SaveToGameData, GameVer::X150) => Dispatch::Native(0x0096f9bc),
        (Operation::SaveToGameData, GameVer::X160) => Dispatch::Unimplemented,
        (Operation::LoadFromGameData, GameVer::X150) => Dispatch::Native(0x0096be24),
        (Operation::LoadFromGameData, GameVer::X160) => Dispatch::Unimplemented,
        (Operation::CreatePlayerEquipment, GameVer::X150) => Dispatch::Native(0x00971504),
        (Operation::CreatePlayerEquipment, GameVer::X160) => Dispatch::Unimplemented,
        (Operation::UseItem, GameVer::X150) => Dispatch::Native(0x00976cc4),
        (Operation::UseItem, GameVer::X160) => Dispatch::Unimplemented,
        (Operation::GetEquippedItem, GameVer::X150) => Dispatch::Native(0x009792f4),
        (Operation::GetEquippedItem, GameVer::X160) => Dispatch::Unimplemented,
        (Operation::BreakMasterSword, GameVer::X150) => Dispatch::Native(0x00972608),
        (Operation::BreakMasterSword, GameVer::X160) => Dispatch::Unimplemented,
        (Operation::RemoveArrow, GameVer::X150) => Dispatch::Native(0x00970d84),
        (Operation::RemoveArrow, GameVer::X160) => Dispatch::Unimplemented,
        (Operation::RemoveItemByName, GameVer::X150) => Dispatch::Native(0x009704bc),
        (Operation::RemoveItemByName, GameVer::X160) => Dispatch::Unimplemented,
        (Operation::GetActorProfile, GameVer::X150) => Dispatch::Native(0x00d301fc),
        (Operation::GetActorProfile, GameVer::X160) => Dispatch::Native(0x01542270),
    }
}

/// Executable lookup into the dispatch table.
pub fn op_dispatch(op: Operation, ver: GameVer) -> (r: Dispatch)
    ensures
        r == dispatch_of(op, ver),
{
    match (op, ver) {
        (Operation::GetItemWithDefaultValue, GameVer::X150) => Dispatch::Native(0x0073a464),
        (Operation::GetItemWithDefaultValue, GameVer::X160) => Dispatch::Unimplemented,
        (Operation::GetCookItem, GameVer::X150) => Dispatch::Native(0x00970060),
        (Operation::GetCookItem, GameVer::X160) => Dispatch::Native(0x010be740),
        (Operation::GetItemWithValue, GameVer::X150) => Dispatch::Native(0x0096efb8),
        (Operation::GetItemWithValue, GameVer::X160) => Dispatch::Unimplemented,
        (Operation::EquipLastAddedItem, GameVer::X150) => Dispatch::Native(0x00970264),
        (Operation::EquipLastAddedItem, GameVer::X160) => Dispatch::Unimplemented,
        (Operation::UpdateEquippedItemArray, _) => Dispatch::Reimplemented,
        (Operation::SpawnItemActor, GameVer::X150) => Dispatch::Native(0x0073c5b4),
        (Operation::SpawnItemActor, GameVer::X160) => Dispatch::Native(0x00d23b20),
        (Operation::CreateHoldingItems, _) => Dispatch::Reimplemented,
        (Operation::DeleteRemovedItems, GameVer::X150) => Dispatch::Native(0x00977128),
        (Operation::DeleteRemovedItems, GameVer::X160) => Dispatch::Unimplemented,
        (Operation::RemoveHeldItems, GameVer::X150) => Dispatch::Native(0x00971b00),
        (Operation::RemoveHeldItems, GameVer::X160) => Dispatch::Unimplemented,
        (Operation::CanHoldAnotherItem, _) => Dispatch::Reimplemented,
        (Operation::CannotGetItem, GameVer::X150) => Dispatch::Native(0x0096d72c),
        (Operation::CannotGetItem, GameVer::X160) => Dispatch::Unimplemented,
        (Operation::TrashItem, GameVer::X150) => Dispatch::Native(0x009766d8),
        (Operation::TrashItem, GameVer::X160) => Dispatch::Unimplemented,
        (Operation::EquipFromTabSlot, GameVer::X150) => Dispatch::Native(0x009762a8),
        (Operation::EquipFromTabSlot, GameVer::X160) => Dispatch::Unimplemented,
        (Operation::UnequipFromTabSlot, GameVer::X150) => Dispatch::Native(0x009764a0),
        (Operation::UnequipFromTabSlot, GameVer::X160) => Dispatch::Unimplemented,
        (Operation::UnholdItems, GameVer::X150) => Dispatch::Native(0x0097adfc),
        (Operation::UnholdItems, GameVer::X160) => Dispatch::Unimplemented,
        (Operation::SellItem, GameVer::X150) => Dispatch::Native(0x0097d250),
        (Operation::SellItem, GameVer::X160) => Dispatch::Unimplemented,
        (Operation::RemoveWeaponIfEquipped, GameVer::X150) => Dispatch::Native(0x00970a04),
        (Operation::RemoveWeaponIfEquipped, GameVer::X160) => Dispatch::Unimplemented,
        (Operation::EquipWeapon, GameVer::X150) => Dispatch::Native(0x0097a944),
        (Operation::EquipWeapon, GameVer::X160) => Dispatch::Unimplemented,
        (Operation::Unequip, _) => Dispatch::Reimplemented,
        (Operation::GetWeaponsForDpad, GameVer::X150) => Dispatch::Native(0x0097a7cc),
        (Operation::GetWeaponsForDpad, GameVer::X160) => Dispatch::Unimplemented,
        (Operation::SetEquippedWeaponValue, GameVer::X150) => Dispatch::Native(0x00971438),
        (Operation::SetEquippedWeaponValue, GameVer::X160) => Dispatch::Unimplemented,
        (Operation::UpdateInventoryInfo, GameVer::X150) => Dispatch::Native(0x0096c954),
        (Operation::UpdateInventoryInfo, GameVer::X160) => Dispatch::Unimplemented,
        (Operation::UpdateListHeads, _) => Dispatch::Reimplemented,
        (Operation::SaveToGameData, GameVer::X150) => Dispatch::Native(0x0096f9bc),
        (Operation::SaveToGameData, GameVer::X160) => Dispatch::Unimplemented,
        (Operation::LoadFromGameData, GameVer::X150) => Dispatch::Native(0x0096be24),
        (Operation::LoadFromGameData, GameVer::X160) => Dispatch::Unimplemented,
        (Operation::CreatePlayerEquipment, GameVer::X150) => Dispatch::Native(0x00971504),
        (Operation::CreatePlayerEquipment, GameVer::X160) => Dispatch::Unimplemented,
        (Operation::UseItem, GameVer::X150) => Dispatch::Native(0x00976cc4),
        (Operation::UseItem, GameVer::X160) => Dispatch::Unimplemented,
        (Operation::GetEquippedItem, GameVer::X150) => Dispatch::Native(0x009792f4),
        (Operation::GetEquippedItem, GameVer::X160) => Dispatch::Unimplemented,
        (Operation::BreakMasterSword, GameVer::X150) => Dispatch::Native(0x00972608),
        (Operation::BreakMasterSword, GameVer::X160) => Dispatch::Unimplemented,
        (Operation::RemoveArrow, GameVer::X150) => Dispatch::Native(0x00970d84),
        (Operation::RemoveArrow, GameVer::X160) => Dispatch::Unimplemented,
        (Operation::RemoveItemByName, GameVer::X150) => Dispatch::Native(0x009704bc),
        (Operation::RemoveItemByName, GameVer::X160) => Dispatch::Unimplemented,
        (Operation::GetActorProfile, GameVer::X150) => Dispatch::Native(0x00d301fc),
        (Operation::GetActorProfile, GameVer::X160) => Dispatch::Native(0x01542270),
    }
}

} // verus!
