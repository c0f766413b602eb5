//! Static, read-only classification facts about actors: name to
//! category/type/stackability lookups used when marshaling certain
//! operations' arguments. Each lookup is a pure function of the
//! identifier; the entries below are the classification data the
//! crate ships.

use vstd::prelude::*;
use vstd::string::StrSliceExecFns;

verus! {

/// Character-wise string equality.
fn str_eq(a: &str, b: &str) -> (r: bool)
    ensures
        r == (a@ == b@),
{
    let la = a.unicode_len();
    let lb = b.unicode_len();
    if la != lb {
        return false;
    }
    let mut i: usize = 0;
    while i < la
        invariant
            i <= la,
            la == a@.len(),
            la == b@.len(),
            forall|j: int| 0 <= j < i ==> a@[j] == b@[j],
        decreases la - i,
    {
        if a.get_char(i) != b.get_char(i) {
            return false;
        }
        i = i + 1;
    }
    proof {
        assert(a@ =~= b@);
    }
    true
}

/// The item-use code of an actor; an unlisted actor defaults to the
/// plain item use.
pub open spec fn pouch_item_use_of(name: Seq<char>) -> i32 {
    if name == "Weapon_Sword_070"@ {
        0
    } else if name == "Weapon_Lsword_010"@ {
        1
    } else if name == "Weapon_Spear_001"@ {
        2
    } else if name == "Weapon_Bow_001"@ {
        3
    } else if name == "Weapon_Shield_001"@ {
        4
    } else if name == "Armor_001_Head"@ {
        5
    } else if name == "Armor_001_Upper"@ {
        6
    } else if name == "Armor_001_Lower"@ {
        7
    } else if name == "Obj_DungeonClearSeal"@ {
        9
    } else if name == "Item_Roast_03"@ {
        10
    } else {
        8
    }
}

/// Get the item-use code for the given actor from the static data.
pub fn get_pouch_item_use(actor: &str) -> (r: i32)
    ensures
        r == pouch_item_use_of(actor@),
{
    if str_eq(actor, "Weapon_Sword_070") {
        0
    } else if str_eq(actor, "Weapon_Lsword_010") {
        1
    } else if str_eq(actor, "Weapon_Spear_001") {
        2
    } else if str_eq(actor, "Weapon_Bow_001") {
        3
    } else if str_eq(actor, "Weapon_Shield_001") {
        4
    } else if str_eq(actor, "Armor_001_Head") {
        5
    } else if str_eq(actor, "Armor_001_Upper") {
        6
    } else if str_eq(actor, "Armor_001_Lower") {
        7
    } else if str_eq(actor, "Obj_DungeonClearSeal") {
        9
    } else if str_eq(actor, "Item_Roast_03") {
        10
    } else {
        8
    }
}

/// The item-type code of an actor; an unlisted actor defaults to the
/// material type.
pub open spec fn pouch_item_type_of(name: Seq<char>) -> i32 {
    if name == "Weapon_Sword_070"@ || name == "Weapon_Lsword_010"@ || name
        == "Weapon_Spear_001"@ {
        0
    } else if name == "Weapon_Bow_001"@ {
        1
    } else if name == "NormalArrow"@ {
        2
    } else if name == "Weapon_Shield_001"@ {
        3
    } else if name == "Armor_001_Head"@ {
        4
    } else if name == "Armor_001_Upper"@ {
        5
    } else if name == "Armor_001_Lower"@ {
        6
    } else if name == "Item_Roast_03"@ {
        8
    } else if name == "Obj_DungeonClearSeal"@ {
        9
    } else {
        7
    }
}

/// Get the item-type code for the given actor from the static data.
pub fn get_pouch_item_type(actor: &str) -> (r: i32)
    ensures
        r == pouch_item_type_of(actor@),
{
    if str_eq(actor, "Weapon_Sword_070") || str_eq(actor, "Weapon_Lsword_010") || str_eq(
        actor,
        "Weapon_Spear_001",
    ) {
        0
    } else if str_eq(actor, "Weapon_Bow_001") {
        1
    } else if str_eq(actor, "NormalArrow") {
        2
    } else if str_eq(actor, "Weapon_Shield_001") {
        3
    } else if str_eq(actor, "Armor_001_Head") {
        4
    } else if str_eq(actor, "Armor_001_Upper") {
        5
    } else if str_eq(actor, "Armor_001_Lower") {
        6
    } else if str_eq(actor, "Item_Roast_03") {
        8
    } else if str_eq(actor, "Obj_DungeonClearSeal") {
        9
    } else {
        7
    }
}

/// The general life of an actor whose profile is a weapon profile;
/// `None` for every other actor.
pub open spec fn weapon_general_life_of(name: Seq<char>) -> Option<i32> {
    if name == "Weapon_Sword_070"@ {
        Some(4000)
    } else if name == "Weapon_Lsword_010"@ {
        Some(2700)
    } else if name == "Weapon_Bow_001"@ {
        Some(2200)
    } else if name == "Weapon_Shield_001"@ {
        Some(1000)
    } else {
        None
    }
}

/// Get the general life if the actor has a weapon profile.
pub fn get_weapon_general_life(actor: &str) -> (r: Option<i32>)
    ensures
        r == weapon_general_life_of(actor@),
{
    if str_eq(actor, "Weapon_Sword_070") {
        Some(4000)
    } else if str_eq(actor, "Weapon_Lsword_010") {
        Some(2700)
    } else if str_eq(actor, "Weapon_Bow_001") {
        Some(2200)
    } else if str_eq(actor, "Weapon_Shield_001") {
        Some(1000)
    } else {
        None
    }
}

/// Does the actor carry the stackable tag?
pub open spec fn is_stackable(name: Seq<char>) -> bool {
    name == "Item_Fruit_A"@ || name == "NormalArrow"@
}

/// Get whether the actor has the stackable tag from the static data.
pub fn can_stack(actor: &str) -> (r: bool)
    ensures
        r == is_stackable(actor@),
{
    str_eq(actor, "Item_Fruit_A") || str_eq(actor, "NormalArrow")
}

/// Does the actor carry the cannot-sell tag?
pub open spec fn is_non_sellable(name: Seq<char>) -> bool {
    name == "Obj_DungeonClearSeal"@ || name == "Weapon_Sword_070"@
}

/// Get whether the actor does not have the cannot-sell tag.
pub fn can_sell(actor: &str) -> (r: bool)
    ensures
        r == !is_non_sellable(actor@),
{
    !(str_eq(actor, "Obj_DungeonClearSeal") || str_eq(actor, "Weapon_Sword_070"))
}

/// Does the actor carry the usable (eatable) tag?
pub open spec fn is_eatable(name: Seq<char>) -> bool {
    name == "Item_Fruit_A"@ || name == "Item_Roast_03"@
}

/// Get whether the actor has the usable tag from the static data.
pub fn can_use(actor: &str) -> (r: bool)
    ensures
        r == is_eatable(actor@),
{
    str_eq(actor, "Item_Fruit_A") || str_eq(actor, "Item_Roast_03")
}

} // verus!
