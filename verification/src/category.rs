//! The user-facing item category vocabulary of the command
//! representation.

use vstd::prelude::*;

verus! {

/// An item category as the command representation names it.
#[derive(Clone, Copy, Debug, PartialEq, Eq, Hash, Structural)]
pub enum Category {
    Weapon,
    Bow,
    Shield,
    Armor,
    ArmorHead,
    ArmorUpper,
    ArmorLower,
    Material,
    Food,
    KeyItem,
}

impl Category {
    /// Is this category an armor category, the parent or any
    /// subcategory?
    pub fn is_armor(self) -> (r: bool)
        ensures
            r == (self == Category::Armor || self == Category::ArmorHead || self
                == Category::ArmorUpper || self == Category::ArmorLower),
    {
        matches!(
            self,
            Category::Armor | Category::ArmorHead | Category::ArmorUpper | Category::ArmorLower
        )
    }

    /// Is this category hand-held equipment: weapon, bow, or shield?
    pub fn is_equipment(self) -> (r: bool)
        ensures
            r == (self == Category::Weapon || self == Category::Bow || self == Category::Shield),
    {
        matches!(self, Category::Weapon | Category::Bow | Category::Shield)
    }

    /// The armor parent category for any armor subcategory, and the
    /// category itself otherwise.
    pub fn coerce_armor(self) -> (r: Self)
        ensures
            (self == Category::ArmorHead || self == Category::ArmorUpper || self
                == Category::ArmorLower) ==> r == Category::Armor,
            !(self == Category::ArmorHead || self == Category::ArmorUpper || self
                == Category::ArmorLower) ==> r == self,
    {
        match self {
            Category::ArmorHead => Category::Armor,
            Category::ArmorUpper => Category::Armor,
            Category::ArmorLower => Category::Armor,
            other => other,
        }
    }
}

} // verus!
