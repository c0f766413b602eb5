use blueflame::actor;
use blueflame::category::Category;

#[test]
fn item_use_lookup_with_default() {
    assert_eq!(actor::get_pouch_item_use("Weapon_Sword_070"), 0);
    assert_eq!(actor::get_pouch_item_use("Weapon_Bow_001"), 3);
    // an unlisted actor defaults to the plain item use
    assert_eq!(actor::get_pouch_item_use("Obj_Unknown_Thing"), 8);
}

#[test]
fn item_type_lookup_with_default() {
    assert_eq!(actor::get_pouch_item_type("Weapon_Shield_001"), 3);
    assert_eq!(actor::get_pouch_item_type("NormalArrow"), 2);
    // an unlisted actor defaults to the material type
    assert_eq!(actor::get_pouch_item_type("Obj_Unknown_Thing"), 7);
}

#[test]
fn weapon_life_lookup() {
    assert_eq!(actor::get_weapon_general_life("Weapon_Sword_070"), Some(4000));
    assert_eq!(actor::get_weapon_general_life("Item_Fruit_A"), None);
}

#[test]
fn tag_lookups() {
    assert!(actor::can_stack("Item_Fruit_A"));
    assert!(!actor::can_stack("Weapon_Sword_070"));
    assert!(!actor::can_sell("Obj_DungeonClearSeal"));
    assert!(actor::can_sell("Item_Fruit_A"));
    assert!(actor::can_use("Item_Roast_03"));
    assert!(!actor::can_use("Weapon_Sword_070"));
}

#[test]
fn armor_categories() {
    assert!(Category::Armor.is_armor());
    assert!(Category::ArmorHead.is_armor());
    assert!(Category::ArmorUpper.is_armor());
    assert!(Category::ArmorLower.is_armor());
    assert!(!Category::Weapon.is_armor());
    assert!(!Category::Food.is_armor());
}

#[test]
fn equipment_categories() {
    assert!(Category::Weapon.is_equipment());
    assert!(Category::Bow.is_equipment());
    assert!(Category::Shield.is_equipment());
    assert!(!Category::Armor.is_equipment());
    assert!(!Category::KeyItem.is_equipment());
}

#[test]
fn coerce_armor_folds_subcategories() {
    assert_eq!(Category::ArmorHead.coerce_armor(), Category::Armor);
    assert_eq!(Category::ArmorUpper.coerce_armor(), Category::Armor);
    assert_eq!(Category::ArmorLower.coerce_armor(), Category::Armor);
    assert_eq!(Category::Armor.coerce_armor(), Category::Armor);
    assert_eq!(Category::Bow.coerce_armor(), Category::Bow);
    assert_eq!(Category::Material.coerce_armor(), Category::Material);
}
