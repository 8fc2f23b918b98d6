use weapon_catalog::tf2sc::model::{ItemSlot, Merc, WeaponFromView};
use weapon_catalog::tf2sc::transform::MongoStyle;
use weapon_catalog::tf2sc::upload::{
    per_class_loadout_slot_rows, used_by_class_rows, weapon_rows, WeaponPerClassLoadoutSlot,
    WeaponUsedByClass,
};

fn usage(id: i32, slot: ItemSlot, merc: Option<Merc>) -> WeaponFromView {
    WeaponFromView {
        id,
        name: format!("weapon {}", id),
        stock: id % 2 == 0,
        item_name: format!("#item_{}", id),
        item_slot: slot,
        image_url: format!("small/{}", id),
        image_url_large: format!("large/{}", id),
        merc,
    }
}

fn catalogue() -> Vec<WeaponFromView> {
    vec![
        usage(190, ItemSlot::Melee, Some(Merc::Scout)),
        usage(199, ItemSlot::Secondary, Some(Merc::Soldier)),
        usage(199, ItemSlot::Secondary, Some(Merc::Heavy)),
        usage(199, ItemSlot::Primary, Some(Merc::Engineer)),
        usage(30758, ItemSlot::Melee, None),
    ]
}

#[test]
fn usage_rows_list_every_class_of_every_weapon() {
    let documents = catalogue().to_mongo_style();
    assert_eq!(
        used_by_class_rows(&documents),
        vec![
            WeaponUsedByClass { weapon_id: 190, merc: Merc::Scout },
            WeaponUsedByClass { weapon_id: 199, merc: Merc::Soldier },
            WeaponUsedByClass { weapon_id: 199, merc: Merc::Heavy },
            WeaponUsedByClass { weapon_id: 199, merc: Merc::Engineer },
        ]
    );
}

#[test]
fn slot_rows_list_the_slots_of_shared_weapons_only() {
    let documents = catalogue().to_mongo_style();
    assert_eq!(
        per_class_loadout_slot_rows(&documents),
        vec![
            WeaponPerClassLoadoutSlot {
                weapon_id: 199,
                merc: Merc::Soldier,
                item_slot: ItemSlot::Secondary
            },
            WeaponPerClassLoadoutSlot {
                weapon_id: 199,
                merc: Merc::Heavy,
                item_slot: ItemSlot::Secondary
            },
            WeaponPerClassLoadoutSlot {
                weapon_id: 199,
                merc: Merc::Engineer,
                item_slot: ItemSlot::Primary
            },
        ]
    );
}

#[test]
fn weapon_rows_list_each_weapon_once() {
    let documents = catalogue().to_mongo_style();
    let weapons = weapon_rows(documents);
    let ids: Vec<i32> = weapons.iter().map(|weapon| weapon.id).collect();
    assert_eq!(ids, vec![190, 199, 30758]);
    assert_eq!(weapons[1].name, "weapon 199");
    assert_eq!(weapons[1].item_name, "#item_199");
    assert_eq!(weapons[1].item_slot, ItemSlot::Secondary);
    assert_eq!(weapons[1].image_url, "small/199");
    assert_eq!(weapons[1].image_url_large, "large/199");
    assert!(!weapons[1].stock);
    assert!(weapons[2].stock);
}

#[test]
fn no_documents_give_no_rows() {
    let documents = Vec::<WeaponFromView>::new().to_mongo_style();
    assert!(used_by_class_rows(&documents).is_empty());
    assert!(per_class_loadout_slot_rows(&documents).is_empty());
    assert!(weapon_rows(documents).is_empty());
}
