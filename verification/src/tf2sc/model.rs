//! The data model of the weapon catalogue.

use vstd::prelude::*;

verus! {

/// The equip position of a weapon.
#[derive(Clone, Copy, Debug, PartialEq, Eq, Hash, Structural)]
pub enum ItemSlot {
    Primary,
    Secondary,
    Melee,
}

/// A mercenary class: one of the nine playable roles.
#[derive(Clone, Copy, Debug, PartialEq, Eq, Hash, Structural)]
pub enum Merc {
    Scout,
    Soldier,
    Pyro,
    Demoman,
    Heavy,
    Engineer,
    Medic,
    Sniper,
    Spy,
}

/// The fields of a weapon that do not depend on who uses it, as mathematical
/// values.
pub struct WeaponView {
    pub id: i32,
    pub name: Seq<char>,
    pub stock: bool,
    pub item_name: Seq<char>,
    pub item_slot: ItemSlot,
    pub image_url: Seq<char>,
    pub image_url_large: Seq<char>,
}

/// One entry of the weapon catalogue.
#[derive(Clone, Debug)]
pub struct Weapon {
    pub id: i32,
    pub name: String,
    pub stock: bool,
    pub item_name: String,
    pub item_slot: ItemSlot,
    pub image_url: String,
    pub image_url_large: String,
}

impl View for Weapon {
    type V = WeaponView;

    open spec fn view(&self) -> WeaponView {
        WeaponView {
            id: self.id,
            name: self.name@,
            stock: self.stock,
            item_name: self.item_name@,
            item_slot: self.item_slot,
            image_url: self.image_url@,
            image_url_large: self.image_url_large@,
        }
    }
}

/// One row of the denormalised view, as mathematical values: a weapon and,
/// if the row ties it to a class's loadout, that class.
pub struct WeaponUsageRow {
    pub weapon: WeaponView,
    pub merc: Option<Merc>,
}

/// One row of the denormalised view: a weapon, repeated once per class that
/// may use it. A row without a class belongs to a weapon that no class's
/// loadout is tied to.
#[derive(Clone, Debug)]
pub struct WeaponFromView {
    pub id: i32,
    pub name: String,
    pub stock: bool,
    pub item_name: String,
    pub item_slot: ItemSlot,
    pub image_url: String,
    pub image_url_large: String,
    pub merc: Option<Merc>,
}

impl View for WeaponFromView {
    type V = WeaponUsageRow;

    open spec fn view(&self) -> WeaponUsageRow {
        WeaponUsageRow {
            weapon: WeaponView {
                id: self.id,
                name: self.name@,
                stock: self.stock,
                item_name: self.item_name@,
                item_slot: self.item_slot,
                image_url: self.image_url@,
                image_url_large: self.image_url_large@,
            },
            merc: self.merc,
        }
    }
}

} // verus!
