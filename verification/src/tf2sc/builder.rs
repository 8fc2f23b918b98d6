//! The document of one weapon and the accumulator that builds it from the
//! rows of one run.

use vstd::prelude::*;
use crate::tf2sc::model::{ItemSlot, Merc, Weapon, WeaponFromView, WeaponUsageRow, WeaponView};
use crate::tf2sc::slots::LoadoutSlots;

verus! {

/// The document of one weapon, as mathematical values.
pub struct WeaponDocument {
    pub weapon: WeaponView,
    /// The classes that may use the weapon, in the order of their rows;
    /// absent where there is none.
    pub used_by_classes: Option<Seq<Merc>>,
    /// The slot in which each class equips the weapon; present only where
    /// two or more classes use it.
    pub per_class_loadout_slots: Option<Map<Merc, ItemSlot>>,
}

impl WeaponDocument {
    /// What holds of every document that the accumulator hands out: a class
    /// list that is present is not empty, and the slot map is present exactly
    /// where the list has two or more entries.
    pub open spec fn well_formed(self) -> bool {
        &&& self.used_by_classes matches Some(classes) ==> classes.len() >= 1
        &&& self.per_class_loadout_slots is Some <==> (self.used_by_classes matches Some(classes)
            && classes.len() >= 2)
    }
}

/// The document of one weapon.
#[derive(Clone, Debug)]
pub struct MongoStyleWeapon {
    pub id: i32,
    pub name: String,
    pub stock: bool,
    pub item_name: String,
    pub item_slot: ItemSlot,
    pub image_url: String,
    pub image_url_large: String,
    pub used_by_classes: Option<Vec<Merc>>,
    pub per_class_loadout_slots: Option<LoadoutSlots>,
}

impl View for MongoStyleWeapon {
    type V = WeaponDocument;

    open spec fn view(&self) -> WeaponDocument {
        WeaponDocument {
            weapon: WeaponView {
                id: self.id,
                name: self.name@,
                stock: self.stock,
                item_name: self.item_name@,
                item_slot: self.item_slot,
                image_url: self.image_url@,
                image_url_large: self.image_url_large@,
            },
            used_by_classes: match self.used_by_classes {
                Some(classes) => Some(classes@),
                None => None,
            },
            per_class_loadout_slots: match self.per_class_loadout_slots {
                Some(slots) => Some(slots@),
                None => None,
            },
        }
    }
}

/// The state of the accumulator, as mathematical values: empty until the
/// first row seeds it, then seeded with the weapon of that row and with the
/// classes and slots recorded since.
pub enum BuilderView {
    Empty,
    Seeded {
        weapon: WeaponView,
        used_by_classes: Seq<Merc>,
        per_class_loadout_slots: Map<Merc, ItemSlot>,
    },
}

impl BuilderView {
    /// The accumulator before any row.
    pub open spec fn empty() -> BuilderView {
        BuilderView::Empty
    }

    /// Seeds the accumulator with the weapon of `row`. Whatever it held
    /// before, the weapon and every class and slot recorded for it, is gone.
    pub open spec fn put(self, row: WeaponUsageRow) -> BuilderView {
        BuilderView::Seeded {
            weapon: row.weapon,
            used_by_classes: Seq::empty(),
            per_class_loadout_slots: Map::empty(),
        }
    }

    /// Seeds an empty accumulator from `row`; leaves a seeded one as it is.
    pub open spec fn put_if_empty(self, row: WeaponUsageRow) -> BuilderView {
        match self {
            BuilderView::Empty => self.put(row),
            BuilderView::Seeded { .. } => self,
        }
    }

    /// Records that `merc` uses the weapon in `slot`: the class is appended,
    /// also where it is already listed, and its slot is set or overwritten.
    /// Without a class nothing changes. An empty accumulator has no weapon
    /// to record anything for and stays empty.
    pub open spec fn add_merc(self, merc: Option<Merc>, slot: ItemSlot) -> BuilderView {
        match (self, merc) {
            (
                BuilderView::Seeded { weapon, used_by_classes, per_class_loadout_slots },
                Some(merc),
            ) => BuilderView::Seeded {
                weapon,
                used_by_classes: used_by_classes.push(merc),
                per_class_loadout_slots: per_class_loadout_slots.insert(merc, slot),
            },
            _ => self,
        }
    }

    /// The accumulator after one more row: seed if empty, then record the
    /// row's class and slot.
    pub open spec fn absorb(self, row: WeaponUsageRow) -> BuilderView {
        self.put_if_empty(row).add_merc(row.merc, row.weapon.item_slot)
    }

    /// The document of a seeded accumulator; none for an empty one.
    ///
    /// Without a class the list and the map are both absent. With one class
    /// the list holds it and the map is absent, whatever was recorded: the
    /// weapon's own slot says it already. With two or more both are present
    /// in full.
    pub open spec fn build(self) -> Option<WeaponDocument> {
        match self {
            BuilderView::Empty => None,
            BuilderView::Seeded { weapon, used_by_classes, per_class_loadout_slots } => Some(
                WeaponDocument {
                    weapon,
                    used_by_classes: if used_by_classes.len() == 0 {
                        None
                    } else {
                        Some(used_by_classes)
                    },
                    per_class_loadout_slots: if used_by_classes.len() > 1 {
                        Some(per_class_loadout_slots)
                    } else {
                        None
                    },
                },
            ),
        }
    }
}

/// The two states of the accumulator.
#[derive(Clone, Debug)]
enum BuilderState {
    Empty,
    Seeded { weapon: Weapon, used_by_classes: Vec<Merc>, per_class_loadout_slots: LoadoutSlots },
}

/// The accumulator that turns the rows of one run into a document.
#[derive(Clone, Debug)]
pub struct MongoStyleWeaponBuilder {
    state: BuilderState,
}

impl View for MongoStyleWeaponBuilder {
    type V = BuilderView;

    closed spec fn view(&self) -> BuilderView {
        match self.state {
            BuilderState::Empty => BuilderView::Empty,
            BuilderState::Seeded { weapon, used_by_classes, per_class_loadout_slots } =>
                BuilderView::Seeded {
                    weapon: weapon@,
                    used_by_classes: used_by_classes@,
                    per_class_loadout_slots: per_class_loadout_slots@,
                },
        }
    }
}

impl Default for MongoStyleWeaponBuilder {
    /// The empty accumulator.
    fn default() -> (builder: MongoStyleWeaponBuilder)
        ensures
            builder@ == BuilderView::empty(),
    {
        MongoStyleWeaponBuilder { state: BuilderState::Empty }
    }
}

impl MongoStyleWeaponBuilder {
    /// Finalises the accumulator: the document of a seeded one, nothing for
    /// an empty one.
    pub fn build(self) -> (document: Option<MongoStyleWeapon>)
        ensures
            match document {
                Some(document) => self@.build() == Some(document@) && document@.well_formed(),
                None => self@.build() is None,
            },
            document is None <==> self@ is Empty,
    {
        match self.state {
            BuilderState::Empty => None,
            BuilderState::Seeded { weapon, used_by_classes, per_class_loadout_slots } => {
                let shared = used_by_classes.len() > 1;
                let used_by_classes = if used_by_classes.len() == 0 {
                    None
                } else {
                    Some(used_by_classes)
                };
                let per_class_loadout_slots = if shared {
                    Some(per_class_loadout_slots)
                } else {
                    None
                };
                Some(
                    MongoStyleWeapon {
                        id: weapon.id,
                        name: weapon.name,
                        stock: weapon.stock,
                        item_name: weapon.item_name,
                        item_slot: weapon.item_slot,
                        image_url: weapon.image_url,
                        image_url_large: weapon.image_url_large,
                        used_by_classes,
                        per_class_loadout_slots,
                    },
                )
            },
        }
    }

    /// Seeds the accumulator with the weapon of `weapon`, dropping whatever
    /// it held.
    pub fn put(self, weapon: WeaponFromView) -> (builder: MongoStyleWeaponBuilder)
        ensures
            builder@ == self@.put(weapon@),
    {
        MongoStyleWeaponBuilder {
            state: BuilderState::Seeded {
                weapon: Weapon {
                    id: weapon.id,
                    name: weapon.name,
                    stock: weapon.stock,
                    item_name: weapon.item_name,
                    item_slot: weapon.item_slot,
                    image_url: weapon.image_url,
                    image_url_large: weapon.image_url_large,
                },
                used_by_classes: Vec::new(),
                per_class_loadout_slots: LoadoutSlots::new(),
            },
        }
    }

    /// Records one class and the slot in which it equips the weapon.
    pub fn add_merc(self, merc: Option<Merc>, slot: ItemSlot) -> (builder: MongoStyleWeaponBuilder)
        ensures
            builder@ == self@.add_merc(merc, slot),
    {
        match (self.state, merc) {
            (
                BuilderState::Seeded { weapon, used_by_classes, per_class_loadout_slots },
                Some(merc),
            ) => {
                let mut used_by_classes = used_by_classes;
                let mut per_class_loadout_slots = per_class_loadout_slots;
                used_by_classes.push(merc);
                per_class_loadout_slots.insert(merc, slot);
                MongoStyleWeaponBuilder {
                    state: BuilderState::Seeded { weapon, used_by_classes, per_class_loadout_slots },
                }
            },
            (state, _) => MongoStyleWeaponBuilder { state },
        }
    }

    /// Fills `field` with `value` unless it already holds one.
    pub fn put_field_if_empty<T>(field: &mut Option<T>, value: T)
        ensures
            *final(field) == if *old(field) is Some {
                *old(field)
            } else {
                Some(value)
            },
    {
        if field.is_none() {
            *field = Some(value);
        }
    }

    /// Seeds the accumulator from `weapon` if it is still empty.
    pub fn put_if_empty(self, weapon: WeaponFromView) -> (builder: MongoStyleWeaponBuilder)
        ensures
            builder@ == self@.put_if_empty(weapon@),
    {
        match self.state {
            BuilderState::Empty => self.put(weapon),
            BuilderState::Seeded { .. } => self,
        }
    }
}

} // verus!
