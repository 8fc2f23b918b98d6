//! From documents back to the rows of the three relations that the view
//! joins: the weapons, who uses them, and in which slot.

use vstd::prelude::*;
use crate::tf2sc::builder::{MongoStyleWeapon, WeaponDocument};
use crate::tf2sc::model::{ItemSlot, Merc, Weapon, WeaponView};
use crate::tf2sc::slots::{all_mercs, entries_among};
use crate::tf2sc::transform::document_views;

verus! {

/// One row of the relation that says which class may use which weapon.
#[derive(Clone, Copy, Debug, PartialEq, Eq, Structural)]
pub struct WeaponUsedByClass {
    pub weapon_id: i32,
    pub merc: Merc,
}

/// One row of the relation that says in which slot a class equips a weapon.
#[derive(Clone, Copy, Debug, PartialEq, Eq, Structural)]
pub struct WeaponPerClassLoadoutSlot {
    pub weapon_id: i32,
    pub merc: Merc,
    pub item_slot: ItemSlot,
}

/// One usage row per class, all for the weapon `weapon_id`.
pub open spec fn usages_of(weapon_id: i32, classes: Seq<Merc>) -> Seq<WeaponUsedByClass> {
    classes.map_values(|merc: Merc| WeaponUsedByClass { weapon_id, merc })
}

/// The usage rows of one document: one per entry of its class list, in
/// order; none where the list is absent.
pub open spec fn used_by_class_of(document: WeaponDocument) -> Seq<WeaponUsedByClass> {
    match document.used_by_classes {
        Some(classes) => usages_of(document.weapon.id, classes),
        None => Seq::empty(),
    }
}

/// The usage rows of the documents, document after document.
pub open spec fn used_by_classes_of(documents: Seq<WeaponDocument>) -> Seq<WeaponUsedByClass>
    decreases documents.len(),
{
    if documents.len() == 0 {
        Seq::empty()
    } else {
        used_by_classes_of(documents.drop_last()) + used_by_class_of(documents.last())
    }
}

/// One slot row per entry, all for the weapon `weapon_id`.
pub open spec fn slot_rows_of(weapon_id: i32, entries: Seq<(Merc, ItemSlot)>) -> Seq<
    WeaponPerClassLoadoutSlot,
> {
    entries.map_values(
        |entry: (Merc, ItemSlot)|
            WeaponPerClassLoadoutSlot { weapon_id, merc: entry.0, item_slot: entry.1 },
    )
}

/// The slot rows of one document: one per entry of its slot map, in the
/// order in which the classes are declared; none where the map is absent.
pub open spec fn loadout_slots_of(document: WeaponDocument) -> Seq<WeaponPerClassLoadoutSlot> {
    match document.per_class_loadout_slots {
        Some(slots) => slot_rows_of(document.weapon.id, entries_among(slots, all_mercs())),
        None => Seq::empty(),
    }
}

/// The slot rows of the documents, document after document.
pub open spec fn per_class_loadout_slots_of(documents: Seq<WeaponDocument>) -> Seq<
    WeaponPerClassLoadoutSlot,
>
    decreases documents.len(),
{
    if documents.len() == 0 {
        Seq::empty()
    } else {
        per_class_loadout_slots_of(documents.drop_last()) + loadout_slots_of(documents.last())
    }
}

/// The weapons of the documents, one per document.
pub open spec fn weapons_of(documents: Seq<WeaponDocument>) -> Seq<WeaponView> {
    documents.map_values(|document: WeaponDocument| document.weapon)
}

/// The weapons of a vector, as mathematical values.
pub open spec fn weapon_views(weapons: Seq<Weapon>) -> Seq<WeaponView> {
    weapons.map_values(|weapon: Weapon| weapon@)
}

/// The rows that say which class may use which weapon: for each document,
/// in order, one row per class of its list.
pub fn used_by_class_rows(weapons: &Vec<MongoStyleWeapon>) -> (rows: Vec<WeaponUsedByClass>)
    ensures
        rows@ == used_by_classes_of(document_views(weapons@)),
{
    let ghost documents = document_views(weapons@);
    let mut rows: Vec<WeaponUsedByClass> = Vec::new();
    let mut w: usize = 0;
    assert(documents.take(0) =~= Seq::<WeaponDocument>::empty());
    while w < weapons.len()
        invariant
            w <= weapons.len(),
            documents == document_views(weapons@),
            rows@ == used_by_classes_of(documents.take(w as int)),
        decreases weapons.len() - w,
    {
        let weapon = &weapons[w];
        let ghost done = rows@;
        assert(documents.take(w + 1).drop_last() =~= documents.take(w as int));
        assert(documents.take(w + 1).last() == weapon@);
        if let Some(classes) = &weapon.used_by_classes {
            let mut c: usize = 0;
            while c < classes.len()
                invariant
                    c <= classes.len(),
                    rows@ == done + usages_of(weapon.id, classes@.take(c as int)),
                decreases classes.len() - c,
            {
                rows.push(WeaponUsedByClass { weapon_id: weapon.id, merc: classes[c] });
                assert(classes@.take(c + 1) =~= classes@.take(c as int).push(classes@[c as int]));
                assert(rows@ =~= done + usages_of(weapon.id, classes@.take(c + 1)));
                c += 1;
            }
            assert(classes@.take(classes.len() as int) =~= classes@);
        } else {
            assert(rows@ =~= done + used_by_class_of(weapon@));
        }
        w += 1;
    }
    assert(documents.take(weapons.len() as int) =~= documents);
    rows
}

/// The rows that say in which slot a class equips a weapon: for each
/// document, in order, one row per entry of its slot map, the classes in the
/// order in which they are declared.
pub fn per_class_loadout_slot_rows(weapons: &Vec<MongoStyleWeapon>) -> (rows: Vec<
    WeaponPerClassLoadoutSlot,
>)
    ensures
        rows@ == per_class_loadout_slots_of(document_views(weapons@)),
{
    let ghost documents = document_views(weapons@);
    let mut rows: Vec<WeaponPerClassLoadoutSlot> = Vec::new();
    let mut w: usize = 0;
    assert(documents.take(0) =~= Seq::<WeaponDocument>::empty());
    while w < weapons.len()
        invariant
            w <= weapons.len(),
            documents == document_views(weapons@),
            rows@ == per_class_loadout_slots_of(documents.take(w as int)),
        decreases weapons.len() - w,
    {
        let weapon = &weapons[w];
        let ghost done = rows@;
        assert(documents.take(w + 1).drop_last() =~= documents.take(w as int));
        assert(documents.take(w + 1).last() == weapon@);
        if let Some(slots) = &weapon.per_class_loadout_slots {
            let entries = slots.entries();
            let mut e: usize = 0;
            while e < entries.len()
                invariant
                    e <= entries.len(),
                    rows@ == done + slot_rows_of(weapon.id, entries@.take(e as int)),
                decreases entries.len() - e,
            {
                let entry = entries[e];
                rows.push(
                    WeaponPerClassLoadoutSlot {
                        weapon_id: weapon.id,
                        merc: entry.0,
                        item_slot: entry.1,
                    },
                );
                assert(entries@.take(e + 1) =~= entries@.take(e as int).push(entries@[e as int]));
                assert(rows@ =~= done + slot_rows_of(weapon.id, entries@.take(e + 1)));
                e += 1;
            }
            assert(entries@.take(entries.len() as int) =~= entries@);
        } else {
            assert(rows@ =~= done + loadout_slots_of(weapon@));
        }
        w += 1;
    }
    assert(documents.take(weapons.len() as int) =~= documents);
    rows
}

/// The weapons of the catalogue: the weapon of each document, in order.
pub fn weapon_rows(weapons: Vec<MongoStyleWeapon>) -> (rows: Vec<Weapon>)
    ensures
        weapon_views(rows@) == weapons_of(document_views(weapons@)),
{
    let mut rows: Vec<Weapon> = Vec::new();
    for weapon in iter: weapons
        invariant
            iter.seq() == weapons@,
            weapon_views(rows@) == weapons_of(document_views(weapons@.take(iter.index() as int))),
    {
        let ghost done = rows@;
        let row = Weapon {
            id: weapon.id,
            name: weapon.name,
            stock: weapon.stock,
            item_name: weapon.item_name,
            item_slot: weapon.item_slot,
            image_url: weapon.image_url,
            image_url_large: weapon.image_url_large,
        };
        rows.push(row);
        assert(weapons@.take(iter.index() + 1) =~= weapons@.take(iter.index() as int).push(weapon));
        assert(weapon_views(rows@) =~= weapon_views(done).push(weapon@.weapon));
        assert(weapons_of(document_views(weapons@.take(iter.index() + 1))) =~= weapons_of(
            document_views(weapons@.take(iter.index() as int)),
        ).push(weapon@.weapon));
    }
    assert(weapons@.take(weapons@.len() as int) =~= weapons@);
    rows
}

} // verus!
