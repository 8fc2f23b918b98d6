//! From the rows of the denormalised view to one document per run.

use vstd::prelude::*;
use crate::tf2sc::builder::{BuilderView, MongoStyleWeapon, MongoStyleWeaponBuilder, WeaponDocument};
use crate::tf2sc::grouping::{
    chunk_by_id,
    is_run,
    is_run_partition,
    lemma_run_partition_unique,
    row_views,
    run_views,
    runs,
};
use crate::tf2sc::model::{ItemSlot, Merc, WeaponFromView, WeaponUsageRow};

verus! {

/// The classes of the rows of `run` that have one, in row order and with
/// repeats.
pub open spec fn classes_of(run: Seq<WeaponUsageRow>) -> Seq<Merc> {
    run.filter(|row: WeaponUsageRow| row.merc is Some).map_values(
        |row: WeaponUsageRow| row.merc.unwrap(),
    )
}

/// The slot that the last row of `run` with class `merc` gives; none if no
/// row has that class.
pub open spec fn slot_of(run: Seq<WeaponUsageRow>, merc: Merc) -> Option<ItemSlot>
    decreases run.len(),
{
    if run.len() == 0 {
        None
    } else if run.last().merc == Some(merc) {
        Some(run.last().weapon.item_slot)
    } else {
        slot_of(run.drop_last(), merc)
    }
}

/// For each class that occurs in `run`, the slot of its last row.
pub open spec fn slots_of(run: Seq<WeaponUsageRow>) -> Map<Merc, ItemSlot> {
    Map::new(|merc: Merc| slot_of(run, merc) is Some, |merc: Merc| slot_of(run, merc).unwrap())
}

/// The document of one run: the weapon of its first row, the classes of its
/// rows, and, where two or more rows name a class, the slot of each class.
pub open spec fn document_of_run(run: Seq<WeaponUsageRow>) -> WeaponDocument
    recommends
        run.len() > 0,
{
    let classes = classes_of(run);
    WeaponDocument {
        weapon: run[0].weapon,
        used_by_classes: if classes.len() == 0 {
            None
        } else {
            Some(classes)
        },
        per_class_loadout_slots: if classes.len() >= 2 {
            Some(slots_of(run))
        } else {
            None
        },
    }
}

/// One document per run of `rows`, in input order.
pub open spec fn documents_of(rows: Seq<WeaponUsageRow>) -> Seq<WeaponDocument> {
    runs(rows).map_values(|run: Seq<WeaponUsageRow>| document_of_run(run))
}

/// The documents of a vector, as mathematical values.
pub open spec fn document_views(documents: Seq<MongoStyleWeapon>) -> Seq<WeaponDocument> {
    documents.map_values(|document: MongoStyleWeapon| document@)
}

/// The accumulator after the rows of `run`, taken left to right from the
/// empty accumulator.
pub open spec fn accumulate(run: Seq<WeaponUsageRow>) -> BuilderView
    decreases run.len(),
{
    if run.len() == 0 {
        BuilderView::empty()
    } else {
        accumulate(run.drop_last()).absorb(run.last())
    }
}

/// Folding a run through the accumulator gathers what `document_of_run`
/// states: the weapon of the first row, every class in row order, and for
/// each class the slot of its last row.
pub proof fn lemma_accumulate(run: Seq<WeaponUsageRow>)
    ensures
        accumulate(run) == if run.len() == 0 {
            BuilderView::Empty
        } else {
            BuilderView::Seeded {
                weapon: run[0].weapon,
                used_by_classes: classes_of(run),
                per_class_loadout_slots: slots_of(run),
            }
        },
    decreases run.len(),
{
    reveal(Seq::filter);
    if run.len() > 0 {
        let front = run.drop_last();
        let row = run.last();
        lemma_accumulate(front);
        let has_class = |row: WeaponUsageRow| row.merc is Some;
        if front.len() == 0 {
            assert(classes_of(front) =~= Seq::<Merc>::empty());
            assert(slots_of(front) =~= Map::<Merc, ItemSlot>::empty());
        } else {
            assert(front[0] == run[0]);
        }
        match row.merc {
            Some(merc) => {
                assert(run.filter(has_class) == front.filter(has_class).push(row));
                assert(classes_of(run) =~= classes_of(front).push(merc));
                assert(slots_of(run) =~= slots_of(front).insert(merc, row.weapon.item_slot));
            },
            None => {
                assert(run.filter(has_class) == front.filter(has_class));
                assert(slots_of(run) =~= slots_of(front));
            },
        }
    }
}

/// Finalising the accumulator of a non-empty run gives the document of that
/// run.
pub proof fn lemma_build_run(run: Seq<WeaponUsageRow>)
    requires
        run.len() > 0,
    ensures
        accumulate(run).build() == Some(document_of_run(run)),
        document_of_run(run).well_formed(),
{
    lemma_accumulate(run);
}

/// A collection of rows that can be turned into documents.
pub trait MongoStyle {
    type Output;

    fn to_mongo_style(self) -> Self::Output;
}

impl MongoStyle for Vec<WeaponFromView> {
    type Output = Vec<MongoStyleWeapon>;

    /// Builds one document per run of adjacent rows with the same weapon id,
    /// in input order. The rows are taken as they come: an id whose rows are
    /// not adjacent gets one document per run.
    fn to_mongo_style(self) -> (documents: Vec<MongoStyleWeapon>)
        ensures
            document_views(documents@) == documents_of(row_views(self@)),
            documents@.len() == runs(row_views(self@)).len(),
            forall|g: int| 0 <= g < documents@.len() ==> (#[trigger] documents@[g])@.well_formed(),
    {
        let ghost rows = row_views(self@);
        let groups = chunk_by_id(self);
        let ghost cut = run_views(groups@);
        proof {
            lemma_run_partition_unique(rows, cut);
        }
        let mut documents: Vec<MongoStyleWeapon> = Vec::new();
        for group in outer: groups
            invariant
                outer.seq() == groups@,
                cut == run_views(groups@),
                cut == runs(rows),
                is_run_partition(rows, cut),
                document_views(documents@) == cut.take(outer.index() as int).map_values(
                    |run: Seq<WeaponUsageRow>| document_of_run(run),
                ),
        {
            let ghost run = row_views(group@);
            let ghost done = document_views(documents@);
            assert(run == cut[outer.index() as int]);
            assert(is_run(run));
            let mut weapon_builder = MongoStyleWeaponBuilder::default();
            for weapon in inner: group
                invariant
                    inner.seq() == group@,
                    run == row_views(group@),
                    weapon_builder@ == accumulate(run.take(inner.index() as int)),
            {
                let slot = weapon.item_slot;
                let merc = weapon.merc;
                assert(run.take(inner.index() + 1).drop_last() =~= run.take(inner.index() as int));
                assert(run.take(inner.index() + 1).last() == weapon@);
                weapon_builder = weapon_builder.put_if_empty(weapon).add_merc(merc, slot);
            }
            proof {
                assert(run.take(run.len() as int) =~= run);
                lemma_build_run(run);
            }
            if let Some(document) = weapon_builder.build() {
                documents.push(document);
            }
            assert(document_views(documents@) =~= done.push(document_of_run(run)));
            assert(cut.take(outer.index() + 1).map_values(
                |run: Seq<WeaponUsageRow>| document_of_run(run),
            ) =~= done.push(document_of_run(run)));
        }
        assert(cut.take(cut.len() as int) =~= cut);
        assert(document_views(documents@).len() == documents@.len());
        assert forall|g: int| 0 <= g < documents@.len() implies (#[trigger] documents@[g])@.well_formed() by {
            assert(is_run(cut[g]));
            lemma_build_run(cut[g]);
            assert(document_views(documents@)[g] == documents@[g]@);
        }
        documents
    }
}

} // verus!
