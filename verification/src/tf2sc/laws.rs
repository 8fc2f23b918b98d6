//! What holds of the documents of every sequence of rows.

use vstd::prelude::*;
use crate::tf2sc::builder::WeaponDocument;
use crate::tf2sc::grouping::{
    is_run,
    lemma_runs_concat,
    lemma_runs_is_partition,
    lemma_runs_of_one_run,
    runs,
};
use crate::tf2sc::model::{Merc, WeaponUsageRow};
use crate::tf2sc::upload::{used_by_class_of, used_by_classes_of, usages_of, WeaponUsedByClass};
use crate::tf2sc::transform::{
    classes_of,
    document_of_run,
    documents_of,
    lemma_build_run,
    slots_of,
};

verus! {

/// The weapon ids of `rows`, row by row.
pub open spec fn weapon_ids(rows: Seq<WeaponUsageRow>) -> Seq<i32> {
    rows.map_values(|row: WeaponUsageRow| row.weapon.id)
}

/// The weapon ids of `documents`, document by document.
pub open spec fn document_ids(documents: Seq<WeaponDocument>) -> Seq<i32> {
    documents.map_values(|document: WeaponDocument| document.weapon.id)
}

/// Says that the rows of each weapon id are adjacent: between two rows with
/// the same id every row has that id.
pub open spec fn ids_contiguous(rows: Seq<WeaponUsageRow>) -> bool {
    forall|i: int, j: int, k: int|
        #![trigger rows[i], rows[j], rows[k]]
        0 <= i <= j <= k < rows.len() && rows[i].weapon.id == rows[k].weapon.id ==> rows[j].weapon.id
            == rows[i].weapon.id
}

/// Says that the rows are in non-decreasing order of weapon id.
pub open spec fn ids_ordered(rows: Seq<WeaponUsageRow>) -> bool {
    forall|i: int, j: int|
        #![trigger rows[i], rows[j]]
        0 <= i <= j < rows.len() ==> rows[i].weapon.id <= rows[j].weapon.id
}

/// There are as many documents as runs, and document `g` is the document of
/// run `g`: it carries the weapon of that run's first row.
pub proof fn lemma_one_document_per_run(rows: Seq<WeaponUsageRow>)
    ensures
        documents_of(rows).len() == runs(rows).len(),
        forall|g: int|
            #![trigger documents_of(rows)[g]]
            #![trigger runs(rows)[g]]
            0 <= g < runs(rows).len() ==> {
                &&& runs(rows)[g].len() > 0
                &&& documents_of(rows)[g] == document_of_run(runs(rows)[g])
                &&& documents_of(rows)[g].weapon == runs(rows)[g][0].weapon
            },
{
    lemma_runs_is_partition(rows);
    assert forall|g: int| 0 <= g < runs(rows).len() implies runs(rows)[g].len() > 0 by {
        assert(is_run(runs(rows)[g]));
    }
}

/// Every document is well formed: a class list that is present is not empty,
/// and the slot map is present exactly where two or more classes are listed.
pub proof fn lemma_documents_well_formed(rows: Seq<WeaponUsageRow>)
    ensures
        forall|g: int|
            0 <= g < documents_of(rows).len() ==> (#[trigger] documents_of(rows)[g]).well_formed(),
{
    lemma_one_document_per_run(rows);
    assert forall|g: int| 0 <= g < documents_of(rows).len() implies (#[trigger] documents_of(
        rows,
    )[g]).well_formed() by {
        lemma_build_run(runs(rows)[g]);
    }
}

/// Rows in order of weapon id have the rows of each id adjacent.
pub proof fn lemma_ordered_is_contiguous(rows: Seq<WeaponUsageRow>)
    requires
        ids_ordered(rows),
    ensures
        ids_contiguous(rows),
{
    assert forall|i: int, j: int, k: int|
        #![trigger rows[i], rows[j], rows[k]]
        0 <= i <= j <= k < rows.len() && rows[i].weapon.id == rows[k].weapon.id implies rows[j].weapon.id
        == rows[i].weapon.id by {
        assert(rows[i].weapon.id <= rows[j].weapon.id);
        assert(rows[j].weapon.id <= rows[k].weapon.id);
    }
}

/// The ids that open the runs of `rows`, run by run.
spec fn run_ids(rows: Seq<WeaponUsageRow>) -> Seq<i32> {
    runs(rows).map_values(|run: Seq<WeaponUsageRow>| run[0].weapon.id)
}

/// Where the rows of each id are adjacent, no two runs open with the same
/// id, each run opens with the id of some row, and there are as many runs as
/// ids.
proof fn lemma_contiguous_runs(rows: Seq<WeaponUsageRow>)
    requires
        ids_contiguous(rows),
    ensures
        run_ids(rows).no_duplicates(),
        run_ids(rows).to_set() == weapon_ids(rows).to_set(),
        runs(rows).len() == weapon_ids(rows).to_set().len(),
    decreases rows.len(),
{
    broadcast use vstd::seq_lib::group_seq_properties;

    let ids = weapon_ids(rows);
    let opens = run_ids(rows);
    if rows.len() == 0 {
        assert(opens.to_set() =~= ids.to_set());
        assert(ids.to_set() =~= Set::<i32>::empty());
    } else {
        let rest = rows.drop_last();
        let row = rows.last();
        assert forall|i: int, j: int, k: int|
            #![trigger rest[i], rest[j], rest[k]]
            0 <= i <= j <= k < rest.len() && rest[i].weapon.id == rest[k].weapon.id implies rest[j].weapon.id
            == rest[i].weapon.id by {
            assert(rows[i] == rest[i] && rows[j] == rest[j] && rows[k] == rest[k]);
        }
        lemma_contiguous_runs(rest);
        lemma_runs_is_partition(rest);
        lemma_runs_is_partition(rows);
        let before = run_ids(rest);
        assert(ids =~= weapon_ids(rest).push(row.weapon.id));
        assert(ids.to_set() =~= weapon_ids(rest).to_set().insert(row.weapon.id));
        if rows.len() >= 2 && rows[rows.len() - 2].weapon.id == row.weapon.id {
            assert(runs(rest).len() > 0) by {
                if runs(rest).len() == 0 {
                    assert(runs(rest).flatten() =~= Seq::<WeaponUsageRow>::empty());
                }
            }
            assert(opens =~= before) by {
                assert(is_run(runs(rest).last()));
                assert forall|g: int| 0 <= g < opens.len() implies opens[g] == before[g] by {
                    if g == opens.len() - 1 {
                        assert(runs(rows)[g][0] == runs(rest)[g][0]);
                    } else {
                        assert(runs(rows)[g] == runs(rest)[g]);
                    }
                }
            }
            assert(weapon_ids(rest)[rows.len() - 2] == row.weapon.id);
            assert(weapon_ids(rest).to_set().contains(row.weapon.id));
            assert(ids.to_set() =~= weapon_ids(rest).to_set());
        } else {
            assert(opens =~= before.push(row.weapon.id));
            assert(!weapon_ids(rest).to_set().contains(row.weapon.id)) by {
                if weapon_ids(rest).contains(row.weapon.id) {
                    let i = choose|i: int|
                        0 <= i < weapon_ids(rest).len() && weapon_ids(rest)[i] == row.weapon.id;
                    assert(rows[i].weapon.id == rows[rows.len() - 1].weapon.id);
                    assert(rows[rows.len() - 2].weapon.id == rows[i].weapon.id);
                }
            }
            assert(opens.to_set() =~= before.to_set().insert(row.weapon.id));
            weapon_ids(rest).lemma_cardinality_of_set();
            assert(opens.no_duplicates()) by {
                assert forall|g: int, h: int|
                    0 <= g < opens.len() && 0 <= h < opens.len() && g != h implies opens[g]
                    != opens[h] by {
                    if g < before.len() {
                        assert(before.to_set().contains(before[g]));
                    }
                    if h < before.len() {
                        assert(before.to_set().contains(before[h]));
                    }
                }
            }
        }
    }
}

/// Where the rows of each weapon id are adjacent, there is one document per
/// weapon id: as many documents as distinct ids, every id of a row on one
/// document, and no id on two.
pub proof fn lemma_one_document_per_id(rows: Seq<WeaponUsageRow>)
    requires
        ids_contiguous(rows),
    ensures
        documents_of(rows).len() == weapon_ids(rows).to_set().len(),
        document_ids(documents_of(rows)).to_set() == weapon_ids(rows).to_set(),
        document_ids(documents_of(rows)).no_duplicates(),
{
    lemma_contiguous_runs(rows);
    lemma_one_document_per_run(rows);
    assert(document_ids(documents_of(rows)) =~= run_ids(rows));
}

/// A row made of the weapon of any document, alone in its sequence, comes
/// back as one document that carries the same weapon, field by field.
pub proof fn lemma_weapon_round_trip(document: WeaponDocument, merc: Option<Merc>)
    ensures
        documents_of(seq![WeaponUsageRow { weapon: document.weapon, merc }]).len() == 1,
        documents_of(seq![WeaponUsageRow { weapon: document.weapon, merc }])[0].weapon
            == document.weapon,
{
    let run = seq![WeaponUsageRow { weapon: document.weapon, merc }];
    assert(is_run(run));
    lemma_runs_of_one_run(run);
}

/// A weapon id whose rows come in two runs with other rows between them gets
/// two documents: one for each run, both with that id.
pub proof fn lemma_returning_id_gets_two_documents(
    first: Seq<WeaponUsageRow>,
    between: Seq<WeaponUsageRow>,
    second: Seq<WeaponUsageRow>,
)
    requires
        is_run(first),
        is_run(second),
        first[0].weapon.id == second[0].weapon.id,
        between.len() > 0,
        between[0].weapon.id != first[0].weapon.id,
        between.last().weapon.id != first[0].weapon.id,
    ensures
        documents_of(first + between + second) == seq![document_of_run(first)] + documents_of(
            between,
        ) + seq![document_of_run(second)],
        documents_of(first + between + second).len() >= 3,
        documents_of(first + between + second).first().weapon.id == first[0].weapon.id,
        documents_of(first + between + second).last().weapon.id == first[0].weapon.id,
{
    let rows = first + between + second;
    assert(first.last().weapon.id == first[0].weapon.id);
    lemma_runs_of_one_run(first);
    lemma_runs_of_one_run(second);
    lemma_runs_concat(first, between);
    assert((first + between).last() == between.last());
    lemma_runs_concat(first + between, second);
    assert(runs(rows) == seq![first] + runs(between) + seq![second]);
    lemma_runs_is_partition(between);
    assert(runs(between).len() > 0) by {
        if runs(between).len() == 0 {
            assert(runs(between).flatten() =~= Seq::<WeaponUsageRow>::empty());
        }
    }
    assert(documents_of(rows) =~= seq![document_of_run(first)] + documents_of(between)
        + seq![document_of_run(second)]);
}

/// The slot map of a run holds, for a class, the slot of the last row that
/// names it, and holds nothing for a class that no row names.
pub proof fn lemma_last_row_wins(run: Seq<WeaponUsageRow>, merc: Merc)
    ensures
        slots_of(run).contains_key(merc) <==> exists|i: int|
            0 <= i < run.len() && (#[trigger] run[i]).merc == Some(merc),
        forall|i: int|
            0 <= i < run.len() && (#[trigger] run[i]).merc == Some(merc) && (forall|j: int|
                i < j < run.len() ==> (#[trigger] run[j]).merc != Some(merc)) ==> slots_of(
                run,
            )[merc] == run[i].weapon.item_slot,
    decreases run.len(),
{
    if run.len() > 0 {
        let front = run.drop_last();
        lemma_last_row_wins(front, merc);
        if run.last().merc == Some(merc) {
            assert(run[run.len() - 1].merc == Some(merc));
        } else {
            assert forall|i: int| 0 <= i < front.len() implies #[trigger] front[i] == run[i] by {}
            if slots_of(front).contains_key(merc) {
                let i = choose|i: int| 0 <= i < front.len() && (#[trigger] front[i]).merc == Some(merc);
                assert(run[i].merc == Some(merc));
            }
            if exists|i: int| 0 <= i < run.len() && (#[trigger] run[i]).merc == Some(merc) {
                let i = choose|i: int| 0 <= i < run.len() && (#[trigger] run[i]).merc == Some(merc);
                assert(front[i].merc == Some(merc));
            }
            assert forall|i: int|
                0 <= i < run.len() && (#[trigger] run[i]).merc == Some(merc) && (forall|j: int|
                    i < j < run.len() ==> (#[trigger] run[j]).merc != Some(merc)) implies slots_of(
                run,
            )[merc] == run[i].weapon.item_slot by {
                assert(front[i] == run[i]);
                assert forall|j: int| i < j < front.len() implies (#[trigger] front[j]).merc != Some(
                    merc,
                ) by {
                    assert(front[j] == run[j]);
                }
            }
        }
    }
}

/// A weapon whose only row names no class gets a document without class
/// list and without slot map.
pub proof fn lemma_weapon_without_class(row: WeaponUsageRow)
    requires
        row.merc is None,
    ensures
        documents_of(seq![row]) == seq![
            WeaponDocument {
                weapon: row.weapon,
                used_by_classes: None,
                per_class_loadout_slots: None,
            },
        ],
{
    let run = seq![row];
    assert(is_run(run));
    lemma_runs_of_one_run(run);
    lemma_classes_of_rows_without_class(run);
    assert(documents_of(run) =~= seq![document_of_run(run)]);
}

/// A weapon whose only row names a class gets a document that lists that
/// class alone and has no slot map.
pub proof fn lemma_weapon_of_one_class(row: WeaponUsageRow)
    requires
        row.merc is Some,
    ensures
        documents_of(seq![row]) == seq![
            WeaponDocument {
                weapon: row.weapon,
                used_by_classes: Some(seq![row.merc.unwrap()]),
                per_class_loadout_slots: None,
            },
        ],
{
    let run = seq![row];
    assert(is_run(run));
    lemma_runs_of_one_run(run);
    lemma_classes_of_rows_with_class(run);
    assert(classes_of(run) =~= seq![row.merc.unwrap()]);
    assert(documents_of(run) =~= seq![document_of_run(run)]);
}

/// A weapon with two rows or more, each of which names a class, gets a
/// document that lists the classes of its rows in row order and has a slot
/// map with an entry for each of them.
pub proof fn lemma_shared_weapon(run: Seq<WeaponUsageRow>)
    requires
        is_run(run),
        run.len() >= 2,
        forall|i: int| 0 <= i < run.len() ==> (#[trigger] run[i]).merc is Some,
    ensures
        documents_of(run) == seq![document_of_run(run)],
        document_of_run(run).weapon == run[0].weapon,
        document_of_run(run).used_by_classes == Some(
            run.map_values(|row: WeaponUsageRow| row.merc.unwrap()),
        ),
        document_of_run(run).per_class_loadout_slots == Some(slots_of(run)),
        forall|i: int| 0 <= i < run.len() ==> slots_of(run).contains_key((#[trigger] run[i]).merc.unwrap()),
{
    lemma_runs_of_one_run(run);
    lemma_classes_of_rows_with_class(run);
    assert(documents_of(run) =~= seq![document_of_run(run)]);
    assert forall|i: int| 0 <= i < run.len() implies slots_of(run).contains_key(
        (#[trigger] run[i]).merc.unwrap(),
    ) by {
        lemma_last_row_wins(run, run[i].merc.unwrap());
    }
}

/// Rows that name no class give no class.
pub proof fn lemma_classes_of_rows_without_class(run: Seq<WeaponUsageRow>)
    requires
        forall|i: int| 0 <= i < run.len() ==> (#[trigger] run[i]).merc is None,
    ensures
        classes_of(run) == Seq::<Merc>::empty(),
    decreases run.len(),
{
    reveal(Seq::filter);
    if run.len() > 0 {
        let front = run.drop_last();
        assert forall|i: int| 0 <= i < front.len() implies (#[trigger] front[i]).merc is None by {
            assert(front[i] == run[i]);
        }
        lemma_classes_of_rows_without_class(front);
        assert(run[run.len() - 1].merc is None);
    }
    assert(classes_of(run) =~= Seq::<Merc>::empty());
}

/// Rows that all name a class give the class of each, in row order.
pub proof fn lemma_classes_of_rows_with_class(run: Seq<WeaponUsageRow>)
    requires
        forall|i: int| 0 <= i < run.len() ==> (#[trigger] run[i]).merc is Some,
    ensures
        classes_of(run) == run.map_values(|row: WeaponUsageRow| row.merc.unwrap()),
{
    lemma_filter_keeps_all(run);
}

/// Where every row names a class, picking the rows that name one picks all.
proof fn lemma_filter_keeps_all(run: Seq<WeaponUsageRow>)
    requires
        forall|i: int| 0 <= i < run.len() ==> (#[trigger] run[i]).merc is Some,
    ensures
        run.filter(|row: WeaponUsageRow| row.merc is Some) == run,
    decreases run.len(),
{
    reveal(Seq::filter);
    if run.len() > 0 {
        let front = run.drop_last();
        assert forall|i: int| 0 <= i < front.len() implies (#[trigger] front[i]).merc is Some by {
            assert(front[i] == run[i]);
        }
        lemma_filter_keeps_all(front);
        assert(run[run.len() - 1].merc is Some);
        assert(front.push(run.last()) =~= run);
    }
}

/// The rows of `rows` that name a class, as rows of the relation that says
/// which class may use which weapon.
pub open spec fn usage_rows(rows: Seq<WeaponUsageRow>) -> Seq<WeaponUsedByClass> {
    rows.filter(|row: WeaponUsageRow| row.merc is Some).map_values(
        |row: WeaponUsageRow| WeaponUsedByClass { weapon_id: row.weapon.id, merc: row.merc.unwrap() },
    )
}

/// What one more row adds to the usage rows and to the classes.
proof fn lemma_usage_rows_step(rows: Seq<WeaponUsageRow>)
    requires
        rows.len() > 0,
    ensures
        usage_rows(rows) == match rows.last().merc {
            Some(merc) => usage_rows(rows.drop_last()).push(
                WeaponUsedByClass { weapon_id: rows.last().weapon.id, merc },
            ),
            None => usage_rows(rows.drop_last()),
        },
        classes_of(rows) == match rows.last().merc {
            Some(merc) => classes_of(rows.drop_last()).push(merc),
            None => classes_of(rows.drop_last()),
        },
{
    reveal(Seq::filter);
    let has_class = |row: WeaponUsageRow| row.merc is Some;
    let front = rows.drop_last();
    match rows.last().merc {
        Some(merc) => {
            assert(rows.filter(has_class) == front.filter(has_class).push(rows.last()));
            assert(usage_rows(rows) =~= usage_rows(front).push(
                WeaponUsedByClass { weapon_id: rows.last().weapon.id, merc },
            ));
            assert(classes_of(rows) =~= classes_of(front).push(merc));
        },
        None => {
            assert(rows.filter(has_class) == front.filter(has_class));
        },
    }
}

/// The usage rows of two sequences laid end to end are those of the one
/// followed by those of the other.
proof fn lemma_usage_rows_concat(left: Seq<WeaponUsageRow>, right: Seq<WeaponUsageRow>)
    ensures
        usage_rows(left + right) == usage_rows(left) + usage_rows(right),
    decreases right.len(),
{
    if right.len() == 0 {
        assert(left + right =~= left);
        assert(usage_rows(right) =~= Seq::<WeaponUsedByClass>::empty()) by {
            reveal(Seq::filter);
        }
        assert(usage_rows(left) + usage_rows(right) =~= usage_rows(left));
    } else {
        let both = left + right;
        assert(both.drop_last() =~= left + right.drop_last());
        assert(both.last() == right.last());
        lemma_usage_rows_concat(left, right.drop_last());
        lemma_usage_rows_step(both);
        lemma_usage_rows_step(right);
        assert(usage_rows(both) =~= usage_rows(left) + usage_rows(right));
    }
}

/// The usage rows of the document of a run are the usage rows of the run.
proof fn lemma_usage_rows_of_run(run: Seq<WeaponUsageRow>, weapon_id: i32)
    requires
        forall|i: int| 0 <= i < run.len() ==> (#[trigger] run[i]).weapon.id == weapon_id,
    ensures
        usages_of(weapon_id, classes_of(run)) == usage_rows(run),
    decreases run.len(),
{
    if run.len() == 0 {
        reveal(Seq::filter);
        assert(usages_of(weapon_id, classes_of(run)) =~= usage_rows(run));
    } else {
        let front = run.drop_last();
        assert forall|i: int| 0 <= i < front.len() implies (#[trigger] front[i]).weapon.id
            == weapon_id by {
            assert(front[i] == run[i]);
        }
        lemma_usage_rows_of_run(front, weapon_id);
        lemma_usage_rows_step(run);
        assert(run[run.len() - 1].weapon.id == weapon_id);
        assert(usages_of(weapon_id, classes_of(run)) =~= usage_rows(run));
    }
}

/// The usage rows of the documents of groups that are runs are the usage
/// rows of the groups laid end to end.
proof fn lemma_usage_rows_of_groups(groups: Seq<Seq<WeaponUsageRow>>)
    requires
        forall|g: int| 0 <= g < groups.len() ==> is_run(#[trigger] groups[g]),
    ensures
        used_by_classes_of(groups.map_values(|run: Seq<WeaponUsageRow>| document_of_run(run)))
            == usage_rows(groups.flatten()),
    decreases groups.len(),
{
    let documents = groups.map_values(|run: Seq<WeaponUsageRow>| document_of_run(run));
    groups.lemma_flatten_and_flatten_alt_are_equivalent();
    if groups.len() == 0 {
        reveal(Seq::filter);
        assert(usage_rows(groups.flatten()) =~= Seq::<WeaponUsedByClass>::empty());
    } else {
        let front = groups.drop_last();
        let last = groups.last();
        front.lemma_flatten_and_flatten_alt_are_equivalent();
        assert forall|g: int| 0 <= g < front.len() implies is_run(#[trigger] front[g]) by {
            assert(front[g] == groups[g]);
        }
        lemma_usage_rows_of_groups(front);
        assert(documents.drop_last() =~= front.map_values(
            |run: Seq<WeaponUsageRow>| document_of_run(run),
        ));
        assert(documents.last() == document_of_run(last));
        assert(is_run(last));
        lemma_usage_rows_of_run(last, last[0].weapon.id);
        assert(used_by_class_of(document_of_run(last)) == usage_rows(last)) by {
            if classes_of(last).len() == 0 {
                assert(usages_of(last[0].weapon.id, classes_of(last)) =~= Seq::<
                    WeaponUsedByClass,
                >::empty());
            }
        }
        lemma_usage_rows_concat(front.flatten(), last);
    }
}

/// Nothing of who uses what is lost or added on the way from rows to
/// documents: the usage rows of the documents of `rows` are the rows of
/// `rows` that name a class, in the same order.
pub proof fn lemma_usage_round_trip(rows: Seq<WeaponUsageRow>)
    ensures
        used_by_classes_of(documents_of(rows)) == usage_rows(rows),
{
    lemma_runs_is_partition(rows);
    lemma_usage_rows_of_groups(runs(rows));
}

} // verus!
