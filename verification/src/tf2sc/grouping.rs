//! Runs: the maximal stretches of adjacent rows that share a weapon id.

use itertools::Itertools;
use vstd::prelude::*;
use crate::tf2sc::model::{WeaponFromView, WeaponUsageRow};

verus! {

/// The rows of a vector, as mathematical values.
pub open spec fn row_views(rows: Seq<WeaponFromView>) -> Seq<WeaponUsageRow> {
    rows.map_values(|row: WeaponFromView| row@)
}

/// The rows of each group, as mathematical values.
pub open spec fn run_views(groups: Seq<Vec<WeaponFromView>>) -> Seq<Seq<WeaponUsageRow>> {
    groups.map_values(|group: Vec<WeaponFromView>| row_views(group@))
}

/// Says that `run` is not empty and that its rows share one weapon id.
pub open spec fn is_run(run: Seq<WeaponUsageRow>) -> bool {
    &&& run.len() > 0
    &&& forall|i: int| 0 <= i < run.len() ==> (#[trigger] run[i]).weapon.id == run[0].weapon.id
}

/// Says that the weapon id changes between group `g` and the one after it.
pub open spec fn breaks_after(groups: Seq<Seq<WeaponUsageRow>>, g: int) -> bool {
    groups[g].last().weapon.id != groups[g + 1][0].weapon.id
}

/// Says that `groups` cuts `rows` into its runs: the groups laid end to end
/// are `rows`, no group is empty, the rows of a group share one weapon id,
/// and two neighbouring groups differ in it.
pub open spec fn is_run_partition(
    rows: Seq<WeaponUsageRow>,
    groups: Seq<Seq<WeaponUsageRow>>,
) -> bool {
    &&& groups.flatten() == rows
    &&& forall|g: int| 0 <= g < groups.len() ==> is_run(#[trigger] groups[g])
    &&& forall|g: int| 0 <= g < groups.len() - 1 ==> #[trigger] breaks_after(groups, g)
}

/// The runs of `rows`, in input order. A row opens a new run unless the row
/// just before it has the same weapon id. Nothing is sorted: an id that comes
/// back after another one opens a run of its own.
pub open spec fn runs(rows: Seq<WeaponUsageRow>) -> Seq<Seq<WeaponUsageRow>>
    decreases rows.len(),
{
    if rows.len() == 0 {
        Seq::empty()
    } else {
        let before = runs(rows.drop_last());
        if rows.len() >= 2 && rows[rows.len() - 2].weapon.id == rows.last().weapon.id {
            before.drop_last().push(before.last().push(rows.last()))
        } else {
            before.push(seq![rows.last()])
        }
    }
}

/// Cuts `rows` into its runs.
///
/// Calls `Itertools::chunk_by` with the weapon id as key and collects each
/// group, in order, into a vector. The contract repeats what that function
/// documents: consecutive elements with the same key are assigned to the same
/// group, every element is handed out once, and the order is kept.
#[verifier::external_body]
pub(crate) fn chunk_by_id(rows: Vec<WeaponFromView>) -> (groups: Vec<Vec<WeaponFromView>>)
    ensures
        is_run_partition(row_views(rows@), run_views(groups@)),
{
    rows.into_iter().chunk_by(|row| row.id).into_iter().map(|(_, run)| run.collect()).collect()
}

/// Laid end to end, runs give an empty sequence only if there is none.
proof fn lemma_no_rows_no_groups(groups: Seq<Seq<WeaponUsageRow>>)
    requires
        forall|g: int| 0 <= g < groups.len() ==> is_run(#[trigger] groups[g]),
        groups.flatten().len() == 0,
    ensures
        groups.len() == 0,
{
    groups.lemma_flatten_and_flatten_alt_are_equivalent();
    if groups.len() > 0 {
        assert(is_run(groups.last()));
    }
}

/// The last row of a partition is the last row of its last group.
proof fn lemma_last_group(rows: Seq<WeaponUsageRow>, groups: Seq<Seq<WeaponUsageRow>>)
    requires
        is_run_partition(rows, groups),
        rows.len() > 0,
    ensures
        groups.len() > 0,
        groups.last().len() > 0,
        rows == groups.drop_last().flatten() + groups.last(),
        rows.last() == groups.last().last(),
{
    groups.lemma_flatten_and_flatten_alt_are_equivalent();
    groups.drop_last().lemma_flatten_and_flatten_alt_are_equivalent();
    assert(groups.len() > 0);
    assert(is_run(groups.last()));
}

/// Without its last row, a partition whose last group holds one row is a
/// partition without that group.
proof fn lemma_drop_single_group(rows: Seq<WeaponUsageRow>, groups: Seq<Seq<WeaponUsageRow>>)
    requires
        is_run_partition(rows, groups),
        groups.len() > 0,
        groups.last().len() == 1,
    ensures
        is_run_partition(rows.drop_last(), groups.drop_last()),
{
    lemma_last_group(rows, groups);
    let front = groups.drop_last();
    assert(front.flatten() =~= rows.drop_last());
    assert forall|g: int| 0 <= g < front.len() implies is_run(#[trigger] front[g]) by {
        assert(front[g] == groups[g]);
    }
    assert forall|g: int| 0 <= g < front.len() - 1 implies #[trigger] breaks_after(front, g) by {
        assert(breaks_after(groups, g));
        assert(front[g] == groups[g]);
        assert(front[g + 1] == groups[g + 1]);
    }
}

/// Without its last row, a partition whose last group holds several rows is
/// the same partition with that group one row shorter.
proof fn lemma_shorten_last_group(rows: Seq<WeaponUsageRow>, groups: Seq<Seq<WeaponUsageRow>>)
    requires
        is_run_partition(rows, groups),
        groups.len() > 0,
        groups.last().len() >= 2,
    ensures
        is_run_partition(rows.drop_last(), groups.drop_last().push(groups.last().drop_last())),
{
    lemma_last_group(rows, groups);
    let last = groups.last();
    let front = groups.drop_last();
    let cut = front.push(last.drop_last());
    cut.lemma_flatten_and_flatten_alt_are_equivalent();
    front.lemma_flatten_and_flatten_alt_are_equivalent();
    assert(cut.drop_last() =~= front);
    assert(cut.flatten() =~= rows.drop_last());
    assert forall|g: int| 0 <= g < cut.len() implies is_run(#[trigger] cut[g]) by {
        assert(is_run(groups[g]));
        if g < front.len() {
            assert(cut[g] == groups[g]);
        } else {
            let run = cut[g];
            assert forall|i: int| 0 <= i < run.len() implies (#[trigger] run[i]).weapon.id
                == run[0].weapon.id by {
                assert(run[i] == last[i]);
                assert(run[0] == last[0]);
            }
        }
    }
    assert forall|g: int| 0 <= g < cut.len() - 1 implies #[trigger] breaks_after(cut, g) by {
        assert(breaks_after(groups, g));
        assert(cut[g] == groups[g]);
        assert(cut[g + 1][0] == groups[g + 1][0]);
    }
}

/// The only way to cut `rows` into runs is `runs(rows)`.
pub proof fn lemma_run_partition_unique(
    rows: Seq<WeaponUsageRow>,
    groups: Seq<Seq<WeaponUsageRow>>,
)
    requires
        is_run_partition(rows, groups),
    ensures
        groups == runs(rows),
    decreases rows.len(),
{
    if rows.len() == 0 {
        lemma_no_rows_no_groups(groups);
        assert(groups =~= runs(rows));
    } else {
        lemma_last_group(rows, groups);
        let last = groups.last();
        let front = groups.drop_last();
        let rest = rows.drop_last();
        assert(is_run(last));
        if last.len() == 1 {
            lemma_drop_single_group(rows, groups);
            lemma_run_partition_unique(rest, front);
            if rows.len() >= 2 {
                lemma_last_group(rest, front);
                assert(breaks_after(groups, front.len() - 1));
                assert(groups[front.len() - 1] == front.last());
                assert(rows[rows.len() - 2] == rest.last());
            }
            assert(last =~= seq![rows.last()]);
            assert(groups =~= front.push(last));
        } else {
            let cut = front.push(last.drop_last());
            lemma_shorten_last_group(rows, groups);
            lemma_run_partition_unique(rest, cut);
            assert(rows[rows.len() - 2] == last[last.len() - 2]);
            assert(last[last.len() - 2].weapon.id == last[0].weapon.id);
            assert(last[last.len() - 1].weapon.id == last[0].weapon.id);
            assert(cut.drop_last() =~= front);
            assert(cut.last().push(rows.last()) =~= last);
            assert(groups =~= front.push(last));
        }
    }
}

/// The first row of a partition is the first row of its first group.
proof fn lemma_first_group(rows: Seq<WeaponUsageRow>, groups: Seq<Seq<WeaponUsageRow>>)
    requires
        is_run_partition(rows, groups),
        rows.len() > 0,
    ensures
        groups.len() > 0,
        groups[0].len() > 0,
        rows[0] == groups[0][0],
{
    lemma_last_group(rows, groups);
    assert(is_run(groups[0]));
}

/// `runs(rows)` does cut `rows` into its runs.
pub proof fn lemma_runs_is_partition(rows: Seq<WeaponUsageRow>)
    ensures
        is_run_partition(rows, runs(rows)),
    decreases rows.len(),
{
    let groups = runs(rows);
    groups.lemma_flatten_and_flatten_alt_are_equivalent();
    if rows.len() == 0 {
        assert(groups.flatten() =~= rows);
    } else {
        let rest = rows.drop_last();
        let row = rows.last();
        let before = runs(rest);
        lemma_runs_is_partition(rest);
        before.lemma_flatten_and_flatten_alt_are_equivalent();
        if rows.len() >= 2 && rows[rows.len() - 2].weapon.id == row.weapon.id {
            lemma_last_group(rest, before);
            let front = before.drop_last();
            let grown = before.last().push(row);
            front.lemma_flatten_and_flatten_alt_are_equivalent();
            assert(groups == front.push(grown));
            assert(groups.drop_last() =~= front);
            assert(groups.last() == grown);
            assert(rest == front.flatten_alt() + before.last());
            assert(rows =~= rest.push(row));
            assert(groups.flatten_alt() =~= rows);
            assert(is_run(before.last()));
            assert(rest.last() == rows[rows.len() - 2]);
            assert forall|g: int| 0 <= g < groups.len() implies is_run(#[trigger] groups[g]) by {
                if g < front.len() {
                    assert(is_run(before[g]));
                    assert(groups[g] == before[g]);
                } else {
                    assert forall|i: int| 0 <= i < grown.len() implies (#[trigger] grown[i]).weapon.id
                        == grown[0].weapon.id by {
                        if i < before.last().len() {
                            assert(grown[i] == before.last()[i]);
                        }
                        assert(grown[0] == before.last()[0]);
                        assert(before.last()[before.last().len() - 1].weapon.id
                            == before.last()[0].weapon.id);
                    }
                }
            }
            assert forall|g: int| 0 <= g < groups.len() - 1 implies #[trigger] breaks_after(
                groups,
                g,
            ) by {
                assert(breaks_after(before, g));
                assert(groups[g] == before[g]);
                assert(groups[g + 1][0] == before[g + 1][0]);
            }
        } else {
            assert(groups == before.push(seq![row]));
            assert(groups.drop_last() =~= before);
            assert(rows =~= rest.push(row));
            assert(groups.flatten_alt() =~= rows);
            assert forall|g: int| 0 <= g < groups.len() implies is_run(#[trigger] groups[g]) by {
                if g < before.len() {
                    assert(is_run(before[g]));
                    assert(groups[g] == before[g]);
                }
            }
            assert forall|g: int| 0 <= g < groups.len() - 1 implies #[trigger] breaks_after(
                groups,
                g,
            ) by {
                if g < before.len() - 1 {
                    assert(breaks_after(before, g));
                    assert(groups[g] == before[g]);
                    assert(groups[g + 1] == before[g + 1]);
                } else {
                    if rest.len() == 0 {
                        lemma_no_rows_no_groups(before);
                    }
                    lemma_last_group(rest, before);
                    assert(groups[g] == before.last());
                    assert(rest.last() == rows[rows.len() - 2]);
                }
            }
        }
    }
}

/// A sequence that is one run is cut into that run alone.
pub proof fn lemma_runs_of_one_run(run: Seq<WeaponUsageRow>)
    requires
        is_run(run),
    ensures
        runs(run) == seq![run],
{
    let groups = seq![run];
    groups.lemma_flatten_one_element();
    assert(is_run(groups[0]));
    assert(is_run_partition(run, groups));
    lemma_run_partition_unique(run, groups);
}

/// Where the weapon id changes between the last row of `left` and the first
/// row of `right`, the runs of the two laid end to end are the runs of the
/// one followed by the runs of the other.
pub proof fn lemma_runs_concat(left: Seq<WeaponUsageRow>, right: Seq<WeaponUsageRow>)
    requires
        left.len() > 0 && right.len() > 0 ==> left.last().weapon.id != right[0].weapon.id,
    ensures
        runs(left + right) == runs(left) + runs(right),
{
    let a = runs(left);
    let b = runs(right);
    let groups = a + b;
    lemma_runs_is_partition(left);
    lemma_runs_is_partition(right);
    vstd::seq_lib::lemma_flatten_concat(a, b);
    assert(groups.flatten() =~= left + right);
    assert forall|g: int| 0 <= g < groups.len() implies is_run(#[trigger] groups[g]) by {
        if g < a.len() {
            assert(is_run(a[g]));
        } else {
            assert(is_run(b[g - a.len()]));
        }
    }
    assert forall|g: int| 0 <= g < groups.len() - 1 implies #[trigger] breaks_after(groups, g) by {
        if g < a.len() - 1 {
            assert(breaks_after(a, g));
        } else if g == a.len() - 1 {
            if left.len() == 0 {
                lemma_no_rows_no_groups(a);
            }
            if right.len() == 0 {
                lemma_no_rows_no_groups(b);
            }
            lemma_last_group(left, a);
            lemma_first_group(right, b);
            assert(groups[g] == a.last());
            assert(groups[g + 1] == b[0]);
        } else {
            assert(breaks_after(b, g - a.len()));
            assert(groups[g] == b[g - a.len()]);
            assert(groups[g + 1] == b[g - a.len() + 1]);
        }
    }
    lemma_run_partition_unique(left + right, groups);
}

} // verus!
