//! What moving a task keeps, and what cancelling gives back.

use vstd::prelude::*;
use crate::actions::RequestView;
use crate::grouping::{FilterView, GroupBy, passes};
use crate::listing::{Entry, RowView, entries, first_row, first_row_is_first, group_rows,
    header_row, is_task_row, key_order, members, row_note, rows_of_groups, task_entries, task_rows,
    visible};
use crate::model::{AppView, active_filters, cursor_run, cursor_task, id_rank, move_cancelled,
    move_started, move_submission, restored_rows, row_id, row_ids, row_lines, row_rank, run_end,
    run_rows, run_start, swapped, task_moved, wanted_rows};
use crate::moving::run_is_tasks;
use crate::order::{by_rank, sorting_orders, stable_sorted};
use crate::task::TaskView;

verus! {

/// The state after the task under the cursor was moved by each of `deltas` in turn.
pub open spec fn moved_by(a: AppView, deltas: Seq<int>) -> AppView
    decreases deltas.len(),
{
    if deltas.len() == 0 {
        a
    } else {
        task_moved(moved_by(a, deltas.drop_last()), deltas.last())
    }
}

/// Whether rows of one id are the same row, standing side by side. It holds where no id occurs twice;
/// it also holds of a task that stands in one group several times, by a tag it has several times.
pub open spec fn ids_stand_together(run: Seq<RowView>) -> bool {
    forall|i: int, j: int, k: int|
        0 <= i < k < j < run.len() && row_id(#[trigger] run[i]) == row_id(#[trigger] run[j])
            ==> #[trigger] run[k] == run[i]
}

/// Whether rows of one id are the same row.
pub open spec fn ids_name_rows(run: Seq<RowView>) -> bool {
    forall|i: int, j: int|
        0 <= i < j < run.len() && row_id(#[trigger] run[i]) == row_id(#[trigger] run[j]) ==> run[i]
            == run[j]
}

// ---------------------------------------------------------------------------
// Runs.
// ---------------------------------------------------------------------------

/// Whether `s..e` is an unbroken run of tasks that cannot be extended.
pub open spec fn is_run(rows: Seq<RowView>, s: int, e: int) -> bool {
    &&& 0 <= s < e <= rows.len()
    &&& forall|k: int| s <= k < e ==> (#[trigger] rows[k]) is Task
    &&& s > 0 ==> !(rows[s - 1] is Task)
    &&& e < rows.len() ==> !(rows[e] is Task)
}

pub(crate) proof fn run_begins(rows: Seq<RowView>, s: int, e: int, i: nat)
    requires
        is_run(rows, s, e),
        s <= i <= e,
    ensures
        run_start(rows, i) == s,
    decreases i,
{
    if i > s {
        assert(rows[i - 1] is Task);
        run_begins(rows, s, e, (i - 1) as nat);
    }
}

pub(crate) proof fn run_ends(rows: Seq<RowView>, s: int, e: int, i: nat)
    requires
        is_run(rows, s, e),
        s <= i <= e,
    ensures
        run_end(rows, i) == e,
    decreases e - i,
{
    if i < e {
        assert(rows[i as int] is Task);
        run_ends(rows, s, e, i + 1);
    }
}

proof fn start_is_first(rows: Seq<RowView>, i: nat)
    requires
        i <= rows.len(),
    ensures
        run_start(rows, i) <= i,
        run_start(rows, i) > 0 ==> !(rows[run_start(rows, i) - 1] is Task),
    decreases i,
{
    if 0 < i && rows[i - 1] is Task {
        start_is_first(rows, (i - 1) as nat);
    }
}

proof fn end_is_last(rows: Seq<RowView>, i: nat)
    requires
        i <= rows.len(),
    ensures
        run_end(rows, i) <= rows.len(),
        run_end(rows, i) < rows.len() ==> !(rows[run_end(rows, i) as int] is Task),
    decreases rows.len() - i,
{
    if i < rows.len() && rows[i as int] is Task {
        end_is_last(rows, i + 1);
    }
}

pub(crate) proof fn cursor_run_is_run(a: AppView)
    requires
        cursor_run(a) is Some,
    ensures
        ({
            let (s, e) = cursor_run(a)->0;
            is_run(a.rows, s as int, e as int) && s <= a.row->0 < e
        }),
{
    run_is_tasks(a.rows, a.row->0);
    start_is_first(a.rows, a.row->0);
    end_is_last(a.rows, a.row->0);
}

pub(crate) proof fn swapping_keeps<A>(s: Seq<A>, i: int, j: int)
    requires
        0 <= i < s.len(),
        0 <= j < s.len(),
    ensures
        swapped(s, i, j).to_multiset() == s.to_multiset(),
        swapped(s, i, j).len() == s.len(),
{
    broadcast use vstd::seq_lib::group_to_multiset_ensures;

    vstd::seq_lib::to_multiset_update(s, i, s[j]);
    vstd::seq_lib::to_multiset_update(s.update(i, s[j]), j, s[i]);
    if i == j {
        assert(swapped(s, i, j) =~= s);
    } else {
        assert(s.contains(s[i]));
        assert(s.contains(s[j]));
        assert(s.update(i, s[j])[j] == s[j]);
        assert(swapped(s, i, j).to_multiset() =~= s.to_multiset());
    }
}

/// Whether `b` is `a` with the rows of its run in some other order.
pub open spec fn reordered(a: AppView, b: AppView) -> bool {
    let (s, e) = cursor_run(a)->0;
    &&& cursor_run(a) is Some
    &&& cursor_run(b) == cursor_run(a)
    &&& b.rows.len() == a.rows.len()
    &&& b.rows.take(s as int) == a.rows.take(s as int)
    &&& b.rows.skip(e as int) == a.rows.skip(e as int)
    &&& run_rows(b).to_multiset() == run_rows(a).to_multiset()
    &&& b == (AppView { rows: b.rows, row: b.row, ctx_scroll: b.ctx_scroll, ..a })
}

/// Moving a task only reorders its run: nothing is lost, nothing leaves the run, the rows around it
/// stay, and nothing else of the state changes but the cursor and the scroll.
pub proof fn moving_only_reorders(a: AppView, delta: int)
    requires
        cursor_run(a) is Some,
    ensures
        reordered(a, task_moved(a, delta)),
        cursor_task(task_moved(a, delta)) == cursor_task(a),
{
    let b = task_moved(a, delta);
    let (s, e) = cursor_run(a)->0;
    cursor_run_is_run(a);
    let from = a.row->0 as int;
    let to = from + delta;
    if s <= to < e {
        assert(is_run(b.rows, s as int, e as int)) by {
            assert forall|k: int| s <= k < e implies (#[trigger] b.rows[k]) is Task by {
                assert(a.rows[k] is Task);
                assert(a.rows[from] is Task);
                assert(a.rows[to] is Task);
            }
        }
        run_begins(b.rows, s as int, e as int, to as nat);
        run_ends(b.rows, s as int, e as int, to as nat);
        assert(b.rows[to] == a.rows[from]);
        assert(run_rows(b) =~= swapped(run_rows(a), from - s, to - s));
        swapping_keeps(run_rows(a), from - s, to - s);
        assert(b.rows.take(s as int) =~= a.rows.take(s as int));
        assert(b.rows.skip(e as int) =~= a.rows.skip(e as int));
    }
}

/// However often a task is moved, its run is only reordered and the cursor stays on it.
pub proof fn moves_only_reorder(a: AppView, deltas: Seq<int>)
    requires
        cursor_run(a) is Some,
    ensures
        reordered(a, moved_by(a, deltas)),
        cursor_task(moved_by(a, deltas)) == cursor_task(a),
    decreases deltas.len(),
{
    if deltas.len() > 0 {
        moves_only_reorder(a, deltas.drop_last());
        moving_only_reorders(moved_by(a, deltas.drop_last()), deltas.last());
    }
}

// ---------------------------------------------------------------------------
// Cancelling.
// ---------------------------------------------------------------------------

proof fn rank_is_first(ids: Seq<i64>, id: i64, n: int)
    requires
        0 <= n < ids.len(),
        ids[n] == id,
    ensures
        id_rank(ids, id) <= n,
        ids[id_rank(ids, id) as int] == id,
    decreases ids.len(),
{
    if ids[0] != id {
        assert(ids.drop_first()[n - 1] == id);
        rank_is_first(ids.drop_first(), id, n - 1);
    }
}

proof fn run_is_by_rank(run: Seq<RowView>)
    requires
        ids_stand_together(run),
    ensures
        by_rank(run, row_rank(row_ids(run))),
{
    let ids = row_ids(run);
    let rank = row_rank(ids);
    assert forall|i: int, j: int| 0 <= i <= j < run.len() implies rank(#[trigger] run[i]) <= rank(
        #[trigger] run[j],
    ) by {
        assert(ids[i] == row_id(run[i]));
        assert(ids[j] == row_id(run[j]));
        rank_is_first(ids, ids[i], i);
        rank_is_first(ids, ids[j], j);
        let k = id_rank(ids, ids[j]) as int;
        if k < i && i < j {
            assert(row_id(run[k]) == row_id(run[j]));
            assert(run[i] == run[k]);
        }
    }
}

/// Two sequences of the same elements, both by rank, are equal where no two elements share a rank.
proof fn sorted_is_unique<A>(s: Seq<A>, t: Seq<A>, rank: spec_fn(A) -> int)
    requires
        s.to_multiset() == t.to_multiset(),
        by_rank(s, rank),
        by_rank(t, rank),
        forall|i: int, j: int|
            0 <= i < s.len() && 0 <= j < s.len() && rank(#[trigger] s[i]) == rank(#[trigger] s[j])
                ==> s[i] == s[j],
    ensures
        s == t,
    decreases s.len(),
{
    broadcast use vstd::seq_lib::group_to_multiset_ensures;

    assert(s.to_multiset().len() == s.len());
    assert(t.to_multiset().len() == t.len());
    if s.len() == 0 {
        assert(s =~= t);
    } else {
        let n = s.len() - 1;
        assert(t.to_multiset().count(s[n]) > 0) by {
            assert(s.contains(s[n]));
        }
        assert(s.to_multiset().count(t[n]) > 0) by {
            assert(t.contains(t[n]));
        }
        assert(t.contains(s[n]));
        assert(s.contains(t[n]));
        let i = choose|i: int| 0 <= i < t.len() && t[i] == s[n];
        let j = choose|j: int| 0 <= j < s.len() && s[j] == t[n];
        assert(rank(t[i]) <= rank(t[n]));
        assert(rank(s[j]) <= rank(s[n]));
        assert(s[j] == s[n]);
        let s1 = s.drop_last();
        let t1 = t.drop_last();
        assert(s =~= s1.push(s[n]));
        assert(t =~= t1.push(t[n]));
        assert(s1.to_multiset() =~= t1.to_multiset()) by {
            assert(s1.push(s[n]).to_multiset() == s1.to_multiset().insert(s[n]));
            assert(t1.push(t[n]).to_multiset() == t1.to_multiset().insert(t[n]));
            assert(s1.to_multiset() =~= s.to_multiset().remove(s[n]));
            assert(t1.to_multiset() =~= t.to_multiset().remove(t[n]));
        }
        assert forall|i: int, j: int|
            0 <= i < s1.len() && 0 <= j < s1.len() && rank(#[trigger] s1[i]) == rank(
                #[trigger] s1[j],
            ) implies s1[i] == s1[j] by {
            assert(s1[i] == s[i]);
            assert(s1[j] == s[j]);
        }
        assert(by_rank(s1, rank)) by {
            assert forall|i: int, j: int| 0 <= i <= j < s1.len() implies rank(#[trigger] s1[i])
                <= rank(#[trigger] s1[j]) by {
                assert(rank(s[i]) <= rank(s[j]));
            }
        }
        assert(by_rank(t1, rank)) by {
            assert forall|i: int, j: int| 0 <= i <= j < t1.len() implies rank(#[trigger] t1[i])
                <= rank(#[trigger] t1[j]) by {
                assert(rank(t[i]) <= rank(t[j]));
            }
        }
        sorted_is_unique(s1, t1, rank);
    }
}

proof fn sorting_restores(run: Seq<RowView>, other: Seq<RowView>)
    requires
        other.to_multiset() == run.to_multiset(),
        ids_stand_together(run),
        ids_name_rows(run),
    ensures
        stable_sorted(other, row_rank(row_ids(run))) == run,
{
    let ids = row_ids(run);
    let rank = row_rank(ids);
    sorting_orders(other, rank);
    run_is_by_rank(run);
    assert forall|i: int, j: int|
        0 <= i < run.len() && 0 <= j < run.len() && rank(#[trigger] run[i]) == rank(
            #[trigger] run[j],
        ) implies run[i] == run[j] by {
        assert(ids[i] == row_id(run[i]));
        assert(ids[j] == row_id(run[j]));
        rank_is_first(ids, ids[i], i);
        rank_is_first(ids, ids[j], j);
        if i < j {
            assert(row_id(run[i]) == row_id(run[j]));
        } else if j < i {
            assert(row_id(run[j]) == row_id(run[i]));
        }
    }
    sorted_is_unique(run, stable_sorted(other, rank), rank);
}

proof fn cancelling_restores_rows(a: AppView, b: AppView)
    requires
        reordered(a, b),
        b.move_initial_ids == row_ids(run_rows(a)),
        ids_stand_together(run_rows(a)),
        ids_name_rows(run_rows(a)),
    ensures
        restored_rows(b) == a.rows,
{
    let (s, e) = cursor_run(a)->0;
    cursor_run_is_run(a);
    sorting_restores(run_rows(a), run_rows(b));
    assert(a.rows.take(s as int) + run_rows(a) + a.rows.skip(e as int) =~= a.rows);
}

/// Cancelling gives back what move mode began with: however the task was moved, the rows stand again
/// as they stood, and nothing of the state is changed but the cursor, the scroll and the record of
/// which task was moved; the cursor is on that task.
pub proof fn cancelling_restores(a: AppView, deltas: Seq<int>)
    requires
        !a.moving,
        move_started(a).moving,
        ids_stand_together(run_rows(a)),
        ids_name_rows(run_rows(a)),
    ensures
        ({
            let back = move_cancelled(moved_by(move_started(a), deltas));
            &&& back.rows == a.rows
            &&& back == (AppView {
                row: back.row,
                ctx_scroll: 0,
                move_task_id: back.move_task_id,
                move_initial_ids: seq![],
                ..a
            })
            &&& cursor_task(back) matches Some(t) && t.id == cursor_task(a)->0.id
        }),
{
    let start = move_started(a);
    let b = moved_by(start, deltas);
    let back = move_cancelled(b);
    assert(start == (AppView {
        move_task_id: start.move_task_id,
        move_initial_ids: start.move_initial_ids,
        moving: true,
        ..a
    }));
    assert(cursor_run(start) == cursor_run(a));
    assert(run_rows(start) == run_rows(a));
    moves_only_reorder(start, deltas);
    cancelling_restores_rows(start, b);
    assert(back.rows == a.rows);
    let id = cursor_task(a)->0.id;
    let p = is_task_row(id);
    first_row_is_first(a.rows, p);
    assert(p(a.rows[a.row->0 as int]));
    assert(back.row == first_row(a.rows, p));
}

// ---------------------------------------------------------------------------
// Rows of an index.
// ---------------------------------------------------------------------------

/// Whether no two tasks have one id.
pub open spec fn ids_are_distinct(tasks: Seq<TaskView>) -> bool {
    forall|i: int, j: int|
        0 <= i < j < tasks.len() ==> (#[trigger] tasks[i]).id != (#[trigger] tasks[j]).id
}

/// Whether `ts` are the tasks at the places `at`, which never fall.
spec fn picked_in_order(tasks: Seq<TaskView>, at: Seq<int>, ts: Seq<TaskView>) -> bool {
    &&& at.len() == ts.len()
    &&& forall|j: int|
        0 <= j < ts.len() ==> 0 <= #[trigger] at[j] < tasks.len() && ts[j] == tasks[at[j]]
    &&& forall|i: int, j: int| 0 <= i <= j < at.len() ==> #[trigger] at[i] <= #[trigger] at[j]
}

proof fn members_join(a: Seq<Entry>, b: Seq<Entry>, key: Seq<char>)
    ensures
        members(a + b, key) == members(a, key) + members(b, key),
    decreases b.len(),
{
    if b.len() == 0 {
        assert(a + b =~= a);
        assert(members(a, key) + members(b, key) =~= members(a, key));
    } else {
        assert((a + b).drop_last() =~= a + b.drop_last());
        members_join(a, b.drop_last(), key);
        if b.last().0 == key {
            assert((members(a, key) + members(b.drop_last(), key)).push(b.last().1) =~= members(
                a,
                key,
            ) + members(b, key));
        }
    }
}

proof fn members_of_one(es: Seq<Entry>, key: Seq<char>, t: TaskView, j: int)
    requires
        forall|i: int| 0 <= i < es.len() ==> (#[trigger] es[i]).1 == t,
        0 <= j < members(es, key).len(),
    ensures
        members(es, key)[j] == t,
    decreases es.len(),
{
    if es.len() > 0 {
        let front = es.drop_last();
        assert(es[es.len() - 1].1 == t);
        assert forall|i: int| 0 <= i < front.len() implies (#[trigger] front[i]).1 == t by {
            assert(front[i] == es[i]);
        }
        if j < members(front, key).len() {
            members_of_one(front, key, t, j);
        }
    }
}

proof fn members_are_in_order(tasks: Seq<TaskView>, axis: GroupBy, key: Seq<char>) -> (at: Seq<int>)
    ensures
        picked_in_order(tasks, at, members(entries(tasks, axis), key)),
    decreases tasks.len(),
{
    if tasks.len() == 0 {
        Seq::empty()
    } else {
        let front = tasks.drop_last();
        let before = members_are_in_order(front, axis, key);
        let own = members(task_entries(tasks.last(), axis), key);
        let n = tasks.len() - 1;
        let at = before + Seq::new(own.len(), |i: int| n);
        members_join(entries(front, axis), task_entries(tasks.last(), axis), key);
        let ts = members(entries(tasks, axis), key);
        assert forall|j: int| 0 <= j < ts.len() implies 0 <= #[trigger] at[j] < tasks.len() && ts[j]
            == tasks[at[j]] by {
            if j < before.len() {
                assert(0 <= before[j] < front.len());
                assert(front[before[j]] == tasks[before[j]]);
            } else {
                members_of_one(task_entries(tasks.last(), axis), key, tasks.last(), j - before.len());
            }
        }
        assert forall|i: int, j: int| 0 <= i <= j < at.len() implies #[trigger] at[i]
            <= #[trigger] at[j] by {
            if j < before.len() {
                assert(before[i] <= before[j]);
            } else if i < before.len() {
                assert(0 <= before[i] < front.len());
            }
        }
        at
    }
}

proof fn visible_are_in_order(
    tasks: Seq<TaskView>,
    at: Seq<int>,
    ts: Seq<TaskView>,
    f: FilterView,
) -> (kept: Seq<int>)
    requires
        picked_in_order(tasks, at, ts),
    ensures
        picked_in_order(tasks, kept, visible(ts, f)),
        kept.len() > 0 ==> at.len() > 0 && kept.last() <= at.last(),
    decreases ts.len(),
{
    if ts.len() == 0 {
        Seq::empty()
    } else {
        let front = ts.drop_last();
        let at1 = at.drop_last();
        assert(picked_in_order(tasks, at1, front)) by {
            assert forall|j: int| 0 <= j < front.len() implies 0 <= #[trigger] at1[j] < tasks.len()
                && front[j] == tasks[at1[j]] by {
                assert(0 <= at[j] < tasks.len());
            }
            assert forall|i: int, j: int| 0 <= i <= j < at1.len() implies #[trigger] at1[i]
                <= #[trigger] at1[j] by {
                assert(at[i] <= at[j]);
            }
        }
        let before = visible_are_in_order(tasks, at1, front, f);
        let n = at.last();
        assert(0 <= at[at.len() - 1] < tasks.len());
        if at1.len() > 0 {
            assert(at[at.len() - 2] <= at[at.len() - 1]);
            assert(at1.last() == at[at.len() - 2]);
        }
        if passes(ts.last(), f) {
            let kept = before.push(n);
            let vis = visible(ts, f);
            assert forall|j: int| 0 <= j < vis.len() implies 0 <= #[trigger] kept[j] < tasks.len()
                && vis[j] == tasks[kept[j]] by {
                if j < before.len() {
                    assert(0 <= before[j] < tasks.len());
                }
            }
            assert forall|i: int, j: int| 0 <= i <= j < kept.len() implies #[trigger] kept[i]
                <= #[trigger] kept[j] by {
                if j < before.len() {
                    assert(before[i] <= before[j]);
                } else if i < before.len() {
                    assert(before[i] <= before[before.len() - 1]);
                }
            }
            kept
        } else {
            before
        }
    }
}

/// Whether, in every unbroken run of tasks, rows of one id are the same row and stand side by side.
spec fn together(rows: Seq<RowView>) -> bool {
    forall|i: int, j: int, k: int|
        0 <= i <= k <= j < rows.len() && (forall|n: int| i <= n <= j ==> (#[trigger] rows[n]) is Task)
            && row_id(#[trigger] rows[i]) == row_id(#[trigger] rows[j]) ==> #[trigger] rows[k]
            == rows[i]
}

proof fn groups_stand_together(
    tasks: Seq<TaskView>,
    order: Seq<Seq<char>>,
    f: FilterView,
    expanded: Set<Seq<char>>,
    axis: GroupBy,
)
    requires
        ids_are_distinct(tasks),
    ensures
        together(rows_of_groups(order, entries(tasks, axis), f, expanded)),
    decreases order.len(),
{
    let es = entries(tasks, axis);
    let rows = rows_of_groups(order, es, f, expanded);
    if order.len() > 0 {
        let key = order.last();
        let front = rows_of_groups(order.drop_last(), es, f, expanded);
        let ts = members(es, key);
        let vis = visible(ts, f);
        let block = group_rows(key, ts, f, expanded);
        groups_stand_together(tasks, order.drop_last(), f, expanded, axis);
        let at = members_are_in_order(tasks, axis, key);
        let kept = visible_are_in_order(tasks, at, ts, f);
        assert(rows == front + block);
        assert forall|i: int, j: int, k: int|
            0 <= i <= k <= j < rows.len() && (forall|n: int|
                i <= n <= j ==> (#[trigger] rows[n]) is Task) && row_id(#[trigger] rows[i]) == row_id(
                #[trigger] rows[j],
            ) implies #[trigger] rows[k] == rows[i] by {
            let m = front.len() as int;
            if j < m {
                assert forall|n: int| i <= n <= j implies (#[trigger] front[n]) is Task by {
                    assert(rows[n] == front[n]);
                }
                assert(rows[i] == front[i]);
                assert(rows[j] == front[j]);
                assert(rows[k] == front[k]);
            } else if i <= m {
                assert(rows[m] == block[0]);
                assert(rows[m] is Task);
            } else {
                assert(block == seq![header_row(key, ts, expanded)] + task_rows(vis));
                assert(rows[i] == task_rows(vis)[i - m - 1]);
                assert(rows[j] == task_rows(vis)[j - m - 1]);
                assert(rows[k] == task_rows(vis)[k - m - 1]);
                let x = kept[i - m - 1];
                let y = kept[j - m - 1];
                let z = kept[k - m - 1];
                assert(x <= z && z <= y);
                if x < y {
                    assert(tasks[x].id != tasks[y].id);
                }
            }
        }
    }
}

/// In a list built from tasks of distinct ids, rows of one id in a run are the same row, side by
/// side.
pub proof fn index_ids_stand_together(a: AppView)
    requires
        ids_are_distinct(a.tasks),
        a.rows == wanted_rows(a),
    ensures
        ids_stand_together(run_rows(a)),
        ids_name_rows(run_rows(a)),
{
    let es = entries(a.tasks, a.group_by);
    groups_stand_together(
        a.tasks,
        key_order(es, a.group_by),
        active_filters(a),
        a.expanded,
        a.group_by,
    );
    let run = run_rows(a);
    match cursor_run(a) {
        Some((s, e)) => {
            cursor_run_is_run(a);
            assert forall|i: int, j: int, k: int|
                0 <= i <= k <= j < run.len() && row_id(#[trigger] run[i]) == row_id(
                    #[trigger] run[j],
                ) implies #[trigger] run[k] == run[i] by {
                assert(run[i] == a.rows[s + i]);
                assert(run[j] == a.rows[s + j]);
                assert(run[k] == a.rows[s + k]);
            }
            assert forall|i: int, j: int|
                0 <= i < j < run.len() && row_id(#[trigger] run[i]) == row_id(
                    #[trigger] run[j],
                ) implies run[i] == run[j] by {
                assert(run[j] == run[i]);
            }
        },
        None => {},
    }
}

/// Cancelling gives back the list as the index gave it, where ids are distinct there.
pub proof fn cancelling_restores_the_index(a: AppView, deltas: Seq<int>)
    requires
        !a.moving,
        move_started(a).moving,
        ids_are_distinct(a.tasks),
        a.rows == wanted_rows(a),
    ensures
        move_cancelled(moved_by(move_started(a), deltas)).rows == a.rows,
{
    index_ids_stand_together(a);
    cancelling_restores(a, deltas);
}

/// Leaving move mode at once, with the order unchanged, submits nothing.
pub proof fn placing_unmoved_submits_nothing(a: AppView)
    requires
        move_started(a).moving,
        !a.moving,
    ensures
        move_submission(move_started(a)) is None,
{
    let start = move_started(a);
    assert(cursor_run(start) == cursor_run(a));
    assert(run_rows(start) == run_rows(a));
}

/// What placing a moved task submits, unless the order is the one it began with: the moved task, its
/// note and its line, and the lines of the run, each as often as before.
pub proof fn placing_submits_the_run(a: AppView, deltas: Seq<int>)
    requires
        !a.moving,
        move_started(a).moving,
        ids_name_rows(run_rows(a)),
    ensures
        ({
            let b = moved_by(move_started(a), deltas);
            let t = cursor_task(a)->0;
            &&& move_submission(b) is None <==> row_ids(run_rows(b)) == row_ids(run_rows(a))
            &&& move_submission(b) matches Some(s) ==> s.request matches RequestView::Reorder {
                task_id,
                note_path,
                line_number,
                lines,
            } && {
                &&& task_id == t.id
                &&& note_path == t.note_path
                &&& line_number == t.line_number
                &&& lines == row_lines(run_rows(b))
                &&& run_rows(b).to_multiset() == run_rows(a).to_multiset()
                &&& s.undo is None
            }
        }),
{
    broadcast use vstd::seq_lib::group_to_multiset_ensures;

    let start = move_started(a);
    let b = moved_by(start, deltas);
    let t = cursor_task(a)->0;
    let (s, e) = cursor_run(a)->0;
    cursor_run_is_run(a);
    assert(cursor_run(start) == cursor_run(a));
    moves_only_reorder(start, deltas);
    let run = run_rows(b);
    let first = run_rows(a);
    assert(run_rows(start) == first);
    cursor_run_is_run(b);
    let n = b.row->0 as int - s;
    let m = a.row->0 as int - s;
    assert(run[n] == b.rows[b.row->0 as int]);
    assert(first[m] == a.rows[a.row->0 as int]);
    let p = is_task_row(t.id);
    assert(p(run[n]));
    first_row_is_first(run, p);
    let k = first_row(run, p)->0 as int;
    assert(first.contains(run[k])) by {
        assert(run.contains(run[k]));
        assert(run.to_multiset().count(run[k]) > 0);
    }
    let i = choose|i: int| 0 <= i < first.len() && first[i] == run[k];
    assert(row_id(first[i]) == row_id(first[m]));
    assert(first[i] == first[m]) by {
        if i < m {
            assert(first[i] == first[m]);
        } else if m < i {
            assert(first[m] == first[i]);
        }
    }
    assert(first.contains(run[0])) by {
        assert(run.contains(run[0]));
        assert(run.to_multiset().count(run[0]) > 0);
    }
    let j = choose|j: int| 0 <= j < first.len() && first[j] == run[0];
    assert(row_note(first[j]) == row_note(first[0]));
    assert(row_note(first[m]) == row_note(first[0]));
}

}
