//! What move mode and the archive write, line by line.

use vstd::prelude::*;
use crate::actions::{RequestView, SubmissionView};
use crate::gesture_laws::{in_list, on_task, press};
use crate::keys::{EffectView, KeyCode, KeyEvent, key_pressed};
use crate::listing::{RowView, first_row, first_row_is_first, is_task_row, row_note};
use crate::model::{AppView, archivable, archive_submission, closed_tasks, cursor_run, cursor_task,
    has_subtasks, line_rank, move_cancelled, move_started, one_note, row_id, row_ids, row_lines,
    run_rows, swapped, task_moved};
use crate::move_laws::{cancelling_restores, cursor_run_is_run, ids_name_rows, ids_stand_together,
    is_run, moved_by, run_begins, run_ends, swapping_keeps};
use crate::order::sorting_orders;
use crate::task::TaskView;
use crate::text::digits;

verus! {

/// Whether no task of `note` is nested under another.
pub open spec fn is_flat(tasks: Seq<TaskView>, note: Seq<char>) -> bool {
    forall|i: int|
        0 <= i < tasks.len() && (#[trigger] tasks[i]).note_path == note ==> tasks[i].indent == 0
}

/// The line numbers of the tasks in the rows from `s` to `e`.
pub open spec fn lines_of(rows: Seq<RowView>, s: int, e: int) -> Seq<usize> {
    Seq::new((e - s) as nat, |k: int| rows[s + k]->Task_task.line_number)
}

/// The ids of the tasks in the rows from `s` to `e`.
pub open spec fn ids_of(rows: Seq<RowView>, s: int, e: int) -> Seq<i64> {
    Seq::new((e - s) as nat, |k: int| rows[s + k]->Task_task.id)
}

/// Whether the keys go to move mode.
pub open spec fn in_move_mode(a: AppView) -> bool {
    a.moving && !a.searching && !a.file_searching && !a.quick_adding && !a.adding_note
}

/// Whether the cursor is on row `i`, within the unbroken run of tasks from `s` to `e`.
pub open spec fn cursor_in_run(a: AppView, s: int, e: int, i: int) -> bool {
    &&& a.row == Some(i as nat)
    &&& is_run(a.rows, s, e)
    &&& s <= i < e
}

// ---------------------------------------------------------------------------
// Move mode.
// ---------------------------------------------------------------------------

proof fn runs_are_found(a: AppView, s: int, e: int, i: int)
    requires
        cursor_in_run(a, s, e, i),
    ensures
        cursor_run(a) == Some((s as nat, e as nat)),
        run_rows(a) == a.rows.subrange(s, e),
        row_ids(run_rows(a)) == ids_of(a.rows, s, e),
        row_lines(run_rows(a)) == lines_of(a.rows, s, e),
        cursor_task(a) == Some(a.rows[i]->Task_task),
{
    assert(a.rows[i] is Task);
    run_begins(a.rows, s, e, i as nat);
    run_ends(a.rows, s, e, i as nat);
    let run = run_rows(a);
    assert forall|k: int| 0 <= k < e - s implies row_ids(run)[k] == ids_of(a.rows, s, e)[k]
        && row_lines(run)[k] == lines_of(a.rows, s, e)[k] by {
        assert(a.rows[s + k] is Task);
    }
    assert(row_ids(run) =~= ids_of(a.rows, s, e));
    assert(row_lines(run) =~= lines_of(a.rows, s, e));
}

/// `m` enters move mode on the task under the cursor where all tasks of its run are in its note and no
/// task of that note is nested; it remembers the task and the order of the run. Otherwise it says why
/// not. Nothing else changes.
pub proof fn moves_begin(a: AppView, ctrl: bool, s: int, e: int, i: int)
    requires
        in_list(a),
        cursor_in_run(a, s, e, i),
    ensures
        ({
            let (b, effect) = key_pressed(a, press(KeyCode::Char('m'), ctrl));
            let t = a.rows[i]->Task_task;
            let together = forall|k: int|
                s <= k < e ==> (#[trigger] a.rows[k])->Task_task.note_path == t.note_path;
            &&& effect is Nothing
            &&& together && is_flat(a.tasks, t.note_path) ==> b == (AppView {
                moving: true,
                move_task_id: t.id,
                move_initial_ids: ids_of(a.rows, s, e),
                ..a
            })
            &&& !together ==> b == (AppView {
                notice: Some("Reorder works within a single note (use folder+note grouping)"@),
                ..a
            })
            &&& together && !is_flat(a.tasks, t.note_path) ==> b == (AppView {
                notice: Some("Reorder supports flat task lists only (v1); this note has subtasks"@),
                ..a
            })
        }),
{
    runs_are_found(a, s, e, i);
    let t = a.rows[i]->Task_task;
    let run = run_rows(a);
    let together = forall|k: int|
        s <= k < e ==> (#[trigger] a.rows[k])->Task_task.note_path == t.note_path;
    assert(a.rows[i] is Task);
    assert(run[i - s] == a.rows[i]);
    assert(a.rows[s] is Task);
    if together {
        assert forall|k: int| 0 <= k < run.len() implies row_note(#[trigger] run[k]) == row_note(
            run[0],
        ) by {
            assert(run[k] == a.rows[s + k]);
            assert(a.rows[s + k] is Task);
            assert(run[0] == a.rows[s]);
        }
        assert(one_note(run));
        assert(row_note(run[0]) == t.note_path);
        assert(has_subtasks(a.tasks, t.note_path) <==> !is_flat(a.tasks, t.note_path));
    } else {
        let k = choose|k: int|
            s <= k < e && (#[trigger] a.rows[k])->Task_task.note_path != t.note_path;
        assert(a.rows[k] is Task);
        assert(run[k - s] == a.rows[k]);
        assert(!one_note(run)) by {
            assert(row_note(run[k - s]) != row_note(run[i - s]));
        }
    }
}

/// Whether a key leaves the state in move mode.
#[verifier::opaque]
pub open spec fn key_moves(a: AppView, key: KeyEvent) -> bool {
    key_pressed(a, key).0.moving
}

proof fn searches_never_move(a: AppView, key: KeyEvent)
    requires
        !a.moving,
        a.searching || a.file_searching,
    ensures
        !key_moves(a, key),
{
    reveal(key_moves);
}

proof fn writing_prompts_never_move(a: AppView, key: KeyEvent)
    requires
        !a.moving,
        !a.searching && !a.file_searching,
        a.quick_adding || a.adding_note,
    ensures
        !key_moves(a, key),
{
    reveal(key_moves);
}

proof fn help_never_moves(a: AppView, key: KeyEvent)
    requires
        a.show_help && in_list(AppView { show_help: false, ..a }),
    ensures
        !key_moves(a, key),
{
    reveal(key_moves);
}

proof fn characters_never_move(a: AppView, key: KeyEvent)
    requires
        in_list(a),
        key.code is Char,
        key.code != KeyCode::Char('m'),
    ensures
        !key_moves(a, key),
{
    reveal(key_moves);
}

#[verifier::rlimit(40)]
proof fn other_keys_never_move(a: AppView, key: KeyEvent)
    requires
        in_list(a),
        !(key.code is Char),
    ensures
        !key_moves(a, key),
{
    reveal(key_moves);
}

proof fn m_moves_in_flat_notes(a: AppView, key: KeyEvent)
    requires
        in_list(a),
        key.code == KeyCode::Char('m'),
        key_moves(a, key),
    ensures
        exists|t: TaskView| #[trigger] on_task(a, t) && is_flat(a.tasks, t.note_path),
{
    reveal(key_moves);
    let t = cursor_task(a)->0;
    assert(move_started(a).moving);
    assert(on_task(a, t));
    cursor_run_is_run(a);
    let (s, e) = cursor_run(a)->0;
    assert(key == press(key.code, key.ctrl));
    moves_begin(a, key.ctrl, s as int, e as int, a.row->0 as int);
}

/// Whatever key enters move mode, it is `m`, the cursor is on a task, and every task of the index that
/// is in the same note has no indent.
pub proof fn moves_are_within_flat_notes(a: AppView, key: KeyEvent)
    requires
        !a.moving,
        key_moves(a, key),
    ensures
        key.code == KeyCode::Char('m'),
        exists|t: TaskView| #[trigger] on_task(a, t) && is_flat(a.tasks, t.note_path),
{
    if a.searching || a.file_searching {
        searches_never_move(a, key);
    } else if a.quick_adding || a.adding_note {
        writing_prompts_never_move(a, key);
    } else if a.show_help {
        help_never_moves(a, key);
    } else if !(key.code is Char) {
        other_keys_never_move(a, key);
    } else if key.code != KeyCode::Char('m') {
        characters_never_move(a, key);
    } else {
        m_moves_in_flat_notes(a, key);
    }
}

/// In move mode `j` and Down exchange the task under the cursor with the one below it, `k` and Up with
/// the one above it, and the cursor goes with it; at the ends of the run they do nothing.
#[verifier::rlimit(40)]
pub proof fn moves_exchange_neighbours(a: AppView, ctrl: bool, s: int, e: int, i: int)
    requires
        in_move_mode(a),
        cursor_in_run(a, s, e, i),
    ensures
        i + 1 < e ==> exchanged(a, key_pressed(a, press(KeyCode::Char('j'), ctrl)).0, i, i + 1),
        i + 1 < e ==> exchanged(a, key_pressed(a, press(KeyCode::Down, ctrl)).0, i, i + 1),
        i > s ==> exchanged(a, key_pressed(a, press(KeyCode::Char('k'), ctrl)).0, i, i - 1),
        i > s ==> exchanged(a, key_pressed(a, press(KeyCode::Up, ctrl)).0, i, i - 1),
        i + 1 == e ==> key_pressed(a, press(KeyCode::Char('j'), ctrl)).0 == a,
        i + 1 == e ==> key_pressed(a, press(KeyCode::Down, ctrl)).0 == a,
        i == s ==> key_pressed(a, press(KeyCode::Char('k'), ctrl)).0 == a,
        i == s ==> key_pressed(a, press(KeyCode::Up, ctrl)).0 == a,
        key_pressed(a, press(KeyCode::Char('j'), ctrl)).1 is Nothing,
        key_pressed(a, press(KeyCode::Down, ctrl)).1 is Nothing,
        key_pressed(a, press(KeyCode::Char('k'), ctrl)).1 is Nothing,
        key_pressed(a, press(KeyCode::Up, ctrl)).1 is Nothing,
{
    runs_are_found(a, s, e, i);
}

/// Whether `b` is `a` with the rows `i` and `j` exchanged and the cursor on row `j`.
pub open spec fn exchanged(a: AppView, b: AppView, i: int, j: int) -> bool {
    &&& b.rows.len() == a.rows.len()
    &&& b.rows[i] == a.rows[j]
    &&& b.rows[j] == a.rows[i]
    &&& forall|k: int| 0 <= k < a.rows.len() && k != i && k != j ==> #[trigger] b.rows[k] == a.rows[k]
    &&& b == (AppView { rows: b.rows, row: Some(j as nat), ctx_scroll: 0, ..a })
}

/// Enter leaves move mode. Where the order of the run is not the one that move mode began with, it
/// submits the line number of every task of the run, place by place, with the moved task and its line.
#[verifier::rlimit(40)]
pub proof fn placing_sends_the_lines(a: AppView, ctrl: bool, s: int, e: int, i: int)
    requires
        in_move_mode(a),
        cursor_in_run(a, s, e, i),
    ensures
        ({
            let (b, effect) = key_pressed(a, press(KeyCode::Enter, ctrl));
            &&& b == (AppView { moving: false, move_initial_ids: seq![], ..a })
            &&& ids_of(a.rows, s, e) == a.move_initial_ids ==> effect is Nothing
            &&& ids_of(a.rows, s, e) != a.move_initial_ids ==> {
                &&& effect matches EffectView::Submit(sub) && sub.undo is None && sub.confirmation is None
                    && sub.request == (RequestView::Reorder {
                    task_id: a.move_task_id,
                    note_path: a.rows[s]->Task_task.note_path,
                    line_number: sub.request->Reorder_line_number,
                    lines: lines_of(a.rows, s, e),
                })
                &&& a.rows[i]->Task_task.id == a.move_task_id && (forall|k: int|
                    s <= k < i ==> (#[trigger] a.rows[k])->Task_task.id != a.move_task_id)
                    ==> effect->Submit_0.request->Reorder_line_number
                    == a.rows[i]->Task_task.line_number
            }
        }),
{
    runs_are_found(a, s, e, i);
    let run = run_rows(a);
    let p = is_task_row(a.move_task_id);
    first_row_is_first(run, p);
    assert(a.rows[s] is Task);
    assert(a.rows[i] is Task);
    assert(run[0] == a.rows[s]);
    assert(run[i - s] == a.rows[i]);
    if a.rows[i]->Task_task.id == a.move_task_id && (forall|k: int|
        s <= k < i ==> (#[trigger] a.rows[k])->Task_task.id != a.move_task_id) {
        assert(p(run[i - s]));
        let k = first_row(run, p)->0 as int;
        if k < i - s {
            assert(run[k] == a.rows[s + k]);
            assert(a.rows[s + k] is Task);
        }
        assert(k == i - s);
    }
}

/// The state after the keys `codes`, one after the other.
pub open spec fn after_keys(a: AppView, codes: Seq<KeyCode>) -> AppView
    decreases codes.len(),
{
    if codes.len() == 0 {
        a
    } else {
        key_pressed(after_keys(a, codes.drop_last()), press(codes.last(), false)).0
    }
}

/// Whether a key moves a task in move mode.
pub open spec fn is_step(code: KeyCode) -> bool {
    code == KeyCode::Down || code == KeyCode::Up || code == KeyCode::Char('j') || code
        == KeyCode::Char('k')
}

/// Whether all keys move a task in move mode.
pub open spec fn all_steps(codes: Seq<KeyCode>) -> bool {
    forall|k: int| 0 <= k < codes.len() ==> is_step(#[trigger] codes[k])
}

proof fn exchanging_keeps_the_lines(a: AppView, b: AppView, s: int, e: int, i: int, j: int)
    requires
        cursor_in_run(a, s, e, i),
        s <= j < e,
        i != j,
        exchanged(a, b, i, j),
    ensures
        cursor_in_run(b, s, e, j),
        lines_of(b.rows, s, e).to_multiset() == lines_of(a.rows, s, e).to_multiset(),
        ids_of(b.rows, s, e).to_multiset() == ids_of(a.rows, s, e).to_multiset(),
{
    assert forall|k: int| s <= k < e implies (#[trigger] b.rows[k]) is Task by {
        assert(a.rows[k] is Task);
        assert(a.rows[i] is Task);
        assert(a.rows[j] is Task);
    }
    let la = lines_of(a.rows, s, e);
    let ia = ids_of(a.rows, s, e);
    assert(lines_of(b.rows, s, e) =~= swapped(la, i - s, j - s));
    assert(ids_of(b.rows, s, e) =~= swapped(ia, i - s, j - s));
    swapping_keeps(la, i - s, j - s);
    swapping_keeps(ia, i - s, j - s);
}

/// Whether all tasks of a run are in `note`.
pub open spec fn run_in_note(rows: Seq<RowView>, s: int, e: int, note: Seq<char>) -> bool {
    forall|k: int| s <= k < e ==> (#[trigger] rows[k])->Task_task.note_path == note
}

/// Whether `b` is `a` with the tasks of a run in some other order, the cursor still on the same task.
pub open spec fn moved_within(a: AppView, b: AppView, s: int, e: int) -> bool {
    &&& a.row is Some && b.row is Some
    &&& cursor_in_run(b, s, e, b.row->0 as int)
    &&& b.rows.len() == a.rows.len()
    &&& b.rows[b.row->0 as int] == a.rows[a.row->0 as int]
    &&& lines_of(b.rows, s, e).to_multiset() == lines_of(a.rows, s, e).to_multiset()
    &&& ids_of(b.rows, s, e).to_multiset() == ids_of(a.rows, s, e).to_multiset()
    &&& forall|note: Seq<char>| #[trigger]
        run_in_note(a.rows, s, e, note) ==> run_in_note(b.rows, s, e, note)
    &&& forall|k: int| 0 <= k < a.rows.len() && !(s <= k < e) ==> #[trigger] b.rows[k] == a.rows[k]
    &&& b == (AppView { rows: b.rows, row: b.row, ctx_scroll: b.ctx_scroll, ..a })
}

proof fn exchanges_move_within(a: AppView, b: AppView, s: int, e: int, i: int, j: int)
    requires
        cursor_in_run(a, s, e, i),
        s <= j < e,
        i != j,
        exchanged(a, b, i, j),
    ensures
        moved_within(a, b, s, e),
{
    exchanging_keeps_the_lines(a, b, s, e, i, j);
    assert forall|note: Seq<char>| #[trigger] run_in_note(a.rows, s, e, note) implies run_in_note(
        b.rows,
        s,
        e,
        note,
    ) by {
        assert forall|k: int| s <= k < e implies (#[trigger] b.rows[k])->Task_task.note_path
            == note by {
            assert(a.rows[k]->Task_task.note_path == note);
            assert(a.rows[i]->Task_task.note_path == note);
            assert(a.rows[j]->Task_task.note_path == note);
        }
    }
}

proof fn moves_go_on(a: AppView, b: AppView, c: AppView, s: int, e: int)
    requires
        moved_within(a, b, s, e),
        moved_within(b, c, s, e),
    ensures
        moved_within(a, c, s, e),
{
    assert forall|note: Seq<char>| #[trigger] run_in_note(a.rows, s, e, note) implies run_in_note(
        c.rows,
        s,
        e,
        note,
    ) by {
        assert(run_in_note(b.rows, s, e, note));
    }
    assert forall|k: int| 0 <= k < a.rows.len() && !(s <= k < e) implies #[trigger] c.rows[k]
        == a.rows[k] by {
        assert(b.rows[k] == a.rows[k]);
    }
}

#[verifier::rlimit(40)]
proof fn steps_move_within(a: AppView, code: KeyCode, s: int, e: int, i: int)
    requires
        in_move_mode(a),
        cursor_in_run(a, s, e, i),
        is_step(code),
    ensures
        moved_within(a, key_pressed(a, press(code, false)).0, s, e),
{
    moves_exchange_neighbours(a, false, s, e, i);
    let b = key_pressed(a, press(code, false)).0;
    if code == KeyCode::Down || code == KeyCode::Char('j') {
        if i + 1 < e {
            exchanges_move_within(a, b, s, e, i, i + 1);
        }
    } else {
        if i > s {
            exchanges_move_within(a, b, s, e, i, i - 1);
        }
    }
}

/// However the task is moved, the run stays the run, the cursor stays on the task, and the run holds
/// the same line numbers and ids in some order; the rows around it stay, and so does everything else.
pub proof fn moves_keep_the_lines(a: AppView, codes: Seq<KeyCode>, s: int, e: int, i: int)
    requires
        in_move_mode(a),
        cursor_in_run(a, s, e, i),
        all_steps(codes),
    ensures
        moved_within(a, after_keys(a, codes), s, e),
        in_move_mode(after_keys(a, codes)),
    decreases codes.len(),
{
    if codes.len() > 0 {
        let front = codes.drop_last();
        assert(all_steps(front)) by {
            assert forall|k: int| 0 <= k < front.len() implies is_step(#[trigger] front[k]) by {
                assert(front[k] == codes[k]);
            }
        }
        moves_keep_the_lines(a, front, s, e, i);
        let c = after_keys(a, front);
        assert(is_step(codes[codes.len() - 1]));
        steps_move_within(c, codes.last(), s, e, c.row->0 as int);
        moves_go_on(a, c, after_keys(a, codes), s, e);
    }
}

/// What a move writes: from `m` over any steps to Enter, where anything is submitted, the k-th of its
/// lines is the line number of the task at the k-th place of the run, and its lines are those that the
/// run had when the move began, in another order.
pub proof fn moves_permute_the_lines(a: AppView, codes: Seq<KeyCode>, s: int, e: int, i: int)
    requires
        in_list(a),
        cursor_in_run(a, s, e, i),
        key_pressed(a, press(KeyCode::Char('m'), false)).0.moving,
        all_steps(codes),
    ensures
        ({
            let b = after_keys(key_pressed(a, press(KeyCode::Char('m'), false)).0, codes);
            let effect = key_pressed(b, press(KeyCode::Enter, false)).1;
            &&& effect is Nothing <==> ids_of(b.rows, s, e) == ids_of(a.rows, s, e)
            &&& effect is Nothing || effect is Submit
            &&& effect matches EffectView::Submit(sub) ==> {
                &&& sub.request is Reorder
                &&& sub.request->Reorder_task_id == a.rows[i]->Task_task.id
                &&& sub.request->Reorder_note_path == a.rows[i]->Task_task.note_path
                &&& sub.request->Reorder_lines.len() == e - s
                &&& forall|k: int|
                    0 <= k < e - s ==> #[trigger] sub.request->Reorder_lines[k] == b.rows[s
                        + k]->Task_task.line_number
                &&& sub.request->Reorder_lines.to_multiset() == lines_of(
                    a.rows,
                    s,
                    e,
                ).to_multiset()
            }
        }),
{
    moves_begin(a, false, s, e, i);
    let start = key_pressed(a, press(KeyCode::Char('m'), false)).0;
    let t = a.rows[i]->Task_task;
    assert(start == (AppView {
        moving: true,
        move_task_id: t.id,
        move_initial_ids: ids_of(a.rows, s, e),
        ..a
    }));
    moves_keep_the_lines(start, codes, s, e, i);
    let b = after_keys(start, codes);
    let j = b.row->0 as int;
    placing_sends_the_lines(b, false, s, e, j);
    assert(run_in_note(start.rows, s, e, t.note_path));
    assert(run_in_note(b.rows, s, e, t.note_path));
    assert(b.rows[s] is Task);
}

/// By how many rows each key moves a task.
pub open spec fn steps_of(codes: Seq<KeyCode>) -> Seq<int> {
    Seq::new(
        codes.len(),
        |k: int|
            if codes[k] == KeyCode::Down || codes[k] == KeyCode::Char('j') {
                1
            } else {
                -1
            },
    )
}

#[verifier::rlimit(40)]
proof fn keys_move_by_steps(a: AppView, codes: Seq<KeyCode>, s: int, e: int, i: int)
    requires
        in_move_mode(a),
        cursor_in_run(a, s, e, i),
        all_steps(codes),
    ensures
        after_keys(a, codes) == moved_by(a, steps_of(codes)),
    decreases codes.len(),
{
    if codes.len() > 0 {
        let front = codes.drop_last();
        assert(all_steps(front)) by {
            assert forall|k: int| 0 <= k < front.len() implies is_step(#[trigger] front[k]) by {
                assert(front[k] == codes[k]);
            }
        }
        keys_move_by_steps(a, front, s, e, i);
        moves_keep_the_lines(a, front, s, e, i);
        assert(steps_of(codes).drop_last() =~= steps_of(front));
        assert(is_step(codes[codes.len() - 1]));
        let c = after_keys(a, front);
        let d = steps_of(codes).last();
        assert(in_move_mode(c));
        assert(key_pressed(c, press(codes.last(), false)).0 == task_moved(c, d));
    }
}

proof fn distinct_ids_name_rows(a: AppView, s: int, e: int, i: int)
    requires
        cursor_in_run(a, s, e, i),
        ids_of(a.rows, s, e).no_duplicates(),
    ensures
        ids_stand_together(run_rows(a)),
        ids_name_rows(run_rows(a)),
{
    runs_are_found(a, s, e, i);
    let run = run_rows(a);
    assert forall|x: int, y: int| 0 <= x < y < run.len() implies row_id(#[trigger] run[x]) != row_id(
        #[trigger] run[y],
    ) by {
        assert(row_ids(run)[x] == row_id(run[x]));
        assert(row_ids(run)[y] == row_id(run[y]));
        assert(ids_of(a.rows, s, e)[x] != ids_of(a.rows, s, e)[y]);
    }
}

#[verifier::rlimit(40)]
proof fn moves_start(a: AppView, s: int, e: int, i: int)
    requires
        in_list(a),
        cursor_in_run(a, s, e, i),
        key_pressed(a, press(KeyCode::Char('m'), false)).0.moving,
    ensures
        key_pressed(a, press(KeyCode::Char('m'), false)).0 == move_started(a),
        in_move_mode(move_started(a)),
        cursor_in_run(move_started(a), s, e, i),
        cursor_task(a) == Some(a.rows[i]->Task_task),
{
    runs_are_found(a, s, e, i);
    moves_begin(a, false, s, e, i);
}

proof fn escape_cancels(b: AppView)
    requires
        in_move_mode(b),
    ensures
        key_pressed(b, press(KeyCode::Esc, false)) == (move_cancelled(b), EffectView::Nothing),
{
}

/// Esc gives back what `m` began with: after any steps the rows stand as they stood, nothing is
/// submitted, the cursor is on the task that was moved, and nothing else is changed.
pub proof fn escape_gives_the_rows_back(a: AppView, codes: Seq<KeyCode>, s: int, e: int, i: int)
    requires
        in_list(a),
        cursor_in_run(a, s, e, i),
        key_pressed(a, press(KeyCode::Char('m'), false)).0.moving,
        all_steps(codes),
        ids_of(a.rows, s, e).no_duplicates(),
    ensures
        ({
            let b = after_keys(key_pressed(a, press(KeyCode::Char('m'), false)).0, codes);
            let (c, effect) = key_pressed(b, press(KeyCode::Esc, false));
            &&& effect is Nothing
            &&& c.rows == a.rows
            &&& c == (AppView {
                row: c.row,
                ctx_scroll: 0,
                move_task_id: c.move_task_id,
                move_initial_ids: seq![],
                ..a
            })
            &&& c.row matches Some(j) && j < c.rows.len() && c.rows[j as int] is Task
            &&& c.rows[c.row->0 as int]->Task_task.id == a.rows[i]->Task_task.id
        }),
{
    distinct_ids_name_rows(a, s, e, i);
    moves_start(a, s, e, i);
    let start = move_started(a);
    keys_move_by_steps(start, codes, s, e, i);
    moves_keep_the_lines(start, codes, s, e, i);
    cancelling_restores(a, steps_of(codes));
    escape_cancels(after_keys(start, codes));
}

// ---------------------------------------------------------------------------
// The archive.
// ---------------------------------------------------------------------------

/// The tasks of `note` that are closed: done, or cancelled, and not nested.
pub open spec fn closed_in(note: Seq<char>) -> spec_fn(TaskView) -> bool {
    |t: TaskView|
        t.note_path == note && t.indent == 0 && (t.status is Done || t.raw_checkbox_char == "-"@)
}

/// Whether `found` holds the ids and lines of the closed tasks of `note`, top to bottom.
pub open spec fn closed_top_to_bottom(
    found: Seq<(i64, usize)>,
    tasks: Seq<TaskView>,
    note: Seq<char>,
) -> bool {
    &&& found.to_multiset() == tasks.filter(closed_in(note)).map_values(
        |t: TaskView| (t.id, t.line_number),
    ).to_multiset()
    &&& forall|i: int, j: int|
        0 <= i <= j < found.len() ==> (#[trigger] found[i]).1 <= (#[trigger] found[j]).1
}

proof fn closed_tasks_are_a_filter(tasks: Seq<TaskView>, note: Seq<char>)
    ensures
        closed_tasks(tasks, note) == tasks.filter(closed_in(note)).map_values(
            |t: TaskView| (t.id, t.line_number),
        ),
    decreases tasks.len(),
{
    let p = closed_in(note);
    reveal(Seq::filter);
    if tasks.len() > 0 {
        let front = tasks.drop_last();
        let t = tasks.last();
        closed_tasks_are_a_filter(front, note);
        if p(t) {
            assert(front.filter(p).push(t).map_values(|t: TaskView| (t.id, t.line_number))
                =~= front.filter(p).map_values(|t: TaskView| (t.id, t.line_number)).push(
                (t.id, t.line_number),
            ));
        }
    }
    assert(closed_tasks(tasks, note) =~= tasks.filter(p).map_values(
        |t: TaskView| (t.id, t.line_number),
    ));
}

/// What the archive finds in a note: the ids and lines of its closed tasks, each once, top to bottom.
pub proof fn archivable_is_closed(tasks: Seq<TaskView>, note: Seq<char>)
    ensures
        closed_top_to_bottom(archivable(tasks, note), tasks, note),
        archivable(tasks, note).len() == tasks.filter(closed_in(note)).len(),
{
    closed_tasks_are_a_filter(tasks, note);
    let rank = line_rank();
    sorting_orders(closed_tasks(tasks, note), rank);
    let found = archivable(tasks, note);
    assert forall|i: int, j: int| 0 <= i <= j < found.len() implies (#[trigger] found[i]).1 <= (
    #[trigger] found[j]).1 by {
        assert(rank(found[i]) <= rank(found[j]));
    }
}

/// `A` on a task archives the closed tasks of its note: their lines, top to bottom, with the first of
/// them as the anchor, and says how many they are. It is refused, and says why, where the note has a
/// nested task, where it has no closed one, and where it is the archive itself.
#[verifier::rlimit(40)]
pub proof fn closed_tasks_are_archived(a: AppView, ctrl: bool, t: TaskView)
    requires
        in_list(a),
        on_task(a, t),
    ensures
        ({
            let (b, effect) = key_pressed(a, press(KeyCode::Char('A'), ctrl));
            let n = a.tasks.filter(closed_in(t.note_path)).len();
            if !is_flat(a.tasks, t.note_path) {
                &&& effect is Nothing
                &&& b == (AppView {
                    notice: Some(
                        "Archive supports flat task lists only (v1); this note has subtasks"@,
                    ),
                    ..a
                })
            } else if n == 0 {
                &&& effect is Nothing
                &&& b == (AppView { notice: Some("No completed tasks to archive in this note"@), ..a })
            } else if a.archive_path == t.note_path {
                &&& effect is Nothing
                &&& b == (AppView { notice: Some("Archive path cannot be the source note"@), ..a })
            } else {
                &&& b == a
                &&& exists|found: Seq<(i64, usize)>| #[trigger]
                    closed_top_to_bottom(found, a.tasks, t.note_path) && found.len() == n && effect
                        == EffectView::Submit(
                        SubmissionView {
                            request: RequestView::Archive {
                                task_id: found[0].0,
                                note_path: t.note_path,
                                line_number: found[0].1,
                                archive_path: a.archive_path,
                                lines: Seq::new(n, |k: int| found[k].1),
                            },
                            undo: None,
                            confirmation: Some(
                                "Archiving "@ + digits(n) + " completed task(s) → "@
                                    + a.archive_path,
                            ),
                        },
                    )
            }
        }),
{
    archivable_is_closed(a.tasks, t.note_path);
    assert(has_subtasks(a.tasks, t.note_path) <==> !is_flat(a.tasks, t.note_path));
    let found = archivable(a.tasks, t.note_path);
    assert(found.map_values(|p: (i64, usize)| p.1) =~= Seq::new(
        found.len(),
        |k: int| found[k].1,
    ));
    assert(closed_top_to_bottom(found, a.tasks, t.note_path));
}

/// Whether a key submits `s`.
#[verifier::opaque]
pub open spec fn key_submits(a: AppView, key: KeyEvent, s: SubmissionView) -> bool {
    key_pressed(a, key).1 == EffectView::Submit(s)
}

proof fn searches_never_submit(a: AppView, key: KeyEvent, s: SubmissionView)
    requires
        a.searching || a.file_searching,
    ensures
        !key_submits(a, key, s),
{
    reveal(key_submits);
}

proof fn quick_adds_never_archive(a: AppView, key: KeyEvent, s: SubmissionView)
    requires
        !a.searching && !a.file_searching && a.quick_adding,
        key_submits(a, key, s),
    ensures
        !(s.request is Archive),
{
    reveal(key_submits);
}

proof fn notes_never_archive(a: AppView, key: KeyEvent, s: SubmissionView)
    requires
        !a.searching && !a.file_searching && !a.quick_adding && a.adding_note,
        key_submits(a, key, s),
    ensures
        !(s.request is Archive),
{
    reveal(key_submits);
}

proof fn moves_never_archive(a: AppView, key: KeyEvent, s: SubmissionView)
    requires
        in_move_mode(a),
        key_submits(a, key, s),
    ensures
        !(s.request is Archive),
{
    reveal(key_submits);
}

proof fn help_never_submits(a: AppView, key: KeyEvent, s: SubmissionView)
    requires
        a.show_help && in_list(AppView { show_help: false, ..a }),
    ensures
        !key_submits(a, key, s),
{
    reveal(key_submits);
}

proof fn prompts_never_archive(a: AppView, key: KeyEvent, s: SubmissionView)
    requires
        !in_list(a),
        key_submits(a, key, s),
    ensures
        !(s.request is Archive),
{
    if a.searching || a.file_searching {
        searches_never_submit(a, key, s);
    } else if a.quick_adding {
        quick_adds_never_archive(a, key, s);
    } else if a.adding_note {
        notes_never_archive(a, key, s);
    } else if a.moving {
        moves_never_archive(a, key, s);
    } else {
        help_never_submits(a, key, s);
    }
}

proof fn keys_without_a_character_never_submit(a: AppView, key: KeyEvent, s: SubmissionView)
    requires
        in_list(a),
        !(key.code is Char),
    ensures
        !key_submits(a, key, s),
{
    reveal(key_submits);
}

proof fn other_characters_never_archive(a: AppView, key: KeyEvent, s: SubmissionView)
    requires
        in_list(a),
        key.code is Char,
        key.code != KeyCode::Char('A'),
        key_submits(a, key, s),
    ensures
        !(s.request is Archive),
{
    reveal(key_submits);
}

proof fn other_keys_never_archive(a: AppView, key: KeyEvent, s: SubmissionView)
    requires
        in_list(a),
        key.code != KeyCode::Char('A'),
        key_submits(a, key, s),
    ensures
        !(s.request is Archive),
{
    if key.code is Char {
        other_characters_never_archive(a, key, s);
    } else {
        keys_without_a_character_never_submit(a, key, s);
    }
}

/// Whether `s` archives the note of the task under the cursor, no task of which is nested.
#[verifier::opaque]
pub open spec fn archives_a_flat_note(a: AppView, s: SubmissionView) -> bool {
    &&& s.request is Archive
    &&& is_flat(a.tasks, s.request->Archive_note_path)
    &&& exists|t: TaskView| #[trigger]
        on_task(a, t) && t.note_path == s.request->Archive_note_path
    &&& s.request->Archive_archive_path == a.archive_path
    &&& s.request->Archive_archive_path != s.request->Archive_note_path
}

proof fn submitted_archives_are_flat(a: AppView, s: SubmissionView)
    requires
        archive_submission(a) == Some(s),
    ensures
        archives_a_flat_note(a, s),
{
    reveal(archives_a_flat_note);
    let t = cursor_task(a)->0;
    assert(on_task(a, t));
    assert(has_subtasks(a.tasks, t.note_path) <==> !is_flat(a.tasks, t.note_path));
}

proof fn submitted_archives(a: AppView, key: KeyEvent, s: SubmissionView)
    requires
        in_list(a),
        key.code == KeyCode::Char('A'),
        key_submits(a, key, s),
    ensures
        archives_a_flat_note(a, s),
{
    reveal(key_submits);
    submitted_archives_are_flat(a, s);
}

/// Whatever key archives a note, every task of the index that is in that note has no indent, and the
/// note is that of the task under the cursor.
pub proof fn archives_are_of_flat_notes(a: AppView, key: KeyEvent, s: SubmissionView)
    requires
        key_submits(a, key, s),
        s.request is Archive,
    ensures
        archives_a_flat_note(a, s),
{
    if !in_list(a) {
        prompts_never_archive(a, key, s);
    } else if key.code != KeyCode::Char('A') {
        other_keys_never_archive(a, key, s);
    } else {
        submitted_archives(a, key, s);
    }
}

}
