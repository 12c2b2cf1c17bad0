//! What holds of the browser as a whole.

use vstd::prelude::*;
use crate::actions::{RequestView, SubmissionView, cancel_target, failure_notice, failure_reason,
    flip, in_progress_target, plain, toggle_target};
use crate::grouping::{GroupBy, StatusFilter, completed, next_axis, next_filter};
use crate::listing::contains_after_push;
use crate::model::{AppView, TRACK_CAP, archivable, archive_pressed, archive_submission,
    bullet_submission, closed_tasks, cursor_task, enqueued, file_search_cleared,
    file_search_finished, filter_cycled, group_cycled, has_subtasks, line_rank, move_submission,
    newest_failure, note_submission, overdue_toggled, polled, quick_add_submission, resolved,
    schedule_submission, search_cleared, search_finished, settled, today_toggled, undo_submission,
    unresolved, wanted_rows, with_tracked};
use crate::order::sorting_orders;
use crate::task::{ActionView, TaskView};
use crate::text::trimmed;

verus! {

// ---------------------------------------------------------------------------
// Cycles and flips.
// ---------------------------------------------------------------------------

/// The status filter is back after three steps, and not before.
pub proof fn filter_cycle_closes(f: StatusFilter)
    ensures
        next_filter(next_filter(next_filter(f))) == f,
        next_filter(f) != f,
        next_filter(next_filter(f)) != f,
{
}

/// The grouping axis is back after five steps, and not before.
pub proof fn axis_cycle_closes(g: GroupBy)
    ensures
        next_axis(next_axis(next_axis(next_axis(next_axis(g))))) == g,
        next_axis(g) != g,
        next_axis(next_axis(g)) != g,
        next_axis(next_axis(next_axis(g))) != g,
        next_axis(next_axis(next_axis(next_axis(g)))) != g,
{
}

/// Every checkbox gesture changes the character it finds. The done-toggle writes open or done only;
/// cancelling and starting, done twice, reopen.
pub proof fn flips_change(raw: Seq<char>)
    ensures
        toggle_target(raw) != raw,
        cancel_target(raw) != raw,
        in_progress_target(raw) != raw,
        toggle_target(raw) == " "@ || toggle_target(raw) == "x"@,
        cancel_target(cancel_target(raw)) == (if raw == "-"@ {
            "-"@
        } else {
            " "@
        }),
        in_progress_target(in_progress_target(raw)) == (if raw == "/"@ {
            "/"@
        } else {
            " "@
        }),
{
    reveal_strlit(" ");
    reveal_strlit("x");
    reveal_strlit("-");
    reveal_strlit("/");
    assert(" "@[0] == ' ');
    assert("x"@[0] == 'x');
    assert("-"@[0] == '-');
    assert("/"@[0] == '/');
}

/// Flipping an open task to done and back gives the open task.
pub proof fn toggle_returns(raw: Seq<char>)
    requires
        raw == " "@ || raw == "x"@,
    ensures
        toggle_target(toggle_target(raw)) == raw,
{
    flips_change(raw);
    flips_change(toggle_target(raw));
}

// ---------------------------------------------------------------------------
// Taking back.
// ---------------------------------------------------------------------------

/// Once a checkbox flip is in the queue, taking it back asks for the reverse flip of the same task,
/// whatever is under the cursor by then; and taking back is not itself remembered.
pub proof fn undo_reverses_a_flip(a: AppView, t: TaskView, new_char: Seq<char>, id: i64, undo_id: i64)
    ensures
        ({
            let after = settled(a, flip(t, new_char), Some(id));
            let back = RequestView::Checkbox {
                task_id: t.id,
                note_path: t.note_path,
                line_number: t.line_number,
                expected_char: new_char,
                new_char: t.raw_checkbox_char,
            };
            &&& undo_submission(after) == Some(plain(back))
            &&& settled(after, plain(back), Some(undo_id)).last_action == after.last_action
        }),
{
}

/// Once a bullet toggle is in the queue, taking it back toggles the same line again; once a quick-add
/// is, taking it back removes the same text from the same inbox.
pub proof fn undo_takes_back_bullets_and_adds(a: AppView, id: i64)
    ensures
        bullet_submission(a) matches Some(s) ==> undo_submission(settled(a, s, Some(id))) == Some(
            plain(s.request),
        ),
        quick_add_submission(a) matches Some(s) ==> undo_submission(settled(a, s, Some(id))) == Some(
            plain(
                RequestView::QuickAddUndo {
                    inbox_path: a.inbox_path,
                    text: trimmed(a.quick_add_query),
                },
            ),
        ),
{
}

/// Marks, notes, moves and archives cannot be taken back: what was remembered before them still is.
pub proof fn other_writes_are_not_remembered(a: AppView, id: i64)
    ensures
        schedule_submission(a) matches Some(s) ==> settled(a, s, Some(id)).last_action
            == a.last_action,
        note_submission(a) matches Some(s) ==> settled(a, s, Some(id)).last_action == a.last_action,
        move_submission(a) matches Some(s) ==> settled(a, s, Some(id)).last_action == a.last_action,
        archive_submission(a) matches Some(s) ==> settled(a, s, Some(id)).last_action
            == a.last_action,
{
}

/// A submission that could not be put into the queue changes nothing.
pub proof fn failed_enqueue_changes_nothing(a: AppView, s: SubmissionView)
    ensures
        settled(a, s, None) == a,
        enqueued(a, None) == a,
{
}

/// A submission in the queue is tracked as the newest, clears the notice unless it brings one, and
/// leaves everything but the tracking, the notice and the record of the last write alone.
pub proof fn settling_is_local(a: AppView, s: SubmissionView, id: i64)
    ensures
        ({
            let after = settled(a, s, Some(id));
            &&& after.pending.last() == id
            &&& after.notice == s.confirmation
            &&& after == (AppView {
                pending: after.pending,
                notice: after.notice,
                last_action: after.last_action,
                ..a
            })
        }),
{
}

/// No more actions are tracked than the cap allows, however many are put into the queue; the newest
/// are kept, in their order.
pub proof fn tracking_is_bounded(pending: Seq<i64>, id: i64)
    ensures
        with_tracked(pending, id).len() <= TRACK_CAP,
        with_tracked(pending, id).last() == id,
        with_tracked(pending, id) == pending.push(id).skip(
            pending.push(id).len() - with_tracked(pending, id).len(),
        ),
{
    assert(pending.push(id).skip(0) =~= pending.push(id));
}

// ---------------------------------------------------------------------------
// Resolutions.
// ---------------------------------------------------------------------------

proof fn unresolved_holds(pending: Seq<i64>, recent: Seq<ActionView>, id: i64)
    ensures
        unresolved(pending, recent).contains(id) <==> pending.contains(id) && !resolved(recent, id),
        unresolved(pending, recent).len() <= pending.len(),
    decreases pending.len(),
{
    if pending.len() > 0 {
        let front = pending.drop_last();
        unresolved_holds(front, recent, id);
        let u = unresolved(front, recent);
        if pending.contains(id) {
            let i = choose|i: int| 0 <= i < pending.len() && pending[i] == id;
            if i < front.len() {
                assert(front[i] == id);
            }
        }
        if front.contains(id) {
            let i = choose|i: int| 0 <= i < front.len() && front[i] == id;
            assert(pending[i] == id);
        }
        assert(pending[pending.len() - 1] == pending.last());
        if !resolved(recent, pending.last()) {
            let r = u.push(pending.last());
            assert(r[u.len() as int] == pending.last());
            if u.contains(id) {
                let i = choose|i: int| 0 <= i < u.len() && u[i] == id;
                assert(r[i] == id);
            }
            if r.contains(id) {
                let i = choose|i: int| 0 <= i < r.len() && r[i] == id;
                if i < u.len() {
                    assert(u[i] == id);
                }
            }
        }
    }
}

/// An action stays tracked exactly while it is not resolved.
pub proof fn pending_stays_until_resolved(a: AppView, recent: Seq<ActionView>, id: i64)
    ensures
        polled(a, recent).pending.contains(id) <==> a.pending.contains(id) && !resolved(recent, id),
        polled(a, recent).pending.len() <= a.pending.len(),
{
    unresolved_holds(a.pending, recent, id);
}

proof fn failure_is_ours(pending: Seq<i64>, recent: Seq<ActionView>)
    ensures
        match newest_failure(pending, recent) {
            Some(f) => exists|i: int|
                0 <= i < recent.len() && f == #[trigger] recent[i] && pending.contains(f.id)
                    && f.state == "failed"@ && forall|j: int|
                    0 <= j < i ==> !(pending.contains((#[trigger] recent[j]).id)
                        && recent[j].state == "failed"@),
            None => forall|j: int|
                0 <= j < recent.len() ==> !(pending.contains((#[trigger] recent[j]).id)
                    && recent[j].state == "failed"@),
        },
    decreases recent.len(),
{
    if recent.len() > 0 {
        if pending.contains(recent[0].id) && recent[0].state == "failed"@ {
            assert(recent[0] == recent[0]);
        } else {
            let rest = recent.drop_first();
            failure_is_ours(pending, rest);
            match newest_failure(pending, rest) {
                Some(f) => {
                    let i = choose|i: int|
                        0 <= i < rest.len() && f == #[trigger] rest[i] && pending.contains(f.id)
                            && f.state == "failed"@ && forall|j: int|
                            0 <= j < i ==> !(pending.contains((#[trigger] rest[j]).id)
                                && rest[j].state == "failed"@);
                    assert(recent[i + 1] == f);
                    assert forall|j: int| 0 <= j < i + 1 implies !(pending.contains(
                        (#[trigger] recent[j]).id,
                    ) && recent[j].state == "failed"@) by {
                        if j > 0 {
                            assert(recent[j] == rest[j - 1]);
                        }
                    }
                },
                None => {
                    assert forall|j: int| 0 <= j < recent.len() implies !(pending.contains(
                        (#[trigger] recent[j]).id,
                    ) && recent[j].state == "failed"@) by {
                        if j > 0 {
                            assert(recent[j] == rest[j - 1]);
                        }
                    }
                },
            }
        }
    }
}

/// A notice is told exactly where an action of this session failed, and it is that of the newest
/// such failure; success is silent, and so are the actions of others.
pub proof fn only_own_failures_are_told(a: AppView, recent: Seq<ActionView>)
    ensures
        match newest_failure(a.pending, recent) {
            Some(f) => polled(a, recent).notice == Some(failure_notice(f)) && exists|i: int|
                0 <= i < recent.len() && f == #[trigger] recent[i] && a.pending.contains(f.id)
                    && f.state == "failed"@ && forall|j: int|
                    0 <= j < i ==> !(a.pending.contains((#[trigger] recent[j]).id)
                        && recent[j].state == "failed"@),
            None => polled(a, recent).notice == a.notice && forall|j: int|
                0 <= j < recent.len() ==> !(a.pending.contains((#[trigger] recent[j]).id)
                    && recent[j].state == "failed"@),
        },
{
    failure_is_ours(a.pending, recent);
}

/// A session without tracked actions is told nothing.
pub proof fn nothing_tracked_nothing_told(a: AppView, recent: Seq<ActionView>)
    requires
        a.pending.len() == 0,
    ensures
        polled(a, recent) == a,
{
    failure_is_ours(a.pending, recent);
    match newest_failure(a.pending, recent) {
        Some(f) => {
            assert(a.pending.contains(f.id));
        },
        None => {},
    }
    assert(unresolved(a.pending, recent) =~= a.pending);
}

// ---------------------------------------------------------------------------
// The archive.
// ---------------------------------------------------------------------------

/// Whether the archive takes a task of `note`: it is done or cancelled, and not nested.
pub open spec fn is_archived(t: TaskView, note: Seq<char>) -> bool {
    t.note_path == note && t.indent == 0 && completed(t.status, t.raw_checkbox_char)
}

proof fn closed_hold(tasks: Seq<TaskView>, note: Seq<char>, p: (i64, usize))
    ensures
        closed_tasks(tasks, note).contains(p) <==> exists|i: int|
            0 <= i < tasks.len() && is_archived(#[trigger] tasks[i], note) && p == (
                tasks[i].id,
                tasks[i].line_number,
            ),
    decreases tasks.len(),
{
    if tasks.len() > 0 {
        let front = tasks.drop_last();
        let t = tasks.last();
        closed_hold(front, note, p);
        contains_after_push(closed_tasks(front, note), (t.id, t.line_number), p);
        if closed_tasks(front, note).contains(p) {
            let i = choose|i: int|
                0 <= i < front.len() && is_archived(#[trigger] front[i], note) && p == (
                    front[i].id,
                    front[i].line_number,
                );
            assert(tasks[i] == front[i]);
        }
        if is_archived(t, note) && p == (t.id, t.line_number) {
            assert(tasks[tasks.len() - 1] == t);
        }
        if exists|i: int|
            0 <= i < tasks.len() && is_archived(#[trigger] tasks[i], note) && p == (
                tasks[i].id,
                tasks[i].line_number,
            ) {
            let i = choose|i: int|
                0 <= i < tasks.len() && is_archived(#[trigger] tasks[i], note) && p == (
                    tasks[i].id,
                    tasks[i].line_number,
                );
            if i < front.len() {
                assert(front[i] == tasks[i]);
            }
        }
    }
}

/// The archive takes exactly the closed, unnested tasks of a note, and takes them top to bottom.
pub proof fn archive_takes_the_closed(tasks: Seq<TaskView>, note: Seq<char>)
    ensures
        forall|i: int, j: int|
            0 <= i <= j < archivable(tasks, note).len() ==> (#[trigger] archivable(tasks, note)[i]).1
                <= (#[trigger] archivable(tasks, note)[j]).1,
        forall|p: (i64, usize)|
            archivable(tasks, note).contains(p) <==> exists|i: int|
                0 <= i < tasks.len() && is_archived(#[trigger] tasks[i], note) && p == (
                    tasks[i].id,
                    tasks[i].line_number,
                ),
{
    broadcast use vstd::seq_lib::group_to_multiset_ensures;

    let found = closed_tasks(tasks, note);
    let sorted = archivable(tasks, note);
    let rank = line_rank();
    sorting_orders(found, rank);
    assert forall|i: int, j: int| 0 <= i <= j < sorted.len() implies (#[trigger] sorted[i]).1 <= (
    #[trigger] sorted[j]).1 by {
        assert(rank(sorted[i]) <= rank(sorted[j]));
    }
    assert forall|p: (i64, usize)| sorted.contains(p) <==> exists|i: int|
        0 <= i < tasks.len() && is_archived(#[trigger] tasks[i], note) && p == (
            tasks[i].id,
            tasks[i].line_number,
        ) by {
        closed_hold(tasks, note, p);
        assert(sorted.contains(p) <==> sorted.to_multiset().count(p) > 0);
        assert(found.contains(p) <==> found.to_multiset().count(p) > 0);
    }
}

/// A note with nested tasks is never archived from, nor the archive itself, whatever is filtered;
/// and what is archived is never taken from another note.
pub proof fn archive_is_refused_where_it_would_harm(a: AppView)
    ensures
        archive_submission(a) matches Some(s) ==> s.request matches RequestView::Archive {
            note_path,
            archive_path,
            lines,
            ..
        } && {
            &&& cursor_task(a) matches Some(t) && t.note_path == note_path
            &&& !has_subtasks(a.tasks, note_path)
            &&& archive_path != note_path
            &&& lines.len() > 0
        },
        archive_submission(a) is Some ==> archive_pressed(a) == a,
{
}

// ---------------------------------------------------------------------------
// Failures.
// ---------------------------------------------------------------------------

/// The wording of a failure is never empty.
pub proof fn reasons_are_told(error: Seq<char>)
    ensures
        failure_reason(error).len() > 0,
{
    reveal_strlit("this note changed in Obsidian");
    reveal_strlit("this");
    reveal_strlit("the checkbox line changed");
    reveal_strlit("the request was not valid");
    reveal_strlit("the done date on this line couldn't be parsed");
    reveal_strlit("the cancelled date on this line couldn't be parsed");
    reveal_strlit("the scheduled date on this line couldn't be parsed");
    reveal_strlit("this line has no checkbox or bullet to toggle");
    reveal_strlit("the completed tasks changed");
    reveal_strlit("it could not be applied");
}

// ---------------------------------------------------------------------------
// Views.
// ---------------------------------------------------------------------------

/// Toggling a view twice, or cycling once round, gives the list back.
pub proof fn toggles_return(a: AppView)
    ensures
        today_toggled(today_toggled(a)).rows == wanted_rows(a),
        overdue_toggled(overdue_toggled(a)).rows == wanted_rows(a),
        filter_cycled(filter_cycled(filter_cycled(a))).rows == wanted_rows(a),
        group_cycled(group_cycled(group_cycled(group_cycled(group_cycled(a))))).rows == wanted_rows(
            a,
        ),
{
    filter_cycle_closes(a.filter);
    axis_cycle_closes(a.group_by);
}

/// Changing the axis keeps what was unfolded, so coming back to it finds it as it was left.
pub proof fn axes_remember_folds(a: AppView)
    ensures
        group_cycled(a).expanded == a.expanded,
{
}

/// Clearing a search shows what the list shows without it.
pub proof fn clearing_a_search_restores(a: AppView)
    requires
        a.rows == wanted_rows(a),
    ensures
        search_cleared(a).search_query.len() == 0,
        !search_cleared(a).searching,
        search_cleared(a).rows == wanted_rows(AppView { search_query: seq![], ..a }),
        file_search_cleared(a).file_query.len() == 0,
        !file_search_cleared(a).file_searching,
        file_search_cleared(a).rows == wanted_rows(AppView { file_query: seq![], ..a }),
{
    if a.search_query.len() == 0 {
        assert(a.search_query =~= Seq::<char>::empty());
    }
    if a.file_query.len() == 0 {
        assert(a.file_query =~= Seq::<char>::empty());
    }
}

/// Leaving a search prompt keeps its query applied.
pub proof fn finishing_a_search_keeps_it(a: AppView)
    ensures
        search_finished(a).search_query == a.search_query,
        search_finished(a).rows == a.rows,
        file_search_finished(a).file_query == a.file_query,
        file_search_finished(a).rows == a.rows,
{
}

}
