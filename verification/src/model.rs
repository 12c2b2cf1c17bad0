//! What the browser's state is, and what every gesture makes of it.

use vstd::prelude::*;
use crate::actions::{LastView, LinkView, RequestView, SubmissionView, cancel_target,
    failure_notice, flip, in_progress_target, plain, toggle_target, undo_request};
use crate::grouping::{FilterView, GroupBy, StatusFilter, completed, next_axis, next_filter};
use crate::listing::{RowView, first_row, is_header_row, is_task_row, reconciled, row_note,
    view_rows};
use crate::order::stable_sorted;
use crate::paths::link_text;
use crate::task::{ActionView, TaskView};
use crate::text::{digits, trimmed};
use crate::theme::{LayoutPrefs, Theme};

verus! {

/// How many unresolved actions are tracked at most.
pub const TRACK_CAP: usize = 64;

/// What the state of the browser is.
#[verifier::ext_equal]
pub struct AppView {
    pub tasks: Seq<TaskView>,
    pub rows: Seq<RowView>,
    pub row: Option<nat>,
    pub filter: StatusFilter,
    pub expanded: Set<Seq<char>>,
    pub pending: Seq<i64>,
    pub notice: Option<Seq<char>>,
    pub ctx_note_path: Option<Seq<char>>,
    pub ctx_content: Option<Seq<char>>,
    pub pane_visible: bool,
    pub ctx_scroll: int,
    pub today_only: bool,
    pub today: Seq<char>,
    pub search_query: Seq<char>,
    pub searching: bool,
    pub file_query: Seq<char>,
    pub file_searching: bool,
    pub overdue_only: bool,
    pub quick_adding: bool,
    pub quick_add_query: Seq<char>,
    pub adding_note: bool,
    pub note_query: Seq<char>,
    pub moving: bool,
    pub move_task_id: i64,
    pub move_initial_ids: Seq<i64>,
    pub inbox_path: Seq<char>,
    pub archive_path: Seq<char>,
    pub vault_name: Option<Seq<char>>,
    pub use_advanced_uri: bool,
    pub last_action: Option<LastView>,
    pub group_by: GroupBy,
    pub show_help: bool,
    pub theme: Theme,
    pub layout: LayoutPrefs,
}

// ---------------------------------------------------------------------------
// The cursor and the rows.
// ---------------------------------------------------------------------------

/// The row under the cursor.
pub open spec fn cursor_row(a: AppView) -> Option<RowView> {
    match a.row {
        Some(i) => if i < a.rows.len() {
            Some(a.rows[i as int])
        } else {
            None
        },
        None => None,
    }
}

/// The task under the cursor; a header has none.
pub open spec fn cursor_task(a: AppView) -> Option<TaskView> {
    match cursor_row(a) {
        Some(RowView::Task { task }) => Some(task),
        _ => None,
    }
}

/// The note of the row under the cursor: the note of a task, the key of a header.
pub open spec fn cursor_note(a: AppView) -> Option<Seq<char>> {
    match cursor_row(a) {
        Some(r) => Some(row_note(r)),
        None => None,
    }
}

/// The filters that are active.
pub open spec fn active_filters(a: AppView) -> FilterView {
    FilterView {
        status: a.filter,
        today_only: a.today_only,
        today: a.today,
        search: a.search_query,
        file: a.file_query,
        overdue_only: a.overdue_only,
    }
}

/// The rows the state asks for.
pub open spec fn wanted_rows(a: AppView) -> Seq<RowView> {
    view_rows(a.tasks, active_filters(a), a.expanded, a.group_by)
}

/// The rows rebuilt, the cursor kept.
pub open spec fn rebuilt(a: AppView) -> AppView {
    let task_id = match cursor_task(a) {
        Some(t) => Some(t.id),
        None => None,
    };
    AppView {
        rows: wanted_rows(a),
        row: reconciled(wanted_rows(a), cursor_note(a), task_id, a.row),
        ..a
    }
}

/// The rows rebuilt and the context pane centred again.
pub open spec fn recentred(a: AppView) -> AppView {
    AppView { ctx_scroll: 0, ..rebuilt(a) }
}

/// `n`, moved to the nearest of `lo..=hi`.
pub open spec fn clamped(n: int, lo: int, hi: int) -> int {
    if n < lo {
        lo
    } else if n > hi {
        hi
    } else {
        n
    }
}

/// The cursor moved by `delta` rows, as far as the list goes.
pub open spec fn moved_cursor(a: AppView, delta: int) -> AppView {
    let from: int = match a.row {
        Some(i) => i as int,
        None => 0,
    };
    if a.rows.len() == 0 {
        a
    } else {
        AppView {
            row: Some(clamped(from + delta, 0, a.rows.len() - 1) as nat),
            ctx_scroll: 0,
            ..a
        }
    }
}

// ---------------------------------------------------------------------------
// Filters and groups.
// ---------------------------------------------------------------------------

/// The status filter stepped on.
pub open spec fn filter_cycled(a: AppView) -> AppView {
    recentred(AppView { filter: next_filter(a.filter), ..a })
}

/// The grouping axis stepped on; what is unfolded stays so.
pub open spec fn group_cycled(a: AppView) -> AppView {
    recentred(AppView { group_by: next_axis(a.group_by), ..a })
}

/// The Today view switched on or off.
pub open spec fn today_toggled(a: AppView) -> AppView {
    recentred(AppView { today_only: !a.today_only, ..a })
}

/// The overdue view switched on or off.
pub open spec fn overdue_toggled(a: AppView) -> AppView {
    recentred(AppView { overdue_only: !a.overdue_only, ..a })
}

/// Which way a key folds a group.
#[derive(Clone, Copy, PartialEq, Eq, Debug, Structural)]
pub enum ToggleMode {
    /// Fold or unfold.
    Toggle,
    /// Unfold.
    Expand,
    /// Fold.
    Collapse,
}

/// The key of the nearest header above position `i`.
pub open spec fn header_above(rows: Seq<RowView>, i: nat) -> Option<Seq<char>>
    decreases i,
{
    if i == 0 || i > rows.len() {
        None
    } else {
        match rows[i - 1] {
            RowView::Header { group_key, .. } => Some(group_key),
            RowView::Task { .. } => header_above(rows, (i - 1) as nat),
        }
    }
}

/// The group a fold key speaks of, and whether it is to be unfolded. On a task only folding means
/// anything: it folds the group the task stands in.
pub open spec fn fold_target(a: AppView, mode: ToggleMode) -> Option<(Seq<char>, bool)> {
    match cursor_row(a) {
        Some(RowView::Header { group_key, .. }) => Some(
            (
                group_key,
                match mode {
                    ToggleMode::Toggle => !a.expanded.contains(group_key),
                    ToggleMode::Expand => true,
                    ToggleMode::Collapse => false,
                },
            ),
        ),
        Some(RowView::Task { .. }) => match (mode, header_above(a.rows, a.row->0)) {
            (ToggleMode::Collapse, Some(key)) => Some((key, false)),
            _ => None,
        },
        None => None,
    }
}

/// The cursor put on the header of the group `key`, where it has one.
pub open spec fn on_header(a: AppView, key: Seq<char>) -> AppView {
    match first_row(a.rows, is_header_row(key)) {
        Some(i) => AppView { row: Some(i), ..a },
        None => a,
    }
}

/// The group a fold key speaks of folded or unfolded, and the cursor on its header; without such a
/// group nothing changes.
pub open spec fn folded(a: AppView, mode: ToggleMode) -> AppView {
    match fold_target(a, mode) {
        Some((key, true)) => on_header(
            recentred(AppView { expanded: a.expanded.insert(key), ..a }),
            key,
        ),
        Some((key, false)) => on_header(
            recentred(AppView { expanded: a.expanded.remove(key), ..a }),
            key,
        ),
        None => a,
    }
}

/// The keys of the headers among `rows`.
pub open spec fn header_keys(rows: Seq<RowView>) -> Set<Seq<char>>
    decreases rows.len(),
{
    if rows.len() == 0 {
        Set::empty()
    } else {
        match rows.last() {
            RowView::Header { group_key, .. } => header_keys(rows.drop_last()).insert(group_key),
            RowView::Task { .. } => header_keys(rows.drop_last()),
        }
    }
}

/// Every group that has a header unfolded.
pub open spec fn all_expanded(a: AppView) -> AppView {
    recentred(AppView { expanded: a.expanded.union(header_keys(a.rows)), ..a })
}

/// The key of the group the cursor is in: that of the header under it, or of the one above its task.
pub open spec fn cursor_group(a: AppView) -> Option<Seq<char>> {
    match cursor_row(a) {
        Some(RowView::Header { group_key, .. }) => Some(group_key),
        Some(RowView::Task { .. }) => header_above(a.rows, a.row->0),
        None => None,
    }
}

/// Every group folded, and the cursor on the header of the group it was in.
pub open spec fn all_collapsed(a: AppView) -> AppView {
    let after = recentred(AppView { expanded: Set::empty(), ..a });
    match cursor_group(a) {
        Some(key) => on_header(after, key),
        None => after,
    }
}

// ---------------------------------------------------------------------------
// Prompts.
// ---------------------------------------------------------------------------

/// `s` without its last character.
pub open spec fn shortened(s: Seq<char>) -> Seq<char> {
    if s.len() > 0 {
        s.drop_last()
    } else {
        s
    }
}

/// The text-search prompt opened, with the query it had.
pub open spec fn search_started(a: AppView) -> AppView {
    AppView { file_searching: false, searching: true, ..a }
}

/// The text query changed, and the list with it.
pub open spec fn search_typed(a: AppView, query: Seq<char>) -> AppView {
    rebuilt(AppView { search_query: query, ..a })
}

/// The text-search prompt left, its query kept.
pub open spec fn search_finished(a: AppView) -> AppView {
    AppView { searching: false, ..a }
}

/// The text-search prompt left and its query cleared.
pub open spec fn search_cleared(a: AppView) -> AppView {
    if a.search_query.len() == 0 {
        search_finished(a)
    } else {
        search_typed(search_finished(a), seq![])
    }
}

/// The file-search prompt opened, with the query it had.
pub open spec fn file_search_started(a: AppView) -> AppView {
    AppView { searching: false, file_searching: true, ..a }
}

/// The file query changed, and the list with it.
pub open spec fn file_search_typed(a: AppView, query: Seq<char>) -> AppView {
    rebuilt(AppView { file_query: query, ..a })
}

/// The file-search prompt left, its query kept.
pub open spec fn file_search_finished(a: AppView) -> AppView {
    AppView { file_searching: false, ..a }
}

/// The file-search prompt left and its query cleared.
pub open spec fn file_search_cleared(a: AppView) -> AppView {
    if a.file_query.len() == 0 {
        file_search_finished(a)
    } else {
        file_search_typed(file_search_finished(a), seq![])
    }
}

/// The quick-add prompt opened, empty.
pub open spec fn quick_add_started(a: AppView) -> AppView {
    AppView {
        searching: false,
        file_searching: false,
        quick_adding: true,
        quick_add_query: seq![],
        ..a
    }
}

/// The text at the quick-add prompt changed.
pub open spec fn quick_add_typed(a: AppView, query: Seq<char>) -> AppView {
    AppView { quick_add_query: query, ..a }
}

/// The quick-add prompt left and emptied.
pub open spec fn quick_add_closed(a: AppView) -> AppView {
    AppView { quick_adding: false, quick_add_query: seq![], ..a }
}

/// What entering the quick-add prompt submits: its trimmed text, for the inbox. An empty text
/// submits nothing.
pub open spec fn quick_add_submission(a: AppView) -> Option<SubmissionView> {
    let text = trimmed(a.quick_add_query);
    if text.len() == 0 {
        None
    } else {
        Some(
            SubmissionView {
                request: RequestView::QuickAdd { inbox_path: a.inbox_path, text },
                undo: Some(LastView::QuickAdd { inbox_path: a.inbox_path, text }),
                confirmation: None,
            },
        )
    }
}

/// The note prompt opened, empty, where a task is under the cursor.
pub open spec fn note_started(a: AppView) -> AppView {
    if cursor_task(a) is None {
        a
    } else {
        AppView {
            searching: false,
            file_searching: false,
            quick_adding: false,
            adding_note: true,
            note_query: seq![],
            ..a
        }
    }
}

/// The text at the note prompt changed.
pub open spec fn note_typed(a: AppView, query: Seq<char>) -> AppView {
    AppView { note_query: query, ..a }
}

/// The note prompt left and emptied.
pub open spec fn note_closed(a: AppView) -> AppView {
    AppView { adding_note: false, note_query: seq![], ..a }
}

/// What entering the note prompt submits: its trimmed text, for the task under the cursor. An empty
/// text submits nothing.
pub open spec fn note_submission(a: AppView) -> Option<SubmissionView> {
    let text = trimmed(a.note_query);
    match cursor_task(a) {
        Some(t) => if text.len() == 0 {
            None
        } else {
            Some(
                plain(
                    RequestView::AddNote {
                        task_id: t.id,
                        note_path: t.note_path,
                        line_number: t.line_number,
                        text,
                    },
                ),
            )
        },
        None => None,
    }
}

// ---------------------------------------------------------------------------
// Move mode.
// ---------------------------------------------------------------------------

/// The first row of the unbroken run of tasks that ends before `i`.
pub open spec fn run_start(rows: Seq<RowView>, i: nat) -> nat
    decreases i,
{
    if 0 < i && i <= rows.len() && rows[i - 1] is Task {
        run_start(rows, (i - 1) as nat)
    } else {
        i
    }
}

/// The row after the unbroken run of tasks that begins at `i`.
pub open spec fn run_end(rows: Seq<RowView>, i: nat) -> nat
    decreases rows.len() - i,
{
    if i < rows.len() && rows[i as int] is Task {
        run_end(rows, i + 1)
    } else {
        i
    }
}

/// The unbroken run of tasks around the cursor: its first row, and the row after its last. None
/// where the cursor is not on a task.
pub open spec fn cursor_run(a: AppView) -> Option<(nat, nat)> {
    if cursor_task(a) is Some {
        Some((run_start(a.rows, a.row->0), run_end(a.rows, a.row->0)))
    } else {
        None
    }
}

/// The rows of the run around the cursor.
pub open spec fn run_rows(a: AppView) -> Seq<RowView> {
    match cursor_run(a) {
        Some((s, e)) => a.rows.subrange(s as int, e as int),
        None => seq![],
    }
}

/// The id of a task row.
pub open spec fn row_id(r: RowView) -> i64 {
    match r {
        RowView::Task { task } => task.id,
        RowView::Header { .. } => 0,
    }
}

/// The line of a task row.
pub open spec fn row_line(r: RowView) -> usize {
    match r {
        RowView::Task { task } => task.line_number,
        RowView::Header { .. } => 0,
    }
}

/// The ids of task rows.
pub open spec fn row_ids(rows: Seq<RowView>) -> Seq<i64> {
    rows.map_values(|r: RowView| row_id(r))
}

/// The lines of task rows.
pub open spec fn row_lines(rows: Seq<RowView>) -> Seq<usize> {
    rows.map_values(|r: RowView| row_line(r))
}

/// Whether all rows belong to one note.
pub open spec fn one_note(rows: Seq<RowView>) -> bool {
    forall|i: int| 0 <= i < rows.len() ==> row_note(#[trigger] rows[i]) == row_note(rows[0])
}

/// Whether a task of `note` is nested under another.
pub open spec fn has_subtasks(tasks: Seq<TaskView>, note: Seq<char>) -> bool {
    exists|i: int|
        0 <= i < tasks.len() && (#[trigger] tasks[i]).note_path == note && tasks[i].indent != 0
}

/// Move mode entered on the task under the cursor. It is refused with a notice where the cursor is not
/// on a task, the run around it spans several notes, or its note has nested tasks.
pub open spec fn move_started(a: AppView) -> AppView {
    let run = run_rows(a);
    match cursor_task(a) {
        Some(t) => if !one_note(run) {
            AppView {
                notice: Some("Reorder works within a single note (use folder+note grouping)"@),
                ..a
            }
        } else if has_subtasks(a.tasks, row_note(run[0])) {
            AppView {
                notice: Some(
                    "Reorder supports flat task lists only (v1); this note has subtasks"@,
                ),
                ..a
            }
        } else {
            AppView { move_task_id: t.id, move_initial_ids: row_ids(run), moving: true, ..a }
        },
        None => AppView { notice: Some("Reorder needs a task under the cursor"@), ..a },
    }
}

/// `s` with the elements at `i` and `j` exchanged.
pub open spec fn swapped<A>(s: Seq<A>, i: int, j: int) -> Seq<A> {
    s.update(i, s[j]).update(j, s[i])
}

/// The task under the cursor exchanged with the row `delta` rows away, within its run.
pub open spec fn task_moved(a: AppView, delta: int) -> AppView {
    match cursor_run(a) {
        Some((s, e)) => {
            let to = a.row->0 + delta;
            if s <= to < e {
                AppView {
                    rows: swapped(a.rows, a.row->0 as int, to),
                    row: Some(to as nat),
                    ctx_scroll: 0,
                    ..a
                }
            } else {
                a
            }
        },
        None => a,
    }
}

/// Move mode left, the rows as they are.
pub open spec fn move_left(a: AppView) -> AppView {
    AppView { moving: false, move_initial_ids: seq![], ..a }
}

/// What placing the moved task submits: the lines of the run in their new order. An order that did
/// not change submits nothing.
pub open spec fn move_submission(a: AppView) -> Option<SubmissionView> {
    let run = run_rows(a);
    if cursor_run(a) is None || row_ids(run) == a.move_initial_ids {
        None
    } else {
        Some(
            plain(
                RequestView::Reorder {
                    task_id: a.move_task_id,
                    note_path: row_note(run[0]),
                    line_number: match first_row(run, is_task_row(a.move_task_id)) {
                        Some(i) => row_line(run[i as int]),
                        None => row_line(run[0]),
                    },
                    lines: row_lines(run),
                },
            ),
        )
    }
}

/// The position of `id` in `ids`, or their number where it is not among them.
pub open spec fn id_rank(ids: Seq<i64>, id: i64) -> nat
    decreases ids.len(),
{
    if ids.len() == 0 || ids[0] == id {
        0
    } else {
        1 + id_rank(ids.drop_first(), id)
    }
}

/// The position of a row's id in `ids`.
pub open spec fn row_rank(ids: Seq<i64>) -> spec_fn(RowView) -> int {
    |r: RowView| id_rank(ids, row_id(r)) as int
}

/// The run around the cursor put back into the order of `a.move_initial_ids`.
pub open spec fn restored_rows(a: AppView) -> Seq<RowView> {
    match cursor_run(a) {
        Some((s, e)) => a.rows.take(s as int) + stable_sorted(
            run_rows(a),
            row_rank(a.move_initial_ids),
        ) + a.rows.skip(e as int),
        None => a.rows,
    }
}

/// Move mode left with the rows put back, and the cursor on the task that was moved.
pub open spec fn move_cancelled(a: AppView) -> AppView {
    let rows = restored_rows(a);
    AppView {
        rows,
        row: if cursor_run(a) is None {
            a.row
        } else {
            match first_row(rows, is_task_row(a.move_task_id)) {
                Some(i) => Some(i),
                None => a.row,
            }
        },
        ctx_scroll: 0,
        ..move_left(a)
    }
}

// ---------------------------------------------------------------------------
// Writes.
// ---------------------------------------------------------------------------

/// The tracked actions once `id` is among them; beyond the cap the oldest are dropped.
pub open spec fn with_tracked(pending: Seq<i64>, id: i64) -> Seq<i64> {
    let p = pending.push(id);
    if p.len() > TRACK_CAP {
        p.skip(p.len() - TRACK_CAP)
    } else {
        p
    }
}

/// An enqueued action tracked and the notice cleared; a failed enqueue changes nothing.
pub open spec fn enqueued(a: AppView, result: Option<i64>) -> AppView {
    match result {
        Some(id) => AppView { notice: None, pending: with_tracked(a.pending, id), ..a },
        None => a,
    }
}

/// A submission settled: where it was enqueued, it is tracked, its undo is remembered and its
/// confirmation shown. A failed one changes nothing.
pub open spec fn settled(a: AppView, s: SubmissionView, result: Option<i64>) -> AppView {
    let t = enqueued(a, result);
    match result {
        Some(_) => AppView {
            last_action: match s.undo {
                Some(u) => Some(u),
                None => a.last_action,
            },
            notice: s.confirmation,
            ..t
        },
        None => a,
    }
}

/// The done-toggle of the task under the cursor.
pub open spec fn toggle_submission(a: AppView) -> Option<SubmissionView> {
    match cursor_task(a) {
        Some(t) => Some(flip(t, toggle_target(t.raw_checkbox_char))),
        None => None,
    }
}

/// The cancelling, or reopening, of the task under the cursor.
pub open spec fn cancel_submission(a: AppView) -> Option<SubmissionView> {
    match cursor_task(a) {
        Some(t) => Some(flip(t, cancel_target(t.raw_checkbox_char))),
        None => None,
    }
}

/// The starting, or reopening, of the task under the cursor.
pub open spec fn in_progress_submission(a: AppView) -> Option<SubmissionView> {
    match cursor_task(a) {
        Some(t) => Some(flip(t, in_progress_target(t.raw_checkbox_char))),
        None => None,
    }
}

/// The bullet toggle of the task under the cursor, which can be taken back.
pub open spec fn bullet_submission(a: AppView) -> Option<SubmissionView> {
    match cursor_task(a) {
        Some(t) => Some(
            SubmissionView {
                request: RequestView::ToggleBullet {
                    task_id: t.id,
                    note_path: t.note_path,
                    line_number: t.line_number,
                },
                undo: Some(
                    LastView::BulletToggle {
                        task_id: t.id,
                        note_path: t.note_path,
                        line_number: t.line_number,
                    },
                ),
                confirmation: None,
            },
        ),
        None => None,
    }
}

/// A mark for today; a task that has it loses it.
pub open spec fn schedule_submission(a: AppView) -> Option<SubmissionView> {
    match cursor_task(a) {
        Some(t) => Some(
            plain(
                RequestView::SetScheduled {
                    task_id: t.id,
                    note_path: t.note_path,
                    line_number: t.line_number,
                    date: if t.scheduled_date == Some(a.today) {
                        None
                    } else {
                        Some(a.today)
                    },
                },
            ),
        ),
        None => None,
    }
}

/// The reverse of the last write that can be taken back.
pub open spec fn undo_submission(a: AppView) -> Option<SubmissionView> {
    match a.last_action {
        Some(l) => Some(plain(undo_request(l))),
        None => None,
    }
}

// ---------------------------------------------------------------------------
// The archive.
// ---------------------------------------------------------------------------

/// The ids and lines of the closed, unnested tasks of `note`, in the order of the tasks.
pub open spec fn closed_tasks(tasks: Seq<TaskView>, note: Seq<char>) -> Seq<(i64, usize)>
    decreases tasks.len(),
{
    if tasks.len() == 0 {
        seq![]
    } else {
        let rest = closed_tasks(tasks.drop_last(), note);
        let t = tasks.last();
        if t.note_path == note && t.indent == 0 && completed(t.status, t.raw_checkbox_char) {
            rest.push((t.id, t.line_number))
        } else {
            rest
        }
    }
}

/// The line of an id and line.
pub open spec fn line_rank() -> spec_fn((i64, usize)) -> int {
    |p: (i64, usize)| p.1 as int
}

/// The ids and lines of the closed, unnested tasks of `note`, top to bottom.
pub open spec fn archivable(tasks: Seq<TaskView>, note: Seq<char>) -> Seq<(i64, usize)> {
    stable_sorted(closed_tasks(tasks, note), line_rank())
}

/// The confirmation of an archive request.
pub open spec fn archiving(count: nat, archive: Seq<char>) -> Seq<char> {
    "Archiving "@ + digits(count) + " completed task(s) → "@ + archive
}

/// Why the archive gesture is refused on `note`, if it is.
pub open spec fn archive_refusal(a: AppView, note: Seq<char>) -> Option<Seq<char>> {
    if has_subtasks(a.tasks, note) {
        Some("Archive supports flat task lists only (v1); this note has subtasks"@)
    } else if archivable(a.tasks, note).len() == 0 {
        Some("No completed tasks to archive in this note"@)
    } else if a.archive_path == note {
        Some("Archive path cannot be the source note"@)
    } else {
        None
    }
}

/// What the archive gesture submits: every closed task of the note under the cursor.
pub open spec fn archive_submission(a: AppView) -> Option<SubmissionView> {
    match cursor_task(a) {
        Some(t) => if archive_refusal(a, t.note_path) is Some {
            None
        } else {
            let found = archivable(a.tasks, t.note_path);
            Some(
                SubmissionView {
                    request: RequestView::Archive {
                        task_id: found[0].0,
                        note_path: t.note_path,
                        line_number: found[0].1,
                        archive_path: a.archive_path,
                        lines: found.map_values(|p: (i64, usize)| p.1),
                    },
                    undo: None,
                    confirmation: Some(archiving(found.len(), a.archive_path)),
                },
            )
        },
        None => None,
    }
}

/// The archive gesture: a refusal is told, nothing else changes. It is refused off a task too.
pub open spec fn archive_pressed(a: AppView) -> AppView {
    match cursor_task(a) {
        Some(t) => match archive_refusal(a, t.note_path) {
            Some(why) => AppView { notice: Some(why), ..a },
            None => a,
        },
        None => AppView { notice: Some("Archive needs a task under the cursor"@), ..a },
    }
}

// ---------------------------------------------------------------------------
// Reading the index.
// ---------------------------------------------------------------------------

/// What was read from the index on the day `today` taken in, the cursor kept.
pub open spec fn refreshed(a: AppView, today: Seq<char>, tasks: Seq<TaskView>) -> AppView {
    rebuilt(AppView { today, tasks, ..a })
}

/// Whether an action with `id` is among `recent`.
pub open spec fn resolved(recent: Seq<ActionView>, id: i64) -> bool {
    exists|i: int| 0 <= i < recent.len() && (#[trigger] recent[i]).id == id
}

/// The tracked ids that are not among `recent`.
pub open spec fn unresolved(pending: Seq<i64>, recent: Seq<ActionView>) -> Seq<i64>
    decreases pending.len(),
{
    if pending.len() == 0 {
        seq![]
    } else if resolved(recent, pending.last()) {
        unresolved(pending.drop_last(), recent)
    } else {
        unresolved(pending.drop_last(), recent).push(pending.last())
    }
}

/// The first action of `recent` that is tracked and failed.
pub open spec fn newest_failure(pending: Seq<i64>, recent: Seq<ActionView>) -> Option<ActionView>
    decreases recent.len(),
{
    if recent.len() == 0 {
        None
    } else if pending.contains(recent[0].id) && recent[0].state == "failed"@ {
        Some(recent[0])
    } else {
        newest_failure(pending, recent.drop_first())
    }
}

/// The resolutions `recent`, newest first, taken note of: resolved actions are no longer tracked,
/// and the newest failure among them is told.
pub open spec fn polled(a: AppView, recent: Seq<ActionView>) -> AppView {
    AppView {
        pending: unresolved(a.pending, recent),
        notice: match newest_failure(a.pending, recent) {
            Some(f) => Some(failure_notice(f)),
            None => a.notice,
        },
        ..a
    }
}

/// The note whose text the context pane needs, where it is not the one it has. With `force` a note
/// is read again.
pub open spec fn context_wanted(a: AppView, force: bool) -> Option<Seq<char>> {
    if force || cursor_note(a) != a.ctx_note_path {
        cursor_note(a)
    } else {
        None
    }
}

/// The context pane brought in step with the cursor, `loaded` being the text of the note it needs.
/// Moving to another note centres the pane again; reading the same note again keeps the scroll.
pub open spec fn context_synced(a: AppView, force: bool, loaded: Option<Seq<char>>) -> AppView {
    let changed = cursor_note(a) != a.ctx_note_path;
    match cursor_note(a) {
        None => AppView { ctx_note_path: None, ctx_content: None, ctx_scroll: 0, ..a },
        Some(note) => if force || changed {
            AppView {
                ctx_note_path: Some(note),
                ctx_content: loaded,
                ctx_scroll: if changed {
                    0
                } else {
                    a.ctx_scroll
                },
                ..a
            }
        } else {
            a
        },
    }
}

/// The context pane scrolled by `delta` lines; the pane bounds it when it is drawn.
pub open spec fn scrolled(a: AppView, delta: int) -> AppView {
    AppView { ctx_scroll: clamped(a.ctx_scroll + delta, i32::MIN as int, i32::MAX as int), ..a }
}

/// The link to the task under the cursor.
pub open spec fn cursor_link(a: AppView) -> LinkView {
    match (a.vault_name, cursor_task(a)) {
        (None, _) => LinkView::UnknownVault,
        (Some(_), None) => LinkView::NothingSelected,
        (Some(vault), Some(t)) => LinkView::Url(
            link_text(vault, t.note_path, t.line_number as nat, a.use_advanced_uri),
        ),
    }
}

}
