//! What every gesture keeps.

use vstd::prelude::*;
use crate::actions::{RequestView, SubmissionView};
use crate::app::initial;
use crate::grouping::{next_axis, next_filter};
use crate::keys::{EffectView, KeyCode, KeyEvent, Mode, closes_help, file_search_key, help_key,
    is_ctrl_c, key_mode, key_pressed, list_char, list_key, move_key, note_key, quick_add_key,
    search_key};
use crate::listing::{RowView, first_row_is_first, is_header_row, is_note_row, is_task_row,
    row_note};
use crate::model::{AppView, ToggleMode, active_filters, all_collapsed, all_expanded,
    archive_pressed, context_synced, context_wanted, cursor_group, cursor_note, cursor_run,
    cursor_task, file_search_finished, filter_cycled, fold_target, folded, group_cycled,
    header_keys, move_cancelled, move_started, moved_cursor, note_started, note_submission,
    on_header, overdue_toggled, polled, rebuilt, recentred, refreshed, restored_rows, row_rank,
    run_rows, schedule_submission, search_finished, settled, shortened, task_moved, today_toggled,
    wanted_rows};
use crate::moving::run_is_tasks;
use crate::order::sorting_orders;
use crate::sync::is_due;
use crate::task::{ActionView, TaskView};
use crate::text::trimmed;

verus! {

// ---------------------------------------------------------------------------
// The cursor.
// ---------------------------------------------------------------------------

/// Whether the cursor is on a row, or there are no rows.
pub open spec fn cursor_is_on_a_row(a: AppView) -> bool {
    match a.row {
        Some(i) => i < a.rows.len(),
        None => a.rows.len() == 0,
    }
}

/// A session starts with the cursor where it belongs.
pub proof fn initial_cursor(today: Seq<char>)
    ensures
        cursor_is_on_a_row(initial(today)),
        modes_on(initial(today)) == 0,
{
}

/// However the rows are rebuilt, the cursor is on one of them, unless there are none.
pub proof fn rebuilding_keeps_a_cursor(a: AppView)
    ensures
        cursor_is_on_a_row(rebuilt(a)),
        cursor_is_on_a_row(recentred(a)),
{
    let rows = wanted_rows(a);
    match cursor_task(a) {
        Some(t) => {
            first_row_is_first(rows, is_task_row(t.id));
        },
        None => {},
    }
    match cursor_note(a) {
        Some(n) => {
            first_row_is_first(rows, is_note_row(n));
        },
        None => {},
    }
}

/// A task under the cursor that is still shown after the rows are rebuilt is still under the cursor.
pub proof fn cursor_follows_its_task(a: AppView, id: i64, i: int)
    requires
        cursor_task(a) matches Some(t) && t.id == id,
        0 <= i < wanted_rows(a).len(),
        wanted_rows(a)[i] matches RowView::Task { task } && task.id == id,
    ensures
        cursor_task(rebuilt(a)) matches Some(t) && t.id == id,
        cursor_task(recentred(a)) matches Some(t) && t.id == id,
{
    let rows = wanted_rows(a);
    let p = is_task_row(id);
    first_row_is_first(rows, p);
    assert(p(rows[i]));
}

/// Where the task under the cursor is gone but its note, or its group, still has a row, the cursor
/// goes to the first of those rows.
pub proof fn cursor_stays_in_its_note(a: AppView, note: Seq<char>, i: int)
    requires
        cursor_note(a) == Some(note),
        cursor_task(a) matches Some(t) ==> forall|k: int|
            0 <= k < wanted_rows(a).len() ==> !(#[trigger] wanted_rows(a)[k] matches RowView::Task {
                task,
            } && task.id == t.id),
        0 <= i < wanted_rows(a).len(),
        row_note(wanted_rows(a)[i]) == note,
    ensures
        cursor_note(rebuilt(a)) == Some(note),
        rebuilt(a).row matches Some(r) && r <= i,
{
    let rows = wanted_rows(a);
    match cursor_task(a) {
        Some(t) => {
            first_row_is_first(rows, is_task_row(t.id));
        },
        None => {},
    }
    let p = is_note_row(note);
    first_row_is_first(rows, p);
    assert(p(rows[i]));
}

proof fn cancelling_keeps_a_cursor(a: AppView)
    requires
        cursor_is_on_a_row(a),
    ensures
        cursor_is_on_a_row(move_cancelled(a)),
        restored_rows(a).len() == a.rows.len(),
{
    match cursor_run(a) {
        Some((s, e)) => {
            run_is_tasks(a.rows, a.row->0);
            sorting_orders(run_rows(a), row_rank(a.move_initial_ids));
            first_row_is_first(restored_rows(a), is_task_row(a.move_task_id));
        },
        None => {},
    }
}

/// What a key does, by the mode that takes it.
proof fn dispatch(a: AppView, key: KeyEvent)
    ensures
        ({
            let after = key_pressed(a, key).0;
            ||| after == a
            ||| key_mode(a) == Mode::Search && after == search_key(a, key.code)
            ||| key_mode(a) == Mode::FileSearch && after == file_search_key(a, key.code)
            ||| key_mode(a) == Mode::QuickAdd && after == quick_add_key(a, key.code).0
            ||| key_mode(a) == Mode::Note && after == note_key(a, key.code).0
            ||| key_mode(a) == Mode::Moving && after == move_key(a, key.code).0
            ||| key_mode(a) == Mode::Help && after == help_key(a, key.code).0
            ||| key_mode(a) == Mode::List && key.code is Char && after == list_char(
                a,
                key.code->Char_0,
            )
            ||| key_mode(a) == Mode::List && after == list_key(a, key.code).0
        }),
{
}

proof fn list_chars_keep_the_cursor(a: AppView, c: char)
    requires
        cursor_is_on_a_row(a),
    ensures
        cursor_is_on_a_row(list_char(a, c)),
{
    rebuilding_keeps_a_cursor(AppView { filter: next_filter(a.filter), ..a });
    rebuilding_keeps_a_cursor(AppView { group_by: next_axis(a.group_by), ..a });
    rebuilding_keeps_a_cursor(AppView { today_only: !a.today_only, ..a });
    rebuilding_keeps_a_cursor(AppView { overdue_only: !a.overdue_only, ..a });
    moving_keeps_a_cursor(a, 1);
    moving_keeps_a_cursor(a, -1);
}

proof fn list_keys_keep_the_cursor(a: AppView, code: KeyCode)
    requires
        cursor_is_on_a_row(a),
    ensures
        cursor_is_on_a_row(list_key(a, code).0),
{
    let b = AppView { expanded: Set::empty(), ..a };
    rebuilding_keeps_a_cursor(b);
    match cursor_group(a) {
        Some(key) => {
            first_row_is_first(recentred(b).rows, is_header_row(key));
        },
        None => {},
    }
    rebuilding_keeps_a_cursor(
        AppView { expanded: a.expanded.union(header_keys(a.rows)), ..a },
    );
    folding_keeps_a_cursor(a, ToggleMode::Toggle);
    folding_keeps_a_cursor(a, ToggleMode::Expand);
    folding_keeps_a_cursor(a, ToggleMode::Collapse);
    moving_keeps_a_cursor(a, 1);
    moving_keeps_a_cursor(a, -1);
}

proof fn move_keys_keep_the_cursor(a: AppView, code: KeyCode)
    requires
        cursor_is_on_a_row(a),
    ensures
        cursor_is_on_a_row(move_key(a, code).0),
{
    cancelling_keeps_a_cursor(a);
    moving_keeps_a_cursor(a, 1);
    moving_keeps_a_cursor(a, -1);
}

proof fn prompt_keys_keep_the_cursor(a: AppView, code: KeyCode)
    requires
        cursor_is_on_a_row(a),
    ensures
        cursor_is_on_a_row(quick_add_key(a, code).0),
        cursor_is_on_a_row(note_key(a, code).0),
{
}

/// Whatever key is pressed, the cursor stays on a row.
pub proof fn keys_keep_the_cursor(a: AppView, key: KeyEvent)
    requires
        cursor_is_on_a_row(a),
    ensures
        cursor_is_on_a_row(key_pressed(a, key).0),
{
    dispatch(a, key);
    typing_keeps_a_cursor(a, key.code);
    prompt_keys_keep_the_cursor(a, key.code);
    move_keys_keep_the_cursor(a, key.code);
    list_keys_keep_the_cursor(a, key.code);
    match key.code {
        KeyCode::Char(c) => {
            list_chars_keep_the_cursor(a, c);
        },
        _ => {},
    }
}

proof fn folding_keeps_a_cursor(a: AppView, mode: ToggleMode)
    requires
        cursor_is_on_a_row(a),
    ensures
        cursor_is_on_a_row(folded(a, mode)),
{
    match fold_target(a, mode) {
        Some((key, true)) => {
            let b = AppView { expanded: a.expanded.insert(key), ..a };
            rebuilding_keeps_a_cursor(b);
            first_row_is_first(recentred(b).rows, is_header_row(key));
        },
        Some((key, false)) => {
            let b = AppView { expanded: a.expanded.remove(key), ..a };
            rebuilding_keeps_a_cursor(b);
            first_row_is_first(recentred(b).rows, is_header_row(key));
        },
        None => {},
    }
}

proof fn moving_keeps_a_cursor(a: AppView, delta: int)
    requires
        cursor_is_on_a_row(a),
    ensures
        cursor_is_on_a_row(task_moved(a, delta)),
        cursor_is_on_a_row(moved_cursor(a, delta)),
{
    match cursor_run(a) {
        Some((s, e)) => {
            run_is_tasks(a.rows, a.row->0);
        },
        None => {},
    }
}

proof fn typing_keeps_a_cursor(a: AppView, code: KeyCode)
    requires
        cursor_is_on_a_row(a),
    ensures
        cursor_is_on_a_row(search_key(a, code)),
        cursor_is_on_a_row(file_search_key(a, code)),
{
    rebuilding_keeps_a_cursor(
        AppView { search_query: seq![], ..search_finished(a) },
    );
    rebuilding_keeps_a_cursor(AppView { search_query: shortened(a.search_query), ..a });
    rebuilding_keeps_a_cursor(
        AppView { file_query: seq![], ..file_search_finished(a) },
    );
    rebuilding_keeps_a_cursor(AppView { file_query: shortened(a.file_query), ..a });
    match code {
        KeyCode::Char(c) => {
            rebuilding_keeps_a_cursor(AppView { search_query: a.search_query.push(c), ..a });
            rebuilding_keeps_a_cursor(AppView { file_query: a.file_query.push(c), ..a });
        },
        _ => {},
    }
}

/// Reading the index, resolutions, note texts and settled submissions keep the cursor on a row.
pub proof fn outside_news_keep_the_cursor(
    a: AppView,
    today: Seq<char>,
    tasks: Seq<TaskView>,
    recent: Seq<ActionView>,
    force: bool,
    loaded: Option<Seq<char>>,
    s: SubmissionView,
    result: Option<i64>,
)
    requires
        cursor_is_on_a_row(a),
    ensures
        cursor_is_on_a_row(refreshed(a, today, tasks)),
        cursor_is_on_a_row(polled(a, recent)),
        cursor_is_on_a_row(context_synced(a, force, loaded)),
        cursor_is_on_a_row(settled(a, s, result)),
{
    rebuilding_keeps_a_cursor(AppView { today, tasks, ..a });
}

// ---------------------------------------------------------------------------
// The rows.
// ---------------------------------------------------------------------------

/// Whether the rows are those that the tasks, the filters, the folds and the axis ask for.
pub open spec fn rows_are_wanted(a: AppView) -> bool {
    a.rows == wanted_rows(a)
}

proof fn typing_keeps_the_rows_wanted(a: AppView, code: KeyCode)
    requires
        rows_are_wanted(a),
    ensures
        rows_are_wanted(search_key(a, code)),
        rows_are_wanted(file_search_key(a, code)),
{
    assert(active_filters(search_finished(a)) == active_filters(a));
    assert(active_filters(file_search_finished(a)) == active_filters(a));
}

proof fn prompt_keys_keep_the_rows_wanted(a: AppView, code: KeyCode)
    requires
        rows_are_wanted(a),
    ensures
        rows_are_wanted(quick_add_key(a, code).0),
        rows_are_wanted(note_key(a, code).0),
        rows_are_wanted(help_key(a, code).0),
{
    assert(active_filters(quick_add_key(a, code).0) == active_filters(a));
    assert(active_filters(note_key(a, code).0) == active_filters(a));
}

proof fn list_chars_keep_the_rows_wanted(a: AppView, c: char)
    requires
        rows_are_wanted(a),
    ensures
        rows_are_wanted(list_char(a, c)),
{
    if c != 'f' && c != 'G' && c != 'T' && c != 'O' {
        assert(active_filters(list_char(a, c)) == active_filters(a));
    }
}

proof fn landing_keeps_the_rows_wanted(b: AppView, key: Seq<char>)
    ensures
        rows_are_wanted(recentred(b)),
        rows_are_wanted(on_header(recentred(b), key)),
{
    assert(active_filters(recentred(b)) == active_filters(b));
    assert(active_filters(on_header(recentred(b), key)) == active_filters(b));
}

proof fn folding_keeps_the_rows_wanted(a: AppView, mode: ToggleMode)
    requires
        rows_are_wanted(a),
    ensures
        rows_are_wanted(folded(a, mode)),
{
    match fold_target(a, mode) {
        Some((key, true)) => {
            landing_keeps_the_rows_wanted(AppView { expanded: a.expanded.insert(key), ..a }, key);
        },
        Some((key, false)) => {
            landing_keeps_the_rows_wanted(AppView { expanded: a.expanded.remove(key), ..a }, key);
        },
        None => {},
    }
}

proof fn all_folds_keep_the_rows_wanted(a: AppView)
    ensures
        rows_are_wanted(all_expanded(a)),
        rows_are_wanted(all_collapsed(a)),
{
    let none = AppView { expanded: Set::empty(), ..a };
    let key = match cursor_group(a) {
        Some(key) => key,
        None => seq![],
    };
    landing_keeps_the_rows_wanted(none, key);
    landing_keeps_the_rows_wanted(
        AppView { expanded: a.expanded.union(header_keys(a.rows)), ..a },
        key,
    );
}

proof fn stepping_keeps_the_rows_wanted(a: AppView, delta: int)
    requires
        rows_are_wanted(a),
    ensures
        rows_are_wanted(moved_cursor(a, delta)),
{
    assert(active_filters(moved_cursor(a, delta)) == active_filters(a));
}

proof fn list_keys_keep_the_rows_wanted(a: AppView, code: KeyCode)
    requires
        rows_are_wanted(a),
    ensures
        rows_are_wanted(list_key(a, code).0),
{
    match code {
        KeyCode::Enter => {
            folding_keeps_the_rows_wanted(a, ToggleMode::Toggle);
        },
        KeyCode::Right => {
            folding_keeps_the_rows_wanted(a, ToggleMode::Expand);
        },
        KeyCode::Left => {
            folding_keeps_the_rows_wanted(a, ToggleMode::Collapse);
        },
        KeyCode::Tab => {
            all_folds_keep_the_rows_wanted(a);
        },
        KeyCode::BackTab => {
            all_folds_keep_the_rows_wanted(a);
        },
        KeyCode::Down => {
            stepping_keeps_the_rows_wanted(a, 1);
        },
        KeyCode::Up => {
            stepping_keeps_the_rows_wanted(a, -1);
        },
        _ => {},
    }
}

/// The list always shows what the tasks, the filters, the folds and the axis ask for: no key but those
/// of move mode leaves other rows.
pub proof fn keys_keep_the_rows_wanted(a: AppView, key: KeyEvent)
    requires
        rows_are_wanted(a),
        key_mode(a) != Mode::Moving,
    ensures
        rows_are_wanted(key_pressed(a, key).0),
{
    dispatch(a, key);
    typing_keeps_the_rows_wanted(a, key.code);
    prompt_keys_keep_the_rows_wanted(a, key.code);
    list_keys_keep_the_rows_wanted(a, key.code);
    match key.code {
        KeyCode::Char(c) => {
            list_chars_keep_the_rows_wanted(a, c);
        },
        _ => {},
    }
}

/// Reading the index shows what it holds, whatever was shown before; and resolutions, note texts and
/// settled submissions change nothing that is shown in the list.
pub proof fn outside_news_keep_the_rows_wanted(
    a: AppView,
    today: Seq<char>,
    tasks: Seq<TaskView>,
    recent: Seq<ActionView>,
    force: bool,
    loaded: Option<Seq<char>>,
    s: SubmissionView,
    result: Option<i64>,
)
    ensures
        rows_are_wanted(initial(today)),
        rows_are_wanted(refreshed(a, today, tasks)),
        rows_are_wanted(a) ==> rows_are_wanted(polled(a, recent)),
        rows_are_wanted(a) ==> rows_are_wanted(context_synced(a, force, loaded)),
        rows_are_wanted(a) ==> rows_are_wanted(settled(a, s, result)),
{
    assert(active_filters(polled(a, recent)) == active_filters(a));
    assert(active_filters(context_synced(a, force, loaded)) == active_filters(a));
    assert(active_filters(settled(a, s, result)) == active_filters(a));
}

// ---------------------------------------------------------------------------
// Modes.
// ---------------------------------------------------------------------------

/// How many of the modes are on.
pub open spec fn modes_on(a: AppView) -> int {
    let one = |b: bool|
        if b {
            1int
        } else {
            0int
        };
    one(a.searching) + one(a.file_searching) + one(a.quick_adding) + one(a.adding_note) + one(
        a.moving,
    ) + one(a.show_help)
}

/// Whether two states are in the same modes.
spec fn same_modes(a: AppView, b: AppView) -> bool {
    &&& a.searching == b.searching
    &&& a.file_searching == b.file_searching
    &&& a.quick_adding == b.quick_adding
    &&& a.adding_note == b.adding_note
    &&& a.moving == b.moving
    &&& a.show_help == b.show_help
}

proof fn list_chars_keep_one_mode(a: AppView, c: char)
    requires
        modes_on(a) == 0,
    ensures
        modes_on(list_char(a, c)) <= 1,
{
    assert(same_modes(filter_cycled(a), a));
    assert(same_modes(group_cycled(a), a));
    assert(same_modes(today_toggled(a), a));
    assert(same_modes(overdue_toggled(a), a));
    assert(same_modes(moved_cursor(a, 1), a));
    assert(same_modes(moved_cursor(a, -1), a));
    assert(same_modes(archive_pressed(a), a));
    assert(modes_on(move_started(a)) <= 1);
    assert(modes_on(note_started(a)) <= 1);
}

proof fn list_keys_keep_the_modes(a: AppView, code: KeyCode)
    ensures
        same_modes(list_key(a, code).0, a),
{
    assert(same_modes(folded(a, ToggleMode::Toggle), a));
    assert(same_modes(folded(a, ToggleMode::Expand), a));
    assert(same_modes(folded(a, ToggleMode::Collapse), a));
}

proof fn prompt_keys_keep_the_modes(a: AppView, code: KeyCode)
    ensures
        same_modes(search_key(a, code), a) || same_modes(
            search_key(a, code),
            AppView { searching: false, ..a },
        ),
        same_modes(file_search_key(a, code), a) || same_modes(
            file_search_key(a, code),
            AppView { file_searching: false, ..a },
        ),
        same_modes(quick_add_key(a, code).0, a) || same_modes(
            quick_add_key(a, code).0,
            AppView { quick_adding: false, ..a },
        ),
        same_modes(note_key(a, code).0, a) || same_modes(
            note_key(a, code).0,
            AppView { adding_note: false, ..a },
        ),
{
}

proof fn modal_keys_keep_the_modes(a: AppView, code: KeyCode)
    ensures
        same_modes(move_key(a, code).0, a) || same_modes(
            move_key(a, code).0,
            AppView { moving: false, ..a },
        ),
        same_modes(help_key(a, code).0, a) || same_modes(
            help_key(a, code).0,
            AppView { show_help: false, ..a },
        ),
{
}

/// One mode takes the keys at a time: no key turns a second one on.
pub proof fn keys_keep_one_mode(a: AppView, key: KeyEvent)
    requires
        modes_on(a) <= 1,
    ensures
        modes_on(key_pressed(a, key).0) <= 1,
{
    dispatch(a, key);
    prompt_keys_keep_the_modes(a, key.code);
    modal_keys_keep_the_modes(a, key.code);
    list_keys_keep_the_modes(a, key.code);
    if key_mode(a) == Mode::List {
        match key.code {
            KeyCode::Char(c) => {
                list_chars_keep_one_mode(a, c);
            },
            _ => {},
        }
    }
}

/// While help is open nothing but help changes, `q` does not quit, and only Ctrl-C does.
pub proof fn help_swallows_keys(a: AppView, key: KeyEvent)
    requires
        key_mode(a) == Mode::Help,
    ensures
        ({
            let (after, effect) = key_pressed(a, key);
            &&& after == a || after == (AppView { show_help: false, ..a })
            &&& after != a <==> key.press && closes_help(key.code)
            &&& effect is Quit <==> key.press && is_ctrl_c(key)
            &&& effect is Quit || effect is Nothing
        }),
{
}

/// At a search prompt a key asks nothing of the outside, but that Ctrl-C quits; any other character
/// goes into the query.
pub proof fn search_swallows_keys(a: AppView, key: KeyEvent)
    requires
        key_mode(a) == Mode::Search || key_mode(a) == Mode::FileSearch,
    ensures
        ({
            let (after, effect) = key_pressed(a, key);
            let types = key.press && key.code is Char && !is_ctrl_c(key);
            &&& effect is Quit <==> key.press && is_ctrl_c(key)
            &&& effect is Quit || effect is Nothing
            &&& types && key_mode(a) == Mode::Search ==> after.search_query == a.search_query.push(
                key.code->Char_0,
            )
            &&& types && key_mode(a) == Mode::FileSearch ==> after.file_query == a.file_query.push(
                key.code->Char_0,
            )
        }),
{
}

/// At the quick-add and note prompts only Enter asks for a write and only Ctrl-C quits; any other
/// character goes into the text, and the list stays as it is.
#[verifier::rlimit(60)]
pub proof fn writing_prompts_swallow_keys(a: AppView, key: KeyEvent)
    requires
        key_mode(a) == Mode::QuickAdd || key_mode(a) == Mode::Note,
    ensures
        ({
            let (after, effect) = key_pressed(a, key);
            let types = key.press && key.code is Char && !is_ctrl_c(key);
            &&& effect is Quit <==> key.press && is_ctrl_c(key)
            &&& effect is Submit ==> key.press && key.code == KeyCode::Enter
            &&& !(effect is Open)
            &&& types && key_mode(a) == Mode::QuickAdd ==> after.quick_add_query
                == a.quick_add_query.push(key.code->Char_0)
            &&& types && key_mode(a) == Mode::Note ==> after.note_query == a.note_query.push(
                key.code->Char_0,
            )
            &&& after.rows == a.rows
            &&& after.row == a.row
        }),
{
    if key.press && !is_ctrl_c(key) {
        prompts_take_the_keys(a, key);
        quick_add_keys(a, key.code);
        note_keys(a, key.code);
    }
}

proof fn prompts_take_the_keys(a: AppView, key: KeyEvent)
    requires
        key.press,
        !is_ctrl_c(key),
    ensures
        key_mode(a) == Mode::QuickAdd ==> key_pressed(a, key) == quick_add_key(a, key.code),
        key_mode(a) == Mode::Note ==> key_pressed(a, key) == note_key(a, key.code),
{
}

proof fn quick_add_keys(a: AppView, code: KeyCode)
    ensures
        ({
            let (after, effect) = quick_add_key(a, code);
            &&& effect is Nothing || effect is Submit && code == KeyCode::Enter
            &&& code is Char ==> after.quick_add_query == a.quick_add_query.push(code->Char_0)
            &&& after.rows == a.rows
            &&& after.row == a.row
        }),
{
}

proof fn note_keys(a: AppView, code: KeyCode)
    ensures
        ({
            let (after, effect) = note_key(a, code);
            &&& effect is Nothing || effect is Submit && code == KeyCode::Enter
            &&& code is Char ==> after.note_query == a.note_query.push(code->Char_0)
            &&& after.rows == a.rows
            &&& after.row == a.row
        }),
{
}

/// While a task is moved nothing is written before Enter, only Ctrl-C quits, and no key but Esc and the
/// moves changes the rows.
pub proof fn moving_swallows_keys(a: AppView, key: KeyEvent)
    requires
        key_mode(a) == Mode::Moving,
    ensures
        ({
            let (after, effect) = key_pressed(a, key);
            &&& effect is Submit ==> key.press && key.code == KeyCode::Enter
            &&& effect is Quit <==> key.press && is_ctrl_c(key)
            &&& !(effect is Open)
            &&& key.code != KeyCode::Esc && key.code != KeyCode::Down && key.code != KeyCode::Up
                && key.code != KeyCode::Char('j') && key.code != KeyCode::Char('k') ==> after.rows
                == a.rows
            &&& key.code != KeyCode::Esc && key.code != KeyCode::Enter ==> after.moving
        }),
{
}

/// Ctrl-C quits from any state, and changes nothing of it.
pub proof fn ctrl_c_quits(a: AppView)
    ensures
        key_pressed(a, KeyEvent { code: KeyCode::Char('c'), ctrl: true, press: true }) == (
            a,
            EffectView::Quit,
        ),
{
}

/// A key that does not go down does nothing.
pub proof fn only_presses_count(a: AppView, key: KeyEvent)
    requires
        !key.press,
    ensures
        key_pressed(a, key) == (a, EffectView::Nothing),
{
}

// ---------------------------------------------------------------------------
// Writes.
// ---------------------------------------------------------------------------

/// The task a request of a task gesture is for.
pub open spec fn request_is_for(r: RequestView, t: TaskView) -> bool {
    match r {
        RequestView::Checkbox { task_id, note_path, line_number, expected_char, .. } => task_id == t.id
            && note_path == t.note_path && line_number == t.line_number && expected_char
            == t.raw_checkbox_char,
        RequestView::SetScheduled { task_id, note_path, line_number, .. } => task_id == t.id
            && note_path == t.note_path && line_number == t.line_number,
        RequestView::ToggleBullet { task_id, note_path, line_number } => task_id == t.id && note_path
            == t.note_path && line_number == t.line_number,
        RequestView::AddNote { task_id, note_path, line_number, .. } => task_id == t.id && note_path
            == t.note_path && line_number == t.line_number,
        _ => false,
    }
}

/// A gesture on a task asks for a write exactly where a task is under the cursor, never on a header,
/// and for that task; the state waits for what becomes of it.
pub proof fn task_gestures_write_to_the_cursor(a: AppView, c: char, ctrl: bool)
    requires
        key_mode(a) == Mode::List,
        c == ' ' || c == 't' || c == 'b' || c == 'd' || c == 'i',
    ensures
        ({
            let (after, effect) = key_pressed(
                a,
                KeyEvent { code: KeyCode::Char(c), ctrl, press: true },
            );
            &&& after == a
            &&& match cursor_task(a) {
                Some(t) => effect matches EffectView::Submit(s) && request_is_for(s.request, t),
                None => effect is Nothing,
            }
        }),
{
}

/// A note is for the task under the cursor, and no note is empty.
pub proof fn notes_go_to_the_cursor(a: AppView)
    ensures
        match note_submission(a) {
            Some(s) => cursor_task(a) matches Some(t) && request_is_for(s.request, t) && trimmed(
                a.note_query,
            ).len() > 0,
            None => cursor_task(a) is None || trimmed(a.note_query).len() == 0,
        },
{
}

/// Marking for today clears the mark of a task that has it and sets it on any other.
pub proof fn marks_toggle(a: AppView, t: TaskView)
    requires
        cursor_task(a) == Some(t),
    ensures
        schedule_submission(a) matches Some(s) && s.request matches RequestView::SetScheduled {
            date,
            ..
        } && date == (if t.scheduled_date == Some(a.today) {
            None
        } else {
            Some(a.today)
        }),
{
}

// ---------------------------------------------------------------------------
// The index and the context pane.
// ---------------------------------------------------------------------------

/// The index is never read while a task is being moved, however long ago it was.
pub proof fn no_refresh_while_moving(a: AppView, since_last: Option<u64>)
    ensures
        a.moving ==> !is_due(a, since_last),
        !a.moving && since_last is None ==> is_due(a, since_last),
{
}

/// Reading the same note again keeps the scroll; a cursor on another note centres the pane.
pub proof fn scroll_survives_a_refresh(a: AppView, force: bool, loaded: Option<Seq<char>>)
    ensures
        cursor_note(a) is Some && cursor_note(a) == a.ctx_note_path ==> context_synced(
            a,
            force,
            loaded,
        ).ctx_scroll == a.ctx_scroll,
        cursor_note(a) != a.ctx_note_path ==> context_synced(a, force, loaded).ctx_scroll == 0,
{
}

/// Once the pane is in step it asks for nothing more, and it has the note under the cursor.
pub proof fn context_is_in_step(a: AppView, loaded: Option<Seq<char>>)
    ensures
        ({
            let after = context_synced(a, false, loaded);
            &&& after.ctx_note_path == cursor_note(after)
            &&& context_wanted(after, false) is None
            &&& cursor_note(after) is None ==> after.ctx_content is None
        }),
{
}

/// A text is asked for exactly where it will be used.
pub proof fn asked_text_is_used(a: AppView, force: bool, loaded: Option<Seq<char>>)
    ensures
        context_wanted(a, force) is Some ==> context_synced(a, force, loaded).ctx_content == loaded
            && context_synced(a, force, loaded).ctx_note_path == context_wanted(a, force),
        context_wanted(a, force) is None ==> context_synced(a, force, loaded) == context_synced(
            a,
            force,
            None,
        ),
{
}

}
