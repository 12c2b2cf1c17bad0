//! What each key does to the state, field by field.

use vstd::prelude::*;
use crate::actions::{LastView, LinkView, RequestView, SubmissionView};
use crate::grouping::{GroupBy, StatusFilter};
use crate::keys::{EffectView, KeyCode, KeyEvent, key_pressed};
use crate::listing::{RowView, first_row_is_first, is_header_row};
use crate::model::{AppView, header_above, header_keys, moved_cursor, on_header, rebuilt, recentred,
    scrolled, settled};
use crate::paths::link_text;
use crate::task::TaskView;
use crate::text::trimmed;

verus! {

/// A press of a key.
pub open spec fn press(code: KeyCode, ctrl: bool) -> KeyEvent {
    KeyEvent { code, ctrl, press: true }
}

/// Whether no prompt, no move and no overlay takes the keys.
pub open spec fn in_list(a: AppView) -> bool {
    !a.searching && !a.file_searching && !a.quick_adding && !a.adding_note && !a.moving
        && !a.show_help
}

/// Whether the cursor is on the task `t`.
pub open spec fn on_task(a: AppView, t: TaskView) -> bool {
    a.row matches Some(i) && i < a.rows.len() && a.rows[i as int] == (RowView::Task { task: t })
}

/// Whether the cursor is on no task.
pub open spec fn off_tasks(a: AppView) -> bool {
    a.row matches Some(i) ==> i < a.rows.len() ==> a.rows[i as int] is Header
}

/// The list shown for `a`, with the context pane centred.
pub open spec fn shown_anew(a: AppView) -> AppView {
    AppView { ctx_scroll: 0, rows: rebuilt(a).rows, row: rebuilt(a).row, ..a }
}

// ---------------------------------------------------------------------------
// Steps.
// ---------------------------------------------------------------------------

/// A step by `delta` rows goes `delta` rows on; one that would leave the list stops at its end. The
/// context pane is centred, and nothing else changes.
pub proof fn steps_go_by_rows(a: AppView, i: nat, delta: int)
    requires
        a.row == Some(i),
        i < a.rows.len(),
    ensures
        0 <= i + delta < a.rows.len() ==> moved_cursor(a, delta) == (AppView {
            row: Some((i + delta) as nat),
            ctx_scroll: 0,
            ..a
        }),
        i + delta < 0 ==> moved_cursor(a, delta) == (AppView { row: Some(0), ctx_scroll: 0, ..a }),
        i + delta >= a.rows.len() ==> moved_cursor(a, delta) == (AppView {
            row: Some((a.rows.len() - 1) as nat),
            ctx_scroll: 0,
            ..a
        }),
{
}

/// Without rows a step changes nothing; without a cursor it counts from the first row.
pub proof fn steps_without_a_cursor(a: AppView, delta: int)
    ensures
        a.rows.len() == 0 ==> moved_cursor(a, delta) == a,
        a.rows.len() > 0 && a.row is None && 0 <= delta < a.rows.len() ==> moved_cursor(a, delta)
            == (AppView { row: Some(delta as nat), ctx_scroll: 0, ..a }),
{
}

/// `j` and Down go to the next row, `k` and Up to the one before; at the ends of the list they stay.
pub proof fn keys_step_by_one(a: AppView, ctrl: bool, i: nat)
    requires
        in_list(a),
        a.row == Some(i),
        i < a.rows.len(),
    ensures
        i + 1 < a.rows.len() ==> {
            let b = AppView { row: Some(i + 1), ctx_scroll: 0, ..a };
            &&& key_pressed(a, press(KeyCode::Char('j'), ctrl)) == (b, EffectView::Nothing)
            &&& key_pressed(a, press(KeyCode::Down, ctrl)) == (b, EffectView::Nothing)
        },
        i > 0 ==> {
            let b = AppView { row: Some((i - 1) as nat), ctx_scroll: 0, ..a };
            &&& key_pressed(a, press(KeyCode::Char('k'), ctrl)) == (b, EffectView::Nothing)
            &&& key_pressed(a, press(KeyCode::Up, ctrl)) == (b, EffectView::Nothing)
        },
        i + 1 == a.rows.len() ==> {
            let b = AppView { ctx_scroll: 0, ..a };
            &&& key_pressed(a, press(KeyCode::Char('j'), ctrl)) == (b, EffectView::Nothing)
            &&& key_pressed(a, press(KeyCode::Down, ctrl)) == (b, EffectView::Nothing)
        },
        i == 0 ==> {
            let b = AppView { ctx_scroll: 0, ..a };
            &&& key_pressed(a, press(KeyCode::Char('k'), ctrl)) == (b, EffectView::Nothing)
            &&& key_pressed(a, press(KeyCode::Up, ctrl)) == (b, EffectView::Nothing)
        },
{
}

/// `j` and then `k` gives the row back, from any row but the last; `k` and then `j` from any but the
/// first.
#[verifier::rlimit(40)]
pub proof fn steps_are_taken_back(a: AppView, i: nat)
    requires
        in_list(a),
        a.row == Some(i),
        i < a.rows.len(),
    ensures
        i + 1 < a.rows.len() ==> key_pressed(
            key_pressed(a, press(KeyCode::Char('j'), false)).0,
            press(KeyCode::Char('k'), false),
        ).0 == (AppView { ctx_scroll: 0, ..a }),
        i > 0 ==> key_pressed(
            key_pressed(a, press(KeyCode::Char('k'), false)).0,
            press(KeyCode::Char('j'), false),
        ).0 == (AppView { ctx_scroll: 0, ..a }),
{
    keys_step_by_one(a, false, i);
    if i + 1 < a.rows.len() {
        keys_step_by_one(AppView { row: Some(i + 1), ctx_scroll: 0, ..a }, false, i + 1);
    }
    if i > 0 {
        let k = (i - 1) as nat;
        keys_step_by_one(AppView { row: Some(k), ctx_scroll: 0, ..a }, false, k);
    }
}

/// Two steps one way are one step by the sum, where neither leaves the list.
pub proof fn steps_add_up(a: AppView, i: nat, d: int, e: int)
    requires
        a.row == Some(i),
        0 <= i + d < a.rows.len(),
        0 <= i + d + e < a.rows.len(),
    ensures
        moved_cursor(moved_cursor(a, d), e) == moved_cursor(a, d + e),
{
}

// ---------------------------------------------------------------------------
// What is listed.
// ---------------------------------------------------------------------------

/// `f` goes from all tasks to the open ones, from those to the done ones and back to all; `G` goes
/// through the axes; `T` and `O` switch the narrower views. The list follows, and nothing else changes.
pub proof fn views_are_switched(a: AppView, ctrl: bool)
    requires
        in_list(a),
    ensures
        key_pressed(a, press(KeyCode::Char('f'), ctrl)) == (
            shown_anew(
                AppView {
                    filter: match a.filter {
                        StatusFilter::All => StatusFilter::Open,
                        StatusFilter::Open => StatusFilter::Done,
                        StatusFilter::Done => StatusFilter::All,
                    },
                    ..a
                },
            ),
            EffectView::Nothing,
        ),
        key_pressed(a, press(KeyCode::Char('G'), ctrl)) == (
            shown_anew(
                AppView {
                    group_by: match a.group_by {
                        GroupBy::FolderNote => GroupBy::Note,
                        GroupBy::Note => GroupBy::Tag,
                        GroupBy::Tag => GroupBy::Priority,
                        GroupBy::Priority => GroupBy::Folder,
                        GroupBy::Folder => GroupBy::FolderNote,
                    },
                    ..a
                },
            ),
            EffectView::Nothing,
        ),
        key_pressed(a, press(KeyCode::Char('T'), ctrl)) == (
            shown_anew(AppView { today_only: !a.today_only, ..a }),
            EffectView::Nothing,
        ),
        key_pressed(a, press(KeyCode::Char('O'), ctrl)) == (
            shown_anew(AppView { overdue_only: !a.overdue_only, ..a }),
            EffectView::Nothing,
        ),
{
}

/// `p` switches the context pane, `?` opens the help overlay, `J` and `K` scroll by a line.
pub proof fn panes_are_switched(a: AppView, ctrl: bool)
    requires
        in_list(a),
    ensures
        key_pressed(a, press(KeyCode::Char('p'), ctrl)) == (
            AppView { pane_visible: !a.pane_visible, ..a },
            EffectView::Nothing,
        ),
        key_pressed(a, press(KeyCode::Char('?'), ctrl)) == (
            AppView { show_help: true, ..a },
            EffectView::Nothing,
        ),
        i32::MIN <= a.ctx_scroll < i32::MAX ==> key_pressed(a, press(KeyCode::Char('J'), ctrl)) == (
            AppView { ctx_scroll: a.ctx_scroll + 1, ..a },
            EffectView::Nothing,
        ),
        i32::MIN < a.ctx_scroll <= i32::MAX ==> key_pressed(a, press(KeyCode::Char('K'), ctrl)) == (
            AppView { ctx_scroll: a.ctx_scroll - 1, ..a },
            EffectView::Nothing,
        ),
{
}

/// A scroll by `delta` lines adds `delta`, as far as the counter goes.
pub proof fn scrolling_adds(a: AppView, delta: int)
    ensures
        i32::MIN <= a.ctx_scroll + delta <= i32::MAX ==> scrolled(a, delta) == (AppView {
            ctx_scroll: a.ctx_scroll + delta,
            ..a
        }),
        a.ctx_scroll + delta < i32::MIN ==> scrolled(a, delta) == (AppView {
            ctx_scroll: i32::MIN as int,
            ..a
        }),
        a.ctx_scroll + delta > i32::MAX ==> scrolled(a, delta) == (AppView {
            ctx_scroll: i32::MAX as int,
            ..a
        }),
{
}

/// The help overlay is closed by `?`, Esc and `q`, and by nothing else; it never quits but by Ctrl-C.
pub proof fn help_is_closed(a: AppView, code: KeyCode, ctrl: bool)
    requires
        a.show_help,
        in_list(AppView { show_help: false, ..a }),
        !(ctrl && code == KeyCode::Char('c')),
    ensures
        key_pressed(a, press(code, ctrl)) == (
            AppView {
                show_help: !(code == KeyCode::Char('?') || code == KeyCode::Esc || code
                    == KeyCode::Char('q')),
                ..a
            },
            EffectView::Nothing,
        ),
{
}

/// `q` and Esc end the session, and so does Ctrl-C anywhere; nothing else in the list does, and what
/// has no meaning changes nothing.
#[verifier::rlimit(40)]
pub proof fn sessions_end(a: AppView, key: KeyEvent)
    requires
        in_list(a),
        key.press,
    ensures
        key_pressed(a, key).1 is Quit <==> key.code == KeyCode::Esc || key.code == KeyCode::Char('q')
            || (key.ctrl && key.code == KeyCode::Char('c')),
        key_pressed(a, key).1 is Quit ==> key_pressed(a, key).0 == a,
        key.code is Other ==> key_pressed(a, key) == (a, EffectView::Nothing),
        key.code is Backspace ==> key_pressed(a, key) == (a, EffectView::Nothing),
{
}

/// A character that is not bound changes nothing and asks for nothing.
pub proof fn unbound_characters_do_nothing(a: AppView, c: char)
    requires
        in_list(a),
        !seq![
            'j',
            'k',
            'f',
            'G',
            'T',
            'O',
            '/',
            'F',
            'a',
            'n',
            'm',
            'A',
            'J',
            'K',
            'p',
            '?',
            'q',
            ' ',
            't',
            'b',
            'u',
            'd',
            'i',
            'o',
        ].contains(c),
    ensures
        key_pressed(a, press(KeyCode::Char(c), false)) == (a, EffectView::Nothing),
{
    let bound = seq![
        'j',
        'k',
        'f',
        'G',
        'T',
        'O',
        '/',
        'F',
        'a',
        'n',
        'm',
        'A',
        'J',
        'K',
        'p',
        '?',
        'q',
        ' ',
        't',
        'b',
        'u',
        'd',
        'i',
        'o',
    ];
    assert forall|k: int| 0 <= k < bound.len() implies c != #[trigger] bound[k] by {
        assert(bound.contains(bound[k]));
    }
    assert(c != bound[0] && c != bound[1] && c != bound[2] && c != bound[3] && c != bound[4] && c
        != bound[5] && c != bound[6] && c != bound[7] && c != bound[8] && c != bound[9] && c
        != bound[10] && c != bound[11] && c != bound[12] && c != bound[13] && c != bound[14] && c
        != bound[15] && c != bound[16] && c != bound[17] && c != bound[18] && c != bound[19] && c
        != bound[20] && c != bound[21] && c != bound[22] && c != bound[23]);
}

// ---------------------------------------------------------------------------
// Prompts.
// ---------------------------------------------------------------------------

/// `/`, `F` and `a` open their prompts: the searches with the query they had, quick-add empty. `n`
/// opens the note prompt, empty, on a task, and does nothing off one.
pub proof fn prompts_are_opened(a: AppView, ctrl: bool, t: TaskView)
    requires
        in_list(a),
    ensures
        key_pressed(a, press(KeyCode::Char('/'), ctrl)) == (
            AppView { searching: true, ..a },
            EffectView::Nothing,
        ),
        key_pressed(a, press(KeyCode::Char('F'), ctrl)) == (
            AppView { file_searching: true, ..a },
            EffectView::Nothing,
        ),
        key_pressed(a, press(KeyCode::Char('a'), ctrl)) == (
            AppView { quick_adding: true, quick_add_query: seq![], ..a },
            EffectView::Nothing,
        ),
        on_task(a, t) ==> key_pressed(a, press(KeyCode::Char('n'), ctrl)) == (
            AppView { adding_note: true, note_query: seq![], ..a },
            EffectView::Nothing,
        ),
        off_tasks(a) ==> key_pressed(a, press(KeyCode::Char('n'), ctrl)) == (
            a,
            EffectView::Nothing,
        ),
{
}

/// A character at the text-search prompt is put behind the query, Backspace takes the last one, Enter
/// leaves with the query and Esc without it. The list follows every change of the query.
pub proof fn searches_are_typed(a: AppView, c: char, ctrl: bool)
    requires
        a.searching,
        !(ctrl && c == 'c'),
    ensures
        key_pressed(a, press(KeyCode::Char(c), ctrl)) == (
            rebuilt(AppView { search_query: a.search_query.push(c), ..a }),
            EffectView::Nothing,
        ),
        a.search_query.len() > 0 ==> key_pressed(a, press(KeyCode::Backspace, ctrl)) == (
            rebuilt(AppView { search_query: a.search_query.take(a.search_query.len() - 1), ..a }),
            EffectView::Nothing,
        ),
        a.search_query.len() == 0 ==> key_pressed(a, press(KeyCode::Backspace, ctrl)) == (
            rebuilt(a),
            EffectView::Nothing,
        ),
        key_pressed(a, press(KeyCode::Enter, ctrl)) == (
            AppView { searching: false, ..a },
            EffectView::Nothing,
        ),
        a.search_query.len() > 0 ==> key_pressed(a, press(KeyCode::Esc, ctrl)) == (
            rebuilt(AppView { searching: false, search_query: seq![], ..a }),
            EffectView::Nothing,
        ),
        a.search_query.len() == 0 ==> key_pressed(a, press(KeyCode::Esc, ctrl)) == (
            AppView { searching: false, ..a },
            EffectView::Nothing,
        ),
{
    assert(a.search_query.len() > 0 ==> a.search_query.drop_last() =~= a.search_query.take(
        a.search_query.len() - 1,
    ));
}

/// The file-search prompt works as the text-search prompt does, on its own query.
pub proof fn file_searches_are_typed(a: AppView, c: char, ctrl: bool)
    requires
        !a.searching,
        a.file_searching,
        !(ctrl && c == 'c'),
    ensures
        key_pressed(a, press(KeyCode::Char(c), ctrl)) == (
            rebuilt(AppView { file_query: a.file_query.push(c), ..a }),
            EffectView::Nothing,
        ),
        a.file_query.len() > 0 ==> key_pressed(a, press(KeyCode::Backspace, ctrl)) == (
            rebuilt(AppView { file_query: a.file_query.take(a.file_query.len() - 1), ..a }),
            EffectView::Nothing,
        ),
        a.file_query.len() == 0 ==> key_pressed(a, press(KeyCode::Backspace, ctrl)) == (
            rebuilt(a),
            EffectView::Nothing,
        ),
        key_pressed(a, press(KeyCode::Enter, ctrl)) == (
            AppView { file_searching: false, ..a },
            EffectView::Nothing,
        ),
        a.file_query.len() > 0 ==> key_pressed(a, press(KeyCode::Esc, ctrl)) == (
            rebuilt(AppView { file_searching: false, file_query: seq![], ..a }),
            EffectView::Nothing,
        ),
        a.file_query.len() == 0 ==> key_pressed(a, press(KeyCode::Esc, ctrl)) == (
            AppView { file_searching: false, ..a },
            EffectView::Nothing,
        ),
{
    assert(a.file_query.len() > 0 ==> a.file_query.drop_last() =~= a.file_query.take(
        a.file_query.len() - 1,
    ));
}

/// At the quick-add prompt Enter submits the text without the white ends for the inbox, with the undo
/// that takes it back; Esc, or a text of white characters, submits nothing. Both leave the prompt empty.
pub proof fn quick_adds_are_typed(a: AppView, c: char, ctrl: bool)
    requires
        !a.searching,
        !a.file_searching,
        a.quick_adding,
        !(ctrl && c == 'c'),
    ensures
        key_pressed(a, press(KeyCode::Char(c), ctrl)) == (
            AppView { quick_add_query: a.quick_add_query.push(c), ..a },
            EffectView::Nothing,
        ),
        a.quick_add_query.len() > 0 ==> key_pressed(a, press(KeyCode::Backspace, ctrl)) == (
            AppView { quick_add_query: a.quick_add_query.take(a.quick_add_query.len() - 1), ..a },
            EffectView::Nothing,
        ),
        a.quick_add_query.len() == 0 ==> key_pressed(a, press(KeyCode::Backspace, ctrl)) == (
            a,
            EffectView::Nothing,
        ),
        key_pressed(a, press(KeyCode::Esc, ctrl)) == (
            AppView { quick_adding: false, quick_add_query: seq![], ..a },
            EffectView::Nothing,
        ),
        key_pressed(a, press(KeyCode::Enter, ctrl)).0 == (AppView {
            quick_adding: false,
            quick_add_query: seq![],
            ..a
        }),
        trimmed(a.quick_add_query).len() == 0 ==> key_pressed(a, press(KeyCode::Enter, ctrl)).1
            == EffectView::Nothing,
        trimmed(a.quick_add_query).len() > 0 ==> key_pressed(a, press(KeyCode::Enter, ctrl)).1
            == EffectView::Submit(
            SubmissionView {
                request: RequestView::QuickAdd {
                    inbox_path: a.inbox_path,
                    text: trimmed(a.quick_add_query),
                },
                undo: Some(
                    LastView::QuickAdd {
                        inbox_path: a.inbox_path,
                        text: trimmed(a.quick_add_query),
                    },
                ),
                confirmation: None,
            },
        ),
{
    assert(a.quick_add_query.len() > 0 ==> a.quick_add_query.drop_last() =~= a.quick_add_query.take(
        a.quick_add_query.len() - 1,
    ));
}

/// At the note prompt Enter submits the text without the white ends, for the task under the cursor;
/// Esc, or a text of white characters, submits nothing. Both leave the prompt empty.
#[verifier::rlimit(40)]
pub proof fn notes_are_typed(a: AppView, c: char, ctrl: bool, t: TaskView)
    requires
        !a.searching,
        !a.file_searching,
        !a.quick_adding,
        a.adding_note,
        !(ctrl && c == 'c'),
    ensures
        key_pressed(a, press(KeyCode::Char(c), ctrl)) == (
            AppView { note_query: a.note_query.push(c), ..a },
            EffectView::Nothing,
        ),
        a.note_query.len() > 0 ==> key_pressed(a, press(KeyCode::Backspace, ctrl)) == (
            AppView { note_query: a.note_query.take(a.note_query.len() - 1), ..a },
            EffectView::Nothing,
        ),
        a.note_query.len() == 0 ==> key_pressed(a, press(KeyCode::Backspace, ctrl)) == (
            a,
            EffectView::Nothing,
        ),
        key_pressed(a, press(KeyCode::Esc, ctrl)) == (
            AppView { adding_note: false, note_query: seq![], ..a },
            EffectView::Nothing,
        ),
        key_pressed(a, press(KeyCode::Enter, ctrl)).0 == (AppView {
            adding_note: false,
            note_query: seq![],
            ..a
        }),
        trimmed(a.note_query).len() == 0 || off_tasks(a) ==> key_pressed(
            a,
            press(KeyCode::Enter, ctrl),
        ).1 == EffectView::Nothing,
        trimmed(a.note_query).len() > 0 && on_task(a, t) ==> key_pressed(
            a,
            press(KeyCode::Enter, ctrl),
        ).1 == EffectView::Submit(
            SubmissionView {
                request: RequestView::AddNote {
                    task_id: t.id,
                    note_path: t.note_path,
                    line_number: t.line_number,
                    text: trimmed(a.note_query),
                },
                undo: None,
                confirmation: None,
            },
        ),
{
    assert(a.note_query.len() > 0 ==> a.note_query.drop_last() =~= a.note_query.take(
        a.note_query.len() - 1,
    ));
}

// ---------------------------------------------------------------------------
// Folds.
// ---------------------------------------------------------------------------

/// Whether `b` is the list shown for `a`, with the cursor on the header of `key`.
pub open spec fn folded_at(b: AppView, a: AppView, key: Seq<char>) -> bool {
    &&& b == (AppView { row: b.row, ..shown_anew(a) })
    &&& (exists|j: int|
        0 <= j < b.rows.len() && (#[trigger] b.rows[j]) is Header && b.rows[j]->group_key == key)
        ==> {
        &&& b.row matches Some(i) && i < b.rows.len()
        &&& b.rows[b.row->0 as int] is Header
        &&& b.rows[b.row->0 as int]->group_key == key
    }
}

#[verifier::rlimit(40)]
proof fn cursors_land_on_headers(a: AppView, key: Seq<char>)
    ensures
        folded_at(
            on_header(recentred(a), key),
            a,
            key,
        ),
{
    let b = recentred(a);
    let p = is_header_row(key);
    first_row_is_first(b.rows, p);
    if exists|j: int|
        0 <= j < b.rows.len() && (#[trigger] b.rows[j]) is Header && b.rows[j]->group_key == key {
        let j = choose|j: int|
            0 <= j < b.rows.len() && (#[trigger] b.rows[j]) is Header && b.rows[j]->group_key == key;
        assert(p(b.rows[j]));
    }
}

/// On a header, Right unfolds its group, Left folds it and Enter does the one or the other; the cursor
/// stays on the header, and nothing else is folded or unfolded.
pub proof fn headers_fold(a: AppView, ctrl: bool, i: nat, key: Seq<char>)
    requires
        in_list(a),
        a.row == Some(i),
        i < a.rows.len(),
        a.rows[i as int] is Header,
        a.rows[i as int]->group_key == key,
    ensures
        folded_at(
            key_pressed(a, press(KeyCode::Right, ctrl)).0,
            AppView { expanded: a.expanded.insert(key), ..a },
            key,
        ),
        folded_at(
            key_pressed(a, press(KeyCode::Left, ctrl)).0,
            AppView { expanded: a.expanded.remove(key), ..a },
            key,
        ),
        folded_at(
            key_pressed(a, press(KeyCode::Enter, ctrl)).0,
            AppView {
                expanded: if a.expanded.contains(key) {
                    a.expanded.remove(key)
                } else {
                    a.expanded.insert(key)
                },
                ..a
            },
            key,
        ),
        key_pressed(a, press(KeyCode::Right, ctrl)).1 is Nothing,
        key_pressed(a, press(KeyCode::Left, ctrl)).1 is Nothing,
        key_pressed(a, press(KeyCode::Enter, ctrl)).1 is Nothing,
{
    cursors_land_on_headers(AppView { expanded: a.expanded.insert(key), ..a }, key);
    cursors_land_on_headers(AppView { expanded: a.expanded.remove(key), ..a }, key);
}

proof fn nearest_header_is_above(rows: Seq<RowView>, h: int, i: nat)
    requires
        0 <= h < i <= rows.len(),
        rows[h] is Header,
        forall|k: int| h < k < i ==> (#[trigger] rows[k]) is Task,
    ensures
        header_above(rows, i) == Some(rows[h]->group_key),
    decreases i,
{
    if i - 1 > h {
        assert(rows[i - 1] is Task);
        nearest_header_is_above(rows, h, (i - 1) as nat);
    }
}

/// On a task, Left folds the group of the nearest header above, and the cursor goes there; Right and
/// Enter do nothing.
pub proof fn tasks_fold_their_group(a: AppView, ctrl: bool, i: nat, h: int)
    requires
        in_list(a),
        a.row == Some(i),
        0 <= h < i < a.rows.len(),
        a.rows[h] is Header,
        forall|k: int| h < k <= i ==> (#[trigger] a.rows[k]) is Task,
    ensures
        folded_at(
            key_pressed(a, press(KeyCode::Left, ctrl)).0,
            AppView { expanded: a.expanded.remove(a.rows[h]->group_key), ..a },
            a.rows[h]->group_key,
        ),
        key_pressed(a, press(KeyCode::Left, ctrl)).1 is Nothing,
        key_pressed(a, press(KeyCode::Right, ctrl)) == (a, EffectView::Nothing),
        key_pressed(a, press(KeyCode::Enter, ctrl)) == (a, EffectView::Nothing),
{
    let key = a.rows[h]->group_key;
    assert(a.rows[i as int] is Task);
    nearest_header_is_above(a.rows, h, i);
    cursors_land_on_headers(AppView { expanded: a.expanded.remove(key), ..a }, key);
}

proof fn header_keys_are_keys(rows: Seq<RowView>, key: Seq<char>)
    ensures
        header_keys(rows).contains(key) <==> exists|j: int|
            0 <= j < rows.len() && (#[trigger] rows[j]) is Header && rows[j]->group_key == key,
    decreases rows.len(),
{
    if rows.len() > 0 {
        let front = rows.drop_last();
        header_keys_are_keys(front, key);
        if exists|j: int|
            0 <= j < front.len() && (#[trigger] front[j]) is Header && front[j]->group_key == key {
            let j = choose|j: int|
                0 <= j < front.len() && (#[trigger] front[j]) is Header && front[j]->group_key
                    == key;
            assert(rows[j] == front[j]);
        }
        if rows.last() is Header && rows.last()->group_key == key {
            assert(rows[rows.len() - 1] == rows.last());
        }
        if exists|j: int|
            0 <= j < rows.len() && (#[trigger] rows[j]) is Header && rows[j]->group_key == key {
            let j = choose|j: int|
                0 <= j < rows.len() && (#[trigger] rows[j]) is Header && rows[j]->group_key == key;
            if j < front.len() {
                assert(front[j] == rows[j]);
            }
        }
    }
}

/// Tab unfolds every group that has a header, and leaves the others as they are.
pub proof fn tab_unfolds_all(a: AppView, ctrl: bool, key: Seq<char>)
    requires
        in_list(a),
    ensures
        ({
            let (b, e) = key_pressed(a, press(KeyCode::Tab, ctrl));
            &&& e is Nothing
            &&& b == shown_anew(AppView { expanded: b.expanded, ..a })
            &&& b.expanded.contains(key) <==> a.expanded.contains(key) || exists|j: int|
                0 <= j < a.rows.len() && (#[trigger] a.rows[j]) is Header && a.rows[j]->group_key
                    == key
        }),
{
    header_keys_are_keys(a.rows, key);
}

/// Shift-Tab folds every group, and puts the cursor on the header of the group it was in.
pub proof fn back_tab_folds_all(a: AppView, ctrl: bool, h: int, i: nat)
    requires
        in_list(a),
        a.row == Some(i),
        0 <= h <= i < a.rows.len(),
        a.rows[h] is Header,
        forall|k: int| h < k <= i ==> (#[trigger] a.rows[k]) is Task,
    ensures
        folded_at(
            key_pressed(a, press(KeyCode::BackTab, ctrl)).0,
            AppView { expanded: Set::empty(), ..a },
            a.rows[h]->group_key,
        ),
        key_pressed(a, press(KeyCode::BackTab, ctrl)).1 is Nothing,
{
    let key = a.rows[h]->group_key;
    if h < i {
        assert(a.rows[i as int] is Task);
        nearest_header_is_above(a.rows, h, i);
    }
    cursors_land_on_headers(AppView { expanded: Set::empty(), ..a }, key);
}

/// Without a row under the cursor Right, Left and Enter do nothing, and Shift-Tab folds every group.
pub proof fn folds_without_a_cursor(a: AppView, ctrl: bool)
    requires
        in_list(a),
        a.row is None,
    ensures
        key_pressed(a, press(KeyCode::Right, ctrl)) == (a, EffectView::Nothing),
        key_pressed(a, press(KeyCode::Left, ctrl)) == (a, EffectView::Nothing),
        key_pressed(a, press(KeyCode::Enter, ctrl)) == (a, EffectView::Nothing),
        key_pressed(a, press(KeyCode::BackTab, ctrl)) == (
            shown_anew(AppView { expanded: Set::empty(), ..a }),
            EffectView::Nothing,
        ),
{
}

// ---------------------------------------------------------------------------
// Writes.
// ---------------------------------------------------------------------------

/// The request that sets the box of a task, and the undo that sets it back.
pub open spec fn box_set(t: TaskView, new_char: Seq<char>) -> EffectView {
    EffectView::Submit(
        SubmissionView {
            request: RequestView::Checkbox {
                task_id: t.id,
                note_path: t.note_path,
                line_number: t.line_number,
                expected_char: t.raw_checkbox_char,
                new_char,
            },
            undo: Some(
                LastView::CheckboxToggle {
                    task_id: t.id,
                    note_path: t.note_path,
                    line_number: t.line_number,
                    expected_char: t.raw_checkbox_char,
                    new_char,
                },
            ),
            confirmation: None,
        },
    )
}

/// Space, `d` and `i` set the box of the task under the cursor: to done, to cancelled and to in
/// progress. A box that is there already goes back to open, and Space opens whatever is not open. The
/// state does not change.
pub proof fn boxes_are_set(a: AppView, ctrl: bool, t: TaskView)
    requires
        in_list(a),
        on_task(a, t),
    ensures
        key_pressed(a, press(KeyCode::Char(' '), ctrl)) == (
            a,
            box_set(
                t,
                if t.raw_checkbox_char == " "@ {
                    "x"@
                } else {
                    " "@
                },
            ),
        ),
        key_pressed(a, press(KeyCode::Char('d'), ctrl)) == (
            a,
            box_set(
                t,
                if t.raw_checkbox_char == "-"@ {
                    " "@
                } else {
                    "-"@
                },
            ),
        ),
        key_pressed(a, press(KeyCode::Char('i'), ctrl)) == (
            a,
            box_set(
                t,
                if t.raw_checkbox_char == "/"@ {
                    " "@
                } else {
                    "/"@
                },
            ),
        ),
{
}

/// `b` toggles the bullet of the task under the cursor, and can be taken back; `t` marks it for today,
/// or takes that mark away, and cannot.
pub proof fn bullets_and_marks_are_set(a: AppView, ctrl: bool, t: TaskView)
    requires
        in_list(a),
        on_task(a, t),
    ensures
        key_pressed(a, press(KeyCode::Char('b'), ctrl)) == (
            a,
            EffectView::Submit(
                SubmissionView {
                    request: RequestView::ToggleBullet {
                        task_id: t.id,
                        note_path: t.note_path,
                        line_number: t.line_number,
                    },
                    undo: Some(
                        LastView::BulletToggle {
                            task_id: t.id,
                            note_path: t.note_path,
                            line_number: t.line_number,
                        },
                    ),
                    confirmation: None,
                },
            ),
        ),
        key_pressed(a, press(KeyCode::Char('t'), ctrl)) == (
            a,
            EffectView::Submit(
                SubmissionView {
                    request: RequestView::SetScheduled {
                        task_id: t.id,
                        note_path: t.note_path,
                        line_number: t.line_number,
                        date: if t.scheduled_date == Some(a.today) {
                            None
                        } else {
                            Some(a.today)
                        },
                    },
                    undo: None,
                    confirmation: None,
                },
            ),
        ),
{
}

/// Off a task, none of the keys that write to a task does anything; `A` and `m` say that they need one.
pub proof fn writes_need_a_task(a: AppView, ctrl: bool)
    requires
        in_list(a),
        off_tasks(a),
    ensures
        key_pressed(a, press(KeyCode::Char(' '), ctrl)) == (a, EffectView::Nothing),
        key_pressed(a, press(KeyCode::Char('d'), ctrl)) == (a, EffectView::Nothing),
        key_pressed(a, press(KeyCode::Char('i'), ctrl)) == (a, EffectView::Nothing),
        key_pressed(a, press(KeyCode::Char('b'), ctrl)) == (a, EffectView::Nothing),
        key_pressed(a, press(KeyCode::Char('t'), ctrl)) == (a, EffectView::Nothing),
        key_pressed(a, press(KeyCode::Char('A'), ctrl)) == (
            AppView { notice: Some("Archive needs a task under the cursor"@), ..a },
            EffectView::Nothing,
        ),
        key_pressed(a, press(KeyCode::Char('m'), ctrl)) == (
            AppView { notice: Some("Reorder needs a task under the cursor"@), ..a },
            EffectView::Nothing,
        ),
{
}

/// `u` submits the reverse of the last write: a box goes back to what it held, expected as it was
/// left; a bullet is toggled again; an added line is taken out. Nothing remembered, nothing submitted;
/// and an undo has no undo.
pub proof fn undo_reverses_the_last_write(a: AppView, ctrl: bool)
    requires
        in_list(a),
    ensures
        ({
            let (b, e) = key_pressed(a, press(KeyCode::Char('u'), ctrl));
            &&& b == a
            &&& match a.last_action {
                None => e is Nothing,
                Some(LastView::CheckboxToggle {
                    task_id,
                    note_path,
                    line_number,
                    expected_char,
                    new_char,
                }) => e == EffectView::Submit(
                    SubmissionView {
                        request: RequestView::Checkbox {
                            task_id,
                            note_path,
                            line_number,
                            expected_char: new_char,
                            new_char: expected_char,
                        },
                        undo: None,
                        confirmation: None,
                    },
                ),
                Some(LastView::BulletToggle { task_id, note_path, line_number }) => e
                    == EffectView::Submit(
                    SubmissionView {
                        request: RequestView::ToggleBullet { task_id, note_path, line_number },
                        undo: None,
                        confirmation: None,
                    },
                ),
                Some(LastView::QuickAdd { inbox_path, text }) => e == EffectView::Submit(
                    SubmissionView {
                        request: RequestView::QuickAddUndo { inbox_path, text },
                        undo: None,
                        confirmation: None,
                    },
                ),
            }
        }),
{
}

/// `o` opens the link to the task under the cursor, in the vault of the session; without a vault, or
/// without a task, it says which is missing. The state does not change.
pub proof fn links_are_opened(a: AppView, ctrl: bool, t: TaskView)
    requires
        in_list(a),
    ensures
        key_pressed(a, press(KeyCode::Char('o'), ctrl)).0 == a,
        a.vault_name is None ==> key_pressed(a, press(KeyCode::Char('o'), ctrl)).1
            == EffectView::Open(LinkView::UnknownVault),
        a.vault_name is Some && off_tasks(a) ==> key_pressed(a, press(KeyCode::Char('o'), ctrl)).1
            == EffectView::Open(LinkView::NothingSelected),
        a.vault_name matches Some(v) ==> on_task(a, t) ==> key_pressed(
            a,
            press(KeyCode::Char('o'), ctrl),
        ).1 == EffectView::Open(
            LinkView::Url(link_text(v, t.note_path, t.line_number as nat, a.use_advanced_uri)),
        ),
{
}

// ---------------------------------------------------------------------------
// Settling.
// ---------------------------------------------------------------------------

/// A write that was enqueued is tracked last, its undo is remembered where it has one, and its
/// confirmation, or nothing, takes the place of the notice. At most sixty-four are tracked: then the
/// oldest goes. A write that was not enqueued changes nothing.
pub proof fn writes_settle(a: AppView, s: SubmissionView, id: i64)
    ensures
        settled(a, s, None) == a,
        ({
            let b = settled(a, s, Some(id));
            &&& b == (AppView {
                pending: b.pending,
                last_action: if s.undo is Some {
                    s.undo
                } else {
                    a.last_action
                },
                notice: s.confirmation,
                ..a
            })
            &&& a.pending.len() < 64 ==> b.pending == a.pending + seq![id]
            &&& a.pending.len() == 64 ==> b.pending == a.pending.skip(1) + seq![id]
        }),
{
    let b = settled(a, s, Some(id));
    if a.pending.len() < 64 {
        assert(b.pending =~= a.pending + seq![id]);
    }
    if a.pending.len() == 64 {
        assert(b.pending =~= a.pending.skip(1) + seq![id]);
    }
}

}
