//! What the records stand for: every field of a record is the field of its view.

use vstd::prelude::*;
use crate::actions::{LastAction, LastView, Request, RequestView, Submission};
use crate::app::App;
use crate::listing::{DisplayRow, RowView};
use crate::screen::{Body, Overlay, Screen};
use crate::spans::{Span, line_view};

verus! {

/// What is listed is what the browser holds.
pub proof fn states_hold_what_is_listed(app: App)
    ensures
        app@.tasks.len() == app.tasks@.len(),
        forall|i: int| 0 <= i < app.tasks@.len() ==> #[trigger] app@.tasks[i] == app.tasks@[i]@,
        app@.rows.len() == app.rows@.len(),
        forall|i: int| 0 <= i < app.rows@.len() ==> #[trigger] app@.rows[i] == app.rows@[i]@,
        app.state.row matches Some(i) ==> app@.row == Some(i as nat),
        app.state.row is None ==> app@.row is None,
        app@.expanded == app.expanded@,
        app@.filter == app.filter,
        app@.group_by == app.group_by,
        app@.today_only == app.today_only,
        app@.overdue_only == app.overdue_only,
        app@.today == app.today@,
        app@.search_query == app.search_query@,
        app@.file_query == app.file_query@,
{
}

/// What takes the keys, and what was typed, is what the browser holds.
pub proof fn states_hold_what_is_typed(app: App)
    ensures
        app@.searching == app.searching,
        app@.file_searching == app.file_searching,
        app@.quick_adding == app.quick_adding,
        app@.quick_add_query == app.quick_add_query@,
        app@.adding_note == app.adding_note,
        app@.note_query == app.note_query@,
        app@.moving == app.moving,
        app@.move_task_id == app.move_task_id,
        app@.move_initial_ids == app.move_initial_ids@,
        app@.show_help == app.show_help,
        app@.pane_visible == app.pane_visible,
        app@.ctx_scroll == app.ctx_scroll,
        app.ctx_note_path matches Some(note) ==> app@.ctx_note_path == Some(note@),
        app.ctx_note_path is None ==> app@.ctx_note_path is None,
        app.ctx_content matches Some(c) ==> app@.ctx_content == Some(c.content@),
        app.ctx_content is None ==> app@.ctx_content is None,
{
}

/// What is written, and where, is what the browser holds.
pub proof fn states_hold_what_is_written(app: App)
    ensures
        app@.pending == app.pending_session_actions@,
        app.notice matches Some(text) ==> app@.notice == Some(text@),
        app.notice is None ==> app@.notice is None,
        app.last_action matches Some(l) ==> app@.last_action == Some(l@),
        app.last_action is None ==> app@.last_action is None,
        app@.inbox_path == app.inbox_path@,
        app@.archive_path == app.archive_path@,
        app.vault_name matches Some(name) ==> app@.vault_name == Some(name@),
        app.vault_name is None ==> app@.vault_name is None,
        app@.use_advanced_uri == app.use_advanced_uri,
        app@.theme == app.theme,
        app@.layout == app.layout,
{
}

/// A request stands for what it asks, field by field.
pub proof fn requests_stand_for_their_fields(r: Request)
    ensures
        match r {
            Request::Checkbox { task_id, note_path, line_number, expected_char, new_char } => r@ == (
            RequestView::Checkbox {
                task_id,
                note_path: note_path@,
                line_number,
                expected_char: expected_char@,
                new_char: new_char@,
            }),
            Request::SetScheduled { task_id, note_path, line_number, date } => r@ == (
            RequestView::SetScheduled {
                task_id,
                note_path: note_path@,
                line_number,
                date: match date {
                    Some(d) => Some(d@),
                    None => None,
                },
            }),
            Request::ToggleBullet { task_id, note_path, line_number } => r@ == (
            RequestView::ToggleBullet { task_id, note_path: note_path@, line_number }),
            Request::QuickAdd { inbox_path, text } => r@ == (RequestView::QuickAdd {
                inbox_path: inbox_path@,
                text: text@,
            }),
            Request::QuickAddUndo { inbox_path, text } => r@ == (RequestView::QuickAddUndo {
                inbox_path: inbox_path@,
                text: text@,
            }),
            Request::AddNote { task_id, note_path, line_number, text } => r@ == (
            RequestView::AddNote { task_id, note_path: note_path@, line_number, text: text@ }),
            Request::Reorder { task_id, note_path, line_number, lines } => r@ == (
            RequestView::Reorder { task_id, note_path: note_path@, line_number, lines: lines@ }),
            Request::Archive { task_id, note_path, line_number, archive_path, lines } => r@ == (
            RequestView::Archive {
                task_id,
                note_path: note_path@,
                line_number,
                archive_path: archive_path@,
                lines: lines@,
            }),
        },
{
}

/// The record of a write stands for what was written, field by field.
pub proof fn last_actions_stand_for_their_fields(l: LastAction)
    ensures
        match l {
            LastAction::CheckboxToggle { task_id, note_path, line_number, expected_char, new_char } => l@
                == (LastView::CheckboxToggle {
                task_id,
                note_path: note_path@,
                line_number,
                expected_char: expected_char@,
                new_char: new_char@,
            }),
            LastAction::BulletToggle { task_id, note_path, line_number } => l@ == (
            LastView::BulletToggle { task_id, note_path: note_path@, line_number }),
            LastAction::QuickAdd { inbox_path, text } => l@ == (LastView::QuickAdd {
                inbox_path: inbox_path@,
                text: text@,
            }),
        },
{
}

/// A submission stands for its request, its undo and its confirmation.
pub proof fn submissions_stand_for_their_fields(s: Submission)
    ensures
        s@.request == s.request@,
        s.undo matches Some(u) ==> s@.undo == Some(u@),
        s.undo is None ==> s@.undo is None,
        s.confirmation matches Some(c) ==> s@.confirmation == Some(c@),
        s.confirmation is None ==> s@.confirmation is None,
{
}

/// A row stands for its task, or for its group and its counts.
pub proof fn rows_stand_for_their_fields(r: DisplayRow)
    ensures
        match r {
            DisplayRow::Header { group_key, open_count, total_count, collapsed } => r@ == (
            RowView::Header {
                group_key: group_key@,
                open_count: open_count as nat,
                total_count: total_count as nat,
                collapsed,
            }),
            DisplayRow::Task { task } => r@ == (RowView::Task { task: task@ }),
        },
{
}

/// A line stands for the texts and the styles of its spans, in their order.
pub proof fn lines_stand_for_their_spans(line: Seq<Span>)
    ensures
        line_view(line).len() == line.len(),
        forall|i: int|
            0 <= i < line.len() ==> (#[trigger] line_view(line)[i]).text == line[i].text@
                && line_view(line)[i].style == line[i].style,
{
}

/// A screen stands for its layers.
pub proof fn screens_stand_for_their_layers(s: Screen)
    ensures
        s@.background == s.background,
        s@.area == s.area,
        s@.list_area == s.list_area,
        s@.title == line_view(s.title@),
        s@.body == s.body@,
        s.notice matches Some((area, line)) ==> s@.notice == Some((area, line_view(line@))),
        s.notice is None ==> s@.notice is None,
        s.context matches Some((area, pane)) ==> s@.context == Some((area, pane@)),
        s.context is None ==> s@.context is None,
        s@.footer_area == s.footer_area,
        s@.footer == line_view(s.footer@),
        s@.footer_style == s.footer_style,
        s.help matches Some(o) ==> s@.help == Some(o@),
        s.help is None ==> s@.help is None,
{
}

/// The layers of a screen stand for their parts: the items of the list with the one that is
/// highlighted, or a message; and the overlay with its lines.
pub proof fn layers_stand_for_their_parts(b: Body, o: Overlay)
    ensures
        b matches Body::Message(m) ==> b@ is Message && b@->Message_0 == m@,
        b matches Body::Items { items, selected, highlight } ==> {
            &&& b@ is Items
            &&& b@->items.len() == items@.len()
            &&& forall|i: int|
                0 <= i < items@.len() ==> (#[trigger] b@->items[i]).line == line_view(items@[i].line@)
                    && b@->items[i].style == items@[i].style
            &&& selected matches Some(n) ==> b@->selected == Some(n as nat)
            &&& selected is None ==> b@->selected is None
            &&& b@->highlight == highlight
        },
        o@.area == o.area,
        o@.fill == o.fill,
        o@.title == o.title@,
        o@.lines.len() == o.lines@.len(),
        forall|i: int| 0 <= i < o.lines@.len() ==> #[trigger] o@.lines[i] == line_view(o.lines@[i]@),
{
}

}
