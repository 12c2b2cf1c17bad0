//! What the state makes of what is read from the index and the queue.

use vstd::prelude::*;
use crate::actions::{failure_notice, failure_reason};
use crate::app::initial;
use crate::grouping::{GroupBy, StatusFilter};
use crate::list_laws::stands_at;
use crate::listing::RowView;
use crate::model::{AppView, TRACK_CAP, context_synced, context_wanted, enqueued, newest_failure,
    polled, rebuilt, refreshed, resolved, unresolved};
use crate::sync::{POLL_TIMEOUT, RECENT_ACTION_LIMIT, REFRESH_INTERVAL, is_due};
use crate::task::{ActionView, PendingAction, StatusView, Task, TaskView, status_of};
use crate::text::{contains_text, occurs_at, trimmed};
use crate::theme::Color;

verus! {

// ---------------------------------------------------------------------------
// The index.
// ---------------------------------------------------------------------------

/// A checkbox with a blank is open, one with `x` or `X` done, one with `/` in progress; any other, a
/// cancelled one with `-` among them, is none of these and is kept as written.
pub proof fn boxes_have_a_status(raw: Seq<char>)
    ensures
        status_of(raw) is Open <==> raw == seq![' '],
        status_of(raw) is Done <==> raw == seq!['x'] || raw == seq!['X'],
        status_of(raw) is InProgress <==> raw == seq!['/'],
        status_of(raw) matches StatusView::Other(s) ==> s == raw,
        raw == seq!['-'] ==> status_of(raw) is Other,
{
    reveal_strlit(" ");
    reveal_strlit("x");
    reveal_strlit("X");
    reveal_strlit("/");
    assert(" "@ =~= seq![' ']);
    assert("x"@ =~= seq!['x']);
    assert("X"@ =~= seq!['X']);
    assert("/"@ =~= seq!['/']);
    assert(seq![' '][0] == ' ' && seq!['x'][0] == 'x' && seq!['X'][0] == 'X' && seq!['/'][0] == '/'
        && seq!['-'][0] == '-');
}

/// A task of the index is taken in with every field as it is.
pub proof fn tasks_are_taken_in(t: Task)
    ensures
        t@.id == t.id,
        t@.note_path == t.note_path@,
        t@.line_number == t.line_number,
        t@.indent == t.indent,
        t@.text == t.text@,
        t@.status == t.status@,
        t@.raw_checkbox_char == t.raw_checkbox_char@,
        t@.due_date is Some <==> t.due_date is Some,
        t.due_date matches Some(d) ==> t@.due_date == Some(d@),
        t@.scheduled_date is Some <==> t.scheduled_date is Some,
        t.scheduled_date matches Some(d) ==> t@.scheduled_date == Some(d@),
        t@.tags.len() == t.tags@.len(),
        forall|i: int| 0 <= i < t.tags@.len() ==> #[trigger] t@.tags[i] == t.tags@[i]@,
        t@.priority is Some <==> t.priority is Some,
        t.priority matches Some(p) ==> t@.priority == Some(p@),
{
}

/// An action of the queue is taken in with every field as it is.
pub proof fn actions_are_taken_in(a: PendingAction)
    ensures
        a@.id == a.id,
        a@.action_type == a.action_type@,
        a@.note_path == a.note_path@,
        a@.new_char == a.new_char@,
        a@.state == a.state@,
        a@.error is Some <==> a.error is Some,
        a.error matches Some(e) ==> a@.error == Some(e@),
{
}

/// The index is read when it was never read, and when it was last read three quarters of a second ago
/// or more; and never while a task is being moved.
pub proof fn reads_are_due(a: AppView, since_last: Option<u64>)
    ensures
        is_due(a, since_last) <==> !a.moving && (since_last matches Some(ms) ==> ms >= 750),
{
}

/// The keys are waited for a quarter of a second at a time, so that a read is never late by more; and of
/// the resolved actions as many are read back as are tracked.
pub proof fn waits_are_short()
    ensures
        POLL_TIMEOUT == 250,
        REFRESH_INTERVAL == 750,
        RECENT_ACTION_LIMIT == 64,
        TRACK_CAP == 64,
{
}

/// Reading the index takes in its tasks and the day, and lists them; nothing else of the state changes
/// but the rows and the cursor.
pub proof fn reads_are_taken_in(a: AppView, today: Seq<char>, tasks: Seq<TaskView>)
    ensures
        ({
            let b = refreshed(a, today, tasks);
            &&& b == (AppView { today, tasks, rows: b.rows, row: b.row, ..a })
            &&& b.rows == rebuilt(AppView { today, tasks, ..a }).rows
            &&& b.row == rebuilt(AppView { today, tasks, ..a }).row
        }),
{
}

/// A session starts with the open tasks, by note, nothing unfolded, no prompt and no overlay, the
/// context pane on, and the notes it writes to under their usual names.
pub proof fn sessions_start_blank(today: Seq<char>)
    ensures
        ({
            let a = initial(today);
            &&& a.tasks.len() == 0 && a.rows.len() == 0 && a.row is None
            &&& a.filter == StatusFilter::Open && a.group_by == GroupBy::FolderNote
            &&& forall|k: Seq<char>| !#[trigger] a.expanded.contains(k)
            &&& a.pending.len() == 0 && a.notice is None && a.last_action is None
            &&& a.ctx_note_path is None && a.ctx_content is None && a.ctx_scroll == 0
            &&& a.pane_visible && !a.show_help
            &&& !a.today_only && !a.overdue_only && a.today == today
            &&& !a.searching && !a.file_searching && !a.quick_adding && !a.adding_note && !a.moving
            &&& a.search_query.len() == 0 && a.file_query.len() == 0
            &&& a.quick_add_query.len() == 0 && a.note_query.len() == 0
            &&& a.inbox_path == "task-inbox.md"@ && a.archive_path == "task-archive.md"@
            &&& a.vault_name is None && !a.use_advanced_uri
            &&& a.theme.accent == Color::Cyan && a.theme.background == Color::Reset && !a.theme.bold
            &&& a.layout.list_pane_percent == 50 && a.layout.list_density == 0
            &&& !a.layout.context_wrap
        }),
{
}

// ---------------------------------------------------------------------------
// The queue.
// ---------------------------------------------------------------------------

/// An action that was enqueued is tracked last and clears the notice; at most sixty-four are tracked.
/// One that was not changes nothing.
pub proof fn enqueued_actions_are_tracked(a: AppView, id: i64)
    requires
        a.pending.len() <= 64,
    ensures
        enqueued(a, None) == a,
        enqueued(a, Some(id)) == (AppView {
            notice: None,
            pending: if a.pending.len() < 64 {
                a.pending + seq![id]
            } else {
                a.pending.skip(1) + seq![id]
            },
            ..a
        }),
{
    let b = enqueued(a, Some(id));
    assert(b.pending =~= if a.pending.len() < 64 {
        a.pending + seq![id]
    } else {
        a.pending.skip(1) + seq![id]
    });
}

/// The ids that no action of `recent` has.
pub open spec fn not_among(recent: Seq<ActionView>) -> spec_fn(i64) -> bool {
    |id: i64| !(exists|i: int| 0 <= i < recent.len() && (#[trigger] recent[i]).id == id)
}

proof fn what_stays_is_a_filter(pending: Seq<i64>, recent: Seq<ActionView>)
    ensures
        unresolved(pending, recent) == pending.filter(not_among(recent)),
    decreases pending.len(),
{
    reveal(Seq::filter);
    if pending.len() > 0 {
        what_stays_is_a_filter(pending.drop_last(), recent);
        assert(not_among(recent)(pending.last()) <==> !resolved(recent, pending.last()));
    }
}

proof fn failures_are_the_first(pending: Seq<i64>, recent: Seq<ActionView>, i: int)
    requires
        0 <= i < recent.len(),
        pending.contains(recent[i].id),
        recent[i].state == "failed"@,
        forall|k: int|
            0 <= k < i ==> !(pending.contains((#[trigger] recent[k]).id) && recent[k].state
                == "failed"@),
    ensures
        newest_failure(pending, recent) == Some(recent[i]),
    decreases recent.len(),
{
    if i > 0 {
        assert(!(pending.contains(recent[0].id) && recent[0].state == "failed"@));
        let rest = recent.drop_first();
        assert(rest[i - 1] == recent[i]);
        assert forall|k: int| 0 <= k < i - 1 implies !(pending.contains((#[trigger] rest[k]).id)
            && rest[k].state == "failed"@) by {
            assert(rest[k] == recent[k + 1]);
        }
        failures_are_the_first(pending, rest, i - 1);
    }
}

proof fn no_failure_is_found(pending: Seq<i64>, recent: Seq<ActionView>)
    requires
        forall|k: int|
            0 <= k < recent.len() ==> !(pending.contains((#[trigger] recent[k]).id)
                && recent[k].state == "failed"@),
    ensures
        newest_failure(pending, recent) is None,
    decreases recent.len(),
{
    if recent.len() > 0 {
        assert(!(pending.contains(recent[0].id) && recent[0].state == "failed"@));
        let rest = recent.drop_first();
        assert forall|k: int| 0 <= k < rest.len() implies !(pending.contains((#[trigger] rest[k]).id)
            && rest[k].state == "failed"@) by {
            assert(rest[k] == recent[k + 1]);
        }
        no_failure_is_found(pending, rest);
    }
}

/// What the queue has resolved is tracked no longer, in the same order; and where the first tracked
/// action that failed is that at `i`, its failure is told.
pub proof fn failures_are_told(a: AppView, recent: Seq<ActionView>, i: int)
    requires
        0 <= i < recent.len(),
        a.pending.contains(recent[i].id),
        recent[i].state == "failed"@,
        forall|k: int|
            0 <= k < i ==> !(a.pending.contains((#[trigger] recent[k]).id) && recent[k].state
                == "failed"@),
    ensures
        polled(a, recent) == (AppView {
            pending: a.pending.filter(not_among(recent)),
            notice: Some(failure_notice(recent[i])),
            ..a
        }),
{
    what_stays_is_a_filter(a.pending, recent);
    failures_are_the_first(a.pending, recent, i);
}

/// Where no tracked action failed, the notice stays.
pub proof fn successes_are_not_told(a: AppView, recent: Seq<ActionView>)
    requires
        forall|k: int|
            0 <= k < recent.len() ==> !(a.pending.contains((#[trigger] recent[k]).id)
                && recent[k].state == "failed"@),
    ensures
        polled(a, recent) == (AppView { pending: a.pending.filter(not_among(recent)), ..a }),
{
    what_stays_is_a_filter(a.pending, recent);
    no_failure_is_found(a.pending, recent);
}

/// Whether `words` stand somewhere in `text`.
pub open spec fn says(text: Seq<char>, words: Seq<char>) -> bool {
    exists|k: int| #[trigger] stands_at(text, words, k)
}

proof fn saying_is_containing(text: Seq<char>, words: Seq<char>)
    ensures
        contains_text(text, words) <==> says(text, words),
{
    if contains_text(text, words) {
        let k = choose|k: int| occurs_at(text, words, k);
        assert forall|j: int| 0 <= j < words.len() implies #[trigger] text[k + j] == words[j] by {
            assert(text.subrange(k, k + words.len())[j] == words[j]);
        }
        assert(stands_at(text, words, k));
    }
    if says(text, words) {
        let k = choose|k: int| #[trigger] stands_at(text, words, k);
        let cut = text.subrange(k, k + words.len());
        assert forall|j: int| 0 <= j < words.len() implies cut[j] == words[j] by {
            assert(text[k + j] == words[j]);
        }
        assert(cut =~= words);
        assert(occurs_at(text, words, k));
    }
}

/// What the queue says of a failure is put in the words of the browser, by what the message says; a
/// message that says none of it is told as it is, and an empty one as a failure without a reason.
pub proof fn failures_have_a_reason(error: Seq<char>)
    ensures
        ({
            let e = trimmed(error);
            let r = failure_reason(error);
            let changed = says(e, "note changed externally"@);
            let gone = says(e, "no longer in index"@) || says(e, "note gone"@);
            let line = says(e, "no longer matches expected bytes"@);
            let invalid = says(e, "invalid new_char"@);
            let done = e.contains('✅');
            let cancelled = e.contains('❌');
            let scheduled = says(e, "malformed or unparseable"@);
            let bullet = says(e, "could not be converted to a bullet"@);
            let archive = says(e, "completed task lines"@);
            &&& changed ==> r == "this note changed in Obsidian"@
            &&& !changed && gone ==> r == "this"@ + " task is no longer in the note"@
            &&& !changed && !gone && line ==> r == "the checkbox line changed"@
            &&& !changed && !gone && !line && invalid ==> r == "the request was not valid"@
            &&& !changed && !gone && !line && !invalid && done ==> r
                == "the done date on this line couldn't be parsed"@
            &&& !changed && !gone && !line && !invalid && !done && cancelled ==> r
                == "the cancelled date on this line couldn't be parsed"@
            &&& !changed && !gone && !line && !invalid && !done && !cancelled && scheduled ==> r
                == "the scheduled date on this line couldn't be parsed"@
            &&& !changed && !gone && !line && !invalid && !done && !cancelled && !scheduled && bullet
                ==> r == "this line has no checkbox or bullet to toggle"@
            &&& !changed && !gone && !line && !invalid && !done && !cancelled && !scheduled && !bullet
                && archive ==> r == "the completed tasks changed"@
            &&& e.len() == 0 ==> r == "it could not be applied"@
            &&& !changed && !gone && !line && !invalid && !done && !cancelled && !scheduled && !bullet
                && !archive && e.len() > 0 ==> r == e
        }),
{
    let e = trimmed(error);
    saying_is_containing(e, "note changed externally"@);
    saying_is_containing(e, "no longer in index"@);
    saying_is_containing(e, "note gone"@);
    saying_is_containing(e, "no longer matches expected bytes"@);
    saying_is_containing(e, "invalid new_char"@);
    saying_is_containing(e, "malformed or unparseable"@);
    saying_is_containing(e, "could not be converted to a bullet"@);
    saying_is_containing(e, "completed task lines"@);
    reveal_strlit("note changed externally");
    reveal_strlit("no longer in index");
    reveal_strlit("note gone");
    reveal_strlit("no longer matches expected bytes");
    reveal_strlit("invalid new_char");
    reveal_strlit("malformed or unparseable");
    reveal_strlit("could not be converted to a bullet");
    reveal_strlit("completed task lines");
}

/// A failure is told with the gesture, the reason, the note and the key to try again with: the key that
/// every kind of action comes from, and for a checkbox the key of the mark it was to set.
pub proof fn failures_name_the_key(f: ActionView)
    ensures
        ({
            let kind = f.action_type;
            let reason = match f.error {
                Some(e) => failure_reason(e),
                None => "it could not be applied"@,
            };
            let told = |verb: Seq<char>, key: Seq<char>|
                failure_notice(f) == verb + " not applied — "@ + reason + " ("@ + f.note_path
                    + "). Press "@ + key + " to try again."@;
            &&& kind == "set_scheduled"@ ==> told("Mark"@, "t"@)
            &&& kind == "toggle_bullet"@ ==> told("Bullet"@, "b"@)
            &&& kind == "quick_add"@ ==> told("Quick add"@, "a"@)
            &&& kind == "quick_add_undo"@ ==> told("Quick-add undo"@, "u"@)
            &&& kind == "add_note"@ ==> told("Add note"@, "n"@)
            &&& kind == "reorder"@ ==> told("Move"@, "m"@)
            &&& kind == "archive"@ ==> told("Archive"@, "A"@)
            &&& kind == "toggle_checkbox"@ && f.new_char == "-"@ ==> told("Cancel"@, "d"@)
            &&& kind == "toggle_checkbox"@ && f.new_char == "/"@ ==> told("Mark in-progress"@, "i"@)
            &&& kind == "toggle_checkbox"@ && f.new_char != "-"@ && f.new_char != "/"@ ==> told(
                "Toggle"@,
                "Space"@,
            )
        }),
{
    reveal_strlit("set_scheduled");
    reveal_strlit("toggle_bullet");
    reveal_strlit("quick_add");
    reveal_strlit("quick_add_undo");
    reveal_strlit("add_note");
    reveal_strlit("reorder");
    reveal_strlit("archive");
    reveal_strlit("toggle_checkbox");
    reveal_strlit("-");
    reveal_strlit("/");
    assert("set_scheduled"@[0] == 's' && "toggle_bullet"@[0] == 't' && "quick_add"@[0] == 'q'
        && "quick_add_undo"@[0] == 'q' && "add_note"@[0] == 'a' && "reorder"@[0] == 'r'
        && "archive"@[0] == 'a');
    assert("set_scheduled"@.len() == 13 && "toggle_bullet"@.len() == 13 && "quick_add"@.len() == 9
        && "quick_add_undo"@.len() == 14 && "add_note"@.len() == 8 && "reorder"@.len() == 7
        && "archive"@.len() == 7 && "toggle_checkbox"@.len() == 15);
    assert("-"@[0] == '-' && "/"@[0] == '/');
}

// ---------------------------------------------------------------------------
// The context pane.
// ---------------------------------------------------------------------------

/// The note under the cursor is read where it is not the one the pane has, or where it is to be read
/// again; then the pane has it, with its text, and is centred where the note is another one. Without a
/// row under the cursor the pane is emptied. Nothing else changes.
pub proof fn panes_follow_the_cursor(a: AppView, force: bool, loaded: Option<Seq<char>>, i: nat)
    ensures
        a.row is None ==> context_wanted(a, force) is None && context_synced(a, force, loaded) == (
        AppView { ctx_note_path: None, ctx_content: None, ctx_scroll: 0, ..a }),
        a.row == Some(i) && i < a.rows.len() ==> {
            let note = match a.rows[i as int] {
                RowView::Task { task } => task.note_path,
                RowView::Header { group_key, .. } => group_key,
            };
            let same = a.ctx_note_path == Some(note);
            &&& context_wanted(a, force) == (if same && !force {
                None
            } else {
                Some(note)
            })
            &&& same && !force ==> context_synced(a, force, loaded) == a
            &&& same && force ==> context_synced(a, force, loaded) == (AppView {
                ctx_content: loaded,
                ..a
            })
            &&& !same ==> context_synced(a, force, loaded) == (AppView {
                ctx_note_path: Some(note),
                ctx_content: loaded,
                ctx_scroll: 0,
                ..a
            })
        },
{
}

}
