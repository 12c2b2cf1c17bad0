//! Keeping the state in step with the index.

use vstd::prelude::*;
use crate::actions::{failure_notice, render_failure_notice};
use crate::app::App;
use crate::model::{AppView, context_synced, context_wanted, cursor_note, newest_failure, polled,
    refreshed, resolved, unresolved};
use crate::task::{NoteContent, PendingAction, Task, action_views, opt_content, opt_text,
    task_views};
use crate::text::same_text;

verus! {

/// How long a wait for a key lasts, in milliseconds.
pub const POLL_TIMEOUT: u64 = 250;

/// How long the index may stay unread, in milliseconds.
pub const REFRESH_INTERVAL: u64 = 750;

/// How many resolved actions are read back at a time.
pub const RECENT_ACTION_LIMIT: i64 = 64;

/// Whether the index is due to be read, `since_last` milliseconds after it was last read, or never.
/// It is not while a task is being moved: new rows would undo the move.
pub open spec fn is_due(a: AppView, since_last: Option<u64>) -> bool {
    !a.moving && match since_last {
        Some(ms) => ms >= REFRESH_INTERVAL,
        None => true,
    }
}

/// Whether an action with `id` is among `recent`.
fn is_resolved(recent: &Vec<PendingAction>, id: i64) -> (r: bool)
    ensures
        r == resolved(action_views(recent@), id),
{
    let ghost rv = action_views(recent@);
    let mut i: usize = 0;
    while i < recent.len()
        invariant
            rv == action_views(recent@),
            i <= recent@.len(),
            forall|j: int| 0 <= j < i ==> (#[trigger] rv[j]).id != id,
        decreases recent@.len() - i,
    {
        assert(rv[i as int] == recent@[i as int]@);
        if recent[i].id == id {
            return true;
        }
        i += 1;
    }
    false
}

/// The ids of `pending` that are not among `recent`.
fn unresolved_of(pending: &Vec<i64>, recent: &Vec<PendingAction>) -> (r: Vec<i64>)
    ensures
        r@ == unresolved(pending@, action_views(recent@)),
{
    let ghost p = pending@;
    let mut r: Vec<i64> = Vec::new();
    let mut i: usize = 0;
    assert(p.take(0) =~= Seq::<i64>::empty());
    while i < pending.len()
        invariant
            p == pending@,
            i <= pending@.len(),
            r@ == unresolved(p.take(i as int), action_views(recent@)),
        decreases pending@.len() - i,
    {
        assert(p.take(i + 1).drop_last() =~= p.take(i as int));
        if !is_resolved(recent, pending[i]) {
            r.push(pending[i]);
        }
        i += 1;
    }
    assert(p.take(i as int) =~= p);
    r
}

fn is_tracked(pending: &Vec<i64>, id: i64) -> (r: bool)
    ensures
        r == pending@.contains(id),
{
    let mut i: usize = 0;
    while i < pending.len()
        invariant
            i <= pending@.len(),
            forall|j: int| 0 <= j < i ==> pending@[j] != id,
        decreases pending@.len() - i,
    {
        if pending[i] == id {
            assert(pending@[i as int] == id);
            return true;
        }
        i += 1;
    }
    false
}

/// The notice of the first action of `recent` that is tracked and failed.
fn failure_in(pending: &Vec<i64>, recent: &Vec<PendingAction>) -> (r: Option<String>)
    ensures
        opt_text(r) == (match newest_failure(pending@, action_views(recent@)) {
            Some(f) => Some(failure_notice(f)),
            None => None,
        }),
{
    let ghost rv = action_views(recent@);
    let mut i: usize = 0;
    assert(rv.skip(0) =~= rv);
    while i < recent.len()
        invariant
            rv == action_views(recent@),
            i <= recent@.len(),
            newest_failure(pending@, rv) == newest_failure(pending@, rv.skip(i as int)),
        decreases recent@.len() - i,
    {
        assert(rv.skip(i as int)[0] == recent@[i as int]@);
        assert(rv.skip(i as int).drop_first() =~= rv.skip(i + 1));
        if is_tracked(pending, recent[i].id) && same_text(recent[i].state.as_str(), "failed") {
            return Some(render_failure_notice(&recent[i]));
        }
        i += 1;
    }
    None
}

impl App {
    /// Whether the index is due to be read, `since_last` milliseconds after it was last read, or
    /// never. It is not while a task is being moved.
    pub fn refresh_due(&self, since_last: Option<u64>) -> (r: bool)
        ensures
            r == is_due(self@, since_last),
    {
        !self.moving && match since_last {
            Some(ms) => ms >= REFRESH_INTERVAL,
            None => true,
        }
    }

    /// Takes in what was read from the index on the day `today`, and keeps the cursor.
    pub fn refresh(&mut self, today: String, tasks: Vec<Task>)
        ensures
            final(self)@ == refreshed(old(self)@, today@, task_views(tasks@)),
    {
        self.today = today;
        self.tasks = tasks;
        self.rebuild();
    }

    /// Whether an action of this session is not resolved yet.
    pub fn awaits_resolution(&self) -> (r: bool)
        ensures
            r == (self@.pending.len() > 0),
    {
        self.pending_session_actions.len() > 0
    }

    /// Takes in the resolved actions `recent`, newest first: those of this session are no longer
    /// tracked, and the newest failure among them is told.
    pub fn poll_action_resolutions(&mut self, recent: &Vec<PendingAction>)
        ensures
            final(self)@ == polled(old(self)@, action_views(recent@)),
    {
        let notice = failure_in(&self.pending_session_actions, recent);
        self.pending_session_actions = unresolved_of(&self.pending_session_actions, recent);
        if notice.is_some() {
            self.notice = notice;
        }
    }

    /// Whether the note under the cursor is not the one the context pane has.
    fn context_moved(&self) -> (r: bool)
        ensures
            r == (cursor_note(self@) != self@.ctx_note_path),
    {
        match (self.selected_note_path(), &self.ctx_note_path) {
            (Some(a), Some(b)) => !same_text(a.as_str(), b.as_str()),
            (None, None) => false,
            _ => true,
        }
    }

    /// The note whose text is to be read for the context pane, if any. With `force` the note the
    /// pane has is read again.
    pub fn context_request(&self, force: bool) -> (r: Option<String>)
        ensures
            opt_text(r) == context_wanted(self@, force),
    {
        if force || self.context_moved() {
            self.selected_note_path()
        } else {
            None
        }
    }

    /// Brings the context pane in step with the cursor. `loaded` is the text of the note that
    /// [`App::context_request`] asked for, or none where the index does not have it.
    pub fn sync_context(&mut self, force: bool, loaded: Option<NoteContent>)
        ensures
            final(self)@ == context_synced(old(self)@, force, opt_content(loaded)),
    {
        let changed = self.context_moved();
        match self.selected_note_path() {
            None => {
                self.ctx_note_path = None;
                self.ctx_content = None;
                self.ctx_scroll = 0;
            },
            Some(note) => {
                if force || changed {
                    self.ctx_content = loaded;
                    self.ctx_note_path = Some(note);
                    if changed {
                        self.ctx_scroll = 0;
                    }
                }
            },
        }
    }
}

}
