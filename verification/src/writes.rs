//! The gestures that write, and what becomes of their submissions.

use vstd::prelude::*;
use vstd::string::*;
use crate::actions::{LastAction, Link, Request, Submission, cancel_target_char,
    enqueue_bullet_toggle, enqueue_cancel, enqueue_in_progress, enqueue_set_scheduled,
    enqueue_toggle, flip, flip_request, in_progress_target_char, opt_submission,
    toggle_target_char, undo_of};
use crate::app::App;
use crate::grouping::is_completed;
use crate::model::{TRACK_CAP, archivable, archive_pressed, archive_refusal, archive_submission,
    bullet_submission, cancel_submission, closed_tasks, cursor_link, enqueued,
    in_progress_submission, line_rank, schedule_submission, settled, toggle_submission,
    undo_submission, with_tracked};
use crate::moving::note_has_subtasks;
use crate::order::stable_sort;
use crate::paths::obsidian_url;
use crate::task::{Task, TaskView, task_views};
use crate::text::{decimal, same_text};

verus! {

/// The submission of a checkbox flip of `task`, which can be taken back.
fn flip_of(task: &Task, request: Request, new_char: &str) -> (r: Submission)
    requires
        request@ == flip_request(task@, new_char@),
    ensures
        r@ == flip(task@, new_char@),
{
    Submission {
        request,
        undo: Some(
            LastAction::CheckboxToggle {
                task_id: task.id,
                note_path: task.note_path.clone(),
                line_number: task.line_number,
                expected_char: task.raw_checkbox_char.clone(),
                new_char: new_char.to_owned(),
            },
        ),
        confirmation: None,
    }
}

/// The ids and lines of the closed, unnested tasks of `note`, in the order of the tasks.
fn closed_in(tasks: &Vec<Task>, note: &str) -> (r: Vec<(i64, usize)>)
    ensures
        r@ == closed_tasks(task_views(tasks@), note@),
{
    let ghost ts = task_views(tasks@);
    let mut r: Vec<(i64, usize)> = Vec::new();
    let mut i: usize = 0;
    assert(ts.take(0) =~= Seq::<TaskView>::empty());
    while i < tasks.len()
        invariant
            ts == task_views(tasks@),
            i <= tasks@.len(),
            r@ == closed_tasks(ts.take(i as int), note@),
        decreases tasks@.len() - i,
    {
        assert(ts.take(i + 1).drop_last() =~= ts.take(i as int));
        assert(ts[i as int] == tasks@[i as int]@);
        let t = &tasks[i];
        if t.indent == 0 && is_completed(&t.status, t.raw_checkbox_char.as_str()) && same_text(
            t.note_path.as_str(),
            note,
        ) {
            r.push((t.id, t.line_number));
        }
        i += 1;
    }
    assert(ts.take(i as int) =~= ts);
    r
}

/// The ids and lines of the closed, unnested tasks of `note`, top to bottom.
pub fn archivable_in(tasks: &Vec<Task>, note: &str) -> (r: Vec<(i64, usize)>)
    ensures
        r@ == archivable(task_views(tasks@), note@),
{
    let found = closed_in(tasks, note);
    let mut ranks: Vec<usize> = Vec::new();
    let mut i: usize = 0;
    while i < found.len()
        invariant
            i <= found@.len(),
            ranks@.len() == i,
            forall|k: int| 0 <= k < i ==> (#[trigger] found@[k]).1 == ranks@[k],
        decreases found@.len() - i,
    {
        ranks.push(found[i].1);
        i += 1;
    }
    stable_sort(found, ranks, Ghost(line_rank()))
}

/// The lines of ids and lines.
fn lines_in(found: &Vec<(i64, usize)>) -> (r: Vec<usize>)
    ensures
        r@ == found@.map_values(|p: (i64, usize)| p.1),
{
    let mut r: Vec<usize> = Vec::new();
    let mut i: usize = 0;
    while i < found.len()
        invariant
            i <= found@.len(),
            r@.len() == i,
            forall|k: int| 0 <= k < i ==> r@[k] == (#[trigger] found@[k]).1,
        decreases found@.len() - i,
    {
        r.push(found[i].1);
        i += 1;
    }
    assert(r@ =~= found@.map_values(|p: (i64, usize)| p.1));
    r
}

impl App {
    /// Toggles the task under the cursor between open and done; off a task nothing is submitted.
    pub fn submit_toggle(&self) -> (r: Option<Submission>)
        ensures
            opt_submission(r) == toggle_submission(self@),
    {
        match self.selected_task() {
            Some(t) => Some(
                flip_of(t, enqueue_toggle(t), toggle_target_char(t.raw_checkbox_char.as_str())),
            ),
            None => None,
        }
    }

    /// Cancels the task under the cursor, or reopens it; off a task nothing is submitted.
    pub fn submit_cancel(&self) -> (r: Option<Submission>)
        ensures
            opt_submission(r) == cancel_submission(self@),
    {
        match self.selected_task() {
            Some(t) => Some(
                flip_of(t, enqueue_cancel(t), cancel_target_char(t.raw_checkbox_char.as_str())),
            ),
            None => None,
        }
    }

    /// Marks the task under the cursor as in progress, or reopens it; off a task nothing is
    /// submitted.
    pub fn submit_in_progress(&self) -> (r: Option<Submission>)
        ensures
            opt_submission(r) == in_progress_submission(self@),
    {
        match self.selected_task() {
            Some(t) => Some(
                flip_of(
                    t,
                    enqueue_in_progress(t),
                    in_progress_target_char(t.raw_checkbox_char.as_str()),
                ),
            ),
            None => None,
        }
    }

    /// Turns the line of the task under the cursor into a bullet or back; off a task nothing is
    /// submitted.
    pub fn submit_bullet_toggle(&self) -> (r: Option<Submission>)
        ensures
            opt_submission(r) == bullet_submission(self@),
    {
        match self.selected_task() {
            Some(t) => Some(
                Submission {
                    request: enqueue_bullet_toggle(t),
                    undo: Some(
                        LastAction::BulletToggle {
                            task_id: t.id,
                            note_path: t.note_path.clone(),
                            line_number: t.line_number,
                        },
                    ),
                    confirmation: None,
                },
            ),
            None => None,
        }
    }

    /// Marks the task under the cursor for today; a task that has the mark loses it. Off a task
    /// nothing is submitted.
    pub fn submit_set_scheduled(&self) -> (r: Option<Submission>)
        ensures
            opt_submission(r) == schedule_submission(self@),
    {
        match self.selected_task() {
            Some(t) => {
                let marked = match &t.scheduled_date {
                    Some(d) => same_text(d.as_str(), self.today.as_str()),
                    None => false,
                };
                let desired = if marked {
                    None
                } else {
                    Some(self.today.as_str())
                };
                Some(
                    Submission {
                        request: enqueue_set_scheduled(t, desired),
                        undo: None,
                        confirmation: None,
                    },
                )
            },
            None => None,
        }
    }

    /// Takes the last write back; without one nothing is submitted. Taking back is not itself
    /// remembered.
    pub fn submit_undo(&self) -> (r: Option<Submission>)
        ensures
            opt_submission(r) == undo_submission(self@),
    {
        match &self.last_action {
            Some(a) => Some(Submission { request: undo_of(a), undo: None, confirmation: None }),
            None => None,
        }
    }

    /// Why the archive gesture is refused on `note`, if it is, `found` being its closed tasks.
    fn archive_refused(&self, note: &str, found: &Vec<(i64, usize)>) -> (r: Option<&'static str>)
        requires
            found@ == archivable(self@.tasks, note@),
        ensures
            match r {
                Some(why) => archive_refusal(self@, note@) == Some(why@),
                None => archive_refusal(self@, note@) is None,
            },
    {
        if note_has_subtasks(&self.tasks, note) {
            Some("Archive supports flat task lists only (v1); this note has subtasks")
        } else if found.len() == 0 {
            Some("No completed tasks to archive in this note")
        } else if same_text(self.archive_path.as_str(), note) {
            Some("Archive path cannot be the source note")
        } else {
            None
        }
    }

    /// Submits the closed tasks of the note under the cursor for the archive, whatever is filtered.
    /// It is refused with a notice off a task, and where the note has nested tasks, has no closed
    /// task, or is the archive itself.
    pub fn archive_completed(&mut self) -> (r: Option<Submission>)
        ensures
            final(self)@ == archive_pressed(old(self)@),
            opt_submission(r) == archive_submission(old(self)@),
    {
        let note = match self.selected_task() {
            Some(t) => t.note_path.clone(),
            None => {
                self.notice = Some("Archive needs a task under the cursor".to_owned());
                return None;
            },
        };
        let found = archivable_in(&self.tasks, note.as_str());
        if let Some(why) = self.archive_refused(note.as_str(), &found) {
            self.notice = Some(why.to_owned());
            return None;
        }
        let mut confirmation = "Archiving ".to_owned();
        confirmation.append(decimal(found.len()).as_str());
        confirmation.append(" completed task(s) → ");
        confirmation.append(self.archive_path.as_str());
        Some(
            Submission {
                request: Request::Archive {
                    task_id: found[0].0,
                    note_path: note,
                    line_number: found[0].1,
                    archive_path: self.archive_path.clone(),
                    lines: lines_in(&found),
                },
                undo: None,
                confirmation: Some(confirmation),
            },
        )
    }

    /// Takes note of an enqueue: a new action is tracked, not beyond the cap, and clears the
    /// notice; a failed enqueue changes nothing.
    pub fn track_enqueued(&mut self, result: Option<i64>)
        ensures
            final(self)@ == enqueued(old(self)@, result),
    {
        if let Some(id) = result {
            self.notice = None;
            self.pending_session_actions.push(id);
            let n: usize = self.pending_session_actions.len();
            if n > TRACK_CAP {
                let kept = self.pending_session_actions.split_off(n - TRACK_CAP);
                self.pending_session_actions = kept;
            }
            assert(self.pending_session_actions@ =~= with_tracked(old(self)@.pending, id));
        }
    }

    /// Takes note of what became of a submission: `result` is the id it has in the queue, or none
    /// where it could not be put there. A failed one changes nothing.
    pub fn settle(&mut self, submission: Submission, result: Option<i64>)
        ensures
            final(self)@ == settled(old(self)@, submission@, result),
    {
        self.track_enqueued(result);
        if result.is_some() {
            if submission.undo.is_some() {
                self.last_action = submission.undo;
            }
            self.notice = submission.confirmation;
        }
    }
}

/// The link to the task under the cursor of `app`.
pub fn open_in_obsidian(app: &App) -> (r: Link)
    ensures
        r@ == cursor_link(app@),
{
    match (&app.vault_name, app.selected_task()) {
        (None, _) => Link::UnknownVault,
        (Some(_), None) => Link::NothingSelected,
        (Some(vault), Some(t)) => Link::Url(
            obsidian_url(
                vault.as_str(),
                t.note_path.as_str(),
                t.line_number,
                app.use_advanced_uri,
            ),
        ),
    }
}

}
