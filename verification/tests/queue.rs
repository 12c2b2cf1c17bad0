//! The gestures that write, against an index in memory.

use taski_tui::actions::{LastAction, Request, Submission, enqueue_toggle, render_failure_notice};
use taski_tui::app::App;
use taski_tui::context::context_view;
use taski_tui::grouping::StatusFilter;
use taski_tui::task::{NoteContent, PendingAction, Status, Task};

fn task(id: i64, raw: &str, line: usize, note: &str) -> Task {
    Task {
        id,
        note_path: note.to_string(),
        line_number: line,
        indent: 0,
        text: format!("task {id}"),
        status: Status::from_checkbox_char(raw),
        raw_checkbox_char: raw.to_string(),
        due_date: None,
        scheduled_date: None,
        tags: Vec::new(),
        priority: None,
    }
}

fn task_with_scheduled(id: i64, raw: &str, line: usize, note: &str, sched: &str) -> Task {
    let mut t = task(id, raw, line, note);
    t.scheduled_date = Some(sched.to_string());
    t
}

fn new_app() -> App {
    App::new("2026-06-25".to_string())
}

/// A state with `n` open tasks (lines 1..=n) in one note, the group unfolded and the given row under
/// the cursor. Row 0 is the header.
fn app_with_expanded_note(note: &str, n: usize, select_task_idx: usize) -> App {
    let mut app = new_app();
    app.tasks = (1..=n).map(|i| task(i as i64, " ", i, note)).collect();
    app.rebuild();
    app.expand_all();
    app.state.select(Some(select_task_idx));
    app
}

/// A state with the tasks `(id, checkbox, line)` of one note, the group unfolded and its first task
/// under the cursor.
fn app_with_statuses(note: &str, specs: &[(i64, &str, usize)]) -> App {
    let mut app = new_app();
    app.tasks = specs
        .iter()
        .map(|&(id, raw, ln)| task(id, raw, ln, note))
        .collect();
    app.rebuild();
    app.expand_all();
    app.state.select(Some(1));
    app
}

/// A row of the queue.
#[derive(Clone)]
struct Action {
    id: i64,
    task_id: i64,
    note_path: String,
    line_number: usize,
    expected_char: String,
    new_char: String,
    action_type: String,
    payload: Option<String>,
    state: String,
    error: Option<String>,
}

/// An index in memory: tasks in note and line order, note texts and the queue.
struct Index {
    tasks: Vec<Task>,
    notes: Vec<(String, String)>,
    actions: Vec<Action>,
    resolved: Vec<i64>,
}

impl Index {
    fn new() -> Index {
        Index {
            tasks: Vec::new(),
            notes: Vec::new(),
            actions: Vec::new(),
            resolved: Vec::new(),
        }
    }

    fn upsert_task(&mut self, t: Task) {
        self.tasks.retain(|other| other.id != t.id);
        self.tasks.push(t);
        self.tasks
            .sort_by_key(|t| (t.note_path.clone(), t.line_number));
    }

    #[allow(dead_code)]
    fn delete_tasks_for_note(&mut self, note: &str) {
        self.tasks.retain(|t| t.note_path != note);
    }

    #[allow(dead_code)]
    fn upsert_note_content(&mut self, note: &str, text: &str) {
        self.notes.retain(|(n, _)| n != note);
        self.notes.push((note.to_string(), text.to_string()));
    }

    fn lines(lines: &[usize]) -> String {
        let words: Vec<String> = lines.iter().map(|l| l.to_string()).collect();
        words.join(",")
    }

    fn enqueue(&mut self, request: &Request) -> i64 {
        let id = self.actions.len() as i64 + 1;
        let blank = Action {
            id,
            task_id: 0,
            note_path: String::new(),
            line_number: 0,
            expected_char: String::new(),
            new_char: String::new(),
            action_type: String::new(),
            payload: None,
            state: "pending".to_string(),
            error: None,
        };
        let action = match request {
            Request::Checkbox { task_id, note_path, line_number, expected_char, new_char } => Action {
                task_id: *task_id,
                note_path: note_path.clone(),
                line_number: *line_number,
                expected_char: expected_char.clone(),
                new_char: new_char.clone(),
                action_type: "checkbox".to_string(),
                ..blank
            },
            Request::SetScheduled { task_id, note_path, line_number, date } => Action {
                task_id: *task_id,
                note_path: note_path.clone(),
                line_number: *line_number,
                action_type: "set_scheduled".to_string(),
                payload: date.clone(),
                ..blank
            },
            Request::ToggleBullet { task_id, note_path, line_number } => Action {
                task_id: *task_id,
                note_path: note_path.clone(),
                line_number: *line_number,
                action_type: "toggle_bullet".to_string(),
                ..blank
            },
            Request::QuickAdd { inbox_path, text } => Action {
                note_path: inbox_path.clone(),
                action_type: "quick_add".to_string(),
                payload: Some(text.clone()),
                ..blank
            },
            Request::QuickAddUndo { inbox_path, text } => Action {
                note_path: inbox_path.clone(),
                action_type: "quick_add_undo".to_string(),
                payload: Some(text.clone()),
                ..blank
            },
            Request::AddNote { task_id, note_path, line_number, text } => Action {
                task_id: *task_id,
                note_path: note_path.clone(),
                line_number: *line_number,
                action_type: "add_note".to_string(),
                payload: Some(text.clone()),
                ..blank
            },
            Request::Reorder { task_id, note_path, line_number, lines } => Action {
                task_id: *task_id,
                note_path: note_path.clone(),
                line_number: *line_number,
                action_type: "reorder".to_string(),
                payload: Some(Index::lines(lines)),
                ..blank
            },
            Request::Archive { task_id, note_path, line_number, archive_path, lines } => Action {
                task_id: *task_id,
                note_path: note_path.clone(),
                line_number: *line_number,
                action_type: "archive".to_string(),
                payload: Some(format!("{archive_path}\t{}", Index::lines(lines))),
                ..blank
            },
        };
        self.actions.push(action);
        id
    }

    /// Puts a submission into the queue and settles it.
    #[allow(dead_code)]
    fn queue(&mut self, app: &mut App, submission: Option<Submission>) {
        if let Some(s) = submission {
            let id = self.enqueue(&s.request);
            app.settle(s, Some(id));
        }
    }

    #[allow(dead_code)]
    fn pending_actions(&self) -> Vec<Action> {
        self.actions
            .iter()
            .filter(|a| a.state == "pending")
            .cloned()
            .collect()
    }

    #[allow(dead_code)]
    fn resolve_action(&mut self, id: i64, state: &str, error: Option<&str>) {
        for a in &mut self.actions {
            if a.id == id {
                a.state = state.to_string();
                a.error = error.map(|e| e.to_string());
                self.resolved.push(id);
            }
        }
    }

    /// The resolved actions, newest first.
    fn recent_actions(&self, limit: usize) -> Vec<PendingAction> {
        self.resolved
            .iter()
            .rev()
            .take(limit)
            .map(|id| {
                let a = self.actions.iter().find(|a| a.id == *id).unwrap();
                PendingAction {
                    id: a.id,
                    action_type: a.action_type.clone(),
                    note_path: a.note_path.clone(),
                    new_char: a.new_char.clone(),
                    state: a.state.clone(),
                    error: a.error.clone(),
                }
            })
            .collect()
    }

    fn sync(&self, app: &mut App, force: bool) {
        let loaded = app.context_request(force).and_then(|note| {
            self.notes
                .iter()
                .find(|(n, _)| *n == note)
                .map(|(_, text)| NoteContent { content: text.clone() })
        });
        app.sync_context(force, loaded);
    }

    fn refresh(&self, app: &mut App) {
        app.refresh(app.today.clone(), self.tasks.clone());
        if app.awaits_resolution() {
            app.poll_action_resolutions(&self.recent_actions(64));
        }
        self.sync(app, true);
    }
}

#[test]
fn commit_move_enqueues_reorder_with_new_order() {
    let mut index = Index::new();
    let mut app = app_with_expanded_note("inbox.md", 3, 1);
    app.start_move();
    app.move_task(1);
    let submission = app.commit_move();
    index.queue(&mut app, submission);
    assert!(!app.moving, "commit exits move mode");

    let pending = index.pending_actions();
    assert_eq!(pending.len(), 1);
    let a = &pending[0];
    assert_eq!(a.action_type, "reorder");
    assert_eq!(a.payload.as_deref(), Some("2,1,3"));
    assert_eq!(a.task_id, 1, "anchor is the moved task");
    assert_eq!(a.note_path, "inbox.md");
}

#[test]
fn commit_move_no_change_does_not_enqueue() {
    let mut index = Index::new();
    let mut app = app_with_expanded_note("inbox.md", 3, 1);
    app.start_move();
    app.move_task(-1);
    let submission = app.commit_move();
    index.queue(&mut app, submission);
    assert!(!app.moving);
    assert!(
        index.pending_actions().is_empty(),
        "an unchanged order enqueues nothing"
    );
}

#[test]
fn archive_completed_enqueues_done_and_cancelled_only() {
    let mut index = Index::new();
    let mut app = app_with_statuses(
        "task-inbox.md",
        &[(1, " ", 1), (2, "x", 2), (3, "/", 3), (4, "-", 4)],
    );
    let submission = app.archive_completed();
    index.queue(&mut app, submission);

    let pending = index.pending_actions();
    assert_eq!(pending.len(), 1);
    let a = &pending[0];
    assert_eq!(a.action_type, "archive");
    assert_eq!(a.note_path, "task-inbox.md", "source note");
    assert_eq!(a.payload.as_deref(), Some("task-archive.md\t2,4"));
    assert_eq!(a.task_id, 2, "anchor is the first completed task");
    assert_eq!(a.line_number, 2, "anchor line");
    assert!(app.notice.as_deref().unwrap().contains("Archiving 2"));
}

#[test]
fn archive_completed_noop_when_nothing_completed() {
    let mut index = Index::new();
    let mut app = app_with_statuses("task-inbox.md", &[(1, " ", 1), (2, "/", 2)]);
    let submission = app.archive_completed();
    index.queue(&mut app, submission);
    assert!(
        index.pending_actions().is_empty(),
        "no completed tasks → nothing enqueued"
    );
    assert!(
        app.notice
            .as_deref()
            .unwrap()
            .contains("No completed tasks")
    );
}

#[test]
fn archive_completed_refused_on_note_with_subtasks() {
    let mut index = Index::new();
    let mut app = new_app();
    let mut child = task(2, "x", 2, "task-inbox.md");
    child.indent = 4;
    app.tasks = vec![task(1, " ", 1, "task-inbox.md"), child];
    app.rebuild();
    app.expand_all();
    app.state.select(Some(1));

    let submission = app.archive_completed();
    index.queue(&mut app, submission);
    assert!(
        index.pending_actions().is_empty(),
        "flat-only: a note with subtasks refuses archive"
    );
    assert!(
        app.notice
            .as_deref()
            .unwrap()
            .contains("flat task lists only")
    );
}

#[test]
fn refresh_updates_view_and_preserves_selection() {
    let mut index = Index::new();
    let mut app = new_app();

    index.refresh(&mut app);
    assert!(app.rows.is_empty());
    assert_eq!(app.state.selected(), None);

    index.upsert_task(task(1, " ", 1, "alpha.md"));
    index.upsert_task(task(2, " ", 2, "beta.md"));
    index.upsert_task(task(3, " ", 3, "gamma.md"));
    index.refresh(&mut app);
    assert_eq!(app.tasks.len(), 3);
    assert_eq!(app.rows.len(), 3, "three collapsed headers, no task rows");
    assert_eq!(app.state.selected(), Some(0));

    app.state.select(Some(2));
    index.delete_tasks_for_note("alpha.md");
    index.delete_tasks_for_note("gamma.md");
    index.refresh(&mut app);
    assert_eq!(app.rows.len(), 1);
    assert_eq!(
        app.state.selected(),
        Some(0),
        "out-of-range selection must clamp to the last valid row"
    );

    app.state.select(Some(0));
    index.refresh(&mut app);
    assert_eq!(app.state.selected(), Some(0));

    index.delete_tasks_for_note("beta.md");
    index.refresh(&mut app);
    assert!(app.rows.is_empty());
    assert_eq!(app.state.selected(), None);
}

#[test]
fn submit_toggle_targets_cursor_task_not_header() {
    let mut index = Index::new();
    index.upsert_task(task(1, " ", 1, "alpha.md"));
    index.upsert_task(task(2, "x", 2, "alpha.md"));

    let mut app = new_app();
    app.filter = StatusFilter::All;
    index.refresh(&mut app);
    app.expanded.insert("alpha.md".to_string());
    app.rebuild();

    app.state.select(Some(0));
    let submission = app.submit_toggle();
    index.queue(&mut app, submission);
    assert!(
        index.pending_actions().is_empty(),
        "header must not toggle"
    );

    app.state.select(Some(2));
    let submission = app.submit_toggle();
    index.queue(&mut app, submission);
    let pending = index.pending_actions();
    assert_eq!(pending.len(), 1);
    assert_eq!(pending[0].task_id, 2);
    assert_eq!(pending[0].expected_char, "x");
    assert_eq!(pending[0].new_char, " ");
}

#[test]
fn submit_undo_after_toggle_enqueues_reversed_flip() {
    let mut index = Index::new();
    index.upsert_task(task(1, " ", 1, "alpha.md"));

    let mut app = new_app();
    app.filter = StatusFilter::All;
    index.refresh(&mut app);
    app.expanded.insert("alpha.md".to_string());
    app.rebuild();
    app.state.select(Some(1));

    let submission = app.submit_toggle();
    index.queue(&mut app, submission);
    let forward = &index.pending_actions()[0];
    assert_eq!(forward.expected_char, " ");
    assert_eq!(forward.new_char, "x");

    let submission = app.submit_undo();
    index.queue(&mut app, submission);

    let pending = index.pending_actions();
    assert_eq!(pending.len(), 2, "forward flip + undo flip both pending");
    let undo = &pending[1];
    assert_eq!(undo.task_id, 1);
    assert_eq!(
        undo.expected_char, "x",
        "undo expected_char must be the forward flip's new_char (swapped)"
    );
    assert_eq!(
        undo.new_char, " ",
        "undo new_char must be the forward flip's expected_char (swapped)"
    );
}

#[test]
fn submit_quick_add_enqueues_and_records_last_action() {
    let mut index = Index::new();
    let mut app = new_app();
    app.inbox_path = "task-inbox.md".to_string();
    app.quick_add_query = "my new task".to_string();
    app.quick_adding = true;

    let submission = app.submit_quick_add();
    index.queue(&mut app, submission);

    let pending = index.pending_actions();
    assert_eq!(pending.len(), 1, "exactly one quick_add action enqueued");
    assert_eq!(pending[0].action_type, "quick_add");
    assert_eq!(pending[0].payload.as_deref(), Some("my new task"));
    assert_eq!(pending[0].note_path, "task-inbox.md");
    assert_eq!(pending[0].task_id, 0, "quick_add uses sentinel task_id = 0");

    assert!(
        matches!(
            &app.last_action,
            Some(LastAction::QuickAdd { inbox_path, text })
                if inbox_path == "task-inbox.md" && text == "my new task"
        ),
        "last_action must be QuickAdd with the inbox path + text"
    );

    assert!(!app.quick_adding, "modal must exit after submit");
    assert!(
        app.quick_add_query.is_empty(),
        "query must be cleared after submit"
    );
}

#[test]
fn quick_add_empty_text_is_noop() {
    let mut index = Index::new();
    let mut app = new_app();
    app.quick_add_query = "   ".to_string();
    app.quick_adding = true;

    let submission = app.submit_quick_add();
    index.queue(&mut app, submission);

    assert!(
        index.pending_actions().is_empty(),
        "whitespace-only text must not enqueue anything"
    );
    assert!(!app.quick_adding, "modal must still exit on empty text");
}

#[test]
fn submit_undo_after_quick_add_enqueues_quick_add_undo() {
    let mut index = Index::new();
    let mut app = new_app();
    app.last_action = Some(LastAction::QuickAdd {
        inbox_path: "task-inbox.md".into(),
        text: "undo me".into(),
    });

    let submission = app.submit_undo();
    index.queue(&mut app, submission);

    let pending = index.pending_actions();
    assert_eq!(
        pending.len(),
        1,
        "exactly one quick_add_undo action enqueued"
    );
    assert_eq!(pending[0].action_type, "quick_add_undo");
    assert_eq!(pending[0].payload.as_deref(), Some("undo me"));
    assert_eq!(pending[0].note_path, "task-inbox.md");
}

#[test]
fn failed_quick_add_surfaces_quick_add_notice() {
    let mut index = Index::new();
    let mut app = new_app();
    app.inbox_path = "task-inbox.md".to_string();
    app.quick_add_query = "my task".to_string();
    app.quick_adding = true;
    let submission = app.submit_quick_add();
    index.queue(&mut app, submission);
    let id = index.pending_actions()[0].id;

    index.resolve_action(id,
        "failed",
        Some("note changed externally since scan; quick_add not applied"),
    );
    index.refresh(&mut app);

    let notice = app
        .notice
        .as_deref()
        .expect("quick_add failure should surface a notice");
    assert!(
        notice.starts_with("Quick add not applied"),
        "quick_add notice should be worded for the quick-add gesture: {notice}"
    );
    assert!(
        notice.contains("task-inbox.md"),
        "notice should name the inbox path"
    );
    assert!(
        notice.contains("Press a"),
        "notice should hint the `a` retry key, not Space: {notice}"
    );
    assert!(
        !notice.contains("Space"),
        "quick_add notice must NOT hint the done-toggle retry key: {notice}"
    );
    assert!(
        !notice.contains("Toggle"),
        "quick_add notice must NOT carry the done-toggle verb: {notice}"
    );
}

#[test]
fn submit_set_scheduled_marks_and_unmarks() {
    let mut index = Index::new();
    let mut app = new_app();
    let today = app.today.clone();
    index.upsert_task(task(1, " ", 1, "alpha.md"));
    index.upsert_task(task_with_scheduled(2, " ", 2, "alpha.md", &today));
    app.filter = StatusFilter::All;
    index.refresh(&mut app);
    app.expanded.insert("alpha.md".to_string());
    app.rebuild();

    app.state.select(Some(0));
    let submission = app.submit_set_scheduled();
    index.queue(&mut app, submission);
    assert!(
        index.pending_actions().is_empty(),
        "header must not mark"
    );

    app.state.select(Some(1));
    let submission = app.submit_set_scheduled();
    index.queue(&mut app, submission);
    let pending = index.pending_actions();
    assert_eq!(pending.len(), 1);
    assert_eq!(pending[0].action_type, "set_scheduled");
    assert_eq!(pending[0].task_id, 1);
    assert_eq!(pending[0].payload.as_deref(), Some(today.as_str()));

    app.state.select(Some(2));
    let submission = app.submit_set_scheduled();
    index.queue(&mut app, submission);
    let pending = index.pending_actions();
    assert_eq!(pending.len(), 2);
    let clear = pending.iter().find(|a| a.task_id == 2).unwrap();
    assert_eq!(clear.action_type, "set_scheduled");
    assert!(clear.payload.is_none(), "already-today -> clear (None)");
}

#[test]
fn enqueue_toggle_inserts_pending_action_with_expected_bytes() {
    let mut index = Index::new();
    assert!(index.pending_actions().is_empty());

    let t = task(1, " ", 3, "n.md");
    let returned_id = index.enqueue(&enqueue_toggle(&t));

    let pending = index.pending_actions();
    assert_eq!(pending.len(), 1);
    let p = &pending[0];
    assert_eq!(returned_id, p.id);
    assert_eq!(p.task_id, 1);
    assert_eq!(p.note_path, "n.md");
    assert_eq!(p.line_number, 3);
    assert_eq!(p.expected_char, " ");
    assert_eq!(p.new_char, "x", "open -> done");
    assert_eq!(p.state, "pending");
    assert!(p.error.is_none());

    index.resolve_action(p.id, "done", None);
    let done_task = task(2, "x", 7, "n.md");
    let returned_id2 = index.enqueue(&enqueue_toggle(&done_task));
    let p2 = &index.pending_actions()[0];
    assert_eq!(returned_id2, p2.id);
    assert_eq!(p2.expected_char, "x");
    assert_eq!(p2.new_char, " ");
}

#[test]
fn failed_action_surfaces_notice_on_refresh() {
    let mut index = Index::new();
    index.upsert_task(task(1, " ", 1, "alpha.md"));

    let mut app = new_app();
    app.filter = StatusFilter::All;
    index.refresh(&mut app);
    app.expanded.insert("alpha.md".to_string());
    app.rebuild();
    app.state.select(Some(1));
    let submission = app.submit_toggle();
    index.queue(&mut app, submission);
    let pending = index.pending_actions();
    assert_eq!(pending.len(), 1);
    assert_eq!(app.pending_session_actions, vec![pending[0].id]);
    assert!(app.notice.is_none(), "no notice before resolution");

    index.resolve_action(pending[0].id,
        "failed",
        Some("note changed externally since scan; action not applied"),
    );
    index.refresh(&mut app);

    let notice = app
        .notice
        .as_deref()
        .expect("failure should surface a notice");
    assert!(notice.contains("alpha.md"), "notice should name the note");
    assert!(
        notice.contains("this note changed in Obsidian"),
        "notice should carry the plain reason"
    );
    assert!(notice.contains("Space"), "notice should hint the retry key");
    assert!(
        app.pending_session_actions.is_empty(),
        "resolved id should drop from tracking"
    );
}

#[test]
fn failed_set_scheduled_surfaces_mark_notice() {
    let mut index = Index::new();
    let mut app = new_app();
    let today = app.today.clone();
    index.upsert_task(task(1, " ", 1, "alpha.md"));
    app.filter = StatusFilter::All;
    index.refresh(&mut app);
    app.expanded.insert("alpha.md".to_string());
    app.rebuild();
    app.state.select(Some(1));
    let submission = app.submit_set_scheduled();
    index.queue(&mut app, submission);
    let pending = index.pending_actions();
    assert_eq!(pending.len(), 1);
    assert_eq!(pending[0].action_type, "set_scheduled");
    assert_eq!(pending[0].payload.as_deref(), Some(today.as_str()));

    index.resolve_action(pending[0].id,
        "failed",
        Some("scheduled date is malformed or unparseable; action not applied"),
    );
    index.refresh(&mut app);

    let notice = app
        .notice
        .as_deref()
        .expect("set_scheduled failure should surface a notice");
    assert!(
        notice.starts_with("Mark not applied"),
        "set_scheduled notice should be worded for the mark gesture: {notice}"
    );
    assert!(notice.contains("alpha.md"), "notice should name the note");
    assert!(
        notice.contains("couldn't be parsed"),
        "notice should carry the plain reason"
    );
    assert!(
        notice.contains("Press t"),
        "notice should hint the `t` retry key, not Space: {notice}"
    );
    assert!(
        !notice.contains("Space"),
        "set_scheduled notice must NOT hint the checkbox retry key: {notice}"
    );
}

#[test]
fn failed_cancel_surfaces_cancel_notice() {
    let mut index = Index::new();
    index.upsert_task(task(1, " ", 1, "alpha.md"));

    let mut app = new_app();
    app.filter = StatusFilter::All;
    index.refresh(&mut app);
    app.expanded.insert("alpha.md".to_string());
    app.rebuild();
    app.state.select(Some(1));
    let submission = app.submit_cancel();
    index.queue(&mut app, submission);
    let pending = index.pending_actions();
    assert_eq!(pending.len(), 1);
    assert_eq!(pending[0].action_type, "checkbox");
    assert_eq!(pending[0].new_char, "-", "cancel enqueues a flip to '-'");

    index.resolve_action(pending[0].id,
        "failed",
        Some("existing ❌ is malformed or unparseable; cancel not applied"),
    );
    index.refresh(&mut app);

    let notice = app
        .notice
        .as_deref()
        .expect("cancel failure should surface a notice");
    assert!(
        notice.starts_with("Cancel not applied"),
        "cancel notice should be worded for the cancel gesture: {notice}"
    );
    assert!(notice.contains("alpha.md"), "notice should name the note");
    assert!(
        notice.contains("the cancelled date on this line couldn't be parsed"),
        "notice should carry the cancelled-date reason: {notice}"
    );
    assert!(
        !notice.contains("the scheduled date"),
        "cancel notice must NOT carry the scheduled-date wording: {notice}"
    );
    assert!(
        notice.contains("Press d"),
        "notice should hint the `d` retry key, not Space: {notice}"
    );
    assert!(
        !notice.contains("Space"),
        "cancel notice must NOT hint the done-toggle retry key: {notice}"
    );
}

#[test]
fn submit_in_progress_enqueues_flip_to_in_progress_char() {
    let mut index = Index::new();
    index.upsert_task(task(1, " ", 1, "alpha.md"));

    let mut app = new_app();
    app.filter = StatusFilter::All;
    index.refresh(&mut app);
    app.expanded.insert("alpha.md".to_string());
    app.rebuild();
    app.state.select(Some(1));
    let submission = app.submit_in_progress();
    index.queue(&mut app, submission);

    let pending = index.pending_actions();
    assert_eq!(pending.len(), 1, "one in-progress action enqueued");
    let p = &pending[0];
    assert_eq!(p.task_id, 1);
    assert_eq!(p.new_char, "/", "in-progress enqueues a flip to '/'");
    assert_eq!(p.expected_char, " ", "expected_char is the open char");
    assert_eq!(p.action_type, "checkbox", "reuses the checkbox action_type");
    assert!(p.error.is_none());

    assert_eq!(app.pending_session_actions, vec![p.id]);

    match &app.last_action {
        Some(LastAction::CheckboxToggle { new_char, .. }) => {
            assert_eq!(new_char, "/", "undo record carries the in-progress char");
        }
        other => panic!("expected CheckboxToggle last_action, got {other:?}"),
    }
}

#[test]
fn failed_in_progress_surfaces_in_progress_notice() {
    let mut index = Index::new();
    index.upsert_task(task(1, " ", 1, "alpha.md"));

    let mut app = new_app();
    app.filter = StatusFilter::All;
    index.refresh(&mut app);
    app.expanded.insert("alpha.md".to_string());
    app.rebuild();
    app.state.select(Some(1));
    let submission = app.submit_in_progress();
    index.queue(&mut app, submission);
    let pending = index.pending_actions();
    assert_eq!(pending.len(), 1);
    assert_eq!(pending[0].action_type, "checkbox");
    assert_eq!(
        pending[0].new_char, "/",
        "in-progress enqueues a flip to '/'"
    );

    index.resolve_action(pending[0].id,
        "failed",
        Some("note changed externally since scan; action not applied"),
    );
    index.refresh(&mut app);

    let notice = app
        .notice
        .as_deref()
        .expect("in-progress failure should surface a notice");
    assert!(
        notice.starts_with("Mark in-progress not applied"),
        "in-progress notice should be worded for the in-progress gesture: {notice}"
    );
    assert!(notice.contains("alpha.md"), "notice should name the note");
    assert!(
        notice.contains("Press i to try again"),
        "notice should hint the `i` retry key: {notice}"
    );
    assert!(
        !notice.contains("Cancel"),
        "in-progress notice must NOT carry the cancel wording: {notice}"
    );
    assert!(
        !notice.contains("Space"),
        "in-progress notice must NOT hint the done-toggle retry key: {notice}"
    );
}

#[test]
fn done_action_surfaces_no_notice() {
    let mut index = Index::new();
    index.upsert_task(task(1, " ", 1, "alpha.md"));

    let mut app = new_app();
    app.filter = StatusFilter::All;
    index.refresh(&mut app);
    app.expanded.insert("alpha.md".to_string());
    app.rebuild();
    app.state.select(Some(1));
    let submission = app.submit_toggle();
    index.queue(&mut app, submission);
    let id = index.pending_actions()[0].id;

    index.resolve_action(id, "done", None);
    index.refresh(&mut app);

    assert!(
        app.notice.is_none(),
        "a successful flip must not show a notice"
    );
    assert!(
        app.pending_session_actions.is_empty(),
        "done id should drop from tracking"
    );
}

#[test]
fn pending_action_surfaces_no_notice_and_stays_tracked() {
    let mut index = Index::new();
    index.upsert_task(task(1, " ", 1, "alpha.md"));

    let mut app = new_app();
    app.filter = StatusFilter::All;
    index.refresh(&mut app);
    app.expanded.insert("alpha.md".to_string());
    app.rebuild();
    app.state.select(Some(1));
    let submission = app.submit_toggle();
    index.queue(&mut app, submission);
    let id = index.pending_actions()[0].id;

    index.refresh(&mut app);

    assert!(
        app.notice.is_none(),
        "pending action must not show a notice"
    );
    assert_eq!(
        app.pending_session_actions,
        vec![id],
        "pending id should stay tracked"
    );
}

#[test]
fn notice_clears_on_next_enqueue() {
    let mut index = Index::new();
    index.upsert_task(task(1, " ", 1, "alpha.md"));
    index.upsert_task(task(2, " ", 2, "alpha.md"));

    let mut app = new_app();
    app.filter = StatusFilter::All;
    index.refresh(&mut app);
    app.expanded.insert("alpha.md".to_string());
    app.rebuild();

    app.state.select(Some(1));
    let submission = app.submit_toggle();
    index.queue(&mut app, submission);
    let id1 = index.pending_actions()[0].id;
    index.resolve_action(id1,
        "failed",
        Some("note changed externally since scan"),
    );
    index.refresh(&mut app);
    assert!(app.notice.is_some(), "notice should be set after a refusal");

    app.state.select(Some(2));
    let submission = app.submit_toggle();
    index.queue(&mut app, submission);
    assert!(
        app.notice.is_none(),
        "new enqueue should clear the prior notice"
    );
    let id2 = index.pending_actions()[0].id;
    assert_eq!(
        app.pending_session_actions,
        vec![id2],
        "only the new id should be tracked (resolved id1 dropped on prior refresh)"
    );
}

#[test]
fn no_session_action_means_no_notice() {
    let mut index = Index::new();
    let id = index.enqueue(&Request::Checkbox {
        task_id: 5,
        note_path: "other.md".to_string(),
        line_number: 1,
        expected_char: " ".to_string(),
        new_char: "x".to_string(),
    });
    index.resolve_action(id,
        "failed",
        Some("note changed externally since scan"),
    );

    let mut app = new_app();
    index.refresh(&mut app);
    assert!(
        app.notice.is_none(),
        "failures from outside this session must not surface"
    );
    assert!(app.pending_session_actions.is_empty());
}

#[test]
fn render_failure_notice_includes_reason_and_note() {
    let mut index = Index::new();
    let id = index.enqueue(&Request::Checkbox {
        task_id: 1,
        note_path: "Daily.md".to_string(),
        line_number: 3,
        expected_char: " ".to_string(),
        new_char: "x".to_string(),
    });
    index.resolve_action(id,
        "failed",
        Some("note changed externally since scan; action not applied"),
    );
    let action = index
        .recent_actions(8)
        .into_iter()
        .find(|a| a.id == id)
        .unwrap();
    let msg = render_failure_notice(&action);
    assert!(msg.contains("Daily.md"));
    assert!(msg.contains("this note changed in Obsidian"));
    assert!(msg.contains("Space"));
}

#[test]
fn sync_context_loads_selected_note_content() {
    let mut index = Index::new();
    index.upsert_task(task(1, " ", 3, "alpha.md"));
    index.upsert_note_content("alpha.md", "line1\nline2\n- [ ] task\nline4");

    let mut app = new_app();
    app.filter = StatusFilter::All;
    index.refresh(&mut app);
    assert_eq!(app.selected_note_path().as_deref(), Some("alpha.md"));
    assert_eq!(app.ctx_note_path.as_deref(), Some("alpha.md"));
    let nc = app
        .ctx_content
        .as_ref()
        .expect("content should be cached for the selected note");
    assert_eq!(nc.content, "line1\nline2\n- [ ] task\nline4");

    app.expanded.insert("alpha.md".to_string());
    app.rebuild();
    app.state.select(Some(1));
    index.sync(&mut app, false);
    assert_eq!(app.selected_task().map(|t| t.line_number), Some(3));
    let (start, count, hl) = context_view(4, Some(3), 10);
    assert_eq!((start, count, hl), (1, 4, Some(2)));

    index.upsert_note_content("alpha.md", "rewritten\n- [ ] task");
    index.refresh(&mut app);
    assert_eq!(
        app.ctx_content.as_ref().unwrap().content,
        "rewritten\n- [ ] task"
    );
}

#[test]
fn sync_context_swaps_and_clears_with_selection() {
    let mut index = Index::new();
    index.upsert_task(task(1, " ", 1, "alpha.md"));
    index.upsert_task(task(2, " ", 1, "beta.md"));
    index.upsert_note_content("alpha.md", "alpha body");
    index.upsert_note_content("beta.md", "beta body");

    let mut app = new_app();
    index.refresh(&mut app);
    assert_eq!(app.ctx_note_path.as_deref(), Some("alpha.md"));
    assert_eq!(app.ctx_content.as_ref().unwrap().content, "alpha body");

    app.move_selection(1);
    index.sync(&mut app, false);
    assert_eq!(app.ctx_note_path.as_deref(), Some("beta.md"));
    assert_eq!(app.ctx_content.as_ref().unwrap().content, "beta body");

    index.delete_tasks_for_note("alpha.md");
    index.delete_tasks_for_note("beta.md");
    index.refresh(&mut app);
    assert!(app.ctx_note_path.is_none());
    assert!(app.ctx_content.is_none());
}

#[test]
fn sync_context_handles_uncached_note() {
    let mut index = Index::new();
    index.upsert_task(task(1, " ", 1, "alpha.md"));
    let mut app = new_app();
    index.refresh(&mut app);
    assert_eq!(app.ctx_note_path.as_deref(), Some("alpha.md"));
    assert!(
        app.ctx_content.is_none(),
        "uncached note should yield None content, not an error"
    );
}

#[test]
fn scroll_survives_refresh_but_resets_on_navigation() {
    let mut index = Index::new();
    index.upsert_task(task(1, " ", 1, "alpha.md"));
    index.upsert_task(task(2, " ", 1, "beta.md"));
    index.upsert_note_content("alpha.md", "a");
    index.upsert_note_content("beta.md", "b");

    let mut app = new_app();
    index.refresh(&mut app);
    app.ctx_scroll = 7;
    index.refresh(&mut app);
    assert_eq!(app.ctx_scroll, 7, "refresh must not wipe a manual scroll");

    app.move_selection(1);
    assert_eq!(app.ctx_scroll, 0, "moving to another note recenters");
}
