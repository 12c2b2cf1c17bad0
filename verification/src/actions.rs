//! The writes a gesture asks for, how the last one is taken back, and how a refusal is worded.

use vstd::prelude::*;
use vstd::string::*;
use crate::task::{ActionView, PendingAction, Task, TaskView, opt_text};
use crate::text::{contains, contains_char, contains_text, same_text, trim, trimmed};

verus! {

// ---------------------------------------------------------------------------
// Checkbox gestures.
// ---------------------------------------------------------------------------

/// The checkbox character a done-toggle writes: open becomes done, anything else becomes open.
pub open spec fn toggle_target(raw: Seq<char>) -> Seq<char> {
    if raw == " "@ {
        "x"@
    } else {
        " "@
    }
}

/// The checkbox character a cancel gesture writes: cancelled becomes open, anything else cancelled.
pub open spec fn cancel_target(raw: Seq<char>) -> Seq<char> {
    if raw == "-"@ {
        " "@
    } else {
        "-"@
    }
}

/// The checkbox character an in-progress gesture writes: in-progress becomes open, anything else
/// in-progress.
pub open spec fn in_progress_target(raw: Seq<char>) -> Seq<char> {
    if raw == "/"@ {
        " "@
    } else {
        "/"@
    }
}

/// The checkbox character a done-toggle of `raw` writes.
pub fn toggle_target_char(raw: &str) -> (r: &'static str)
    ensures
        r@ == toggle_target(raw@),
{
    if same_text(raw, " ") {
        "x"
    } else {
        " "
    }
}

/// The checkbox character a cancel gesture on `raw` writes.
pub fn cancel_target_char(raw: &str) -> (r: &'static str)
    ensures
        r@ == cancel_target(raw@),
{
    if same_text(raw, "-") {
        " "
    } else {
        "-"
    }
}

/// The checkbox character an in-progress gesture on `raw` writes.
pub fn in_progress_target_char(raw: &str) -> (r: &'static str)
    ensures
        r@ == in_progress_target(raw@),
{
    if same_text(raw, "/") {
        " "
    } else {
        "/"
    }
}

// ---------------------------------------------------------------------------
// Requests.
// ---------------------------------------------------------------------------

/// A write to put into the queue.
#[derive(Debug)]
pub enum Request {
    /// Change a checkbox from `expected_char` to `new_char`.
    Checkbox {
        task_id: i64,
        note_path: String,
        line_number: usize,
        expected_char: String,
        new_char: String,
    },
    /// Set the scheduled date, or clear it.
    SetScheduled { task_id: i64, note_path: String, line_number: usize, date: Option<String> },
    /// Turn a checkbox line into a bullet line or back.
    ToggleBullet { task_id: i64, note_path: String, line_number: usize },
    /// Append a task to the inbox.
    QuickAdd { inbox_path: String, text: String },
    /// Take an appended task back.
    QuickAddUndo { inbox_path: String, text: String },
    /// Add a note to a task.
    AddNote { task_id: i64, note_path: String, line_number: usize, text: String },
    /// Put the task lines of a note into the order `lines`.
    Reorder { task_id: i64, note_path: String, line_number: usize, lines: Vec<usize> },
    /// Move the task lines `lines` of a note into the archive.
    Archive {
        task_id: i64,
        note_path: String,
        line_number: usize,
        archive_path: String,
        lines: Vec<usize>,
    },
}

/// What a [`Request`] is.
#[verifier::ext_equal]
pub enum RequestView {
    Checkbox {
        task_id: i64,
        note_path: Seq<char>,
        line_number: usize,
        expected_char: Seq<char>,
        new_char: Seq<char>,
    },
    SetScheduled { task_id: i64, note_path: Seq<char>, line_number: usize, date: Option<Seq<char>> },
    ToggleBullet { task_id: i64, note_path: Seq<char>, line_number: usize },
    QuickAdd { inbox_path: Seq<char>, text: Seq<char> },
    QuickAddUndo { inbox_path: Seq<char>, text: Seq<char> },
    AddNote { task_id: i64, note_path: Seq<char>, line_number: usize, text: Seq<char> },
    Reorder { task_id: i64, note_path: Seq<char>, line_number: usize, lines: Seq<usize> },
    Archive {
        task_id: i64,
        note_path: Seq<char>,
        line_number: usize,
        archive_path: Seq<char>,
        lines: Seq<usize>,
    },
}

impl View for Request {
    type V = RequestView;

    open spec fn view(&self) -> RequestView {
        match self {
            Request::Checkbox { task_id, note_path, line_number, expected_char, new_char } => {
                RequestView::Checkbox {
                    task_id: *task_id,
                    note_path: note_path@,
                    line_number: *line_number,
                    expected_char: expected_char@,
                    new_char: new_char@,
                }
            },
            Request::SetScheduled { task_id, note_path, line_number, date } => {
                RequestView::SetScheduled {
                    task_id: *task_id,
                    note_path: note_path@,
                    line_number: *line_number,
                    date: opt_text(*date),
                }
            },
            Request::ToggleBullet { task_id, note_path, line_number } => RequestView::ToggleBullet {
                task_id: *task_id,
                note_path: note_path@,
                line_number: *line_number,
            },
            Request::QuickAdd { inbox_path, text } => RequestView::QuickAdd {
                inbox_path: inbox_path@,
                text: text@,
            },
            Request::QuickAddUndo { inbox_path, text } => RequestView::QuickAddUndo {
                inbox_path: inbox_path@,
                text: text@,
            },
            Request::AddNote { task_id, note_path, line_number, text } => RequestView::AddNote {
                task_id: *task_id,
                note_path: note_path@,
                line_number: *line_number,
                text: text@,
            },
            Request::Reorder { task_id, note_path, line_number, lines } => RequestView::Reorder {
                task_id: *task_id,
                note_path: note_path@,
                line_number: *line_number,
                lines: lines@,
            },
            Request::Archive { task_id, note_path, line_number, archive_path, lines } => {
                RequestView::Archive {
                    task_id: *task_id,
                    note_path: note_path@,
                    line_number: *line_number,
                    archive_path: archive_path@,
                    lines: lines@,
                }
            },
        }
    }
}

/// The request to change the checkbox of `t` to `new_char`.
pub open spec fn flip_request(t: TaskView, new_char: Seq<char>) -> RequestView {
    RequestView::Checkbox {
        task_id: t.id,
        note_path: t.note_path,
        line_number: t.line_number,
        expected_char: t.raw_checkbox_char,
        new_char,
    }
}

/// The request a done-toggle of `task` makes.
pub fn enqueue_toggle(task: &Task) -> (r: Request)
    ensures
        r@ == flip_request(task@, toggle_target(task.raw_checkbox_char@)),
{
    let new_char = toggle_target_char(task.raw_checkbox_char.as_str());
    enqueue_undo_checkbox(
        task.id,
        task.note_path.as_str(),
        task.line_number,
        task.raw_checkbox_char.as_str(),
        new_char,
    )
}

/// The request a cancel gesture on `task` makes.
pub fn enqueue_cancel(task: &Task) -> (r: Request)
    ensures
        r@ == flip_request(task@, cancel_target(task.raw_checkbox_char@)),
{
    let new_char = cancel_target_char(task.raw_checkbox_char.as_str());
    enqueue_undo_checkbox(
        task.id,
        task.note_path.as_str(),
        task.line_number,
        task.raw_checkbox_char.as_str(),
        new_char,
    )
}

/// The request an in-progress gesture on `task` makes.
pub fn enqueue_in_progress(task: &Task) -> (r: Request)
    ensures
        r@ == flip_request(task@, in_progress_target(task.raw_checkbox_char@)),
{
    let new_char = in_progress_target_char(task.raw_checkbox_char.as_str());
    enqueue_undo_checkbox(
        task.id,
        task.note_path.as_str(),
        task.line_number,
        task.raw_checkbox_char.as_str(),
        new_char,
    )
}

/// The request to set the scheduled date of `task`, or with `None` to clear it.
pub fn enqueue_set_scheduled(task: &Task, desired: Option<&str>) -> (r: Request)
    ensures
        r@ == (RequestView::SetScheduled {
            task_id: task.id,
            note_path: task.note_path@,
            line_number: task.line_number,
            date: match desired {
                Some(d) => Some(d@),
                None => None,
            },
        }),
{
    Request::SetScheduled {
        task_id: task.id,
        note_path: task.note_path.clone(),
        line_number: task.line_number,
        date: match desired {
            Some(d) => Some(d.to_owned()),
            None => None,
        },
    }
}

/// The request to turn the line of `task` into a bullet or back.
pub fn enqueue_bullet_toggle(task: &Task) -> (r: Request)
    ensures
        r@ == (RequestView::ToggleBullet {
            task_id: task.id,
            note_path: task.note_path@,
            line_number: task.line_number,
        }),
{
    Request::ToggleBullet {
        task_id: task.id,
        note_path: task.note_path.clone(),
        line_number: task.line_number,
    }
}

/// The request to change a checkbox from `expected_char` to `new_char`.
pub fn enqueue_undo_checkbox(
    task_id: i64,
    note_path: &str,
    line_number: usize,
    expected_char: &str,
    new_char: &str,
) -> (r: Request)
    ensures
        r@ == (RequestView::Checkbox {
            task_id,
            note_path: note_path@,
            line_number,
            expected_char: expected_char@,
            new_char: new_char@,
        }),
{
    Request::Checkbox {
        task_id,
        note_path: note_path.to_owned(),
        line_number,
        expected_char: expected_char.to_owned(),
        new_char: new_char.to_owned(),
    }
}

// ---------------------------------------------------------------------------
// Undo.
// ---------------------------------------------------------------------------

/// What is needed to take the last write back.
#[derive(Debug)]
pub enum LastAction {
    CheckboxToggle {
        task_id: i64,
        note_path: String,
        line_number: usize,
        expected_char: String,
        new_char: String,
    },
    BulletToggle { task_id: i64, note_path: String, line_number: usize },
    QuickAdd { inbox_path: String, text: String },
}

/// What a [`LastAction`] is.
#[verifier::ext_equal]
pub enum LastView {
    CheckboxToggle {
        task_id: i64,
        note_path: Seq<char>,
        line_number: usize,
        expected_char: Seq<char>,
        new_char: Seq<char>,
    },
    BulletToggle { task_id: i64, note_path: Seq<char>, line_number: usize },
    QuickAdd { inbox_path: Seq<char>, text: Seq<char> },
}

impl View for LastAction {
    type V = LastView;

    open spec fn view(&self) -> LastView {
        match self {
            LastAction::CheckboxToggle { task_id, note_path, line_number, expected_char, new_char } => {
                LastView::CheckboxToggle {
                    task_id: *task_id,
                    note_path: note_path@,
                    line_number: *line_number,
                    expected_char: expected_char@,
                    new_char: new_char@,
                }
            },
            LastAction::BulletToggle { task_id, note_path, line_number } => LastView::BulletToggle {
                task_id: *task_id,
                note_path: note_path@,
                line_number: *line_number,
            },
            LastAction::QuickAdd { inbox_path, text } => LastView::QuickAdd {
                inbox_path: inbox_path@,
                text: text@,
            },
        }
    }
}

/// What an optional [`LastAction`] is.
pub open spec fn opt_last(o: Option<LastAction>) -> Option<LastView> {
    match o {
        Some(a) => Some(a@),
        None => None,
    }
}

/// The request that takes a write back: a checkbox flip with its characters swapped, the bullet
/// toggle once more, the removal of an appended task.
pub open spec fn undo_request(a: LastView) -> RequestView {
    match a {
        LastView::CheckboxToggle { task_id, note_path, line_number, expected_char, new_char } => {
            RequestView::Checkbox {
                task_id,
                note_path,
                line_number,
                expected_char: new_char,
                new_char: expected_char,
            }
        },
        LastView::BulletToggle { task_id, note_path, line_number } => RequestView::ToggleBullet {
            task_id,
            note_path,
            line_number,
        },
        LastView::QuickAdd { inbox_path, text } => RequestView::QuickAddUndo { inbox_path, text },
    }
}

/// The request that takes `action` back.
pub fn undo_of(action: &LastAction) -> (r: Request)
    ensures
        r@ == undo_request(action@),
{
    match action {
        LastAction::CheckboxToggle { task_id, note_path, line_number, expected_char, new_char } => {
            enqueue_undo_checkbox(
                *task_id,
                note_path.as_str(),
                *line_number,
                new_char.as_str(),
                expected_char.as_str(),
            )
        },
        LastAction::BulletToggle { task_id, note_path, line_number } => Request::ToggleBullet {
            task_id: *task_id,
            note_path: note_path.clone(),
            line_number: *line_number,
        },
        LastAction::QuickAdd { inbox_path, text } => Request::QuickAddUndo {
            inbox_path: inbox_path.clone(),
            text: text.clone(),
        },
    }
}

/// A request, with what to remember and to say once it is in the queue.
#[derive(Debug)]
pub struct Submission {
    pub request: Request,
    /// How to take the write back; `None` leaves the record of the last write as it is.
    pub undo: Option<LastAction>,
    /// The confirmation to show.
    pub confirmation: Option<String>,
}

/// What a [`Submission`] is.
#[verifier::ext_equal]
pub struct SubmissionView {
    pub request: RequestView,
    pub undo: Option<LastView>,
    pub confirmation: Option<Seq<char>>,
}

impl View for Submission {
    type V = SubmissionView;

    open spec fn view(&self) -> SubmissionView {
        SubmissionView {
            request: self.request@,
            undo: opt_last(self.undo),
            confirmation: opt_text(self.confirmation),
        }
    }
}

/// What an optional [`Submission`] is.
pub open spec fn opt_submission(o: Option<Submission>) -> Option<SubmissionView> {
    match o {
        Some(s) => Some(s@),
        None => None,
    }
}

/// A request alone.
pub open spec fn plain(request: RequestView) -> SubmissionView {
    SubmissionView { request, undo: None, confirmation: None }
}

/// The submission of a checkbox flip of `t`, which can be taken back.
pub open spec fn flip(t: TaskView, new_char: Seq<char>) -> SubmissionView {
    SubmissionView {
        request: flip_request(t, new_char),
        undo: Some(
            LastView::CheckboxToggle {
                task_id: t.id,
                note_path: t.note_path,
                line_number: t.line_number,
                expected_char: t.raw_checkbox_char,
                new_char,
            },
        ),
        confirmation: None,
    }
}

/// The link to a task.
#[derive(Debug)]
pub enum Link {
    /// No vault name is known, so there are no links.
    UnknownVault,
    /// No task is under the cursor.
    NothingSelected,
    Url(String),
}

/// What a [`Link`] is.
#[verifier::ext_equal]
pub enum LinkView {
    UnknownVault,
    NothingSelected,
    Url(Seq<char>),
}

impl View for Link {
    type V = LinkView;

    open spec fn view(&self) -> LinkView {
        match self {
            Link::UnknownVault => LinkView::UnknownVault,
            Link::NothingSelected => LinkView::NothingSelected,
            Link::Url(u) => LinkView::Url(u@),
        }
    }
}

// ---------------------------------------------------------------------------
// Refusals.
// ---------------------------------------------------------------------------

/// The plain wording of a failure.
pub open spec fn failure_reason(error: Seq<char>) -> Seq<char> {
    let e = trimmed(error);
    if contains_text(e, "note changed externally"@) {
        "this note changed in Obsidian"@
    } else if contains_text(e, "no longer in index"@) || contains_text(e, "note gone"@) {
        "this"@ + " task is no longer in the note"@
    } else if contains_text(e, "no longer matches expected bytes"@) {
        "the checkbox line changed"@
    } else if contains_text(e, "invalid new_char"@) {
        "the request was not valid"@
    } else if e.contains('\u{2705}') {
        "the done date on this line couldn't be parsed"@
    } else if e.contains('\u{274c}') {
        "the cancelled date on this line couldn't be parsed"@
    } else if contains_text(e, "malformed or unparseable"@) {
        "the scheduled date on this line couldn't be parsed"@
    } else if contains_text(e, "could not be converted to a bullet"@) {
        "this line has no checkbox or bullet to toggle"@
    } else if contains_text(e, "completed task lines"@) {
        "the completed tasks changed"@
    } else if e.len() == 0 {
        "it could not be applied"@
    } else {
        e
    }
}

/// Puts a failure into short, plain words. It goes by the stable phrases of the error; an unknown
/// error is passed on, trimmed.
pub fn friendly_failure_reason(error: &str) -> (r: String)
    ensures
        r@ == failure_reason(error@),
{
    let e = trim(error);
    let s = e.as_str();
    if contains(s, "note changed externally") {
        "this note changed in Obsidian".to_owned()
    } else if contains(s, "no longer in index") || contains(s, "note gone") {
        let mut gone = "this".to_owned();
        gone.append(" task is no longer in the note");
        gone
    } else if contains(s, "no longer matches expected bytes") {
        "the checkbox line changed".to_owned()
    } else if contains(s, "invalid new_char") {
        "the request was not valid".to_owned()
    } else if contains_char(s, '\u{2705}') {
        "the done date on this line couldn't be parsed".to_owned()
    } else if contains_char(s, '\u{274c}') {
        "the cancelled date on this line couldn't be parsed".to_owned()
    } else if contains(s, "malformed or unparseable") {
        "the scheduled date on this line couldn't be parsed".to_owned()
    } else if contains(s, "could not be converted to a bullet") {
        "this line has no checkbox or bullet to toggle".to_owned()
    } else if contains(s, "completed task lines") {
        "the completed tasks changed".to_owned()
    } else if s.is_empty() {
        "it could not be applied".to_owned()
    } else {
        e
    }
}

/// The gesture an action came from: its verb, and the key to try it again with. Each gesture has its
/// own key; those on a checkbox share an action type and are told apart by the character they write.
pub open spec fn gesture(action_type: Seq<char>, new_char: Seq<char>) -> (Seq<char>, Seq<char>) {
    if action_type == "set_scheduled"@ {
        ("Mark"@, "t"@)
    } else if action_type == "toggle_bullet"@ {
        ("Bullet"@, "b"@)
    } else if action_type == "quick_add"@ {
        ("Quick add"@, "a"@)
    } else if action_type == "quick_add_undo"@ {
        ("Quick-add undo"@, "u"@)
    } else if action_type == "add_note"@ {
        ("Add note"@, "n"@)
    } else if action_type == "reorder"@ {
        ("Move"@, "m"@)
    } else if action_type == "archive"@ {
        ("Archive"@, "A"@)
    } else if new_char == "-"@ {
        ("Cancel"@, "d"@)
    } else if new_char == "/"@ {
        ("Mark in-progress"@, "i"@)
    } else {
        ("Toggle"@, "Space"@)
    }
}

fn gesture_of(action_type: &str, new_char: &str) -> (r: (&'static str, &'static str))
    ensures
        (r.0@, r.1@) == gesture(action_type@, new_char@),
{
    if same_text(action_type, "set_scheduled") {
        ("Mark", "t")
    } else if same_text(action_type, "toggle_bullet") {
        ("Bullet", "b")
    } else if same_text(action_type, "quick_add") {
        ("Quick add", "a")
    } else if same_text(action_type, "quick_add_undo") {
        ("Quick-add undo", "u")
    } else if same_text(action_type, "add_note") {
        ("Add note", "n")
    } else if same_text(action_type, "reorder") {
        ("Move", "m")
    } else if same_text(action_type, "archive") {
        ("Archive", "A")
    } else if same_text(new_char, "-") {
        ("Cancel", "d")
    } else if same_text(new_char, "/") {
        ("Mark in-progress", "i")
    } else {
        ("Toggle", "Space")
    }
}

/// The notice of a refused action: what was not applied, why, in which note, and the key to try
/// again with.
pub open spec fn failure_notice(a: ActionView) -> Seq<char> {
    let reason = match a.error {
        Some(e) => failure_reason(e),
        None => "it could not be applied"@,
    };
    let (verb, key) = gesture(a.action_type, a.new_char);
    verb + " not applied — "@ + reason + " ("@ + a.note_path + "). Press "@ + key
        + " to try again."@
}

/// Words the notice of a refused action.
pub fn render_failure_notice(action: &PendingAction) -> (r: String)
    ensures
        r@ == failure_notice(action@),
{
    let reason = match &action.error {
        Some(e) => friendly_failure_reason(e.as_str()),
        None => "it could not be applied".to_owned(),
    };
    let (verb, key) = gesture_of(action.action_type.as_str(), action.new_char.as_str());
    let mut r = verb.to_owned();
    r.append(" not applied — ");
    r.append(reason.as_str());
    r.append(" (");
    r.append(action.note_path.as_str());
    r.append("). Press ");
    r.append(key);
    r.append(" to try again.");
    r
}

}
