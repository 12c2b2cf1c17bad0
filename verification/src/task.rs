//! The records the browser shows: tasks, note contents and resolved write-back actions.

use vstd::prelude::*;
use crate::text::{same_text, views};

verus! {

/// The state of a task's checkbox.
#[derive(Debug)]
pub enum Status {
    Open,
    Done,
    InProgress,
    Other(String),
}

/// What a [`Status`] is.
pub enum StatusView {
    Open,
    Done,
    InProgress,
    Other(Seq<char>),
}

impl View for Status {
    type V = StatusView;

    open spec fn view(&self) -> StatusView {
        match self {
            Status::Open => StatusView::Open,
            Status::Done => StatusView::Done,
            Status::InProgress => StatusView::InProgress,
            Status::Other(s) => StatusView::Other(s@),
        }
    }
}

impl Clone for Status {
    fn clone(&self) -> (r: Self)
        ensures
            r@ == self@,
    {
        match self {
            Status::Open => Status::Open,
            Status::Done => Status::Done,
            Status::InProgress => Status::InProgress,
            Status::Other(s) => Status::Other(s.clone()),
        }
    }
}

/// The status a checkbox character stands for: a space is open, `x` and `X` are done, `/` is in
/// progress, and anything else is kept as it is.
pub open spec fn status_of(raw: Seq<char>) -> StatusView {
    if raw == " "@ {
        StatusView::Open
    } else if raw == "x"@ || raw == "X"@ {
        StatusView::Done
    } else if raw == "/"@ {
        StatusView::InProgress
    } else {
        StatusView::Other(raw)
    }
}

impl Status {
    /// The status the checkbox character `raw` stands for.
    pub fn from_checkbox_char(raw: &str) -> (r: Status)
        ensures
            r@ == status_of(raw@),
    {
        if same_text(raw, " ") {
            Status::Open
        } else if same_text(raw, "x") || same_text(raw, "X") {
            Status::Done
        } else if same_text(raw, "/") {
            Status::InProgress
        } else {
            Status::Other(raw.to_owned())
        }
    }
}

/// The priority marker of a task.
#[derive(Debug)]
pub enum Priority {
    Highest,
    High,
    Medium,
    Low,
    Lowest,
    Other(String),
}

/// What a [`Priority`] is.
pub enum PriorityView {
    Highest,
    High,
    Medium,
    Low,
    Lowest,
    Other(Seq<char>),
}

impl View for Priority {
    type V = PriorityView;

    open spec fn view(&self) -> PriorityView {
        match self {
            Priority::Highest => PriorityView::Highest,
            Priority::High => PriorityView::High,
            Priority::Medium => PriorityView::Medium,
            Priority::Low => PriorityView::Low,
            Priority::Lowest => PriorityView::Lowest,
            Priority::Other(s) => PriorityView::Other(s@),
        }
    }
}

impl Clone for Priority {
    fn clone(&self) -> (r: Self)
        ensures
            r@ == self@,
    {
        match self {
            Priority::Highest => Priority::Highest,
            Priority::High => Priority::High,
            Priority::Medium => Priority::Medium,
            Priority::Low => Priority::Low,
            Priority::Lowest => Priority::Lowest,
            Priority::Other(s) => Priority::Other(s.clone()),
        }
    }
}

/// What an optional string is.
pub open spec fn opt_text(o: Option<String>) -> Option<Seq<char>> {
    match o {
        Some(s) => Some(s@),
        None => None,
    }
}

/// A copy of an optional string.
pub fn copy_opt(o: &Option<String>) -> (r: Option<String>)
    ensures
        opt_text(r) == opt_text(*o),
{
    match o {
        Some(s) => Some(s.clone()),
        None => None,
    }
}

/// A copy of a list of strings.
pub fn copy_list(v: &Vec<String>) -> (r: Vec<String>)
    ensures
        views(r@) == views(v@),
{
    let mut r: Vec<String> = Vec::new();
    let mut i: usize = 0;
    while i < v.len()
        invariant
            i <= v@.len(),
            r@.len() == i,
            forall|j: int| 0 <= j < i ==> r@[j]@ == v@[j]@,
        decreases v@.len() - i,
    {
        r.push(v[i].clone());
        i += 1;
    }
    assert(views(r@) =~= views(v@));
    r
}

/// One checkbox task of the index.
#[derive(Debug)]
pub struct Task {
    /// The id of the task in the index.
    pub id: i64,
    /// The vault-relative path of the note that holds it.
    pub note_path: String,
    /// Its 1-based line in that note.
    pub line_number: usize,
    /// The columns its line is indented by.
    pub indent: usize,
    /// Its words.
    pub text: String,
    pub status: Status,
    /// The character between the brackets, as written.
    pub raw_checkbox_char: String,
    /// `YYYY-MM-DD`.
    pub due_date: Option<String>,
    /// `YYYY-MM-DD`.
    pub scheduled_date: Option<String>,
    pub tags: Vec<String>,
    pub priority: Option<Priority>,
}

/// What a [`Task`] is.
#[verifier::ext_equal]
pub struct TaskView {
    pub id: i64,
    pub note_path: Seq<char>,
    pub line_number: usize,
    pub indent: usize,
    pub text: Seq<char>,
    pub status: StatusView,
    pub raw_checkbox_char: Seq<char>,
    pub due_date: Option<Seq<char>>,
    pub scheduled_date: Option<Seq<char>>,
    pub tags: Seq<Seq<char>>,
    pub priority: Option<PriorityView>,
}

/// What an optional priority is.
pub open spec fn opt_priority(o: Option<Priority>) -> Option<PriorityView> {
    match o {
        Some(p) => Some(p@),
        None => None,
    }
}

impl View for Task {
    type V = TaskView;

    open spec fn view(&self) -> TaskView {
        TaskView {
            id: self.id,
            note_path: self.note_path@,
            line_number: self.line_number,
            indent: self.indent,
            text: self.text@,
            status: self.status@,
            raw_checkbox_char: self.raw_checkbox_char@,
            due_date: opt_text(self.due_date),
            scheduled_date: opt_text(self.scheduled_date),
            tags: views(self.tags@),
            priority: opt_priority(self.priority),
        }
    }
}

impl Clone for Task {
    fn clone(&self) -> (r: Self)
        ensures
            r@ == self@,
    {
        Task {
            id: self.id,
            note_path: self.note_path.clone(),
            line_number: self.line_number,
            indent: self.indent,
            text: self.text.clone(),
            status: self.status.clone(),
            raw_checkbox_char: self.raw_checkbox_char.clone(),
            due_date: copy_opt(&self.due_date),
            scheduled_date: copy_opt(&self.scheduled_date),
            tags: copy_list(&self.tags),
            priority: match &self.priority {
                Some(p) => Some(p.clone()),
                None => None,
            },
        }
    }
}

/// What a list of tasks is.
pub open spec fn task_views(v: Seq<Task>) -> Seq<TaskView> {
    v.map_values(|t: Task| t@)
}

/// The indexed text of a note.
#[derive(Debug)]
pub struct NoteContent {
    pub content: String,
}

/// What an optional note content is.
pub open spec fn opt_content(o: Option<NoteContent>) -> Option<Seq<char>> {
    match o {
        Some(n) => Some(n.content@),
        None => None,
    }
}

/// A write-back action read back from the queue.
#[derive(Debug)]
pub struct PendingAction {
    pub id: i64,
    pub action_type: String,
    pub note_path: String,
    /// The checkbox character the action wanted to write.
    pub new_char: String,
    /// `pending`, `done` or `failed`.
    pub state: String,
    /// Why the action failed.
    pub error: Option<String>,
}

/// What a [`PendingAction`] is.
#[verifier::ext_equal]
pub struct ActionView {
    pub id: i64,
    pub action_type: Seq<char>,
    pub note_path: Seq<char>,
    pub new_char: Seq<char>,
    pub state: Seq<char>,
    pub error: Option<Seq<char>>,
}

impl View for PendingAction {
    type V = ActionView;

    open spec fn view(&self) -> ActionView {
        ActionView {
            id: self.id,
            action_type: self.action_type@,
            note_path: self.note_path@,
            new_char: self.new_char@,
            state: self.state@,
            error: opt_text(self.error),
        }
    }
}

/// What a list of actions is.
pub open spec fn action_views(v: Seq<PendingAction>) -> Seq<ActionView> {
    v.map_values(|a: PendingAction| a@)
}

}
