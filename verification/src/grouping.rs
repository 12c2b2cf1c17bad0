//! The filters and grouping axes of the task list.

use vstd::prelude::*;
use crate::paths::{file_name, filename_of, folder_key, folder_of};
use crate::task::{Priority, PriorityView, Status, StatusView, Task, TaskView, copy_list, opt_text};
use crate::text::{all_ascii, ascii_lower, chars_before, chars_of, contains, contains_text,
    lowercase, occurs_at, same_text, text_before, text_before_irreflexive, text_before_total,
    text_before_transitive, to_lowercase, views};

verus! {

// ---------------------------------------------------------------------------
// Status.
// ---------------------------------------------------------------------------

/// Whether a task counts as open: unstarted and in-progress tasks do, nothing else does.
pub open spec fn open_like(s: StatusView) -> bool {
    s is Open || s is InProgress
}

/// Whether a task counts as open, for the status filter and for every open/total count alike.
pub fn is_open_like(status: &Status) -> (r: bool)
    ensures
        r == open_like(status@),
{
    match status {
        Status::Open => true,
        Status::InProgress => true,
        _ => false,
    }
}

/// Whether a task is closed: done, or cancelled (`-`).
pub open spec fn completed(s: StatusView, raw: Seq<char>) -> bool {
    s is Done || raw == "-"@
}

/// Whether a task is closed (done or cancelled), and so may be archived.
pub fn is_completed(status: &Status, raw_checkbox_char: &str) -> (r: bool)
    ensures
        r == completed(status@, raw_checkbox_char@),
{
    match status {
        Status::Done => true,
        _ => same_text(raw_checkbox_char, "-"),
    }
}

/// The status filter, cycled All -> Open -> Done -> All.
#[derive(Clone, Copy, PartialEq, Eq, Debug, Structural)]
pub enum StatusFilter {
    All,
    Open,
    Done,
}

/// Whether a status filter lets a status through.
pub open spec fn filter_admits(f: StatusFilter, s: StatusView) -> bool {
    match f {
        StatusFilter::All => true,
        StatusFilter::Open => open_like(s),
        StatusFilter::Done => s is Done,
    }
}

/// The filter after `f` in the cycle.
pub open spec fn next_filter(f: StatusFilter) -> StatusFilter {
    match f {
        StatusFilter::All => StatusFilter::Open,
        StatusFilter::Open => StatusFilter::Done,
        StatusFilter::Done => StatusFilter::All,
    }
}

/// The name of a filter in the title bar.
pub open spec fn filter_label(f: StatusFilter) -> Seq<char> {
    match f {
        StatusFilter::All => "all"@,
        StatusFilter::Open => "open"@,
        StatusFilter::Done => "done"@,
    }
}

impl StatusFilter {
    /// Whether the filter lets `status` through.
    pub fn matches(self, status: &Status) -> (r: bool)
        ensures
            r == filter_admits(self, status@),
    {
        match self {
            StatusFilter::All => true,
            StatusFilter::Open => is_open_like(status),
            StatusFilter::Done => match status {
                Status::Done => true,
                _ => false,
            },
        }
    }

    /// The next filter in the cycle.
    pub fn next(self) -> (r: Self)
        ensures
            r == next_filter(self),
    {
        match self {
            StatusFilter::All => StatusFilter::Open,
            StatusFilter::Open => StatusFilter::Done,
            StatusFilter::Done => StatusFilter::All,
        }
    }

    /// The name of the filter in the title bar.
    pub fn label(self) -> (r: &'static str)
        ensures
            r@ == filter_label(self),
    {
        match self {
            StatusFilter::All => "all",
            StatusFilter::Open => "open",
            StatusFilter::Done => "done",
        }
    }
}

// ---------------------------------------------------------------------------
// Grouping axes.
// ---------------------------------------------------------------------------

/// The grouping axis, cycled FolderNote -> Note -> Tag -> Priority -> Folder -> FolderNote.
///
/// The three path axes go from coarse to fine: `Folder` keys on the parent directory, `FolderNote`
/// on the whole note path, `Note` on the file name alone.
#[derive(Clone, Copy, PartialEq, Eq, Debug, Structural)]
pub enum GroupBy {
    FolderNote,
    Note,
    Tag,
    Priority,
    Folder,
}

/// The axis after `g` in the cycle.
pub open spec fn next_axis(g: GroupBy) -> GroupBy {
    match g {
        GroupBy::FolderNote => GroupBy::Note,
        GroupBy::Note => GroupBy::Tag,
        GroupBy::Tag => GroupBy::Priority,
        GroupBy::Priority => GroupBy::Folder,
        GroupBy::Folder => GroupBy::FolderNote,
    }
}

/// The name of an axis in the title bar.
pub open spec fn axis_label(g: GroupBy) -> Seq<char> {
    match g {
        GroupBy::FolderNote => "folder+note"@,
        GroupBy::Note => "note"@,
        GroupBy::Tag => "tag"@,
        GroupBy::Priority => "priority"@,
        GroupBy::Folder => "folder"@,
    }
}

impl GroupBy {
    /// The next axis in the cycle.
    pub fn next(self) -> (r: Self)
        ensures
            r == next_axis(self),
    {
        match self {
            GroupBy::FolderNote => GroupBy::Note,
            GroupBy::Note => GroupBy::Tag,
            GroupBy::Tag => GroupBy::Priority,
            GroupBy::Priority => GroupBy::Folder,
            GroupBy::Folder => GroupBy::FolderNote,
        }
    }

    /// The name of the axis in the title bar.
    pub fn label(self) -> (r: &'static str)
        ensures
            r@ == axis_label(self),
    {
        match self {
            GroupBy::FolderNote => "folder+note",
            GroupBy::Note => "note",
            GroupBy::Tag => "tag",
            GroupBy::Priority => "priority",
            GroupBy::Folder => "folder",
        }
    }
}

/// The group of a priority: its name, or `(no priority)` for none and for an unknown marker.
pub open spec fn priority_label(p: Option<PriorityView>) -> Seq<char> {
    match p {
        Some(PriorityView::Highest) => "Highest"@,
        Some(PriorityView::High) => "High"@,
        Some(PriorityView::Medium) => "Medium"@,
        Some(PriorityView::Low) => "Low"@,
        Some(PriorityView::Lowest) => "Lowest"@,
        _ => "(no priority)"@,
    }
}

/// The name of a task's priority group.
pub fn priority_group_label(priority: Option<&Priority>) -> (r: String)
    ensures
        r@ == priority_label(
            match priority {
                Some(p) => Some(p@),
                None => None,
            },
        ),
{
    match priority {
        Some(Priority::Highest) => "Highest".to_owned(),
        Some(Priority::High) => "High".to_owned(),
        Some(Priority::Medium) => "Medium".to_owned(),
        Some(Priority::Low) => "Low".to_owned(),
        Some(Priority::Lowest) => "Lowest".to_owned(),
        Some(Priority::Other(_)) => "(no priority)".to_owned(),
        None => "(no priority)".to_owned(),
    }
}

/// The rank of a priority group: 0 for `Highest` to 4 for `Lowest`, 5 for anything else.
pub open spec fn sort_rank(label: Seq<char>) -> u8 {
    if label == "Highest"@ {
        0
    } else if label == "High"@ {
        1
    } else if label == "Medium"@ {
        2
    } else if label == "Low"@ {
        3
    } else if label == "Lowest"@ {
        4
    } else {
        5
    }
}

/// The rank priority groups are ordered by, most important first.
pub fn priority_sort_rank(label: &str) -> (r: u8)
    ensures
        r == sort_rank(label@),
{
    if same_text(label, "Highest") {
        0
    } else if same_text(label, "High") {
        1
    } else if same_text(label, "Medium") {
        2
    } else if same_text(label, "Low") {
        3
    } else if same_text(label, "Lowest") {
        4
    } else {
        5
    }
}

/// The keys of the groups a task stands in. Only the tag axis can give more than one.
pub open spec fn keys_of(t: TaskView, axis: GroupBy) -> Seq<Seq<char>> {
    match axis {
        GroupBy::FolderNote => seq![t.note_path],
        GroupBy::Note => seq![file_name(t.note_path)],
        GroupBy::Tag => if t.tags.len() == 0 {
            seq!["(untagged)"@]
        } else {
            t.tags
        },
        GroupBy::Priority => seq![priority_label(t.priority)],
        GroupBy::Folder => seq![folder_key(t.note_path)],
    }
}

/// The keys of the groups `task` stands in under `axis`.
pub fn group_keys(task: &Task, axis: GroupBy) -> (r: Vec<String>)
    ensures
        views(r@) == keys_of(task@, axis),
{
    let mut keys: Vec<String> = Vec::new();
    match axis {
        GroupBy::FolderNote => {
            keys.push(task.note_path.clone());
        },
        GroupBy::Note => {
            keys.push(filename_of(task.note_path.as_str()));
        },
        GroupBy::Tag => {
            if task.tags.len() == 0 {
                keys.push("(untagged)".to_owned());
            } else {
                return copy_list(&task.tags);
            }
        },
        GroupBy::Priority => {
            keys.push(priority_group_label(task.priority.as_ref()));
        },
        GroupBy::Folder => {
            keys.push(folder_of(task.note_path.as_str()));
        },
    }
    assert(views(keys@) =~= keys_of(task@, axis));
    keys
}

/// The order of group keys: priorities by rank, everything else by text.
pub open spec fn key_before(a: Seq<char>, b: Seq<char>, axis: GroupBy) -> bool {
    if axis == GroupBy::Priority && sort_rank(a) != sort_rank(b) {
        sort_rank(a) < sort_rank(b)
    } else {
        text_before(a, b)
    }
}

/// A group key, with its characters at hand for comparison.
pub struct GroupKey {
    pub key: String,
    pub chars: Vec<char>,
}

impl GroupKey {
    /// Whether the characters are those of the key.
    pub open spec fn wf(self) -> bool {
        self.chars@ == self.key@
    }

    /// A key with its characters.
    pub fn new(key: String) -> (r: GroupKey)
        ensures
            r.wf(),
            r.key == key,
    {
        let chars = chars_of(key.as_str());
        GroupKey { key, chars }
    }

    /// Whether `self` stands strictly before `other` on `axis`.
    pub fn before(&self, other: &GroupKey, axis: GroupBy) -> (r: bool)
        requires
            self.wf(),
            other.wf(),
        ensures
            r == key_before(self.key@, other.key@, axis),
    {
        if axis == GroupBy::Priority {
            let x = priority_sort_rank(self.key.as_str());
            let y = priority_sort_rank(other.key.as_str());
            if x != y {
                return x < y;
            }
        }
        chars_before(&self.chars, &other.chars)
    }
}

/// The order of group keys is strict and total.
pub proof fn key_order_is_total(a: Seq<char>, b: Seq<char>, axis: GroupBy)
    ensures
        !key_before(a, a, axis),
        a != b ==> key_before(a, b, axis) || key_before(b, a, axis),
{
    text_before_irreflexive(a);
    text_before_total(a, b);
}

/// The order of group keys is transitive.
pub proof fn key_order_is_transitive(a: Seq<char>, b: Seq<char>, c: Seq<char>, axis: GroupBy)
    requires
        key_before(a, b, axis),
        key_before(b, c, axis),
    ensures
        key_before(a, c, axis),
{
    if text_before(a, b) && text_before(b, c) {
        text_before_transitive(a, b, c);
    }
}

// ---------------------------------------------------------------------------
// The five filters.
// ---------------------------------------------------------------------------

/// What the list is filtered by.
pub struct FilterView {
    pub status: StatusFilter,
    pub today_only: bool,
    pub today: Seq<char>,
    pub search: Seq<char>,
    pub file: Seq<char>,
    pub overdue_only: bool,
}

/// Whether `query`, ignoring case, stands in `text`; an empty query stands everywhere.
pub open spec fn query_matches(text: Seq<char>, query: Seq<char>) -> bool {
    query.len() == 0 || contains_text(lowercase(text), lowercase(query))
}

/// Whether a task is scheduled or due on `today`.
pub open spec fn is_for_today(t: TaskView, today: Seq<char>) -> bool {
    t.scheduled_date == Some(today) || t.due_date == Some(today)
}

/// Whether a task was due strictly before `today`. A task without a due date never is.
pub open spec fn is_overdue(t: TaskView, today: Seq<char>) -> bool {
    match t.due_date {
        Some(d) => text_before(d, today),
        None => false,
    }
}

/// Whether a task is visible: every active filter lets it through.
pub open spec fn passes(t: TaskView, f: FilterView) -> bool {
    &&& filter_admits(f.status, t.status)
    &&& f.today_only ==> is_for_today(t, f.today)
    &&& query_matches(t.text, f.search)
    &&& query_matches(t.note_path, f.file)
    &&& f.overdue_only ==> is_overdue(t, f.today)
}

/// The active filters.
pub struct Filters<'a> {
    pub status: StatusFilter,
    pub today_only: bool,
    pub today: &'a str,
    pub search: &'a str,
    pub file: &'a str,
    pub overdue_only: bool,
}

impl<'a> View for Filters<'a> {
    type V = FilterView;

    open spec fn view(&self) -> FilterView {
        FilterView {
            status: self.status,
            today_only: self.today_only,
            today: self.today@,
            search: self.search@,
            file: self.file@,
            overdue_only: self.overdue_only,
        }
    }
}

/// Whether `query`, ignoring case, stands in `text`.
pub fn matches_query(text: &str, query: &str) -> (r: bool)
    ensures
        r == query_matches(text@, query@),
        all_ascii(text@) && all_ascii(query@) ==> r == contains_text(
            text@.map_values(|c: char| ascii_lower(c)),
            query@.map_values(|c: char| ascii_lower(c)),
        ),
{
    if query.is_empty() {
        proof {
            let t = text@.map_values(|c: char| ascii_lower(c));
            let q = query@.map_values(|c: char| ascii_lower(c));
            assert(t.subrange(0, 0) =~= q);
            assert(occurs_at(t, q, 0));
        }
        return true;
    }
    let t = to_lowercase(text);
    let q = to_lowercase(query);
    contains(t.as_str(), q.as_str())
}

fn date_is(date: &Option<String>, today: &str) -> (r: bool)
    ensures
        r == (opt_text(*date) == Some(today@)),
{
    match date {
        Some(d) => same_text(d.as_str(), today),
        None => false,
    }
}

/// Whether `d` sorts before `today`, which for `YYYY-MM-DD` is chronological order.
fn date_before(d: &str, today: &str) -> (r: bool)
    ensures
        r == text_before(d@, today@),
{
    let x = chars_of(d);
    let y = chars_of(today);
    chars_before(&x, &y)
}

impl<'a> Filters<'a> {
    /// Whether `task` is visible.
    pub fn admits(&self, task: &Task) -> (r: bool)
        ensures
            r == passes(task@, self@),
    {
        if !self.status.matches(&task.status) {
            return false;
        }
        if self.today_only && !date_is(&task.scheduled_date, self.today) && !date_is(
            &task.due_date,
            self.today,
        ) {
            return false;
        }
        if !matches_query(task.text.as_str(), self.search) {
            return false;
        }
        if !matches_query(task.note_path.as_str(), self.file) {
            return false;
        }
        if self.overdue_only {
            return match &task.due_date {
                Some(d) => date_before(d.as_str(), self.today),
                None => false,
            };
        }
        true
    }
}

}
