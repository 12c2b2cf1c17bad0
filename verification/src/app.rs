//! The state of the browser and its gestures.
//!
//! Nothing here touches a vault or a database: a gesture that writes gives a [`Submission`], and
//! what became of it is handed back to [`App::settle`].

use vstd::prelude::*;
use vstd::string::*;
use crate::actions::{LastAction, opt_last};
use crate::grouping::{GroupBy, StatusFilter};
use crate::listing::{DisplayRow, KeySet, ListState, RowView, build_view, opt_nat,
    position_of_header, reconcile_view_selection, row_views};
use crate::model::{AppView, ToggleMode, all_collapsed, all_expanded, cursor_group, cursor_note,
    cursor_row, cursor_task, filter_cycled, fold_target, folded, group_cycled, header_above,
    header_keys, moved_cursor, on_header, overdue_toggled, rebuilt, scrolled, today_toggled};
use crate::task::{NoteContent, Task, opt_content, opt_text, task_views};
use crate::theme::{LayoutPrefs, Theme, default_prefs, default_theme};

verus! {

/// The state of the browser.
#[derive(Debug)]
pub struct App {
    /// The tasks of the index.
    pub tasks: Vec<Task>,
    /// The rows shown.
    pub rows: Vec<DisplayRow>,
    /// The cursor.
    pub state: ListState,
    pub filter: StatusFilter,
    /// The keys of the groups that are unfolded. Groups start folded.
    pub expanded: KeySet,
    /// The ids of the actions of this session that are not resolved yet.
    pub pending_session_actions: Vec<i64>,
    /// What is told above the footer.
    pub notice: Option<String>,
    /// The note whose text the context pane has.
    pub ctx_note_path: Option<String>,
    /// The text of that note, where the index has it.
    pub ctx_content: Option<NoteContent>,
    pub pane_visible: bool,
    /// The lines the context pane is scrolled by.
    pub ctx_scroll: i32,
    pub today_only: bool,
    /// `YYYY-MM-DD`.
    pub today: String,
    pub search_query: String,
    /// Whether the text-search prompt takes the keys.
    pub searching: bool,
    pub file_query: String,
    /// Whether the file-search prompt takes the keys.
    pub file_searching: bool,
    pub overdue_only: bool,
    /// Whether the quick-add prompt takes the keys.
    pub quick_adding: bool,
    pub quick_add_query: String,
    /// Whether the note prompt takes the keys.
    pub adding_note: bool,
    pub note_query: String,
    /// Whether move mode takes the keys.
    pub moving: bool,
    /// The task being moved.
    pub move_task_id: i64,
    /// The ids of the moved task's run, in their order when move mode was entered.
    pub move_initial_ids: Vec<i64>,
    /// The note quick-add writes to.
    pub inbox_path: String,
    /// The note closed tasks are archived to.
    pub archive_path: String,
    /// The vault name of links; without one there are none.
    pub vault_name: Option<String>,
    /// Whether links name the line.
    pub use_advanced_uri: bool,
    /// The last write that can be taken back.
    pub last_action: Option<LastAction>,
    pub group_by: GroupBy,
    /// Whether the help overlay takes the keys.
    pub show_help: bool,
    pub theme: Theme,
    pub layout: LayoutPrefs,
}

impl View for App {
    type V = AppView;

    open spec fn view(&self) -> AppView {
        AppView {
            tasks: task_views(self.tasks@),
            rows: row_views(self.rows@),
            row: opt_nat(self.state.row),
            filter: self.filter,
            expanded: self.expanded@,
            pending: self.pending_session_actions@,
            notice: opt_text(self.notice),
            ctx_note_path: opt_text(self.ctx_note_path),
            ctx_content: opt_content(self.ctx_content),
            pane_visible: self.pane_visible,
            ctx_scroll: self.ctx_scroll as int,
            today_only: self.today_only,
            today: self.today@,
            search_query: self.search_query@,
            searching: self.searching,
            file_query: self.file_query@,
            file_searching: self.file_searching,
            overdue_only: self.overdue_only,
            quick_adding: self.quick_adding,
            quick_add_query: self.quick_add_query@,
            adding_note: self.adding_note,
            note_query: self.note_query@,
            moving: self.moving,
            move_task_id: self.move_task_id,
            move_initial_ids: self.move_initial_ids@,
            inbox_path: self.inbox_path@,
            archive_path: self.archive_path@,
            vault_name: opt_text(self.vault_name),
            use_advanced_uri: self.use_advanced_uri,
            last_action: opt_last(self.last_action),
            group_by: self.group_by,
            show_help: self.show_help,
            theme: self.theme,
            layout: self.layout,
        }
    }
}

/// The state a session starts in: nothing read yet, open tasks only, every group folded.
pub open spec fn initial(today: Seq<char>) -> AppView {
    AppView {
        tasks: seq![],
        rows: seq![],
        row: None,
        filter: StatusFilter::Open,
        expanded: Set::empty(),
        pending: seq![],
        notice: None,
        ctx_note_path: None,
        ctx_content: None,
        pane_visible: true,
        ctx_scroll: 0,
        today_only: false,
        today,
        search_query: seq![],
        searching: false,
        file_query: seq![],
        file_searching: false,
        overdue_only: false,
        quick_adding: false,
        quick_add_query: seq![],
        adding_note: false,
        note_query: seq![],
        moving: false,
        move_task_id: 0,
        move_initial_ids: seq![],
        inbox_path: "task-inbox.md"@,
        archive_path: "task-archive.md"@,
        vault_name: None,
        use_advanced_uri: false,
        last_action: None,
        group_by: GroupBy::FolderNote,
        show_help: false,
        theme: default_theme(),
        layout: default_prefs(),
    }
}

impl App {
    /// The state a session starts in, on the day `today`.
    pub fn new(today: String) -> (r: App)
        ensures
            r@ == initial(today@),
    {
        let r = App {
            tasks: Vec::new(),
            rows: Vec::new(),
            state: ListState::default(),
            filter: StatusFilter::Open,
            expanded: KeySet::new(),
            pending_session_actions: Vec::new(),
            notice: None,
            ctx_note_path: None,
            ctx_content: None,
            pane_visible: true,
            ctx_scroll: 0,
            today_only: false,
            today,
            search_query: String::new(),
            searching: false,
            file_query: String::new(),
            file_searching: false,
            overdue_only: false,
            quick_adding: false,
            quick_add_query: String::new(),
            adding_note: false,
            note_query: String::new(),
            moving: false,
            move_task_id: 0,
            move_initial_ids: Vec::new(),
            inbox_path: "task-inbox.md".to_owned(),
            archive_path: "task-archive.md".to_owned(),
            vault_name: None,
            use_advanced_uri: false,
            last_action: None,
            group_by: GroupBy::FolderNote,
            show_help: false,
            theme: Theme::default(),
            layout: LayoutPrefs::default(),
        };
        assert(r@ =~= initial(today@));
        r
    }

    // ----------------------------------------------------------------------
    // The cursor and the rows.
    // ----------------------------------------------------------------------
    /// The row under the cursor.
    pub(crate) fn selected_row(&self) -> (r: Option<&DisplayRow>)
        ensures
            match r {
                Some(row) => cursor_row(self@) == Some(row@),
                None => cursor_row(self@) is None,
            },
    {
        match self.state.selected() {
            Some(i) => if i < self.rows.len() {
                Some(&self.rows[i])
            } else {
                None
            },
            None => None,
        }
    }

    /// The task under the cursor; a header has none.
    pub fn selected_task(&self) -> (r: Option<&Task>)
        ensures
            match r {
                Some(t) => cursor_task(self@) == Some(t@),
                None => cursor_task(self@) is None,
            },
    {
        match self.selected_row() {
            Some(DisplayRow::Task { task }) => Some(&**task),
            _ => None,
        }
    }

    /// The note of the row under the cursor: the note of a task, the key of a header.
    pub fn selected_note_path(&self) -> (r: Option<String>)
        ensures
            opt_text(r) == cursor_note(self@),
    {
        match self.selected_row() {
            Some(row) => Some(row.note_path().to_owned()),
            None => None,
        }
    }

    /// What is under the cursor: its note, its task and its position.
    pub fn snapshot(&self) -> (r: (Option<String>, Option<i64>, Option<usize>))
        ensures
            opt_text(r.0) == cursor_note(self@),
            r.1 == (match cursor_task(self@) {
                Some(t) => Some(t.id),
                None => None,
            }),
            r.2 == self.state.row,
    {
        let task_id = match self.selected_task() {
            Some(t) => Some(t.id),
            None => None,
        };
        (self.selected_note_path(), task_id, self.state.selected())
    }

    /// Rebuilds the rows and keeps the cursor.
    pub fn rebuild(&mut self)
        ensures
            final(self)@ == rebuilt(old(self)@),
    {
        let (note, task_id, idx) = self.snapshot();
        self.rows = build_view(
            self.tasks.as_slice(),
            self.filter,
            &self.expanded,
            self.today_only,
            self.today.as_str(),
            self.search_query.as_str(),
            self.file_query.as_str(),
            self.overdue_only,
            self.group_by,
        );
        let prev = match &note {
            Some(n) => Some(n.as_str()),
            None => None,
        };
        reconcile_view_selection(self.rows.as_slice(), prev, task_id, idx, &mut self.state);
        assert(self@ =~= rebuilt(old(self)@));
    }

    /// Moves the cursor by `delta` rows, as far as the list goes.
    pub fn move_selection(&mut self, delta: i32)
        ensures
            final(self)@ == moved_cursor(old(self)@, delta as int),
    {
        if self.rows.len() == 0 {
            return;
        }
        let from: usize = match self.state.selected() {
            Some(i) => i,
            None => 0,
        };
        let last: i128 = self.rows.len() as i128 - 1;
        let to: i128 = from as i128 + delta as i128;
        let next: usize = if to < 0 {
            0
        } else if to > last {
            last as usize
        } else {
            to as usize
        };
        self.state.select(Some(next));
        self.ctx_scroll = 0;
    }

    // ----------------------------------------------------------------------
    // Filters and groups.
    // ----------------------------------------------------------------------
    /// Cycles the status filter.
    pub fn cycle_filter(&mut self)
        ensures
            final(self)@ == filter_cycled(old(self)@),
    {
        self.filter = self.filter.next();
        self.rebuild();
        self.ctx_scroll = 0;
    }

    /// Cycles the grouping axis. What was unfolded stays remembered under its own keys.
    pub fn cycle_group_by(&mut self)
        ensures
            final(self)@ == group_cycled(old(self)@),
    {
        self.group_by = self.group_by.next();
        self.rebuild();
        self.ctx_scroll = 0;
    }

    /// Shows only what is scheduled or due today, or all again.
    pub fn toggle_today(&mut self)
        ensures
            final(self)@ == today_toggled(old(self)@),
    {
        self.today_only = !self.today_only;
        self.rebuild();
        self.ctx_scroll = 0;
    }

    /// Shows only what was due before today, or all again.
    pub fn toggle_overdue(&mut self)
        ensures
            final(self)@ == overdue_toggled(old(self)@),
    {
        self.overdue_only = !self.overdue_only;
        self.rebuild();
        self.ctx_scroll = 0;
    }

    /// The key of the nearest header above position `at`.
    fn group_above(&self, at: usize) -> (r: Option<String>)
        requires
            at <= self.rows@.len(),
        ensures
            opt_text(r) == header_above(self@.rows, at as nat),
    {
        let mut i: usize = at;
        while i > 0
            invariant
                i <= at <= self.rows@.len(),
                header_above(self@.rows, at as nat) == header_above(self@.rows, i as nat),
            decreases i,
        {
            assert(self@.rows[i - 1] == self.rows@[i - 1]@);
            if let DisplayRow::Header { group_key, .. } = &self.rows[i - 1] {
                return Some(group_key.clone());
            }
            i -= 1;
        }
        None
    }

    /// The group a fold key speaks of, and whether it is to be unfolded.
    fn fold_request(&self, mode: ToggleMode) -> (r: Option<(String, bool)>)
        ensures
            match r {
                Some((key, want)) => fold_target(self@, mode) == Some((key@, want)),
                None => fold_target(self@, mode) is None,
            },
    {
        match self.selected_row() {
            Some(DisplayRow::Header { group_key, .. }) => {
                let want = match mode {
                    ToggleMode::Toggle => !self.expanded.contains(group_key.as_str()),
                    ToggleMode::Expand => true,
                    ToggleMode::Collapse => false,
                };
                Some((group_key.clone(), want))
            },
            Some(DisplayRow::Task { .. }) => match (mode, self.state.selected()) {
                (ToggleMode::Collapse, Some(i)) => match self.group_above(i) {
                    Some(key) => Some((key, false)),
                    None => None,
                },
                _ => None,
            },
            None => None,
        }
    }

    /// Puts the cursor on the header of the group `key`, where it has one.
    fn land_on_header(&mut self, key: &str)
        ensures
            final(self)@ == on_header(old(self)@, key@),
    {
        let found = position_of_header(self.rows.as_slice(), key);
        if found.is_some() {
            self.state.select(found);
        }
        assert(self@ =~= on_header(old(self)@, key@));
    }

    /// Folds or unfolds the group under the cursor, and puts the cursor on its header. On a task only
    /// folding means anything: it folds the group the task stands in.
    pub fn toggle_at_cursor(&mut self, mode: ToggleMode)
        ensures
            final(self)@ == folded(old(self)@, mode),
    {
        if let Some((key, want)) = self.fold_request(mode) {
            if want {
                self.expanded.insert(key.clone());
            } else {
                self.expanded.remove(key.as_str());
            }
            self.rebuild();
            self.ctx_scroll = 0;
            self.land_on_header(key.as_str());
        }
    }

    /// The key of the group the cursor is in.
    fn selected_group(&self) -> (r: Option<String>)
        ensures
            opt_text(r) == cursor_group(self@),
    {
        match (self.selected_row(), self.state.selected()) {
            (Some(DisplayRow::Header { group_key, .. }), _) => Some(group_key.clone()),
            (Some(DisplayRow::Task { .. }), Some(i)) => self.group_above(i),
            _ => None,
        }
    }

    /// Unfolds every group that is shown.
    pub fn expand_all(&mut self)
        ensures
            final(self)@ == all_expanded(old(self)@),
    {
        let mut i: usize = 0;
        let ghost start = self@;
        let ghost rv = self@.rows;
        assert(rv.take(0) =~= Seq::<RowView>::empty());
        assert(start.expanded.union(header_keys(rv.take(0))) =~= start.expanded);
        while i < self.rows.len()
            invariant
                i <= self.rows@.len(),
                rv == row_views(self.rows@),
                rv == start.rows,
                self@ =~= (AppView {
                    expanded: start.expanded.union(header_keys(rv.take(i as int))),
                    ..start
                }),
            decreases self.rows@.len() - i,
        {
            assert(rv.take(i + 1).drop_last() =~= rv.take(i as int));
            assert(rv[i as int] == self.rows@[i as int]@);
            let key = match &self.rows[i] {
                DisplayRow::Header { group_key, .. } => Some(group_key.clone()),
                DisplayRow::Task { .. } => None,
            };
            if let Some(k) = key {
                self.expanded.insert(k);
                assert(self@.expanded =~= start.expanded.union(header_keys(rv.take(i + 1))));
            }
            i += 1;
        }
        assert(rv.take(i as int) =~= rv);
        self.rebuild();
        self.ctx_scroll = 0;
    }

    /// Folds every group, and puts the cursor on the header of the group it was in.
    pub fn collapse_all(&mut self)
        ensures
            final(self)@ == all_collapsed(old(self)@),
    {
        let group = self.selected_group();
        self.expanded.clear();
        self.rebuild();
        self.ctx_scroll = 0;
        if let Some(key) = group {
            self.land_on_header(key.as_str());
        }
    }

    /// Scrolls the context pane by `delta` lines.
    pub fn scroll_context(&mut self, delta: i32)
        ensures
            final(self)@ == scrolled(old(self)@, delta as int),
    {
        let to: i64 = self.ctx_scroll as i64 + delta as i64;
        self.ctx_scroll = if to < i32::MIN as i64 {
            i32::MIN
        } else if to > i32::MAX as i64 {
            i32::MAX
        } else {
            to as i32
        };
    }

    /// Shows or hides the context pane.
    pub fn toggle_pane(&mut self)
        ensures
            final(self)@ == (AppView { pane_visible: !old(self)@.pane_visible, ..old(self)@ }),
    {
        self.pane_visible = !self.pane_visible;
    }

    /// Shows or hides the help overlay.
    pub fn toggle_help(&mut self)
        ensures
            final(self)@ == (AppView { show_help: !old(self)@.show_help, ..old(self)@ }),
    {
        self.show_help = !self.show_help;
    }
}

}
