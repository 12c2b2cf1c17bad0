//! What the keys do.
//!
//! One mode takes the keys at a time: a prompt, move mode, the help overlay, or else the list. What
//! a key asks of the outside comes back as an [`Effect`].

use vstd::prelude::*;
use crate::actions::{Link, LinkView, Submission, SubmissionView, opt_submission};
use crate::app::App;
use crate::model::{AppView, ToggleMode, all_collapsed, all_expanded, archive_pressed,
    archive_submission, bullet_submission, cancel_submission, cursor_link, file_search_cleared,
    file_search_finished, file_search_started, file_search_typed, filter_cycled, folded,
    group_cycled, in_progress_submission, move_cancelled, move_left, move_started, move_submission,
    moved_cursor, note_closed, note_started, note_submission, note_typed, overdue_toggled,
    quick_add_closed, quick_add_started, quick_add_submission, quick_add_typed,
    schedule_submission, scrolled, search_cleared, search_finished, search_started, search_typed,
    shortened, task_moved, today_toggled, toggle_submission, undo_submission};
use crate::writes::open_in_obsidian;

verus! {

/// A key.
#[derive(Clone, Copy, PartialEq, Eq, Debug, Structural)]
pub enum KeyCode {
    Char(char),
    Enter,
    Esc,
    Backspace,
    Left,
    Right,
    Up,
    Down,
    Tab,
    BackTab,
    /// Any key nothing is bound to.
    Other,
}

/// A key event.
#[derive(Clone, Copy, PartialEq, Eq, Debug, Structural)]
pub struct KeyEvent {
    pub code: KeyCode,
    /// Whether Control is held.
    pub ctrl: bool,
    /// Whether the key went down; a release or a repeat is not.
    pub press: bool,
}

/// What a key asks of the outside.
#[derive(Debug)]
pub enum Effect {
    Nothing,
    /// End the session.
    Quit,
    /// Put a request into the queue, and hand what became of it to [`App::settle`].
    Submit(Submission),
    /// Open a link.
    Open(Link),
}

/// What an [`Effect`] is.
#[verifier::ext_equal]
pub enum EffectView {
    Nothing,
    Quit,
    Submit(SubmissionView),
    Open(LinkView),
}

impl View for Effect {
    type V = EffectView;

    open spec fn view(&self) -> EffectView {
        match self {
            Effect::Nothing => EffectView::Nothing,
            Effect::Quit => EffectView::Quit,
            Effect::Submit(s) => EffectView::Submit(s@),
            Effect::Open(l) => EffectView::Open(l@),
        }
    }
}

/// The effect of an optional submission.
pub open spec fn submitting(s: Option<SubmissionView>) -> EffectView {
    match s {
        Some(s) => EffectView::Submit(s),
        None => EffectView::Nothing,
    }
}

fn submit(s: Option<Submission>) -> (r: Effect)
    ensures
        r@ == submitting(opt_submission(s)),
{
    match s {
        Some(s) => Effect::Submit(s),
        None => Effect::Nothing,
    }
}

/// The mode that takes the keys.
#[derive(Clone, Copy, PartialEq, Eq, Debug, Structural)]
pub enum Mode {
    Search,
    FileSearch,
    QuickAdd,
    Note,
    Moving,
    Help,
    List,
}

/// The mode that takes the keys.
pub open spec fn key_mode(a: AppView) -> Mode {
    if a.searching {
        Mode::Search
    } else if a.file_searching {
        Mode::FileSearch
    } else if a.quick_adding {
        Mode::QuickAdd
    } else if a.adding_note {
        Mode::Note
    } else if a.moving {
        Mode::Moving
    } else if a.show_help {
        Mode::Help
    } else {
        Mode::List
    }
}

/// What a key does at the text-search prompt.
pub open spec fn search_key(a: AppView, code: KeyCode) -> AppView {
    match code {
        KeyCode::Esc => search_cleared(a),
        KeyCode::Enter => search_finished(a),
        KeyCode::Backspace => search_typed(a, shortened(a.search_query)),
        KeyCode::Char(c) => search_typed(a, a.search_query.push(c)),
        _ => a,
    }
}

/// What a key does at the file-search prompt.
pub open spec fn file_search_key(a: AppView, code: KeyCode) -> AppView {
    match code {
        KeyCode::Esc => file_search_cleared(a),
        KeyCode::Enter => file_search_finished(a),
        KeyCode::Backspace => file_search_typed(a, shortened(a.file_query)),
        KeyCode::Char(c) => file_search_typed(a, a.file_query.push(c)),
        _ => a,
    }
}

/// What a key does at the quick-add prompt.
pub open spec fn quick_add_key(a: AppView, code: KeyCode) -> (AppView, EffectView) {
    match code {
        KeyCode::Esc => (quick_add_closed(a), EffectView::Nothing),
        KeyCode::Enter => (quick_add_closed(a), submitting(quick_add_submission(a))),
        KeyCode::Backspace => (
            quick_add_typed(a, shortened(a.quick_add_query)),
            EffectView::Nothing,
        ),
        KeyCode::Char(c) => (quick_add_typed(a, a.quick_add_query.push(c)), EffectView::Nothing),
        _ => (a, EffectView::Nothing),
    }
}

/// What a key does at the note prompt.
pub open spec fn note_key(a: AppView, code: KeyCode) -> (AppView, EffectView) {
    match code {
        KeyCode::Esc => (note_closed(a), EffectView::Nothing),
        KeyCode::Enter => (note_closed(a), submitting(note_submission(a))),
        KeyCode::Backspace => (note_typed(a, shortened(a.note_query)), EffectView::Nothing),
        KeyCode::Char(c) => (note_typed(a, a.note_query.push(c)), EffectView::Nothing),
        _ => (a, EffectView::Nothing),
    }
}

/// What a key does in move mode.
pub open spec fn move_key(a: AppView, code: KeyCode) -> (AppView, EffectView) {
    match code {
        KeyCode::Down => (task_moved(a, 1), EffectView::Nothing),
        KeyCode::Char('j') => (task_moved(a, 1), EffectView::Nothing),
        KeyCode::Up => (task_moved(a, -1), EffectView::Nothing),
        KeyCode::Char('k') => (task_moved(a, -1), EffectView::Nothing),
        KeyCode::Enter => (move_left(a), submitting(move_submission(a))),
        KeyCode::Esc => (move_cancelled(a), EffectView::Nothing),
        _ => (a, EffectView::Nothing),
    }
}

/// Whether a key closes the help overlay.
pub open spec fn closes_help(code: KeyCode) -> bool {
    code == KeyCode::Char('?') || code == KeyCode::Esc || code == KeyCode::Char('q')
}

/// Whether a key closes the help overlay. Quitting is not among its meanings there.
pub fn help_dismisses_on(key: KeyCode) -> (r: bool)
    ensures
        r == closes_help(key),
{
    match key {
        KeyCode::Char('?') => true,
        KeyCode::Esc => true,
        KeyCode::Char('q') => true,
        _ => false,
    }
}

/// What a key does in the help overlay.
pub open spec fn help_key(a: AppView, code: KeyCode) -> (AppView, EffectView) {
    if closes_help(code) {
        (AppView { show_help: false, ..a }, EffectView::Nothing)
    } else {
        (a, EffectView::Nothing)
    }
}

/// What a key without a character does in the list.
pub open spec fn list_key(a: AppView, code: KeyCode) -> (AppView, EffectView) {
    match code {
        KeyCode::Esc => (a, EffectView::Quit),
        KeyCode::Down => (moved_cursor(a, 1), EffectView::Nothing),
        KeyCode::Up => (moved_cursor(a, -1), EffectView::Nothing),
        KeyCode::Enter => (folded(a, ToggleMode::Toggle), EffectView::Nothing),
        KeyCode::Right => (folded(a, ToggleMode::Expand), EffectView::Nothing),
        KeyCode::Left => (folded(a, ToggleMode::Collapse), EffectView::Nothing),
        KeyCode::Tab => (all_expanded(a), EffectView::Nothing),
        KeyCode::BackTab => (all_collapsed(a), EffectView::Nothing),
        _ => (a, EffectView::Nothing),
    }
}

/// What a character does in the list: the gestures that change the state alone.
pub open spec fn list_char(a: AppView, c: char) -> AppView {
    match c {
        'j' => moved_cursor(a, 1),
        'k' => moved_cursor(a, -1),
        'f' => filter_cycled(a),
        'G' => group_cycled(a),
        'T' => today_toggled(a),
        'O' => overdue_toggled(a),
        '/' => search_started(a),
        'F' => file_search_started(a),
        'a' => quick_add_started(a),
        'n' => note_started(a),
        'm' => move_started(a),
        'A' => archive_pressed(a),
        'J' => scrolled(a, 1),
        'K' => scrolled(a, -1),
        'p' => AppView { pane_visible: !a.pane_visible, ..a },
        '?' => AppView { show_help: !a.show_help, ..a },
        _ => a,
    }
}

/// What a character in the list asks of the outside.
pub open spec fn list_effect(a: AppView, c: char) -> EffectView {
    match c {
        'q' => EffectView::Quit,
        ' ' => submitting(toggle_submission(a)),
        't' => submitting(schedule_submission(a)),
        'b' => submitting(bullet_submission(a)),
        'u' => submitting(undo_submission(a)),
        'd' => submitting(cancel_submission(a)),
        'i' => submitting(in_progress_submission(a)),
        'A' => submitting(archive_submission(a)),
        'o' => EffectView::Open(cursor_link(a)),
        _ => EffectView::Nothing,
    }
}

/// Whether a key is Ctrl-C, which quits in every mode.
pub open spec fn is_ctrl_c(key: KeyEvent) -> bool {
    key.ctrl && key.code == KeyCode::Char('c')
}

/// What a key does.
pub open spec fn key_pressed(a: AppView, key: KeyEvent) -> (AppView, EffectView) {
    if !key.press {
        (a, EffectView::Nothing)
    } else if is_ctrl_c(key) {
        (a, EffectView::Quit)
    } else {
        match key_mode(a) {
            Mode::Search => (search_key(a, key.code), EffectView::Nothing),
            Mode::FileSearch => (file_search_key(a, key.code), EffectView::Nothing),
            Mode::QuickAdd => quick_add_key(a, key.code),
            Mode::Note => note_key(a, key.code),
            Mode::Moving => move_key(a, key.code),
            Mode::Help => help_key(a, key.code),
            Mode::List => match key.code {
                KeyCode::Char(c) => (list_char(a, c), list_effect(a, c)),
                code => list_key(a, code),
            },
        }
    }
}

impl App {
    /// The mode that takes the keys.
    pub fn mode(&self) -> (r: Mode)
        ensures
            r == key_mode(self@),
    {
        if self.searching {
            Mode::Search
        } else if self.file_searching {
            Mode::FileSearch
        } else if self.quick_adding {
            Mode::QuickAdd
        } else if self.adding_note {
            Mode::Note
        } else if self.moving {
            Mode::Moving
        } else if self.show_help {
            Mode::Help
        } else {
            Mode::List
        }
    }

    fn on_search_key(&mut self, code: KeyCode)
        ensures
            final(self)@ == search_key(old(self)@, code),
    {
        match code {
            KeyCode::Esc => self.clear_search(),
            KeyCode::Enter => self.finish_search(),
            KeyCode::Backspace => self.pop_search_char(),
            KeyCode::Char(c) => self.push_search_char(c),
            _ => {},
        }
    }

    fn on_file_search_key(&mut self, code: KeyCode)
        ensures
            final(self)@ == file_search_key(old(self)@, code),
    {
        match code {
            KeyCode::Esc => self.clear_file_search(),
            KeyCode::Enter => self.finish_file_search(),
            KeyCode::Backspace => self.pop_file_search_char(),
            KeyCode::Char(c) => self.push_file_search_char(c),
            _ => {},
        }
    }

    fn on_quick_add_key(&mut self, code: KeyCode) -> (r: Effect)
        ensures
            (final(self)@, r@) == quick_add_key(old(self)@, code),
    {
        match code {
            KeyCode::Esc => self.clear_quick_add(),
            KeyCode::Enter => {
                return submit(self.submit_quick_add());
            },
            KeyCode::Backspace => self.pop_quick_add_char(),
            KeyCode::Char(c) => self.push_quick_add_char(c),
            _ => {},
        }
        Effect::Nothing
    }

    fn on_note_key(&mut self, code: KeyCode) -> (r: Effect)
        ensures
            (final(self)@, r@) == note_key(old(self)@, code),
    {
        match code {
            KeyCode::Esc => self.clear_add_note(),
            KeyCode::Enter => {
                return submit(self.submit_add_note());
            },
            KeyCode::Backspace => self.pop_note_char(),
            KeyCode::Char(c) => self.push_note_char(c),
            _ => {},
        }
        Effect::Nothing
    }

    fn on_move_key(&mut self, code: KeyCode) -> (r: Effect)
        ensures
            (final(self)@, r@) == move_key(old(self)@, code),
    {
        match code {
            KeyCode::Down => self.move_task(1),
            KeyCode::Char('j') => self.move_task(1),
            KeyCode::Up => self.move_task(-1),
            KeyCode::Char('k') => self.move_task(-1),
            KeyCode::Enter => {
                return submit(self.commit_move());
            },
            KeyCode::Esc => self.cancel_move(),
            _ => {},
        }
        Effect::Nothing
    }

    fn on_help_key(&mut self, code: KeyCode) -> (r: Effect)
        ensures
            (final(self)@, r@) == help_key(old(self)@, code),
    {
        if help_dismisses_on(code) {
            self.show_help = false;
        }
        Effect::Nothing
    }

    fn on_list_key(&mut self, code: KeyCode) -> (r: Effect)
        ensures
            (final(self)@, r@) == list_key(old(self)@, code),
    {
        match code {
            KeyCode::Esc => {
                return Effect::Quit;
            },
            KeyCode::Down => self.move_selection(1),
            KeyCode::Up => self.move_selection(-1),
            KeyCode::Enter => self.toggle_at_cursor(ToggleMode::Toggle),
            KeyCode::Right => self.toggle_at_cursor(ToggleMode::Expand),
            KeyCode::Left => self.toggle_at_cursor(ToggleMode::Collapse),
            KeyCode::Tab => self.expand_all(),
            KeyCode::BackTab => self.collapse_all(),
            _ => {},
        }
        Effect::Nothing
    }

    fn on_list_char(&mut self, c: char) -> (r: Effect)
        ensures
            final(self)@ == list_char(old(self)@, c),
            r@ == list_effect(old(self)@, c),
    {
        match c {
            'q' => {
                return Effect::Quit;
            },
            ' ' => {
                return submit(self.submit_toggle());
            },
            't' => {
                return submit(self.submit_set_scheduled());
            },
            'b' => {
                return submit(self.submit_bullet_toggle());
            },
            'u' => {
                return submit(self.submit_undo());
            },
            'd' => {
                return submit(self.submit_cancel());
            },
            'i' => {
                return submit(self.submit_in_progress());
            },
            'A' => {
                return submit(self.archive_completed());
            },
            'o' => {
                return Effect::Open(open_in_obsidian(self));
            },
            'j' => self.move_selection(1),
            'k' => self.move_selection(-1),
            'f' => self.cycle_filter(),
            'G' => self.cycle_group_by(),
            'T' => self.toggle_today(),
            'O' => self.toggle_overdue(),
            '/' => self.start_search(),
            'F' => self.start_file_search(),
            'a' => self.start_quick_add(),
            'n' => self.start_add_note(),
            'm' => self.start_move(),
            'J' => self.scroll_context(1),
            'K' => self.scroll_context(-1),
            'p' => self.toggle_pane(),
            '?' => self.toggle_help(),
            _ => {},
        }
        Effect::Nothing
    }

    /// Does what a key does in the mode that takes it, and says what it asks of the outside.
    pub fn handle_key(&mut self, key: KeyEvent) -> (r: Effect)
        ensures
            (final(self)@, r@) == key_pressed(old(self)@, key),
    {
        if !key.press {
            return Effect::Nothing;
        }
        if key.ctrl && key.code == KeyCode::Char('c') {
            return Effect::Quit;
        }
        match self.mode() {
            Mode::Search => {
                self.on_search_key(key.code);
                Effect::Nothing
            },
            Mode::FileSearch => {
                self.on_file_search_key(key.code);
                Effect::Nothing
            },
            Mode::QuickAdd => self.on_quick_add_key(key.code),
            Mode::Note => self.on_note_key(key.code),
            Mode::Moving => self.on_move_key(key.code),
            Mode::Help => self.on_help_key(key.code),
            Mode::List => match key.code {
                KeyCode::Char(c) => self.on_list_char(c),
                code => self.on_list_key(code),
            },
        }
    }
}

}
