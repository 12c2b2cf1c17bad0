//! The prompts: text search, file search, quick-add and notes.

use vstd::prelude::*;
use vstd::string::*;
use crate::actions::{LastAction, Request, Submission, opt_submission};
use crate::app::App;
use crate::model::{file_search_cleared, file_search_finished, file_search_started,
    file_search_typed, note_closed, note_started, note_submission, note_typed, quick_add_closed,
    quick_add_started, quick_add_submission, quick_add_typed, search_cleared, search_finished,
    search_started, search_typed, shortened};
use crate::text::trim;

verus! {

/// The search prompts. A query filters as it is typed, and stays applied once its prompt is left.
impl App {
    /// Opens the text-search prompt, with the query there is.
    pub fn start_search(&mut self)
        ensures
            final(self)@ == search_started(old(self)@),
    {
        self.file_searching = false;
        self.searching = true;
    }

    /// Appends a character to the query.
    pub fn push_search_char(&mut self, c: char)
        ensures
            final(self)@ == search_typed(old(self)@, old(self)@.search_query.push(c)),
    {
        self.search_query.push(c);
        self.rebuild();
    }

    /// Removes the last character of the query.
    pub fn pop_search_char(&mut self)
        ensures
            final(self)@ == search_typed(old(self)@, shortened(old(self)@.search_query)),
    {
        self.search_query.pop();
        self.rebuild();
    }

    /// Closes the prompt and keeps the query.
    pub fn finish_search(&mut self)
        ensures
            final(self)@ == search_finished(old(self)@),
    {
        self.searching = false;
    }

    /// Closes the prompt and drops the query.
    pub fn clear_search(&mut self)
        ensures
            final(self)@ == search_cleared(old(self)@),
    {
        self.searching = false;
        if !self.search_query.as_str().is_empty() {
            self.search_query = String::new();
            assert(self.search_query@ =~= Seq::<char>::empty());
            self.rebuild();
        }
    }

    /// Opens the file-search prompt, with the query there is.
    pub fn start_file_search(&mut self)
        ensures
            final(self)@ == file_search_started(old(self)@),
    {
        self.searching = false;
        self.file_searching = true;
    }

    /// Appends a character to the file query.
    pub fn push_file_search_char(&mut self, c: char)
        ensures
            final(self)@ == file_search_typed(old(self)@, old(self)@.file_query.push(c)),
    {
        self.file_query.push(c);
        self.rebuild();
    }

    /// Removes the last character of the file query.
    pub fn pop_file_search_char(&mut self)
        ensures
            final(self)@ == file_search_typed(old(self)@, shortened(old(self)@.file_query)),
    {
        self.file_query.pop();
        self.rebuild();
    }

    /// Closes the prompt and keeps the file query.
    pub fn finish_file_search(&mut self)
        ensures
            final(self)@ == file_search_finished(old(self)@),
    {
        self.file_searching = false;
    }

    /// Closes the prompt and drops the file query.
    pub fn clear_file_search(&mut self)
        ensures
            final(self)@ == file_search_cleared(old(self)@),
    {
        self.file_searching = false;
        if !self.file_query.as_str().is_empty() {
            self.file_query = String::new();
            assert(self.file_query@ =~= Seq::<char>::empty());
            self.rebuild();
        }
    }
}

/// The prompts that write.
impl App {
    /// Opens an empty quick-add prompt.
    pub fn start_quick_add(&mut self)
        ensures
            final(self)@ == quick_add_started(old(self)@),
    {
        self.searching = false;
        self.file_searching = false;
        self.quick_adding = true;
        self.quick_add_query = String::new();
    }

    /// Appends a character to the quick-add text.
    pub fn push_quick_add_char(&mut self, c: char)
        ensures
            final(self)@ == quick_add_typed(old(self)@, old(self)@.quick_add_query.push(c)),
    {
        self.quick_add_query.push(c);
    }

    /// Removes the last character of the quick-add text.
    pub fn pop_quick_add_char(&mut self)
        ensures
            final(self)@ == quick_add_typed(old(self)@, shortened(old(self)@.quick_add_query)),
    {
        self.quick_add_query.pop();
    }

    /// Closes the quick-add prompt.
    pub fn clear_quick_add(&mut self)
        ensures
            final(self)@ == quick_add_closed(old(self)@),
    {
        self.quick_adding = false;
        self.quick_add_query = String::new();
    }

    /// Closes the quick-add prompt and submits its trimmed text; an empty text submits nothing.
    pub fn submit_quick_add(&mut self) -> (r: Option<Submission>)
        ensures
            final(self)@ == quick_add_closed(old(self)@),
            opt_submission(r) == quick_add_submission(old(self)@),
    {
        let text = trim(self.quick_add_query.as_str());
        self.clear_quick_add();
        if text.as_str().is_empty() {
            return None;
        }
        Some(
            Submission {
                request: Request::QuickAdd {
                    inbox_path: self.inbox_path.clone(),
                    text: text.clone(),
                },
                undo: Some(LastAction::QuickAdd { inbox_path: self.inbox_path.clone(), text }),
                confirmation: None,
            },
        )
    }

    /// Opens an empty note prompt for the task under the cursor; on a header nothing happens.
    pub fn start_add_note(&mut self)
        ensures
            final(self)@ == note_started(old(self)@),
    {
        if self.selected_task().is_none() {
            return;
        }
        self.searching = false;
        self.file_searching = false;
        self.quick_adding = false;
        self.adding_note = true;
        self.note_query = String::new();
    }

    /// Appends a character to the note.
    pub fn push_note_char(&mut self, c: char)
        ensures
            final(self)@ == note_typed(old(self)@, old(self)@.note_query.push(c)),
    {
        self.note_query.push(c);
    }

    /// Removes the last character of the note.
    pub fn pop_note_char(&mut self)
        ensures
            final(self)@ == note_typed(old(self)@, shortened(old(self)@.note_query)),
    {
        self.note_query.pop();
    }

    /// Closes the note prompt.
    pub fn clear_add_note(&mut self)
        ensures
            final(self)@ == note_closed(old(self)@),
    {
        self.adding_note = false;
        self.note_query = String::new();
    }

    /// Closes the note prompt and submits its trimmed text for the task under the cursor; an empty
    /// text submits nothing.
    pub fn submit_add_note(&mut self) -> (r: Option<Submission>)
        ensures
            final(self)@ == note_closed(old(self)@),
            opt_submission(r) == note_submission(old(self)@),
    {
        let text = trim(self.note_query.as_str());
        let request = match self.selected_task() {
            Some(task) => if text.as_str().is_empty() {
                None
            } else {
                Some(
                    Request::AddNote {
                        task_id: task.id,
                        note_path: task.note_path.clone(),
                        line_number: task.line_number,
                        text,
                    },
                )
            },
            None => None,
        };
        self.clear_add_note();
        match request {
            Some(request) => Some(Submission { request, undo: None, confirmation: None }),
            None => None,
        }
    }
}

}
