//! The help overlay: every key and what it does.

use vstd::prelude::*;
use crate::spans::{LineView, Span, SpanView, Style, coloured, dimmed, emphasised, line_view,
    line_views, marked, no_lines, no_spans, push_line, push_raw, push_span, raw_span, span};
use crate::text::{pad_right, padded_right};
use crate::theme::Theme;

verus! {

/// How wide the column of the keys is.
pub const HELP_KEY_W: usize = 16;

/// The heading of a group of keys.
pub open spec fn help_head(text: Seq<char>, theme: Theme) -> LineView {
    seq![span(text, emphasised(theme.accent, theme))]
}

/// A key and what it does.
pub open spec fn help_row(key: Seq<char>, text: Seq<char>, theme: Theme) -> LineView {
    seq![
        raw_span(" "@),
        span(padded_right(key, HELP_KEY_W as nat), coloured(theme.warning)),
        raw_span("  "@),
        raw_span(text),
    ]
}

/// The lines of the overlay.
pub open spec fn help_lines(theme: Theme) -> Seq<LineView> {
    seq![
        help_head("Navigation"@, theme),
        help_row("j/k ↑/↓"@, "Move selection up/down"@, theme),
        help_row("Enter"@, "Fold group"@, theme),
        help_row("←/→"@, "Collapse / expand group"@, theme),
        help_row("Tab / ⇧Tab"@, "Expand all / collapse all groups"@, theme),
        help_row("J / K"@, "Scroll context pane"@, theme),
        seq![],
        help_head("Filter & view"@, theme),
        help_row("f"@, "Cycle status filter (All / Open / Done)"@, theme),
        help_row("T"@, "Today view (scheduled or due == today)"@, theme),
        help_row("O"@, "Overdue view (due < today)"@, theme),
        help_row("G"@, "Cycle group-by (folder+note / note / tag / priority / folder)"@, theme),
        help_row("p"@, "Toggle context pane"@, theme),
        seq![],
        help_head("Task actions"@, theme),
        help_row("Space"@, "Toggle open ↔ done (stamps ✅)"@, theme),
        help_row("t"@, "Mark / unmark for today (⏳)"@, theme),
        help_row("b"@, "Toggle checkbox ↔ bullet"@, theme),
        help_row("d"@, "Cancel / un-cancel (stamps ❌)"@, theme),
        help_row("i"@, "Mark in-progress / re-open"@, theme),
        help_row("u"@, "Undo last flip / bullet / quick-add"@, theme),
        help_row("a"@, "Quick-add to inbox"@, theme),
        help_row("n"@, "Add a note to the task (links it)"@, theme),
        help_row("m"@, "Move mode: reorder within note (Enter place / Esc cancel)"@, theme),
        help_row("A"@, "Archive note's completed tasks (→ archive note)"@, theme),
        help_row("o"@, "Open in Obsidian"@, theme),
        seq![],
        help_head("Search"@, theme),
        help_row("/"@, "Text search (task body)"@, theme),
        help_row("F"@, "File / path search"@, theme),
        seq![],
        help_head("Other"@, theme),
        help_row("?"@, "Toggle this help"@, theme),
        help_row("q / Esc / Ctrl-C"@, "Quit"@, theme),
        seq![],
        seq![span(" ? / Esc / q to close"@, marked(dimmed()))],
    ]
}

fn head(lines: &mut Vec<Vec<Span>>, text: &str, theme: &Theme)
    ensures
        line_views(final(lines)@) == line_views(old(lines)@).push(help_head(text@, *theme)),
{
    let mut line = no_spans();
    push_span(&mut line, text.to_owned(), Style::strong(theme.accent, theme));
    assert(line_view(line@) =~= help_head(text@, *theme));
    push_line(lines, line);
}

fn row(lines: &mut Vec<Vec<Span>>, key: &str, text: &str, theme: &Theme)
    ensures
        line_views(final(lines)@) == line_views(old(lines)@).push(help_row(key@, text@, *theme)),
{
    let mut line = no_spans();
    push_raw(&mut line, " ");
    push_span(&mut line, pad_right(key, HELP_KEY_W), Style::fg(theme.warning));
    push_raw(&mut line, "  ");
    push_raw(&mut line, text);
    assert(line_view(line@) =~= help_row(key@, text@, *theme));
    push_line(lines, line);
}

fn gap(lines: &mut Vec<Vec<Span>>)
    ensures
        line_views(final(lines)@) == line_views(old(lines)@).push(Seq::<SpanView>::empty()),
{
    push_line(lines, no_spans());
}

/// The lines of the help overlay.
pub fn help_popup(theme: &Theme) -> (r: Vec<Vec<Span>>)
    ensures
        line_views(r@) == help_lines(*theme),
{
    let mut r = no_lines();
    head(&mut r, "Navigation", theme);
    row(&mut r, "j/k ↑/↓", "Move selection up/down", theme);
    row(&mut r, "Enter", "Fold group", theme);
    row(&mut r, "←/→", "Collapse / expand group", theme);
    row(&mut r, "Tab / ⇧Tab", "Expand all / collapse all groups", theme);
    row(&mut r, "J / K", "Scroll context pane", theme);
    gap(&mut r);
    head(&mut r, "Filter & view", theme);
    row(&mut r, "f", "Cycle status filter (All / Open / Done)", theme);
    row(&mut r, "T", "Today view (scheduled or due == today)", theme);
    row(&mut r, "O", "Overdue view (due < today)", theme);
    row(&mut r, "G", "Cycle group-by (folder+note / note / tag / priority / folder)", theme);
    row(&mut r, "p", "Toggle context pane", theme);
    gap(&mut r);
    head(&mut r, "Task actions", theme);
    row(&mut r, "Space", "Toggle open ↔ done (stamps ✅)", theme);
    row(&mut r, "t", "Mark / unmark for today (⏳)", theme);
    row(&mut r, "b", "Toggle checkbox ↔ bullet", theme);
    row(&mut r, "d", "Cancel / un-cancel (stamps ❌)", theme);
    row(&mut r, "i", "Mark in-progress / re-open", theme);
    row(&mut r, "u", "Undo last flip / bullet / quick-add", theme);
    row(&mut r, "a", "Quick-add to inbox", theme);
    row(&mut r, "n", "Add a note to the task (links it)", theme);
    row(&mut r, "m", "Move mode: reorder within note (Enter place / Esc cancel)", theme);
    row(&mut r, "A", "Archive note's completed tasks (→ archive note)", theme);
    row(&mut r, "o", "Open in Obsidian", theme);
    gap(&mut r);
    head(&mut r, "Search", theme);
    row(&mut r, "/", "Text search (task body)", theme);
    row(&mut r, "F", "File / path search", theme);
    gap(&mut r);
    head(&mut r, "Other", theme);
    row(&mut r, "?", "Toggle this help", theme);
    row(&mut r, "q / Esc / Ctrl-C", "Quit", theme);
    gap(&mut r);
    let mut hint = no_spans();
    push_span(&mut hint, " ? / Esc / q to close".to_owned(), Style::dim());
    push_line(&mut r, hint);
    r
}

}
