//! The context pane: the note around the task under the cursor.

use vstd::prelude::*;
use vstd::string::*;
use crate::layout::{Rect, inner, within_border};
use crate::listing::opt_nat;
use crate::model::clamped;
use crate::spans::{LineView, Span, Style, coloured, dimmed, emphasised, line_view, line_views,
    marked, no_lines, no_spans, push_line, push_raw, push_span, raw_span, span, unstyled};
use crate::task::NoteContent;
use crate::text::{chars_of, decimal, digits, lines_of, pad_left, padded_left, push_spaces, spaces,
    text_lines, views};
use crate::theme::{LayoutPrefs, Theme};

verus! {

/// The part of a note of `lines` lines that a pane of `height` rows shows: its first line, counted
/// from one, how many lines it has, and the place of the target among them. The target stands in the
/// middle, as far as the note allows; without a target the part begins at the top.
pub open spec fn window(lines: nat, target: Option<nat>, height: nat) -> (nat, nat, Option<nat>) {
    if lines == 0 || height == 0 {
        (1, 0, None)
    } else {
        let shown = if height < lines {
            height
        } else {
            lines
        };
        match target {
            None => (1, shown, None),
            Some(t) => {
                let line = clamped(t as int, 1, lines as int);
                let start = clamped(line - (shown / 2) as int, 1, lines - shown + 1);
                (start as nat, shown, Some((line - start) as nat))
            },
        }
    }
}

/// Decides which lines of a note the pane shows and where the target stands among them.
pub fn context_view(
    note_line_count: usize,
    target_line: Option<usize>,
    pane_height: usize,
) -> (r: (usize, usize, Option<usize>))
    ensures
        (r.0 as nat, r.1 as nat, opt_nat(r.2)) == window(
            note_line_count as nat,
            opt_nat(target_line),
            pane_height as nat,
        ),
{
    if note_line_count == 0 || pane_height == 0 {
        return (1, 0, None);
    }
    let shown: usize = if pane_height < note_line_count {
        pane_height
    } else {
        note_line_count
    };
    match target_line {
        None => (1, shown, None),
        Some(t) => {
            let line: usize = if t < 1 {
                1
            } else if t > note_line_count {
                note_line_count
            } else {
                t
            };
            let half: usize = shown / 2;
            let last: usize = note_line_count - shown + 1;
            let start: usize = if line <= half {
                1
            } else if line - half > last {
                last
            } else {
                line - half
            };
            (start, shown, Some(line - start))
        },
    }
}

/// `s` with every tab replaced by the spaces to the next of the tab stops, which are four columns
/// apart.
pub open spec fn tabs_expanded(s: Seq<char>) -> Seq<char>
    decreases s.len(),
{
    if s.len() == 0 {
        seq![]
    } else {
        let before = tabs_expanded(s.drop_last());
        if s.last() == '\t' {
            before + spaces((4 - before.len() % 4) as nat)
        } else {
            before.push(s.last())
        }
    }
}

/// Replaces every tab by the spaces to the next tab stop.
pub fn expand_tabs(s: &str) -> (r: String)
    ensures
        r@ == tabs_expanded(s@),
{
    let v = chars_of(s);
    let mut r = String::new();
    let mut col: usize = 0;
    let mut i: usize = 0;
    while i < v.len()
        invariant
            v@ == s@,
            i <= v@.len(),
            r@ =~= tabs_expanded(v@.take(i as int)),
            col < 4,
            col == r@.len() % 4,
        decreases v@.len() - i,
    {
        assert(v@.take(i + 1).drop_last() =~= v@.take(i as int));
        if v[i] == '\t' {
            push_spaces(&mut r, 4 - col);
            col = 0;
        } else {
            r.push(v[i]);
            col = if col == 3 {
                0
            } else {
                col + 1
            };
        }
        i += 1;
    }
    assert(v@.take(i as int) =~= s@);
    r
}

/// What the context pane shows.
#[derive(Debug)]
pub struct Pane {
    pub title: Vec<Span>,
    pub lines: Vec<Vec<Span>>,
    /// Whether long lines are wrapped.
    pub wrap: bool,
}

/// What a [`Pane`] is.
#[verifier::ext_equal]
pub struct PaneView {
    pub title: LineView,
    pub lines: Seq<LineView>,
    pub wrap: bool,
}

impl View for Pane {
    type V = PaneView;

    open spec fn view(&self) -> PaneView {
        PaneView { title: line_view(self.title@), lines: line_views(self.lines@), wrap: self.wrap }
    }
}

/// The title of the pane.
pub open spec fn pane_title(note_path: Option<Seq<char>>, theme: Theme) -> LineView {
    let name = match note_path {
        Some(n) => n,
        None => "(no note selected)"@,
    };
    seq![raw_span(" Context — "@), span(name, emphasised(theme.accent, theme)), raw_span(" "@)]
}

/// The first line the pane shows, with the manual scroll applied, not past the ends of the note.
pub open spec fn scrolled_start(lines: nat, target: Option<nat>, height: nat, scroll: int) -> int {
    let (start, shown, _) = window(lines, target, height);
    clamped(start + scroll, 1, lines - shown + 1)
}

/// Whether the line `n` is the target.
pub open spec fn is_target(lines: nat, target: Option<nat>, n: int) -> bool {
    match target {
        Some(t) => n == clamped(t as int, 1, lines as int),
        None => false,
    }
}

/// The line `n` of a note: its number, a marker where it is the target, and its text.
pub open spec fn note_line(text: Seq<Seq<char>>, target: Option<nat>, n: int, theme: Theme) -> LineView {
    let hit = is_target(text.len(), target, n);
    let style = if hit {
        emphasised(theme.context_target, theme)
    } else {
        unstyled()
    };
    let mark = if hit {
        "▶ "@
    } else {
        "  "@
    };
    seq![
        span(
            padded_left(digits(n as nat), digits(text.len()).len()) + " "@,
            coloured(theme.muted),
        ),
        span(mark, style),
        span(tabs_expanded(text[n - 1]), style),
    ]
}

/// The lines of a note that a pane of `height` rows shows.
pub open spec fn note_lines(
    text: Seq<Seq<char>>,
    target: Option<nat>,
    height: nat,
    scroll: int,
    theme: Theme,
) -> Seq<LineView> {
    let start = scrolled_start(text.len(), target, height, scroll);
    Seq::new(window(text.len(), target, height).1, |i: int| note_line(text, target, start + i, theme))
}

/// The lines of the pane: those of the note, or a word on why there are none.
pub open spec fn pane_lines(
    content: Option<Seq<char>>,
    target: Option<nat>,
    height: nat,
    scroll: int,
    theme: Theme,
) -> Seq<LineView> {
    match content {
        None => seq![seq![span(" Context not available for this note."@, marked(dimmed()))]],
        Some(c) => if text_lines(c).len() == 0 {
            seq![seq![span(" (empty note)"@, marked(dimmed()))]]
        } else {
            note_lines(text_lines(c), target, height, scroll, theme)
        },
    }
}

/// What the context pane in `area` shows.
pub open spec fn pane_in(
    area: Rect,
    note_path: Option<Seq<char>>,
    content: Option<Seq<char>>,
    target: Option<nat>,
    scroll: int,
    theme: Theme,
    prefs: LayoutPrefs,
) -> PaneView {
    PaneView {
        title: pane_title(note_path, theme),
        lines: pane_lines(content, target, within_border(area).height as nat, scroll, theme),
        wrap: prefs.context_wrap,
    }
}

/// The first line the pane shows once the scroll is applied.
fn start_after_scroll(centred: usize, scroll: i32, last: usize) -> (r: usize)
    requires
        1 <= last,
    ensures
        r == clamped(centred + scroll, 1, last as int),
{
    let to: i128 = centred as i128 + scroll as i128;
    if to < 1 {
        1
    } else if to > last as i128 {
        last
    } else {
        to as usize
    }
}

/// A line of one dimmed span.
fn dimmed_line(text: &str) -> (r: Vec<Vec<Span>>)
    ensures
        line_views(r@) == seq![seq![span(text@, marked(dimmed()))]],
{
    let mut line = no_spans();
    push_span(&mut line, text.to_owned(), Style::dim());
    let mut r = no_lines();
    push_line(&mut r, line);
    assert(line_view(line@) =~= seq![span(text@, marked(dimmed()))]);
    assert(line_views(r@) =~= seq![seq![span(text@, marked(dimmed()))]]);
    r
}

/// The line `n` of a note.
fn numbered_line(text: &Vec<String>, target: Option<usize>, n: usize, theme: &Theme) -> (r: Vec<Span>)
    requires
        1 <= n <= text@.len(),
    ensures
        line_view(r@) == note_line(views(text@), opt_nat(target), n as int, *theme),
{
    let count: usize = text.len();
    let hit = match target {
        Some(t) => {
            let line: usize = if t < 1 {
                1
            } else if t > count {
                count
            } else {
                t
            };
            n == line
        },
        None => false,
    };
    let style = if hit {
        Style::strong(theme.context_target, theme)
    } else {
        Style::new()
    };
    let mark = if hit {
        "▶ "
    } else {
        "  "
    };
    let width: usize = chars_of(decimal(count).as_str()).len();
    let mut number = pad_left(decimal(n).as_str(), width);
    number.append(" ");
    let mut line = no_spans();
    push_span(&mut line, number, Style::fg(theme.muted));
    push_span(&mut line, mark.to_owned(), style);
    push_span(&mut line, expand_tabs(text[n - 1].as_str()), style);
    assert(views(text@)[n - 1] == text@[n - 1]@);
    assert(line_view(line@) =~= note_line(views(text@), opt_nat(target), n as int, *theme));
    line
}

/// The lines of a note that a pane of `height` rows shows.
fn visible_lines(
    text: &Vec<String>,
    target: Option<usize>,
    height: usize,
    scroll: i32,
    theme: &Theme,
) -> (r: Vec<Vec<Span>>)
    requires
        text@.len() > 0,
    ensures
        line_views(r@) == note_lines(
            views(text@),
            opt_nat(target),
            height as nat,
            scroll as int,
            *theme,
        ),
{
    let ghost want = note_lines(
        views(text@),
        opt_nat(target),
        height as nat,
        scroll as int,
        *theme,
    );
    let count: usize = text.len();
    let (centred, shown, _) = context_view(count, target, height);
    let mut r = no_lines();
    if shown == 0 {
        assert(line_views(r@) =~= want);
        return r;
    }
    let start: usize = start_after_scroll(centred, scroll, count - shown + 1);
    let mut i: usize = 0;
    assert(want.take(0) =~= Seq::<LineView>::empty());
    while i < shown
        invariant
            i <= shown,
            1 <= start,
            start + shown <= count + 1,
            count == text@.len(),
            start == scrolled_start(
                count as nat,
                opt_nat(target),
                height as nat,
                scroll as int,
            ),
            shown == window(count as nat, opt_nat(target), height as nat).1,
            want == note_lines(
                views(text@),
                opt_nat(target),
                height as nat,
                scroll as int,
                *theme,
            ),
            line_views(r@) == want.take(i as int),
        decreases shown - i,
    {
        assert(views(text@).len() == count);
        push_line(&mut r, numbered_line(text, target, start + i, theme));
        assert(want.take(i + 1) =~= want.take(i as int).push(want[i as int]));
        i += 1;
    }
    assert(want.take(shown as int) =~= want);
    r
}

/// Lays out the context pane for `area`: the note's lines around `target_line`, shifted by `scroll`,
/// the target marked.
pub fn draw_context_pane(
    area: Rect,
    note_path: Option<&str>,
    content: Option<&NoteContent>,
    target_line: Option<usize>,
    scroll: i32,
    theme: &Theme,
    prefs: &LayoutPrefs,
) -> (r: Pane)
    ensures
        r@ == pane_in(
            area,
            match note_path {
                Some(n) => Some(n@),
                None => None,
            },
            match content {
                Some(c) => Some(c.content@),
                None => None,
            },
            opt_nat(target_line),
            scroll as int,
            *theme,
            *prefs,
        ),
{
    let name = match note_path {
        Some(n) => n,
        None => "(no note selected)",
    };
    let mut title = no_spans();
    push_raw(&mut title, " Context — ");
    push_span(&mut title, name.to_owned(), Style::strong(theme.accent, theme));
    push_raw(&mut title, " ");
    assert(line_view(title@) =~= pane_title(
        match note_path {
            Some(n) => Some(n@),
            None => None,
        },
        *theme,
    ));
    let height: usize = inner(area).height as usize;
    let lines = match content {
        None => dimmed_line(" Context not available for this note."),
        Some(c) => {
            let text = lines_of(c.content.as_str());
            assert(views(text@).len() == text@.len());
            if text.len() == 0 {
                dimmed_line(" (empty note)")
            } else {
                visible_lines(&text, target_line, height, scroll, theme)
            }
        },
    };
    Pane { title, lines, wrap: prefs.context_wrap }
}

// ---------------------------------------------------------------------------
// Laws.
// ---------------------------------------------------------------------------

/// The part of a note that is shown lies within the note, fills the pane as far as there are lines,
/// and holds the target, at the place that is told.
pub proof fn window_fits(lines: nat, target: Option<nat>, height: nat)
    requires
        lines > 0,
        height > 0,
    ensures
        ({
            let (start, shown, place) = window(lines, target, height);
            &&& 1 <= start
            &&& start + shown <= lines + 1
            &&& shown == lines || shown == height
            &&& shown <= lines && shown <= height
            &&& match target {
                Some(t) => place matches Some(p) && p < shown && start + p == clamped(
                    t as int,
                    1,
                    lines as int,
                ),
                None => place is None && start == 1,
            }
        }),
{
}

/// However far it is scrolled, the pane stays within the note; unscrolled it shows the target.
pub proof fn scrolling_stays_in_the_note(lines: nat, target: Option<nat>, height: nat, scroll: int)
    requires
        lines > 0,
    ensures
        ({
            let start = scrolled_start(lines, target, height, scroll);
            let shown = window(lines, target, height).1;
            &&& 1 <= start
            &&& start + shown <= lines + 1
            &&& height > 0 && scroll == 0 ==> start == window(lines, target, height).0
        }),
{
}

/// At most one line shown is the target.
pub proof fn one_target(lines: nat, target: Option<nat>, m: int, n: int)
    requires
        is_target(lines, target, m),
        is_target(lines, target, n),
    ensures
        m == n,
{
}

/// Nothing is left of the tabs, and every tab ends at a tab stop.
pub proof fn no_tab_is_left(s: Seq<char>)
    ensures
        !tabs_expanded(s).contains('\t'),
        tabs_expanded(s.push('\t')).len() % 4 == 0,
        tabs_expanded(s.push('\t')).len() > tabs_expanded(s).len(),
    decreases s.len(),
{
    let r = tabs_expanded(s);
    assert(s.push('\t').drop_last() =~= s);
    if s.len() > 0 {
        no_tab_is_left(s.drop_last());
        let before = tabs_expanded(s.drop_last());
        if r.contains('\t') {
            let i = choose|i: int| 0 <= i < r.len() && r[i] == '\t';
            if i < before.len() {
                assert(before[i] == '\t');
            }
        }
    }
}

/// A text without tabs stays as it is.
pub proof fn text_without_tabs_stays(s: Seq<char>)
    requires
        !s.contains('\t'),
    ensures
        tabs_expanded(s) == s,
    decreases s.len(),
{
    if s.len() > 0 {
        let front = s.drop_last();
        assert(s[s.len() - 1] != '\t');
        if front.contains('\t') {
            let i = choose|i: int| 0 <= i < front.len() && front[i] == '\t';
            assert(s[i] == '\t');
        }
        text_without_tabs_stays(front);
        assert(s =~= front.push(s.last()));
    } else {
        assert(tabs_expanded(s) =~= s);
    }
}

}
