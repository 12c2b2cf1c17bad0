//! What the screen shows.

use vstd::prelude::*;
use vstd::string::*;
use crate::app::App;
use crate::context::{Pane, PaneView, draw_context_pane, pane_in};
use crate::grouping::{StatusFilter, axis_label, filter_label, is_open_like};
use crate::help::{help_lines, help_popup};
use crate::layout::{Constraint, Direction, Rect, amount, fill_then_fixed, hundredths, less, lesser,
    percentages, popup_area, popup_in, room, split, three_cells, total};
use crate::listing::{DisplayRow, RowView, count_open, opt_nat, row_views};
use crate::model::{AppView, cursor_row, cursor_task};
use crate::rows::{ItemView, ListItem, count_headers, item_index, item_views, items_of, list_items,
    row_is_at_its_item, row_item};
use crate::spans::{LineView, Span, SpanView, Style, blinking, coloured, dimmed, emphasised,
    line_view, line_views, marked, no_spans, push_raw, push_span, raw_span, reversed, span,
    unstyled};
use crate::task::{Task, TaskView, task_views};
use crate::text::{decimal, digits};
use crate::theme::{Color, Theme};

verus! {

/// The width below which the context pane is left out.
pub const MIN_SPLIT_WIDTH: u16 = 60;

// ---------------------------------------------------------------------------
// The title bar.
// ---------------------------------------------------------------------------

/// A word in the title bar, where it is called for.
pub open spec fn indicator(on: bool, text: Seq<char>, style: Style) -> LineView {
    if on {
        seq![raw_span("  ·  "@), span(text, style)]
    } else {
        seq![]
    }
}

/// The title bar: the filter and the axis, what else narrows the list, and the counts.
pub open spec fn title_line(a: AppView) -> LineView {
    let t = a.theme;
    seq![
        raw_span(" Taski — "@),
        span("filter: "@ + filter_label(a.filter), emphasised(t.accent, t)),
        raw_span("  ·  "@),
        span("group: "@ + axis_label(a.group_by), emphasised(t.group_accent, t)),
    ] + indicator(a.today_only, "today"@, emphasised(t.accent_bright, t)) + indicator(
        a.search_query.len() > 0,
        "search: "@ + a.search_query,
        emphasised(t.success, t),
    ) + indicator(a.file_query.len() > 0, "file: "@ + a.file_query, emphasised(t.success, t))
        + indicator(a.overdue_only, "overdue"@, emphasised(t.danger_bright, t)) + seq![
        raw_span(
            "   "@ + digits(count_open(a.tasks)) + " open of "@ + digits(a.tasks.len())
                + " total   ·   "@ + digits(count_headers(a.rows)) + " notes "@,
        ),
    ]
}

/// What an empty list says.
pub open spec fn empty_message(a: AppView) -> Seq<char> {
    if a.tasks.len() == 0 {
        "No tasks — run `cargo run -p taski-daemon` first to populate the index."@
    } else if a.search_query.len() > 0 || a.file_query.len() > 0 {
        "No tasks match the current search."@
    } else if a.today_only {
        "No tasks scheduled or due today. Press `T` to leave the Today view."@
    } else if a.overdue_only {
        "No overdue tasks — nothing past its due date. Press `O` to leave the overdue view."@
    } else {
        match a.filter {
            StatusFilter::Open => "No open tasks. Press `f` to change the filter."@,
            StatusFilter::Done => "No done tasks. Press `f` to change the filter."@,
            StatusFilter::All => "No tasks match."@,
        }
    }
}

fn header_count(rows: &Vec<DisplayRow>) -> (r: usize)
    ensures
        r == count_headers(row_views(rows@)),
{
    let ghost rv = row_views(rows@);
    let mut n: usize = 0;
    let mut i: usize = 0;
    assert(rv.take(0) =~= Seq::<RowView>::empty());
    while i < rows.len()
        invariant
            rv == row_views(rows@),
            i <= rows@.len(),
            n <= i,
            n == count_headers(rv.take(i as int)),
        decreases rows@.len() - i,
    {
        assert(rv.take(i + 1).drop_last() =~= rv.take(i as int));
        assert(rv[i as int] == rows@[i as int]@);
        if matches!(rows[i], DisplayRow::Header { .. }) {
            n += 1;
        }
        i += 1;
    }
    assert(rv.take(i as int) =~= rv);
    n
}

fn open_count(tasks: &Vec<Task>) -> (r: usize)
    ensures
        r == count_open(task_views(tasks@)),
{
    let ghost ts = task_views(tasks@);
    let mut n: usize = 0;
    let mut i: usize = 0;
    assert(ts.take(0) =~= Seq::<TaskView>::empty());
    while i < tasks.len()
        invariant
            ts == task_views(tasks@),
            i <= tasks@.len(),
            n <= i,
            n == count_open(ts.take(i as int)),
        decreases tasks@.len() - i,
    {
        assert(ts.take(i + 1).drop_last() =~= ts.take(i as int));
        assert(ts[i as int] == tasks@[i as int]@);
        if is_open_like(&tasks[i].status) {
            n += 1;
        }
        i += 1;
    }
    assert(ts.take(i as int) =~= ts);
    n
}

fn push_indicator(line: &mut Vec<Span>, on: bool, label: &str, text: &str, style: Style)
    ensures
        line_view(final(line)@) == line_view(old(line)@) + indicator(on, label@ + text@, style),
{
    if on {
        let mut words = label.to_owned();
        words.append(text);
        push_raw(line, "  ·  ");
        push_span(line, words, style);
    }
    assert(line_view(line@) =~= line_view(old(line)@) + indicator(on, label@ + text@, style));
}

/// The counts at the end of the title bar.
fn counts_of(app: &App) -> (r: String)
    ensures
        r@ == "   "@ + digits(count_open(app@.tasks)) + " open of "@ + digits(app@.tasks.len())
            + " total   ·   "@ + digits(count_headers(app@.rows)) + " notes "@,
{
    let mut r = "   ".to_owned();
    r.append(decimal(open_count(&app.tasks)).as_str());
    r.append(" open of ");
    r.append(decimal(app.tasks.len()).as_str());
    r.append(" total   ·   ");
    r.append(decimal(header_count(&app.rows)).as_str());
    r.append(" notes ");
    r
}

/// The title bar.
fn title_of(app: &App) -> (r: Vec<Span>)
    ensures
        line_view(r@) == title_line(app@),
{
    let t = &app.theme;
    let mut line = no_spans();
    push_raw(&mut line, " Taski — ");
    let mut filter = "filter: ".to_owned();
    filter.append(app.filter.label());
    push_span(&mut line, filter, Style::strong(t.accent, t));
    push_raw(&mut line, "  ·  ");
    let mut group = "group: ".to_owned();
    group.append(app.group_by.label());
    push_span(&mut line, group, Style::strong(t.group_accent, t));
    let ghost g0 = line_view(line@);
    push_indicator(&mut line, app.today_only, "today", "", Style::strong(t.accent_bright, t));
    push_indicator(
        &mut line,
        !app.search_query.as_str().is_empty(),
        "search: ",
        app.search_query.as_str(),
        Style::strong(t.success, t),
    );
    push_indicator(
        &mut line,
        !app.file_query.as_str().is_empty(),
        "file: ",
        app.file_query.as_str(),
        Style::strong(t.success, t),
    );
    push_indicator(&mut line, app.overdue_only, "overdue", "", Style::strong(t.danger_bright, t));
    proof {
        reveal_strlit("");
        assert("today"@ + ""@ =~= "today"@);
        assert("overdue"@ + ""@ =~= "overdue"@);
    }
    push_raw(&mut line, counts_of(app).as_str());
    assert(line_view(line@) =~= title_line(app@));
    line
}

/// What an empty list says.
fn message_of(app: &App) -> (r: &'static str)
    ensures
        r@ == empty_message(app@),
{
    if app.tasks.len() == 0 {
        "No tasks — run `cargo run -p taski-daemon` first to populate the index."
    } else if !app.search_query.as_str().is_empty() || !app.file_query.as_str().is_empty() {
        "No tasks match the current search."
    } else if app.today_only {
        "No tasks scheduled or due today. Press `T` to leave the Today view."
    } else if app.overdue_only {
        "No overdue tasks — nothing past its due date. Press `O` to leave the overdue view."
    } else {
        match app.filter {
            StatusFilter::Open => "No open tasks. Press `f` to change the filter.",
            StatusFilter::Done => "No done tasks. Press `f` to change the filter.",
            StatusFilter::All => "No tasks match.",
        }
    }
}

// ---------------------------------------------------------------------------
// The notice and the footer.
// ---------------------------------------------------------------------------

/// The notice above the footer.
pub open spec fn notice_line(text: Seq<char>, theme: Theme) -> LineView {
    seq![span(" ⚠  "@, emphasised(theme.danger, theme)), span(text, coloured(theme.danger))]
}

fn notice_of(text: &str, theme: &Theme) -> (r: Vec<Span>)
    ensures
        line_view(r@) == notice_line(text@, *theme),
{
    let mut line = no_spans();
    push_span(&mut line, " ⚠  ".to_owned(), Style::strong(theme.danger, theme));
    push_span(&mut line, text.to_owned(), Style::fg(theme.danger));
    assert(line_view(line@) =~= notice_line(text@, *theme));
    line
}

/// Whether a prompt whose decoration takes `taken` columns has room for its cursor. Its text is
/// counted in bytes.
pub open spec fn has_cursor(query: Seq<char>, width: u16, taken: int) -> bool {
    vstd::utf8::encode_utf8(query).len() < less(width as int, taken)
}

/// The cursor of a prompt.
pub open spec fn prompt_cursor(query: Seq<char>, width: u16, taken: int) -> SpanView {
    span(
        if has_cursor(query, width, taken) {
            "█"@
        } else {
            ""@
        },
        marked(blinking()),
    )
}

/// A key in the footer.
pub open spec fn keycap(key: Seq<char>, theme: Theme) -> SpanView {
    span(key, coloured(theme.warning))
}

/// What the footer shows: the prompt or the mode that takes the keys, else the common keys.
pub open spec fn footer_line(a: AppView, width: u16) -> LineView {
    let t = a.theme;
    if a.searching {
        seq![
            raw_span(" /"@),
            span(a.search_query, coloured(t.success)),
            prompt_cursor(a.search_query, width, 4),
        ]
    } else if a.file_searching {
        seq![
            raw_span(" File: /"@),
            span(a.file_query, coloured(t.success)),
            prompt_cursor(a.file_query, width, 8),
        ]
    } else if a.quick_adding {
        seq![
            span(" + to "@ + a.inbox_path + "  "@, coloured(t.accent)),
            span(a.quick_add_query, coloured(t.success)),
            prompt_cursor(a.quick_add_query, width, 12),
        ]
    } else if a.moving {
        seq![
            span(" MOVE  "@, Style { fg: Some(t.accent), modifier: reversed() }),
            raw_span("  "@),
            keycap("j/k"@, t),
            raw_span(" move  ·  "@),
            keycap("Enter"@, t),
            raw_span(" place  ·  "@),
            keycap("Esc"@, t),
            raw_span(" cancel "@),
        ]
    } else if a.adding_note {
        seq![
            span(" note  "@, coloured(t.accent)),
            span(a.note_query, coloured(t.success)),
            prompt_cursor(a.note_query, width, 12),
        ]
    } else {
        seq![
            raw_span(" "@),
            keycap("j/k"@, t),
            raw_span(" move  ·  "@),
            keycap("Space"@, t),
            raw_span(" toggle  ·  "@),
            keycap("Enter"@, t),
            raw_span(" fold  ·  "@),
            keycap("f"@, t),
            raw_span(" filter  ·  "@),
            keycap("/"@, t),
            raw_span(" search  ·  "@),
            keycap("?"@, t),
            raw_span(" help  ·  "@),
            keycap("q"@, t),
            raw_span(" quit "@),
        ]
    }
}

/// The style of the footer: the common keys are dimmed.
pub open spec fn footer_style(a: AppView) -> Style {
    if a.searching || a.file_searching || a.quick_adding || a.moving || a.adding_note {
        unstyled()
    } else {
        marked(dimmed())
    }
}

fn push_cursor(line: &mut Vec<Span>, query: &str, width: u16, taken: u16)
    ensures
        line_view(final(line)@) == line_view(old(line)@).push(
            prompt_cursor(query@, width, taken as int),
        ),
{
    let length: usize = query.as_bytes().len();
    let room: usize = if width < taken {
        0
    } else {
        (width - taken) as usize
    };
    let text = if length < room {
        "█"
    } else {
        ""
    };
    push_span(line, text.to_owned(), Style::blink());
}

fn push_key(line: &mut Vec<Span>, key: &str, text: &str, theme: &Theme)
    ensures
        line_view(final(line)@) == line_view(old(line)@).push(keycap(key@, *theme)).push(
            raw_span(text@),
        ),
{
    push_span(line, key.to_owned(), Style::fg(theme.warning));
    push_raw(line, text);
}

fn move_footer(theme: &Theme) -> (r: Vec<Span>)
    ensures
        forall|a: AppView, width: u16|
            !a.searching && !a.file_searching && !a.quick_adding && a.moving && a.theme == *theme
                ==> line_view(r@) == #[trigger] footer_line(a, width),
{
    let mut line = no_spans();
    let mut style = Style::reverse();
    style.fg = Some(theme.accent);
    push_span(&mut line, " MOVE  ".to_owned(), style);
    push_raw(&mut line, "  ");
    push_key(&mut line, "j/k", " move  ·  ", theme);
    push_key(&mut line, "Enter", " place  ·  ", theme);
    push_key(&mut line, "Esc", " cancel ", theme);
    line
}

fn key_footer(theme: &Theme) -> (r: Vec<Span>)
    ensures
        forall|a: AppView, width: u16|
            !a.searching && !a.file_searching && !a.quick_adding && !a.moving && !a.adding_note
                && a.theme == *theme ==> line_view(r@) == #[trigger] footer_line(a, width),
{
    let mut line = no_spans();
    push_raw(&mut line, " ");
    push_key(&mut line, "j/k", " move  ·  ", theme);
    push_key(&mut line, "Space", " toggle  ·  ", theme);
    push_key(&mut line, "Enter", " fold  ·  ", theme);
    push_key(&mut line, "f", " filter  ·  ", theme);
    push_key(&mut line, "/", " search  ·  ", theme);
    push_key(&mut line, "?", " help  ·  ", theme);
    push_key(&mut line, "q", " quit ", theme);
    line
}

/// What the footer shows.
fn footer_of(app: &App, width: u16) -> (r: Vec<Span>)
    ensures
        line_view(r@) == footer_line(app@, width),
{
    let t = &app.theme;
    let mut line = no_spans();
    if app.searching {
        push_raw(&mut line, " /");
        push_span(&mut line, app.search_query.clone(), Style::fg(t.success));
        push_cursor(&mut line, app.search_query.as_str(), width, 4);
        line
    } else if app.file_searching {
        push_raw(&mut line, " File: /");
        push_span(&mut line, app.file_query.clone(), Style::fg(t.success));
        push_cursor(&mut line, app.file_query.as_str(), width, 8);
        line
    } else if app.quick_adding {
        let mut label = " + to ".to_owned();
        label.append(app.inbox_path.as_str());
        label.append("  ");
        push_span(&mut line, label, Style::fg(t.accent));
        push_span(&mut line, app.quick_add_query.clone(), Style::fg(t.success));
        push_cursor(&mut line, app.quick_add_query.as_str(), width, 12);
        line
    } else if app.moving {
        move_footer(t)
    } else if app.adding_note {
        push_span(&mut line, " note  ".to_owned(), Style::fg(t.accent));
        push_span(&mut line, app.note_query.clone(), Style::fg(t.success));
        push_cursor(&mut line, app.note_query.as_str(), width, 12);
        line
    } else {
        key_footer(t)
    }
}

// ---------------------------------------------------------------------------
// The regions of the screen.
// ---------------------------------------------------------------------------

/// Where the parts of the screen go.
#[derive(Clone, Copy, PartialEq, Eq, Debug, Structural)]
pub struct Regions {
    pub area: Rect,
    pub list: Rect,
    /// The context pane, where it is shown.
    pub context: Option<Rect>,
    /// The notice, where there is one.
    pub notice: Option<Rect>,
    pub footer: Rect,
    /// The help overlay, where it is shown.
    pub popup: Option<Rect>,
}

/// Whether the context pane is shown: it is switched on and the screen is wide enough.
pub open spec fn shows_pane(a: AppView, width: u16) -> bool {
    a.pane_visible && width >= MIN_SPLIT_WIDTH
}

/// How many rows the notice and the footer take.
pub open spec fn rows_below(a: AppView) -> int {
    if a.notice is Some {
        2
    } else {
        1
    }
}

/// The width of the list: what the context pane leaves of it, where the pane is shown.
pub open spec fn list_width(a: AppView, area: Rect) -> int {
    if shows_pane(a, area.width) {
        hundredths(room(Direction::Horizontal, area) * (100 - a.layout.list_pane_percent))
    } else {
        area.width as int
    }
}

/// The height of the list: what the notice and the footer leave of it, but a row while there is one.
pub open spec fn list_height(a: AppView, area: Rect) -> int {
    let height = room(Direction::Vertical, area);
    if height > rows_below(a) {
        height - rows_below(a)
    } else {
        lesser(height, 1)
    }
}

/// The height of the notice: a row, where the list leaves one.
pub open spec fn notice_height(a: AppView, area: Rect) -> int {
    if a.notice is Some {
        lesser(room(Direction::Vertical, area) - list_height(a, area), 1)
    } else {
        0
    }
}

/// Where the parts of the screen go: the list, beside it the context pane, below both the notice, and
/// the footer in the last row.
pub open spec fn regions_of(a: AppView, area: Rect) -> Regions {
    let width = list_width(a, area) as u16;
    let height = list_height(a, area) as u16;
    let above = height + notice_height(a, area);
    Regions {
        area,
        list: Rect { width, height, ..area },
        context: if shows_pane(a, area.width) {
            Some(
                Rect {
                    x: (area.x + width) as u16,
                    width: (room(Direction::Horizontal, area) - width) as u16,
                    height,
                    ..area
                },
            )
        } else {
            None
        },
        notice: if a.notice is Some {
            Some(
                Rect {
                    y: (area.y + height) as u16,
                    height: notice_height(a, area) as u16,
                    ..area
                },
            )
        } else {
            None
        },
        footer: Rect {
            y: (area.y + above) as u16,
            height: (room(Direction::Vertical, area) - above) as u16,
            ..area
        },
        popup: if a.show_help {
            Some(popup_in(area, 70, 95))
        } else {
            None
        },
    }
}

/// The list and what stands below it.
fn rows_of(with_notice: bool) -> (r: Vec<Constraint>)
    ensures
        fill_then_fixed(r@),
        r@.len() == total(r@),
        total(r@.skip(1)) == (if with_notice {
            2nat
        } else {
            1nat
        }),
        amount(r@[0]) == 1,
        with_notice ==> r@.len() == 3 && total(r@.skip(2)) == 1 && total(r@.skip(3)) == 0
            && amount(r@[1]) == 1 && amount(r@[2]) == 1 && three_cells(r@),
        !with_notice ==> r@.len() == 2 && total(r@.skip(2)) == 0 && amount(r@[1]) == 1,
{
    let mut r: Vec<Constraint> = vec![Constraint::Min(1), Constraint::Length(1)];
    if with_notice {
        r.push(Constraint::Length(1));
    }
    proof {
        reveal_with_fuel(total, 4);
        assert(r@.skip(r@.len() as int) =~= Seq::<Constraint>::empty());
        assert(r@.drop_first() =~= r@.skip(1));
        assert(r@.skip(1).drop_first() =~= r@.skip(2));
        if with_notice {
            assert(r@.skip(2).drop_first() =~= r@.skip(3));
            assert(r@ =~= seq![Constraint::Min(1), Constraint::Length(1), Constraint::Length(1)]);
        }
    }
    r
}

/// The list, and beside it the context pane of `percent` hundredths.
fn columns_of(percent: u16) -> (r: Vec<Constraint>)
    requires
        percent <= 100,
    ensures
        r@.len() == 2,
        percentages(r@),
        total(r@.take(0)) == 0,
        total(r@.take(1)) == 100 - percent,
        total(r@.take(2)) == 100,
{
    let rest: u16 = 100 - percent;
    let r: Vec<Constraint> = vec![Constraint::Percentage(rest), Constraint::Percentage(percent)];
    proof {
        reveal_with_fuel(total, 3);
        assert(r@.take(2) =~= r@);
        assert(r@.take(1).drop_first() =~= Seq::<Constraint>::empty());
        assert(r@.drop_first().drop_first() =~= Seq::<Constraint>::empty());
    }
    r
}

/// Decides where the parts of the screen go.
pub fn lay_out(app: &App, area: Rect) -> (g: Regions)
    requires
        shows_pane(app@, area.width) ==> app.layout.list_pane_percent <= 100,
    ensures
        g == regions_of(app@, area),
{
    let with_notice = app.notice.is_some();
    let below = rows_of(with_notice);
    let chunks = split(Direction::Vertical, &below, area);
    let whole = chunks[0];
    let footer = chunks[chunks.len() - 1];
    let notice = if with_notice {
        Some(chunks[1])
    } else {
        None
    };
    let (list, context) = if app.pane_visible && whole.width >= MIN_SPLIT_WIDTH {
        let beside = columns_of(app.layout.list_pane_percent);
        let cols = split(Direction::Horizontal, &beside, whole);
        (cols[0], Some(cols[1]))
    } else {
        (whole, None)
    };
    let popup = if app.show_help {
        Some(popup_area(area, 70, 95))
    } else {
        None
    };
    Regions { area, list, context, notice, footer, popup }
}

// ---------------------------------------------------------------------------
// The screen.
// ---------------------------------------------------------------------------

/// What the list shows.
#[derive(Debug)]
pub enum Body {
    /// A word on why there are no rows.
    Message(String),
    /// The rows, and the one that is highlighted.
    Items { items: Vec<ListItem>, selected: Option<usize>, highlight: Style },
}

/// What a [`Body`] is.
#[verifier::ext_equal]
pub enum BodyView {
    Message(Seq<char>),
    Items { items: Seq<ItemView>, selected: Option<nat>, highlight: Style },
}

impl View for Body {
    type V = BodyView;

    open spec fn view(&self) -> BodyView {
        match self {
            Body::Message(m) => BodyView::Message(m@),
            Body::Items { items, selected, highlight } => BodyView::Items {
                items: item_views(items@),
                selected: opt_nat(*selected),
                highlight: *highlight,
            },
        }
    }
}

/// What floats on top of the screen. What stands beneath it is cleared.
#[derive(Debug)]
pub struct Overlay {
    pub area: Rect,
    /// The colour the cleared area is filled with, where it is not the terminal's own.
    pub fill: Option<Color>,
    pub title: String,
    pub lines: Vec<Vec<Span>>,
}

/// What an [`Overlay`] is.
#[verifier::ext_equal]
pub struct OverlayView {
    pub area: Rect,
    pub fill: Option<Color>,
    pub title: Seq<char>,
    pub lines: Seq<LineView>,
}

impl View for Overlay {
    type V = OverlayView;

    open spec fn view(&self) -> OverlayView {
        OverlayView {
            area: self.area,
            fill: self.fill,
            title: self.title@,
            lines: line_views(self.lines@),
        }
    }
}

/// What the screen shows, from the bottom layer to the top one.
#[derive(Debug)]
pub struct Screen {
    /// The colour the whole area is filled with, where it is not the terminal's own.
    pub background: Option<Color>,
    pub area: Rect,
    pub list_area: Rect,
    pub title: Vec<Span>,
    pub body: Body,
    pub notice: Option<(Rect, Vec<Span>)>,
    pub context: Option<(Rect, Pane)>,
    pub footer_area: Rect,
    pub footer: Vec<Span>,
    pub footer_style: Style,
    pub help: Option<Overlay>,
}

/// What a [`Screen`] is.
#[verifier::ext_equal]
pub struct ScreenView {
    pub background: Option<Color>,
    pub area: Rect,
    pub list_area: Rect,
    pub title: LineView,
    pub body: BodyView,
    pub notice: Option<(Rect, LineView)>,
    pub context: Option<(Rect, PaneView)>,
    pub footer_area: Rect,
    pub footer: LineView,
    pub footer_style: Style,
    pub help: Option<OverlayView>,
}

impl View for Screen {
    type V = ScreenView;

    open spec fn view(&self) -> ScreenView {
        ScreenView {
            background: self.background,
            area: self.area,
            list_area: self.list_area,
            title: line_view(self.title@),
            body: self.body@,
            notice: match self.notice {
                Some((area, line)) => Some((area, line_view(line@))),
                None => None,
            },
            context: match self.context {
                Some((area, pane)) => Some((area, pane@)),
                None => None,
            },
            footer_area: self.footer_area,
            footer: line_view(self.footer@),
            footer_style: self.footer_style,
            help: match self.help {
                Some(overlay) => Some(overlay@),
                None => None,
            },
        }
    }
}

/// The line of the task under the cursor.
pub open spec fn target_line(a: AppView) -> Option<nat> {
    match cursor_task(a) {
        Some(t) => Some(t.line_number as nat),
        None => None,
    }
}

/// What the list shows. The highlight is on the item of the row under the cursor.
pub open spec fn body_of(a: AppView) -> BodyView {
    if a.rows.len() == 0 {
        BodyView::Message(empty_message(a))
    } else {
        BodyView::Items {
            items: list_items(
                a.rows,
                a.today,
                a.theme,
                a.group_by,
                a.layout.list_density as nat,
            ),
            selected: match cursor_row(a) {
                Some(_) => Some(
                    item_index(a.rows, a.layout.list_density as nat, a.row->0 as int),
                ),
                None => None,
            },
            highlight: marked(reversed()),
        }
    }
}

/// The colour a background is filled with; the terminal's own is not painted.
pub open spec fn painted(color: Color) -> Option<Color> {
    if color == Color::Reset {
        None
    } else {
        Some(color)
    }
}

/// The help overlay.
pub open spec fn help_overlay(a: AppView, area: Rect) -> OverlayView {
    OverlayView {
        area,
        fill: painted(a.theme.background),
        title: " Keybindings "@,
        lines: help_lines(a.theme),
    }
}

/// What the screen shows where its parts go to `g`.
pub open spec fn composed(a: AppView, g: Regions) -> ScreenView {
    ScreenView {
        background: painted(a.theme.background),
        area: g.area,
        list_area: g.list,
        title: title_line(a),
        body: body_of(a),
        notice: match (g.notice, a.notice) {
            (Some(area), Some(text)) => Some((area, notice_line(text, a.theme))),
            _ => None,
        },
        context: match g.context {
            Some(area) => Some(
                (
                    area,
                    pane_in(
                        area,
                        a.ctx_note_path,
                        a.ctx_content,
                        target_line(a),
                        a.ctx_scroll,
                        a.theme,
                        a.layout,
                    ),
                ),
            ),
            None => None,
        },
        footer_area: g.footer,
        footer: footer_line(a, g.footer.width),
        footer_style: footer_style(a),
        help: match g.popup {
            Some(area) => if a.show_help {
                Some(help_overlay(a, area))
            } else {
                None
            },
            None => None,
        },
    }
}

fn list_body(app: &App) -> (r: Body)
    ensures
        r@ == body_of(app@),
{
    if app.rows.len() == 0 {
        Body::Message(message_of(app).to_owned())
    } else {
        let (items, selected) = items_of(
            &app.rows,
            app.today.as_str(),
            &app.theme,
            app.group_by,
            app.layout.list_density,
            app.state.selected(),
        );
        Body::Items { items, selected, highlight: Style::reverse() }
    }
}

fn context_of(app: &App, area: Rect) -> (r: Pane)
    ensures
        r@ == pane_in(
            area,
            app@.ctx_note_path,
            app@.ctx_content,
            target_line(app@),
            app@.ctx_scroll,
            app@.theme,
            app@.layout,
        ),
{
    let note = match &app.ctx_note_path {
        Some(n) => Some(n.as_str()),
        None => None,
    };
    let target: Option<usize> = match app.selected_task() {
        Some(t) => Some(t.line_number),
        None => None,
    };
    draw_context_pane(
        area,
        note,
        app.ctx_content.as_ref(),
        target,
        app.ctx_scroll,
        &app.theme,
        &app.layout,
    )
}

/// What the screen shows where its parts go to `g`.
pub fn compose(app: &App, g: &Regions) -> (r: Screen)
    ensures
        r@ == composed(app@, *g),
{
    let background = if app.theme.background == Color::Reset {
        None
    } else {
        Some(app.theme.background)
    };
    let notice = match (g.notice, &app.notice) {
        (Some(area), Some(text)) => Some((area, notice_of(text.as_str(), &app.theme))),
        _ => None,
    };
    let context = match g.context {
        Some(area) => Some((area, context_of(app, area))),
        None => None,
    };
    let footer_style = if app.searching || app.file_searching || app.quick_adding || app.moving
        || app.adding_note {
        Style::new()
    } else {
        Style::dim()
    };
    let help = match g.popup {
        Some(area) => if app.show_help {
            Some(
                Overlay {
                    area,
                    fill: background,
                    title: " Keybindings ".to_owned(),
                    lines: help_popup(&app.theme),
                },
            )
        } else {
            None
        },
        None => None,
    };
    Screen {
        background,
        area: g.area,
        list_area: g.list,
        title: title_of(app),
        body: list_body(app),
        notice,
        context,
        footer_area: g.footer,
        footer: footer_of(app, g.footer.width),
        footer_style,
        help,
    }
}

/// What the screen shows: the list under its title bar, the context pane beside it, a notice where
/// there is one, the footer, and on top of all the help overlay.
pub fn draw(app: &App, area: Rect) -> (r: Screen)
    requires
        shows_pane(app@, area.width) ==> app.layout.list_pane_percent <= 100,
    ensures
        r@ == composed(app@, regions_of(app@, area)),
{
    let g = lay_out(app, area);
    compose(app, &g)
}

// ---------------------------------------------------------------------------
// Laws.
// ---------------------------------------------------------------------------

/// The parts of the screen fill it and do not overlap: the list and the pane share its width, and the
/// list, the notice and the footer its height. As long as there is a row for each of them, the notice
/// and the footer have one and the list the rest.
pub proof fn regions_tile(a: AppView, area: Rect)
    requires
        a.layout.list_pane_percent <= 100,
    ensures
        ({
            let g = regions_of(a, area);
            let noticed = match g.notice {
                Some(n) => n.height as int,
                None => 0,
            };
            &&& g.list.x == area.x && g.list.y == area.y
            &&& g.list.height + noticed + g.footer.height == room(Direction::Vertical, area)
            &&& g.footer.y == g.list.y + g.list.height + noticed
            &&& g.notice matches Some(n) ==> n.y == g.list.y + g.list.height
            &&& room(Direction::Vertical, area) > rows_below(a) ==> g.list.height > 0
                && g.footer.height == 1 && noticed == rows_below(a) - 1
            &&& match g.context {
                Some(c) => c.x == g.list.x + g.list.width && g.list.width + c.width == room(
                    Direction::Horizontal,
                    area,
                ),
                None => g.list.width == area.width,
            }
        }),
{
    let width = room(Direction::Horizontal, area);
    let share = 100 - a.layout.list_pane_percent;
    assert(0 <= width * share <= width * 100) by (nonlinear_arith)
        requires
            0 <= width,
            0 <= share <= 100,
    ;
}

/// The context pane has the share of the width that is configured, to the nearest cell.
pub proof fn pane_has_its_share(a: AppView, area: Rect)
    requires
        a.layout.list_pane_percent <= 100,
        shows_pane(a, area.width),
    ensures
        ({
            let width = room(Direction::Horizontal, area);
            let share = width * a.layout.list_pane_percent;
            regions_of(a, area).context matches Some(c) && {
                &&& c.x + c.width == area.x + width
                &&& 100 * c.width <= share + 50
                &&& share <= 100 * c.width + 50
            }
        }),
{
    regions_tile(a, area);
    let width = room(Direction::Horizontal, area);
    let p = a.layout.list_pane_percent as int;
    assert(width * (100 - p) == width * 100 - width * p) by (nonlinear_arith);
}

/// The pane is left out of a narrow screen, and wherever it is switched off.
pub proof fn pane_needs_room(a: AppView, area: Rect)
    requires
        area.width < MIN_SPLIT_WIDTH || !a.pane_visible,
    ensures
        composed(a, regions_of(a, area)).context is None,
        composed(a, regions_of(a, area)).list_area.width == area.width,
{
}

/// The overlay, the pane, the notice and the background are drawn exactly where they are called for.
pub proof fn layers_are_called_for(a: AppView, area: Rect)
    ensures
        ({
            let screen = composed(a, regions_of(a, area));
            &&& screen.help is Some <==> a.show_help
            &&& screen.notice is Some <==> a.notice is Some
            &&& screen.context is Some <==> shows_pane(a, area.width)
            &&& screen.background is None <==> a.theme.background == Color::Reset
        }),
{
}

/// What is highlighted is the row under the cursor, the one every key acts on, however far the groups
/// are set apart; nothing else is.
pub proof fn highlight_is_the_cursor(a: AppView)
    requires
        a.rows.len() > 0,
    ensures
        body_of(a) matches BodyView::Items { items, selected, .. } && match cursor_row(a) {
            Some(row) => selected matches Some(n) && n < items.len() && items[n as int] == row_item(
                row,
                a.today,
                a.theme,
                a.group_by,
            ),
            None => selected is None,
        },
{
    if cursor_row(a) is Some {
        row_is_at_its_item(
            a.rows,
            a.today,
            a.theme,
            a.group_by,
            a.layout.list_density as nat,
            a.row->0 as int,
        );
    }
}

}
