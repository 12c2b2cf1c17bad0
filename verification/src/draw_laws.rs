//! What stands on the screen.

use vstd::prelude::*;
use crate::context::{note_lines, scrolled_start, tabs_expanded, window};
use crate::gesture_laws::{off_tasks, on_task};
use crate::grouping::{GroupBy, StatusFilter};
use crate::layout::{Direction, Rect, popup_begin, popup_extent, popup_is_inside, room};
use crate::list_laws::open_tasks_are_counted;
use crate::listing::RowView;
use crate::model::AppView;
use crate::paths::{dir_len, dir_len_is_last_slash};
use crate::rows::{blank_items, count_headers, header_name, item_index, items_begin_alike,
    list_items, row_is_at_its_item, row_item};
use crate::screen::{BodyView, composed, footer_line, pane_has_its_share, regions_of, regions_tile,
    title_line};
use crate::spans::{LineView, SpanView, Style};
use crate::task::{StatusView, TaskView};
use crate::text::{digits, padded_left, text_lines};
use crate::theme::{Color, Modifier, Theme};

verus! {

/// A modifier that is bold or nothing.
pub open spec fn weight(bold: bool) -> Modifier {
    Modifier { bold, dim: false, reversed: false, crossed_out: false, slow_blink: false }
}

/// Text without a style.
pub open spec fn bare(text: Seq<char>) -> SpanView {
    SpanView { text, style: Style { fg: None, modifier: weight(false) } }
}

/// Text in a colour.
pub open spec fn inked(text: Seq<char>, color: Color) -> SpanView {
    SpanView { text, style: Style { fg: Some(color), modifier: weight(false) } }
}

/// Text in a colour, bold where the theme is.
pub open spec fn strong(text: Seq<char>, color: Color, theme: Theme) -> SpanView {
    SpanView { text, style: Style { fg: Some(color), modifier: weight(theme.bold) } }
}

// ---------------------------------------------------------------------------
// The context pane.
// ---------------------------------------------------------------------------

/// Whether a line of the pane is marked.
pub open spec fn is_marked(line: LineView) -> bool {
    line.len() == 3 && line[1].text == "▶ "@
}

/// The line `n` of a note in the pane: its number, the mark or two blanks, and its text.
pub open spec fn drawn_line(text: Seq<Seq<char>>, n: int, mark: bool, theme: Theme) -> LineView {
    let number = padded_left(digits(n as nat), digits(text.len()).len()) + " "@;
    let line = tabs_expanded(text[n - 1]);
    if mark {
        seq![
            inked(number, theme.muted),
            strong("▶ "@, theme.context_target, theme),
            strong(line, theme.context_target, theme),
        ]
    } else {
        seq![inked(number, theme.muted), bare("  "@), bare(line)]
    }
}

proof fn marks_are_marks(text: Seq<Seq<char>>, n: int, theme: Theme)
    ensures
        is_marked(drawn_line(text, n, true, theme)),
        !is_marked(drawn_line(text, n, false, theme)),
{
    reveal_strlit("▶ ");
    reveal_strlit("  ");
    assert("▶ "@[0] == '▶');
    assert("  "@[0] == ' ');
}

/// How many lines of a note the pane has room for.
pub open spec fn shown_lines(lines: nat, area: Rect) -> int {
    if area.height < 2 {
        0
    } else if area.height - 2 < lines {
        area.height - 2
    } else {
        lines as int
    }
}

/// The line of a note that a line number stands for: itself, or the nearest line the note has.
pub open spec fn nearest_line(n: int, lines: nat) -> int {
    if n < 1 {
        1
    } else if n > lines {
        lines as int
    } else {
        n
    }
}

/// Where a task is under the cursor, the pane holds consecutive lines of its note; the line of the task
/// is marked where it is among them, and no other line is.
pub proof fn pane_marks_the_task_alone(a: AppView, area: Rect, t: TaskView, r: Rect, content: Seq<char>)
    requires
        on_task(a, t),
        a.ctx_content == Some(content),
        text_lines(content).len() > 0,
        regions_of(a, area).context == Some(r),
        r.height > 2,
    ensures
        ({
            let text = text_lines(content);
            let n = nearest_line(t.line_number as int, text.len());
            let screen = composed(a, regions_of(a, area));
            let lines = (screen.context->0).1.lines;
            let first = scrolled_start(
                text.len(),
                Some(t.line_number as nat),
                (r.height - 2) as nat,
                a.ctx_scroll,
            );
            &&& screen.context is Some
            &&& (screen.context->0).0 == r
            &&& lines.len() == shown_lines(text.len(), r)
            &&& 1 <= first <= text.len() + 1 - lines.len()
            &&& forall|k: int|
                0 <= k < lines.len() ==> #[trigger] lines[k] == drawn_line(
                    text,
                    first + k,
                    first + k == n,
                    a.theme,
                )
        }),
{
    let text = text_lines(content);
    let n = nearest_line(t.line_number as int, text.len());
    let lines = (composed(a, regions_of(a, area)).context->0).1.lines;
    let h = (r.height - 2) as nat;
    let first = scrolled_start(text.len(), Some(t.line_number as nat), h, a.ctx_scroll);
    assert(lines == note_lines(text, Some(t.line_number as nat), h, a.ctx_scroll, a.theme));
    assert forall|k: int| 0 <= k < lines.len() implies #[trigger] lines[k] == drawn_line(
        text,
        first + k,
        first + k == n,
        a.theme,
    ) by {
        assert(lines[k] =~= drawn_line(text, first + k, first + k == n, a.theme));
    }
}

/// Where a task is under the cursor and the note is not scrolled, the pane holds the line of the task,
/// marked; every other line of the pane is a line of the note, not marked; and the lines follow one
/// another as in the note.
pub proof fn pane_marks_the_task(a: AppView, area: Rect, t: TaskView, r: Rect, content: Seq<char>)
    requires
        on_task(a, t),
        a.ctx_content == Some(content),
        text_lines(content).len() > 0,
        a.ctx_scroll == 0,
        regions_of(a, area).context == Some(r),
        r.height > 2,
    ensures
        ({
            let text = text_lines(content);
            let n = nearest_line(t.line_number as int, text.len());
            let lines = (composed(a, regions_of(a, area)).context->0).1.lines;
            &&& lines.len() == shown_lines(text.len(), r)
            &&& exists|j: int| #[trigger]
                marked_at(lines, text, n, j, a.theme)
        }),
{
    pane_marks_the_task_alone(a, area, t, r, content);
    let text = text_lines(content);
    let n = nearest_line(t.line_number as int, text.len());
    let lines = (composed(a, regions_of(a, area)).context->0).1.lines;
    let h = (r.height - 2) as nat;
    let first = scrolled_start(text.len(), Some(t.line_number as nat), h, 0);
    let j = n - first;
    assert(0 <= j < lines.len());
    assert forall|k: int| 0 <= k < lines.len() implies #[trigger] lines[k] == drawn_line(
        text,
        n + k - j,
        k == j,
        a.theme,
    ) by {
        assert(n + k - j == first + k);
    }
    assert forall|k: int| 0 <= k < lines.len() implies (is_marked(#[trigger] lines[k]) <==> k
        == j) by {
        marks_are_marks(text, n + k - j, a.theme);
    }
    assert(marked_at(lines, text, n, j, a.theme));
}

/// Whether `lines` are consecutive lines of a note, line `n` standing at `j`, it alone marked.
pub open spec fn marked_at(
    lines: Seq<LineView>,
    text: Seq<Seq<char>>,
    n: int,
    j: int,
    theme: Theme,
) -> bool {
    &&& 0 <= j < lines.len()
    &&& 1 <= n - j
    &&& n - j + lines.len() <= text.len() + 1
    &&& forall|k: int|
        0 <= k < lines.len() ==> #[trigger] lines[k] == drawn_line(text, n + k - j, k == j, theme)
    &&& forall|k: int| 0 <= k < lines.len() ==> (is_marked(#[trigger] lines[k]) <==> k == j)
}

/// The line of the task stands in the middle of the pane, as far as the note has lines on both sides;
/// near its ends the pane begins with the first line, or ends with the last.
pub proof fn pane_centres_the_task(lines: nat, n: nat, height: nat)
    requires
        1 <= n <= lines,
        0 < height,
    ensures
        ({
            let shown = if height < lines {
                height as int
            } else {
                lines as int
            };
            let first = scrolled_start(lines, Some(n), height, 0);
            &&& window(lines, Some(n), height).1 == shown
            &&& n <= shown / 2 ==> first == 1
            &&& n > shown / 2 && n - shown / 2 + shown - 1 <= lines ==> first == n - shown / 2
            &&& n - shown / 2 + shown - 1 > lines ==> first == lines - shown + 1
        }),
{
}

/// A scroll moves the first line of the pane by as many lines, and no further than the note goes.
pub proof fn pane_scrolls_by_lines(lines: nat, target: Option<nat>, height: nat, scroll: int)
    requires
        0 < lines,
        0 < height,
    ensures
        ({
            let shown = if height < lines {
                height as int
            } else {
                lines as int
            };
            let still = scrolled_start(lines, target, height, 0);
            let first = scrolled_start(lines, target, height, scroll);
            &&& 1 <= still <= lines - shown + 1
            &&& 1 <= still + scroll <= lines - shown + 1 ==> first == still + scroll
            &&& still + scroll < 1 ==> first == 1
            &&& still + scroll > lines - shown + 1 ==> first == lines - shown + 1
        }),
{
}

/// Off a task, nothing in the pane is marked, and it begins with the first line.
pub proof fn pane_marks_nothing_else(a: AppView, area: Rect, r: Rect, content: Seq<char>)
    requires
        off_tasks(a),
        a.ctx_content == Some(content),
        text_lines(content).len() > 0,
        a.ctx_scroll == 0,
        regions_of(a, area).context == Some(r),
    ensures
        ({
            let text = text_lines(content);
            let lines = (composed(a, regions_of(a, area)).context->0).1.lines;
            &&& lines.len() == shown_lines(text.len(), r)
            &&& forall|k: int|
                0 <= k < lines.len() ==> #[trigger] lines[k] == drawn_line(text, k + 1, false, a.theme)
        }),
{
    let text = text_lines(content);
    let lines = (composed(a, regions_of(a, area)).context->0).1.lines;
    assert forall|k: int| 0 <= k < lines.len() implies #[trigger] lines[k] == drawn_line(
        text,
        k + 1,
        false,
        a.theme,
    ) by {
        assert(lines[k] =~= drawn_line(text, k + 1, false, a.theme));
    }
}

/// Without a text the pane says so, and so it does of an empty one; its title names the note, and it
/// wraps where it is told to.
pub proof fn pane_says_what_is_missing(a: AppView, area: Rect, r: Rect)
    requires
        regions_of(a, area).context == Some(r),
    ensures
        ({
            let pane = (composed(a, regions_of(a, area)).context->0).1;
            &&& pane.wrap == a.layout.context_wrap
            &&& pane.title.len() == 3
            &&& pane.title[1].text == (match a.ctx_note_path {
                Some(note) => note,
                None => "(no note selected)"@,
            })
            &&& a.ctx_content is None ==> pane.lines.len() == 1 && pane.lines[0].len() == 1
                && pane.lines[0][0].text == " Context not available for this note."@
            &&& a.ctx_content matches Some(c) ==> text_lines(c).len() == 0 ==> pane.lines.len() == 1
                && pane.lines[0].len() == 1 && pane.lines[0][0].text == " (empty note)"@
        }),
{
}

/// The pane is drawn exactly where it is switched on and the screen has sixty columns.
pub proof fn pane_needs_sixty_columns(a: AppView, area: Rect)
    ensures
        composed(a, regions_of(a, area)).context is Some <==> a.pane_visible && area.width >= 60,
{
}

/// The part of a note that a pane shows: from where on, how many lines, and at which place the line asked
/// for stands.
pub proof fn windows_hold_their_line(lines: nat, target: Option<nat>, height: nat)
    ensures
        lines == 0 || height == 0 ==> window(lines, target, height) == (1nat, 0nat, None::<nat>),
        lines > 0 && height > 0 ==> {
            let (start, shown, place) = window(lines, target, height);
            &&& shown == (if height < lines {
                height
            } else {
                lines
            })
            &&& target is None ==> start == 1 && place is None
            &&& target matches Some(t) ==> place is Some && place->0 < shown && start + place->0
                == nearest_line(t as int, lines)
            &&& 1 <= start <= lines - shown + 1
        },
{
}

// ---------------------------------------------------------------------------
// Regions.
// ---------------------------------------------------------------------------

/// The footer has the last line of the screen and the notice the one above it, where there is one; the
/// list has what is left, and where nothing would be left it has the first line before they have any.
pub proof fn regions_share_the_height(a: AppView, area: Rect)
    requires
        area.y + area.height <= 65535,
    ensures
        ({
            let g = regions_of(a, area);
            let h = area.height as int;
            let below: int = if a.notice is Some {
                2
            } else {
                1
            };
            let noticed: int = match g.notice {
                Some(n) => n.height as int,
                None => 0,
            };
            &&& g.notice is Some <==> a.notice is Some
            &&& h > below ==> g.list.height == h - below && g.footer.height == 1 && noticed == below - 1
            &&& h == below ==> g.list.height == 1 && noticed == below - 1 && g.footer.height == 0
            &&& h < below ==> g.list.height == h && noticed == 0 && g.footer.height == 0
            &&& g.list.y == area.y
            &&& g.notice matches Some(n) ==> n.y == area.y + g.list.height && n.x == area.x && n.width
                == area.width
            &&& g.footer.y == area.y + g.list.height + noticed
            &&& g.footer.x == area.x && g.footer.width == area.width
            &&& g.context matches Some(c) ==> c.y == area.y && c.height == g.list.height
        }),
{
}

/// The list and the context pane stand side by side and fill the width; the pane has its percentage of
/// it, to the nearest column. Without the pane the list has the whole width.
pub proof fn regions_share_the_width(a: AppView, area: Rect)
    requires
        area.x + area.width <= 65535,
        a.layout.list_pane_percent <= 100,
    ensures
        ({
            let g = regions_of(a, area);
            let w = area.width as int;
            &&& g.list.x == area.x
            &&& g.context is Some <==> a.pane_visible && w >= 60
            &&& g.context is None ==> g.list.width == w
            &&& g.context matches Some(c) ==> {
                &&& c.x == area.x + g.list.width
                &&& g.list.width + c.width == w
                &&& -50 <= 100 * c.width - w * a.layout.list_pane_percent <= 50
            }
            &&& g.popup is Some <==> a.show_help
        }),
{
    if a.pane_visible && area.width >= 60 {
        pane_has_its_share(a, area);
        regions_tile(a, area);
    }
}

// ---------------------------------------------------------------------------
// Rows.
// ---------------------------------------------------------------------------

/// A task is drawn as its box and its text, set in by four columns and its indent; the box has the
/// colour of its status; the due date and the scheduled one follow, the latter stronger where it is
/// today; a done task alone is struck through.
pub proof fn tasks_are_drawn(t: TaskView, today: Seq<char>, theme: Theme, axis: GroupBy)
    ensures
        ({
            let item = row_item(RowView::Task { task: t }, today, theme, axis);
            let due: LineView = match t.due_date {
                Some(d) => seq![bare("  "@), inked("· "@ + d, theme.warning)],
                None => seq![],
            };
            let scheduled: LineView = match t.scheduled_date {
                Some(d) => seq![
                    bare("  "@),
                    if d == today {
                        strong("⏳ "@ + d, theme.accent_bright, theme)
                    } else {
                        inked("⏳ "@ + d, theme.scheduled)
                    },
                ],
                None => seq![],
            };
            let color = match t.status {
                StatusView::Open => theme.warning,
                StatusView::Done => theme.success,
                StatusView::InProgress => theme.accent,
                StatusView::Other(_) => theme.muted,
            };
            let margin = item.line[0].text;
            &&& item.line.len() == 3 + due.len() + scheduled.len()
            &&& margin.len() == 4 + t.indent
            &&& forall|k: int| 0 <= k < margin.len() ==> #[trigger] margin[k] == ' '
            &&& item.line[0] == bare(margin)
            &&& item.line[1] == inked("["@ + t.raw_checkbox_char + "]"@, color)
            &&& item.line[2] == bare(" "@ + t.text)
            &&& item.line.skip(3) == due + scheduled
            &&& item.style == (Style {
                fg: None,
                modifier: Modifier {
                    bold: false,
                    dim: t.status is Done,
                    reversed: false,
                    crossed_out: t.status is Done,
                    slow_blink: false,
                },
            })
        }),
{
    let item = row_item(RowView::Task { task: t }, today, theme, axis);
    let due: LineView = match t.due_date {
        Some(d) => seq![bare("  "@), inked("· "@ + d, theme.warning)],
        None => seq![],
    };
    let scheduled: LineView = match t.scheduled_date {
        Some(d) => seq![
            bare("  "@),
            if d == today {
                strong("⏳ "@ + d, theme.accent_bright, theme)
            } else {
                inked("⏳ "@ + d, theme.scheduled)
            },
        ],
        None => seq![],
    };
    assert(item.line.skip(3) =~= due + scheduled);
}

/// A header is drawn with a mark that shows whether it is folded, its name and its counts. Under the
/// folder axis for notes, what leads to the name of the note stands apart in its own colour.
pub proof fn headers_are_drawn(
    key: Seq<char>,
    open: nat,
    total: nat,
    collapsed: bool,
    today: Seq<char>,
    theme: Theme,
    axis: GroupBy,
)
    ensures
        ({
            let item = row_item(
                RowView::Header {
                    group_key: key,
                    open_count: open,
                    total_count: total,
                    collapsed,
                },
                today,
                theme,
                axis,
            );
            let parted = axis == GroupBy::FolderNote && key.contains('/');
            let n: int = if parted {
                5
            } else {
                4
            };
            let name = SpanView {
                text: item.line[n - 3].text,
                style: Style { fg: None, modifier: weight(theme.bold) },
            };
            &&& item.line.len() == n
            &&& item.line[0] == strong(
                if collapsed {
                    "▸ "@
                } else {
                    "▾ "@
                },
                theme.accent,
                theme,
            )
            &&& item.line[n - 3] == name
            &&& !parted ==> name.text == key
            &&& parted ==> {
                &&& item.line[1] == inked(item.line[1].text, theme.path_prefix)
                &&& item.line[1].text + name.text == key
                &&& item.line[1].text.last() == '/'
                &&& !name.text.contains('/')
            }
            &&& item.line[n - 2] == bare("   "@)
            &&& item.line[n - 1] == inked(
                digits(open) + " open · "@ + digits(total) + " total"@,
                theme.muted,
            )
            &&& item.style == (Style { fg: None, modifier: weight(false) })
        }),
{
    dir_len_is_last_slash(key);
    let d = dir_len(key) as int;
    let tail = key.skip(d);
    if d > 0 {
        assert(key[d - 1] == '/');
        assert(key.contains('/'));
        assert(key.take(d) + tail =~= key);
        assert(key.take(d).last() == '/');
    } else if key.contains('/') {
        let k = choose|k: int| 0 <= k < key.len() && key[k] == '/';
        assert(false);
    }
    if tail.contains('/') {
        let k = choose|k: int| 0 <= k < tail.len() && tail[k] == '/';
        assert(key[d + k] == '/');
    }
    let name = header_name(key, theme, axis);
    assert(name.len() == (if axis == GroupBy::FolderNote && key.contains('/') {
        2int
    } else {
        1int
    }));
}

/// The items of the list are its rows in their order, a blank space before every header but a first
/// row: the first row is the first item, and every next row stands one item on, or after the space.
pub proof fn items_are_the_rows(
    rows: Seq<RowView>,
    today: Seq<char>,
    theme: Theme,
    axis: GroupBy,
    gap: nat,
    i: int,
)
    requires
        0 <= i < rows.len(),
    ensures
        item_index(rows, gap, 0) == 0,
        list_items(rows, today, theme, axis, gap)[item_index(rows, gap, i) as int] == row_item(
            rows[i],
            today,
            theme,
            axis,
        ),
        i + 1 < rows.len() ==> item_index(rows, gap, i + 1) == item_index(rows, gap, i) + 1 + (
        if rows[i + 1] is Header {
            gap as int
        } else {
            0
        }),
        i + 1 == rows.len() ==> list_items(rows, today, theme, axis, gap).len() == item_index(
            rows,
            gap,
            i,
        ) + 1,
{
    row_is_at_its_item(rows, today, theme, axis, gap, i);
    assert(rows.subrange(1, 1) =~= Seq::<RowView>::empty());
    assert(gap * 0 == 0) by (nonlinear_arith);
    let here = rows.subrange(1, i + 1);
    let n = count_headers(here);
    assert(gap * n >= 0) by (nonlinear_arith);
    if i + 1 < rows.len() {
        let next = rows.subrange(1, i + 2);
        assert(next.drop_last() =~= here);
        assert(next.last() == rows[i + 1]);
        assert(gap * (n + 1) == gap * n + gap) by (nonlinear_arith);
    } else {
        assert(rows.take(i + 1) =~= rows);
    }
}

/// What stands between two rows of the list is blank.
pub proof fn items_between_rows_are_blank(
    rows: Seq<RowView>,
    today: Seq<char>,
    theme: Theme,
    axis: GroupBy,
    gap: nat,
    i: int,
    k: int,
)
    requires
        0 <= i,
        i + 1 < rows.len(),
        item_index(rows, gap, i) < k < item_index(rows, gap, i + 1),
    ensures
        ({
            let item = list_items(rows, today, theme, axis, gap)[k];
            item.line.len() == 0 && item.style == (Style { fg: None, modifier: weight(false) })
        }),
{
    items_are_the_rows(rows, today, theme, axis, gap, i);
    row_is_at_its_item(rows, today, theme, axis, gap, i);
    row_is_at_its_item(rows, today, theme, axis, gap, i + 1);
    let upto = rows.take(i + 2);
    assert(upto.drop_last() =~= rows.take(i + 1));
    assert(upto.last() == rows[i + 1]);
    let before = list_items(rows.take(i + 1), today, theme, axis, gap);
    let part = list_items(upto, today, theme, axis, gap);
    assert(part == (before + blank_items(gap)).push(row_item(rows[i + 1], today, theme, axis)));
    assert(part[k] == blank_items(gap)[k - before.len()]);
    items_begin_alike(rows, today, theme, axis, gap, i + 2);
}

/// The list shows every row, and highlights the one under the cursor by inverting it; with no rows it
/// shows a message.
pub proof fn bodies_hold_the_rows(a: AppView, area: Rect)
    ensures
        ({
            let body = composed(a, regions_of(a, area)).body;
            &&& a.rows.len() == 0 ==> body is Message
            &&& a.rows.len() > 0 ==> {
                &&& body is Items
                &&& body->items == list_items(
                    a.rows,
                    a.today,
                    a.theme,
                    a.group_by,
                    a.layout.list_density as nat,
                )
                &&& body->highlight == (Style {
                    fg: None,
                    modifier: Modifier {
                        bold: false,
                        dim: false,
                        reversed: true,
                        crossed_out: false,
                        slow_blink: false,
                    },
                })
                &&& a.row matches Some(i) ==> i < a.rows.len() ==> body->selected == Some(
                    item_index(a.rows, a.layout.list_density as nat, i as int),
                )
                &&& a.row is None ==> body->selected is None
            }
        }),
{
}

/// An empty list says why it is empty: nothing is indexed, a search matches nothing, nothing is for
/// today, nothing is overdue, or nothing has the status that is asked for.
pub proof fn empty_lists_say_why(a: AppView, area: Rect)
    requires
        a.rows.len() == 0,
    ensures
        composed(a, regions_of(a, area)).body == BodyView::Message(
            if a.tasks.len() == 0 {
                "No tasks — run `cargo run -p taski-daemon` first to populate the index."@
            } else if a.search_query.len() > 0 || a.file_query.len() > 0 {
                "No tasks match the current search."@
            } else if a.today_only {
                "No tasks scheduled or due today. Press `T` to leave the Today view."@
            } else if a.overdue_only {
                "No overdue tasks — nothing past its due date. Press `O` to leave the overdue view."@
            } else if a.filter == StatusFilter::Open {
                "No open tasks. Press `f` to change the filter."@
            } else if a.filter == StatusFilter::Done {
                "No done tasks. Press `f` to change the filter."@
            } else {
                "No tasks match."@
            },
        ),
{
}

// ---------------------------------------------------------------------------
// The title and the footer.
// ---------------------------------------------------------------------------

proof fn headers_are_counted(rows: Seq<RowView>)
    ensures
        count_headers(rows) == rows.filter(|r: RowView| r is Header).len(),
    decreases rows.len(),
{
    reveal(Seq::filter);
    if rows.len() > 0 {
        headers_are_counted(rows.drop_last());
    }
}

/// The title begins with the status filter and the axis, and ends with how many tasks of the index are
/// open, how many there are and how many groups are listed, whatever is filtered.
pub proof fn titles_count_the_index(a: AppView)
    ensures
        ({
            let title = title_line(a);
            let open = a.tasks.filter(|t: TaskView| t.status is Open || t.status is InProgress).len();
            let groups = a.rows.filter(|r: RowView| r is Header).len();
            &&& title.len() >= 5
            &&& title[0] == bare(" Taski — "@)
            &&& title[1] == strong(
                "filter: "@ + (match a.filter {
                    StatusFilter::All => "all"@,
                    StatusFilter::Open => "open"@,
                    StatusFilter::Done => "done"@,
                }),
                a.theme.accent,
                a.theme,
            )
            &&& title[2] == bare("  ·  "@)
            &&& title[3] == strong(
                "group: "@ + (match a.group_by {
                    GroupBy::FolderNote => "folder+note"@,
                    GroupBy::Note => "note"@,
                    GroupBy::Tag => "tag"@,
                    GroupBy::Priority => "priority"@,
                    GroupBy::Folder => "folder"@,
                }),
                a.theme.group_accent,
                a.theme,
            )
            &&& title.last() == bare(
                "   "@ + digits(open) + " open of "@ + digits(a.tasks.len()) + " total   ·   "@
                    + digits(groups) + " notes "@,
            )
        }),
{
    open_tasks_are_counted(a.tasks);
    headers_are_counted(a.rows);
}

/// Between them the title names what narrows the list: the Today view, the searches and the overdue
/// view, each exactly where it is on.
pub proof fn titles_name_the_filters(a: AppView)
    ensures
        ({
            let title = title_line(a);
            let t = a.theme;
            let today: LineView = if a.today_only {
                seq![bare("  ·  "@), strong("today"@, t.accent_bright, t)]
            } else {
                seq![]
            };
            let search: LineView = if a.search_query.len() > 0 {
                seq![bare("  ·  "@), strong("search: "@ + a.search_query, t.success, t)]
            } else {
                seq![]
            };
            let file: LineView = if a.file_query.len() > 0 {
                seq![bare("  ·  "@), strong("file: "@ + a.file_query, t.success, t)]
            } else {
                seq![]
            };
            let overdue: LineView = if a.overdue_only {
                seq![bare("  ·  "@), strong("overdue"@, t.danger_bright, t)]
            } else {
                seq![]
            };
            title.subrange(4, title.len() - 1) == today + search + file + overdue
        }),
{
    let title = title_line(a);
    let t = a.theme;
    let today: LineView = if a.today_only {
        seq![bare("  ·  "@), strong("today"@, t.accent_bright, t)]
    } else {
        seq![]
    };
    let search: LineView = if a.search_query.len() > 0 {
        seq![bare("  ·  "@), strong("search: "@ + a.search_query, t.success, t)]
    } else {
        seq![]
    };
    let file: LineView = if a.file_query.len() > 0 {
        seq![bare("  ·  "@), strong("file: "@ + a.file_query, t.success, t)]
    } else {
        seq![]
    };
    let overdue: LineView = if a.overdue_only {
        seq![bare("  ·  "@), strong("overdue"@, t.danger_bright, t)]
    } else {
        seq![]
    };
    assert(title.subrange(4, title.len() - 1) =~= today + search + file + overdue);
}

/// The block behind what is typed at a prompt, where the text leaves room for it.
pub open spec fn block(query: Seq<char>, width: u16, taken: int) -> SpanView {
    SpanView {
        text: if vstd::utf8::encode_utf8(query).len() + taken < width {
            "█"@
        } else {
            ""@
        },
        style: Style {
            fg: None,
            modifier: Modifier {
                bold: false,
                dim: false,
                reversed: false,
                crossed_out: false,
                slow_blink: true,
            },
        },
    }
}

/// The footer shows the prompt that takes the keys with what is typed at it, and else the keys.
pub proof fn footers_show_the_prompt(a: AppView, width: u16)
    ensures
        a.searching ==> footer_line(a, width) == seq![
            bare(" /"@),
            inked(a.search_query, a.theme.success),
            block(a.search_query, width, 4),
        ],
        !a.searching && a.file_searching ==> footer_line(a, width) == seq![
            bare(" File: /"@),
            inked(a.file_query, a.theme.success),
            block(a.file_query, width, 8),
        ],
        !a.searching && !a.file_searching && a.quick_adding ==> footer_line(a, width) == seq![
            inked(" + to "@ + a.inbox_path + "  "@, a.theme.accent),
            inked(a.quick_add_query, a.theme.success),
            block(a.quick_add_query, width, 12),
        ],
        !a.searching && !a.file_searching && !a.quick_adding && !a.moving && a.adding_note
            ==> footer_line(a, width) == seq![
            inked(" note  "@, a.theme.accent),
            inked(a.note_query, a.theme.success),
            block(a.note_query, width, 12),
        ],
{
}

/// Without a prompt the footer names the keys: those of move mode in move mode, else the most common.
pub proof fn footers_name_the_keys(a: AppView, width: u16)
    requires
        !a.searching && !a.file_searching && !a.quick_adding && !a.adding_note,
    ensures
        ({
            let f = footer_line(a, width);
            let key = |k: int, name: Seq<char>, does: Seq<char>|
                f[k] == inked(name, a.theme.warning) && f[k + 1] == bare(does);
            if a.moving {
                &&& f.len() == 8
                &&& f[0].text == " MOVE  "@
                &&& f[0].style.fg == Some(a.theme.accent)
                &&& f[0].style.modifier.reversed
                &&& f[1] == bare("  "@)
                &&& key(2, "j/k"@, " move  ·  "@)
                &&& key(4, "Enter"@, " place  ·  "@)
                &&& key(6, "Esc"@, " cancel "@)
            } else {
                &&& f.len() == 15
                &&& f[0] == bare(" "@)
                &&& key(1, "j/k"@, " move  ·  "@)
                &&& key(3, "Space"@, " toggle  ·  "@)
                &&& key(5, "Enter"@, " fold  ·  "@)
                &&& key(7, "f"@, " filter  ·  "@)
                &&& key(9, "/"@, " search  ·  "@)
                &&& key(11, "?"@, " help  ·  "@)
                &&& key(13, "q"@, " quit "@)
            }
        }),
{
}

/// The screen has the title, the footer and the notice of the state, the footer dim unless a mode other
/// than the list takes the keys, and is painted in the background of the theme, unless that is the
/// terminal's own.
pub proof fn screens_are_composed(a: AppView, area: Rect)
    ensures
        ({
            let screen = composed(a, regions_of(a, area));
            let g = regions_of(a, area);
            let busy = a.searching || a.file_searching || a.quick_adding || a.moving || a.adding_note;
            &&& screen.title == title_line(a)
            &&& screen.footer == footer_line(a, g.footer.width)
            &&& screen.footer_area == g.footer
            &&& screen.list_area == g.list
            &&& screen.area == area
            &&& screen.footer_style == (Style {
                fg: None,
                modifier: Modifier {
                    bold: false,
                    dim: !busy,
                    reversed: false,
                    crossed_out: false,
                    slow_blink: false,
                },
            })
            &&& screen.background == (if a.theme.background == Color::Reset {
                None
            } else {
                Some(a.theme.background)
            })
            &&& match a.notice {
                Some(text) => screen.notice matches Some((r, line)) && line == seq![
                    strong(" ⚠  "@, a.theme.danger, a.theme),
                    inked(text, a.theme.danger),
                ],
                None => screen.notice is None,
            }
        }),
{
}

/// The overlay has the name of its keys for a title, the background of the theme, and stands over the
/// middle of the screen: seventy hundredths of its width and ninety-five of its height, to the cell.
pub proof fn overlays_stand_in_the_middle(a: AppView, area: Rect)
    requires
        a.show_help,
    ensures
        ({
            let screen = composed(a, regions_of(a, area));
            let w = room(Direction::Horizontal, area);
            let h = room(Direction::Vertical, area);
            screen.help matches Some(o) && {
                &&& o.title == " Keybindings "@
                &&& o.fill == screen.background
                &&& -100 <= 100 * o.area.width - 70 * w <= 100
                &&& -100 <= 100 * o.area.height - 95 * h <= 100
                &&& -50 <= 100 * (o.area.x - area.x) - 15 * w <= 50
                &&& -50 <= 100 * (o.area.y - area.y) - 2 * h <= 50
            }
        }),
{
    let w = room(Direction::Horizontal, area);
    let h = room(Direction::Vertical, area);
    popup_is_inside(area, 70, 95);
    assert(popup_begin(w, 70) == (w * 15 + 50) / 100);
    assert(popup_begin(h, 95) == (h * 2 + 50) / 100);
    assert(popup_extent(w, 70) == (w * 85 + 50) / 100 - (w * 15 + 50) / 100);
    assert(popup_extent(h, 95) == (h * 97 + 50) / 100 - (h * 2 + 50) / 100);
}

}
