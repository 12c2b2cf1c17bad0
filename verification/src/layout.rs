//! Where the parts of the screen go.

use vstd::prelude::*;
use ratatui::layout as grid;

verus! {

/// A rectangle of terminal cells.
#[derive(Clone, Copy, PartialEq, Eq, Debug, Structural)]
pub struct Rect {
    pub x: u16,
    pub y: u16,
    pub width: u16,
    pub height: u16,
}

/// The size of a part along the axis an area is split on.
#[derive(Clone, Copy, PartialEq, Eq, Debug, Structural)]
pub enum Constraint {
    /// At least so many cells, and what the others leave.
    Min(u16),
    /// So many cells.
    Length(u16),
    /// So many hundredths of the area.
    Percentage(u16),
}

/// The axis an area is split on.
#[derive(Clone, Copy, PartialEq, Eq, Debug, Structural)]
pub enum Direction {
    Horizontal,
    Vertical,
}

/// The number of a constraint.
pub open spec fn amount(c: Constraint) -> nat {
    match c {
        Constraint::Min(n) => n as nat,
        Constraint::Length(n) => n as nat,
        Constraint::Percentage(n) => n as nat,
    }
}

/// The sum of the numbers of constraints.
pub open spec fn total(cs: Seq<Constraint>) -> nat
    decreases cs.len(),
{
    if cs.len() == 0 {
        0
    } else {
        amount(cs[0]) + total(cs.drop_first())
    }
}

/// Where a rectangle begins along an axis.
pub open spec fn begin(d: Direction, r: Rect) -> int {
    match d {
        Direction::Horizontal => r.x as int,
        Direction::Vertical => r.y as int,
    }
}

/// How far a rectangle reaches along an axis.
pub open spec fn extent(d: Direction, r: Rect) -> int {
    match d {
        Direction::Horizontal => r.width as int,
        Direction::Vertical => r.height as int,
    }
}

/// Whether `r` has the place and the size of `area` across the axis.
pub open spec fn spans_across(d: Direction, r: Rect, area: Rect) -> bool {
    match d {
        Direction::Horizontal => r.y == area.y && r.height == area.height,
        Direction::Vertical => r.x == area.x && r.width == area.width,
    }
}

/// The smaller of two numbers.
pub open spec fn lesser(a: int, b: int) -> int {
    if a < b {
        a
    } else {
        b
    }
}

/// How many cells of an area there are along an axis: it ends where the coordinates do.
pub open spec fn room(d: Direction, area: Rect) -> int {
    lesser(begin(d, area) + extent(d, area), u16::MAX as int) - begin(d, area)
}

/// Whether a part that takes what is left stands first, and parts of fixed length follow.
pub open spec fn fill_then_fixed(cs: Seq<Constraint>) -> bool {
    &&& cs.len() > 0
    &&& cs[0] is Min
    &&& forall|i: int| 1 <= i < cs.len() ==> (#[trigger] cs[i]) is Length
}

/// Whether all parts are percentages that the area can hold.
pub open spec fn percentages(cs: Seq<Constraint>) -> bool {
    &&& forall|i: int| 0 <= i < cs.len() ==> (#[trigger] cs[i]) is Percentage
    &&& total(cs) <= 100
}

/// `n` hundredths, to the nearest whole number, halves upwards.
pub open spec fn hundredths(n: int) -> int {
    (n + 50) / 100
}

/// Whether three parts of one cell each are asked for, of which the first takes what is left.
pub open spec fn three_cells(cs: Seq<Constraint>) -> bool {
    cs == seq![Constraint::Min(1), Constraint::Length(1), Constraint::Length(1)]
}

/// `ratatui::layout::Layout::split`, with the default flex, margin and spacing: one part per
/// constraint, each across the whole area; along the axis an area ends where the coordinates do.
///
/// Where the first part takes what is left and parts of fixed length follow, the parts adjoin and fill
/// the area. If there is room for all, every fixed part has its length. If there is room for no more
/// than the first part asks for, it has it all, since its least size is the strongest wish. If three
/// parts ask for a cell each and there are two, the fixed ones share the second cell equally and its
/// middle is rounded up, so the last part has none. Of other areas that are too small nothing is said:
/// the solver's wishes do not decide there between several answers.
///
/// Where all parts are percentages of at most a hundred together, the parts adjoin from the beginning
/// of the area, and each boundary is rounded to the nearest cell.
#[verifier::external_body]
pub(crate) fn split(direction: Direction, constraints: &Vec<Constraint>, area: Rect) -> (r: Vec<Rect>)
    ensures
        r@.len() == constraints@.len(),
        forall|i: int| 0 <= i < r@.len() ==> spans_across(direction, #[trigger] r@[i], area),
        fill_then_fixed(constraints@) && total(constraints@) <= room(direction, area)
            ==> forall|i: int|
            0 <= i < r@.len() ==> {
                let below = total(constraints@.skip(i + 1)) as int;
                let size = if i == 0 {
                    room(direction, area) - below
                } else {
                    amount(constraints@[i]) as int
                };
                &&& extent(direction, #[trigger] r@[i]) == size
                &&& begin(direction, r@[i]) == begin(direction, area) + room(direction, area)
                    - below - size
            },
        fill_then_fixed(constraints@) && room(direction, area) <= amount(constraints@[0])
            <= i16::MAX ==> forall|i: int|
            0 <= i < r@.len() ==> {
                let all = room(direction, area);
                &&& extent(direction, #[trigger] r@[i]) == (if i == 0 {
                    all
                } else {
                    0
                })
                &&& begin(direction, r@[i]) == begin(direction, area) + (if i == 0 {
                    0
                } else {
                    all
                })
            },
        three_cells(constraints@) && room(direction, area) == 2 ==> forall|i: int|
            0 <= i < r@.len() ==> {
                &&& extent(direction, #[trigger] r@[i]) == (if i < 2 {
                    1int
                } else {
                    0
                })
                &&& begin(direction, r@[i]) == begin(direction, area) + i
            },
        percentages(constraints@) ==> forall|i: int|
            0 <= i < r@.len() ==> {
                let from = hundredths(room(direction, area) * total(constraints@.take(i)));
                let to = hundredths(room(direction, area) * total(constraints@.take(i + 1)));
                &&& begin(direction, #[trigger] r@[i]) == begin(direction, area) + from
                &&& extent(direction, r@[i]) == to - from
            },
{
    let parts = constraints.iter().map(|c| match c {
        Constraint::Min(n) => grid::Constraint::Min(*n),
        Constraint::Length(n) => grid::Constraint::Length(*n),
        Constraint::Percentage(n) => grid::Constraint::Percentage(*n),
    });
    let axis = match direction {
        Direction::Horizontal => grid::Direction::Horizontal,
        Direction::Vertical => grid::Direction::Vertical,
    };
    let whole = grid::Rect { x: area.x, y: area.y, width: area.width, height: area.height };
    let split = grid::Layout::new(axis, parts).split(whole);
    split.iter().map(|p| Rect { x: p.x, y: p.y, width: p.width, height: p.height }).collect()
}

/// `a - b`, or zero where that is negative.
pub open spec fn less(a: int, b: int) -> int {
    if a < b {
        0
    } else {
        a - b
    }
}

/// What a border on all sides leaves of an area.
pub open spec fn within_border(area: Rect) -> Rect {
    let right = lesser(area.x + area.width, u16::MAX as int);
    let bottom = lesser(area.y + area.height, u16::MAX as int);
    Rect {
        x: lesser(lesser(area.x + 1, u16::MAX as int), right) as u16,
        y: lesser(lesser(area.y + 1, u16::MAX as int), bottom) as u16,
        width: less(area.width as int, 2) as u16,
        height: less(area.height as int, 2) as u16,
    }
}

/// `ratatui::widgets::Block::inner`, of a block with borders on all sides: one cell is taken off
/// every side, as far as there are cells.
#[verifier::external_body]
pub(crate) fn inner(area: Rect) -> (r: Rect)
    ensures
        r == within_border(area),
{
    let whole = grid::Rect { x: area.x, y: area.y, width: area.width, height: area.height };
    let block = ratatui::widgets::Block::default().borders(ratatui::widgets::Borders::ALL);
    let p = block.inner(whole);
    Rect { x: p.x, y: p.y, width: p.width, height: p.height }
}

/// The share of the margin on either side of a popup.
pub open spec fn margin(percent: u16) -> int {
    (100 - percent) / 2
}

/// Where a popup begins along an axis of `extent` cells.
pub open spec fn popup_begin(size: int, percent: u16) -> int {
    hundredths(size * margin(percent))
}

/// How far a popup reaches along an axis of `extent` cells.
pub open spec fn popup_extent(size: int, percent: u16) -> int {
    hundredths(size * (margin(percent) + percent)) - popup_begin(size, percent)
}

/// The popup in the middle of an area.
pub open spec fn popup_in(area: Rect, percent_x: u16, percent_y: u16) -> Rect {
    let width = room(Direction::Horizontal, area);
    let height = room(Direction::Vertical, area);
    Rect {
        x: (area.x + popup_begin(width, percent_x)) as u16,
        y: (area.y + popup_begin(height, percent_y)) as u16,
        width: popup_extent(width, percent_x) as u16,
        height: popup_extent(height, percent_y) as u16,
    }
}

/// The margin, the content and the margin of a popup along an axis.
fn centred(percent: u16) -> (r: Vec<Constraint>)
    requires
        percent <= 100,
    ensures
        r@.len() == 3,
        percentages(r@),
        total(r@.take(1)) == margin(percent),
        total(r@.take(2)) == margin(percent) + percent,
{
    let side: u16 = (100 - percent) / 2;
    let r: Vec<Constraint> = vec![
        Constraint::Percentage(side),
        Constraint::Percentage(percent),
        Constraint::Percentage(side),
    ];
    proof {
        reveal_with_fuel(total, 4);
        assert(r@.take(1).drop_first() =~= Seq::<Constraint>::empty());
        assert(r@.take(2).drop_first().drop_first() =~= Seq::<Constraint>::empty());
        assert(r@.drop_first().drop_first().drop_first() =~= Seq::<Constraint>::empty());
    }
    r
}

/// The middle of an area: `percent_x` and `percent_y` hundredths of its width and height.
pub fn popup_area(area: Rect, percent_x: u16, percent_y: u16) -> (r: Rect)
    requires
        percent_x <= 100,
        percent_y <= 100,
    ensures
        r == popup_in(area, percent_x, percent_y),
{
    let vertical = centred(percent_y);
    let rows = split(Direction::Vertical, &vertical, area);
    let middle = rows[1];
    let horizontal = centred(percent_x);
    let columns = split(Direction::Horizontal, &horizontal, middle);
    columns[1]
}

/// A popup lies within its area.
pub proof fn popup_is_inside(area: Rect, percent_x: u16, percent_y: u16)
    requires
        percent_x <= 100,
        percent_y <= 100,
    ensures
        ({
            let p = popup_in(area, percent_x, percent_y);
            &&& area.x <= p.x && p.x + p.width <= area.x + area.width
            &&& area.y <= p.y && p.y + p.height <= area.y + area.height
        }),
{
    popup_fits(room(Direction::Horizontal, area), percent_x);
    popup_fits(room(Direction::Vertical, area), percent_y);
}

/// A popup stands in the middle: the margins on either side of it differ by one cell at most, where its
/// share leaves an even number of hundredths, and else by one hundredth of the area more.
pub proof fn popup_is_centred(size: int, percent: u16)
    requires
        0 <= size <= u16::MAX,
        percent <= 100,
    ensures
        ({
            let before = popup_begin(size, percent);
            let after = size - before - popup_extent(size, percent);
            &&& before <= after + 1
            &&& after <= before + 1 + (if percent % 2 == 0 {
                0
            } else {
                size / 100
            })
        }),
{
    let m = margin(percent);
    let q = 100 - m - percent;
    assert(size * (m + percent) == 100 * size - size * q) by (nonlinear_arith)
        requires
            q == 100 - m - percent,
    ;
    assert(size * (m + 1) == size * m + size) by (nonlinear_arith);
}

proof fn popup_fits(size: int, percent: u16)
    requires
        0 <= size <= u16::MAX,
        percent <= 100,
    ensures
        0 <= popup_begin(size, percent),
        0 <= popup_extent(size, percent),
        popup_begin(size, percent) + popup_extent(size, percent) <= size,
{
    let m = margin(percent);
    assert(0 <= size * m) by (nonlinear_arith)
        requires
            0 <= size,
            0 <= m,
    ;
    assert(size * m <= size * (m + percent)) by (nonlinear_arith)
        requires
            0 <= size,
            0 <= percent,
    ;
    assert(size * (m + percent) <= size * 100) by (nonlinear_arith)
        requires
            0 <= size,
            m + percent <= 100,
    ;
}

}
