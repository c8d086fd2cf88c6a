//! The popup's place on the screen: a rectangle in the middle of another,
//! a given share of its width and of its height.

use vstd::prelude::*;

verus! {

/// A rectangle of terminal cells.
#[derive(Debug, Clone, Copy, PartialEq, Eq, Structural)]
pub struct Area {
    pub x: u16,
    pub y: u16,
    pub width: u16,
    pub height: u16,
}

/// The direction in which an area is cut.
#[derive(Debug, Clone, Copy, PartialEq, Eq, Structural)]
pub enum Cut {
    Horizontal,
    Vertical,
}

/// Whether an area can be cut: its far edges are on the grid, and no share of
/// a side, taken a hundred times, leaves the grid.
pub open spec fn cuttable(area: Area) -> bool {
    &&& area.x + area.width <= 65535
    &&& area.y + area.height <= 65535
    &&& area.width <= 655
    &&& area.height <= 655
}

/// `tui::layout::Layout::split` with three percentage constraints in one
/// direction, without margin. Believed, not proved: one area comes back for
/// each constraint, so three. Where the areas lie is the work of a constraint
/// solver that walks hash maps, so nothing is said of it. The shares and the
/// area are bounded so that the products of a share and a side, which the
/// call computes in sixteen bits, stay within them.
#[verifier::external_body]
fn split_in_three(cut: Cut, first: u16, middle: u16, last: u16, area: Area) -> (parts: Vec<Area>)
    requires
        first <= 100,
        middle <= 100,
        last <= 100,
        cuttable(area),
    ensures
        parts.len() == 3,
{
    let direction = match cut {
        Cut::Horizontal => tui::layout::Direction::Horizontal,
        Cut::Vertical => tui::layout::Direction::Vertical,
    };
    let constraints = [
        tui::layout::Constraint::Percentage(first),
        tui::layout::Constraint::Percentage(middle),
        tui::layout::Constraint::Percentage(last),
    ];
    let rect = tui::layout::Rect { x: area.x, y: area.y, width: area.width, height: area.height };
    let parts = tui::layout::Layout::default().direction(direction).constraints(constraints).split(rect);
    parts.iter().map(|p| Area { x: p.x, y: p.y, width: p.width, height: p.height }).collect()
}

/// The three shares, in percent, that put a share of `percent` in the middle:
/// half of what is left, rounded down, on either side of it.
pub open spec fn centering_shares(percent: int) -> (int, int, int) {
    ((100 - percent) / 2, percent, (100 - percent) / 2)
}

/// The three shares that put a share of `percent` in the middle.
pub fn shares_around(percent: u16) -> (shares: (u16, u16, u16))
    requires
        percent <= 100,
    ensures
        (shares.0 as int, shares.1 as int, shares.2 as int) == centering_shares(percent as int),
        shares.0 <= 50,
        shares.2 <= 50,
{
    let side: u16 = (100 - percent) / 2;
    (side, percent, side)
}

/// The middle one of the parts of a cut: the second.
pub fn middle_of(parts: &Vec<Area>) -> (part: Area)
    requires
        1 < parts.len(),
    ensures
        part == parts[1],
{
    parts[1]
}

/// Cuts an area in three so that the middle part has `percent` of it, and
/// hands back the middle part: the shares handed to the layout are those of
/// `centering_shares`, and the part handed back is the second of the three
/// that the layout returns. Where that part lies is the layout's answer, of
/// which nothing is known here.
pub fn middle_part(cut: Cut, percent: u16, area: Area) -> (part: Area)
    requires
        percent <= 100,
        cuttable(area),
{
    let shares = shares_around(percent);
    let parts = split_in_three(cut, shares.0, shares.1, shares.2, area);
    middle_of(&parts)
}

/// Whether an area can be cut.
pub fn can_cut(area: Area) -> (r: bool)
    ensures
        r == cuttable(area),
{
    area.width <= 655 && area.height <= 655 && area.x <= 65535 - area.width && area.y <= 65535
        - area.height
}

/// The middle column of a row, `percent_x` of its width: there is one exactly
/// where the row can be cut.
pub fn middle_column(percent_x: u16, row: Area) -> (part: Option<Area>)
    requires
        percent_x <= 100,
    ensures
        part is Some <==> cuttable(row),
{
    if can_cut(row) {
        Some(middle_part(Cut::Horizontal, percent_x, row))
    } else {
        None
    }
}

/// The rectangle in the middle of `r` that takes `percent_x` of its width and
/// `percent_y` of its height: the middle row of three, then the middle column
/// of that row. Nothing comes back where the middle row, as the layout
/// returned it, cannot be cut.
pub fn centered_rect(percent_x: u16, percent_y: u16, r: Area) -> (part: Option<Area>)
    requires
        percent_x <= 100,
        percent_y <= 100,
        cuttable(r),
{
    let row: Area = middle_part(Cut::Vertical, percent_y, r);
    middle_column(percent_x, row)
}

} // verus!
