//! Where a prompt is drawn: the middle part of the screen.

use vstd::prelude::*;

verus! {

/// A rectangle of terminal cells.
#[derive(Clone, Copy, Debug, PartialEq, Eq)]
pub struct Rect {
    pub x: u16,
    pub y: u16,
    pub width: u16,
    pub height: u16,
}

/// The direction along which an area is split.
#[derive(Clone, Copy, Debug, PartialEq, Eq)]
pub enum Direction {
    Horizontal,
    Vertical,
}

impl Direction {
    /// The extent of `area` along this direction.
    pub open spec fn extent(self, area: Rect) -> u16 {
        match self {
            Direction::Horizontal => area.width,
            Direction::Vertical => area.height,
        }
    }
}

/// The shares, in percent, of the three parts of an area whose middle
/// part takes `percent` percent: what is left goes in halves to the two
/// sides.
pub open spec fn centered_shares(percent: u16) -> (u16, u16, u16) {
    (((100 - percent) / 2) as u16, percent, ((100 - percent) / 2) as u16)
}

/// The layout can split `area` by `shares` along `direction`: the far
/// edges of the area, and each share multiplied with the extent of the
/// area, fit in 16 bits.
pub open spec fn splittable(direction: Direction, shares: (u16, u16, u16), area: Rect) -> bool {
    &&& area.x + area.width <= u16::MAX
    &&& area.y + area.height <= u16::MAX
    &&& shares.0 * direction.extent(area) <= u16::MAX
    &&& shares.1 * direction.extent(area) <= u16::MAX
    &&& shares.2 * direction.extent(area) <= u16::MAX
}

/// Calls tui's `Layout::split` on `area`, with the three `shares` as
/// `Constraint::Percentage` along `direction`. The layout works in 16
/// bits: it multiplies each share with the extent of the area, and it
/// asks of all parts to end before the far edges of the area, which it
/// caps at the largest number. The `requires` keeps the products from
/// overflowing and the edges from being capped, since the layout panics
/// on either. It returns one part for each constraint, as the contract
/// says; the contract says nothing of where the solver puts the parts.
#[verifier::external_body]
fn split(direction: Direction, shares: (u16, u16, u16), area: Rect) -> (parts: Vec<Rect>)
    requires
        splittable(direction, shares, area),
    ensures
        parts@.len() == 3,
{
    let direction = match direction {
        Direction::Horizontal => tui::layout::Direction::Horizontal,
        Direction::Vertical => tui::layout::Direction::Vertical,
    };
    let shares = [shares.0, shares.1, shares.2].map(tui::layout::Constraint::Percentage);
    let area = tui::layout::Rect { x: area.x, y: area.y, width: area.width, height: area.height };
    let parts = tui::layout::Layout::default().direction(direction).constraints(shares).split(area);
    parts.iter().map(|p| Rect { x: p.x, y: p.y, width: p.width, height: p.height }).collect()
}

/// The shares of the three parts of an area whose middle part takes
/// `percent` percent.
pub fn shares_around(percent: u16) -> (shares: (u16, u16, u16))
    requires
        percent <= 100,
    ensures
        shares == centered_shares(percent),
{
    let side: u16 = (100 - percent) / 2;
    (side, percent, side)
}

/// Whether the product of `share` and `extent` fits in 16 bits.
fn product_fits(share: u16, extent: u16) -> (fits: bool)
    ensures
        fits == (share * extent <= u16::MAX),
{
    assert(share * extent <= 0xffff * 0xffff) by (nonlinear_arith)
        requires
            share <= 0xffff,
            extent <= 0xffff,
    ;
    (share as u32) * (extent as u32) <= 0xffff
}

/// Whether the layout can split `area` by `shares` along `direction`.
pub fn can_split(direction: Direction, shares: (u16, u16, u16), area: Rect) -> (can: bool)
    ensures
        can == splittable(direction, shares, area),
{
    let extent = match direction {
        Direction::Horizontal => area.width,
        Direction::Vertical => area.height,
    };
    area.x as u32 + area.width as u32 <= 0xffff && area.y as u32 + area.height as u32 <= 0xffff
        && product_fits(shares.0, extent) && product_fits(shares.1, extent) && product_fits(
        shares.2,
        extent,
    )
}

/// The middle one of the three parts that the layout makes of `area`
/// along `direction`, the middle part asking for `percent` percent. There
/// is none where the layout cannot split the area.
pub fn middle_part(direction: Direction, percent: u16, area: Rect) -> (part: Option<Rect>)
    requires
        percent <= 100,
    ensures
        part is Some <==> splittable(direction, centered_shares(percent), area),
{
    let shares = shares_around(percent);
    if can_split(direction, shares, area) {
        let parts = split(direction, shares, area);
        Some(parts[1])
    } else {
        None
    }
}

/// The area of a prompt in the middle of `r`: the middle row of `r`,
/// asking for `percent_y` percent of its height, and of that row the
/// middle part, asking for `percent_x` percent of its width. There is none
/// where the layout cannot split `r`, or the row that it made of `r`.
pub fn centered_rect(percent_x: u16, percent_y: u16, r: Rect) -> (popup: Option<Rect>)
    requires
        percent_x <= 100,
        percent_y <= 100,
    ensures
        popup is Some ==> splittable(Direction::Vertical, centered_shares(percent_y), r),
{
    match middle_part(Direction::Vertical, percent_y, r) {
        Some(row) => middle_part(Direction::Horizontal, percent_x, row),
        None => None,
    }
}

} // verus!
