//! How the screen is divided.

use ratatui::layout::{Constraint, Layout, Rect};
use vstd::prelude::*;

verus! {

/// A rectangle of cells on the screen.
#[derive(Clone, Copy, PartialEq, Eq, Structural, Debug)]
pub struct Area {
    pub x: u16,
    pub y: u16,
    pub width: u16,
    pub height: u16,
}

/// The direction in which an area is divided.
#[derive(Clone, Copy, PartialEq, Eq, Structural, Debug)]
pub enum Axis {
    Vertical,
    Horizontal,
}

/// How large a part of an area is to be, in the direction in which it is divided.
#[derive(Clone, Copy, PartialEq, Eq, Structural, Debug)]
pub enum Extent {
    Length(u16),
    Min(u16),
    Percentage(u16),
}

/// The parts of the screen: the status line on top, and below it the list of projects
/// with the pane on its right.
#[derive(Clone, Copy, PartialEq, Eq, Structural, Debug)]
pub struct ScreenAreas {
    pub status: Area,
    pub body: Area,
    pub list: Area,
    pub right: Area,
}

/// Whether `part` reaches across `whole` in the direction in which it is not divided.
pub open spec fn reaches_across(part: Area, whole: Area, axis: Axis) -> bool {
    match axis {
        Axis::Vertical => part.x == whole.x && part.width == whole.width,
        Axis::Horizontal => part.y == whole.y && part.height == whole.height,
    }
}

/// Whether `part` lies within `whole` in the direction in which it is divided.
pub open spec fn lies_within(part: Area, whole: Area, axis: Axis) -> bool {
    match axis {
        Axis::Vertical => whole.y <= part.y && part.y + part.height <= whole.y + whole.height,
        Axis::Horizontal => whole.x <= part.x && part.x + part.width <= whole.x + whole.width,
    }
}

/// Whether every cell of `part` is one of `whole`.
pub open spec fn is_part(part: Area, whole: Area) -> bool {
    lies_within(part, whole, Axis::Vertical) && lies_within(part, whole, Axis::Horizontal)
}

/// Whether `ratatui::layout::Layout::split` may divide `area` along `axis` into these two
/// parts, where they are asked to be as large as `first` and `second` say. Which of the
/// parts within the area these are is not stated: they come of a numeric solver that walks hash maps in an order
/// of the process, so there may be more than one such pair.
pub uninterp spec fn may_split(
    axis: Axis,
    first: Extent,
    second: Extent,
    area: Area,
    parts: (Area, Area),
) -> bool;

/// `ratatui::layout::Layout::split` with two constraints: what it gives is one of the
/// pairs of parts that it may give, and each part reaches across the area and lies within
/// it.
#[verifier::external_body]
fn split_in_two(axis: Axis, first: Extent, second: Extent, area: Area) -> (r: (Area, Area))
    ensures
        may_split(axis, first, second, area, r),
        reaches_across(r.0, area, axis),
        reaches_across(r.1, area, axis),
        lies_within(r.0, area, axis),
        lies_within(r.1, area, axis),
{
    let rule = |e: Extent| match e {
        Extent::Length(n) => Constraint::Length(n),
        Extent::Min(n) => Constraint::Min(n),
        Extent::Percentage(p) => Constraint::Percentage(p),
    };
    let layout = match axis {
        Axis::Vertical => Layout::vertical([rule(first), rule(second)]),
        Axis::Horizontal => Layout::horizontal([rule(first), rule(second)]),
    };
    let Area { x, y, width, height } = area;
    let parts = layout.split(Rect { x, y, width, height });
    let plain = |p: Rect| Area { x: p.x, y: p.y, width: p.width, height: p.height };
    (plain(parts[0]), plain(parts[1]))
}

/// Whether `parts` is a division of the screen `area`: one line for the status and the
/// rest below it, of which the list takes 35 percent of the width and the pane 65.
pub open spec fn is_division(area: Area, parts: ScreenAreas) -> bool {
    &&& may_split(
        Axis::Vertical,
        Extent::Length(1),
        Extent::Min(0),
        area,
        (parts.status, parts.body),
    )
    &&& may_split(
        Axis::Horizontal,
        Extent::Percentage(35),
        Extent::Percentage(65),
        parts.body,
        (parts.list, parts.right),
    )
    &&& reaches_across(parts.status, area, Axis::Vertical)
    &&& reaches_across(parts.body, area, Axis::Vertical)
    &&& reaches_across(parts.list, parts.body, Axis::Horizontal)
    &&& reaches_across(parts.right, parts.body, Axis::Horizontal)
    &&& lies_within(parts.status, area, Axis::Vertical)
    &&& lies_within(parts.body, area, Axis::Vertical)
    &&& lies_within(parts.list, parts.body, Axis::Horizontal)
    &&& lies_within(parts.right, parts.body, Axis::Horizontal)
}

/// The status line is asked to be one line of the screen and the body to be the rest; the list
/// is asked to be 35 percent of the body and the pane 65, from left to right.
pub proof fn division_asks_for_these_parts(area: Area, parts: ScreenAreas)
    requires
        is_division(area, parts),
    ensures
        may_split(
            Axis::Vertical,
            Extent::Length(1),
            Extent::Min(0),
            area,
            (parts.status, parts.body),
        ),
        may_split(
            Axis::Horizontal,
            Extent::Percentage(35),
            Extent::Percentage(65),
            parts.body,
            (parts.list, parts.right),
        ),
{
}

/// No part of the screen goes beyond it, and neither the list nor the pane beyond the body.
pub proof fn parts_stay_on_the_screen(area: Area, parts: ScreenAreas)
    requires
        is_division(area, parts),
    ensures
        is_part(parts.status, area),
        is_part(parts.body, area),
        is_part(parts.list, parts.body),
        is_part(parts.right, parts.body),
        is_part(parts.list, area),
        is_part(parts.right, area),
{
}

/// Divides the screen: one line for the status, the rest for the list and the pane, of
/// which the list takes 35 percent of the width and the pane 65.
pub fn divide(area: Area) -> (r: ScreenAreas)
    ensures
        is_division(area, r),
{
    let (status, body) = split_in_two(Axis::Vertical, Extent::Length(1), Extent::Min(0), area);
    let (list, right) = split_in_two(
        Axis::Horizontal,
        Extent::Percentage(35),
        Extent::Percentage(65),
        body,
    );
    ScreenAreas { status, body, list, right }
}

} // verus!
