use vstd::prelude::*;
use crate::types::{Coord, Panel, Rect, UILayout};

verus! {

/// Whether `coord` lies in `rect` (right and bottom edges excluded).
pub fn is_inside(coord: Coord, rect: Rect) -> (r: bool)
    ensures
        r == rect.spec_contains(coord.x as int, coord.y as int),
{
    rect.contains(coord.x, coord.y)
}

/// The panel a click at `coord` lands in: the canvas, then the tools, then
/// the elements panel are tried in that order.
pub open spec fn panel_at(coord: Coord, layout: UILayout) -> Option<Panel> {
    if layout.canvas.spec_contains(coord.x as int, coord.y as int) {
        Some(Panel::Canvas)
    } else if layout.tools.spec_contains(coord.x as int, coord.y as int) {
        Some(Panel::Tools)
    } else if layout.elements.spec_contains(coord.x as int, coord.y as int) {
        Some(Panel::Elements)
    } else {
        None
    }
}

/// Which panel a click at `coord` lands in.
pub fn detect_panel_click(coord: Coord, layout: &UILayout) -> (r: Option<Panel>)
    ensures
        r == panel_at(coord, *layout),
{
    if is_inside(coord, layout.canvas) {
        Some(Panel::Canvas)
    } else if is_inside(coord, layout.tools) {
        Some(Panel::Tools)
    } else if is_inside(coord, layout.elements) {
        Some(Panel::Elements)
    } else {
        None
    }
}

} // verus!
