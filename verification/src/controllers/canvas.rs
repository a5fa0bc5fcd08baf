use vstd::prelude::*;
use crate::elements::{translated_view, Element};
use crate::state::canvas::{
    all_renderable, ids_inside, ids_meeting, index_of_id, is_canvas_picture, topmost_at, extent, CanvasState,
};

verus! {

/// Puts an element on top and returns its id.
pub fn add_element(canvas: &mut CanvasState, element: Element) -> (id: usize)
    ensures
        id == element.spec_id(),
        final(canvas).spec_elements() == old(canvas).spec_elements().push(element),
        final(canvas).spec_next_id() == old(canvas).spec_next_id(),
{
    canvas.add_element(element)
}

/// Removes the first element with id `id`.
pub fn remove_element(canvas: &mut CanvasState, id: usize) -> (r: Option<Element>)
    ensures
        match index_of_id(old(canvas).spec_elements(), id) {
            Some(i) => r == Some(old(canvas).spec_elements()[i])
                && final(canvas).spec_elements() == old(canvas).spec_elements().remove(i),
            None => r is None && final(canvas).spec_elements() == old(canvas).spec_elements(),
        },
        final(canvas).spec_next_id() == old(canvas).spec_next_id(),
{
    canvas.remove_element(id)
}

/// The character the canvas shows at `(x, y)`.
pub fn get_char_at(canvas: &CanvasState, x: i32, y: i32) -> (r: Option<char>)
    requires
        all_renderable(canvas.spec_elements()),
    ensures
        exists|m: Map<(i32, i32), char>| is_canvas_picture(canvas.spec_elements(), m)
            && r == (if m.dom().contains((x, y)) { Some(m[(x, y)]) } else { None }),
{
    canvas.get(x, y)
}

/// The topmost element whose box holds `(x, y)`.
pub fn find_element_at(canvas: &CanvasState, x: i32, y: i32) -> (r: Option<usize>)
    ensures
        r == topmost_at(canvas.spec_elements(), canvas.spec_elements().len(), x as int, y as int),
{
    canvas.find_element_at(x, y)
}

/// The elements whose boxes meet the rectangle.
pub fn find_elements_in_rect(canvas: &CanvasState, x1: i32, y1: i32, x2: i32, y2: i32) -> (r: Vec<usize>)
    ensures
        r@ == ids_meeting(canvas.spec_elements(), canvas.spec_elements().len(), x1 as int, y1 as int, x2 as int, y2 as int),
{
    canvas.find_elements_in_rect(x1, y1, x2, y2)
}

/// The elements whose boxes lie in the rectangle.
pub fn find_elements_fully_inside_rect(canvas: &CanvasState, x1: i32, y1: i32, x2: i32, y2: i32) -> (r: Vec<usize>)
    ensures
        r@ == ids_inside(canvas.spec_elements(), canvas.spec_elements().len(), x1 as int, y1 as int, x2 as int, y2 as int),
{
    canvas.find_elements_fully_inside_rect(x1, y1, x2, y2)
}

/// The first element with id `id`.
pub fn get_element(canvas: &CanvasState, id: usize) -> (r: Option<&Element>)
    ensures
        match index_of_id(canvas.spec_elements(), id) {
            Some(i) => r == Some(&canvas.spec_elements()[i]),
            None => r is None,
        },
{
    canvas.get_element(id)
}

/// The first element with id `id`, to change in place.
pub fn get_element_mut(canvas: &mut CanvasState, id: usize) -> (r: Option<&mut Element>)
    ensures
        match index_of_id(old(canvas).spec_elements(), id) {
            Some(i) => r is Some && *r->0 == old(canvas).spec_elements()[i]
                && final(canvas).spec_elements() == old(canvas).spec_elements().update(i, *final(r->0)),
            None => r is None && final(canvas).spec_elements() == old(canvas).spec_elements(),
        },
{
    canvas.get_element_mut(id)
}

/// The elements, bottom to top.
pub fn elements(canvas: &CanvasState) -> (r: &[Element])
    ensures
        r@ == canvas.spec_elements(),
{
    canvas.elements()
}

/// The box around all elements.
pub fn bounds(canvas: &CanvasState) -> (r: (i32, i32, i32, i32))
    ensures
        (r.0 as int, r.1 as int, r.2 as int, r.3 as int) == extent(canvas.spec_elements()),
{
    canvas.bounds()
}

/// Whether the canvas has no element.
pub fn is_empty(canvas: &CanvasState) -> (r: bool)
    ensures
        r == (canvas.spec_elements().len() == 0),
{
    canvas.is_empty()
}

/// Whether the element's box holds `(x, y)`.
pub fn element_contains_point(element: &Element, x: i32, y: i32) -> (r: bool)
    ensures
        r == element.spec_point_in_bounds(x as int, y as int),
{
    element.contains_point(x, y)
}

/// Whether the element's box holds `(x, y)`.
pub fn element_point_in_bounds(element: &Element, x: i32, y: i32) -> (r: bool)
    ensures
        r == element.spec_point_in_bounds(x as int, y as int),
{
    element.point_in_bounds(x, y)
}

/// Moves the element by `(dx, dy)`.
pub fn translate_element(element: &mut Element, dx: i32, dy: i32)
    ensures
        final(element)@ == translated_view(old(element)@, dx, dy),
{
    element.translate(dx, dy);
}

} // verus!
