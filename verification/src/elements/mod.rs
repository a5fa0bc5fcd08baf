pub mod arrow;
pub mod borders;
pub mod line;
pub mod properties;
pub mod rectangle;
pub mod segment;
pub mod table;
pub mod text;

use vstd::prelude::*;
use crate::elements::arrow::ArrowElement;
use crate::elements::line::{is_line_rendering, LineElement, RenderPoint};
use crate::elements::properties::{
    HasProperties, PropertiesSpec, PropertyError, PropertyValue, PropertyValueView, SectionView,
};
use crate::elements::rectangle::{box_bounds, rectangle_cells, rectangle_property, rectangle_set, rectangle_spec_view, shape_of, RectangleElement};
use crate::elements::table::{
    cells_view, column_widths, widths_sum, render_fits, table_cells, table_property, table_set_outcome, table_spec_view, texts_fit, TableElement,
};
use crate::elements::text::{text_cells, TextElement};
use crate::geometry::arrow_cells;
use crate::elements::borders::BorderStyle;
use crate::elements::segment::{bounds_translated, segment_translated, Segment};
use crate::types::{clamp_u16, Bounds, Coord};

verus! {

/// An element as plain values: strings as character sequences, lists as sequences.
pub enum ElementView {
    Line { id: usize, name: Seq<char>, segments: Seq<Segment>, bounds: Bounds },
    Rectangle { id: usize, name: Seq<char>, start: Coord, width: u16, height: u16, bounds: Bounds, border_style: BorderStyle },
    Arrow { id: usize, name: Seq<char>, segments: Seq<Segment>, bounds: Bounds },
    Text { id: usize, name: Seq<char>, position: Coord, text: Seq<char>, bounds: Bounds },
    Table {
        id: usize,
        name: Seq<char>,
        start: Coord,
        width: u16,
        height: u16,
        bounds: Bounds,
        rows: usize,
        cols: usize,
        cells: Seq<Seq<Seq<char>>>,
        header_border: BorderStyle,
        body_border: BorderStyle,
    },
}

impl ElementView {
    pub open spec fn id(self) -> usize {
        match self {
            ElementView::Line { id, .. } => id,
            ElementView::Rectangle { id, .. } => id,
            ElementView::Arrow { id, .. } => id,
            ElementView::Text { id, .. } => id,
            ElementView::Table { id, .. } => id,
        }
    }
}

/// A cell moved by `(dx, dy)`, clamped to the `u16` range.
pub open spec fn coord_translated(c: Coord, dx: i32, dy: i32) -> Coord {
    Coord { x: clamp_u16(c.x + dx), y: clamp_u16(c.y + dy) }
}

/// An element moved by `(dx, dy)`: its anchor cells and bounds shift (clamped),
/// everything else stays.
pub open spec fn translated_view(v: ElementView, dx: i32, dy: i32) -> ElementView {
    match v {
        ElementView::Line { id, name, segments, bounds } => ElementView::Line {
            id, name,
            segments: segments.map_values(|s: Segment| segment_translated(s, dx, dy)),
            bounds: bounds_translated(bounds, dx, dy),
        },
        ElementView::Rectangle { id, name, start, width, height, bounds, border_style } => ElementView::Rectangle {
            id, name, start: coord_translated(start, dx, dy), width, height,
            bounds: bounds_translated(bounds, dx, dy), border_style,
        },
        ElementView::Arrow { id, name, segments, bounds } => ElementView::Arrow {
            id, name,
            segments: segments.map_values(|s: Segment| segment_translated(s, dx, dy)),
            bounds: bounds_translated(bounds, dx, dy),
        },
        ElementView::Text { id, name, position, text, bounds } => ElementView::Text {
            id, name, position: coord_translated(position, dx, dy), text,
            bounds: bounds_translated(bounds, dx, dy),
        },
        ElementView::Table { id, name, start, width, height, bounds, rows, cols, cells, header_border, body_border } =>
            ElementView::Table {
                id, name, start: coord_translated(start, dx, dy), width, height,
                bounds: bounds_translated(bounds, dx, dy), rows, cols, cells, header_border, body_border,
            },
    }
}

/// A table value after its cell `(row, col)` gets `content` (when it has that
/// cell): the texts change, and the size follows the texts when it fits in a
/// `u16`. Other values stay.
pub open spec fn with_cell(v: ElementView, row: int, col: int, content: Seq<char>) -> ElementView {
    match v {
        ElementView::Table { id, name, start, width, height, bounds, rows, cols, cells, header_border, body_border } =>
            if 0 <= row < cells.len() && 0 <= col < cells[row].len() {
                let nc = cells.update(row, cells[row].update(col, content));
                let w = widths_sum(column_widths(nc, cols as nat), cols as nat) + (cols as u16) + 1;
                let h = (rows as u16) * 3 + 1;
                if w <= 65535 && h <= 65535 {
                    ElementView::Table {
                        id, name, start, width: w as u16, height: h as u16,
                        bounds: box_bounds(start, w as u16, h as u16),
                        rows, cols, cells: nc, header_border, body_border,
                    }
                } else {
                    ElementView::Table { id, name, start, width, height, bounds, rows, cols, cells: nc, header_border, body_border }
                }
            } else {
                v
            },
        _ => v,
    }
}

/// What setting the property `name` to `value` does to an element, with
/// result `r`: rectangles and tables change as their own rules say, other
/// elements accept and stay.
pub open spec fn property_set(a: Element, b: Element, name: Seq<char>, value: PropertyValueView, r: Result<(), PropertyError>) -> bool {
    &&& b.spec_id() == a.spec_id()
    &&& b.spec_name() == a.spec_name()
    &&& match a {
        Element::Rectangle(x) => match b {
            Element::Rectangle(y) => match rectangle_set(shape_of(x), name, value) {
                Ok(s) => r is Ok && shape_of(y) == s,
                Err(e) => r matches Err(v) && v@ == e && shape_of(y) == shape_of(x),
            },
            _ => false,
        },
        Element::Table(x) => match b {
            Element::Table(y) => crate::elements::table::table_set(x, y, name, value, r),
            _ => false,
        },
        _ => r is Ok && b == a,
    }
}

impl View for Element {
    type V = ElementView;

    open spec fn view(&self) -> ElementView {
        match self {
            Element::Line(e) => ElementView::Line { id: e.id, name: e.name@, segments: e.segments@, bounds: e.bounds },
            Element::Rectangle(e) => ElementView::Rectangle {
                id: e.id, name: e.name@, start: e.start, width: e.width, height: e.height,
                bounds: e.bounds, border_style: e.border_style,
            },
            Element::Arrow(e) => ElementView::Arrow { id: e.id, name: e.name@, segments: e.segments@, bounds: e.bounds },
            Element::Text(e) => ElementView::Text {
                id: e.id, name: e.name@, position: e.position, text: e.text@, bounds: e.bounds,
            },
            Element::Table(e) => ElementView::Table {
                id: e.id, name: e.name@, start: e.start, width: e.width, height: e.height, bounds: e.bounds,
                rows: e.rows, cols: e.cols, cells: cells_view(e.cells@),
                header_border: e.header_border, body_border: e.body_border,
            },
        }
    }
}

/// Anything drawn on the canvas.
#[derive(Debug, Clone)]
pub enum Element {
    Line(LineElement),
    Rectangle(RectangleElement),
    Arrow(ArrowElement),
    Text(TextElement),
    Table(TableElement),
}

/// A fresh vector holding the same segments.
pub fn copy_segments(segments: &Vec<Segment>) -> (r: Vec<Segment>)
    ensures
        r@ == segments@,
{
    let mut r: Vec<Segment> = Vec::new();
    let mut i: usize = 0;
    while i < segments.len()
        invariant
            i <= segments.len(),
            r@ == segments@.subrange(0, i as int),
        decreases segments.len() - i,
    {
        r.push(segments[i]);
        i = i + 1;
    }
    r
}

/// A fresh grid holding the same cell texts.
pub fn copy_cells(cells: &Vec<Vec<String>>) -> (r: Vec<Vec<String>>)
    ensures
        cells_view(r@) == cells_view(cells@),
{
    let mut r: Vec<Vec<String>> = Vec::new();
    let mut i: usize = 0;
    while i < cells.len()
        invariant
            i <= cells.len(),
            r@.len() == i,
            forall|k: int| 0 <= k < i ==> #[trigger] r@[k]@.len() == cells@[k]@.len(),
            forall|k: int, m: int| 0 <= k < i && 0 <= m < r@[k]@.len() ==> #[trigger] r@[k]@[m]@ == cells@[k]@[m]@,
        decreases cells.len() - i,
    {
        let row = &cells[i];
        let mut out: Vec<String> = Vec::new();
        let mut j: usize = 0;
        while j < row.len()
            invariant
                j <= row.len(),
                out@.len() == j,
                forall|k: int| 0 <= k < j ==> #[trigger] out@[k]@ == row@[k]@,
            decreases row.len() - j,
        {
            out.push(row[j].clone());
            j = j + 1;
        }
        r.push(out);
        i = i + 1;
    }
    assert forall|k: int| 0 <= k < cells@.len() implies cells_view(r@)[k] =~= cells_view(cells@)[k] by {
        assert(r@[k]@.len() == cells@[k]@.len());
    }
    assert(cells_view(r@) =~= cells_view(cells@));
    r
}

/// The name of an element's kind.
pub open spec fn kind_name(e: Element) -> Seq<char> {
    match e {
        Element::Line(_) => "Line"@,
        Element::Rectangle(_) => "Rectangle"@,
        Element::Arrow(_) => "Arrow"@,
        Element::Text(_) => "Text"@,
        Element::Table(_) => "Table"@,
    }
}

impl Element {
    /// A copy of this element with the same value.
    pub fn duplicate(&self) -> (e: Element)
        ensures
            e@ == self@,
    {
        match self {
            Element::Line(l) => Element::Line(LineElement {
                id: l.id, name: l.name.clone(), segments: copy_segments(&l.segments), bounds: l.bounds,
            }),
            Element::Rectangle(r) => Element::Rectangle(RectangleElement {
                id: r.id, name: r.name.clone(), start: r.start, width: r.width, height: r.height,
                bounds: r.bounds, border_style: r.border_style,
            }),
            Element::Arrow(a) => Element::Arrow(ArrowElement {
                id: a.id, name: a.name.clone(), segments: copy_segments(&a.segments), bounds: a.bounds,
            }),
            Element::Text(t) => Element::Text(TextElement {
                id: t.id, name: t.name.clone(), position: t.position, text: t.text.clone(), bounds: t.bounds,
            }),
            Element::Table(t) => Element::Table(TableElement {
                id: t.id, name: t.name.clone(), start: t.start, width: t.width, height: t.height,
                bounds: t.bounds, rows: t.rows, cols: t.cols, cells: copy_cells(&t.cells),
                header_border: t.header_border, body_border: t.body_border,
            }),
        }
    }

    pub open spec fn spec_id(&self) -> usize {
        match self {
            Element::Line(e) => e.id,
            Element::Rectangle(e) => e.id,
            Element::Arrow(e) => e.id,
            Element::Text(e) => e.id,
            Element::Table(e) => e.id,
        }
    }

    pub open spec fn spec_name(&self) -> Seq<char> {
        match self {
            Element::Line(e) => e.name@,
            Element::Rectangle(e) => e.name@,
            Element::Arrow(e) => e.name@,
            Element::Text(e) => e.name@,
            Element::Table(e) => e.name@,
        }
    }

    pub open spec fn spec_bounds(&self) -> Bounds {
        match self {
            Element::Line(e) => e.bounds,
            Element::Rectangle(e) => e.bounds,
            Element::Arrow(e) => e.bounds,
            Element::Text(e) => e.bounds,
            Element::Table(e) => e.bounds,
        }
    }

    /// The element can be rendered without leaving the `i32` range.
    pub open spec fn renderable(&self) -> bool {
        match self {
            Element::Text(t) => t.position.x + t.text@.len() <= i32::MAX,
            Element::Table(t) => render_fits(*t) && texts_fit(cells_view(t.cells@)),
            _ => true,
        }
    }

    /// `r` is what the element draws.
    pub open spec fn is_rendering(&self, r: Seq<RenderPoint>) -> bool {
        match self {
            Element::Line(l) => is_line_rendering(l.segments@, r),
            Element::Rectangle(x) => r == rectangle_cells(*x),
            Element::Arrow(a) => r == arrow_cells(a.segments@, a.segments@.len()),
            Element::Text(t) => r == text_cells(t.position, t.text@),
            Element::Table(t) => r == table_cells(*t),
        }
    }

    /// Property `name` of the element can be changed without overflowing its sizes.
    pub open spec fn settable(&self, name: Seq<char>) -> bool {
        match self {
            Element::Table(t) => t.settable(name),
            _ => true,
        }
    }

    /// `(column, row)` lies in the element's bounding box (edges included).
    pub open spec fn spec_point_in_bounds(&self, x: int, y: int) -> bool {
        let b = self.spec_bounds();
        b.min.x <= x <= b.max.x && b.min.y <= y <= b.max.y
    }

    /// The element's bounding box lies in the rectangle `(x1, y1)`–`(x2, y2)`.
    pub open spec fn spec_inside_rect(&self, x1: int, y1: int, x2: int, y2: int) -> bool {
        let b = self.spec_bounds();
        b.min.x >= x1 && b.max.x <= x2 && b.min.y >= y1 && b.max.y <= y2
    }

    /// The element's bounding box meets the rectangle `(x1, y1)`–`(x2, y2)`.
    pub open spec fn spec_intersects_rect(&self, x1: int, y1: int, x2: int, y2: int) -> bool {
        let b = self.spec_bounds();
        !(b.max.x < x1 || b.min.x > x2 || b.max.y < y1 || b.min.y > y2)
    }

    pub fn id(&self) -> (r: usize)
        ensures
            r == self.spec_id(),
    {
        match self {
            Element::Line(e) => e.id,
            Element::Rectangle(e) => e.id,
            Element::Arrow(e) => e.id,
            Element::Text(e) => e.id,
            Element::Table(e) => e.id,
        }
    }

    pub fn name(&self) -> (r: &str)
        ensures
            r@ == self.spec_name(),
    {
        match self {
            Element::Line(e) => e.name.as_str(),
            Element::Rectangle(e) => e.name.as_str(),
            Element::Arrow(e) => e.name.as_str(),
            Element::Text(e) => e.name.as_str(),
            Element::Table(e) => e.name.as_str(),
        }
    }

    /// The kind of element, for display.
    pub fn kind_name(&self) -> (r: &'static str)
        ensures
            r@ == (match self {
                Element::Line(_) => "Line"@,
                Element::Rectangle(_) => "Rectangle"@,
                Element::Arrow(_) => "Arrow"@,
                Element::Text(_) => "Text"@,
                Element::Table(_) => "Table"@,
            }),
    {
        match self {
            Element::Line(_) => "Line",
            Element::Rectangle(_) => "Rectangle",
            Element::Arrow(_) => "Arrow",
            Element::Text(_) => "Text",
            Element::Table(_) => "Table",
        }
    }

    pub fn bounds(&self) -> (r: Bounds)
        ensures
            r == self.spec_bounds(),
    {
        match self {
            Element::Line(e) => e.bounds,
            Element::Rectangle(e) => e.bounds,
            Element::Arrow(e) => e.bounds,
            Element::Text(e) => e.bounds,
            Element::Table(e) => e.bounds,
        }
    }

    /// Moves the element by `(dx, dy)`; its kind, id and name stay.
    pub fn translate(&mut self, dx: i32, dy: i32)
        ensures
            final(self).spec_id() == old(self).spec_id(),
            final(self).spec_name() == old(self).spec_name(),
            final(self).spec_bounds() == crate::elements::segment::bounds_translated(old(self).spec_bounds(), dx, dy),
            final(self)@ == translated_view(old(self)@, dx, dy),
    {
        match self {
            Element::Line(e) => e.translate(dx, dy),
            Element::Rectangle(e) => e.translate(dx, dy),
            Element::Arrow(e) => e.translate(dx, dy),
            Element::Text(e) => e.translate(dx, dy),
            Element::Table(e) => e.translate(dx, dy),
        }
    }

    /// `(x, y)` lies in the element's bounding box.
    pub fn point_in_bounds(&self, x: i32, y: i32) -> (r: bool)
        ensures
            r == self.spec_point_in_bounds(x as int, y as int),
    {
        let b = self.bounds();
        x >= b.min.x as i32 && x <= b.max.x as i32 && y >= b.min.y as i32 && y <= b.max.y as i32
    }

    /// Whether a click at `(x, y)` hits the element: its bounding box counts.
    pub fn contains_point(&self, x: i32, y: i32) -> (r: bool)
        ensures
            r == self.spec_point_in_bounds(x as int, y as int),
    {
        self.point_in_bounds(x, y)
    }

    /// The element's bounding box meets the rectangle `(x1, y1)`–`(x2, y2)`.
    pub fn intersects_rect(&self, x1: i32, y1: i32, x2: i32, y2: i32) -> (r: bool)
        ensures
            r == self.spec_intersects_rect(x1 as int, y1 as int, x2 as int, y2 as int),
    {
        let b = self.bounds();
        !((b.max.x as i32) < x1 || (b.min.x as i32) > x2 || (b.max.y as i32) < y1 || (b.min.y as i32) > y2)
    }

    /// The element's bounding box lies in the rectangle `(x1, y1)`–`(x2, y2)`.
    pub fn is_fully_inside_rect(&self, x1: i32, y1: i32, x2: i32, y2: i32) -> (r: bool)
        ensures
            r == self.spec_inside_rect(x1 as int, y1 as int, x2 as int, y2 as int),
    {
        let b = self.bounds();
        (b.min.x as i32) >= x1 && (b.max.x as i32) <= x2 && (b.min.y as i32) >= y1 && (b.max.y as i32) <= y2
    }

    /// The cells the element draws.
    pub fn render_points(&self) -> (r: Vec<RenderPoint>)
        requires
            self.renderable(),
        ensures
            self.is_rendering(r@),
    {
        match self {
            Element::Line(e) => e.render_points(),
            Element::Rectangle(e) => e.render_points(),
            Element::Arrow(e) => e.render_points(),
            Element::Text(e) => e.render_points(),
            Element::Table(e) => e.render_points(),
        }
    }

    /// The editable properties: those of rectangles and tables, none for the rest.
    pub fn properties_spec(&self) -> (s: PropertiesSpec)
        ensures
            s@ == (match self {
                Element::Rectangle(_) => rectangle_spec_view(),
                Element::Table(_) => table_spec_view(),
                _ => Seq::<SectionView>::empty(),
            }),
    {
        match self {
            Element::Rectangle(rect) => rect.properties_spec(),
            Element::Table(table) => table.properties_spec(),
            _ => PropertiesSpec::default(),
        }
    }

    /// The value of a property, for elements that have properties.
    pub fn get_property(&self, name: &str) -> (r: Option<PropertyValue>)
        ensures
            match (match self {
                Element::Rectangle(x) => rectangle_property(*x, name@),
                Element::Table(t) => table_property(*t, name@),
                _ => None,
            }) {
                Some(v) => r is Some && r->0@ == v,
                None => r is None,
            },
    {
        match self {
            Element::Rectangle(rect) => rect.get_property(name),
            Element::Table(table) => table.get_property(name),
            _ => None,
        }
    }

    /// The name of the element's kind.
    pub fn kind_str(&self) -> (s: &'static str)
        ensures
            s@ == kind_name(*self),
    {
        match self {
            Element::Line(_) => "Line",
            Element::Rectangle(_) => "Rectangle",
            Element::Arrow(_) => "Arrow",
            Element::Text(_) => "Text",
            Element::Table(_) => "Table",
        }
    }

    /// Whether the element can be drawn inside the `i32` range (see `renderable`).
    pub fn is_renderable(&self) -> (r: bool)
        ensures
            r == self.renderable(),
    {
        match self {
            Element::Text(t) => (t.position.x as u128) + (t.text.as_str().unicode_len() as u128) <= 0x7fff_ffff,
            Element::Table(t) => t.fits_drawing(),
            _ => true,
        }
    }

    /// Whether property `name` of the element can be set without overflowing its sizes.
    pub fn is_settable(&self, name: &str) -> (r: bool)
        ensures
            r == self.settable(name@),
    {
        match self {
            Element::Table(t) => {
                if crate::text::str_eq(name, "rows") {
                    let c16 = t.cols as u16;
                    (c16 as u32) * 13 + 1 <= 65535 && (t.cols as u128) * 20 < usize::MAX as u128
                } else if crate::text::str_eq(name, "cols") {
                    let r16 = t.rows as u16;
                    (r16 as u32) * 3 + 1 <= 65535 && (t.rows as u128) * 10 < usize::MAX as u128
                } else {
                    true
                }
            },
            _ => true,
        }
    }

    /// Sets a property of a rectangle or a table; other elements accept and ignore it.
    pub fn set_property(&mut self, name: &str, value: PropertyValue) -> (r: Result<(), PropertyError>)
        requires
            old(self).settable(name@),
        ensures
            final(self).spec_id() == old(self).spec_id(),
            final(self).spec_name() == old(self).spec_name(),
            property_set(*old(self), *final(self), name@, value@, r),
    {
        match self {
            Element::Rectangle(rect) => rect.set_property(name, value),
            Element::Table(table) => table.set_property(name, value),
            _ => Ok(()),
        }
    }
}

/// A cell stays in the `u16` range when moved by `(dx, dy)`.
pub open spec fn shifts_within(c: Coord, dx: i32, dy: i32) -> bool {
    0 <= c.x + dx <= 65535 && 0 <= c.y + dy <= 65535
}

/// Every anchor and corner of the element stays in range when moved by `(dx, dy)`.
pub open spec fn moves_within(v: ElementView, dx: i32, dy: i32) -> bool {
    match v {
        ElementView::Line { segments, bounds, .. } => {
            &&& shifts_within(bounds.min, dx, dy) && shifts_within(bounds.max, dx, dy)
            &&& forall|i: int| 0 <= i < segments.len() ==> shifts_within(#[trigger] segments[i].start, dx, dy)
        },
        ElementView::Arrow { segments, bounds, .. } => {
            &&& shifts_within(bounds.min, dx, dy) && shifts_within(bounds.max, dx, dy)
            &&& forall|i: int| 0 <= i < segments.len() ==> shifts_within(#[trigger] segments[i].start, dx, dy)
        },
        ElementView::Rectangle { start, bounds, .. } =>
            shifts_within(start, dx, dy) && shifts_within(bounds.min, dx, dy) && shifts_within(bounds.max, dx, dy),
        ElementView::Table { start, bounds, .. } =>
            shifts_within(start, dx, dy) && shifts_within(bounds.min, dx, dy) && shifts_within(bounds.max, dx, dy),
        ElementView::Text { position, bounds, .. } =>
            shifts_within(position, dx, dy) && shifts_within(bounds.min, dx, dy) && shifts_within(bounds.max, dx, dy),
    }
}

/// Moving an element by `(dx, dy)` and back by `(-dx, -dy)` gives it back,
/// when the first move stays in range.
pub proof fn lemma_translate_back(v: ElementView, dx: i32, dy: i32, back_x: i32, back_y: i32)
    requires
        back_x == -dx,
        back_y == -dy,
        moves_within(v, dx, dy),
    ensures
        translated_view(translated_view(v, dx, dy), back_x, back_y) == v,
{
    match v {
        ElementView::Line { id, name, segments, bounds } => {
            let moved = segments.map_values(|s: Segment| segment_translated(s, dx, dy));
            let back = moved.map_values(|s: Segment| segment_translated(s, back_x, back_y));
            assert forall|i: int| 0 <= i < segments.len() implies #[trigger] back[i] == segments[i] by {
                assert(shifts_within(segments[i].start, dx, dy));
            }
            assert(back =~= segments);
        },
        ElementView::Arrow { id, name, segments, bounds } => {
            let moved = segments.map_values(|s: Segment| segment_translated(s, dx, dy));
            let back = moved.map_values(|s: Segment| segment_translated(s, back_x, back_y));
            assert forall|i: int| 0 <= i < segments.len() implies #[trigger] back[i] == segments[i] by {
                assert(shifts_within(segments[i].start, dx, dy));
            }
            assert(back =~= segments);
        },
        _ => {},
    }
}

} // verus!
