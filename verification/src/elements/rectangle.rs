use vstd::prelude::*;
use crate::elements::borders::{all_style_names, border_chars, style_name, style_named, BorderStyle};
use crate::elements::line::RenderPoint;
use crate::elements::properties::{
    FieldTypeView, FieldView, HasProperties, PropertiesSpec, PropertyError, PropertyErrorView, PropertySection,
    PropertyValue, PropertyValueView, SectionView,
};
use crate::geometry::{box_cells, push_box};
use crate::text::str_eq;
use crate::types::{clamp_u16, Bounds, Coord};

verus! {

/// The bounds of a box from `start` spanning `width` by `height` cells, clamped.
pub open spec fn box_bounds(start: Coord, width: u16, height: u16) -> Bounds {
    Bounds {
        min: start,
        max: Coord { x: clamp_u16(start.x + width), y: clamp_u16(start.y + height) },
    }
}

/// The editable properties of a rectangle.
pub open spec fn rectangle_spec_view() -> Seq<SectionView> {
    seq![
        ("Position"@, seq![
            ("x"@, "x"@, FieldTypeView::Numeric { min: 0, max: 1000 }),
            ("y"@, "y"@, FieldTypeView::Numeric { min: 0, max: 1000 }),
        ]),
        ("Size"@, seq![
            ("width"@, "width"@, FieldTypeView::Numeric { min: 1, max: 200 }),
            ("height"@, "height"@, FieldTypeView::Numeric { min: 1, max: 200 }),
        ]),
        ("Style"@, seq![
            ("border_style"@, "border-style"@, FieldTypeView::Choice { options: all_style_names() }),
        ]),
    ]
}

/// A box drawn with a border style.
#[derive(Debug, Clone)]
pub struct RectangleElement {
    pub id: usize,
    pub name: String,
    pub start: Coord,
    pub width: u16,
    pub height: u16,
    pub bounds: Bounds,
    pub border_style: BorderStyle,
}

/// The geometry and style of a rectangle, without its identity.
pub struct RectShape {
    pub start: Coord,
    pub width: u16,
    pub height: u16,
    pub bounds: Bounds,
    pub border_style: BorderStyle,
}

pub open spec fn shape_of(r: RectangleElement) -> RectShape {
    RectShape {
        start: r.start,
        width: r.width,
        height: r.height,
        bounds: r.bounds,
        border_style: r.border_style,
    }
}

/// The value of the property `name` of `r`, if `r` has one by that name.
pub open spec fn rectangle_property(r: RectangleElement, name: Seq<char>) -> Option<PropertyValueView> {
    if name == "x"@ {
        Some(PropertyValueView::Numeric(r.start.x))
    } else if name == "y"@ {
        Some(PropertyValueView::Numeric(r.start.y))
    } else if name == "width"@ {
        Some(PropertyValueView::Numeric(r.width))
    } else if name == "height"@ {
        Some(PropertyValueView::Numeric(r.height))
    } else if name == "border_style"@ {
        Some(PropertyValueView::Choice(style_name(r.border_style)))
    } else {
        None
    }
}

pub open spec fn with_geometry(s: RectShape, start: Coord, width: u16, height: u16) -> RectShape {
    RectShape { start, width, height, bounds: box_bounds(start, width, height), border_style: s.border_style }
}

/// The shape after setting property `name` to `v`, or why it is refused.
pub open spec fn rectangle_set(s: RectShape, name: Seq<char>, v: PropertyValueView) -> Result<RectShape, PropertyErrorView> {
    if name == "x"@ {
        match v {
            PropertyValueView::Numeric(n) => Ok(with_geometry(s, Coord { x: n, y: s.start.y }, s.width, s.height)),
            _ => Err(PropertyErrorView::NotNumeric),
        }
    } else if name == "y"@ {
        match v {
            PropertyValueView::Numeric(n) => Ok(with_geometry(s, Coord { x: s.start.x, y: n }, s.width, s.height)),
            _ => Err(PropertyErrorView::NotNumeric),
        }
    } else if name == "width"@ {
        match v {
            PropertyValueView::Numeric(n) => if n == 0 {
                Err(PropertyErrorView::WidthZero)
            } else {
                Ok(with_geometry(s, s.start, n, s.height))
            },
            _ => Err(PropertyErrorView::NotNumeric),
        }
    } else if name == "height"@ {
        match v {
            PropertyValueView::Numeric(n) => if n == 0 {
                Err(PropertyErrorView::HeightZero)
            } else {
                Ok(with_geometry(s, s.start, s.width, n))
            },
            _ => Err(PropertyErrorView::NotNumeric),
        }
    } else if name == "border_style"@ {
        match v {
            PropertyValueView::Choice(c) => match style_named(c) {
                Some(b) => Ok(RectShape { border_style: b, ..s }),
                None => Err(PropertyErrorView::InvalidBorderStyle(c)),
            },
            _ => Err(PropertyErrorView::NotChoice),
        }
    } else {
        Err(PropertyErrorView::UnknownProperty(name))
    }
}

/// The cells of a rectangle: its box in its border style.
pub open spec fn rectangle_cells(r: RectangleElement) -> Seq<RenderPoint> {
    box_cells(r.start.x as int, r.start.y as int, r.start.x + r.width, r.start.y + r.height,
        border_chars(r.border_style))
}

impl RectangleElement {
    /// A rectangle named "Rectangle <id + 1>" with a single border.
    pub fn new(id: usize, start: Coord, width: u16, height: u16) -> (r: Self)
        requires
            id < usize::MAX,
        ensures
            r.id == id,
            r.name@ == "Rectangle "@ + crate::text::decimal((id + 1) as nat),
            r.start == start,
            r.width == width,
            r.height == height,
            r.bounds == box_bounds(start, width, height),
            r.border_style == BorderStyle::Single,
    {
        let name = crate::text::numbered("Rectangle ", id + 1);
        let bounds = Bounds {
            min: start,
            max: Coord { x: start.x.saturating_add(width), y: start.y.saturating_add(height) },
        };
        RectangleElement { id, name, start, width, height, bounds, border_style: BorderStyle::Single }
    }

    /// Moves the start and the bounds by `(dx, dy)`.
    pub fn translate(&mut self, dx: i32, dy: i32)
        ensures
            final(self).start == (Coord {
                x: clamp_u16(old(self).start.x + dx),
                y: clamp_u16(old(self).start.y + dy),
            }),
            final(self).bounds == crate::elements::segment::bounds_translated(old(self).bounds, dx, dy),
            final(self).id == old(self).id,
            final(self).name == old(self).name,
            final(self).width == old(self).width,
            final(self).height == old(self).height,
            final(self).border_style == old(self).border_style,
    {
        self.start.translate(dx, dy);
        self.bounds.translate(dx, dy);
    }

    /// The cells of the rectangle's border.
    pub fn render_points(&self) -> (r: Vec<RenderPoint>)
        ensures
            r@ == rectangle_cells(*self),
    {
        let left = self.start.x as i32;
        let top = self.start.y as i32;
        let right = left + self.width as i32;
        let bottom = top + self.height as i32;
        let chars = self.border_style.chars();
        let mut points: Vec<RenderPoint> = Vec::new();
        push_box(&mut points, left, top, right, bottom, chars);
        assert(points@ =~= rectangle_cells(*self));
        points
    }

    fn update_bounds(&mut self)
        ensures
            final(self).bounds == box_bounds(old(self).start, old(self).width, old(self).height),
            final(self).start == old(self).start,
            final(self).width == old(self).width,
            final(self).height == old(self).height,
            final(self).border_style == old(self).border_style,
            final(self).id == old(self).id,
            final(self).name == old(self).name,
    {
        self.bounds = Bounds {
            min: self.start,
            max: Coord {
                x: self.start.x.saturating_add(self.width),
                y: self.start.y.saturating_add(self.height),
            },
        };
    }
}

impl HasProperties for RectangleElement {
    open spec fn settable(&self, name: Seq<char>) -> bool {
        true
    }

    /// Position (x, y), size (width, height) and border style.
    fn properties_spec(&self) -> (s: PropertiesSpec)
        ensures
            s@ == rectangle_spec_view(),
    {
        let mut spec = PropertiesSpec::new();
        spec.add_section(PropertySection::new("Position").numeric("x", "x", 0, 1000).numeric("y", "y", 0, 1000));
        spec.add_section(PropertySection::new("Size").numeric("width", "width", 1, 200).numeric("height", "height", 1, 200));
        spec.add_section(PropertySection::new("Style").choice("border_style", "border-style", BorderStyle::all_options()));
        assert(spec@ =~~= rectangle_spec_view());
        spec
    }

    /// The value of the named property.
    fn get_property(&self, name: &str) -> (r: Option<PropertyValue>)
        ensures
            match rectangle_property(*self, name@) {
                Some(v) => r is Some && r->0@ == v,
                None => r is None,
            },
    {
        if str_eq(name, "x") {
            Some(PropertyValue::Numeric(self.start.x))
        } else if str_eq(name, "y") {
            Some(PropertyValue::Numeric(self.start.y))
        } else if str_eq(name, "width") {
            Some(PropertyValue::Numeric(self.width))
        } else if str_eq(name, "height") {
            Some(PropertyValue::Numeric(self.height))
        } else if str_eq(name, "border_style") {
            Some(PropertyValue::Choice(String::from_str(self.border_style.as_str())))
        } else {
            None
        }
    }

    /// Sets the named property; a refused value leaves the rectangle unchanged.
    fn set_property(&mut self, name: &str, value: PropertyValue) -> (r: Result<(), PropertyError>)
        ensures
            match rectangle_set(shape_of(*old(self)), name@, value@) {
                Ok(s) => r is Ok && shape_of(*final(self)) == s,
                Err(e) => r matches Err(x) && x@ == e && shape_of(*final(self)) == shape_of(*old(self)),
            },
            final(self).id == old(self).id,
            final(self).name == old(self).name,
    {
        if str_eq(name, "x") {
            let n = value.as_numeric()?;
            self.start.x = n;
            self.update_bounds();
        } else if str_eq(name, "y") {
            let n = value.as_numeric()?;
            self.start.y = n;
            self.update_bounds();
        } else if str_eq(name, "width") {
            let n = value.as_numeric()?;
            if n == 0 {
                return Err(PropertyError::WidthZero);
            }
            self.width = n;
            self.update_bounds();
        } else if str_eq(name, "height") {
            let n = value.as_numeric()?;
            if n == 0 {
                return Err(PropertyError::HeightZero);
            }
            self.height = n;
            self.update_bounds();
        } else if str_eq(name, "border_style") {
            let c = value.as_choice()?;
            let b = BorderStyle::from_str(c)?;
            self.border_style = b;
        } else {
            return Err(PropertyError::UnknownProperty(String::from_str(name)));
        }
        Ok(())
    }
}

/// Setting a rectangle's property and then reading it gives back the value
/// set, and every other property reads as before: when
/// `rectangle_set(shape_of(before), name, v)` accepts the change and `after`
/// has the resulting shape, `after`'s property `name` is `v` and its other
/// properties are `before`'s.
pub proof fn lemma_set_then_get(before: RectangleElement, after: RectangleElement, name: Seq<char>,
    v: PropertyValueView, other: Seq<char>)
    requires
        rectangle_set(shape_of(before), name, v) matches Ok(s) && shape_of(after) == s,
    ensures
        rectangle_property(after, name) == Some(v),
        other != name ==> rectangle_property(after, other) == rectangle_property(before, other),
{
    if name == "border_style"@ {
        if let PropertyValueView::Choice(c) = v {
            lemma_style_name_of_named(c);
        }
    }
}

/// Naming the style chosen by a name gives that name back.
proof fn lemma_style_name_of_named(c: Seq<char>)
    requires
        style_named(c) is Some,
    ensures
        style_name(style_named(c)->0) == c,
{
}

} // verus!
