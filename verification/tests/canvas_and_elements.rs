use textdraw::elements::borders::BorderStyle;
use textdraw::elements::properties::{PropertyError, PropertyValue};
use textdraw::elements::rectangle::RectangleElement;
use textdraw::elements::segment::Segment;
use textdraw::elements::line::LineElement;
use textdraw::elements::arrow::ArrowElement;
use textdraw::elements::text::TextElement;
use textdraw::elements::table::TableElement;
use textdraw::elements::Element;
use textdraw::file::DiagramFile;
use textdraw::state::canvas::CanvasState;
use textdraw::types::{Bounds, Coord, Direction};

fn rect(id: usize, x: u16, y: u16, w: u16, h: u16) -> Element {
    Element::Rectangle(RectangleElement::new(id, Coord { x, y }, w, h))
}

#[test]
fn rectangle_is_named_after_its_id() {
    let r = RectangleElement::new(0, Coord { x: 1, y: 2 }, 4, 3);
    assert_eq!(r.name, "Rectangle 1");
    assert_eq!(r.bounds.min, Coord { x: 1, y: 2 });
    assert_eq!(r.bounds.max, Coord { x: 5, y: 5 });
    assert_eq!(r.border_style, BorderStyle::Single);
}

#[test]
fn element_names_count_from_one() {
    let l = LineElement::new(4, vec![]);
    assert_eq!(l.name, "Line 5");
    let t = TextElement::new(9, Coord { x: 0, y: 0 }, String::from("hi"));
    assert_eq!(t.name, "Text 10");
    let a = ArrowElement::new(1, vec![]);
    assert_eq!(a.name, "Arrow 2");
}

#[test]
fn kind_names() {
    assert_eq!(rect(0, 0, 0, 1, 1).kind_name(), "Rectangle");
    let t = Element::Text(TextElement::new(0, Coord { x: 0, y: 0 }, String::from("x")));
    assert_eq!(t.kind_name(), "Text");
}

#[test]
fn border_style_names_round_trip() {
    for s in ["Single", "Double", "Bold", "Rounded", "None"] {
        let b = BorderStyle::from_str(s).unwrap();
        assert_eq!(b.as_str(), s);
    }
}

#[test]
fn border_style_rejects_unknown_names() {
    assert_eq!(BorderStyle::from_str("Dotted"), Err(PropertyError::InvalidBorderStyle("Dotted".to_string())));
}

#[test]
fn border_characters() {
    let d = BorderStyle::from_str("Double").unwrap().chars();
    assert_eq!(d.top_left, '╔');
    assert_eq!(d.horizontal, '═');
    let r = BorderStyle::from_str("Rounded").unwrap().chars();
    assert_eq!(r.bottom_right, '╯');
    assert_eq!(r.cross, '┼');
}

#[test]
fn segment_from_coords_picks_the_longer_axis() {
    let s = Segment::from_coords(Coord { x: 2, y: 2 }, Coord { x: 7, y: 4 });
    assert_eq!(s.direction, Direction::Right);
    assert_eq!(s.length, 5);
    let s = Segment::from_coords(Coord { x: 2, y: 9 }, Coord { x: 3, y: 2 });
    assert_eq!(s.direction, Direction::Up);
    assert_eq!(s.length, 7);
}

#[test]
fn empty_canvas_renders_as_empty_diagram() {
    let c = CanvasState::new();
    assert!(c.is_empty());
    assert_eq!(c.render_text(), "(empty diagram)\n");
}

#[test]
fn rectangle_renders_with_single_border() {
    let mut c = CanvasState::new();
    c.add_element(rect(0, 0, 0, 2, 2));
    assert_eq!(c.render_text(), "┌─┐\n│ │\n└─┘\n");
}

#[test]
fn later_elements_cover_earlier_ones() {
    let mut c = CanvasState::new();
    c.add_element(rect(0, 0, 0, 2, 2));
    c.add_element(Element::Text(TextElement::new(1, Coord { x: 1, y: 1 }, String::from("X"))));
    assert_eq!(c.get(1, 1), Some('X'));
    assert_eq!(c.get(0, 0), Some('┌'));
    assert_eq!(c.get(5, 5), None);
}

#[test]
fn find_element_at_returns_the_topmost() {
    let mut c = CanvasState::new();
    c.add_element(rect(3, 0, 0, 4, 4));
    c.add_element(rect(7, 0, 0, 2, 2));
    assert_eq!(c.find_element_at(0, 0), Some(7));
    assert_eq!(c.find_element_at(4, 4), Some(3));
    assert_eq!(c.find_element_at(10, 10), None);
}

#[test]
fn added_element_is_found_and_removed() {
    let mut c = CanvasState::new();
    let id = c.add_element(rect(5, 1, 1, 3, 3));
    assert_eq!(id, 5);
    assert!(c.get_element(5).is_some());
    let removed = c.remove_element(5);
    assert!(removed.is_some());
    assert!(c.get_element(5).is_none());
    assert!(c.is_empty());
    assert!(c.remove_element(5).is_none());
}

#[test]
fn next_id_counts_up() {
    let mut c = CanvasState::new();
    assert_eq!(c.get_next_id(), 0);
    assert_eq!(c.get_next_id(), 1);
    assert_eq!(c.next_id(), 2);
}

#[test]
fn bounds_cover_all_elements() {
    let mut c = CanvasState::new();
    c.add_element(rect(0, 2, 3, 2, 2));
    c.add_element(rect(1, 10, 1, 1, 1));
    assert_eq!(c.bounds(), (2, 1, 11, 5));
}

#[test]
fn translate_moves_an_element() {
    let mut c = CanvasState::new();
    c.add_element(rect(0, 2, 2, 2, 2));
    assert!(c.translate_element(0, 3, -1));
    assert_eq!(c.find_element_at(5, 1), Some(0));
    assert!(!c.translate_element(9, 1, 1));
}

#[test]
fn saved_file_holds_the_elements() {
    let mut c = CanvasState::new();
    c.get_next_id();
    c.add_element(rect(0, 2, 2, 2, 2));
    let d = c.save_to_file();
    assert_eq!(d.version, "0.1.0");
    assert_eq!(d.elements.len(), 1);
    assert_eq!(d.next_id, 1);
    let mut other = CanvasState::new();
    other.load_from_file(d);
    assert_eq!(other.next_id(), 1);
    assert_eq!(other.render_text(), c.render_text());
}

#[test]
fn diagram_file_has_version() {
    let d = DiagramFile::new(vec![], 3);
    assert_eq!(d.version, "0.1.0");
    assert_eq!(d.next_id, 3);
}

#[test]
fn rectangle_border_property_changes_rendering() {
    let mut c = CanvasState::new();
    c.add_element(rect(0, 0, 0, 2, 2));
    let r = c.set_element_property(0, "border_style", PropertyValue::Choice(String::from("Double")));
    assert_eq!(r, Some(Ok(())));
    assert_eq!(c.render_text(), "╔═╗\n║ ║\n╚═╝\n");
    let bad = c.set_element_property(0, "border_style", PropertyValue::Choice(String::from("Wavy")));
    assert_eq!(bad, Some(Err(PropertyError::InvalidBorderStyle("Wavy".to_string()))));
}

#[test]
fn new_table_has_default_cells() {
    let t = TableElement::new(0, Coord { x: 0, y: 0 }, 2, 2);
    assert_eq!(t.name, "Table 1");
    assert_eq!(t.cell_at(0, 0), "Header 1");
    assert_eq!(t.cell_at(0, 1), "Header 2");
    assert_eq!(t.cell_at(1, 0), "Cell 1");
    assert_eq!(t.cell_at(1, 1), "Cell 2");
    assert_eq!(t.cell_at(2, 0), "");
}

#[test]
fn table_cell_can_be_set() {
    let mut t = TableElement::new(0, Coord { x: 0, y: 0 }, 2, 2);
    assert!(t.set_cell(1, 1, String::from("hello")));
    assert_eq!(t.cell_at(1, 1), "hello");
    assert!(!t.set_cell(5, 1, String::from("x")));
}

#[test]
fn element_bounds_and_hit_tests() {
    let e = rect(0, 2, 2, 4, 2);
    assert_eq!(e.bounds(), Bounds { min: Coord { x: 2, y: 2 }, max: Coord { x: 6, y: 4 } });
    assert!(e.point_in_bounds(3, 3));
    assert!(e.contains_point(3, 3));
    assert!(!e.contains_point(7, 3));
    assert!(e.contains_point(2, 2));
    assert!(e.intersects_rect(0, 0, 2, 2));
    assert!(e.is_fully_inside_rect(0, 0, 10, 10));
    assert!(!e.is_fully_inside_rect(3, 0, 10, 10));
}

#[test]
fn duplicate_keeps_the_element() {
    let e = Element::Text(TextElement::new(2, Coord { x: 1, y: 1 }, String::from("abc")));
    let d = e.duplicate();
    assert_eq!(d.id(), 2);
    assert_eq!(d.name(), "Text 3");
    assert_eq!(d.render_points(), e.render_points());
}

#[test]
fn property_errors() {
    let mut c = CanvasState::new();
    c.add_element(rect(0, 0, 0, 2, 2));
    assert_eq!(c.set_element_property(0, "width", PropertyValue::Numeric(0)), Some(Err(PropertyError::WidthZero)));
    assert_eq!(c.set_element_property(0, "height", PropertyValue::Numeric(0)), Some(Err(PropertyError::HeightZero)));
    assert_eq!(c.set_element_property(0, "width", PropertyValue::Boolean(true)), Some(Err(PropertyError::NotNumeric)));
    assert_eq!(c.set_element_property(0, "border_style", PropertyValue::Numeric(1)), Some(Err(PropertyError::NotChoice)));
    assert_eq!(c.set_element_property(0, "depth", PropertyValue::Numeric(1)), Some(Err(PropertyError::UnknownProperty("depth".to_string()))));
    assert_eq!(c.set_element_property(9, "width", PropertyValue::Numeric(3)), None);
    assert_eq!(c.set_element_property(0, "width", PropertyValue::Numeric(4)), Some(Ok(())));
    assert_eq!(c.render_text(), "┌───┐\n│   │\n└───┘\n");
}

#[test]
fn table_property_errors() {
    let mut c = CanvasState::new();
    c.add_element(Element::Table(TableElement::new(0, Coord { x: 0, y: 0 }, 2, 2)));
    assert_eq!(c.set_element_property(0, "rows", PropertyValue::Numeric(0)), Some(Err(PropertyError::RowsOutOfRange)));
    assert_eq!(c.set_element_property(0, "rows", PropertyValue::Numeric(21)), Some(Err(PropertyError::RowsOutOfRange)));
    assert_eq!(c.set_element_property(0, "cols", PropertyValue::Numeric(11)), Some(Err(PropertyError::ColsOutOfRange)));
    assert_eq!(c.set_element_property(0, "body_border", PropertyValue::Choice(String::from("x"))), Some(Err(PropertyError::InvalidBorderStyle("x".to_string()))));
    assert_eq!(c.set_element_property(0, "rows", PropertyValue::Numeric(3)), Some(Ok(())));
    let rows = match c.get_element(0) {
        Some(Element::Table(t)) => t.rows,
        _ => 0,
    };
    assert_eq!(rows, 3);
}

#[test]
fn property_value_accessors() {
    assert_eq!(PropertyValue::Numeric(3).as_numeric(), Ok(3));
    assert_eq!(PropertyValue::Boolean(true).as_numeric(), Err(PropertyError::NotNumeric));
    assert_eq!(PropertyValue::Numeric(3).as_text(), Err(PropertyError::NotText));
    assert_eq!(PropertyValue::Text(String::from("a")).as_text(), Ok("a"));
    assert_eq!(PropertyValue::Numeric(3).as_choice(), Err(PropertyError::NotChoice));
    assert_eq!(PropertyValue::Numeric(3).as_boolean(), Err(PropertyError::NotBoolean));
    assert_eq!(PropertyValue::Boolean(false).as_boolean(), Ok(false));
}

#[test]
fn property_errors_name_what_was_refused() {
    let mut c = CanvasState::new();
    c.add_element(rect(0, 1, 1, 4, 3));
    let r = c.set_element_property(0, "depth", PropertyValue::Numeric(3));
    let e = r.unwrap().unwrap_err();
    assert_eq!(e.message(), "Unknown property: depth");
    assert_eq!(PropertyError::InvalidBorderStyle("Dotted".to_string()).message(), "Invalid border style: Dotted");
    assert_eq!(PropertyError::WidthZero.message(), "Width must be greater than 0");
    assert_eq!(PropertyError::RowsOutOfRange.message(), "Rows must be between 1 and 20");
}

#[test]
fn element_kind_names() {
    assert_eq!(rect(0, 0, 0, 2, 2).kind_str(), "Rectangle");
    assert_eq!(Element::Table(TableElement::new(1, Coord { x: 0, y: 0 }, 2, 2)).kind_str(), "Table");
}

#[test]
fn render_with_reversed_bounds_prints_empty_rows() {
    let mut c = CanvasState::new();
    c.add_element(Element::Text(TextElement {
        id: 0,
        name: String::from("Text 1"),
        position: Coord { x: 2, y: 0 },
        text: String::from("ab"),
        bounds: Bounds { min: Coord { x: 5, y: 0 }, max: Coord { x: 1, y: 0 } },
    }));
    assert_eq!(c.render_text(), "\n");
}

#[test]
fn table_rows_change_needs_only_the_kept_columns_to_fit() {
    let mut t = TableElement::new(0, Coord { x: 0, y: 0 }, 2, 2);
    t.rows = 30000;
    let mut c = CanvasState::new();
    c.add_element(Element::Table(t));
    assert_eq!(c.set_element_property(0, "rows", PropertyValue::Numeric(3)), Some(Ok(())));
    assert_eq!(c.set_element_property(0, "header_border", PropertyValue::Choice(String::from("Double"))), Some(Ok(())));
    let mut big = TableElement::new(1, Coord { x: 0, y: 0 }, 2, 2);
    big.rows = 30000;
    let mut d = CanvasState::new();
    d.add_element(Element::Table(big));
    assert_eq!(d.set_element_property(1, "cols", PropertyValue::Numeric(3)), None);
}
