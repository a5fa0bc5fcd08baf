use textdraw::components::canvas::CanvasComponent;
use textdraw::components::canvas_frame::{pick_look, title_for, CellLayers};
use textdraw::components::help::HelpModal;
use textdraw::components::help_line::{help_lines, HelpLine};
use textdraw::components::inputs::choice::ChoiceInput;
use textdraw::components::inputs::numeric::{parse_digits, NumericInput};
use textdraw::components::panels::tools::{detect_tool_click, is_lock_click, render_lock_line, render_tool_line, ToolsPanel};
use textdraw::components::statusbar::{center, get_mode_badge, BadgeKind, StatusBar, StatusTone};
use textdraw::components::table_editor::{handle_edit_table_key, insert_char_at, remove_char_at, try_enter_edit_table_mode};
use textdraw::elements::properties::PropertyValue;
use textdraw::elements::table::TableElement;
use textdraw::elements::Element;
use textdraw::events::types::{KeyCode, KeyEvent};
use textdraw::events::EventResult;
use textdraw::input::{detect_panel_click, is_inside};
use textdraw::state::AppState;
use textdraw::styles::{Hue, Look};
use textdraw::tools::Tool;
use textdraw::types::{Coord, Panel, Rect, UILayout};
use textdraw::utils::ModalArea;

fn texts(runs: &[textdraw::styles::Styled]) -> Vec<String> {
    runs.iter().map(|r| r.text.clone()).collect()
}

fn key(code: KeyCode) -> KeyEvent {
    KeyEvent::new(code)
}

#[test]
fn help_has_forty_lines() {
    assert_eq!(help_lines().len(), 40);
}

#[test]
fn key_binding_line_pads_the_key_column() {
    let l = HelpLine::KeyBinding { key: "q", desc: "Quit" }.to_line();
    assert_eq!(texts(&l), vec![String::from("  q          "), String::from("Quit")]);
    assert_eq!(l[0].look, Look { fg: Some(Hue::Cyan), bg: None, bold: false });
}

#[test]
fn command_help_line_columns() {
    let l = HelpLine::Command { cmd: ":save", args: "<file>", aliases: vec![":w", ":s"], desc: "Save diagram" }.to_line();
    assert_eq!(texts(&l), vec![
        String::from("  :save <file>      "),
        String::from("Save diagram      "),
        String::from(":w, :s"),
    ]);
    assert_eq!(l[2].look.fg, Some(Hue::DarkGray));
}

#[test]
fn title_and_header_lines() {
    let t = HelpLine::Title("TextDraw").to_line();
    assert_eq!(t[0].look, Look { fg: Some(Hue::Green), bg: None, bold: true });
    let h = HelpLine::CommandHeader.to_line();
    assert_eq!(texts(&h), vec![
        String::from("  Command           "),
        String::from("Description       "),
        String::from("Alias"),
    ]);
    assert_eq!(texts(&HelpLine::Blank.to_line()), vec![String::new()]);
}

#[test]
fn centering_puts_the_extra_blank_right() {
    assert_eq!(center("Select", 9), " Select  ");
    assert_eq!(center("Rectangle", 9), "Rectangle");
    assert_eq!(center("EDIT TABLE", 9), "EDIT TABLE");
}

#[test]
fn mode_badge() {
    let s = AppState::new();
    let (text, kind) = get_mode_badge(&s);
    assert_eq!(text, "  Select   ");
    assert_eq!(kind, BadgeKind::Select);
}

#[test]
fn status_bar_default_line() {
    let mut s = AppState::new();
    s.update_cursor(3, 12);
    let (left, right) = StatusBar::new().draw(&s);
    assert_eq!(left[0].text, " ");
    assert_eq!(left[1].tone, StatusTone::Badge(BadgeKind::Select));
    let labels: Vec<String> = left.iter().filter(|r| r.tone == StatusTone::Hint).map(|r| r.text.clone()).collect();
    assert_eq!(labels, vec![String::from("Space"), String::from("?"), String::from("q")]);
    assert_eq!(right.len(), 1);
    assert_eq!(right[0].text, "Cursor: (3, 12) ");
}

#[test]
fn status_bar_shows_messages() {
    let mut s = AppState::new();
    s.file.set_status_message(String::from("Error: nope"));
    let (left, right) = StatusBar::new().draw(&s);
    assert_eq!(left.len(), 1);
    assert_eq!(left[0].text, " Error: nope");
    assert_eq!(left[0].tone, StatusTone::Error);
    assert!(right.is_empty());
    s.file.set_status_message(String::from("Saved to a"));
    let (left, _) = StatusBar::new().draw(&s);
    assert_eq!(left[0].tone, StatusTone::Success);
}

#[test]
fn status_bar_command_line() {
    let mut s = AppState::new();
    s.enter_command_mode_with("save my file");
    let (left, _) = StatusBar::new().draw(&s);
    let t: Vec<String> = left.iter().map(|r| r.text.clone()).collect();
    assert_eq!(t, vec![String::from(" "), String::from(":save"), String::from(" my file"), String::from("█")]);
    assert_eq!(left[1].tone, StatusTone::Command);
}

#[test]
fn tools_modal_lines() {
    let l = render_tool_line(Tool::Line, true);
    assert_eq!(texts(&l), vec![String::from("  l "), String::from("Line"), " ".repeat(15)]);
    assert_eq!(l[1].look, Look { fg: Some(Hue::Yellow), bg: Some(Hue::DarkGray), bold: false });
    let lock = render_lock_line(true);
    assert_eq!(texts(&lock), vec![String::from("[x]"), String::from(" Lock tool")]);
    assert_eq!(detect_tool_click(1), Some(Tool::Line));
    assert_eq!(detect_tool_click(5), None);
    assert!(is_lock_click(7));
}

#[test]
fn tools_modal_draws_only_when_shown() {
    let mut s = AppState::new();
    assert!(ToolsPanel.draw(&s).is_none());
    s.toggle_tools_modal();
    let (_, lines, _) = ToolsPanel.draw(&s).unwrap();
    assert_eq!(lines.len(), 9);
    assert_eq!(lines[7][0].text, "─".repeat(23));
}

#[test]
fn cell_look_priorities() {
    let base = CellLayers {
        cursor: false,
        welcome: None,
        selection_box: None,
        preview: None,
        edit: None,
        element: Some(('x', true)),
        highlighted: false,
    };
    let l = pick_look(true, false, &base);
    assert_eq!(l.ch, 'x');
    assert_eq!(l.look.fg, Some(Hue::Yellow));
    let l = pick_look(false, false, &base);
    assert_eq!(l.look.fg, Some(Hue::DarkGray));
    let l = pick_look(true, false, &CellLayers { preview: Some('p'), ..base });
    assert_eq!(l.ch, 'p');
    let l = pick_look(true, false, &CellLayers { cursor: true, ..base });
    assert_eq!(l.ch, '█');
    let l = pick_look(true, true, &CellLayers { element: None, highlighted: true, ..base });
    assert_eq!(l.ch, ' ');
    assert_eq!(l.look.bg, Some(Hue::Blue));
}

#[test]
fn canvas_frame_shows_elements_and_cursor() {
    let mut s = AppState::new();
    s.layout.canvas = Rect { x: 0, y: 0, width: 8, height: 6 };
    s.mark_user_action();
    s.select_tool(Tool::Rectangle);
    s.start_drawing(1, 1);
    s.update_drawing(3, 2);
    s.finish_drawing(3, 2);
    s.select_tool(Tool::Select);
    s.update_cursor(5, 3);
    let rows = CanvasComponent::new().draw(&s);
    assert_eq!(rows.len(), 4);
    assert_eq!(rows[0].len(), 6);
    let line: String = rows[1].iter().map(|c| c.ch).collect();
    assert_eq!(line, " ┌─┐  ");
    assert_eq!(rows[3][5].ch, '█');
    assert_eq!(rows[1][1].look.fg, Some(Hue::White));
}

#[test]
fn canvas_title() {
    let mut s = AppState::new();
    assert_eq!(CanvasComponent::new().title(&s), "Canvas");
    s.file.saved_to("dir/pic.textdraw");
    assert_eq!(CanvasComponent::new().title(&s), "Canvas ─── pic.textdraw ───");
    assert_eq!(title_for("a"), "Canvas ─── a ───");
}

#[test]
fn choice_input_cycles_and_renders() {
    let options = vec![String::from("Single"), String::from("Double"), String::from("Bold")];
    let mut c = ChoiceInput::new("border_style", "Border", options);
    c.set_focused(true);
    let current = PropertyValue::Choice(String::from("Single"));
    let (r, v) = c.handle_key_event(&key(KeyCode::Enter), &current);
    assert_eq!(r, EventResult::Consumed);
    assert!(v.is_none());
    assert!(c.is_editing());
    let (_, v) = c.handle_key_event(&key(KeyCode::Right), &current);
    assert!(matches!(v, Some(PropertyValue::Choice(s)) if s == "Double"));
    let line = c.render_line(&current);
    assert_eq!(line[0].text, "  Border: ");
    assert_eq!(line[1].text, "< Double >");
    let (_, v) = c.handle_key_event(&key(KeyCode::Left), &current);
    let (_, v2) = c.handle_key_event(&key(KeyCode::Left), &current);
    assert!(matches!(v, Some(PropertyValue::Choice(s)) if s == "Single"));
    assert!(matches!(v2, Some(PropertyValue::Choice(s)) if s == "Bold"));
    let (_, v) = c.handle_key_event(&key(KeyCode::Esc), &current);
    assert!(v.is_none());
    assert!(!c.is_editing());
}

#[test]
fn numeric_input_parses_and_clamps() {
    assert_eq!(parse_digits("123"), Some(123));
    assert_eq!(parse_digits(""), None);
    assert_eq!(parse_digits("12a"), None);
    assert_eq!(parse_digits("70000"), None);
    let mut n = NumericInput::new("width", "Width", 1, 50);
    n.set_focused(true);
    let current = PropertyValue::Numeric(7);
    assert_eq!(n.display_value(&current), "7");
    n.handle_key_event(&key(KeyCode::Enter), &current);
    assert!(n.is_editing());
    n.handle_key_event(&key(KeyCode::Char('9')), &current);
    assert_eq!(n.display_value(&current), "79▎");
    let (r, v) = n.handle_key_event(&key(KeyCode::Enter), &current);
    assert_eq!(r, EventResult::Consumed);
    assert!(matches!(v, Some(PropertyValue::Numeric(50))));
}

#[test]
fn editing_a_table_cell() {
    let mut s = AppState::new();
    s.canvas.add_element(Element::Table(TableElement::new(0, Coord { x: 0, y: 0 }, 2, 2)));
    s.toggle_selection_at(1, 1);
    assert_eq!(try_enter_edit_table_mode(&mut s), EventResult::Consumed);
    assert!(s.is_editing_table());
    handle_edit_table_key(&mut s, &key(KeyCode::Down));
    handle_edit_table_key(&mut s, &key(KeyCode::Enter));
    handle_edit_table_key(&mut s, &key(KeyCode::Char('!')));
    handle_edit_table_key(&mut s, &key(KeyCode::Enter));
    let t = match s.canvas.get_element(0) {
        Some(Element::Table(t)) => t.cell_at(1, 0),
        _ => String::new(),
    };
    assert_eq!(t, "Cell 1!");
    handle_edit_table_key(&mut s, &key(KeyCode::Enter));
    handle_edit_table_key(&mut s, &key(KeyCode::Char('?')));
    handle_edit_table_key(&mut s, &key(KeyCode::Esc));
    let t = match s.canvas.get_element(0) {
        Some(Element::Table(t)) => t.cell_at(1, 0),
        _ => String::new(),
    };
    assert_eq!(t, "Cell 1!");
    handle_edit_table_key(&mut s, &key(KeyCode::Esc));
    assert!(!s.is_editing_table());
}

#[test]
fn char_editing_helpers() {
    let s = String::from("héllo");
    assert_eq!(insert_char_at(&s, 2, 'X'), "héXllo");
    assert_eq!(remove_char_at(&s, 1), "hllo");
}

#[test]
fn panel_clicks() {
    let layout = UILayout {
        canvas: Rect { x: 0, y: 0, width: 10, height: 10 },
        tools: Rect { x: 10, y: 0, width: 5, height: 5 },
        elements: Rect { x: 10, y: 5, width: 5, height: 5 },
        statusbar: Rect { x: 0, y: 10, width: 15, height: 1 },
    };
    assert_eq!(detect_panel_click(Coord { x: 3, y: 3 }, &layout), Some(Panel::Canvas));
    assert_eq!(detect_panel_click(Coord { x: 11, y: 6 }, &layout), Some(Panel::Elements));
    assert!(is_inside(Coord { x: 9, y: 9 }, layout.canvas));
    assert!(!is_inside(Coord { x: 10, y: 9 }, layout.canvas));
}

#[test]
fn modal_sits_bottom_left() {
    let m = ModalArea::bottom_left(Rect { x: 0, y: 0, width: 80, height: 30 }, 25, 13);
    assert_eq!(m.rect(), Rect { x: 1, y: 16, width: 25, height: 13 });
    assert!(m.contains(1, 16));
    assert!(!m.contains(0, 16));
}

#[test]
fn canvas_frame_shows_the_welcome_text() {
    let mut s = AppState::new();
    s.layout.canvas = Rect { x: 0, y: 0, width: 80, height: 20 };
    s.switch_panel(Panel::Tools);
    let rows = CanvasComponent::new().draw(&s);
    assert_eq!(rows.len(), 18);
    let line: String = rows[4].iter().map(|c| c.ch).collect();
    assert_eq!(line.trim(), "TextDraw v0.1.0");
    assert_eq!(rows[4][31].ch, 'T');
    assert_eq!(rows[4][31].look.fg, Some(Hue::DarkGray));
    s.switch_panel(Panel::Canvas);
    let rows = CanvasComponent::new().draw(&s);
    assert_eq!(rows[4][31].look.fg, Some(Hue::Green));
    assert_eq!(rows[0][0].ch, '█');
}

#[test]
fn elements_panel_is_empty() {
    let s = AppState::new();
    let (lines, title, _) = textdraw::components::statusbar::ElementsPanel::new().draw(&s);
    assert_eq!(title, "[2]-Elements");
    assert_eq!(lines[1][0].text, "  (empty)");
}

#[test]
fn properties_panel_lists_a_rectangle() {
    let mut s = AppState::new();
    s.select_tool(Tool::Rectangle);
    s.start_drawing(0, 0);
    s.update_drawing(3, 3);
    s.finish_drawing(3, 3);
    s.select_tool(Tool::Select);
    s.toggle_selection_at(0, 0);
    let mut panel = textdraw::components::panels::properties::PropertiesPanel::new();
    let (_, lines) = panel.draw(&s).unwrap();
    assert_eq!(lines[1][0].text, "  Type: ");
    assert_eq!(lines[1][1].text, "Rectangle");
    assert_eq!(lines[2][1].text, "Rectangle 1");
    assert_eq!(lines[4][0].text, "  Position:");
    assert_eq!(lines[5][0].text, "  x: ");
    assert_eq!(lines[5][1].text, "0");
    assert_eq!(lines.last().unwrap()[1].text, "p");
}

#[test]
fn help_scrollbar_sits_inside_the_right_border() {
    let r = HelpModal::scrollbar_area(Rect { x: 10, y: 5, width: 40, height: 20 });
    assert_eq!(r, Rect { x: 49, y: 6, width: 1, height: 18 });
    let m = HelpModal::new();
    assert_eq!(m.scroll(), 0);
    assert_eq!(m.max_scroll_for_viewport(12), 30);
}

#[test]
fn properties_panel_edits_a_width() {
    let mut s = AppState::new();
    s.select_tool(Tool::Rectangle);
    s.start_drawing(0, 0);
    s.update_drawing(3, 3);
    s.finish_drawing(3, 3);
    s.select_tool(Tool::Select);
    s.toggle_selection_at(0, 0);
    s.switch_panel(Panel::Properties);
    let mut panel = textdraw::components::panels::properties::PropertiesPanel::new();
    panel.draw(&s);
    // x, y, then width
    assert_eq!(panel.handle_key_event(&mut s, &key(KeyCode::Tab)), EventResult::Consumed);
    assert_eq!(panel.handle_key_event(&mut s, &key(KeyCode::Char('j'))), EventResult::Consumed);
    assert_eq!(panel.handle_key_event(&mut s, &key(KeyCode::Enter)), EventResult::Consumed);
    panel.handle_key_event(&mut s, &key(KeyCode::Backspace));
    panel.handle_key_event(&mut s, &key(KeyCode::Char('5')));
    assert_eq!(panel.handle_key_event(&mut s, &key(KeyCode::Enter)), EventResult::Consumed);
    assert_eq!(s.canvas.render_text(), "┌────┐\n│    │\n│    │\n└────┘\n");
    assert_eq!(panel.handle_key_event(&mut s, &key(KeyCode::Char('z'))), EventResult::Ignored);
}

#[test]
fn choice_left_undoes_right_across_the_wrap() {
    let options = vec![String::from("Single"), String::from("Double"), String::from("Bold")];
    let mut c = ChoiceInput::new("border_style", "Border", options);
    c.set_focused(true);
    let current = PropertyValue::Choice(String::from("Bold"));
    c.handle_key_event(&key(KeyCode::Enter), &current);
    let (_, v) = c.handle_key_event(&key(KeyCode::Right), &current);
    assert!(matches!(v, Some(PropertyValue::Choice(s)) if s == "Single"));
    let (_, v) = c.handle_key_event(&key(KeyCode::Left), &current);
    assert!(matches!(v, Some(PropertyValue::Choice(s)) if s == "Bold"));
    let (_, v) = c.handle_key_event(&key(KeyCode::Left), &current);
    assert!(matches!(v, Some(PropertyValue::Choice(s)) if s == "Double"));
    let (_, v) = c.handle_key_event(&key(KeyCode::Right), &current);
    assert!(matches!(v, Some(PropertyValue::Choice(s)) if s == "Bold"));
}

#[test]
fn canvas_title_shows_file_name() {
    let mut s = AppState::new();
    s.file.current_file = Some(String::from("diagrams/sub/flow.textdraw"));
    assert_eq!(CanvasComponent::new().title(&s), "Canvas ─── flow.textdraw ───");
}

#[test]
fn help_modal_is_centered() {
    let r = HelpModal::centered_rect(60, 60, Rect { x: 0, y: 0, width: 100, height: 50 });
    assert_eq!(r, Rect { x: 20, y: 10, width: 60, height: 30 });
}

#[test]
fn choice_prev_undoes_next() {
    let options = vec![String::from("Single"), String::from("Double"), String::from("Bold")];
    let mut c = ChoiceInput::new("border_style", "Border", options);
    assert_eq!(c.cycle_next(), Some(String::from("Double")));
    assert_eq!(c.cycle_prev(), Some(String::from("Single")));
    assert_eq!(c.cycle_prev(), Some(String::from("Bold")));
    assert_eq!(c.cycle_next(), Some(String::from("Single")));
    let mut empty = ChoiceInput::new("border_style", "Border", Vec::new());
    assert_eq!(empty.cycle_prev(), None);
    assert_eq!(empty.cycle_next(), None);
}

#[test]
fn canvas_title_uses_last_piece() {
    let mut s = AppState::new();
    s.file.current_file = Some(String::from("/home/me/notes/plan.textdraw"));
    assert_eq!(CanvasComponent::new().title(&s), "Canvas ─── plan.textdraw ───");
    s.file.current_file = Some(String::from("a/./b"));
    assert_eq!(CanvasComponent::new().title(&s), "Canvas ─── b ───");
}
