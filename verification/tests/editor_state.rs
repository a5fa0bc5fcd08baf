use textdraw::events::global::GlobalHandler;
use textdraw::events::types::{KeyCode, KeyEvent, KeyModifiers};
use textdraw::events::{ActionType, EventResult};
use textdraw::state::command::{CommandAction, CommandExecutor, CommandState, FileRequest};
use textdraw::state::file::FileState;
use textdraw::state::help::HelpState;
use textdraw::state::AppState;
use textdraw::tools::Tool;
use textdraw::types::{Panel, Rect, SelectionMode, UILayout};

fn parse(line: &str) -> CommandAction {
    let mut c = CommandState::new();
    c.enter_with(line);
    c.parse()
}

fn key(code: KeyCode) -> KeyEvent {
    KeyEvent::new(code)
}

#[test]
fn save_command_adds_extension() {
    assert!(matches!(parse("save foo"), CommandAction::Save(p) if p == "foo.textdraw"));
    assert!(matches!(parse("w foo.textdraw"), CommandAction::Save(p) if p == "foo.textdraw"));
    assert!(matches!(parse("s my file"), CommandAction::Save(p) if p == "my file.textdraw"));
}

#[test]
fn save_without_name_saves_current() {
    assert!(matches!(parse("save"), CommandAction::SaveCurrent));
    assert!(matches!(parse("  w  "), CommandAction::SaveCurrent));
}

#[test]
fn open_command() {
    assert!(matches!(parse("open d"), CommandAction::Open(p) if p == "d.textdraw"));
    assert!(matches!(parse("e  a   b "), CommandAction::Open(p) if p == "a b.textdraw"));
    assert!(matches!(parse("o"), CommandAction::Message(m) if m == "No filename specified"));
}

#[test]
fn quit_and_unknown_commands_give_messages() {
    assert!(matches!(parse("q"), CommandAction::Message(m) if m == "Use 'q' key to quit"));
    assert!(matches!(parse("quit"), CommandAction::Message(m) if m == "Use 'q' key to quit"));
    assert!(matches!(parse("xyz 1"), CommandAction::Message(m) if m == "Unknown command: xyz"));
}

#[test]
fn blank_or_inactive_command_does_nothing() {
    assert!(matches!(parse("   "), CommandAction::NoAction));
    let c = CommandState::new();
    assert!(matches!(c.parse(), CommandAction::NoAction));
}

#[test]
fn executor_turns_actions_into_file_work() {
    let mut f = FileState::new();
    let r = CommandExecutor::execute(CommandAction::Save(String::from("a.textdraw")), &mut f);
    assert!(matches!(r, FileRequest::Save(p) if p == "a.textdraw"));
    let r = CommandExecutor::execute(CommandAction::SaveCurrent, &mut f);
    assert!(matches!(r, FileRequest::Nothing));
    assert_eq!(f.status_message.as_deref(), Some("No filename specified"));
    f.saved_to("b.textdraw");
    let r = CommandExecutor::execute(CommandAction::SaveCurrent, &mut f);
    assert!(matches!(r, FileRequest::Save(p) if p == "b.textdraw"));
    let r = CommandExecutor::execute(CommandAction::Message(String::from("hi")), &mut f);
    assert!(matches!(r, FileRequest::Nothing));
    assert_eq!(f.status_message.as_deref(), Some("hi"));
}

#[test]
fn file_state_messages() {
    let mut f = FileState::new();
    f.saved_to("x.textdraw");
    assert_eq!(f.current_file.as_deref(), Some("x.textdraw"));
    assert_eq!(f.status_message.as_deref(), Some("Saved to x.textdraw"));
    f.loaded_from("y.textdraw", true);
    assert_eq!(f.status_message.as_deref(), Some("Loaded from y.textdraw"));
    f.failed("boom");
    assert_eq!(f.status_message.as_deref(), Some("Error: boom"));
    assert_eq!(f.current_file.as_deref(), Some("y.textdraw"));
}

#[test]
fn help_toggle_and_scroll() {
    let mut h = HelpState::new();
    h.toggle();
    assert!(h.show);
    let layout = UILayout::default();
    h.scroll_down(&layout, 40);
    assert_eq!(h.scroll, 1);
    h.scroll_up();
    h.scroll_up();
    assert_eq!(h.scroll, 0);
    assert_eq!(h.max_scroll(10, 40), 32);
    assert_eq!(h.max_scroll(50, 40), 0);
}

#[test]
fn global_keys() {
    let mut s = AppState::new();
    let mut g = GlobalHandler;
    let (r, _) = g.handle_key_event(&mut s, &key(KeyCode::Char('q')));
    assert_eq!(r, EventResult::Action(ActionType::Quit));
    let (r, _) = g.handle_key_event(&mut s, &key(KeyCode::Char('?')));
    assert_eq!(r, EventResult::Consumed);
    assert!(s.show_help);
    let (r, _) = g.handle_key_event(&mut s, &key(KeyCode::Esc));
    assert_eq!(r, EventResult::Consumed);
    assert!(!s.show_help);
    let (r, _) = g.handle_key_event(&mut s, &key(KeyCode::Char('1')));
    assert_eq!(r, EventResult::Consumed);
    assert_eq!(s.active_panel, Panel::Tools);
    let (r, _) = g.handle_key_event(&mut s, &key(KeyCode::Char('r')));
    assert_eq!(r, EventResult::Consumed);
    assert_eq!(s.tool.selected_tool, Tool::Rectangle);
    let (r, _) = g.handle_key_event(&mut s, &key(KeyCode::Char('z')));
    assert_eq!(r, EventResult::Ignored);
}

#[test]
fn command_line_typing_and_enter() {
    let mut s = AppState::new();
    let mut g = GlobalHandler;
    g.handle_key_event(&mut s, &key(KeyCode::Char(':')));
    assert!(s.is_command_mode_active());
    for c in "save pic".chars() {
        let (r, _) = g.handle_key_event(&mut s, &key(KeyCode::Char(c)));
        assert_eq!(r, EventResult::Consumed);
    }
    assert_eq!(s.command.buffer, "save pic");
    g.handle_key_event(&mut s, &key(KeyCode::Backspace));
    assert_eq!(s.command.buffer, "save pi");
    let (r, req) = g.handle_key_event(&mut s, &key(KeyCode::Enter));
    assert_eq!(r, EventResult::Consumed);
    assert!(matches!(req, FileRequest::Save(p) if p == "pi.textdraw"));
    assert!(!s.is_command_mode_active());
}

#[test]
fn control_s_prefills_save() {
    let mut s = AppState::new();
    let mut g = GlobalHandler;
    let ctrl = KeyEvent { code: KeyCode::Char('s'), modifiers: KeyModifiers { shift: false, control: true, alt: false } };
    let (r, _) = g.handle_key_event(&mut s, &ctrl);
    assert_eq!(r, EventResult::Consumed);
    assert!(s.is_command_mode_active());
    assert_eq!(s.command.buffer, "save ");
}

#[test]
fn esc_leaves_command_mode_and_clears_message() {
    let mut s = AppState::new();
    s.file.set_status_message(String::from("old"));
    s.enter_command_mode();
    s.exit_command_mode();
    assert!(!s.is_command_mode_active());
    assert!(s.file.status_message.is_none());
}

#[test]
fn drawing_a_rectangle_through_the_app() {
    let mut s = AppState::new();
    s.select_tool(Tool::Rectangle);
    assert!(!s.is_drawing());
    s.start_drawing(1, 1);
    assert!(s.is_drawing());
    s.update_drawing(4, 3);
    assert!(!s.get_preview_points().is_empty());
    let created = s.finish_drawing(4, 3);
    assert!(created);
    assert_eq!(s.canvas.elements().len(), 1);
    assert_eq!(s.canvas.render_text(), "┌──┐\n│  │\n└──┘\n");
}

#[test]
fn drawing_a_line_through_the_app() {
    let mut s = AppState::new();
    s.select_tool(Tool::Line);
    s.start_drawing(0, 0);
    s.update_drawing(3, 0);
    assert!(s.finish_drawing(3, 0));
    assert_eq!(s.canvas.render_text(), "────\n");
}

#[test]
fn drag_select_then_move_and_delete() {
    let mut s = AppState::new();
    s.select_tool(Tool::Rectangle);
    s.start_drawing(2, 2);
    s.update_drawing(4, 4);
    s.finish_drawing(4, 4);
    s.select_tool(Tool::Select);
    s.start_selection(0, 0);
    s.update_selection(10, 10);
    s.finish_selection(10, 10);
    assert_eq!(s.get_selected_element_ids(), &[0]);
    assert_eq!(s.selection_state.mode, SelectionMode::Selected);
    s.move_selected_elements(1, 0);
    assert_eq!(s.canvas.find_element_at(3, 2), Some(0));
    s.delete_selected_elements();
    assert!(s.canvas.is_empty());
    assert!(s.get_selected_element_ids().is_empty());
}

#[test]
fn toggling_twice_restores_the_selection() {
    let mut s = AppState::new();
    s.select_tool(Tool::Rectangle);
    s.start_drawing(0, 0);
    s.update_drawing(2, 2);
    s.finish_drawing(2, 2);
    s.select_tool(Tool::Select);
    s.toggle_selection_at(0, 0);
    assert_eq!(s.get_selected_element_ids(), &[0]);
    s.toggle_selection_at(0, 0);
    assert!(s.get_selected_element_ids().is_empty());
}

#[test]
fn moving_a_selection_by_drag() {
    let mut s = AppState::new();
    s.select_tool(Tool::Rectangle);
    s.start_drawing(0, 0);
    s.update_drawing(2, 2);
    s.finish_drawing(2, 2);
    s.select_tool(Tool::Select);
    s.toggle_selection_at(0, 0);
    s.start_move_selection(1, 1);
    assert_eq!(s.selection_state.mode, SelectionMode::Moving);
    s.update_move_selection(4, 2);
    assert_eq!(s.get_move_offset(), Some((3, 1)));
    s.finish_move_selection();
    assert_eq!(s.canvas.find_element_at(3, 1), Some(0));
    assert_eq!(s.selection_state.mode, SelectionMode::Selected);
}

#[test]
fn welcome_shows_until_the_user_acts() {
    let mut s = AppState::new();
    assert!(s.should_show_welcome());
    s.mark_user_action();
    assert!(!s.should_show_welcome());
}

#[test]
fn tools_cycle() {
    let mut s = AppState::new();
    s.select_next_tool();
    assert_eq!(s.tool.selected_tool, Tool::Line);
    s.select_prev_tool();
    s.select_prev_tool();
    assert_eq!(s.tool.selected_tool, Tool::Text);
    assert_eq!(Tool::from_key('a'), Some(Tool::Arrow));
    assert_eq!(Tool::from_key('x'), None);
    assert_eq!(Tool::Rectangle.name(), "Rectangle");
    assert_eq!(Tool::max_name_len(), 9);
}

#[test]
fn moving_a_selection_and_back_restores_the_drawing() {
    let mut s = AppState::new();
    s.select_tool(Tool::Rectangle);
    s.start_drawing(2, 2);
    s.update_drawing(5, 4);
    s.finish_drawing(5, 4);
    s.select_tool(Tool::Select);
    s.toggle_selection_at(2, 2);
    let before = s.canvas.render_text();
    let bounds = s.canvas.bounds();
    s.move_selected_elements(3, -1);
    assert_eq!(s.canvas.bounds(), (bounds.0 + 3, bounds.1 - 1, bounds.2 + 3, bounds.3 - 1));
    s.move_selected_elements(-3, 1);
    assert_eq!(s.canvas.render_text(), before);
    assert_eq!(s.canvas.bounds(), bounds);
}

#[test]
fn saving_and_loading_keeps_the_drawing() {
    let mut s = AppState::new();
    s.select_tool(Tool::Text);
    s.start_drawing(1, 1);
    s.add_text_char('h');
    s.add_text_char('i');
    assert!(s.finish_text_input());
    let file = s.canvas.save_to_file();
    let mut t = AppState::new();
    t.load_from_file_silent("x.textdraw", file);
    assert_eq!(t.canvas.render_text(), "hi \n");
    assert_eq!(t.canvas.next_id(), s.canvas.next_id());
    assert_eq!(t.file.current_file.as_deref(), Some("x.textdraw"));
    assert!(t.file.status_message.is_none());
}

#[test]
fn screen_layout_keeps_last_row_for_status() {
    let l = UILayout::for_screen(Rect { x: 0, y: 0, width: 80, height: 24 });
    assert_eq!(l.canvas, Rect { x: 0, y: 0, width: 80, height: 23 });
    assert_eq!(l.statusbar, Rect { x: 0, y: 23, width: 80, height: 1 });
    let empty = UILayout::for_screen(Rect { x: 0, y: 0, width: 10, height: 0 });
    assert_eq!(empty.canvas.height, 0);
    assert_eq!(empty.statusbar.height, 0);
}
