use textdraw::components::canvas::CanvasComponent;
use textdraw::events::dispatch::{dispatch_key, dispatch_mouse, handle_event, Components, Event};
use textdraw::events::types::{KeyCode, KeyEvent, KeyModifiers, MouseButton, MouseEvent, MouseEventKind};
use textdraw::events::{settle, ActionType, EventResult};
use textdraw::state::command::FileRequest;
use textdraw::state::AppState;
use textdraw::tools::Tool;
use textdraw::types::{Panel, Rect, UILayout};

fn key_event(c: char) -> KeyEvent {
    KeyEvent::new(KeyCode::Char(c))
}

fn mouse_down_at(column: u16, row: u16) -> MouseEvent {
    MouseEvent {
        column,
        row,
        kind: MouseEventKind::Down(MouseButton::Left),
        modifiers: KeyModifiers { shift: false, control: false, alt: false },
    }
}

fn mouse_down() -> MouseEvent {
    mouse_down_at(0, 0)
}

fn with_canvas(width: u16, height: u16) -> AppState {
    let mut state = AppState::new();
    state.layout = UILayout {
        canvas: Rect { x: 0, y: 0, width, height },
        tools: Rect { x: 0, y: 0, width: 0, height: 0 },
        elements: Rect { x: 0, y: 0, width: 0, height: 0 },
        statusbar: Rect { x: 0, y: 0, width: 0, height: 0 },
    };
    state
}

#[test]
fn test_event_chain_all_ignore() {
    let mut state = AppState::new();
    let mut c = Components::new();
    let (result, request) = dispatch_key(&mut state, &mut c, &key_event('z'));
    assert_eq!(result, false);
    assert!(matches!(request, FileRequest::Nothing));
    assert_eq!(state.tool.selected_tool, Tool::Select);
    assert!(!state.show_help);
}

#[test]
fn test_event_chain_first_consumes() {
    // The help modal comes first and takes `j`; the tools modal after it
    // would move to the next tool on `j`.
    let mut state = AppState::new();
    state.show_help = true;
    state.show_tools_modal = true;
    state.active_panel = Panel::Tools;
    let mut c = Components::new();
    let (result, _) = dispatch_key(&mut state, &mut c, &key_event('j'));
    assert_eq!(result, false);
    assert!(state.show_help, "First handler should be called");
    assert_eq!(state.tool.tool_index, 0, "Second handler should NOT be called (propagation stopped)");
}

#[test]
fn test_event_chain_second_consumes() {
    let mut state = AppState::new();
    state.show_tools_modal = true;
    state.active_panel = Panel::Tools;
    let mut c = Components::new();
    let (result, _) = dispatch_key(&mut state, &mut c, &key_event('j'));
    assert_eq!(result, false);
    assert_eq!(state.tool.tool_index, 1, "Second handler should be called");
    assert_eq!(state.tool.selected_tool, Tool::Line);
}

#[test]
fn test_event_chain_quit_action() {
    let mut state = AppState::new();
    let mut c = Components::new();
    let (result, _) = dispatch_key(&mut state, &mut c, &key_event('q'));
    assert_eq!(result, true);
}

#[test]
fn test_event_chain_quit_action_stops_propagation() {
    // With the tools modal shown but another panel active, `q` passes the
    // modal and reaches the global handler, which quits and changes nothing.
    let mut state = AppState::new();
    state.show_tools_modal = true;
    let mut c = Components::new();
    let (result, request) = dispatch_key(&mut state, &mut c, &key_event('q'));
    assert_eq!(result, true);
    assert!(matches!(request, FileRequest::Nothing));
    assert!(state.show_tools_modal, "Nothing should act after quitting (quit stopped propagation)");
    assert!(!state.is_command_mode_active());
}

#[test]
fn test_mouse_event_chain_consumes() {
    // A press on the Rectangle line of the tools modal: the modal, first in
    // the chain, takes it; the global handler would make the canvas active.
    let mut state = with_canvas(80, 30);
    state.show_tools_modal = true;
    let mut c = Components::new();
    let result = dispatch_mouse(&mut state, &mut c, &mouse_down_at(5, 19));
    assert_eq!(result, false);
    assert_eq!(state.tool.selected_tool, Tool::Rectangle, "First handler should be called");
    assert_eq!(state.active_panel, Panel::Tools, "Second handler should NOT be called (propagation stopped)");
}

#[test]
fn test_mouse_event_chain_all_ignore() {
    let mut state = AppState::new();
    let mut c = Components::new();
    let result = dispatch_mouse(&mut state, &mut c, &mouse_down());
    assert_eq!(result, false);
    assert_eq!(state.active_panel, Panel::Canvas);
}

#[test]
fn settle_follows_the_answer() {
    assert_eq!(settle(EventResult::Ignored), None);
    assert_eq!(settle(EventResult::Consumed), Some(false));
    assert_eq!(settle(EventResult::Action(ActionType::Quit)), Some(true));
    assert_eq!(settle(EventResult::Action(ActionType::FinishedDrawing)), Some(false));
}

#[test]
fn command_mode_takes_every_key() {
    let mut state = AppState::new();
    state.enter_command_mode();
    let mut c = Components::new();
    let (result, request) = dispatch_key(&mut state, &mut c, &key_event('q'));
    assert_eq!(result, false);
    assert!(matches!(request, FileRequest::Nothing));
    assert!(state.is_command_mode_active());
    assert_eq!(state.command.buffer, "q");
    assert_eq!(state.tool.selected_tool, Tool::Select);
    assert!(!state.show_help);
}

#[test]
fn tools_modal_escape_keeps_tool() {
    let mut state = AppState::new();
    state.toggle_tools_modal();
    state.switch_panel(Panel::Tools);
    let mut c = Components::new();
    let (r1, _) = dispatch_key(&mut state, &mut c, &key_event('r'));
    assert_eq!(r1, false);
    assert_eq!(state.tool.selected_tool, Tool::Rectangle);
    let (r2, _) = dispatch_key(&mut state, &mut c, &KeyEvent::new(KeyCode::Esc));
    assert_eq!(r2, false);
    assert!(!state.show_tools_modal);
    assert_eq!(state.active_panel, Panel::Canvas);
    assert_eq!(state.tool.selected_tool, Tool::Rectangle);
}

#[test]
fn border_click_gives_no_cell() {
    let state = with_canvas(10, 6);
    let c = CanvasComponent::new();
    assert_eq!(c.to_canvas_coords(&state, 0, 3), None);
    assert_eq!(c.to_canvas_coords(&state, 4, 0), None);
    assert_eq!(c.to_canvas_coords(&state, 9, 3), None);
    assert_eq!(c.to_canvas_coords(&state, 4, 5), None);
    assert_eq!(c.to_canvas_coords(&state, 1, 1), Some((0, 0)));
    assert_eq!(c.to_canvas_coords(&state, 8, 4), Some((7, 3)));
    assert_eq!(c.to_canvas_coords(&state, 10, 3), None);
}

#[test]
fn handle_event_routes_by_kind() {
    let mut state = AppState::new();
    let mut c = Components::new();
    let (quit, request) = handle_event(&Event::Key(key_event('q')), &mut c, &mut state);
    assert!(quit);
    assert!(matches!(request, FileRequest::Nothing));
    let (quit, _) = handle_event(&Event::Mouse(mouse_down()), &mut c, &mut state);
    assert!(!quit);
    let (quit, _) = handle_event(&Event::Other, &mut c, &mut state);
    assert!(!quit);
    let (quit, _) = handle_event(&Event::Key(key_event('?')), &mut c, &mut state);
    assert!(!quit);
    assert!(state.show_help);
}
