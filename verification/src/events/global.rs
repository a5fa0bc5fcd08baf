use vstd::prelude::*;
use crate::events::types::{KeyCode, KeyEvent, MouseEvent};
use crate::events::{ActionType, EventResult};
use crate::input::{detect_panel_click, panel_at};
use crate::state::command::FileRequest;
use crate::state::{ran_command, same_but_command_file, tool_selected, AppState};
use crate::tools::{tool_for_key, Tool};
use crate::types::{Coord, Panel};

verus! {

/// The panel a digit key switches to.
pub open spec fn panel_for_digit(c: char) -> Option<Panel> {
    if c == '0' { Some(Panel::Canvas) }
    else if c == '1' { Some(Panel::Tools) }
    else if c == '2' { Some(Panel::Elements) }
    else if c == '3' { Some(Panel::Properties) }
    else { None }
}

/// Only the command line and the file state change; the file state stays too.
pub open spec fn command_edited(before: AppState, after: AppState) -> bool {
    same_but_command_file(before, after) && after.file == before.file
}

/// What a key does when no component took it, `before` to `after`, with the
/// result and the file work asked for. In command mode every key is taken:
/// Enter runs the command line, Esc leaves it, Backspace and characters edit
/// it. Otherwise Ctrl+S and Ctrl+O start a save or open command; `:` starts
/// command mode, `q` quits, `?` toggles help, `0`-`3` switch panels, the tool
/// keys choose tools, and Esc closes help or goes back to the select tool.
/// Keys not taken change nothing.
pub open spec fn global_key_done(before: AppState, after: AppState, key: KeyEvent, r: (EventResult, FileRequest)) -> bool {
    if before.command.active {
        &&& r.0 == EventResult::Consumed
        &&& !(key.code is Enter) ==> r.1 is Nothing
        &&& match key.code {
            KeyCode::Enter => ran_command(before, after, r.1),
            KeyCode::Esc => !after.command.active && after.command.buffer@.len() == 0
                && after.file.status_message is None && after.file.current_file == before.file.current_file
                && same_but_command_file(before, after),
            KeyCode::Backspace => after.command.active && command_edited(before, after)
                && after.command.buffer@ == (if before.command.buffer@.len() > 0 {
                    before.command.buffer@.drop_last()
                } else {
                    before.command.buffer@
                }),
            KeyCode::Char(c) => after.command.active && command_edited(before, after)
                && after.command.buffer@ == before.command.buffer@.push(c),
            _ => after == before,
        }
    } else {
        &&& r.1 is Nothing
        &&& if key.modifiers.control {
            match key.code {
                KeyCode::Char(c) => if c == 's' {
                    r.0 == EventResult::Consumed && after.command.active && after.command.buffer@ == "save "@
                        && command_edited(before, after)
                } else if c == 'o' {
                    r.0 == EventResult::Consumed && after.command.active && after.command.buffer@ == "open "@
                        && command_edited(before, after)
                } else {
                    r.0 == EventResult::Ignored && after == before
                },
                _ => r.0 == EventResult::Ignored && after == before,
            }
        } else {
            match key.code {
                KeyCode::Char(c) => if c == ':' {
                    r.0 == EventResult::Consumed && after.command.active && after.command.buffer@.len() == 0
                        && command_edited(before, after)
                } else if c == 'q' {
                    r.0 == EventResult::Action(ActionType::Quit) && after == before
                } else if c == '?' {
                    r.0 == EventResult::Consumed && after == (AppState { show_help: !before.show_help, ..before })
                } else if panel_for_digit(c) is Some {
                    r.0 == EventResult::Consumed && after == (AppState { active_panel: panel_for_digit(c)->0, ..before })
                } else if tool_for_key(c) is Some {
                    r.0 == EventResult::Consumed && tool_selected(before, after, tool_for_key(c)->0)
                } else {
                    r.0 == EventResult::Ignored && after == before
                },
                KeyCode::Esc => r.0 == EventResult::Consumed && if before.show_help {
                    after == (AppState { show_help: false, ..before })
                } else {
                    tool_selected(before, after, Tool::Select)
                },
                _ => r.0 == EventResult::Ignored && after == before,
            }
        }
    }
}

/// Handles what the components let through: command-line typing, the
/// command shortcuts, quitting, help, panel and tool shortcuts.
pub struct GlobalHandler;

impl GlobalHandler {
    /// Handles a key; file work that a command asks for comes back with the result.
    pub fn handle_key_event(&mut self, state: &mut AppState, key_event: &KeyEvent) -> (r: (EventResult, FileRequest))
        requires
            old(state).tool.wf(),
        ensures
            global_key_done(*old(state), *final(state), *key_event, r),
    {
        if state.is_command_mode_active() {
            let mut request = FileRequest::Nothing;
            match key_event.code {
                KeyCode::Char(c) => state.add_char_to_command(c),
                KeyCode::Backspace => state.backspace_command(),
                KeyCode::Enter => { request = state.execute_command(); },
                KeyCode::Esc => state.exit_command_mode(),
                _ => {},
            }
            return (EventResult::Consumed, request);
        }
        if key_event.modifiers.control {
            let r = match key_event.code {
                KeyCode::Char(c) => {
                    if c == 's' {
                        state.enter_command_mode_with("save ");
                        EventResult::Consumed
                    } else if c == 'o' {
                        state.enter_command_mode_with("open ");
                        EventResult::Consumed
                    } else {
                        EventResult::Ignored
                    }
                },
                _ => EventResult::Ignored,
            };
            return (r, FileRequest::Nothing);
        }
        let r = match key_event.code {
            KeyCode::Char(c) => {
                if c == ':' {
                    state.enter_command_mode();
                    EventResult::Consumed
                } else if c == 'q' {
                    EventResult::Action(ActionType::Quit)
                } else if c == '?' {
                    state.toggle_help();
                    EventResult::Consumed
                } else if c == '0' || c == '1' || c == '2' || c == '3' {
                    let panel = if c == '0' {
                        Panel::Canvas
                    } else if c == '1' {
                        Panel::Tools
                    } else if c == '2' {
                        Panel::Elements
                    } else {
                        Panel::Properties
                    };
                    state.switch_panel(panel);
                    EventResult::Consumed
                } else {
                    match Tool::from_key(c) {
                        Some(tool) => {
                            state.select_tool(tool);
                            EventResult::Consumed
                        },
                        None => EventResult::Ignored,
                    }
                }
            },
            KeyCode::Esc => {
                if state.show_help {
                    state.toggle_help();
                } else {
                    state.select_tool(Tool::Select);
                }
                EventResult::Consumed
            },
            _ => EventResult::Ignored,
        };
        (r, FileRequest::Nothing)
    }

    /// What a press that no component took does: it activates the panel under it.
    pub open spec fn down_done(c0: Self, c1: Self, s0: AppState, s1: AppState, ev: MouseEvent, r: EventResult) -> bool {
        &&& (match panel_at(Coord { x: ev.column, y: ev.row }, s0.layout) {
            Some(p) => s1.active_panel == p
                && r == (if p == Panel::Canvas { EventResult::Ignored } else { EventResult::Consumed }),
            None => r == EventResult::Ignored && s1 == s0,
        })
        &&& (s1.tool == s0.tool && s1.canvas == s0.canvas
            && s1.selection_state == s0.selection_state)
    }

    /// A click on the tools or elements panel activates it and stops there; a
    /// click on the canvas activates it and goes on to the canvas.
    pub fn handle_mouse_down(&mut self, state: &mut AppState, mouse_event: &MouseEvent) -> (r: EventResult)
        ensures
            Self::down_done(*old(self), *final(self), *old(state), *final(state), *mouse_event, r),
    {
        let coord = Coord { x: mouse_event.column, y: mouse_event.row };
        match detect_panel_click(coord, &state.layout) {
            Some(panel) => {
                state.switch_panel(panel);
                if panel != Panel::Canvas {
                    EventResult::Consumed
                } else {
                    EventResult::Ignored
                }
            },
            None => EventResult::Ignored,
        }
    }
}

} // verus!
