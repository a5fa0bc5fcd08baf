use vstd::prelude::*;
use crate::components::table_editor::{
    build_edit_table_overlays, edit_key_done, edit_ready, enter_edit_done, handle_edit_table_key,
    try_enter_edit_table_mode,
};
use crate::events::types::{KeyCode, KeyEvent, MouseEvent};
use crate::events::{ActionType, EventResult};
use crate::state::canvas::{move_all, remove_all, views};
use crate::state::selection::{any_hit, hits_any};
use crate::state::{same_but_selection, same_but_selection_canvas, same_but_tool, same_ui, tool_selected, AppState};
use crate::state::canvas::CanvasState;
use crate::state::tool::{ActiveTool, ToolState};
use crate::tools::Tool;
use crate::types::{Panel, Rect, SelectionMode};
use crate::elements::text::byte_len;
use crate::text::chars_of;

verus! {

/// The canvas cell under the screen cell `(column, row)`: inside the canvas
/// panel and off its one-cell border.
pub open spec fn canvas_coords(area: Rect, column: u16, row: u16) -> Option<(u16, u16)> {
    if area.x < column && column + 1 < area.x + area.width && area.y < row && row + 1 < area.y + area.height {
        Some(((column - area.x - 1) as u16, (row - area.y - 1) as u16))
    } else {
        None
    }
}

/// Whether the canvas takes a mouse event: only while it is the active panel,
/// and then while drawing or inside its panel.
pub open spec fn takes_event(state: AppState, ev: MouseEvent) -> bool {
    state.active_panel == Panel::Canvas
        && (state.tool.spec_is_drawing() || state.layout.canvas.spec_contains(ev.column as int, ev.row as int))
}

/// `a` and `b` agree but for the cursor, the active panel and the
/// user-action mark.
pub open spec fn same_work(a: AppState, b: AppState) -> bool {
    &&& a.layout == b.layout && a.show_help == b.show_help && a.show_properties == b.show_properties
    &&& a.show_tools_modal == b.show_tools_modal && a.command == b.command && a.file == b.file
    &&& a.tool == b.tool && a.canvas == b.canvas && a.selection_state == b.selection_state
    &&& a.editing_table == b.editing_table
}

/// `after` is `before` after a press at canvas cell `(x, y)` with the select
/// tool: Shift toggles the topmost element there; a press on a selected
/// element starts moving the selection; elsewhere the selection is dropped
/// and a drag-select starts.
pub open spec fn selection_pressed(before: AppState, after: AppState, x: u16, y: u16, shift: bool) -> bool {
    let elems = before.canvas.spec_elements();
    let ids = before.selection_state.selected_ids@;
    let on_selected = before.selection_state.mode != SelectionMode::Idle && hits_any(elems, ids, ids.len(), x as int, y as int);
    &&& shift ==> after.selection_state.selected_ids@ == match crate::state::canvas::topmost_at(elems, elems.len(), x as int, y as int) {
        Some(id) => crate::state::selection::toggled(ids, id),
        None => ids,
    }
    &&& !shift && on_selected ==> after.selection_state.mode == SelectionMode::Moving
        && after.selection_state.move_start == Some((x, y))
        && after.selection_state.selected_ids@ == ids
    &&& !shift && !on_selected ==> after.selection_state.mode == SelectionMode::Selecting
        && after.selection_state.select_start == Some((x, y))
        && (before.selection_state.mode != SelectionMode::Idle ==>
            after.selection_state.selected_ids@.len() == 0 && after.editing_table is None)
    &&& (shift || on_selected || before.selection_state.mode == SelectionMode::Idle) ==>
        after.editing_table == before.editing_table
    &&& after.canvas == before.canvas
    &&& after.tool == before.tool
    &&& after.command == before.command
    &&& after.file == before.file
    &&& same_ui(before, after)
}

/// `after` is `before` with the selected elements moved by `(dx, dy)`; the
/// selection and everything else stay.
pub open spec fn selection_moved(before: AppState, after: AppState, dx: i32, dy: i32) -> bool {
    &&& views(after.canvas.spec_elements())
        == move_all(views(before.canvas.spec_elements()), before.selection_state.selected_ids@, dx, dy)
    &&& after.canvas.spec_next_id() == before.canvas.spec_next_id()
    &&& after.selection_state == before.selection_state
    &&& same_but_selection_canvas(before, after)
}

/// `after` is `before` with the selected elements removed (the others keep
/// their order) and, when something was selected, the selection cleared and
/// its mode idle; everything else stays.
pub open spec fn selection_deleted(before: AppState, after: AppState) -> bool {
    &&& views(after.canvas.spec_elements())
        == remove_all(views(before.canvas.spec_elements()), before.selection_state.selected_ids@)
    &&& after.canvas.spec_next_id() == before.canvas.spec_next_id()
    &&& before.selection_state.selected_ids@.len() > 0 ==> after.selection_state.is_cleared()
    &&& before.selection_state.selected_ids@.len() == 0 ==> after.selection_state == before.selection_state
    &&& same_but_selection_canvas(before, after)
}

/// `after` is `before` once the drawing tool stepped to `b`, leaving the
/// canvas `cm` and answering `r0`; `r` is the canvas's answer. A finished
/// drawing is answered `Consumed` and goes back to the select tool (as
/// choosing a tool does) unless the tool is locked; any other answer is
/// passed on. Nothing else changes.
pub open spec fn tool_stepped(before: AppState, after: AppState, b: ActiveTool, cm: CanvasState,
    r0: EventResult, r: EventResult) -> bool
{
    let mid = AppState { tool: ToolState { active_tool: Some(b), ..before.tool }, canvas: cm, ..before };
    if r0 == EventResult::Action(ActionType::FinishedDrawing) {
        &&& r == EventResult::Consumed
        &&& if before.tool.tool_locked { after == mid } else { tool_selected(mid, after, Tool::Select) }
    } else {
        r == r0 && after == mid
    }
}

/// `after` is `before` with a drawing in progress dropped: the tool keeps
/// its kind, starts over, and nothing else changes; without a drawing in
/// progress nothing changes at all.
pub open spec fn drawing_dropped(before: AppState, after: AppState) -> bool {
    if before.tool.spec_is_drawing() {
        &&& same_but_tool(before, after)
        &&& after.tool.selected_tool == before.tool.selected_tool
        &&& after.tool.tool_locked == before.tool.tool_locked
        &&& after.tool.tool_index == before.tool.tool_index
        &&& before.tool.active_tool matches Some(a) && after.tool.active_tool matches Some(b) && b.is_reset()
            && (b is Line <==> a is Line) && (b is Rectangle <==> a is Rectangle)
            && (b is Arrow <==> a is Arrow) && (b is Text <==> a is Text)
    } else {
        after == before
    }
}

/// What a key does with the select tool while something is selected:
/// arrows move the selection, Delete and Backspace remove it, Enter and `e`
/// start editing a selected table; other keys change nothing.
pub open spec fn selection_key_done(s0: AppState, s1: AppState, ev: KeyEvent, r: EventResult) -> bool {
    match ev.code {
        KeyCode::Up => r == EventResult::Consumed && selection_moved(s0, s1, 0, -1i32),
        KeyCode::Down => r == EventResult::Consumed && selection_moved(s0, s1, 0, 1),
        KeyCode::Left => r == EventResult::Consumed && selection_moved(s0, s1, -1i32, 0),
        KeyCode::Right => r == EventResult::Consumed && selection_moved(s0, s1, 1, 0),
        KeyCode::Delete | KeyCode::Backspace => r == EventResult::Consumed && selection_deleted(s0, s1),
        KeyCode::Enter => enter_edit_done(s0, s1, r),
        KeyCode::Char(c) => if c == 'e' {
            enter_edit_done(s0, s1, r)
        } else {
            r == EventResult::Ignored && s1 == s0
        },
        _ => r == EventResult::Ignored && s1 == s0,
    }
}

/// What a key that no drawing tool takes does: the selection keys with the
/// select tool while something is selected; otherwise nothing.
pub open spec fn untooled_key_done(s0: AppState, s1: AppState, ev: KeyEvent, r: EventResult) -> bool {
    if s0.tool.selected_tool == Tool::Select && s0.selection_state.mode != SelectionMode::Idle {
        selection_key_done(s0, s1, ev, r)
    } else {
        r == EventResult::Ignored && s1 == s0
    }
}

/// The drawing canvas: routes keys and mouse events to table editing, the
/// select tool or the drawing tool.
pub struct CanvasComponent;

/// The welcome text's colors.
#[derive(Debug, Clone, Copy, PartialEq, Eq, Structural)]
pub enum WelcomeTone {
    Title,
    Body,
    Muted,
}

impl CanvasComponent {
    /// A canvas component.
    pub fn new() -> (c: Self)
        ensures
            c == CanvasComponent,
    {
        CanvasComponent
    }

    /// The canvas cell under a screen cell, if any.
    pub fn to_canvas_coords(&self, state: &AppState, column: u16, row: u16) -> (r: Option<(u16, u16)>)
        ensures
            r == canvas_coords(state.layout.canvas, column, row),
    {
        let area = state.layout.canvas;
        let x = area.x as u32;
        let y = area.y as u32;
        let c = column as u32;
        let r = row as u32;
        if x < c && c + 1 < x + area.width as u32 && y < r && r + 1 < y + area.height as u32 {
            Some((column - area.x - 1, row - area.y - 1))
        } else {
            None
        }
    }

    /// The event moved to canvas coordinates, if it is on the canvas.
    pub fn to_canvas_event(&self, state: &AppState, mouse_event: &MouseEvent) -> (r: Option<MouseEvent>)
        ensures
            match canvas_coords(state.layout.canvas, mouse_event.column, mouse_event.row) {
                Some((cx, cy)) => r == Some(MouseEvent { column: cx, row: cy, ..*mouse_event }),
                None => r is None,
            },
    {
        match self.to_canvas_coords(state, mouse_event.column, mouse_event.row) {
            Some((cx, cy)) => Some(mouse_event.with_coords(cx, cy)),
            None => None,
        }
    }

    /// Whether the canvas cell lies in the box of a selected element.
    pub fn is_clicking_selected_element(&self, state: &AppState, canvas_x: u16, canvas_y: u16) -> (r: bool)
        ensures
            r == hits_any(state.canvas.spec_elements(), state.selection_state.selected_ids@,
                state.selection_state.selected_ids@.len(), canvas_x as int, canvas_y as int),
    {
        any_hit(state.selection_state.selected_ids.as_slice(), &state.canvas, canvas_x, canvas_y)
    }

    /// A press with the select tool: Shift toggles the element there; a press
    /// on a selected element starts moving the selection; elsewhere the
    /// selection is dropped and a drag-select starts.
    pub fn handle_selection_mouse_down(&self, state: &mut AppState, canvas_x: u16, canvas_y: u16, shift_pressed: bool)
        ensures
            selection_pressed(*old(state), *final(state), canvas_x, canvas_y, shift_pressed),
    {
        if shift_pressed {
            state.toggle_selection_at(canvas_x as i32, canvas_y as i32);
            return;
        }
        if state.is_in_selection_mode() {
            if self.is_clicking_selected_element(state, canvas_x, canvas_y) {
                state.start_move_selection(canvas_x, canvas_y);
            } else {
                state.deselect();
                state.start_selection(canvas_x, canvas_y);
            }
        } else {
            state.start_selection(canvas_x, canvas_y);
        }
    }

    /// Enters table editing when exactly one table is selected.
    pub fn try_enter_edit_table_mode(&self, state: &mut AppState) -> (r: EventResult)
        ensures
            enter_edit_done(*old(state), *final(state), r),
    {
        try_enter_edit_table_mode(state)
    }

    /// Handles a key while a table is edited.
    pub fn handle_edit_table_key(&self, state: &mut AppState, key_event: &KeyEvent) -> (r: EventResult)
        requires
            old(state).editing_table matches Some(e) ==> edit_ready(e),
        ensures
            edit_key_done(*old(state), *final(state), *key_event, r),
    {
        handle_edit_table_key(state, key_event)
    }

    /// What a key does to the canvas component and the state: table editing
    /// takes it first, then the drawing tool; a key the tool ignores goes to
    /// the selection keys.
    pub open spec fn key_done(c0: Self, c1: Self, s0: AppState, s1: AppState, ev: KeyEvent, r: EventResult) -> bool {
        &&& (s0.editing_table is Some ==> edit_key_done(s0, s1, ev, r))
        &&& (s0.tool.wf() ==> s1.tool.wf())
        &&& (s0.editing_table is None ==> match s0.tool.active_tool {
            None => untooled_key_done(s0, s1, ev, r),
            Some(a) => exists|b: ActiveTool, r0: EventResult, cm: CanvasState|
                #[trigger] a.key_step(b, s0.canvas, cm, ev, r0) && if r0 == EventResult::Ignored {
                    untooled_key_done(s0, s1, ev, r)
                } else {
                    tool_stepped(s0, s1, b, cm, r0, r)
                },
        })
    }

    /// Keys on the canvas: table editing first, then the drawing tool, then
    /// moving (arrows), deleting (Delete, Backspace) or editing (Enter, `e`)
    /// the selection with the select tool.
    pub fn handle_key_event(&mut self, state: &mut AppState, key_event: &KeyEvent) -> (r: EventResult)
        requires
            old(state).editing_table matches Some(e) ==> edit_ready(e),
            old(state).canvas.spec_next_id() < usize::MAX,
        ensures
            Self::key_done(*old(self), *final(self), *old(state), *final(state), *key_event, r),
    {
        if state.is_editing_table() {
            return self.handle_edit_table_key(state, key_event);
        }
        if state.tool.active_tool.is_some() {
            let ghost a0 = state.tool.active_tool->0;
            let ghost c0 = state.canvas;
            let result = match &mut state.tool.active_tool {
                Some(tool) => tool.handle_key_event(&mut state.canvas, key_event),
                None => EventResult::Ignored,
            };
            proof {
                let b0 = state.tool.active_tool->0;
                assert(a0.key_step(b0, c0, state.canvas, *key_event, result));
            }
            match result {
                EventResult::Action(ActionType::FinishedDrawing) => {
                    if !state.tool.tool_locked {
                        state.select_tool(Tool::Select);
                    }
                    return EventResult::Consumed;
                },
                EventResult::Consumed => { return EventResult::Consumed; },
                EventResult::Ignored => {},
                _ => { return result; },
            }
        }
        if state.is_select_tool() && state.is_in_selection_mode() {
            match key_event.code {
                KeyCode::Up => {
                    state.move_selected_elements(0, -1);
                    return EventResult::Consumed;
                },
                KeyCode::Down => {
                    state.move_selected_elements(0, 1);
                    return EventResult::Consumed;
                },
                KeyCode::Left => {
                    state.move_selected_elements(-1, 0);
                    return EventResult::Consumed;
                },
                KeyCode::Right => {
                    state.move_selected_elements(1, 0);
                    return EventResult::Consumed;
                },
                KeyCode::Delete | KeyCode::Backspace => {
                    state.delete_selected_elements();
                    return EventResult::Consumed;
                },
                KeyCode::Enter => { return self.try_enter_edit_table_mode(state); },
                KeyCode::Char(c) => {
                    if c == 'e' {
                        return self.try_enter_edit_table_mode(state);
                    }
                },
                _ => {},
            }
        }
        EventResult::Ignored
    }

    /// Whether the canvas takes a mouse event.
    pub fn should_handle_event(state: &AppState, mouse_event: &MouseEvent) -> (r: bool)
        ensures
            r == takes_event(*state, *mouse_event),
    {
        if state.active_panel != Panel::Canvas {
            return false;
        }
        if state.is_drawing() {
            return true;
        }
        state.is_inside_canvas(mouse_event.column, mouse_event.row)
    }

    /// What a press does on the canvas.
    pub open spec fn down_done(c0: Self, c1: Self, s0: AppState, s1: AppState, ev: MouseEvent, r: EventResult) -> bool {
        &&& (s0.tool.wf() ==> s1.tool.wf())
        &&& (({
            let area = s0.layout.canvas;
            let at = canvas_coords(area, ev.column, ev.row);
            let marked = AppState { has_user_action: true, ..s0 };
            if area.spec_contains(ev.column as int, ev.row as int)
                && s0.active_panel != Panel::Canvas {
                &&& r == EventResult::Consumed
                &&& match at {
                    Some((cx, cy)) => s1 == (AppState { active_panel: Panel::Canvas, cursor_x: cx, cursor_y: cy, ..s0 }),
                    None => s1 == (AppState { active_panel: Panel::Canvas, ..s0 }),
                }
            } else if !takes_event(s0, ev) {
                r == EventResult::Ignored && s1 == s0
            } else {
                match at {
                    None => r == EventResult::Ignored && drawing_dropped(marked, s1),
                    Some((cx, cy)) => if s0.tool.selected_tool == Tool::Select {
                        &&& r == EventResult::Consumed
                        &&& s1.has_user_action
                        &&& s1.canvas == s0.canvas
                        &&& selection_pressed(marked, s1, cx, cy, ev.modifiers.shift)
                    } else {
                        match s0.tool.active_tool {
                            Some(a) => exists|b: ActiveTool, r0: EventResult, cm: CanvasState|
                                #[trigger] a.down_step(b, s0.canvas, cm, MouseEvent { column: cx, row: cy, ..ev }, r0)
                                && tool_stepped(marked, s1, b, cm, r0, r),
                            None => r == EventResult::Ignored && s1 == marked,
                        }
                    },
                }
            }
        }))
    }

    /// A press: activates an inactive canvas (moving its cursor there); on
    /// the active canvas it marks a user action and goes to the select tool or
    /// the drawing tool, whose finished drawing returns to Select unless the
    /// tool is locked. Off the canvas's cells a drawing in progress is dropped.
    pub fn handle_mouse_down(&mut self, state: &mut AppState, mouse_event: &MouseEvent) -> (r: EventResult)
        requires
            old(state).canvas.spec_next_id() < usize::MAX,
        ensures
            Self::down_done(*old(self), *final(self), *old(state), *final(state), *mouse_event, r),
    {
        if state.is_inside_canvas(mouse_event.column, mouse_event.row) && state.active_panel != Panel::Canvas {
            state.switch_panel(Panel::Canvas);
            if let Some((cx, cy)) = self.to_canvas_coords(state, mouse_event.column, mouse_event.row) {
                state.update_cursor(cx, cy);
            }
            return EventResult::Consumed;
        }
        if !Self::should_handle_event(state, mouse_event) {
            return EventResult::Ignored;
        }
        state.mark_user_action();
        let canvas_event = match self.to_canvas_event(state, mouse_event) {
            Some(e) => e,
            None => {
                if state.is_drawing() {
                    state.cancel_drawing();
                }
                return EventResult::Ignored;
            },
        };
        if state.is_select_tool() {
            self.handle_selection_mouse_down(state, canvas_event.column, canvas_event.row, mouse_event.is_shift());
            return EventResult::Consumed;
        }
        if state.tool.active_tool.is_some() {
            let ghost a0 = state.tool.active_tool->0;
            let ghost c0 = state.canvas;
            let result = match &mut state.tool.active_tool {
                Some(tool) => tool.handle_mouse_down(&mut state.canvas, &canvas_event),
                None => EventResult::Ignored,
            };
            proof {
                assert(a0.down_step(state.tool.active_tool->0, c0, state.canvas, canvas_event, result));
            }
            match result {
                EventResult::Action(ActionType::FinishedDrawing) => {
                    if !state.tool.tool_locked {
                        state.select_tool(Tool::Select);
                    }
                    EventResult::Consumed
                },
                _ => result,
            }
        } else {
            EventResult::Ignored
        }
    }

    /// What a release does on the canvas.
    pub open spec fn up_done(c0: Self, c1: Self, s0: AppState, s1: AppState, ev: MouseEvent, r: EventResult) -> bool {
        &&& (s0.tool.wf() ==> s1.tool.wf())
        &&& (({
            let at = canvas_coords(s0.layout.canvas, ev.column, ev.row);
            if !takes_event(s0, ev) {
                r == EventResult::Ignored && s1 == s0
            } else {
                match at {
                    None => r == EventResult::Ignored && drawing_dropped(s0, s1),
                    Some((cx, cy)) => if s0.tool.selected_tool == Tool::Select {
                        &&& r == EventResult::Consumed
                        &&& s0.selection_state.mode == SelectionMode::Moving ==>
                            views(s1.canvas.spec_elements()) == move_all(views(s0.canvas.spec_elements()),
                                s0.selection_state.selected_ids@,
                                s0.selection_state.move_offset.0, s0.selection_state.move_offset.1)
                            && s1.selection_state.mode == SelectionMode::Selected
                            && s1.selection_state.selected_ids@ == s0.selection_state.selected_ids@
                            && s1.selection_state.move_start is None
                            && same_but_selection_canvas(s0, s1)
                        &&& s0.selection_state.mode == SelectionMode::Selecting ==>
                            crate::state::selection::selection_finished(s0.selection_state,
                                s1.selection_state, s0.canvas.spec_elements(), cx, cy)
                            && s1.canvas == s0.canvas && s1.tool == s0.tool
                            && s1.command == s0.command && s1.file == s0.file && same_ui(s0, s1)
                            && s1.editing_table == crate::state::editing_after(s0.editing_table,
                                s1.selection_state.selected_ids@)
                        &&& (s0.selection_state.mode != SelectionMode::Moving
                            && s0.selection_state.mode != SelectionMode::Selecting) ==> s1 == s0
                    } else if s0.tool.selected_tool == Tool::Text && s0.tool.spec_is_drawing() {
                        r == EventResult::Consumed && s1 == s0
                    } else {
                        match s0.tool.active_tool {
                            Some(a) => exists|b: ActiveTool, r0: EventResult, cm: CanvasState|
                                #[trigger] a.up_step(b, s0.canvas, cm, MouseEvent { column: cx, row: cy, ..ev }, r0)
                                && tool_stepped(s0, s1, b, cm, r0, r),
                            None => r == EventResult::Ignored && s1 == s0,
                        }
                    },
                }
            }
        }))
    }

    /// A release: ends a drag-select or a move with the select tool, or goes
    /// to the drawing tool (text is committed with Enter, not by releasing).
    pub fn handle_mouse_up(&mut self, state: &mut AppState, mouse_event: &MouseEvent) -> (r: EventResult)
        requires
            old(state).canvas.spec_next_id() < usize::MAX,
        ensures
            Self::up_done(*old(self), *final(self), *old(state), *final(state), *mouse_event, r),
    {
        if !Self::should_handle_event(state, mouse_event) {
            return EventResult::Ignored;
        }
        let canvas_event = match self.to_canvas_event(state, mouse_event) {
            Some(e) => e,
            None => {
                if state.is_drawing() {
                    state.cancel_drawing();
                }
                return EventResult::Ignored;
            },
        };
        if state.is_select_tool() {
            match state.selection_state.mode {
                SelectionMode::Selecting => {
                    state.finish_selection(canvas_event.column, canvas_event.row);
                },
                SelectionMode::Moving => {
                    state.finish_move_selection();
                },
                _ => {},
            }
            return EventResult::Consumed;
        }
        if state.is_text_input_mode() {
            return EventResult::Consumed;
        }
        if state.tool.active_tool.is_some() {
            let ghost a0 = state.tool.active_tool->0;
            let ghost c0 = state.canvas;
            let result = match &mut state.tool.active_tool {
                Some(tool) => tool.handle_mouse_up(&mut state.canvas, &canvas_event),
                None => EventResult::Ignored,
            };
            proof {
                assert(a0.up_step(state.tool.active_tool->0, c0, state.canvas, canvas_event, result));
            }
            match result {
                EventResult::Action(ActionType::FinishedDrawing) => {
                    if !state.tool.tool_locked {
                        state.select_tool(Tool::Select);
                    }
                    EventResult::Consumed
                },
                _ => result,
            }
        } else {
            EventResult::Ignored
        }
    }

    /// What a move without a button does on the canvas.
    pub open spec fn moved_done(c0: Self, c1: Self, s0: AppState, s1: AppState, ev: MouseEvent, r: EventResult) -> bool {
        &&& (s0.tool.wf() ==> s1.tool.wf())
        &&& (({
            let at = canvas_coords(s0.layout.canvas, ev.column, ev.row);
            if s0.active_panel != Panel::Canvas {
                r == EventResult::Ignored && s1 == s0
            } else {
                match at {
                    None => r == EventResult::Consumed && s1 == s0,
                    Some((cx, cy)) => {
                        let moved = AppState { cursor_x: cx, cursor_y: cy, ..s0 };
                        if s0.tool.spec_is_drawing() {
                            s0.tool.active_tool matches Some(a) && exists|b: ActiveTool, cm: CanvasState|
                                #[trigger] a.moved_step(b, s0.canvas, cm, MouseEvent { column: cx, row: cy, ..ev }, r)
                                && s1 == (AppState { tool: ToolState { active_tool: Some(b), ..s0.tool }, canvas: cm, ..moved })
                        } else {
                            r == EventResult::Consumed && s1 == moved
                        }
                    },
                }
            }
        }))
    }

    /// Pointer motion: on the active canvas the cursor follows it and a
    /// drawing in progress gets the move.
    pub fn handle_mouse_moved(&mut self, state: &mut AppState, mouse_event: &MouseEvent) -> (r: EventResult)
        ensures
            Self::moved_done(*old(self), *final(self), *old(state), *final(state), *mouse_event, r),
    {
        if state.active_panel != Panel::Canvas {
            return EventResult::Ignored;
        }
        if let Some(canvas_event) = self.to_canvas_event(state, mouse_event) {
            state.update_cursor(canvas_event.column, canvas_event.row);
            if state.is_drawing() {
                let ghost a0 = state.tool.active_tool->0;
                let ghost c0 = state.canvas;
                let result = match &mut state.tool.active_tool {
                    Some(tool) => tool.handle_mouse_moved(&mut state.canvas, &canvas_event),
                    None => EventResult::Consumed,
                };
                proof {
                    assert(a0.moved_step(state.tool.active_tool->0, c0, state.canvas, canvas_event, result));
                }
                return result;
            }
        }
        EventResult::Consumed
    }

    /// What a drag does on the canvas.
    pub open spec fn drag_done(c0: Self, c1: Self, s0: AppState, s1: AppState, ev: MouseEvent, r: EventResult) -> bool {
        &&& (s0.tool.wf() ==> s1.tool.wf())
        &&& (({
            let at = canvas_coords(s0.layout.canvas, ev.column, ev.row);
            if !takes_event(s0, ev) {
                r == EventResult::Ignored && s1 == s0
            } else {
                match at {
                    None => r == EventResult::Ignored && drawing_dropped(s0, s1),
                    Some((cx, cy)) => {
                        let moved = AppState { cursor_x: cx, cursor_y: cy, ..s0 };
                        if s0.tool.selected_tool == Tool::Select {
                            &&& r == EventResult::Consumed
                            &&& same_but_selection(moved, s1)
                            &&& s0.selection_state.mode == SelectionMode::Selecting ==>
                                s1.selection_state.select_current == Some((cx, cy))
                                && s1.selection_state.has_dragged
                            &&& s0.selection_state.mode == SelectionMode::Moving ==>
                                s1.selection_state.move_offset == (match s0.selection_state.move_start {
                                    Some((sx, sy)) => ((cx - sx) as i32, (cy - sy) as i32),
                                    None => s0.selection_state.move_offset,
                                })
                            &&& (s0.selection_state.mode != SelectionMode::Selecting
                                && s0.selection_state.mode != SelectionMode::Moving) ==> s1 == moved
                        } else {
                            match s0.tool.active_tool {
                                Some(a) => exists|b: ActiveTool, cm: CanvasState|
                                    #[trigger] a.drag_step(b, s0.canvas, cm, MouseEvent { column: cx, row: cy, ..ev }, r)
                                    && s1 == (AppState { tool: ToolState { active_tool: Some(b), ..s0.tool }, canvas: cm, ..moved }),
                                None => r == EventResult::Ignored && s1 == moved,
                            }
                        }
                    },
                }
            }
        }))
    }

    /// A drag: the cursor follows it; with the select tool it grows the
    /// drag-select box or moves the selection, otherwise the drawing tool gets it.
    pub fn handle_mouse_drag(&mut self, state: &mut AppState, mouse_event: &MouseEvent) -> (r: EventResult)
        ensures
            Self::drag_done(*old(self), *final(self), *old(state), *final(state), *mouse_event, r),
    {
        if !Self::should_handle_event(state, mouse_event) {
            return EventResult::Ignored;
        }
        let canvas_event = match self.to_canvas_event(state, mouse_event) {
            Some(e) => e,
            None => {
                if state.is_drawing() {
                    state.cancel_drawing();
                }
                return EventResult::Ignored;
            },
        };
        state.update_cursor(canvas_event.column, canvas_event.row);
        if state.is_select_tool() {
            if state.is_in_selection_mode() {
                if state.selection_state.mode == SelectionMode::Selecting {
                    state.update_selection(canvas_event.column, canvas_event.row);
                } else if state.selection_state.mode == SelectionMode::Moving {
                    state.update_move_selection(canvas_event.column, canvas_event.row);
                }
            }
            return EventResult::Consumed;
        }
        if state.tool.active_tool.is_some() {
            let ghost a0 = state.tool.active_tool->0;
            let ghost c0 = state.canvas;
            let result = match &mut state.tool.active_tool {
                Some(tool) => tool.handle_mouse_drag(&mut state.canvas, &canvas_event),
                None => EventResult::Ignored,
            };
            proof {
                assert(a0.drag_step(state.tool.active_tool->0, c0, state.canvas, canvas_event, result));
            }
            result
        } else {
            EventResult::Ignored
        }
    }
}

/// The welcome text, line by line, with each line's tone.
pub open spec fn welcome_lines() -> Seq<(Seq<char>, WelcomeTone)> {
    seq![
        ("TextDraw v0.1.0"@, WelcomeTone::Title),
        (""@, WelcomeTone::Muted),
        ("Interactive terminal ASCII diagram editor built with Ratatui."@, WelcomeTone::Body),
        ("Create and edit diagrams using simple drawing tools and keyboard shortcuts."@, WelcomeTone::Body),
        (""@, WelcomeTone::Muted),
        ("Press <space> for switching tools"@, WelcomeTone::Body),
        ("Press ? for more help"@, WelcomeTone::Body),
        (""@, WelcomeTone::Muted),
        ("Start drawing..."@, WelcomeTone::Muted),
    ]
}

/// `a - b`, or zero when `b` is larger.
pub open spec fn minus(a: int, b: int) -> int {
    if a >= b { a - b } else { 0 }
}

/// The cells of one welcome line on row `y`, centred in `width` columns by its byte length.
pub open spec fn welcome_line_cells(width: int, y: int, text: Seq<char>, tone: WelcomeTone) -> Seq<(usize, usize, char, WelcomeTone)> {
    let sx = minus(width, byte_len(text) as int) / 2;
    Seq::new(text.len(), |i: int| ((sx + i) as usize, y as usize, text[i], tone))
}

/// The cells of the first `n` welcome lines, the block centred vertically in `height` rows.
pub open spec fn welcome_cells(width: int, height: int, n: nat) -> Seq<(usize, usize, char, WelcomeTone)>
    decreases n,
{
    if n == 0 {
        Seq::empty()
    } else {
        let start_y = minus(height, 9) / 2;
        let (text, tone) = welcome_lines()[n - 1];
        welcome_cells(width, height, (n - 1) as nat) + welcome_line_cells(width, start_y + n - 1, text, tone)
    }
}

/// Appends the cells of one centred welcome line.
fn push_welcome_line(out: &mut Vec<(usize, usize, char, WelcomeTone)>, width: usize, y: usize, text: &str, tone: WelcomeTone)
    requires
        width <= 65535,
        y <= 65535,
        text@.len() <= 100,
    ensures
        final(out)@ == old(out)@ + welcome_line_cells(width as int, y as int, text@, tone),
{
    let len = text.len();
    let start_x = width.saturating_sub(len) / 2;
    let chars = chars_of(text);
    let mut i: usize = 0;
    while i < chars.len()
        invariant
            chars@ == text@,
            i <= chars@.len(),
            chars@.len() <= 100,
            width <= 65535,
            start_x == minus(width as int, byte_len(text@) as int) / 2,
            out@ == old(out)@ + welcome_line_cells(width as int, y as int, text@, tone).subrange(0, i as int),
        decreases chars.len() - i,
    {
        out.push((start_x + i, y, chars[i], tone));
        assert(out@ =~= old(out)@ + welcome_line_cells(width as int, y as int, text@, tone).subrange(0, i + 1));
        i = i + 1;
    }
    assert(welcome_line_cells(width as int, y as int, text@, tone).subrange(0, i as int)
        =~= welcome_line_cells(width as int, y as int, text@, tone));
}

impl CanvasComponent {
    /// The welcome text's cells in the canvas `area` (inside its border).
    pub fn get_welcome_text_map(&self, area: &Rect) -> (r: Vec<(usize, usize, char, WelcomeTone)>)
        ensures
            r@ == welcome_cells(minus(area.width as int, 2), minus(area.height as int, 2), 9),
    {
        let h = area.height.saturating_sub(2) as usize;
        let w = area.width.saturating_sub(2) as usize;
        let start_y = h.saturating_sub(9) / 2;
        let mut out: Vec<(usize, usize, char, WelcomeTone)> = Vec::new();
        proof {
            reveal_strlit("TextDraw v0.1.0");
            reveal_strlit("");
            reveal_strlit("Interactive terminal ASCII diagram editor built with Ratatui.");
            reveal_strlit("Create and edit diagrams using simple drawing tools and keyboard shortcuts.");
            reveal_strlit("Press <space> for switching tools");
            reveal_strlit("Press ? for more help");
            reveal_strlit("Start drawing...");
        }
        push_welcome_line(&mut out, w, start_y, "TextDraw v0.1.0", WelcomeTone::Title);
        push_welcome_line(&mut out, w, start_y + 1, "", WelcomeTone::Muted);
        push_welcome_line(&mut out, w, start_y + 2, "Interactive terminal ASCII diagram editor built with Ratatui.", WelcomeTone::Body);
        push_welcome_line(&mut out, w, start_y + 3, "Create and edit diagrams using simple drawing tools and keyboard shortcuts.", WelcomeTone::Body);
        push_welcome_line(&mut out, w, start_y + 4, "", WelcomeTone::Muted);
        push_welcome_line(&mut out, w, start_y + 5, "Press <space> for switching tools", WelcomeTone::Body);
        push_welcome_line(&mut out, w, start_y + 6, "Press ? for more help", WelcomeTone::Body);
        push_welcome_line(&mut out, w, start_y + 7, "", WelcomeTone::Muted);
        push_welcome_line(&mut out, w, start_y + 8, "Start drawing...", WelcomeTone::Muted);
        proof {
            reveal_with_fuel(welcome_cells, 10);
        }
        out
    }
}

} // verus!
