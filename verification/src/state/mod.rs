pub mod canvas;
pub mod tool;
pub mod selection;
pub mod command;
pub mod help;
pub mod file;

use vstd::prelude::*;
use crate::elements::line::RenderPoint;
use crate::elements::Element;
use crate::state::canvas::{move_all, remove_all, views, CanvasState};
use crate::state::command::{command_action, CommandExecutor, CommandState, FileRequest};
use crate::state::file::FileState;
use crate::file::DiagramFile;
use crate::state::selection::{drag_box, SelectionState};
use crate::state::tool::{fresh_for, ToolState};
use crate::tools::{tool_index, Tool};
use crate::types::{Panel, SelectionMode, UILayout};

verus! {

/// The table being edited cell by cell.
#[derive(Debug, Clone)]
pub struct EditTableState {
    pub table_id: usize,
    pub selected_row: usize,
    pub selected_col: usize,
    pub editing_cell: bool,
    pub edit_buffer: String,
    pub cursor_pos: usize,
    pub original_content: String,
}

/// The whole editor's state.
pub struct AppState {
    pub cursor_x: u16,
    pub cursor_y: u16,
    pub active_panel: Panel,
    pub layout: UILayout,
    pub show_help: bool,
    pub show_properties: bool,
    pub show_tools_modal: bool,
    pub command: CommandState,
    pub tool: ToolState,
    pub file: FileState,
    pub canvas: CanvasState,
    pub selection_state: SelectionState,
    pub editing_table: Option<EditTableState>,
    pub has_user_action: bool,
}

/// `after` and `r` are what running the command line of `before` gives:
/// command mode is left, saving and opening come back as file requests
/// (saving to the current file, or reporting that there is none), messages
/// go to the status bar.
pub open spec fn ran_command(before: AppState, after: AppState, r: FileRequest) -> bool {
    &&& !after.command.active && after.command.buffer@.len() == 0
    &&& same_but_command_file(before, after)
    &&& match command_action(before.command.active, before.command.buffer@) {
        crate::state::command::CommandActionView::Save(p) =>
            r matches FileRequest::Save(q) && q@ == p && after.file == before.file,
        crate::state::command::CommandActionView::Open(p) =>
            r matches FileRequest::Open(q) && q@ == p && after.file == before.file,
        crate::state::command::CommandActionView::SaveCurrent => match before.file.current_file {
            Some(c) => r matches FileRequest::Save(q) && q@ == c@ && after.file == before.file,
            None => r is Nothing && after.file.current_file is None
                && (after.file.status_message matches Some(m) && m@ == "No filename specified"@),
        },
        crate::state::command::CommandActionView::Message(msg) => r is Nothing
            && after.file.current_file == before.file.current_file
            && (after.file.status_message matches Some(m) && m@ == msg),
        crate::state::command::CommandActionView::NoAction =>
            r is Nothing && after.file == before.file,
    }
}

/// The screen-level fields agree.
pub open spec fn same_ui(a: AppState, b: AppState) -> bool {
    &&& a.cursor_x == b.cursor_x
    &&& a.cursor_y == b.cursor_y
    &&& a.active_panel == b.active_panel
    &&& a.layout == b.layout
    &&& a.show_help == b.show_help
    &&& a.show_properties == b.show_properties
    &&& a.show_tools_modal == b.show_tools_modal
    &&& a.has_user_action == b.has_user_action
}

/// Everything but the tool state agrees.
pub open spec fn same_but_tool(a: AppState, b: AppState) -> bool {
    same_ui(a, b) && a.command == b.command && a.file == b.file && a.canvas == b.canvas
        && a.selection_state == b.selection_state && a.editing_table == b.editing_table
}

/// Everything but the tool and canvas agrees.
pub open spec fn same_but_tool_canvas(a: AppState, b: AppState) -> bool {
    same_ui(a, b) && a.command == b.command && a.file == b.file
        && a.selection_state == b.selection_state && a.editing_table == b.editing_table
}

/// Everything but the selection agrees.
pub open spec fn same_but_selection(a: AppState, b: AppState) -> bool {
    same_ui(a, b) && a.command == b.command && a.tool == b.tool && a.file == b.file
        && a.canvas == b.canvas && a.editing_table == b.editing_table
}

/// Everything but the selection and the canvas agrees.
pub open spec fn same_but_selection_canvas(a: AppState, b: AppState) -> bool {
    same_ui(a, b) && a.command == b.command && a.tool == b.tool && a.file == b.file
        && a.editing_table == b.editing_table
}

/// Everything but the table editing agrees.
pub open spec fn same_but_editing(a: AppState, b: AppState) -> bool {
    same_ui(a, b) && a.command == b.command && a.tool == b.tool && a.file == b.file
        && a.canvas == b.canvas && a.selection_state == b.selection_state
}

/// Everything but the command line and the file state agrees.
pub open spec fn same_but_command_file(a: AppState, b: AppState) -> bool {
    same_ui(a, b) && a.tool == b.tool && a.canvas == b.canvas
        && a.selection_state == b.selection_state && a.editing_table == b.editing_table
}

/// `after` is `before` once `tool` is chosen: the tool starts fresh, the
/// lock is kept, and choosing a drawing tool while something is selected
/// drops the selection and table editing; the rest stays.
pub open spec fn tool_selected(before: AppState, after: AppState, tool: Tool) -> bool {
    &&& after.tool.selected_tool == tool
    &&& after.tool.tool_index == tool_index(tool)
    &&& after.tool.tool_locked == before.tool.tool_locked
    &&& fresh_for(after.tool.active_tool, tool)
    &&& if tool != Tool::Select && before.selection_state.mode != SelectionMode::Idle {
        after.selection_state.is_cleared() && after.editing_table is None
    } else {
        after.selection_state == before.selection_state && after.editing_table == before.editing_table
    }
    &&& after.canvas == before.canvas
    &&& same_ui(before, after)
    &&& after.command == before.command
    &&& after.file == before.file
    &&& after.tool.wf()
}

/// The state after dropping the selection: it is cleared and table editing ends.
pub open spec fn deselected(a: AppState, b: AppState) -> bool {
    &&& b.selection_state.is_cleared()
    &&& b.editing_table is None
    &&& same_ui(a, b) && a.command == b.command && a.tool == b.tool && a.file == b.file && a.canvas == b.canvas
}

/// The table editing that remains once the selection is `ids`: editing stops
/// when its table is no longer selected.
pub open spec fn editing_after(e: Option<EditTableState>, ids: Seq<usize>) -> Option<EditTableState> {
    match e {
        Some(s) => if ids.contains(s.table_id) { e } else { None },
        None => None,
    }
}

impl AppState {
    /// The starting state: canvas panel, Select tool, properties shown, empty canvas.
    pub fn new() -> (s: Self)
        ensures
            s.cursor_x == 0 && s.cursor_y == 0,
            s.active_panel == Panel::Canvas,
            !s.show_help && s.show_properties && !s.show_tools_modal,
            !s.command.active && s.command.buffer@.len() == 0,
            s.tool.selected_tool == Tool::Select && s.tool.tool_index == 0 && !s.tool.tool_locked,
            s.tool.spec_active() is None,
            s.file.current_file is None && s.file.status_message is None,
            s.canvas.spec_elements().len() == 0 && s.canvas.spec_next_id() == 0,
            s.selection_state.is_cleared(),
            s.editing_table is None,
            !s.has_user_action,
    {
        AppState {
            cursor_x: 0,
            cursor_y: 0,
            active_panel: Panel::Canvas,
            layout: UILayout::default(),
            show_help: false,
            show_properties: true,
            show_tools_modal: false,
            command: CommandState::new(),
            tool: ToolState::new(),
            file: FileState::new(),
            canvas: CanvasState::new(),
            selection_state: SelectionState::new(),
            editing_table: None,
            has_user_action: false,
        }
    }

    /// Enters command mode with an empty line.
    pub fn enter_command_mode(&mut self)
        ensures
            final(self).command.active && final(self).command.buffer@.len() == 0,
            same_but_command_file(*old(self), *final(self)) && final(self).file == old(self).file,
    {
        self.command.enter();
    }

    /// Enters command mode with the line pre-filled.
    pub fn enter_command_mode_with(&mut self, command: &str)
        ensures
            final(self).command.active && final(self).command.buffer@ == command@,
            same_but_command_file(*old(self), *final(self)) && final(self).file == old(self).file,
    {
        self.command.enter_with(command);
    }

    /// Leaves command mode and clears the status message.
    pub fn exit_command_mode(&mut self)
        ensures
            !final(self).command.active && final(self).command.buffer@.len() == 0,
            final(self).file.status_message is None,
            final(self).file.current_file == old(self).file.current_file,
            same_but_command_file(*old(self), *final(self)),
    {
        self.command.exit();
        self.file.clear_status_message();
    }

    /// Whether command mode is on.
    pub fn is_command_mode_active(&self) -> (r: bool)
        ensures
            r == self.command.active,
    {
        self.command.is_active()
    }

    /// Types a character on the command line.
    pub fn add_char_to_command(&mut self, c: char)
        ensures
            final(self).command.active == old(self).command.active,
            final(self).command.buffer@ == (if old(self).command.active {
                old(self).command.buffer@.push(c)
            } else {
                old(self).command.buffer@
            }),
            same_but_command_file(*old(self), *final(self)) && final(self).file == old(self).file,
    {
        self.command.add_char(c);
    }

    /// Deletes the last character on the command line.
    pub fn backspace_command(&mut self)
        ensures
            final(self).command.active == old(self).command.active,
            final(self).command.buffer@ == (if old(self).command.active && old(self).command.buffer@.len() > 0 {
                old(self).command.buffer@.drop_last()
            } else {
                old(self).command.buffer@
            }),
            same_but_command_file(*old(self), *final(self)) && final(self).file == old(self).file,
    {
        self.command.backspace();
    }

    /// Runs the command line and leaves command mode; file work comes back to
    /// the caller, which reports its outcome to the file state.
    pub fn execute_command(&mut self) -> (r: FileRequest)
        ensures
            ran_command(*old(self), *final(self), r),
    {
        let action = self.command.parse();
        let r = CommandExecutor::execute(action, &mut self.file);
        self.command.finish();
        r
    }

    /// Shows or hides the help.
    pub fn toggle_help(&mut self)
        ensures
            *final(self) == (AppState { show_help: !old(self).show_help, ..*old(self) }),
    {
        self.show_help = !self.show_help;
    }

    /// Shows or hides the properties panel.
    pub fn toggle_properties(&mut self)
        ensures
            *final(self) == (AppState { show_properties: !old(self).show_properties, ..*old(self) }),
    {
        self.show_properties = !self.show_properties;
    }

    /// Shows or hides the tools modal.
    pub fn toggle_tools_modal(&mut self)
        ensures
            *final(self) == (AppState { show_tools_modal: !old(self).show_tools_modal, ..*old(self) }),
    {
        self.show_tools_modal = !self.show_tools_modal;
    }

    /// Flips whether the tool stays after drawing.
    pub fn toggle_tool_lock(&mut self)
        ensures
            final(self).tool.tool_locked == !old(self).tool.tool_locked,
            final(self).tool.selected_tool == old(self).tool.selected_tool,
            final(self).tool.tool_index == old(self).tool.tool_index,
            final(self).tool.active_tool == old(self).tool.active_tool,
            same_but_tool(*old(self), *final(self)),
    {
        self.tool.toggle_tool_lock();
    }

    /// Chooses a tool; choosing a drawing tool drops the selection.
    pub fn select_tool(&mut self, tool: Tool)
        ensures
            final(self).tool.selected_tool == tool,
            final(self).tool.tool_index == tool_index(tool),
            final(self).tool.tool_locked == old(self).tool.tool_locked,
            fresh_for(final(self).tool.active_tool, tool),
            if tool != Tool::Select && old(self).selection_state.mode != SelectionMode::Idle {
                final(self).selection_state.is_cleared() && final(self).editing_table is None
                    && final(self).canvas == old(self).canvas
            } else {
                final(self).selection_state == old(self).selection_state
                    && final(self).editing_table == old(self).editing_table
                    && final(self).canvas == old(self).canvas
            },
            same_ui(*old(self), *final(self)),
            final(self).command == old(self).command,
            final(self).file == old(self).file,
            final(self).tool.wf(),
    {
        let should_deselect = self.tool.select_tool(tool);
        if should_deselect && self.is_in_selection_mode() {
            self.deselect();
        }
    }

    /// Chooses the next tool in the panel.
    pub fn select_next_tool(&mut self)
        requires
            old(self).tool.wf(),
        ensures
            final(self).tool.tool_index == (old(self).tool.tool_index + 1) % 5,
            final(self).tool.selected_tool == crate::tools::tool_order()[final(self).tool.tool_index as int],
            fresh_for(final(self).tool.active_tool, final(self).tool.selected_tool),
            final(self).tool.tool_locked == old(self).tool.tool_locked,
            same_but_tool(*old(self), *final(self)),
    {
        self.tool.select_next_tool();
    }

    /// Chooses the previous tool in the panel.
    pub fn select_prev_tool(&mut self)
        requires
            old(self).tool.wf(),
        ensures
            final(self).tool.tool_index == (if old(self).tool.tool_index == 0 { 4 } else { old(self).tool.tool_index - 1 }),
            final(self).tool.selected_tool == crate::tools::tool_order()[final(self).tool.tool_index as int],
            fresh_for(final(self).tool.active_tool, final(self).tool.selected_tool),
            final(self).tool.tool_locked == old(self).tool.tool_locked,
            same_but_tool(*old(self), *final(self)),
    {
        self.tool.select_prev_tool();
    }

    /// Whether Select is chosen.
    pub fn is_select_tool(&self) -> (r: bool)
        ensures
            r == (self.tool.selected_tool == Tool::Select),
    {
        self.tool.is_select_tool()
    }

    /// Presses the left button at `(x, y)` for the drawing tool.
    pub fn start_drawing(&mut self, x: u16, y: u16)
        requires
            old(self).canvas.spec_next_id() < usize::MAX,
        ensures
            same_but_tool_canvas(*old(self), *final(self)),
            final(self).tool.selected_tool == old(self).tool.selected_tool,
            final(self).tool.tool_locked == old(self).tool.tool_locked,
            final(self).tool.tool_index == old(self).tool.tool_index,
            match old(self).tool.active_tool {
                Some(a) => final(self).tool.active_tool matches Some(b) && crate::state::tool::pressed(a, b, old(self).canvas, final(self).canvas, x, y),
                None => final(self).tool.active_tool is None && final(self).canvas == old(self).canvas,
            },
    {
        self.tool.start_drawing(x, y, &mut self.canvas);
    }

    /// Drags the left button to `(x, y)` for the drawing tool.
    pub fn update_drawing(&mut self, x: u16, y: u16)
        ensures
            same_but_tool_canvas(*old(self), *final(self)),
            final(self).tool.selected_tool == old(self).tool.selected_tool,
            final(self).tool.tool_locked == old(self).tool.tool_locked,
            final(self).tool.tool_index == old(self).tool.tool_index,
            match old(self).tool.active_tool {
                Some(a) => final(self).tool.active_tool matches Some(b) && crate::state::tool::dragged(a, b, old(self).canvas, final(self).canvas, x, y),
                None => final(self).tool.active_tool is None && final(self).canvas == old(self).canvas,
            },
    {
        self.tool.update_drawing(x, y, &mut self.canvas);
    }

    /// Releases the left button at `(x, y)` for the drawing tool; tells
    /// whether an element was added.
    pub fn finish_drawing(&mut self, x: u16, y: u16) -> (created: bool)
        requires
            old(self).canvas.spec_next_id() < usize::MAX,
        ensures
            same_but_tool_canvas(*old(self), *final(self)),
            final(self).tool.selected_tool == old(self).tool.selected_tool,
            final(self).tool.tool_locked == old(self).tool.tool_locked,
            final(self).tool.tool_index == old(self).tool.tool_index,
            match old(self).tool.active_tool {
                Some(a) => final(self).tool.active_tool matches Some(b) && crate::state::tool::released(a, b, old(self).canvas, final(self).canvas, x, y),
                None => final(self).tool.active_tool is None && final(self).canvas == old(self).canvas,
            },
            created == (final(self).canvas.spec_elements().len() > old(self).canvas.spec_elements().len()),
    {
        self.tool.finish_drawing(x, y, &mut self.canvas)
    }

    /// Drops the drawing in progress.
    pub fn cancel_drawing(&mut self)
        ensures
            same_but_tool(*old(self), *final(self)),
            final(self).tool.selected_tool == old(self).tool.selected_tool,
            final(self).tool.tool_locked == old(self).tool.tool_locked,
            final(self).tool.tool_index == old(self).tool.tool_index,
            match old(self).tool.active_tool {
                Some(a) => final(self).tool.active_tool matches Some(b) && b.is_reset()
                    && (b is Line <==> a is Line) && (b is Rectangle <==> a is Rectangle)
                    && (b is Arrow <==> a is Arrow) && (b is Text <==> a is Text),
                None => final(self).tool.active_tool is None,
            },
    {
        self.tool.cancel_drawing();
    }

    /// Whether a drawing is in progress.
    pub fn is_drawing(&self) -> (r: bool)
        ensures
            r == self.tool.spec_is_drawing(),
    {
        self.tool.is_drawing()
    }

    /// What the drawing tool would draw now.
    pub fn get_preview_points(&self) -> (r: Vec<RenderPoint>)
        requires
            self.tool.active_tool matches Some(a) ==> a.preview_fits(),
        ensures
            match self.tool.active_tool {
                Some(a) => a.shows_preview(r@),
                None => r@.len() == 0,
            },
    {
        self.tool.get_preview_points()
    }

    /// Whether text is being typed.
    pub fn is_text_input_mode(&self) -> (r: bool)
        ensures
            r == (self.tool.selected_tool == Tool::Text && self.tool.spec_is_drawing()),
    {
        self.tool.is_text_input_mode()
    }

    /// Types a character into the text tool.
    pub fn add_text_char(&mut self, c: char)
        ensures
            same_but_tool(*old(self), *final(self)),
            final(self).tool.selected_tool == old(self).tool.selected_tool,
            final(self).tool.tool_locked == old(self).tool.tool_locked,
            final(self).tool.tool_index == old(self).tool.tool_index,
            match old(self).tool.active_tool {
                Some(crate::state::tool::ActiveTool::Text(t)) =>
                    final(self).tool.active_tool matches Some(crate::state::tool::ActiveTool::Text(u))
                    && u.spec_text() == t.spec_text().push(c) && u.spec_position() == t.spec_position(),
                other => final(self).tool.active_tool == other,
            },
    {
        self.tool.add_text_char(c);
    }

    /// Deletes the last typed character of the text tool.
    pub fn text_backspace(&mut self)
        ensures
            same_but_tool(*old(self), *final(self)),
            final(self).tool.selected_tool == old(self).tool.selected_tool,
            final(self).tool.tool_locked == old(self).tool.tool_locked,
            final(self).tool.tool_index == old(self).tool.tool_index,
            match old(self).tool.active_tool {
                Some(crate::state::tool::ActiveTool::Text(t)) =>
                    final(self).tool.active_tool matches Some(crate::state::tool::ActiveTool::Text(u))
                    && u.spec_position() == t.spec_position()
                    && u.spec_text() == (if t.spec_text().len() == 0 { t.spec_text() } else { t.spec_text().drop_last() }),
                other => final(self).tool.active_tool == other,
            },
    {
        self.tool.text_backspace();
    }

    /// Commits typed text; tells whether an element was added.
    pub fn finish_text_input(&mut self) -> (created: bool)
        requires
            old(self).canvas.spec_next_id() < usize::MAX,
        ensures
            same_but_tool_canvas(*old(self), *final(self)),
            final(self).tool.selected_tool == old(self).tool.selected_tool,
            final(self).tool.tool_locked == old(self).tool.tool_locked,
            final(self).tool.tool_index == old(self).tool.tool_index,
            match old(self).tool.active_tool {
                Some(a) => final(self).tool.active_tool matches Some(b) && crate::state::tool::released(a, b, old(self).canvas, final(self).canvas, 0, 0),
                None => final(self).tool.active_tool is None && final(self).canvas == old(self).canvas,
            },
            created == (final(self).canvas.spec_elements().len() > old(self).canvas.spec_elements().len()),
    {
        self.tool.finish_text_input(&mut self.canvas)
    }

    /// The drag-select box.
    pub fn get_selection_box_points(&self) -> (r: Vec<RenderPoint>)
        ensures
            r@ == (if self.selection_state.mode == SelectionMode::Selecting
                && self.selection_state.select_start is Some && self.selection_state.select_current is Some {
                drag_box(self.selection_state.select_start->0, self.selection_state.select_current->0)
            } else {
                Seq::empty()
            }),
    {
        self.selection_state.get_selection_box_points()
    }

    /// The selected ids.
    pub fn get_selected_element_ids(&self) -> (r: &[usize])
        ensures
            r@ == self.selection_state.selected_ids@,
    {
        self.selection_state.get_selected_element_ids()
    }

    /// The offset of a move in progress.
    pub fn get_move_offset(&self) -> (r: Option<(i32, i32)>)
        ensures
            r == (if self.selection_state.mode == SelectionMode::Moving {
                Some(self.selection_state.move_offset)
            } else {
                None
            }),
    {
        self.selection_state.get_move_offset()
    }

    /// Whether anything is selected or in progress.
    pub fn is_in_selection_mode(&self) -> (r: bool)
        ensures
            r == (self.selection_state.mode != SelectionMode::Idle),
    {
        self.selection_state.is_in_selection_mode()
    }

    /// Starts a drag-select.
    pub fn start_selection(&mut self, x: u16, y: u16)
        ensures
            final(self).selection_state.mode == SelectionMode::Selecting,
            final(self).selection_state.select_start == Some((x, y)),
            final(self).selection_state.select_current == Some((x, y)),
            !final(self).selection_state.has_dragged,
            final(self).selection_state.selected_ids@ == old(self).selection_state.selected_ids@,
            final(self).selection_state.move_start == old(self).selection_state.move_start,
            final(self).selection_state.move_offset == old(self).selection_state.move_offset,
            same_but_selection(*old(self), *final(self)),
    {
        self.selection_state.start_selection(x, y);
    }

    /// Moves the drag-select corner.
    pub fn update_selection(&mut self, x: u16, y: u16)
        ensures
            final(self).selection_state.select_current == Some((x, y)),
            final(self).selection_state.has_dragged,
            final(self).selection_state.mode == old(self).selection_state.mode,
            final(self).selection_state.select_start == old(self).selection_state.select_start,
            final(self).selection_state.selected_ids@ == old(self).selection_state.selected_ids@,
            same_but_selection(*old(self), *final(self)),
    {
        self.selection_state.update_selection(x, y);
    }

    /// Ends a drag-select (see `SelectionState::finish_selection`); table
    /// editing ends when its table is no longer selected.
    pub fn finish_selection(&mut self, x: u16, y: u16)
        ensures
            crate::state::selection::selection_finished(old(self).selection_state, final(self).selection_state,
                old(self).canvas.spec_elements(), x, y),
            final(self).editing_table == editing_after(old(self).editing_table, final(self).selection_state.selected_ids@),
            same_ui(*old(self), *final(self)),
            final(self).command == old(self).command,
            final(self).tool == old(self).tool,
            final(self).file == old(self).file,
            final(self).canvas == old(self).canvas,
            final(self).selection_state.select_start is None,
            final(self).selection_state.select_current is None,
    {
        self.selection_state.finish_selection(x, y, &self.canvas);
        self.check_edit_table_selection();
    }

    /// Shift+click toggling (see `SelectionState::toggle_selection_at`).
    pub fn toggle_selection_at(&mut self, x: i32, y: i32)
        ensures
            same_but_selection(*old(self), *final(self)),
            match crate::state::canvas::topmost_at(old(self).canvas.spec_elements(),
                old(self).canvas.spec_elements().len(), x as int, y as int) {
                Some(id) => final(self).selection_state.selected_ids@
                    == crate::state::selection::toggled(old(self).selection_state.selected_ids@, id),
                None => final(self).selection_state.selected_ids@ == old(self).selection_state.selected_ids@,
            },
    {
        self.selection_state.toggle_selection_at(x, y, &self.canvas);
    }

    /// Starts a move when the pointer is on a selected element.
    pub fn start_move_selection(&mut self, x: u16, y: u16)
        ensures
            same_but_selection(*old(self), *final(self)),
            if crate::state::selection::hits_any(old(self).canvas.spec_elements(), old(self).selection_state.selected_ids@,
                old(self).selection_state.selected_ids@.len(), x as int, y as int) {
                final(self).selection_state.mode == SelectionMode::Moving
                    && final(self).selection_state.move_start == Some((x, y))
                    && final(self).selection_state.move_offset == (0i32, 0i32)
                    && final(self).selection_state.selected_ids@ == old(self).selection_state.selected_ids@
            } else {
                final(self).selection_state == old(self).selection_state
            },
    {
        self.selection_state.start_move_selection(x, y, &self.canvas);
    }

    /// Follows the pointer during a move.
    pub fn update_move_selection(&mut self, x: u16, y: u16)
        ensures
            same_but_selection(*old(self), *final(self)),
            final(self).selection_state.move_offset == (match old(self).selection_state.move_start {
                Some((sx, sy)) => ((x - sx) as i32, (y - sy) as i32),
                None => old(self).selection_state.move_offset,
            }),
            final(self).selection_state.mode == old(self).selection_state.mode,
            final(self).selection_state.selected_ids@ == old(self).selection_state.selected_ids@,
    {
        self.selection_state.update_move_selection(x, y);
    }

    /// Ends a move: the selected elements move by the offset.
    pub fn finish_move_selection(&mut self)
        ensures
            same_but_selection_canvas(*old(self), *final(self)),
            views(final(self).canvas.spec_elements()) == move_all(views(old(self).canvas.spec_elements()),
                old(self).selection_state.selected_ids@,
                old(self).selection_state.move_offset.0, old(self).selection_state.move_offset.1),
            final(self).canvas.spec_next_id() == old(self).canvas.spec_next_id(),
            final(self).selection_state.mode == SelectionMode::Selected,
            final(self).selection_state.move_start is None,
            final(self).selection_state.selected_ids@ == old(self).selection_state.selected_ids@,
    {
        self.selection_state.finish_move_selection(&mut self.canvas);
    }

    /// Drops the selection and leaves table editing.
    pub fn deselect(&mut self)
        ensures
            deselected(*old(self), *final(self)),
    {
        self.selection_state.deselect();
        if self.is_editing_table() {
            self.exit_edit_table_mode();
        }
    }

    /// Moves the selected elements by `(dx, dy)`.
    pub fn move_selected_elements(&mut self, dx: i32, dy: i32)
        ensures
            same_but_selection_canvas(*old(self), *final(self)),
            final(self).selection_state == old(self).selection_state,
            views(final(self).canvas.spec_elements()) == move_all(views(old(self).canvas.spec_elements()),
                old(self).selection_state.selected_ids@, dx, dy),
            final(self).canvas.spec_next_id() == old(self).canvas.spec_next_id(),
    {
        self.selection_state.move_selected_elements(dx, dy, &mut self.canvas);
    }

    /// Deletes the selected elements.
    pub fn delete_selected_elements(&mut self)
        ensures
            same_but_selection_canvas(*old(self), *final(self)),
            views(final(self).canvas.spec_elements()) == remove_all(views(old(self).canvas.spec_elements()),
                old(self).selection_state.selected_ids@),
            final(self).canvas.spec_next_id() == old(self).canvas.spec_next_id(),
            old(self).selection_state.selected_ids@.len() == 0 ==> final(self).selection_state == old(self).selection_state,
            old(self).selection_state.selected_ids@.len() > 0 ==> final(self).selection_state.is_cleared(),
    {
        self.selection_state.delete_selected_elements(&mut self.canvas);
    }

    /// Makes `panel` the active one.
    pub fn switch_panel(&mut self, panel: Panel)
        ensures
            *final(self) == (AppState { active_panel: panel, ..*old(self) }),
    {
        self.active_panel = panel;
    }

    /// Moves the canvas cursor.
    pub fn update_cursor(&mut self, x: u16, y: u16)
        ensures
            *final(self) == (AppState { cursor_x: x, cursor_y: y, ..*old(self) }),
    {
        self.cursor_x = x;
        self.cursor_y = y;
    }

    /// Whether the screen cell lies in the canvas panel.
    pub fn is_inside_canvas(&self, column: u16, row: u16) -> (r: bool)
        ensures
            r == self.layout.canvas.spec_contains(column as int, row as int),
    {
        self.layout.canvas.contains(column, row)
    }

    /// Replaces the drawing with the one read from `path`, without a message.
    pub fn load_from_file_silent(&mut self, path: &str, file: DiagramFile)
        ensures
            final(self).canvas.spec_elements() == file.elements@,
            final(self).canvas.spec_next_id() == file.next_id,
            final(self).file.current_file matches Some(p) && p@ == path@,
            final(self).file.status_message == old(self).file.status_message,
    {
        self.file.load_from_file_silent(&mut self.canvas, path, file);
    }

    /// Notes that the user did something (the welcome text goes away).
    pub fn mark_user_action(&mut self)
        ensures
            *final(self) == (AppState { has_user_action: true, ..*old(self) }),
    {
        self.has_user_action = true;
    }

    /// Whether the welcome text shows: nothing done yet and nothing drawn.
    pub fn should_show_welcome(&self) -> (r: bool)
        ensures
            r == (!self.has_user_action && self.canvas.spec_elements().len() == 0),
    {
        !self.has_user_action && self.canvas.is_empty()
    }

    /// Starts editing the table `table_id` at its first cell.
    pub fn enter_edit_table_mode(&mut self, table_id: usize)
        ensures
            final(self).editing_table matches Some(e) && e.table_id == table_id && e.selected_row == 0
                && e.selected_col == 0 && !e.editing_cell && e.edit_buffer@.len() == 0 && e.cursor_pos == 0
                && e.original_content@.len() == 0,
            same_but_editing(*old(self), *final(self)),
    {
        self.editing_table = Some(EditTableState {
            table_id,
            selected_row: 0,
            selected_col: 0,
            editing_cell: false,
            edit_buffer: String::new(),
            cursor_pos: 0,
            original_content: String::new(),
        });
    }

    /// Stops editing the table.
    pub fn exit_edit_table_mode(&mut self)
        ensures
            final(self).editing_table is None,
            same_but_editing(*old(self), *final(self)),
    {
        self.editing_table = None;
    }

    /// Whether a table is being edited.
    pub fn is_editing_table(&self) -> (r: bool)
        ensures
            r == self.editing_table is Some,
    {
        self.editing_table.is_some()
    }

    /// The table editing state, to change in place.
    pub fn editing_table_mut(&mut self) -> (r: Option<&mut EditTableState>)
        ensures
            match old(self).editing_table {
                Some(e) => r is Some && *r->0 == e && final(self).editing_table == Some(*final(r->0)),
                None => r is None && final(self).editing_table is None,
            },
            same_but_editing(*old(self), *final(self)),
    {
        self.editing_table.as_mut()
    }

    /// Stops editing a table that is no longer selected.
    pub fn check_edit_table_selection(&mut self)
        ensures
            final(self).editing_table == editing_after(old(self).editing_table, old(self).selection_state.selected_ids@),
            same_but_editing(*old(self), *final(self)),
    {
        let table_id = match &self.editing_table {
            Some(e) => e.table_id,
            None => { return; },
        };
        let ids = self.selection_state.selected_ids.as_slice();
        let mut i: usize = 0;
        let mut found = false;
        while i < ids.len()
            invariant
                i <= ids@.len(),
                found == (exists|j: int| 0 <= j < i && ids@[j] == table_id),
            decreases ids.len() - i,
        {
            if ids[i] == table_id {
                found = true;
            }
            i = i + 1;
        }
        proof {
            if found {
                let j = choose|j: int| 0 <= j < i && ids@[j] == table_id;
                assert(self.selection_state.selected_ids@.contains(table_id));
            } else {
                assert(!self.selection_state.selected_ids@.contains(table_id));
            }
        }
        if !found {
            self.exit_edit_table_mode();
        }
    }
}

impl Default for AppState {
    fn default() -> (s: Self)
        ensures
            s.active_panel == Panel::Canvas,
            s.selection_state.is_cleared(),
            s.editing_table is None,
    {
        AppState::new()
    }
}

} // verus!
