pub mod table_editor;
pub mod canvas;
pub mod panels;
pub mod help;
pub mod help_line;
pub mod inputs;
pub mod statusbar;
pub mod canvas_frame;
