pub mod canvas;
pub mod help;
