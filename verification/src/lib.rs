//! A terminal ASCII diagram editor's core: the geometry of lines, boxes,
//! arrows, text and tables on a character grid, the canvas that holds them,
//! selection and drawing tools, and the keyboard and mouse rules of the editor.

pub mod text;
pub mod types;
pub mod elements;
pub mod geometry;
pub mod state;
pub mod events;
pub mod tools;
pub mod components;
pub mod input;
pub mod utils;
pub mod grid;
pub mod drawing;
pub mod controllers;
pub mod file;
pub mod cli;
pub mod styles;
