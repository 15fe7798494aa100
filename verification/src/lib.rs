//! Core of a terminal line editor: Unicode-aware line handling with terminal
//! column accounting, byte-range annotations that survive in-place text
//! replacement, and the modal routing of decoded input commands.

pub mod annotatedstring;
pub mod buffer;
pub mod command;
pub mod editor;
pub mod graphemewidth;
pub mod line;
pub mod position;
pub mod size;
pub mod uicomponents;
pub mod unicode;
pub mod view;
