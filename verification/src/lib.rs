//! Text-model and viewport core of a terminal text editor: grapheme-aware
//! lines, a buffer of lines with load/save semantics, and a cursor/viewport
//! controller that maps logical document positions to visible screen cells.

pub mod strutil;
pub mod unicode;
pub mod line;
pub mod size;
pub mod position;
pub mod location;
pub mod fileinfo;
pub mod buffer;
pub mod command;
pub mod editorcommand;
pub mod documentstatus;
pub mod view;
pub mod uicomponent;
pub mod commandbar;
pub mod statusbar;
pub mod messagebar;
pub mod editor;
