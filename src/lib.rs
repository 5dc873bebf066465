//! Adaptive, width-exact rendering of a terminal status line and run pill.

pub mod text;
pub mod format;
pub mod style;
pub mod segments;
pub mod timer;
pub mod snapshot;
pub mod model;
pub mod content;
pub mod layout;
pub mod middle;
pub mod render;
pub mod workspace;
pub mod code88;
pub mod usage;
pub mod state;
pub mod environment;
pub mod overlay;
pub mod card;
