//! The clipboard bridge of a terminal window: which stores a copy reaches,
//! which pane a paste is delivered to, and which panes receive the
//! window's download handler.

pub mod copy;
pub mod download;
pub mod mux;
pub mod pane;
pub mod paste;
pub mod selection;
pub mod termwindow;
