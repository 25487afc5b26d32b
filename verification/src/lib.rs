//! Decision logic of a tray-resident desktop shell.
//!
//! The shell owns one window, labelled `main`, and a tray icon with a short
//! context menu. Everything the shell decides is a pure function here: which
//! steps follow a menu click, a click on the tray icon or the launch of a
//! second copy of the program, how small the window may become, and whether a
//! step that went wrong ends the process. The host program performs the steps
//! against the window system and reports how each one went.

pub mod geometry;
pub mod menu;
pub mod plan;
pub mod shell;
pub mod text;
pub mod tray;
