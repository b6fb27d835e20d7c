//! Verified core of a keyboard-driven terminal emulator: key bindings,
//! input-mode dispatch, command palette, text motions, search helpers,
//! pixel-buffer primitives and escape-sequence encoders.
pub mod action;
pub mod app_event;
pub mod cli;
pub mod command_palette;
pub mod config;
pub mod drain;
pub mod draw;
pub mod geometry;
pub mod glyph;
pub mod grid;
pub mod history;
pub mod input_ops;
pub mod keybindings;
pub mod keymap;
pub mod keys;
pub mod logging;
pub mod mode;
pub mod motion;
pub mod mouse;
pub mod overlay_keys;
pub mod overlays;
pub mod render;
pub mod screenshot;
pub mod search;
pub mod search_state;
pub mod status_bar;
pub mod text;
pub mod views;
pub mod visual;
