//! Appearance settings and saved application state.

pub mod color;
pub mod colorref;
pub mod config;
pub mod state;
