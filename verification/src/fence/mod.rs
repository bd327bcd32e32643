//! Fences: hit testing, icon arrangement, scrolling, sticky placement, menus,
//! commands and import.

pub mod hit;
pub mod fences;
pub mod icons;
pub mod scroll;
pub mod import;
pub mod basic;
pub mod command;
