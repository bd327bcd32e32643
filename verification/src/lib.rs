//! Verified core of a desktop "fences" organiser: colours, geometry, layout,
//! hit testing, icon arrangement, sticky fence placement and import planning.

pub mod config;
pub mod cover;
pub mod error;
pub mod fence;
pub mod geo;
pub mod input;
pub mod instance;
pub mod layout;
pub mod prompt;
pub mod save;
pub mod text;
pub mod window;
