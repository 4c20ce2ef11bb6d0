//! What the screens need of the library.

pub mod image;
pub mod layout;
pub mod settings;
pub mod sidebar;
