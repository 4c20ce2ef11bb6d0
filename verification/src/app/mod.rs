//! The state of the client between key presses.

pub mod cache;
pub mod events;
pub mod input;
pub mod mode;
pub mod model;
pub mod navigation;
pub mod sidebar;
pub mod state;

pub use mode::AppMode;
pub use model::App;
pub use sidebar::SidebarItem;
