//! The plain data that the client's screens are built from.

pub mod channel;
pub mod dm;
pub mod file;
pub mod guild;
pub mod message;
pub mod notification;
pub mod ordering;

pub use channel::{Channel, ChannelCategory, ChannelList, ChannelType};
pub use dm::{DmChannel, DmUser};
pub use file::AttachedFile;
pub use guild::Guild;
pub use message::{Message, MessageAttachment};
pub use notification::{Notification, NotificationKind};
