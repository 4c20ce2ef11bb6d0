//! The client's side of the chat platform, as far as it is decided without
//! talking to the platform.

pub mod api;
pub mod auth;
pub mod gateway;
pub mod models;

pub use api::DiscordEvent;
pub use auth::DiscordAuth;
pub use gateway::DiscordGateway;
pub use models::{DiscordUser, GatewayPayload, GatewayResponse, ReadyEvent, UnavailableGuild};
