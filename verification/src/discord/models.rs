//! What the gateway of the chat platform says, as far as the client reads
//! it.

use vstd::prelude::*;

verus! {

/// The opcode of an event dispatched to the client.
pub const DISPATCH: u8 = 0;

/// The opcode of a heartbeat.
pub const HEARTBEAT: u8 = 1;

/// The opcode by which the client identifies itself.
pub const IDENTIFY: u8 = 2;

/// The opcode by which the gateway greets the client.
pub const HELLO: u8 = 10;

/// The opcode by which the gateway acknowledges a heartbeat.
pub const HEARTBEAT_ACK: u8 = 11;

/// A user of the chat platform.
#[derive(Debug, Clone)]
pub struct DiscordUser {
    pub id: String,
    pub username: String,
    pub discriminator: String,
    pub avatar: Option<String>,
}

/// Where the gateway is found.
#[derive(Debug, Clone)]
pub struct GatewayResponse {
    pub url: String,
}

/// One message of the gateway. Of its data the client reads two things: the
/// heartbeat interval of a greeting and the session of a ready event.
#[derive(Debug, Clone)]
pub struct GatewayPayload {
    /// The opcode.
    pub op: u8,
    /// The sequence number, where the message has one.
    pub s: Option<u64>,
    /// The name of the event, where the message dispatches one.
    pub t: Option<String>,
    /// The heartbeat interval in milliseconds, where the data gives one.
    pub heartbeat_interval: Option<u64>,
    /// The session, where the data reads as one.
    pub ready: Option<ReadyEvent>,
}

/// What the gateway says once the client is logged in.
#[derive(Debug, Clone)]
pub struct ReadyEvent {
    pub user: DiscordUser,
    pub guilds: Vec<UnavailableGuild>,
    pub session_id: String,
}

/// A server of which only the id is known yet.
#[derive(Debug, Clone)]
pub struct UnavailableGuild {
    pub id: String,
}

impl DiscordUser {
    /// A copy of the user.
    pub fn duplicate(&self) -> (copy: DiscordUser)
        ensures
            copy == *self,
    {
        DiscordUser {
            id: self.id.clone(),
            username: self.username.clone(),
            discriminator: self.discriminator.clone(),
            avatar: match &self.avatar {
                Some(hash) => Some(hash.clone()),
                None => None,
            },
        }
    }
}

} // verus!
