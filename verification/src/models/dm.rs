//! Direct-message channels.

use vstd::prelude::*;
use crate::text::{concat3, same_text};

verus! {

/// A direct-message channel.
#[derive(Debug, Clone)]
pub struct DmChannel {
    pub id: String,
    pub recipient: DmUser,
}

/// The user at the other end of a direct-message channel.
#[derive(Debug, Clone)]
pub struct DmUser {
    pub id: String,
    pub username: String,
    pub discriminator: String,
}

/// The name under which a user is shown: the bare user name where the
/// discriminator is `0`, and `name#discriminator` otherwise.
pub open spec fn display_name_of(username: Seq<char>, discriminator: Seq<char>) -> Seq<char> {
    if discriminator == "0"@ {
        username
    } else {
        username + "#"@ + discriminator
    }
}

impl DmChannel {
    /// A direct-message channel with `recipient`.
    pub fn new(id: &str, recipient: DmUser) -> (channel: DmChannel)
        ensures
            channel.id@ == id@,
            channel.recipient == recipient,
    {
        DmChannel { id: id.to_owned(), recipient }
    }

    /// A copy of the channel.
    pub fn duplicate(&self) -> (copy: DmChannel)
        ensures
            copy == *self,
    {
        DmChannel {
            id: self.id.clone(),
            recipient: DmUser {
                id: self.recipient.id.clone(),
                username: self.recipient.username.clone(),
                discriminator: self.recipient.discriminator.clone(),
            },
        }
    }

    /// The name under which the channel is shown.
    pub fn display_name(&self) -> (name: String)
        ensures
            name@ == display_name_of(self.recipient.username@, self.recipient.discriminator@),
    {
        if same_text(self.recipient.discriminator.as_str(), "0") {
            self.recipient.username.clone()
        } else {
            concat3(self.recipient.username.as_str(), "#", self.recipient.discriminator.as_str())
        }
    }
}

impl DmUser {
    /// A user.
    pub fn new(id: &str, username: &str, discriminator: &str) -> (user: DmUser)
        ensures
            user.id@ == id@,
            user.username@ == username@,
            user.discriminator@ == discriminator@,
    {
        DmUser {
            id: id.to_owned(),
            username: username.to_owned(),
            discriminator: discriminator.to_owned(),
        }
    }
}

} // verus!
