//! What the chat platform hands over, turned into the client's own data.

use vstd::prelude::*;
use crate::models::channel::{CategoryView, ChannelView};
use crate::models::ordering::in_position_order;
use crate::models::{Channel, ChannelCategory, ChannelList, ChannelType, DmChannel, DmUser, Guild, Message};

verus! {

/// What the platform tells the client while it runs.
#[derive(Debug, Clone)]
pub enum DiscordEvent {
    /// Servers that the user is in, with their ids and, once known, names.
    Ready(Vec<Guild>),
    /// The client is connected as the named user.
    Connected(String),
    /// The direct-message channels of the user.
    DmChannels(Vec<DmChannel>),
    /// The channels of the server of this id.
    GuildChannels(String, Vec<Channel>),
    /// The latest messages of the channel of this id.
    Messages(String, Vec<Message>),
    /// A message that was just sent.
    NewMessage(Message),
    /// Something went wrong.
    Error(String),
}

/// The kinds of channel that the platform knows, as far as the client tells
/// them apart.
#[derive(Debug, Clone, Copy, PartialEq, Eq, Structural)]
pub enum RemoteChannelKind {
    Category,
    Text,
    Voice,
    News,
    Stage,
    /// A thread, or a kind that the client does not show.
    Other,
}

/// A channel as the platform describes it.
#[derive(Debug, Clone)]
pub struct RemoteChannel {
    pub id: String,
    pub name: String,
    pub kind: RemoteChannelKind,
    pub position: u16,
    pub parent_id: Option<String>,
}

/// The kind under which a channel of the platform is shown, if it is shown
/// as a channel at all.
pub open spec fn shown_kind(kind: RemoteChannelKind) -> Option<ChannelType> {
    match kind {
        RemoteChannelKind::Text => Some(ChannelType::Text),
        RemoteChannelKind::Voice => Some(ChannelType::Voice),
        RemoteChannelKind::News => Some(ChannelType::Announcement),
        RemoteChannelKind::Stage => Some(ChannelType::Stage),
        _ => None,
    }
}

/// The channel that a channel of the platform is shown as.
pub open spec fn shown_channel(remote: RemoteChannel) -> ChannelView {
    ChannelView {
        id: remote.id@,
        name: remote.name@,
        kind: shown_kind(remote.kind)->0,
        position: remote.position as int,
        parent_id: match remote.parent_id {
            Some(parent) => Some(parent@),
            None => None,
        },
    }
}

/// The category that a category of the platform is shown as.
pub open spec fn shown_category(remote: RemoteChannel) -> CategoryView {
    CategoryView { id: remote.id@, name: remote.name@, position: remote.position as int }
}

/// The channels among what the platform describes, in the order given.
pub open spec fn channels_among(remote: Seq<RemoteChannel>) -> Seq<ChannelView>
    decreases remote.len(),
{
    if remote.len() == 0 {
        Seq::empty()
    } else if shown_kind(remote.last().kind) is Some {
        channels_among(remote.drop_last()).push(shown_channel(remote.last()))
    } else {
        channels_among(remote.drop_last())
    }
}

/// The categories among what the platform describes, in the order given.
pub open spec fn categories_among(remote: Seq<RemoteChannel>) -> Seq<CategoryView>
    decreases remote.len(),
{
    if remote.len() == 0 {
        Seq::empty()
    } else if remote.last().kind == RemoteChannelKind::Category {
        categories_among(remote.drop_last()).push(shown_category(remote.last()))
    } else {
        categories_among(remote.drop_last())
    }
}

/// The views of a run of channels.
pub open spec fn channel_views(channels: Seq<Channel>) -> Seq<ChannelView> {
    channels.map_values(|c: Channel| c@)
}

/// The views of a run of categories.
pub open spec fn category_views(categories: Seq<ChannelCategory>) -> Seq<CategoryView> {
    categories.map_values(|c: ChannelCategory| c@)
}

/// Sorts what the platform describes into categories and channels, leaving
/// out threads and the kinds that the client does not show. The order is
/// that given; [`ChannelList::sort`] puts the list in the order of
/// positions.
pub fn collect_channels(remote: &Vec<RemoteChannel>) -> (list: ChannelList)
    ensures
        channel_views(list.channels@) == channels_among(remote@),
        category_views(list.categories@) == categories_among(remote@),
{
    let mut list = ChannelList::new();
    let mut i: usize = 0;
    assert(channel_views(list.channels@) == channels_among(remote@.take(0)));
    assert(category_views(list.categories@) == categories_among(remote@.take(0)));
    while i < remote.len()
        invariant
            i <= remote.len(),
            channel_views(list.channels@) == channels_among(remote@.take(i as int)),
            category_views(list.categories@) == categories_among(remote@.take(i as int)),
        decreases remote.len() - i,
    {
        let r = &remote[i];
        proof {
            assert(remote@.take(i + 1).drop_last() == remote@.take(i as int));
            assert(remote@.take(i + 1).last() == *r);
        }
        let kind = match r.kind {
            RemoteChannelKind::Text => Some(ChannelType::Text),
            RemoteChannelKind::Voice => Some(ChannelType::Voice),
            RemoteChannelKind::News => Some(ChannelType::Announcement),
            RemoteChannelKind::Stage => Some(ChannelType::Stage),
            _ => None,
        };
        match kind {
            Some(kind) => {
                let plain = Channel::new(r.id.as_str(), r.name.as_str(), kind, r.position as i32);
                let channel = match &r.parent_id {
                    Some(parent) => plain.with_parent(parent.as_str()),
                    None => plain,
                };
                let ghost before = list.channels@;
                list.channels.push(channel);
                assert(channel_views(list.channels@) == channel_views(before).push(channel@));
            },
            None => {
                if r.kind == RemoteChannelKind::Category {
                    let category = ChannelCategory::new(
                        r.id.as_str(),
                        r.name.as_str(),
                        r.position as i32,
                    );
                    let ghost before = list.categories@;
                    list.categories.push(category);
                    assert(category_views(list.categories@) == category_views(before).push(
                        category@,
                    ));
                }
            },
        }
        i += 1;
    }
    assert(remote@.take(remote.len() as int) == remote@);
    list
}

/// The channel list of a server, from what the platform describes: the
/// categories and the channels that the client shows, in the order of their
/// positions.
pub fn channel_list(remote: &Vec<RemoteChannel>) -> (list: ChannelList)
    ensures
        exists|unsorted: ChannelList|
            {
                &&& channel_views(unsorted.channels@) == channels_among(remote@)
                &&& category_views(unsorted.categories@) == categories_among(remote@)
                &&& list.channels@ == #[trigger] in_position_order(unsorted.channels@)
                &&& list.categories@ == in_position_order(unsorted.categories@)
            },
{
    let mut list = collect_channels(remote);
    let ghost unsorted = list;
    list.sort();
    assert(list.channels@ == in_position_order(unsorted.channels@));
    list
}

/// The discriminator of a user who has none.
pub open spec fn discriminator_or_zero(discriminator: Option<Seq<char>>) -> Seq<char> {
    match discriminator {
        Some(d) => d,
        None => "0"@,
    }
}

/// The direct-message channel of the given id with the given recipient. A
/// recipient without a discriminator gets the discriminator `0`.
pub fn dm_channel(
    id: &str,
    recipient_id: &str,
    recipient_name: &str,
    discriminator: Option<&str>,
) -> (channel: DmChannel)
    ensures
        channel.id@ == id@,
        channel.recipient.id@ == recipient_id@,
        channel.recipient.username@ == recipient_name@,
        channel.recipient.discriminator@ == discriminator_or_zero(
            match discriminator {
                Some(d) => Some(d@),
                None => None,
            },
        ),
{
    let discriminator = match discriminator {
        Some(d) => d,
        None => "0",
    };
    DmChannel::new(id, DmUser::new(recipient_id, recipient_name, discriminator))
}

/// Messages in the order in which they were written, from the order in
/// which the platform hands them over: newest first.
pub fn oldest_first(messages: Vec<Message>) -> (out: Vec<Message>)
    ensures
        out@ == messages@.reverse(),
{
    let mut rest = messages;
    let ghost all = rest@;
    let mut out: Vec<Message> = Vec::new();
    while rest.len() > 0
        invariant
            rest@.len() <= all.len(),
            rest@ == all.take(rest@.len() as int),
            out@.len() == all.len() - rest@.len(),
            forall|k: int| 0 <= k < out@.len() ==> out@[k] == all[all.len() - 1 - k],
        decreases rest.len(),
    {
        let last = rest.pop();
        out.push(last.unwrap());
    }
    assert(out@ =~= all.reverse());
    out
}

} // verus!
