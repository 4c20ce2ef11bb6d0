//! What the chat platform's answers do to the state of the client, and which
//! images they ask for.

use vstd::prelude::*;
use vstd::string::StringExecFns;
use crate::app::cache::notices;
use crate::app::model::App;
use crate::app::state::find_guild;
use crate::config::keybinds::texts_view;
use crate::config::Config;
use crate::decimal::{decimal_text, push_decimal};
use crate::discord::api::DiscordEvent;
use crate::models::message::{
    duplicate_messages, is_image_attachment, message_views, MessageView,
};
use crate::models::notification::NotificationKind;
use crate::models::{ChannelList, DmChannel, Guild, Message, MessageAttachment, Notification};
use crate::text::{concat2, ends_with, is_suffix, same_text};

verus! {

/// An image that the screen needs.
#[derive(Debug, Clone)]
pub enum ImageRequest {
    /// The avatar of the user of this id, with the hash of the user's own
    /// avatar where the user has one.
    Avatar { user_id: String, avatar_hash: Option<String> },
    /// The attachment of this id, found at this URL.
    Attachment { id: String, url: String },
}

/// An image request as a mathematical value.
pub enum RequestView {
    Avatar { user_id: Seq<char>, avatar_hash: Option<Seq<char>> },
    Attachment { id: Seq<char>, url: Seq<char> },
}

impl View for ImageRequest {
    type V = RequestView;

    open spec fn view(&self) -> RequestView {
        match *self {
            ImageRequest::Avatar { user_id, avatar_hash } => RequestView::Avatar {
                user_id: user_id@,
                avatar_hash: match avatar_hash {
                    Some(hash) => Some(hash@),
                    None => None,
                },
            },
            ImageRequest::Attachment { id, url } => RequestView::Attachment { id: id@, url: url@ },
        }
    }
}

/// The views of a run of requests.
pub open spec fn request_views(requests: Seq<ImageRequest>) -> Seq<RequestView> {
    requests.map_values(|r: ImageRequest| r@)
}

/// Whether avatars are shown.
pub open spec fn shows_avatars(config: Config) -> bool {
    config.images.enabled && config.images.render_avatars
}

/// Whether attachments are shown.
pub open spec fn shows_attachments(config: Config) -> bool {
    config.images.enabled && config.images.render_attachments
}

/// The avatars that a run of messages needs: that of each author, in the
/// order of the messages.
pub open spec fn avatar_requests(messages: Seq<MessageView>) -> Seq<RequestView> {
    messages.map_values(
        |m: MessageView| RequestView::Avatar { user_id: m.author_id, avatar_hash: m.author_avatar },
    )
}

/// The images among a run of attachments.
pub open spec fn image_requests_of(attachments: Seq<MessageAttachment>) -> Seq<RequestView>
    decreases attachments.len(),
{
    if attachments.len() == 0 {
        Seq::empty()
    } else {
        let last = attachments.last();
        let rest = image_requests_of(attachments.drop_last());
        if is_image_attachment(last.declared_type(), last.filename@) {
            rest.push(RequestView::Attachment { id: last.id@, url: last.url@ })
        } else {
            rest
        }
    }
}

/// The attachments that a run of messages needs: the images among those of
/// each message, in the order of the messages.
pub open spec fn attachment_requests(messages: Seq<MessageView>) -> Seq<RequestView>
    decreases messages.len(),
{
    if messages.len() == 0 {
        Seq::empty()
    } else {
        attachment_requests(messages.drop_last()) + image_requests_of(messages.last().attachments)
    }
}

/// The images that a run of messages needs under the given settings: the
/// avatars first, then the attachments.
pub open spec fn needed_images(config: Config, messages: Seq<MessageView>) -> Seq<RequestView> {
    let avatars = if shows_avatars(config) {
        avatar_requests(messages)
    } else {
        Seq::empty()
    };
    let attachments = if shows_attachments(config) {
        attachment_requests(messages)
    } else {
        Seq::empty()
    };
    avatars + attachments
}

/// The servers after one more became known: a server that was known by its
/// id takes the new name, and one that was not is put behind the others.
pub open spec fn with_guild(guilds: Seq<Guild>, incoming: Guild) -> Seq<Guild> {
    if exists|i: int| 0 <= i < guilds.len() && guilds[i].id@ == incoming.id@ {
        let at = choose|i: int|
            0 <= i < guilds.len() && guilds[i].id@ == incoming.id@ && forall|j: int|
                0 <= j < i ==> guilds[j].id@ != incoming.id@;
        guilds.update(at, Guild { name: incoming.name, ..guilds[at] })
    } else {
        guilds.push(incoming)
    }
}

/// The servers after a run of servers became known.
pub open spec fn with_guilds(guilds: Seq<Guild>, incoming: Seq<Guild>) -> Seq<Guild>
    decreases incoming.len(),
{
    if incoming.len() == 0 {
        guilds
    } else {
        with_guild(with_guilds(guilds, incoming.drop_last()), incoming.last())
    }
}

/// What is said once the direct messages were loaded.
pub open spec fn dms_loaded_text(count: nat) -> Seq<char> {
    "Loaded "@ + decimal_text(count) + " DM channel(s)"@
}

/// What is said once the channels of a server were loaded.
pub open spec fn channels_loaded_text(guild_name: Seq<char>, channels: nat, categories: nat) -> Seq<
    char,
> {
    "Loaded channels for "@ + guild_name + ": "@ + decimal_text(channels) + " channel(s), "@
        + decimal_text(categories) + if categories == 1 {
        " category"@
    } else {
        " categories"@
    }
}

/// The name that a file of the themes directory gives a theme: the file's
/// name without any `.yaml` at its end, for a file that ends so.
pub open spec fn theme_name_in(file_name: Seq<char>) -> Option<Seq<char>> {
    if is_suffix(".yaml"@, file_name) {
        Some(without_yaml(file_name))
    } else {
        None
    }
}

/// A name without any `.yaml` at its end.
pub open spec fn without_yaml(name: Seq<char>) -> Seq<char>
    decreases name.len(),
{
    if is_suffix(".yaml"@, name) && ".yaml"@.len() > 0 {
        without_yaml(name.subrange(0, name.len() - ".yaml"@.len()))
    } else {
        name
    }
}

/// The images among a run of attachments, as requests.
fn push_attachment_requests(requests: &mut Vec<ImageRequest>, attachments: &Vec<MessageAttachment>)
    ensures
        request_views(final(requests)@) == request_views(old(requests)@) + image_requests_of(
            attachments@,
        ),
{
    let ghost start = request_views(requests@);
    let mut i: usize = 0;
    assert(request_views(requests@) == start + image_requests_of(attachments@.take(0)));
    while i < attachments.len()
        invariant
            i <= attachments.len(),
            request_views(requests@) == start + image_requests_of(attachments@.take(i as int)),
        decreases attachments.len() - i,
    {
        let a = &attachments[i];
        proof {
            assert(attachments@.take(i + 1).drop_last() == attachments@.take(i as int));
            assert(attachments@.take(i + 1).last() == *a);
        }
        if a.is_image() {
            let ghost before = requests@;
            let request = ImageRequest::Attachment { id: a.id.clone(), url: a.url.clone() };
            requests.push(request);
            assert(request_views(requests@) == request_views(before).push(request@));
        }
        i += 1;
    }
    assert(attachments@.take(attachments.len() as int) == attachments@);
}

/// The images that a run of messages needs under the given settings.
pub fn image_requests(config: &Config, messages: &Vec<Message>) -> (requests: Vec<ImageRequest>)
    ensures
        request_views(requests@) == needed_images(*config, message_views(messages@)),
{
    let ghost views = message_views(messages@);
    let mut requests: Vec<ImageRequest> = Vec::new();
    assert(request_views(requests@) == Seq::<RequestView>::empty());
    if config.images.enabled && config.images.render_avatars {
        let mut i: usize = 0;
        assert(request_views(requests@) == avatar_requests(views.take(0)));
        while i < messages.len()
            invariant
                i <= messages.len(),
                views == message_views(messages@),
                request_views(requests@) == avatar_requests(views.take(i as int)),
            decreases messages.len() - i,
        {
            let m = &messages[i];
            let ghost before = requests@;
            let request = ImageRequest::Avatar {
                user_id: m.author_id.clone(),
                avatar_hash: match &m.author_avatar {
                    Some(hash) => Some(hash.clone()),
                    None => None,
                },
            };
            requests.push(request);
            proof {
                assert(request_views(requests@) == request_views(before).push(request@));
                assert(avatar_requests(views.take(i + 1)) == avatar_requests(
                    views.take(i as int),
                ).push(request@));
            }
            i += 1;
        }
        assert(views.take(messages.len() as int) == views);
    }
    let ghost avatars = request_views(requests@);
    if config.images.enabled && config.images.render_attachments {
        let mut i: usize = 0;
        assert(request_views(requests@) == avatars + attachment_requests(views.take(0)));
        while i < messages.len()
            invariant
                i <= messages.len(),
                views == message_views(messages@),
                request_views(requests@) == avatars + attachment_requests(views.take(i as int)),
            decreases messages.len() - i,
        {
            proof {
                assert(views.take(i + 1).drop_last() == views.take(i as int));
                assert(views.take(i + 1).last() == messages@[i as int]@);
            }
            push_attachment_requests(&mut requests, &messages[i].attachments);
            i += 1;
        }
        assert(views.take(messages.len() as int) == views);
    } else {
        assert(avatars + Seq::<RequestView>::empty() == avatars);
    }
    requests
}

/// The name that a file of the themes directory gives a theme.
pub fn theme_name_of(file_name: &str) -> (name: Option<String>)
    ensures
        match theme_name_in(file_name@) {
            Some(n) => name matches Some(text) && text@ == n,
            None => name is None,
        },
{
    if !ends_with(file_name, ".yaml") {
        return None;
    }
    let mut chars = crate::text::chars_of(file_name);
    let suffix = crate::text::chars_of(".yaml");
    proof {
        reveal_strlit(".yaml");
    }
    let ghost all = chars@;
    while chars.len() >= suffix.len() && ends_with_chars(&chars, &suffix)
        invariant
            suffix@ == ".yaml"@,
            suffix@.len() == 5,
            without_yaml(all) == without_yaml(chars@),
        decreases chars.len(),
    {
        let keep = chars.len() - suffix.len();
        chars.truncate(keep);
    }
    Some(crate::text::string_of(&chars))
}

/// Whether `chars` ends with `suffix`.
fn ends_with_chars(chars: &Vec<char>, suffix: &Vec<char>) -> (yes: bool)
    requires
        suffix@.len() <= chars@.len(),
    ensures
        yes == is_suffix(suffix@, chars@),
{
    let from = chars.len() - suffix.len();
    let mut i: usize = 0;
    while i < suffix.len()
        invariant
            from + suffix.len() == chars.len(),
            i <= suffix.len(),
            forall|j: int| 0 <= j < i ==> chars@[from + j] == suffix@[j],
        decreases suffix.len() - i,
    {
        if chars[from + i] != suffix[i] {
            proof {
                let tail = chars@.subrange(chars@.len() - suffix@.len(), chars@.len() as int);
                if tail == suffix@ {
                    assert(tail[i as int] == suffix@[i as int]);
                }
            }
            return false;
        }
        i += 1;
    }
    assert(chars@.subrange(chars@.len() - suffix@.len(), chars@.len() as int) =~= suffix@);
    true
}

impl App {
    /// Takes one more server that became known.
    fn merge_guild(&mut self, incoming: Guild)
        ensures
            final(self).guilds@ == with_guild(old(self).guilds@, incoming),
            *final(self) == (App { guilds: final(self).guilds, ..*old(self) }),
    {
        match find_guild(&self.guilds, incoming.id.as_str()) {
            Some(i) => {
                let mut known = self.guilds[i].duplicate();
                known.name = incoming.name;
                self.guilds.set(i, known);
                proof {
                    let gs = old(self).guilds@;
                    let at = choose|k: int|
                        0 <= k < gs.len() && gs[k].id@ == incoming.id@ && forall|j: int|
                            0 <= j < k ==> gs[j].id@ != incoming.id@;
                    if at < i {
                        assert(gs[at].id@ != incoming.id@);
                    }
                    if i < at {
                        assert(gs[i as int].id@ != incoming.id@);
                    }
                    assert(at == i);
                }
            },
            None => {
                self.guilds.push(incoming);
            },
        }
    }

    /// Takes what the platform tells the client, and says which images the
    /// screen now needs.
    ///
    /// Servers that become known are put with the servers. A connection is
    /// announced to the user. A new message is added to the channel it
    /// belongs to, on screen where that channel is selected and in the cache
    /// where the channel's messages are known.
    pub fn handle_discord_event(&mut self, event: DiscordEvent) -> (requests: Vec<ImageRequest>)
        requires
            old(self).wf(),
        ensures
            final(self).wf(),
            match event {
                DiscordEvent::Ready(guilds) => {
                    &&& requests@.len() == 0
                    &&& final(self).guilds@ == with_guilds(old(self).guilds@, guilds@)
                    &&& *final(self) == (App { guilds: final(self).guilds, ..*old(self) })
                },
                DiscordEvent::Connected(username) => {
                    &&& requests@.len() == 0
                    &&& notices(final(self).notifications@) == notices(
                        old(self).notifications@,
                    ).push((NotificationKind::Success, "Connected as "@ + username@))
                    &&& *final(self) == (App {
                        notifications: final(self).notifications,
                        ..*old(self)
                    })
                },
                DiscordEvent::NewMessage(message) => {
                    let shown = old(self).selected_channel matches Some(id) && id@
                        == message.channel_id@;
                    let cached = old(self).message_cache@.dom().contains(message.channel_id@);
                    &&& request_views(requests@) == if shown {
                        needed_images(old(self).config, seq![message@])
                    } else {
                        Seq::empty()
                    }
                    &&& message_views(final(self).messages@) == if shown {
                        message_views(old(self).messages@).push(message@)
                    } else {
                        message_views(old(self).messages@)
                    }
                    &&& final(self).message_cache@.dom() == old(self).message_cache@.dom()
                    &&& cached ==> message_views(
                        final(self).message_cache@[message.channel_id@]@,
                    ) == message_views(old(self).message_cache@[message.channel_id@]@).push(
                        message@,
                    )
                    &&& forall|other: Seq<char>|
                        other != message.channel_id@ && old(self).message_cache@.dom().contains(
                            other,
                        ) ==> #[trigger] final(self).message_cache@[other] == old(
                            self,
                        ).message_cache@[other]
                    &&& *final(self) == (App {
                        messages: final(self).messages,
                        message_cache: final(self).message_cache,
                        ..*old(self)
                    })
                },
                _ => requests@.len() == 0 && *final(self) == *old(self),
            },
    {
        match event {
            DiscordEvent::Ready(guilds) => {
                let mut rest = guilds;
                let ghost all = rest@;
                let ghost mut done: int = 0;
                while rest.len() > 0
                    invariant
                        0 <= done <= all.len(),
                        rest@ == all.skip(done),
                        self.guilds@ == with_guilds(old(self).guilds@, all.take(done)),
                        *self == (App { guilds: self.guilds, ..*old(self) }),
                    decreases rest.len(),
                {
                    let next = rest.remove(0);
                    proof {
                        assert(next == all[done]);
                        assert(all.take(done + 1).drop_last() == all.take(done));
                        assert(all.take(done + 1).last() == next);
                        assert(all.skip(done).remove(0) == all.skip(done + 1));
                    }
                    self.merge_guild(next);
                    proof {
                        done = done + 1;
                    }
                }
                assert(all.take(all.len() as int) == all);
                Vec::new()
            },
            DiscordEvent::Connected(username) => {
                let text = concat2("Connected as ", username.as_str());
                let ghost before = self.notifications@;
                self.notifications.push(Notification::success(text.as_str()));
                assert(notices(self.notifications@) == notices(before).push(
                    (NotificationKind::Success, text@),
                ));
                Vec::new()
            },
            DiscordEvent::NewMessage(message) => {
                let shown = match &self.selected_channel {
                    Some(id) => same_text(id.as_str(), message.channel_id.as_str()),
                    None => false,
                };
                let mut requests: Vec<ImageRequest> = Vec::new();
                assert(request_views(requests@) == Seq::<RequestView>::empty());
                if shown {
                    let mut one: Vec<Message> = Vec::new();
                    one.push(message.duplicate());
                    assert(message_views(one@) == seq![message@]);
                    requests = image_requests(&self.config, &one);
                    let ghost before = self.messages@;
                    let copy = message.duplicate();
                    self.messages.push(copy);
                    assert(message_views(self.messages@) == message_views(before).push(message@));
                }
                let ghost cache_before = self.message_cache@;
                match self.message_cache.remove(message.channel_id.as_str()) {
                    Some(known) => {
                        let mut known = known;
                        let ghost before = known@;
                        let ghost view = message@;
                        let channel = message.channel_id.clone();
                        known.push(message);
                        assert(message_views(known@) == message_views(before).push(view));
                        self.message_cache.insert(channel.as_str(), known);
                        assert(self.message_cache@.dom() =~= cache_before.dom());
                    },
                    None => {
                        assert(self.message_cache@ =~= cache_before);
                    },
                }
                requests
            },
            _ => Vec::new(),
        }
    }

    /// Takes the direct-message channels that were loaded, or the news that
    /// they could not be, and tells the user.
    pub fn dms_loaded(&mut self, loaded: Option<Vec<DmChannel>>)
        ensures
            old(self).wf() ==> final(self).wf(),
            !final(self).loading_dms,
            match loaded {
                Some(dms) => {
                    &&& final(self).dms == dms
                    &&& notices(final(self).notifications@) == notices(
                        old(self).notifications@,
                    ).push((NotificationKind::Success, dms_loaded_text(dms@.len())))
                },
                None => {
                    &&& final(self).dms == old(self).dms
                    &&& notices(final(self).notifications@) == notices(
                        old(self).notifications@,
                    ).push((NotificationKind::Error, "Failed to load DMs"@))
                },
            },
            *final(self) == (App {
                dms: final(self).dms,
                notifications: final(self).notifications,
                loading_dms: false,
                ..*old(self)
            }),
    {
        let ghost before = self.notifications@;
        match loaded {
            Some(dms) => {
                let mut text = "Loaded ".to_owned();
                push_decimal(&mut text, dms.len() as u64);
                text.append(" DM channel(s)");
                self.dms = dms;
                self.notifications.push(Notification::success(text.as_str()));
                assert(notices(self.notifications@) == notices(before).push(
                    (NotificationKind::Success, text@),
                ));
            },
            None => {
                self.notifications.push(Notification::error("Failed to load DMs"));
                assert(notices(self.notifications@) == notices(before).push(
                    (NotificationKind::Error, "Failed to load DMs"@),
                ));
            },
        }
        self.loading_dms = false;
    }

    /// The servers whose channels are to be loaded: those that are expanded
    /// and whose channels are not known, in the order of the sidebar.
    pub fn guilds_to_load(&self) -> (ids: Vec<String>)
        requires
            self.wf(),
        ensures
            texts_view(ids@) == unloaded(self.guilds@, self.channel_cache@),
    {
        let mut ids: Vec<String> = Vec::new();
        let mut i: usize = 0;
        assert(texts_view(ids@) == unloaded(self.guilds@.take(0), self.channel_cache@));
        while i < self.guilds.len()
            invariant
                self.wf(),
                i <= self.guilds.len(),
                texts_view(ids@) == unloaded(self.guilds@.take(i as int), self.channel_cache@),
            decreases self.guilds.len() - i,
        {
            let guild = &self.guilds[i];
            proof {
                assert(self.guilds@.take(i + 1).drop_last() == self.guilds@.take(i as int));
                assert(self.guilds@.take(i + 1).last() == *guild);
            }
            if guild.expanded && !self.channel_cache.contains(guild.id.as_str()) {
                let ghost before = ids@;
                ids.push(guild.id.clone());
                assert(texts_view(ids@) == texts_view(before).push(guild.id@));
            }
            i += 1;
        }
        assert(self.guilds@.take(self.guilds.len() as int) == self.guilds@);
        ids
    }

    /// Takes the channels of a server that were loaded, and tells the user
    /// where the server is known.
    pub fn channels_loaded(&mut self, guild_id: &str, list: ChannelList)
        requires
            old(self).wf(),
        ensures
            final(self).wf(),
            final(self).channel_cache@ == old(self).channel_cache@.insert(guild_id@, list),
            notices(final(self).notifications@) == if exists|i: int|
                0 <= i < old(self).guilds@.len() && old(self).guilds@[i].id@ == guild_id@ {
                let at = choose|i: int|
                    0 <= i < old(self).guilds@.len() && old(self).guilds@[i].id@ == guild_id@
                        && forall|j: int| 0 <= j < i ==> old(self).guilds@[j].id@ != guild_id@;
                notices(old(self).notifications@).push(
                    (
                        NotificationKind::Success,
                        channels_loaded_text(
                            old(self).guilds@[at].name@,
                            list.channels@.len(),
                            list.categories@.len(),
                        ),
                    ),
                )
            } else {
                notices(old(self).notifications@)
            },
            *final(self) == (App {
                channel_cache: final(self).channel_cache,
                notifications: final(self).notifications,
                ..*old(self)
            }),
    {
        let channels = list.channels.len();
        let categories = list.categories.len();
        self.channel_cache.insert(guild_id, list);
        match find_guild(&self.guilds, guild_id) {
            Some(i) => {
                let mut text = "Loaded channels for ".to_owned();
                text.append(self.guilds[i].name.as_str());
                text.append(": ");
                push_decimal(&mut text, channels as u64);
                text.append(" channel(s), ");
                push_decimal(&mut text, categories as u64);
                text.append(
                    if categories == 1 {
                        " category"
                    } else {
                        " categories"
                    },
                );
                let ghost before = self.notifications@;
                self.notifications.push(Notification::success(text.as_str()));
                proof {
                    assert(notices(self.notifications@) == notices(before).push(
                        (NotificationKind::Success, text@),
                    ));
                    let gs = old(self).guilds@;
                    let at = choose|k: int|
                        0 <= k < gs.len() && gs[k].id@ == guild_id@ && forall|j: int|
                            0 <= j < k ==> gs[j].id@ != guild_id@;
                    if at < i {
                        assert(gs[at].id@ != guild_id@);
                    }
                    if i < at {
                        assert(gs[i as int].id@ != guild_id@);
                    }
                }
            },
            None => {},
        }
    }

    /// Takes the news that the channels of a server could not be loaded,
    /// and tells the user where the server is known.
    pub fn channels_failed(&mut self, guild_id: &str, reason: &str)
        ensures
            old(self).wf() ==> final(self).wf(),
            notices(final(self).notifications@) == if exists|i: int|
                0 <= i < old(self).guilds@.len() && old(self).guilds@[i].id@ == guild_id@ {
                let at = choose|i: int|
                    0 <= i < old(self).guilds@.len() && old(self).guilds@[i].id@ == guild_id@
                        && forall|j: int| 0 <= j < i ==> old(self).guilds@[j].id@ != guild_id@;
                notices(old(self).notifications@).push(
                    (
                        NotificationKind::Error,
                        "Failed to load channels for "@ + old(self).guilds@[at].name@ + ": "@
                            + reason@,
                    ),
                )
            } else {
                notices(old(self).notifications@)
            },
            *final(self) == (App { notifications: final(self).notifications, ..*old(self) }),
    {
        match find_guild(&self.guilds, guild_id) {
            Some(i) => {
                let mut text = "Failed to load channels for ".to_owned();
                text.append(self.guilds[i].name.as_str());
                text.append(": ");
                text.append(reason);
                let ghost before = self.notifications@;
                self.notifications.push(Notification::error(text.as_str()));
                proof {
                    assert(notices(self.notifications@) == notices(before).push(
                        (NotificationKind::Error, text@),
                    ));
                    let gs = old(self).guilds@;
                    let at = choose|k: int|
                        0 <= k < gs.len() && gs[k].id@ == guild_id@ && forall|j: int|
                            0 <= j < k ==> gs[j].id@ != guild_id@;
                    if at < i {
                        assert(gs[at].id@ != guild_id@);
                    }
                    if i < at {
                        assert(gs[i as int].id@ != guild_id@);
                    }
                }
            },
            None => {},
        }
    }

    /// The channel whose messages are to be loaded: the selected one, where
    /// a load was asked for and its messages are not known.
    pub fn messages_to_load(&self) -> (id: Option<String>)
        requires
            self.wf(),
        ensures
            match id {
                Some(channel) => self.loading_messages && self.selected_channel == Some(channel)
                    && !self.message_cache@.dom().contains(channel@),
                None => !self.loading_messages || self.selected_channel is None || (
                self.selected_channel matches Some(channel)
                    && self.message_cache@.dom().contains(channel@)),
            },
    {
        if !self.loading_messages {
            return None;
        }
        match &self.selected_channel {
            Some(channel) => {
                if self.message_cache.contains(channel.as_str()) {
                    None
                } else {
                    Some(channel.clone())
                }
            },
            None => None,
        }
    }

    /// Takes the messages of a channel that were loaded: they are shown and
    /// remembered. Says which images the screen now needs.
    pub fn messages_loaded(&mut self, channel_id: &str, messages: Vec<Message>) -> (requests: Vec<
        ImageRequest,
    >)
        requires
            old(self).wf(),
        ensures
            final(self).wf(),
            request_views(requests@) == needed_images(old(self).config, message_views(messages@)),
            message_views(final(self).messages@) == message_views(messages@),
            final(self).message_cache@ == old(self).message_cache@.insert(channel_id@, messages),
            *final(self) == (App {
                messages: final(self).messages,
                message_cache: final(self).message_cache,
                ..*old(self)
            }),
    {
        self.messages = duplicate_messages(&messages);
        let requests = image_requests(&self.config, &messages);
        self.message_cache.insert(channel_id, messages);
        requests
    }

    /// Takes the news that messages could not be loaded, and tells the user.
    pub fn messages_failed(&mut self, reason: &str)
        ensures
            old(self).wf() ==> final(self).wf(),
            notices(final(self).notifications@) == notices(old(self).notifications@).push(
                (NotificationKind::Error, "Failed to load messages: "@ + reason@),
            ),
            *final(self) == (App { notifications: final(self).notifications, ..*old(self) }),
    {
        let text = concat2("Failed to load messages: ", reason);
        let ghost before = self.notifications@;
        self.notifications.push(Notification::error(text.as_str()));
        assert(notices(self.notifications@) == notices(before).push(
            (NotificationKind::Error, text@),
        ));
    }

    /// Steps on to the theme that follows the current one among `themes`,
    /// and to the first after the last. Says whether it did: not where
    /// the current theme is not among them.
    pub fn cycle_theme(&mut self, themes: &Vec<String>) -> (changed: bool)
        ensures
            old(self).wf() ==> final(self).wf(),
            changed == texts_view(themes@).contains(old(self).config.theme_name@),
            changed ==> exists|i: int|
                0 <= i < themes@.len() && themes@[i]@ == old(self).config.theme_name@ && (forall|
                    j: int,
                |
                    0 <= j < i ==> themes@[j]@ != old(self).config.theme_name@)
                    && final(self).config.theme_name == #[trigger] themes@[(i + 1) % (
                themes@.len() as int)],
            !changed ==> *final(self) == *old(self),
            *final(self) == (App {
                config: Config { theme_name: final(self).config.theme_name, ..old(self).config },
                ..*old(self)
            }),
    {
        let mut i: usize = 0;
        while i < themes.len()
            invariant
                i <= themes.len(),
                *self == *old(self),
                forall|j: int| 0 <= j < i ==> themes@[j]@ != self.config.theme_name@,
            decreases themes.len() - i,
        {
            if same_text(themes[i].as_str(), self.config.theme_name.as_str()) {
                let next = if i + 1 < themes.len() {
                    i + 1
                } else {
                    0
                };
                assert(next == (i + 1) % (themes@.len() as int)) by {
                    if i + 1 < themes@.len() {
                        vstd::arithmetic::div_mod::lemma_small_mod((i + 1) as nat, themes@.len());
                    } else {
                        vstd::arithmetic::div_mod::lemma_mod_self_0(themes@.len() as int);
                    }
                }
                self.config.theme_name = themes[next].clone();
                assert(texts_view(themes@)[i as int] == old(self).config.theme_name@);
                return true;
            }
            i += 1;
        }
        proof {
            assert forall|j: int| 0 <= j < texts_view(themes@).len() implies texts_view(themes@)[j]
                != old(self).config.theme_name@ by {}
        }
        false
    }

    /// Ends the loading of channels.
    pub fn finish_loading_channels(&mut self)
        ensures
            *final(self) == (App { loading_channels: false, ..*old(self) }),
    {
        self.loading_channels = false;
    }

    /// Ends the loading of messages, where a channel is selected.
    pub fn finish_loading_messages(&mut self)
        ensures
            *final(self) == (App {
                loading_messages: old(self).loading_messages && old(self).selected_channel is None,
                ..*old(self)
            }),
    {
        if self.selected_channel.is_some() {
            self.loading_messages = false;
        }
    }
}

/// The ids of the servers that are expanded and whose channels are not
/// known, in the order of the servers.
pub open spec fn unloaded(guilds: Seq<Guild>, channel_cache: Map<Seq<char>, ChannelList>) -> Seq<
    Seq<char>,
>
    decreases guilds.len(),
{
    if guilds.len() == 0 {
        Seq::empty()
    } else {
        let rest = unloaded(guilds.drop_last(), channel_cache);
        let last = guilds.last();
        if last.expanded && !channel_cache.dom().contains(last.id@) {
            rest.push(last.id@)
        } else {
            rest
        }
    }
}

} // verus!
