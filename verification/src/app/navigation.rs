//! Moving about: through the sidebar, into a channel and out of it, and up
//! and down its messages.

use vstd::prelude::*;
use crate::app::mode::AppMode;
use crate::app::model::{toggled, App};
use crate::app::sidebar::SidebarItem;
use crate::app::state::find_guild;
use crate::models::channel::is_text_kind;
use crate::models::message::{duplicate_messages, message_views};
use crate::models::notification::NotificationKind;
use crate::models::{ChannelType, Guild, Notification};

verus! {

/// Whether `new` is `old` after the selected channel was left: the sidebar
/// has the keyboard again, and nothing of the channel is kept on screen.
pub open spec fn left_channel(old: App, new: App) -> bool {
    &&& new.mode is Sidebar
    &&& new.selected_channel is None
    &&& new.messages@.len() == 0
    &&& new.message_scroll == 0
    &&& new.attached_files@.len() == 0
    &&& new == (App {
        mode: new.mode,
        selected_channel: new.selected_channel,
        messages: new.messages,
        message_scroll: new.message_scroll,
        attached_files: new.attached_files,
        ..old
    })
}

/// Where the view of the messages stands after a step down: `speed`
/// messages further, but not beyond the last message.
pub open spec fn scrolled_down(scroll: nat, speed: nat, count: nat) -> nat {
    let last = if count == 0 {
        0
    } else {
        (count - 1) as nat
    };
    if scroll < last {
        if scroll + speed < last {
            scroll + speed
        } else {
            last
        }
    } else {
        scroll
    }
}

/// Where the view of the messages stands after a step up: `speed` messages
/// back, but not before the first message.
pub open spec fn scrolled_up(scroll: nat, speed: nat) -> nat {
    if scroll >= speed {
        (scroll - speed) as nat
    } else {
        0
    }
}

/// The line below a line of the sidebar; the first line below the last.
pub open spec fn line_below(index: nat, count: nat) -> nat {
    if count == 0 {
        index
    } else {
        (index + 1) % count
    }
}

/// The line above a line of the sidebar; the last line above the first.
pub open spec fn line_above(index: nat, count: nat) -> nat {
    if count == 0 {
        index
    } else if index > 0 {
        (index - 1) as nat
    } else {
        (count - 1) as nat
    }
}

/// What is said of a channel in which no messages can be read.
pub open spec fn cannot_view_text(kind: ChannelType) -> Seq<char> {
    match kind {
        ChannelType::Voice => "Cannot view messages in voice channels"@,
        ChannelType::Stage => "Cannot view messages in stage channels"@,
        _ => "Cannot view messages in this type of channels"@,
    }
}

/// Whether `new` is `old` after the channel of the given id was entered:
/// the channel is selected and shown from its first message, with the
/// messages that are known of it, and with a load asked for where none are.
pub open spec fn entered_channel(old: App, id: Seq<char>, new: App) -> bool {
    &&& new.mode is Messages
    &&& new.selected_channel matches Some(selected) && selected@ == id
    &&& new.message_scroll == 0
    &&& if old.message_cache@.dom().contains(id) {
        &&& message_views(new.messages@) == message_views(old.message_cache@[id]@)
        &&& new.loading_messages == old.loading_messages
    } else {
        &&& new.messages@.len() == 0
        &&& new.loading_messages
    }
    &&& new == (App {
        mode: new.mode,
        selected_channel: new.selected_channel,
        messages: new.messages,
        message_scroll: new.message_scroll,
        loading_messages: new.loading_messages,
        ..old
    })
}

/// Whether `new` is `old` after the server at place `at` was expanded or
/// collapsed. Expanding a server whose channels are not known asks for them
/// to be loaded.
pub open spec fn toggled_guild(old: App, at: int, new: App) -> bool {
    let guild = old.guilds@[at];
    &&& new.guilds@ == old.guilds@.update(at, Guild { expanded: !guild.expanded, ..guild })
    &&& new.loading_channels == (old.loading_channels || (!guild.expanded
        && !old.channel_cache@.dom().contains(guild.id@)))
    &&& new == (App { guilds: new.guilds, loading_channels: new.loading_channels, ..old })
}

/// Whether `new` is `old` after the line `item` of the sidebar was chosen.
pub open spec fn chose_item(old: App, item: SidebarItem, new: App) -> bool {
    match item {
        SidebarItem::DmSection => new == (App {
            dm_section_expanded: !old.dm_section_expanded,
            loading_dms: old.loading_dms || (!old.dm_section_expanded && old.dms@.len() == 0),
            ..old
        }),
        SidebarItem::DmChannel(dm) => entered_channel(old, dm.id@, new),
        SidebarItem::ServerSection => new == old,
        SidebarItem::Server(guild) => if exists|i: int|
            0 <= i < old.guilds@.len() && old.guilds@[i].id@ == guild.id@ {
            exists|i: int|
                0 <= i < old.guilds@.len() && old.guilds@[i].id@ == guild.id@ && (forall|j: int|
                    0 <= j < i ==> old.guilds@[j].id@ != guild.id@) && #[trigger] toggled_guild(
                    old,
                    i,
                    new,
                )
        } else {
            new == old
        },
        SidebarItem::Category { guild_id, category, expanded } => {
            &&& new.expanded_in(guild_id@) == toggled(old.expanded_in(guild_id@), category.id@)
            &&& forall|other: Seq<char>|
                other != guild_id@ ==> #[trigger] new.expanded_in(other) == old.expanded_in(other)
            &&& new == (App { expanded_categories: new.expanded_categories, ..old })
        },
        SidebarItem::Channel { guild_id, channel } => if is_text_kind(channel.kind) {
            entered_channel(old, channel.id@, new)
        } else {
            &&& new.notifications@.len() == old.notifications@.len() + 1
            &&& new.notifications@.last().kind == NotificationKind::Info
            &&& new.notifications@.last().message@ == cannot_view_text(channel.kind)
            &&& new.notifications@.drop_last() == old.notifications@
            &&& new == (App { notifications: new.notifications, ..old })
        },
    }
}

impl App {
    /// Leaves the selected channel.
    pub fn exit_channel(&mut self)
        ensures
            left_channel(*old(self), *final(self)),
            old(self).wf() ==> final(self).wf(),
    {
        self.mode = AppMode::Sidebar;
        self.selected_channel = None;
        self.messages.clear();
        self.message_scroll = 0;
        self.attached_files.clear();
    }

    /// Moves the view of the messages a step down.
    pub fn scroll_messages_down(&mut self)
        ensures
            final(self).message_scroll == scrolled_down(
                old(self).message_scroll as nat,
                old(self).config.general.message_scroll_speed as nat,
                old(self).messages@.len(),
            ),
            *final(self) == (App { message_scroll: final(self).message_scroll, ..*old(self) }),
    {
        let speed = self.config.general.message_scroll_speed;
        let last = if self.messages.len() == 0 {
            0
        } else {
            self.messages.len() - 1
        };
        if self.message_scroll < last {
            let target = self.message_scroll.saturating_add(speed);
            self.message_scroll = if target < last {
                target
            } else {
                last
            };
        }
    }

    /// Moves the view of the messages a step up.
    pub fn scroll_messages_up(&mut self)
        ensures
            final(self).message_scroll == scrolled_up(
                old(self).message_scroll as nat,
                old(self).config.general.message_scroll_speed as nat,
            ),
            *final(self) == (App { message_scroll: final(self).message_scroll, ..*old(self) }),
    {
        let speed = self.config.general.message_scroll_speed;
        if self.message_scroll > 0 {
            self.message_scroll = self.message_scroll.saturating_sub(speed);
        }
    }

    /// Moves the selection of the sidebar a line down.
    pub fn navigate_sidebar_down(&mut self)
        requires
            old(self).wf(),
        ensures
            final(self).selected_sidebar_idx == line_below(
                old(self).selected_sidebar_idx as nat,
                old(self).sidebar().len(),
            ),
            *final(self) == (App {
                selected_sidebar_idx: final(self).selected_sidebar_idx,
                ..*old(self)
            }),
    {
        let count = self.get_sidebar_items().len();
        if count > 0 {
            let at = self.selected_sidebar_idx % count;
            assert((self.selected_sidebar_idx + 1) % (count as int) == (at + 1) % (count as int))
                by (nonlinear_arith)
                requires
                    at == self.selected_sidebar_idx % count,
                    count > 0,
            ;
            self.selected_sidebar_idx = (at + 1) % count;
        }
    }

    /// Moves the selection of the sidebar a line up.
    pub fn navigate_sidebar_up(&mut self)
        requires
            old(self).wf(),
        ensures
            final(self).selected_sidebar_idx == line_above(
                old(self).selected_sidebar_idx as nat,
                old(self).sidebar().len(),
            ),
            *final(self) == (App {
                selected_sidebar_idx: final(self).selected_sidebar_idx,
                ..*old(self)
            }),
    {
        let count = self.get_sidebar_items().len();
        if count > 0 {
            if self.selected_sidebar_idx > 0 {
                self.selected_sidebar_idx = self.selected_sidebar_idx - 1;
            } else {
                self.selected_sidebar_idx = count - 1;
            }
        }
    }

    /// Enters the channel of the given id.
    pub fn enter_channel(&mut self, id: &String)
        requires
            old(self).wf(),
        ensures
            final(self).wf(),
            entered_channel(*old(self), id@, *final(self)),
    {
        self.selected_channel = Some(id.clone());
        self.message_scroll = 0;
        match self.message_cache.get(id.as_str()) {
            Some(known) => {
                self.messages = duplicate_messages(known);
            },
            None => {
                self.messages.clear();
                self.loading_messages = true;
            },
        }
        self.mode = AppMode::Messages;
    }

    /// Chooses the selected line of the sidebar: a section or a server is
    /// expanded or collapsed, and a channel is entered. Where the selection
    /// is below the last line nothing happens.
    pub fn select_sidebar_item(&mut self)
        requires
            old(self).wf(),
        ensures
            final(self).wf(),
            if old(self).selected_sidebar_idx < old(self).sidebar().len() {
                chose_item(
                    *old(self),
                    old(self).sidebar()[old(self).selected_sidebar_idx as int],
                    *final(self),
                )
            } else {
                *final(self) == *old(self)
            },
    {
        let mut items = self.get_sidebar_items();
        if self.selected_sidebar_idx >= items.len() {
            return;
        }
        let item = items.remove(self.selected_sidebar_idx);
        match item {
            SidebarItem::DmSection => {
                self.dm_section_expanded = !self.dm_section_expanded;
                if self.dm_section_expanded && self.dms.len() == 0 {
                    self.loading_dms = true;
                }
            },
            SidebarItem::DmChannel(dm) => {
                self.enter_channel(&dm.id);
            },
            SidebarItem::ServerSection => {},
            SidebarItem::Server(guild) => {
                match find_guild(&self.guilds, guild.id.as_str()) {
                    Some(i) => {
                        let mut changed = self.guilds[i].duplicate();
                        changed.toggle_expanded();
                        let unknown = !self.channel_cache.contains(changed.id.as_str());
                        if changed.expanded && unknown {
                            self.loading_channels = true;
                        }
                        self.guilds.set(i, changed);
                        proof {
                            assert(toggled_guild(*old(self), i as int, *self));
                        }
                    },
                    None => {},
                }
            },
            SidebarItem::Category { guild_id, category, expanded } => {
                self.toggle_category(guild_id.as_str(), category.id.as_str());
            },
            SidebarItem::Channel { guild_id, channel } => {
                if !channel.is_text_based() {
                    let text = match channel.kind {
                        ChannelType::Voice => "Cannot view messages in voice channels",
                        ChannelType::Stage => "Cannot view messages in stage channels",
                        _ => "Cannot view messages in this type of channels",
                    };
                    self.notifications.push(Notification::info(text));
                    assert(self.notifications@.drop_last() == old(self).notifications@);
                } else {
                    self.enter_channel(&channel.id);
                }
            },
        }
    }
}

} // verus!
