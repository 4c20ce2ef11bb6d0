//! The state of the client: what is shown, what is selected, and what is
//! waiting to be loaded.

use vstd::prelude::*;
use crate::app::mode::AppMode;
use crate::app::sidebar::{get_items, holds_text, sidebar_items, SidebarItem};
use crate::app::state::{channel_name_is, get_channel_name, get_guild_name, guild_name_is};
use crate::config::keybinds::texts_view;
use crate::config::{Config, Theme};
use crate::disk_cache::listing::CacheStats;
use crate::health::CacheHealthMonitor;
use crate::memory_cache::KeyedStore;
use crate::models::{AttachedFile, ChannelList, DmChannel, Guild, Message, Notification};
use crate::text::same_text;
use crate::ui::image::ImageRenderer;

verus! {

/// The state of the client.
pub struct App {
    pub mode: AppMode,
    pub dms: Vec<DmChannel>,
    pub dm_section_expanded: bool,
    pub guilds: Vec<Guild>,
    pub selected_sidebar_idx: usize,
    pub selected_channel: Option<String>,
    pub messages: Vec<Message>,
    pub message_scroll: usize,
    pub input: Vec<char>,
    pub input_cursor: usize,
    pub attached_files: Vec<AttachedFile>,
    pub channel_cache: KeyedStore<ChannelList>,
    pub expanded_categories: KeyedStore<Vec<String>>,
    pub message_cache: KeyedStore<Vec<Message>>,
    pub config: Config,
    pub typing_users: Vec<String>,
    pub settings_selected: usize,
    pub loading_channels: bool,
    pub loading_messages: bool,
    pub loading_dms: bool,
    pub notifications: Vec<Notification>,
    pub image_renderer: ImageRenderer,
    pub cache_stats: Option<CacheStats>,
    pub monitor: CacheHealthMonitor,
}

/// The notifications that are still shown once those marked as over were
/// taken down.
pub open spec fn still_shown(notifications: Seq<Notification>, over: Seq<bool>) -> Seq<Notification>
    decreases notifications.len(),
{
    if notifications.len() == 0 || over.len() != notifications.len() {
        notifications
    } else {
        let rest = still_shown(notifications.drop_last(), over.drop_last());
        if over.last() {
            rest
        } else {
            rest.push(notifications.last())
        }
    }
}

/// The expanded categories of a server after one of them was toggled: a
/// category that was among them is taken out, and one that was not is put
/// behind them.
pub open spec fn toggled(ids: Seq<Seq<char>>, id: Seq<char>) -> Seq<Seq<char>>
    decreases ids.len(),
{
    if ids.contains(id) {
        without(ids, id)
    } else {
        ids.push(id)
    }
}

/// The ids without `id`.
pub open spec fn without(ids: Seq<Seq<char>>, id: Seq<char>) -> Seq<Seq<char>>
    decreases ids.len(),
{
    if ids.len() == 0 {
        ids
    } else if ids.last() == id {
        without(ids.drop_last(), id)
    } else {
        without(ids.drop_last(), id).push(ids.last())
    }
}

/// Taking an id out leaves none of it behind.
pub proof fn lemma_without(ids: Seq<Seq<char>>, id: Seq<char>)
    ensures
        !without(ids, id).contains(id),
    decreases ids.len(),
{
    if ids.len() > 0 {
        lemma_without(ids.drop_last(), id);
        let rest = without(ids.drop_last(), id);
        if ids.last() != id {
            assert forall|i: int| 0 <= i < rest.push(ids.last()).len() implies rest.push(
                ids.last(),
            )[i] != id by {
                if i < rest.len() {
                    assert(rest.contains(rest[i]));
                }
            }
        }
    }
}

/// Toggling flips whether the category is among the expanded ones.
pub proof fn lemma_toggle_flips(ids: Seq<Seq<char>>, id: Seq<char>)
    ensures
        toggled(ids, id).contains(id) == !ids.contains(id),
{
    lemma_without(ids, id);
    if !ids.contains(id) {
        assert(ids.push(id)[ids.len() as int] == id);
    }
}

/// The ids without `id`.
fn remove_text(ids: Vec<String>, id: &str) -> (out: Vec<String>)
    ensures
        texts_view(out@) == without(texts_view(ids@), id@),
{
    let mut out: Vec<String> = Vec::new();
    let mut rest = ids;
    let ghost all = rest@;
    let mut i: usize = 0;
    assert(texts_view(out@) == without(texts_view(all).take(0), id@));
    while i < rest.len()
        invariant
            i <= rest.len(),
            rest@ == all,
            texts_view(out@) == without(texts_view(all).take(i as int), id@),
        decreases rest.len() - i,
    {
        proof {
            let views = texts_view(all);
            assert(views.take(i + 1).drop_last() == views.take(i as int));
            assert(views.take(i + 1).last() == all[i as int]@);
        }
        if !same_text(rest[i].as_str(), id) {
            let ghost before = out@;
            let kept = rest[i].clone();
            out.push(kept);
            assert(texts_view(out@) == texts_view(before).push(all[i as int]@));
        }
        i += 1;
    }
    assert(texts_view(all).take(all.len() as int) == texts_view(all));
    out
}

impl App {
    /// The stores of the state are in order.
    pub open spec fn wf(&self) -> bool {
        &&& self.channel_cache.wf()
        &&& self.expanded_categories.wf()
        &&& self.message_cache.wf()
        &&& self.image_renderer.wf()
        &&& self.input_cursor <= self.input@.len()
    }

    /// The expanded categories of a server.
    pub open spec fn expanded_in(&self, guild_id: Seq<char>) -> Seq<Seq<char>> {
        if self.expanded_categories@.dom().contains(guild_id) {
            texts_view(self.expanded_categories@[guild_id]@)
        } else {
            Seq::empty()
        }
    }

    /// The state of a client that has just started: the sidebar has the
    /// keyboard, the direct messages are expanded, and nothing is loaded.
    pub fn new(config: Config, image_renderer: ImageRenderer) -> (app: App)
        requires
            image_renderer.wf(),
        ensures
            app.wf(),
            app.mode is Sidebar,
            app.dm_section_expanded,
            app.dms@.len() == 0,
            app.guilds@.len() == 0,
            app.selected_sidebar_idx == 0,
            app.selected_channel is None,
            app.messages@.len() == 0,
            app.message_scroll == 0,
            app.input@.len() == 0,
            app.input_cursor == 0,
            app.attached_files@.len() == 0,
            app.channel_cache@ == Map::<Seq<char>, ChannelList>::empty(),
            app.expanded_categories@ == Map::<Seq<char>, Vec<String>>::empty(),
            app.message_cache@ == Map::<Seq<char>, Vec<Message>>::empty(),
            app.config == config,
            app.settings_selected == 0,
            !app.loading_channels && !app.loading_messages && !app.loading_dms,
            app.notifications@.len() == 0,
            app.image_renderer == image_renderer,
            app.cache_stats is None,
            !app.monitor.warning_active(),
            app.monitor.last_clear() == 0,
    {
        App {
            mode: AppMode::Sidebar,
            dms: Vec::new(),
            dm_section_expanded: true,
            guilds: Vec::new(),
            selected_sidebar_idx: 0,
            selected_channel: None,
            messages: Vec::new(),
            message_scroll: 0,
            input: Vec::new(),
            input_cursor: 0,
            attached_files: Vec::new(),
            channel_cache: KeyedStore::new(),
            expanded_categories: KeyedStore::new(),
            message_cache: KeyedStore::new(),
            config,
            typing_users: Vec::new(),
            settings_selected: 0,
            loading_channels: false,
            loading_messages: false,
            loading_dms: false,
            notifications: Vec::new(),
            image_renderer,
            cache_stats: None,
            monitor: CacheHealthMonitor::new(),
        }
    }

    /// Expands a collapsed category of a server and collapses an expanded
    /// one.
    pub fn toggle_category(&mut self, guild_id: &str, category_id: &str)
        requires
            old(self).wf(),
        ensures
            final(self).wf(),
            final(self).expanded_in(guild_id@) == toggled(
                old(self).expanded_in(guild_id@),
                category_id@,
            ),
            forall|other: Seq<char>|
                other != guild_id@ ==> #[trigger] final(self).expanded_in(other) == old(
                    self,
                ).expanded_in(other),
            *final(self) == (App { expanded_categories: final(self).expanded_categories, ..*old(self) }),
    {
        let ghost before = self.expanded_categories@;
        let current = match self.expanded_categories.remove(guild_id) {
            Some(ids) => ids,
            None => Vec::new(),
        };
        let ghost current_view = texts_view(current@);
        assert(current_view == old(self).expanded_in(guild_id@));
        let next = if holds_text(&current, category_id) {
            remove_text(current, category_id)
        } else {
            let mut ids = current;
            let ghost start = ids@;
            ids.push(category_id.to_owned());
            assert(texts_view(ids@) == texts_view(start).push(category_id@));
            ids
        };
        self.expanded_categories.insert(guild_id, next);
    }

    /// Whether a category of a server is expanded.
    pub fn is_category_expanded(&self, guild_id: &str, category_id: &str) -> (yes: bool)
        requires
            self.wf(),
        ensures
            yes == self.expanded_in(guild_id@).contains(category_id@),
    {
        match self.expanded_categories.get(guild_id) {
            Some(ids) => holds_text(ids, category_id),
            None => false,
        }
    }

    /// The channels of a server, if they are known.
    pub fn get_guild_channels(&self, guild_id: &str) -> (list: Option<&ChannelList>)
        requires
            self.wf(),
        ensures
            match list {
                Some(l) => self.channel_cache@.dom().contains(guild_id@) && *l
                    == self.channel_cache@[guild_id@],
                None => !self.channel_cache@.dom().contains(guild_id@),
            },
    {
        self.channel_cache.get(guild_id)
    }

    /// The lines of the sidebar, from the top.
    pub fn get_sidebar_items(&self) -> (items: Vec<SidebarItem>)
        requires
            self.wf(),
        ensures
            items@ == self.sidebar(),
    {
        get_items(
            &self.dms,
            self.dm_section_expanded,
            &self.guilds,
            &self.channel_cache,
            &self.expanded_categories,
        )
    }

    /// The lines of the sidebar, from the top.
    pub open spec fn sidebar(&self) -> Seq<SidebarItem> {
        sidebar_items(
            self.dms@,
            self.dm_section_expanded,
            self.guilds@,
            self.channel_cache@,
            self.expanded_categories@,
        )
    }

    /// The name of the server of the selected channel.
    pub fn get_current_guild_name(&self) -> (name: Option<String>)
        requires
            self.wf(),
        ensures
            guild_name_is(
                self.selected_channel,
                self.dms@,
                self.guilds@,
                self.channel_cache.keys(),
                self.channel_cache@,
                name,
            ),
    {
        get_guild_name(&self.selected_channel, &self.dms, &self.guilds, &self.channel_cache)
    }

    /// The name of the selected channel.
    pub fn get_current_channel_name(&self) -> (name: Option<String>)
        requires
            self.wf(),
        ensures
            channel_name_is(
                self.selected_channel,
                self.dms@,
                self.channel_cache.keys(),
                self.channel_cache@,
                name,
            ),
    {
        get_channel_name(&self.selected_channel, &self.dms, &self.channel_cache)
    }

    /// Shows a notification, behind those that are shown already.
    pub fn add_notification(&mut self, notification: Notification)
        ensures
            final(self).notifications@ == old(self).notifications@.push(notification),
            *final(self) == (App { notifications: final(self).notifications, ..*old(self) }),
    {
        self.notifications.push(notification);
    }

    /// Takes down the notifications that are marked as over, and keeps the
    /// others in their order.
    pub fn drop_notifications(&mut self, over: &Vec<bool>)
        requires
            over@.len() == old(self).notifications@.len(),
        ensures
            final(self).notifications@ == still_shown(old(self).notifications@, over@),
            *final(self) == (App { notifications: final(self).notifications, ..*old(self) }),
    {
        let mut shown: Vec<Notification> = Vec::new();
        core::mem::swap(&mut shown, &mut self.notifications);
        let ghost all = shown@;
        let mut kept: Vec<Notification> = Vec::new();
        let mut i: usize = 0;
        let count = over.len();
        assert(kept@ == still_shown(all.take(0), over@.take(0)));
        while shown.len() > 0
            invariant
                count == over@.len(),
                over@.len() == all.len(),
                i + shown@.len() == all.len(),
                shown@ == all.skip(i as int),
                kept@ == still_shown(all.take(i as int), over@.take(i as int)),
            decreases shown.len(),
        {
            let first = shown.remove(0);
            proof {
                assert(first == all[i as int]);
                assert(all.skip(i as int).remove(0) == all.skip(i + 1));
                assert(all.take(i + 1).drop_last() == all.take(i as int));
                assert(over@.take(i + 1).drop_last() == over@.take(i as int));
                assert(all.take(i + 1).last() == first);
                assert(over@.take(i + 1).last() == over@[i as int]);
            }
            if !over[i] {
                kept.push(first);
            }
            i += 1;
        }
        proof {
            assert(all.take(all.len() as int) == all);
            assert(over@.take(all.len() as int) == over@);
        }
        self.notifications = kept;
    }

    /// Takes down the notifications whose time is up, by the clock. Whatever
    /// the clock says, those that stay are those that it does not call
    /// over, in their order, and none of them is shown for no time at all.
    pub fn clear_expired_notifications(&mut self)
        ensures
            exists|over: Seq<bool>|
                {
                    &&& over.len() == old(self).notifications@.len()
                    &&& forall|i: int|
                        0 <= i < over.len() && old(self).notifications@[i].duration_ms == 0
                            ==> over[i]
                    &&& final(self).notifications@ == #[trigger] still_shown(
                        old(self).notifications@,
                        over,
                    )
                },
            *final(self) == (App { notifications: final(self).notifications, ..*old(self) }),
    {
        let mut over: Vec<bool> = Vec::new();
        let mut i: usize = 0;
        while i < self.notifications.len()
            invariant
                i <= self.notifications.len(),
                *self == *old(self),
                over@.len() == i,
                forall|k: int| 0 <= k < i && self.notifications@[k].duration_ms == 0 ==> over@[k],
            decreases self.notifications.len() - i,
        {
            over.push(self.notifications[i].is_expired());
            i += 1;
        }
        self.drop_notifications(&over);
    }

    /// The theme in use.
    pub fn theme(&self) -> (theme: &Theme)
        ensures
            *theme == self.config.theme,
    {
        &self.config.theme
    }

    /// Takes the theme that was read for the name in the settings, or the
    /// fallback theme where none could be read.
    pub fn reload_theme(&mut self, loaded: Option<Theme>)
        ensures
            loaded matches Some(theme) ==> final(self).config.theme == theme,
            loaded is None ==> final(self).config.theme.name@ == "Fallback"@,
            *final(self) == (App {
                config: Config { theme: final(self).config.theme, ..old(self).config },
                ..*old(self)
            }),
    {
        self.config.theme = match loaded {
            Some(theme) => theme,
            None => Theme::default(),
        };
    }

    /// Takes the statistics of the cache directory, where they could be had.
    pub fn update_cache_stats(&mut self, stats: Option<CacheStats>)
        ensures
            final(self).cache_stats == if stats is Some {
                stats
            } else {
                old(self).cache_stats
            },
            *final(self) == (App { cache_stats: final(self).cache_stats, ..*old(self) }),
    {
        match stats {
            Some(s) => {
                self.cache_stats = Some(s);
            },
            None => {},
        }
    }
}

} // verus!
