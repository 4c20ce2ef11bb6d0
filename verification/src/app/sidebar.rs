//! The sidebar: direct messages on top, then the servers, and under each
//! expanded server its channels, by category.

use vstd::prelude::*;
use crate::config::keybinds::texts_view;
use crate::memory_cache::KeyedStore;
use crate::models::channel::{chosen, referred, ChannelChoice};
use crate::models::{Channel, ChannelCategory, ChannelList, DmChannel, Guild};
use crate::text::same_text;

verus! {

/// One line of the sidebar.
#[derive(Debug, Clone)]
pub enum SidebarItem {
    /// The heading of the direct messages.
    DmSection,
    /// A direct-message channel.
    DmChannel(DmChannel),
    /// The heading of the servers.
    ServerSection,
    /// A server.
    Server(Guild),
    /// A category of a server, expanded or not.
    Category { guild_id: String, category: ChannelCategory, expanded: bool },
    /// A channel of a server.
    Channel { guild_id: String, channel: Channel },
}

/// The lines of the direct-message channels.
pub open spec fn dm_items(dms: Seq<DmChannel>) -> Seq<SidebarItem> {
    dms.map_values(|dm: DmChannel| SidebarItem::DmChannel(dm))
}

/// The lines of some channels of a server.
pub open spec fn channel_items(guild_id: String, channels: Seq<Channel>) -> Seq<SidebarItem> {
    channels.map_values(|channel: Channel| SidebarItem::Channel { guild_id, channel })
}

/// The lines of one category: its heading and, where it is expanded, its
/// channels.
pub open spec fn category_items(
    guild_id: String,
    category: ChannelCategory,
    channels: Seq<Channel>,
    expanded: Seq<Seq<char>>,
) -> Seq<SidebarItem> {
    let is_expanded = expanded.contains(category.id@);
    let heading = seq![SidebarItem::Category { guild_id, category, expanded: is_expanded }];
    if is_expanded {
        heading + channel_items(guild_id, chosen(ChannelChoice::InCategory(category.id@), channels))
    } else {
        heading
    }
}

/// The lines of a run of categories.
pub open spec fn categories_items(
    guild_id: String,
    categories: Seq<ChannelCategory>,
    channels: Seq<Channel>,
    expanded: Seq<Seq<char>>,
) -> Seq<SidebarItem>
    decreases categories.len(),
{
    if categories.len() == 0 {
        Seq::empty()
    } else {
        categories_items(guild_id, categories.drop_last(), channels, expanded) + category_items(
            guild_id,
            categories.last(),
            channels,
            expanded,
        )
    }
}

/// The categories of a server that are expanded.
pub open spec fn expanded_of(
    guild_id: Seq<char>,
    expanded_categories: Map<Seq<char>, Vec<String>>,
) -> Seq<Seq<char>> {
    if expanded_categories.dom().contains(guild_id) {
        texts_view(expanded_categories[guild_id]@)
    } else {
        Seq::empty()
    }
}

/// The lines of one server: the server itself and, where it is expanded and
/// its channels are known, the channels outside any category followed by
/// the categories.
pub open spec fn guild_items(
    guild: Guild,
    channel_cache: Map<Seq<char>, ChannelList>,
    expanded_categories: Map<Seq<char>, Vec<String>>,
) -> Seq<SidebarItem> {
    let heading = seq![SidebarItem::Server(guild)];
    if guild.expanded && channel_cache.dom().contains(guild.id@) {
        let list = channel_cache[guild.id@];
        heading + channel_items(guild.id, chosen(ChannelChoice::Uncategorized, list.channels@))
            + categories_items(
            guild.id,
            list.categories@,
            list.channels@,
            expanded_of(guild.id@, expanded_categories),
        )
    } else {
        heading
    }
}

/// The lines of a run of servers.
pub open spec fn guilds_items(
    guilds: Seq<Guild>,
    channel_cache: Map<Seq<char>, ChannelList>,
    expanded_categories: Map<Seq<char>, Vec<String>>,
) -> Seq<SidebarItem>
    decreases guilds.len(),
{
    if guilds.len() == 0 {
        Seq::empty()
    } else {
        guilds_items(guilds.drop_last(), channel_cache, expanded_categories) + guild_items(
            guilds.last(),
            channel_cache,
            expanded_categories,
        )
    }
}

/// The lines of the sidebar, from the top.
pub open spec fn sidebar_items(
    dms: Seq<DmChannel>,
    dm_section_expanded: bool,
    guilds: Seq<Guild>,
    channel_cache: Map<Seq<char>, ChannelList>,
    expanded_categories: Map<Seq<char>, Vec<String>>,
) -> Seq<SidebarItem> {
    let dm_lines = if dm_section_expanded {
        dm_items(dms)
    } else {
        Seq::empty()
    };
    seq![SidebarItem::DmSection] + dm_lines + seq![SidebarItem::ServerSection] + guilds_items(
        guilds,
        channel_cache,
        expanded_categories,
    )
}

/// Whether `texts` holds `wanted`.
pub fn holds_text(texts: &Vec<String>, wanted: &str) -> (yes: bool)
    ensures
        yes == texts_view(texts@).contains(wanted@),
{
    let mut i: usize = 0;
    while i < texts.len()
        invariant
            i <= texts.len(),
            forall|j: int| 0 <= j < i ==> texts_view(texts@)[j] != wanted@,
        decreases texts.len() - i,
    {
        if same_text(texts[i].as_str(), wanted) {
            assert(texts_view(texts@)[i as int] == wanted@);
            return true;
        }
        i += 1;
    }
    false
}

/// Adds the lines of some channels of a server.
fn push_channels(items: &mut Vec<SidebarItem>, guild_id: &String, channels: &Vec<&Channel>)
    ensures
        final(items)@ == old(items)@ + channel_items(*guild_id, referred(channels@)),
{
    let ghost start = items@;
    let ghost all = referred(channels@);
    let mut i: usize = 0;
    assert(items@ == start + channel_items(*guild_id, all.take(0)));
    while i < channels.len()
        invariant
            i <= channels.len(),
            all == referred(channels@),
            items@ == start + channel_items(*guild_id, all.take(i as int)),
        decreases channels.len() - i,
    {
        let channel = channels[i].duplicate();
        items.push(SidebarItem::Channel { guild_id: guild_id.clone(), channel });
        proof {
            assert(channel_items(*guild_id, all.take(i + 1)) == channel_items(
                *guild_id,
                all.take(i as int),
            ).push(SidebarItem::Channel { guild_id: *guild_id, channel: all[i as int] }));
        }
        i += 1;
    }
    assert(all.take(channels.len() as int) == all);
}

/// Adds the lines of the categories of a server.
fn push_categories(
    items: &mut Vec<SidebarItem>,
    guild_id: &String,
    list: &ChannelList,
    expanded: Option<&Vec<String>>,
)
    ensures
        final(items)@ == old(items)@ + categories_items(
            *guild_id,
            list.categories@,
            list.channels@,
            match expanded {
                Some(ids) => texts_view(ids@),
                None => Seq::empty(),
            },
        ),
{
    let ghost start = items@;
    let ghost open_ids = match expanded {
        Some(ids) => texts_view(ids@),
        None => Seq::<Seq<char>>::empty(),
    };
    let mut i: usize = 0;
    assert(items@ == start + categories_items(*guild_id, list.categories@.take(0), list.channels@, open_ids));
    while i < list.categories.len()
        invariant
            i <= list.categories.len(),
            open_ids == match expanded {
                Some(ids) => texts_view(ids@),
                None => Seq::<Seq<char>>::empty(),
            },
            items@ == start + categories_items(
                *guild_id,
                list.categories@.take(i as int),
                list.channels@,
                open_ids,
            ),
        decreases list.categories.len() - i,
    {
        let category = &list.categories[i];
        let is_expanded = match expanded {
            Some(ids) => holds_text(ids, category.id.as_str()),
            None => false,
        };
        let ghost before = items@;
        items.push(
            SidebarItem::Category {
                guild_id: guild_id.clone(),
                category: category.duplicate(),
                expanded: is_expanded,
            },
        );
        if is_expanded {
            let inside = list.channels_in_category(category.id.as_str());
            push_channels(items, guild_id, &inside);
        }
        proof {
            assert(list.categories@.take(i + 1).drop_last() == list.categories@.take(i as int));
            assert(list.categories@.take(i + 1).last() == *category);
            assert(items@ == before + category_items(
                *guild_id,
                *category,
                list.channels@,
                open_ids,
            ));
        }
        i += 1;
    }
    assert(list.categories@.take(list.categories.len() as int) == list.categories@);
}

/// The lines of the sidebar, from the top: the direct messages, where their
/// section is expanded, and then the servers, each followed by its channels
/// where it is expanded and its channels are known.
pub fn get_items(
    dms: &Vec<DmChannel>,
    dm_section_expanded: bool,
    guilds: &Vec<Guild>,
    channel_cache: &KeyedStore<ChannelList>,
    expanded_categories: &KeyedStore<Vec<String>>,
) -> (items: Vec<SidebarItem>)
    requires
        channel_cache.wf(),
        expanded_categories.wf(),
    ensures
        items@ == sidebar_items(
            dms@,
            dm_section_expanded,
            guilds@,
            channel_cache@,
            expanded_categories@,
        ),
{
    let mut items: Vec<SidebarItem> = Vec::new();
    items.push(SidebarItem::DmSection);
    if dm_section_expanded {
        let ghost start = items@;
        let mut i: usize = 0;
        assert(items@ == start + dm_items(dms@.take(0)));
        while i < dms.len()
            invariant
                i <= dms.len(),
                items@ == start + dm_items(dms@.take(i as int)),
            decreases dms.len() - i,
        {
            items.push(SidebarItem::DmChannel(dms[i].duplicate()));
            proof {
                assert(dm_items(dms@.take(i + 1)) == dm_items(dms@.take(i as int)).push(
                    SidebarItem::DmChannel(dms@[i as int]),
                ));
            }
            i += 1;
        }
        assert(dms@.take(dms.len() as int) == dms@);
    }
    items.push(SidebarItem::ServerSection);
    let ghost top = items@;
    let mut g: usize = 0;
    assert(items@ == top + guilds_items(guilds@.take(0), channel_cache@, expanded_categories@));
    while g < guilds.len()
        invariant
            g <= guilds.len(),
            channel_cache.wf(),
            expanded_categories.wf(),
            items@ == top + guilds_items(guilds@.take(g as int), channel_cache@, expanded_categories@),
        decreases guilds.len() - g,
    {
        let guild = &guilds[g];
        let ghost before = items@;
        items.push(SidebarItem::Server(guild.duplicate()));
        if guild.expanded {
            match channel_cache.get(guild.id.as_str()) {
                Some(list) => {
                    let loose = list.uncategorized_channels();
                    push_channels(&mut items, &guild.id, &loose);
                    let expanded = expanded_categories.get(guild.id.as_str());
                    push_categories(&mut items, &guild.id, list, expanded);
                },
                None => {},
            }
        }
        proof {
            assert(guilds@.take(g + 1).drop_last() == guilds@.take(g as int));
            assert(guilds@.take(g + 1).last() == *guild);
            assert(items@ == before + guild_items(*guild, channel_cache@, expanded_categories@));
        }
        g += 1;
    }
    assert(guilds@.take(guilds.len() as int) == guilds@);
    items
}

} // verus!
