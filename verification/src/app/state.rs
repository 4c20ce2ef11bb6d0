//! The names shown in the header of the message view.

use vstd::prelude::*;
use crate::memory_cache::KeyedStore;
use crate::models::dm::display_name_of;
use crate::models::{ChannelList, DmChannel, Guild};
use crate::text::same_text;

verus! {

/// The place of the first direct-message channel of the given id, if there
/// is one.
pub fn find_dm(dms: &Vec<DmChannel>, id: &str) -> (at: Option<usize>)
    ensures
        match at {
            Some(i) => i < dms@.len() && dms@[i as int].id@ == id@ && forall|j: int|
                0 <= j < i ==> dms@[j].id@ != id@,
            None => forall|j: int| 0 <= j < dms@.len() ==> dms@[j].id@ != id@,
        },
{
    let mut i: usize = 0;
    while i < dms.len()
        invariant
            i <= dms.len(),
            forall|j: int| 0 <= j < i ==> dms@[j].id@ != id@,
        decreases dms.len() - i,
    {
        if same_text(dms[i].id.as_str(), id) {
            return Some(i);
        }
        i += 1;
    }
    None
}

/// The place of the first channel of the given id in a list, if there is
/// one.
pub fn find_channel(list: &ChannelList, id: &str) -> (at: Option<usize>)
    ensures
        match at {
            Some(i) => i < list.channels@.len() && list.channels@[i as int].id@ == id@ && forall|
                j: int,
            |
                0 <= j < i ==> list.channels@[j].id@ != id@,
            None => !has_channel(*list, id@),
        },
{
    let mut i: usize = 0;
    while i < list.channels.len()
        invariant
            i <= list.channels.len(),
            forall|j: int| 0 <= j < i ==> list.channels@[j].id@ != id@,
        decreases list.channels.len() - i,
    {
        if same_text(list.channels[i].id.as_str(), id) {
            return Some(i);
        }
        i += 1;
    }
    None
}

/// The place of the first server of the given id, if there is one.
pub fn find_guild(guilds: &Vec<Guild>, id: &str) -> (at: Option<usize>)
    ensures
        match at {
            Some(i) => i < guilds@.len() && guilds@[i as int].id@ == id@ && forall|j: int|
                0 <= j < i ==> guilds@[j].id@ != id@,
            None => forall|j: int| 0 <= j < guilds@.len() ==> guilds@[j].id@ != id@,
        },
{
    let mut i: usize = 0;
    while i < guilds.len()
        invariant
            i <= guilds.len(),
            forall|j: int| 0 <= j < i ==> guilds@[j].id@ != id@,
        decreases guilds.len() - i,
    {
        if same_text(guilds[i].id.as_str(), id) {
            return Some(i);
        }
        i += 1;
    }
    None
}

/// Whether a list holds a channel of the given id.
pub open spec fn has_channel(list: ChannelList, id: Seq<char>) -> bool {
    exists|j: int| 0 <= j < list.channels@.len() && #[trigger] list.channels@[j].id@ == id
}

/// Whether one of the direct-message channels has the given id.
pub open spec fn is_dm(dms: Seq<DmChannel>, id: Seq<char>) -> bool {
    exists|j: int| 0 <= j < dms.len() && #[trigger] dms[j].id@ == id
}

/// Whether the list at place `g` of the cache is the first, in the order of
/// the cache, that holds a channel of the given id.
pub open spec fn is_owner(
    order: Seq<Seq<char>>,
    channel_cache: Map<Seq<char>, ChannelList>,
    id: Seq<char>,
    g: int,
) -> bool {
    &&& 0 <= g < order.len()
    &&& channel_cache.dom().contains(order[g])
    &&& has_channel(channel_cache[order[g]], id)
    &&& forall|k: int| 0 <= k < g ==> !has_channel(channel_cache[#[trigger] order[k]], id)
}

/// Whether the channel at place `c` of a list is the first of the given id.
pub open spec fn is_first_channel(list: ChannelList, id: Seq<char>, c: int) -> bool {
    &&& 0 <= c < list.channels@.len()
    &&& list.channels@[c].id@ == id
    &&& forall|j: int| 0 <= j < c ==> list.channels@[j].id@ != id
}

/// Whether the server at place `i` of the list is the first of the given
/// id.
pub open spec fn is_first_guild(guilds: Seq<Guild>, guild_id: Seq<char>, i: int) -> bool {
    &&& 0 <= i < guilds.len()
    &&& guilds[i].id@ == guild_id
    &&& forall|j: int| 0 <= j < i ==> guilds[j].id@ != guild_id
}

/// Whether one of the lists holds a channel of the given id.
pub open spec fn is_guild_channel(channel_cache: Map<Seq<char>, ChannelList>, id: Seq<char>) -> bool {
    exists|guild_id: Seq<char>| #[trigger]
        channel_cache.dom().contains(guild_id) && has_channel(channel_cache[guild_id], id)
}

/// Whether `name` is the name of the selected channel: the display name of
/// the first direct-message channel of that id; else the name of the first
/// channel of that id in the first list of the cache that holds one, the
/// lists taken in the given order; else nothing.
pub open spec fn channel_name_is(
    selected_channel: Option<String>,
    dms: Seq<DmChannel>,
    order: Seq<Seq<char>>,
    channel_cache: Map<Seq<char>, ChannelList>,
    name: Option<String>,
) -> bool {
    match selected_channel {
        None => name is None,
        Some(id) => if is_dm(dms, id@) {
            name matches Some(n) && exists|i: int|
                0 <= i < dms.len() && (#[trigger] dms[i]).id@ == id@ && (forall|j: int|
                    0 <= j < i ==> dms[j].id@ != id@) && n@ == display_name_of(
                    dms[i].recipient.username@,
                    dms[i].recipient.discriminator@,
                )
        } else if is_guild_channel(channel_cache, id@) {
            name matches Some(n) && exists|g: int, c: int|
                #![trigger is_owner(order, channel_cache, id@, g), is_first_channel(channel_cache[order[g]], id@, c)]
                is_owner(order, channel_cache, id@, g) && is_first_channel(
                    channel_cache[order[g]],
                    id@,
                    c,
                ) && n@ == channel_cache[order[g]].channels@[c].name@
        } else {
            name is None
        },
    }
}

/// Whether `name` is the name of the server of the selected channel:
/// `Direct Messages` for a direct-message channel; else, for the first list
/// of the cache that holds a channel of that id, the lists taken in the
/// given order, the name of the first server in the list of servers that
/// the list belongs to, where there is one; else nothing.
pub open spec fn guild_name_is(
    selected_channel: Option<String>,
    dms: Seq<DmChannel>,
    guilds: Seq<Guild>,
    order: Seq<Seq<char>>,
    channel_cache: Map<Seq<char>, ChannelList>,
    name: Option<String>,
) -> bool {
    match selected_channel {
        None => name is None,
        Some(id) => if is_dm(dms, id@) {
            name matches Some(n) && n@ == "Direct Messages"@
        } else if is_guild_channel(channel_cache, id@) {
            exists|g: int| #[trigger]
                is_owner(order, channel_cache, id@, g) && match name {
                    Some(n) => exists|i: int| #[trigger]
                        is_first_guild(guilds, order[g], i) && guilds[i].name@ == n@,
                    None => forall|i: int| 0 <= i < guilds.len() ==> guilds[i].id@ != order[g],
                }
        } else {
            name is None
        },
    }
}

/// The first server, in the order of the cache, that holds a channel of the
/// given id, and the first such channel in its list.
fn owner_of(channel_cache: &KeyedStore<ChannelList>, id: &str) -> (found: Option<(usize, usize)>)
    requires
        channel_cache.wf(),
    ensures
        match found {
            Some((g, c)) => {
                &&& is_owner(channel_cache.keys(), channel_cache@, id@, g as int)
                &&& is_first_channel(channel_cache@[channel_cache.keys()[g as int]], id@, c as int)
            },
            None => !is_guild_channel(channel_cache@, id@),
        },
{
    proof {
        channel_cache.lemma_keys();
    }
    let mut g: usize = 0;
    while g < channel_cache.len()
        invariant
            channel_cache.wf(),
            g <= channel_cache.count(),
            channel_cache.keys().len() == channel_cache.count(),
            forall|k: int|
                0 <= k < g ==> !has_channel(channel_cache@[#[trigger] channel_cache.keys()[k]], id@),
        decreases channel_cache.count() - g,
    {
        let (_, list) = channel_cache.entry_at(g);
        match find_channel(list, id) {
            Some(c) => {
                assert(has_channel(*list, id@)) by {
                    assert(list.channels@[c as int].id@ == id@);
                }
                return Some((g, c));
            },
            None => {},
        }
        g += 1;
    }
    proof {
        channel_cache.lemma_keys();
        assert forall|guild_id: Seq<char>| #[trigger]
            channel_cache@.dom().contains(guild_id) implies !has_channel(
            channel_cache@[guild_id],
            id@,
        ) by {
            assert(channel_cache.keys().contains(guild_id));
            let k = choose|k: int|
                0 <= k < channel_cache.keys().len() && channel_cache.keys()[k] == guild_id;
            assert(!has_channel(channel_cache@[channel_cache.keys()[k]], id@));
        }
    }
    None
}

/// The name of the selected channel: the display name of the first
/// direct-message channel of that id, else the name of the first channel of
/// that id in the first list of the cache that holds one, else nothing.
pub fn get_channel_name(
    selected_channel: &Option<String>,
    dms: &Vec<DmChannel>,
    channel_cache: &KeyedStore<ChannelList>,
) -> (name: Option<String>)
    requires
        channel_cache.wf(),
    ensures
        channel_name_is(*selected_channel, dms@, channel_cache.keys(), channel_cache@, name),
{
    match selected_channel {
        None => None,
        Some(id) => {
            match find_dm(dms, id.as_str()) {
                Some(i) => {
                    return Some(dms[i].display_name());
                },
                None => {},
            }
            match owner_of(channel_cache, id.as_str()) {
                Some((g, c)) => {
                    proof {
                        channel_cache.lemma_keys();
                    }
                    let (_, list) = channel_cache.entry_at(g);
                    let name = list.channels[c].name.clone();
                    proof {
                        let guild_id = channel_cache.keys()[g as int];
                        assert(is_guild_channel(channel_cache@, id@)) by {
                            assert(channel_cache@.dom().contains(guild_id));
                        }
                    }
                    Some(name)
                },
                None => None,
            }
        },
    }
}

/// The name of the server of the selected channel: `Direct Messages` for a
/// direct-message channel; else the name of the first server in the list
/// that the first list of the cache with a channel of that id belongs to,
/// where there is such a server; else nothing.
pub fn get_guild_name(
    selected_channel: &Option<String>,
    dms: &Vec<DmChannel>,
    guilds: &Vec<Guild>,
    channel_cache: &KeyedStore<ChannelList>,
) -> (name: Option<String>)
    requires
        channel_cache.wf(),
    ensures
        guild_name_is(*selected_channel, dms@, guilds@, channel_cache.keys(), channel_cache@, name),
{
    match selected_channel {
        None => None,
        Some(id) => {
            match find_dm(dms, id.as_str()) {
                Some(_) => {
                    return Some("Direct Messages".to_owned());
                },
                None => {},
            }
            match owner_of(channel_cache, id.as_str()) {
                Some((g, c)) => {
                    proof {
                        channel_cache.lemma_keys();
                    }
                    let (guild_id, _) = channel_cache.entry_at(g);
                    proof {
                        let key = channel_cache.keys()[g as int];
                        assert(is_guild_channel(channel_cache@, id@)) by {
                            assert(channel_cache@.dom().contains(key));
                        }
                    }
                    match find_guild(guilds, guild_id) {
                        Some(i) => {
                            assert(is_first_guild(guilds@, channel_cache.keys()[g as int], i as int));
                            Some(guilds[i].name.clone())
                        },
                        None => None,
                    }
                },
                None => None,
            }
        },
    }
}

} // verus!
