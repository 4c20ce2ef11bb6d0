//! The texts and looks of the lines of the sidebar.

use vstd::prelude::*;
use vstd::string::StringExecFns;
use crate::app::sidebar::SidebarItem;
use crate::models::channel::prefix_of;
use crate::models::dm::display_name_of;
use crate::text::{to_uppercase, uppercase};

verus! {

/// How a line of the sidebar looks.
#[derive(Debug, Clone, Copy, PartialEq, Eq, Structural)]
pub enum LineStyle {
    /// The heading of a section.
    Section,
    /// The heading of a category.
    Category,
    /// The line that the selection is on, while the sidebar has the
    /// keyboard.
    Selected,
    /// The line of the channel whose messages are shown.
    Active,
    /// Any other line.
    Plain,
}

/// The mark in front of something expanded or collapsed.
pub open spec fn arrow(expanded: bool) -> Seq<char> {
    if expanded {
        "▼ "@
    } else {
        "▶ "@
    }
}

/// What a line of the sidebar says.
pub open spec fn line_text(item: SidebarItem, dm_section_expanded: bool) -> Seq<char> {
    match item {
        SidebarItem::DmSection => arrow(dm_section_expanded) + "Direct Messages"@,
        SidebarItem::DmChannel(dm) => "  # "@ + display_name_of(
            dm.recipient.username@,
            dm.recipient.discriminator@,
        ),
        SidebarItem::ServerSection => "▼ Servers"@,
        SidebarItem::Server(guild) => "  "@ + arrow(guild.expanded) + guild.name@,
        SidebarItem::Category { guild_id, category, expanded } => "    "@ + arrow(expanded)
            + uppercase(category.name@),
        SidebarItem::Channel { guild_id, channel } => (if channel.parent_id is Some {
            "      "@
        } else {
            "    "@
        }) + prefix_of(channel.kind) + channel.name@,
    }
}

/// How a line of the sidebar looks: a heading as a heading, else the
/// selected line as selected while the sidebar has the keyboard, else the
/// line of the channel that is shown as active.
pub open spec fn line_style(
    item: SidebarItem,
    is_selected: bool,
    sidebar_has_keyboard: bool,
    selected_channel: Option<Seq<char>>,
) -> LineStyle {
    let is_active = match item {
        SidebarItem::DmChannel(dm) => selected_channel == Some(dm.id@),
        SidebarItem::Channel { guild_id, channel } => selected_channel == Some(channel.id@),
        _ => false,
    };
    if item is DmSection || item is ServerSection {
        LineStyle::Section
    } else if item is Category {
        LineStyle::Category
    } else if is_selected && sidebar_has_keyboard {
        LineStyle::Selected
    } else if is_active {
        LineStyle::Active
    } else {
        LineStyle::Plain
    }
}

/// What a line of the sidebar says.
pub fn line_of(item: &SidebarItem, dm_section_expanded: bool) -> (text: String)
    ensures
        text@ == line_text(*item, dm_section_expanded),
{
    match item {
        SidebarItem::DmSection => {
            let mut text = if dm_section_expanded {
                "▼ ".to_owned()
            } else {
                "▶ ".to_owned()
            };
            text.append("Direct Messages");
            text
        },
        SidebarItem::DmChannel(dm) => {
            let mut text = "  # ".to_owned();
            let name = dm.display_name();
            text.append(name.as_str());
            text
        },
        SidebarItem::ServerSection => "▼ Servers".to_owned(),
        SidebarItem::Server(guild) => {
            let mut text = "  ".to_owned();
            text.append(
                if guild.expanded {
                    "▼ "
                } else {
                    "▶ "
                },
            );
            text.append(guild.name.as_str());
            text
        },
        SidebarItem::Category { guild_id, category, expanded } => {
            let mut text = "    ".to_owned();
            text.append(
                if *expanded {
                    "▼ "
                } else {
                    "▶ "
                },
            );
            let name = to_uppercase(category.name.as_str());
            text.append(name.as_str());
            text
        },
        SidebarItem::Channel { guild_id, channel } => {
            let mut text = if channel.parent_id.is_some() {
                "      ".to_owned()
            } else {
                "    ".to_owned()
            };
            text.append(channel.prefix());
            text.append(channel.name.as_str());
            text
        },
    }
}

/// How a line of the sidebar looks.
pub fn style(
    item: &SidebarItem,
    is_selected: bool,
    sidebar_has_keyboard: bool,
    selected_channel: &Option<String>,
) -> (look: LineStyle)
    ensures
        look == line_style(
            *item,
            is_selected,
            sidebar_has_keyboard,
            match *selected_channel {
                Some(id) => Some(id@),
                None => None,
            },
        ),
{
    let is_active = match (item, selected_channel) {
        (SidebarItem::DmChannel(dm), Some(id)) => crate::text::same_text(
            dm.id.as_str(),
            id.as_str(),
        ),
        (SidebarItem::Channel { guild_id, channel }, Some(id)) => crate::text::same_text(
            channel.id.as_str(),
            id.as_str(),
        ),
        _ => false,
    };
    match item {
        SidebarItem::DmSection => LineStyle::Section,
        SidebarItem::ServerSection => LineStyle::Section,
        SidebarItem::Category { guild_id, category, expanded } => LineStyle::Category,
        _ => {
            if is_selected && sidebar_has_keyboard {
                LineStyle::Selected
            } else if is_active {
                LineStyle::Active
            } else {
                LineStyle::Plain
            }
        },
    }
}

} // verus!
