//! Channels, their categories and the channel list of a server.

use vstd::prelude::*;
use crate::models::ordering::{in_position_order, sort_by_position, Positioned};

verus! {

/// The kinds of channel.
#[derive(Debug, Clone, Copy, PartialEq, Eq, Structural)]
pub enum ChannelType {
    Text,
    Voice,
    Announcement,
    Stage,
    Forum,
    Category,
}

/// A channel of a server.
#[derive(Debug, Clone)]
pub struct Channel {
    pub id: String,
    pub name: String,
    pub kind: ChannelType,
    pub position: i32,
    pub parent_id: Option<String>,
}

/// A category that channels are grouped under.
#[derive(Debug, Clone)]
pub struct ChannelCategory {
    pub id: String,
    pub name: String,
    pub position: i32,
}

/// A channel as a mathematical value.
pub struct ChannelView {
    pub id: Seq<char>,
    pub name: Seq<char>,
    pub kind: ChannelType,
    pub position: int,
    pub parent_id: Option<Seq<char>>,
}

/// A category as a mathematical value.
pub struct CategoryView {
    pub id: Seq<char>,
    pub name: Seq<char>,
    pub position: int,
}

impl View for Channel {
    type V = ChannelView;

    open spec fn view(&self) -> ChannelView {
        ChannelView {
            id: self.id@,
            name: self.name@,
            kind: self.kind,
            position: self.position as int,
            parent_id: match self.parent_id {
                Some(p) => Some(p@),
                None => None,
            },
        }
    }
}

impl View for ChannelCategory {
    type V = CategoryView;

    open spec fn view(&self) -> CategoryView {
        CategoryView { id: self.id@, name: self.name@, position: self.position as int }
    }
}

impl Positioned for Channel {
    open spec fn position_of(&self) -> int {
        self.position as int
    }

    fn position(&self) -> (p: i32) {
        self.position
    }
}

impl Positioned for ChannelCategory {
    open spec fn position_of(&self) -> int {
        self.position as int
    }

    fn position(&self) -> (p: i32) {
        self.position
    }
}

/// What is written in front of the name of a channel of the given kind.
pub open spec fn prefix_of(kind: ChannelType) -> Seq<char> {
    match kind {
        ChannelType::Text => "# "@,
        ChannelType::Voice => "🔊 "@,
        ChannelType::Announcement => "📢 "@,
        ChannelType::Stage => "🎙️ "@,
        ChannelType::Forum => "💬 "@,
        ChannelType::Category => ""@,
    }
}

/// Whether messages can be read in a channel of the given kind.
pub open spec fn is_text_kind(kind: ChannelType) -> bool {
    kind == ChannelType::Text || kind == ChannelType::Announcement || kind == ChannelType::Forum
}

impl Channel {
    /// A channel that stands under no category.
    pub fn new(id: &str, name: &str, kind: ChannelType, position: i32) -> (channel: Channel)
        ensures
            channel@ == (ChannelView {
                id: id@,
                name: name@,
                kind,
                position: position as int,
                parent_id: None,
            }),
    {
        Channel { id: id.to_owned(), name: name.to_owned(), kind, position, parent_id: None }
    }

    /// The channel, moved under the category `parent_id`.
    pub fn with_parent(self, parent_id: &str) -> (channel: Channel)
        ensures
            channel@ == (ChannelView { parent_id: Some(parent_id@), ..self@ }),
    {
        Channel {
            id: self.id,
            name: self.name,
            kind: self.kind,
            position: self.position,
            parent_id: Some(parent_id.to_owned()),
        }
    }

    /// A copy of the channel.
    pub fn duplicate(&self) -> (copy: Channel)
        ensures
            copy == *self,
    {
        Channel {
            id: self.id.clone(),
            name: self.name.clone(),
            kind: self.kind,
            position: self.position,
            parent_id: match &self.parent_id {
                Some(parent) => Some(parent.clone()),
                None => None,
            },
        }
    }

    /// What is written in front of the channel's name.
    pub fn prefix(&self) -> (text: &'static str)
        ensures
            text@ == prefix_of(self.kind),
    {
        match self.kind {
            ChannelType::Text => "# ",
            ChannelType::Voice => "🔊 ",
            ChannelType::Announcement => "📢 ",
            ChannelType::Stage => "🎙️ ",
            ChannelType::Forum => "💬 ",
            ChannelType::Category => "",
        }
    }

    /// Whether messages can be read in the channel.
    pub fn is_text_based(&self) -> (yes: bool)
        ensures
            yes == is_text_kind(self.kind),
    {
        match self.kind {
            ChannelType::Text | ChannelType::Announcement | ChannelType::Forum => true,
            _ => false,
        }
    }

    /// Whether the channel stands under the category `category_id`.
    pub fn is_in_category(&self, category_id: &str) -> (yes: bool)
        ensures
            yes == (self@.parent_id == Some(category_id@)),
    {
        match &self.parent_id {
            Some(parent) => *parent == category_id.to_owned(),
            None => false,
        }
    }
}

impl ChannelCategory {
    /// A copy of the category.
    pub fn duplicate(&self) -> (copy: ChannelCategory)
        ensures
            copy == *self,
    {
        ChannelCategory { id: self.id.clone(), name: self.name.clone(), position: self.position }
    }

    /// A category.
    pub fn new(id: &str, name: &str, position: i32) -> (category: ChannelCategory)
        ensures
            category@ == (CategoryView { id: id@, name: name@, position: position as int }),
    {
        ChannelCategory { id: id.to_owned(), name: name.to_owned(), position }
    }
}

/// The channels and categories of a server.
#[derive(Debug, Clone)]
pub struct ChannelList {
    pub categories: Vec<ChannelCategory>,
    pub channels: Vec<Channel>,
}

/// A way of choosing among the channels of a list.
pub enum ChannelChoice {
    /// Those that stand under no category.
    Uncategorized,
    /// Those that stand under the category of this id.
    InCategory(Seq<char>),
    /// Those in which messages can be read.
    TextBased,
}

/// Whether a channel is among those chosen.
pub open spec fn is_chosen(choice: ChannelChoice, channel: ChannelView) -> bool {
    match choice {
        ChannelChoice::Uncategorized => channel.parent_id is None,
        ChannelChoice::InCategory(id) => channel.parent_id == Some(id),
        ChannelChoice::TextBased => is_text_kind(channel.kind),
    }
}

/// The channels chosen from `channels`, in the order in which they stand.
pub open spec fn chosen(choice: ChannelChoice, channels: Seq<Channel>) -> Seq<Channel>
    decreases channels.len(),
{
    if channels.len() == 0 {
        channels
    } else if is_chosen(choice, channels.last()@) {
        chosen(choice, channels.drop_last()).push(channels.last())
    } else {
        chosen(choice, channels.drop_last())
    }
}

/// The channels that a vector of references refers to.
pub open spec fn referred(refs: Seq<&Channel>) -> Seq<Channel> {
    refs.map_values(|r: &Channel| *r)
}

impl ChannelList {
    /// A list without channels.
    pub fn new() -> (list: ChannelList)
        ensures
            list.categories@.len() == 0,
            list.channels@.len() == 0,
    {
        ChannelList { categories: Vec::new(), channels: Vec::new() }
    }

    /// Puts categories and channels in the order of their positions, those
    /// of equal position in the order in which they came.
    pub fn sort(&mut self)
        ensures
            final(self).categories@ == in_position_order(old(self).categories@),
            final(self).channels@ == in_position_order(old(self).channels@),
    {
        sort_by_position(&mut self.categories);
        sort_by_position(&mut self.channels);
    }

    /// The channels that stand under no category.
    pub fn uncategorized_channels(&self) -> (out: Vec<&Channel>)
        ensures
            referred(out@) == chosen(ChannelChoice::Uncategorized, self.channels@),
    {
        let mut out: Vec<&Channel> = Vec::new();
        let mut i: usize = 0;
        assert(referred(out@) == chosen(ChannelChoice::Uncategorized, self.channels@.take(0)));
        while i < self.channels.len()
            invariant
                i <= self.channels.len(),
                referred(out@) == chosen(ChannelChoice::Uncategorized, self.channels@.take(i as int)),
            decreases self.channels.len() - i,
        {
            let channel = &self.channels[i];
            proof {
                assert(self.channels@.take(i + 1).drop_last() == self.channels@.take(i as int));
                assert(self.channels@.take(i + 1).last() == *channel);
            }
            if channel.parent_id.is_none() {
                let ghost before = out@;
                out.push(channel);
                assert(referred(out@) == referred(before).push(*channel));
            }
            i += 1;
        }
        assert(self.channels@.take(self.channels.len() as int) == self.channels@);
        out
    }

    /// The channels that stand under the category `category_id`.
    pub fn channels_in_category(&self, category_id: &str) -> (out: Vec<&Channel>)
        ensures
            referred(out@) == chosen(ChannelChoice::InCategory(category_id@), self.channels@),
    {
        let ghost choice = ChannelChoice::InCategory(category_id@);
        let mut out: Vec<&Channel> = Vec::new();
        let mut i: usize = 0;
        assert(referred(out@) == chosen(choice, self.channels@.take(0)));
        while i < self.channels.len()
            invariant
                i <= self.channels.len(),
                choice == ChannelChoice::InCategory(category_id@),
                referred(out@) == chosen(choice, self.channels@.take(i as int)),
            decreases self.channels.len() - i,
        {
            let channel = &self.channels[i];
            proof {
                assert(self.channels@.take(i + 1).drop_last() == self.channels@.take(i as int));
                assert(self.channels@.take(i + 1).last() == *channel);
            }
            if channel.is_in_category(category_id) {
                let ghost before = out@;
                out.push(channel);
                assert(referred(out@) == referred(before).push(*channel));
            }
            i += 1;
        }
        assert(self.channels@.take(self.channels.len() as int) == self.channels@);
        out
    }

    /// The channels in which messages can be read.
    pub fn text_channels(&self) -> (out: Vec<&Channel>)
        ensures
            referred(out@) == chosen(ChannelChoice::TextBased, self.channels@),
    {
        let mut out: Vec<&Channel> = Vec::new();
        let mut i: usize = 0;
        assert(referred(out@) == chosen(ChannelChoice::TextBased, self.channels@.take(0)));
        while i < self.channels.len()
            invariant
                i <= self.channels.len(),
                referred(out@) == chosen(ChannelChoice::TextBased, self.channels@.take(i as int)),
            decreases self.channels.len() - i,
        {
            let channel = &self.channels[i];
            proof {
                assert(self.channels@.take(i + 1).drop_last() == self.channels@.take(i as int));
                assert(self.channels@.take(i + 1).last() == *channel);
            }
            if channel.is_text_based() {
                let ghost before = out@;
                out.push(channel);
                assert(referred(out@) == referred(before).push(*channel));
            }
            i += 1;
        }
        assert(self.channels@.take(self.channels.len() as int) == self.channels@);
        out
    }
}

} // verus!
