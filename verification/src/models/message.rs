//! Messages and what is attached to them.

use vstd::prelude::*;
use crate::text::{chars_of, is_prefix, lowercase, same_text, starts_with, string_of, to_lowercase};

verus! {

/// A message of a channel.
#[derive(Debug, Clone)]
pub struct Message {
    pub id: String,
    pub channel_id: String,
    pub author: String,
    pub author_id: String,
    pub author_avatar: Option<String>,
    pub content: String,
    pub timestamp: String,
    pub attachments: Vec<MessageAttachment>,
}

/// A file attached to a message, as the chat platform describes it.
#[derive(Debug, Clone)]
pub struct MessageAttachment {
    pub id: String,
    pub filename: String,
    pub url: String,
    pub proxy_url: String,
    pub width: Option<u32>,
    pub height: Option<u32>,
    pub content_type: Option<String>,
}

/// What follows the last dot of a file name, or the whole name where it has
/// no dot.
pub open spec fn extension_of(filename: Seq<char>) -> Seq<char>
    decreases filename.len(),
{
    if filename.len() == 0 {
        filename
    } else if filename.last() == '.' {
        Seq::empty()
    } else {
        extension_of(filename.drop_last()).push(filename.last())
    }
}

/// Whether an extension, in lower case, is that of an image.
pub open spec fn is_image_extension(ext: Seq<char>) -> bool {
    ext == "png"@ || ext == "jpg"@ || ext == "jpeg"@ || ext == "gif"@ || ext == "webp"@
}

/// Whether an attachment is an image: by its content type where it declares
/// one, and by the extension of its file name otherwise.
pub open spec fn is_image_attachment(content_type: Option<Seq<char>>, filename: Seq<char>) -> bool {
    match content_type {
        Some(declared) => is_prefix("image/"@, declared),
        None => is_image_extension(lowercase(extension_of(filename))),
    }
}

/// What follows the last dot of a file name.
fn extension(filename: &str) -> (ext: String)
    ensures
        ext@ == extension_of(filename@),
{
    let chars = chars_of(filename);
    let mut start: usize = chars.len();
    proof {
        assert(chars@.take(start as int) == chars@);
        assert(chars@.skip(start as int) == Seq::<char>::empty());
        assert(extension_of(chars@) + Seq::<char>::empty() == extension_of(chars@));
    }
    while start > 0 && chars[start - 1] != '.'
        invariant
            start <= chars.len(),
            extension_of(chars@) == extension_of(chars@.take(start as int)) + chars@.skip(
                start as int,
            ),
        decreases start,
    {
        proof {
            let head = chars@.take(start as int);
            assert(head.drop_last() == chars@.take(start - 1));
            assert(chars@.skip(start - 1) == seq![chars@[start - 1]] + chars@.skip(start as int));
            assert(extension_of(head) == extension_of(head.drop_last()).push(head.last()));
            assert(extension_of(head.drop_last()).push(head.last()) + chars@.skip(start as int)
                == extension_of(head.drop_last()) + (seq![chars@[start - 1]] + chars@.skip(
                start as int,
            )));
        }
        start -= 1;
    }
    proof {
        if start > 0 {
            assert(chars@.take(start as int).last() == '.');
        }
        assert(extension_of(chars@.take(start as int)) == Seq::<char>::empty());
        assert(Seq::<char>::empty() + chars@.skip(start as int) == chars@.skip(start as int));
    }
    let mut ext: Vec<char> = Vec::new();
    let mut i: usize = start;
    while i < chars.len()
        invariant
            start <= i <= chars.len(),
            ext@ == chars@.subrange(start as int, i as int),
        decreases chars.len() - i,
    {
        ext.push(chars[i]);
        i += 1;
        assert(ext@ == chars@.subrange(start as int, i as int));
    }
    assert(chars@.subrange(start as int, chars.len() as int) == chars@.skip(start as int));
    string_of(&ext)
}

/// Copies of the given attachments.
pub fn duplicate_attachments(attachments: &Vec<MessageAttachment>) -> (copy: Vec<MessageAttachment>)
    ensures
        copy@ == attachments@,
{
    let mut copy: Vec<MessageAttachment> = Vec::new();
    let mut i: usize = 0;
    while i < attachments.len()
        invariant
            i <= attachments.len(),
            copy@ == attachments@.take(i as int),
        decreases attachments.len() - i,
    {
        copy.push(attachments[i].duplicate());
        i += 1;
        assert(copy@ == attachments@.take(i as int));
    }
    assert(attachments@.take(attachments.len() as int) == attachments@);
    copy
}

/// A message as a mathematical value.
pub struct MessageView {
    pub id: Seq<char>,
    pub channel_id: Seq<char>,
    pub author: Seq<char>,
    pub author_id: Seq<char>,
    pub author_avatar: Option<Seq<char>>,
    pub content: Seq<char>,
    pub timestamp: Seq<char>,
    pub attachments: Seq<MessageAttachment>,
}

impl View for Message {
    type V = MessageView;

    open spec fn view(&self) -> MessageView {
        MessageView {
            id: self.id@,
            channel_id: self.channel_id@,
            author: self.author@,
            author_id: self.author_id@,
            author_avatar: match self.author_avatar {
                Some(hash) => Some(hash@),
                None => None,
            },
            content: self.content@,
            timestamp: self.timestamp@,
            attachments: self.attachments@,
        }
    }
}

/// The views of a run of messages.
pub open spec fn message_views(messages: Seq<Message>) -> Seq<MessageView> {
    messages.map_values(|m: Message| m@)
}

/// Copies of the given messages.
pub fn duplicate_messages(messages: &Vec<Message>) -> (copy: Vec<Message>)
    ensures
        message_views(copy@) == message_views(messages@),
{
    let mut copy: Vec<Message> = Vec::new();
    let mut i: usize = 0;
    assert(message_views(copy@) == message_views(messages@.take(0)));
    while i < messages.len()
        invariant
            i <= messages.len(),
            message_views(copy@) == message_views(messages@.take(i as int)),
        decreases messages.len() - i,
    {
        let ghost before = copy@;
        let one = messages[i].duplicate();
        copy.push(one);
        assert(message_views(copy@) == message_views(before).push(one@));
        assert(message_views(messages@.take(i + 1)) == message_views(
            messages@.take(i as int),
        ).push(messages@[i as int]@));
        i += 1;
    }
    assert(messages@.take(messages.len() as int) == messages@);
    copy
}

impl Message {
    /// A copy of the message.
    pub fn duplicate(&self) -> (copy: Message)
        ensures
            copy@ == self@,
    {
        let attachments = duplicate_attachments(&self.attachments);
        Message {
            id: self.id.clone(),
            channel_id: self.channel_id.clone(),
            author: self.author.clone(),
            author_id: self.author_id.clone(),
            author_avatar: match &self.author_avatar {
                Some(hash) => Some(hash.clone()),
                None => None,
            },
            content: self.content.clone(),
            timestamp: self.timestamp.clone(),
            attachments,
        }
    }

    /// A message without attachments.
    pub fn new(
        id: &str,
        channel_id: &str,
        author: &str,
        author_id: &str,
        author_avatar: Option<String>,
        content: &str,
        timestamp: &str,
    ) -> (message: Message)
        ensures
            message.id@ == id@,
            message.channel_id@ == channel_id@,
            message.author@ == author@,
            message.author_id@ == author_id@,
            message.author_avatar == author_avatar,
            message.content@ == content@,
            message.timestamp@ == timestamp@,
            message.attachments@.len() == 0,
    {
        Message {
            id: id.to_owned(),
            channel_id: channel_id.to_owned(),
            author: author.to_owned(),
            author_id: author_id.to_owned(),
            author_avatar,
            content: content.to_owned(),
            timestamp: timestamp.to_owned(),
            attachments: Vec::new(),
        }
    }

    /// The message with `attachments` in place of what was attached before.
    pub fn with_attachments(self, attachments: Vec<MessageAttachment>) -> (message: Message)
        ensures
            message.attachments == attachments,
            message.id == self.id,
            message.channel_id == self.channel_id,
            message.author == self.author,
            message.author_id == self.author_id,
            message.author_avatar == self.author_avatar,
            message.content == self.content,
            message.timestamp == self.timestamp,
    {
        Message {
            id: self.id,
            channel_id: self.channel_id,
            author: self.author,
            author_id: self.author_id,
            author_avatar: self.author_avatar,
            content: self.content,
            timestamp: self.timestamp,
            attachments,
        }
    }
}

impl MessageAttachment {
    /// A copy of the attachment.
    pub fn duplicate(&self) -> (copy: MessageAttachment)
        ensures
            copy == *self,
    {
        MessageAttachment {
            id: self.id.clone(),
            filename: self.filename.clone(),
            url: self.url.clone(),
            proxy_url: self.proxy_url.clone(),
            width: self.width,
            height: self.height,
            content_type: match &self.content_type {
                Some(t) => Some(t.clone()),
                None => None,
            },
        }
    }

    /// An attachment.
    pub fn new(
        id: &str,
        filename: &str,
        url: &str,
        proxy_url: &str,
        width: Option<u32>,
        height: Option<u32>,
        content_type: Option<String>,
    ) -> (attachment: MessageAttachment)
        ensures
            attachment.id@ == id@,
            attachment.filename@ == filename@,
            attachment.url@ == url@,
            attachment.proxy_url@ == proxy_url@,
            attachment.width == width,
            attachment.height == height,
            attachment.content_type == content_type,
    {
        MessageAttachment {
            id: id.to_owned(),
            filename: filename.to_owned(),
            url: url.to_owned(),
            proxy_url: proxy_url.to_owned(),
            width,
            height,
            content_type,
        }
    }

    /// The declared content type, as a mathematical value.
    pub open spec fn declared_type(&self) -> Option<Seq<char>> {
        match self.content_type {
            Some(t) => Some(t@),
            None => None,
        }
    }

    /// Whether the attachment is an image.
    pub fn is_image(&self) -> (yes: bool)
        ensures
            yes == is_image_attachment(self.declared_type(), self.filename@),
    {
        match &self.content_type {
            Some(declared) => starts_with(declared.as_str(), "image/"),
            None => {
                let ext = extension(self.filename.as_str());
                let lower = to_lowercase(ext.as_str());
                Self::is_image_ext(lower.as_str())
            },
        }
    }

    /// Whether an extension, in lower case, is that of an image.
    fn is_image_ext(ext: &str) -> (yes: bool)
        ensures
            yes == is_image_extension(ext@),
    {
        same_text(ext, "png") || same_text(ext, "jpg") || same_text(ext, "jpeg") || same_text(
            ext,
            "gif",
        ) || same_text(ext, "webp")
    }
}

} // verus!
