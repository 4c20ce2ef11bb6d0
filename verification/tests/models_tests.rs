use remycord::discord::api::{
    channel_list, collect_channels, dm_channel, oldest_first, RemoteChannel, RemoteChannelKind,
};
use remycord::discord::auth::{DiscordAuth, TokenError};
use remycord::discord::gateway::{
    DiscordGateway, GatewayAction, GatewayError, GatewayFrame, LoginStage,
};
use remycord::discord::models::{
    DiscordUser, GatewayPayload, ReadyEvent, DISPATCH, HEARTBEAT_ACK, HELLO,
};
use remycord::models::channel::{Channel, ChannelCategory, ChannelList, ChannelType};
use remycord::models::ordering::sort_by_position;
use remycord::models::{
    AttachedFile, DmChannel, DmUser, Guild, Message, MessageAttachment, Notification,
    NotificationKind,
};
use remycord::text::{
    chars_of, concat2, concat3, ends_with, line_count, same_text, starts_with, string_of,
};

fn attachment(filename: &str, content_type: Option<&str>) -> MessageAttachment {
    MessageAttachment::new(
        "1",
        filename,
        "https://example.invalid/f",
        "https://proxy.invalid/f",
        None,
        None,
        content_type.map(|t| t.to_string()),
    )
}

#[test]
fn text_helpers() {
    assert_eq!(chars_of("aé😀"), vec!['a', 'é', '😀']);
    assert_eq!(string_of(&vec!['x', 'ÿ', '😀']), "xÿ😀");
    assert_eq!(string_of(&chars_of("")), "");
    assert!(starts_with("avatar_1", "avatar_"));
    assert!(starts_with("abc", ""));
    assert!(!starts_with("ab", "abc"));
    assert!(!starts_with("xbc", "abc"));
    assert!(ends_with("x.meta", ".meta"));
    assert!(ends_with("x", ""));
    assert!(!ends_with("meta", ".meta"));
    assert!(!ends_with("x.metb", ".meta"));
    assert!(same_text("héllo", "héllo"));
    assert!(!same_text("hello", "hellp"));
    assert!(!same_text("hello", "hell"));
    assert_eq!(concat2("ab", "cd"), "abcd");
    assert_eq!(concat3("a", "#", "b"), "a#b");
}

#[test]
fn lines_are_counted_as_std_counts_them() {
    for text in ["", "a", "a\n", "a\nb", "\n", "\n\n", "a\r\nb", "a\n\nb\n", "é\n😀"] {
        assert_eq!(line_count(text), text.lines().count());
    }
}

#[test]
fn channel_constructors() {
    let c = Channel::new("1", "general", ChannelType::Text, 3);
    assert_eq!((c.id.as_str(), c.name.as_str(), c.kind, c.position), ("1", "general", ChannelType::Text, 3));
    assert_eq!(c.parent_id, None);
    let c = c.with_parent("cat");
    assert_eq!(c.parent_id.as_deref(), Some("cat"));
    assert_eq!(c.name, "general");
    assert!(c.is_in_category("cat"));
    assert!(!c.is_in_category("dog"));
    let copy = c.duplicate();
    assert_eq!((copy.id, copy.name, copy.position, copy.parent_id), (c.id, c.name, c.position, c.parent_id));
    let cat = ChannelCategory::new("9", "Talk", -2);
    assert_eq!((cat.id.as_str(), cat.name.as_str(), cat.position), ("9", "Talk", -2));
    assert_eq!(cat.duplicate().name, "Talk");
}

#[test]
fn channel_prefix_and_kind() {
    let of = |kind| Channel::new("1", "n", kind, 0);
    assert_eq!(of(ChannelType::Text).prefix(), "# ");
    assert_eq!(of(ChannelType::Voice).prefix(), "🔊 ");
    assert_eq!(of(ChannelType::Announcement).prefix(), "📢 ");
    assert_eq!(of(ChannelType::Stage).prefix(), "🎙️ ");
    assert_eq!(of(ChannelType::Forum).prefix(), "💬 ");
    assert_eq!(of(ChannelType::Category).prefix(), "");
    assert!(of(ChannelType::Text).is_text_based());
    assert!(of(ChannelType::Announcement).is_text_based());
    assert!(of(ChannelType::Forum).is_text_based());
    assert!(!of(ChannelType::Voice).is_text_based());
    assert!(!of(ChannelType::Stage).is_text_based());
    assert!(!of(ChannelType::Category).is_text_based());
}

#[test]
fn channel_list_sorts_stably() {
    let mut list = ChannelList::new();
    assert!(list.channels.is_empty() && list.categories.is_empty());
    list.channels.push(Channel::new("a", "a", ChannelType::Text, 2));
    list.channels.push(Channel::new("b", "b", ChannelType::Text, 1));
    list.channels.push(Channel::new("c", "c", ChannelType::Voice, 2));
    list.channels.push(Channel::new("d", "d", ChannelType::Text, -5));
    list.channels.push(Channel::new("e", "e", ChannelType::Text, 1));
    list.categories.push(ChannelCategory::new("y", "y", 7));
    list.categories.push(ChannelCategory::new("x", "x", 0));
    list.sort();
    let ids: Vec<&str> = list.channels.iter().map(|c| c.id.as_str()).collect();
    assert_eq!(ids, vec!["d", "b", "e", "a", "c"]);
    let cats: Vec<&str> = list.categories.iter().map(|c| c.id.as_str()).collect();
    assert_eq!(cats, vec!["x", "y"]);
}

#[test]
fn sort_by_position_agrees_with_std_stable_sort() {
    let positions = [5, 3, 5, 1, 3, 3, 9, -1, 5, i32::MAX, i32::MIN, 0];
    let mut items: Vec<Channel> = positions
        .iter()
        .enumerate()
        .map(|(i, p)| Channel::new(&i.to_string(), "n", ChannelType::Text, *p))
        .collect();
    let mut expected: Vec<(i32, String)> =
        items.iter().map(|c| (c.position, c.id.clone())).collect();
    expected.sort_by_key(|e| e.0);
    sort_by_position(&mut items);
    let got: Vec<(i32, String)> = items.iter().map(|c| (c.position, c.id.clone())).collect();
    assert_eq!(got, expected);
    let mut empty: Vec<Channel> = Vec::new();
    sort_by_position(&mut empty);
    assert!(empty.is_empty());
}

#[test]
fn channel_list_choices() {
    let mut list = ChannelList::new();
    list.channels.push(Channel::new("1", "a", ChannelType::Text, 0));
    list.channels.push(Channel::new("2", "b", ChannelType::Voice, 1).with_parent("x"));
    list.channels.push(Channel::new("3", "c", ChannelType::Forum, 2).with_parent("y"));
    list.channels.push(Channel::new("4", "d", ChannelType::Stage, 3));
    list.channels.push(Channel::new("5", "e", ChannelType::Announcement, 4).with_parent("x"));
    let ids = |v: Vec<&Channel>| v.iter().map(|c| c.id.clone()).collect::<Vec<_>>();
    assert_eq!(ids(list.uncategorized_channels()), vec!["1", "4"]);
    assert_eq!(ids(list.channels_in_category("x")), vec!["2", "5"]);
    assert_eq!(ids(list.channels_in_category("y")), vec!["3"]);
    assert!(list.channels_in_category("z").is_empty());
    assert_eq!(ids(list.text_channels()), vec!["1", "3", "5"]);
}

#[test]
fn dm_display_name() {
    let plain = DmChannel::new("1", DmUser::new("9", "alice", "0"));
    assert_eq!(plain.display_name(), "alice");
    assert_eq!(plain.id, "1");
    assert_eq!(plain.recipient.id, "9");
    let tagged = DmChannel::new("2", DmUser::new("8", "bob", "1234"));
    assert_eq!(tagged.display_name(), "bob#1234");
    let zeros = DmChannel::new("3", DmUser::new("7", "eve", "00"));
    assert_eq!(zeros.display_name(), "eve#00");
    assert_eq!(tagged.duplicate().display_name(), "bob#1234");
}

#[test]
fn guild_toggles() {
    let mut g = Guild::new("1", "Server One");
    assert_eq!((g.id.as_str(), g.name.as_str(), g.expanded), ("1", "Server One", false));
    g.toggle_expanded();
    assert!(g.expanded);
    assert!(g.duplicate().expanded);
    g.toggle_expanded();
    assert!(!g.expanded);
    assert_eq!(g.name, "Server One");
}

#[test]
fn attached_file_takes_last_component() {
    let f = AttachedFile::new("/home/user/pictures/cat.png");
    assert_eq!(f.path, "/home/user/pictures/cat.png");
    assert_eq!(f.name, "cat.png");
    let bare = AttachedFile::new("notes.txt");
    assert_eq!(bare.name, "notes.txt");
    let odd = AttachedFile::new("..");
    assert_eq!(odd.name, "..");
    assert_eq!(odd.path, "..");
    let named = AttachedFile::named("/a/b", Some("b".to_string()));
    assert_eq!((named.path.as_str(), named.name.as_str()), ("/a/b", "b"));
    let unnamed = AttachedFile::named("/a/b", None);
    assert_eq!(unnamed.name, "/a/b");
}

#[test]
fn message_constructors() {
    let m = Message::new("m1", "c1", "Alice", "42", Some("hash".to_string()), "Hello", "10:30:00");
    assert_eq!(m.id, "m1");
    assert_eq!(m.channel_id, "c1");
    assert_eq!(m.author, "Alice");
    assert_eq!(m.author_id, "42");
    assert_eq!(m.author_avatar.as_deref(), Some("hash"));
    assert_eq!(m.content, "Hello");
    assert_eq!(m.timestamp, "10:30:00");
    assert!(m.attachments.is_empty());
    let m = m.with_attachments(vec![attachment("a.png", None), attachment("b.txt", None)]);
    assert_eq!(m.attachments.len(), 2);
    assert_eq!(m.content, "Hello");
    let copy = m.duplicate();
    assert_eq!(copy.attachments.len(), 2);
    assert_eq!(copy.attachments[1].filename, "b.txt");
    assert_eq!(copy.author_avatar.as_deref(), Some("hash"));
    let a = MessageAttachment::new("7", "f.gif", "u", "p", Some(3), Some(4), None);
    assert_eq!((a.id.as_str(), a.filename.as_str(), a.url.as_str(), a.proxy_url.as_str()), ("7", "f.gif", "u", "p"));
    assert_eq!((a.width, a.height, a.content_type.clone()), (Some(3), Some(4), None));
}

#[test]
fn images_are_told_by_type_or_extension() {
    assert!(attachment("x.bin", Some("image/png")).is_image());
    assert!(attachment("x.bin", Some("image/")).is_image());
    assert!(!attachment("x.png", Some("text/plain")).is_image());
    assert!(!attachment("x.png", Some("Image/png")).is_image());
    for name in ["a.png", "a.jpg", "a.jpeg", "a.gif", "a.webp", "A.PNG", "a.b.JpEg", "png", ".gif"] {
        assert!(attachment(name, None).is_image(), "{}", name);
    }
    for name in ["a.txt", "a.png.txt", "a.", "", "a.pngx", "a.bmp", "apng"] {
        assert!(!attachment(name, None).is_image(), "{}", name);
    }
}

#[test]
fn notification_kinds_and_defaults() {
    let n = Notification::new("hi", NotificationKind::Warning);
    assert_eq!((n.message.as_str(), n.kind, n.duration_ms), ("hi", NotificationKind::Warning, 3000));
    assert_eq!(Notification::info("a").kind, NotificationKind::Info);
    assert_eq!(Notification::success("a").kind, NotificationKind::Success);
    assert_eq!(Notification::warning("a").kind, NotificationKind::Warning);
    assert_eq!(Notification::error("a").kind, NotificationKind::Error);
    assert_eq!(Notification::error("boom").message, "boom");
    let long = Notification::info("a").with_duration(60_000);
    assert_eq!(long.duration_ms, 60_000);
    assert_eq!(long.kind, NotificationKind::Info);
    assert!(!long.is_expired());
    assert!(Notification::info("a").with_duration(0).is_expired());
    let copy = long.clone();
    assert_eq!(copy.created_at, long.created_at);
}

#[test]
fn notification_expiry_and_progress() {
    let n = Notification::info("a");
    assert!(!n.expired_after(0));
    assert!(!n.expired_after(2999));
    assert!(n.expired_after(3000));
    assert!(n.expired_after(u128::MAX));
    assert_eq!(n.remaining_permille(0), 1000);
    assert_eq!(n.remaining_permille(1500), 500);
    assert_eq!(n.remaining_permille(2999), 1);
    assert_eq!(n.remaining_permille(1), 1000);
    assert_eq!(n.remaining_permille(3), 999);
    assert_eq!(n.remaining_permille(3000), 0);
    assert_eq!(n.remaining_permille(9999), 0);
    assert_eq!(Notification::info("a").with_duration(0).remaining_permille(0), 0);
}

fn remote(id: &str, kind: RemoteChannelKind, position: u16, parent: Option<&str>) -> RemoteChannel {
    RemoteChannel {
        id: id.to_string(),
        name: format!("name-{}", id),
        kind,
        position,
        parent_id: parent.map(|p| p.to_string()),
    }
}

#[test]
fn remote_channels_are_sorted_into_a_list() {
    let incoming = vec![
        remote("t2", RemoteChannelKind::Text, 5, Some("c1")),
        remote("c2", RemoteChannelKind::Category, 9, None),
        remote("x", RemoteChannelKind::Other, 0, None),
        remote("v", RemoteChannelKind::Voice, 1, None),
        remote("c1", RemoteChannelKind::Category, 2, None),
        remote("n", RemoteChannelKind::News, 1, Some("c2")),
        remote("s", RemoteChannelKind::Stage, 0, None),
    ];
    let raw = collect_channels(&incoming);
    let ids: Vec<&str> = raw.channels.iter().map(|c| c.id.as_str()).collect();
    assert_eq!(ids, vec!["t2", "v", "n", "s"]);
    let list = channel_list(&incoming);
    let got: Vec<(&str, ChannelType, i32, Option<&str>)> = list
        .channels
        .iter()
        .map(|c| (c.id.as_str(), c.kind, c.position, c.parent_id.as_deref()))
        .collect();
    assert_eq!(
        got,
        vec![
            ("s", ChannelType::Stage, 0, None),
            ("v", ChannelType::Voice, 1, None),
            ("n", ChannelType::Announcement, 1, Some("c2")),
            ("t2", ChannelType::Text, 5, Some("c1")),
        ]
    );
    assert_eq!(list.channels[3].name, "name-t2");
    let cats: Vec<(&str, i32)> =
        list.categories.iter().map(|c| (c.id.as_str(), c.position)).collect();
    assert_eq!(cats, vec![("c1", 2), ("c2", 9)]);
}

#[test]
fn dm_channel_defaults_discriminator() {
    let a = dm_channel("1", "2", "alice", None);
    assert_eq!(a.recipient.discriminator, "0");
    assert_eq!(a.display_name(), "alice");
    let b = dm_channel("1", "2", "bob", Some("77"));
    assert_eq!((b.id.as_str(), b.recipient.id.as_str()), ("1", "2"));
    assert_eq!(b.display_name(), "bob#77");
}

#[test]
fn messages_are_put_oldest_first() {
    let m = |id: &str| Message::new(id, "c", "a", "1", None, "x", "t");
    let out = oldest_first(vec![m("3"), m("2"), m("1")]);
    let ids: Vec<&str> = out.iter().map(|m| m.id.as_str()).collect();
    assert_eq!(ids, vec!["1", "2", "3"]);
    assert!(oldest_first(Vec::new()).is_empty());
}

#[test]
fn token_comes_from_lookup_output() {
    assert_eq!(DiscordAuth::token_from_output(true, "  abc.def \n"), Ok("abc.def".to_string()));
    assert_eq!(DiscordAuth::token_from_output(true, "tok"), Ok("tok".to_string()));
    assert_eq!(DiscordAuth::token_from_output(true, " \n\t"), Err(TokenError::Empty));
    assert_eq!(DiscordAuth::token_from_output(true, ""), Err(TokenError::Empty));
    assert_eq!(DiscordAuth::token_from_output(false, "abc"), Err(TokenError::NotFound));
    assert!(DiscordAuth::setup_hint().starts_with("secret-tool store"));
}

fn payload(op: u8, t: Option<&str>, s: Option<u64>) -> GatewayPayload {
    GatewayPayload { op, s, t: t.map(|t| t.to_string()), heartbeat_interval: None, ready: None }
}

fn session(name: &str) -> ReadyEvent {
    ReadyEvent {
        user: DiscordUser {
            id: "1".to_string(),
            username: name.to_string(),
            discriminator: "0".to_string(),
            avatar: None,
        },
        guilds: Vec::new(),
        session_id: "s".to_string(),
    }
}

#[test]
fn gateway_login_runs_from_hello_to_ready() {
    let mut g = DiscordGateway::new("token".to_string());
    assert_eq!(g.login_stage(), LoginStage::AwaitingHello);
    assert_eq!(g.token_text(), "token");
    assert!(g.get_user().is_none());
    let hello = GatewayPayload { heartbeat_interval: Some(41250), ..payload(HELLO, None, None) };
    assert_eq!(
        g.handle_frame(GatewayFrame::Payload(hello)),
        GatewayAction::Identify { heartbeat_interval: 41250 }
    );
    assert_eq!(g.login_stage(), LoginStage::AwaitingReady);
    assert_eq!(g.heartbeat_seq(), None);
    assert_eq!(
        g.handle_frame(GatewayFrame::Payload(payload(HEARTBEAT_ACK, None, None))),
        GatewayAction::Continue
    );
    assert_eq!(
        g.handle_frame(GatewayFrame::Payload(payload(DISPATCH, Some("GUILD_CREATE"), Some(7)))),
        GatewayAction::Continue
    );
    assert_eq!(g.heartbeat_seq(), Some(7));
    assert_eq!(g.handle_frame(GatewayFrame::Other), GatewayAction::Continue);
    let ready = GatewayPayload { ready: Some(session("alice")), ..payload(DISPATCH, Some("READY"), Some(8)) };
    assert_eq!(g.handle_frame(GatewayFrame::Payload(ready)), GatewayAction::Done);
    assert_eq!(g.login_stage(), LoginStage::LoggedIn);
    assert_eq!(g.heartbeat_seq(), Some(8));
    assert_eq!(g.get_user().unwrap().username, "alice");
    assert_eq!(g.get_user().unwrap().duplicate().username, "alice");
    assert_eq!(g.handle_frame(GatewayFrame::End), GatewayAction::Done);
}

#[test]
fn gateway_login_fails() {
    let fresh = || DiscordGateway::new("t".to_string());
    let greeted = || {
        let mut g = fresh();
        let hello = GatewayPayload { heartbeat_interval: Some(1), ..payload(HELLO, None, None) };
        let _ = g.handle_frame(GatewayFrame::Payload(hello));
        g
    };
    let fail = |e| GatewayAction::Fail(e);
    assert_eq!(fresh().handle_frame(GatewayFrame::End), fail(GatewayError::NoHello));
    assert_eq!(fresh().handle_frame(GatewayFrame::Other), fail(GatewayError::NoHello));
    assert_eq!(fresh().handle_frame(GatewayFrame::Close(None)), fail(GatewayError::NoHello));
    assert_eq!(fresh().handle_frame(GatewayFrame::Unreadable), fail(GatewayError::Unreadable));
    assert_eq!(
        fresh().handle_frame(GatewayFrame::Payload(payload(DISPATCH, None, None))),
        fail(GatewayError::NoHello)
    );
    assert_eq!(
        fresh().handle_frame(GatewayFrame::Payload(payload(HELLO, None, None))),
        fail(GatewayError::NoHeartbeatInterval)
    );
    assert_eq!(greeted().handle_frame(GatewayFrame::End), fail(GatewayError::NoHello));
    assert_eq!(greeted().handle_frame(GatewayFrame::Unreadable), fail(GatewayError::Unreadable));
    assert_eq!(
        greeted().handle_frame(GatewayFrame::Close(Some((4004, "bad token".to_string())))),
        fail(GatewayError::Closed)
    );
    assert_eq!(
        greeted().handle_frame(GatewayFrame::Payload(payload(DISPATCH, Some("READY"), None))),
        fail(GatewayError::NoSession)
    );
    let mut g = greeted();
    let _ = g.handle_frame(GatewayFrame::Close(None));
    assert_eq!(g.login_stage(), LoginStage::Failed);
    assert_eq!(g.handle_frame(GatewayFrame::Other), fail(GatewayError::Closed));
    assert!(g.get_user().is_none());
}
