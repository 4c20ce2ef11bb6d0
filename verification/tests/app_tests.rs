use ratatui_image::picker::{Picker, ProtocolType};
use remycord::app::events::{image_requests, theme_name_of, ImageRequest};
use remycord::app::input::InputEffect;
use remycord::app::sidebar::get_items;
use remycord::app::state::{get_channel_name, get_guild_name};
use remycord::app::{App, AppMode, SidebarItem};
use remycord::config::keybinds::{Key, Modifiers};
use remycord::config::{CacheAutoClear, Config};
use remycord::discord::api::DiscordEvent;
use remycord::disk_cache::listing::CacheStats;
use remycord::health::ClearCause;
use remycord::memory_cache::KeyedStore;
use remycord::models::channel::{Channel, ChannelCategory, ChannelList, ChannelType};
use remycord::models::{
    DmChannel, DmUser, Guild, Message, MessageAttachment, NotificationKind,
};
use remycord::ui::image::ImageRenderer;
use remycord::ui::layout::{
    bar_width, cursor_position, input_height, message_height, notification_area, Area,
};
use remycord::ui::settings::{files_line, format_modifiers, protocol_status, usage_line};
use remycord::ui::sidebar::{line_of, style, LineStyle};

const NONE: Modifiers = Modifiers { ctrl: false, alt: false, shift: false };
const CTRL: Modifiers = Modifiers { ctrl: true, alt: false, shift: false };
const QUIET: InputEffect =
    InputEffect { quit: false, save_config: false, pick_file: false, cycle_theme: false };

fn renderer() -> ImageRenderer {
    let mut picker = Picker::from_fontsize((8, 16));
    picker.set_protocol_type(ProtocolType::Kitty);
    ImageRenderer::new(picker)
}

fn app() -> App {
    App::new(Config::defaults(true), renderer())
}

fn dm(id: &str, name: &str) -> DmChannel {
    DmChannel::new(id, DmUser::new("u", name, "0"))
}

fn message(id: &str, channel: &str) -> Message {
    Message::new(id, channel, "Alice", "42", None, "hi", "10:00:00")
}

fn server_list() -> ChannelList {
    let mut list = ChannelList::new();
    list.categories.push(ChannelCategory::new("cat1", "Talk", 0));
    list.categories.push(ChannelCategory::new("cat2", "Voice", 1));
    list.channels.push(Channel::new("c1", "rules", ChannelType::Text, 0));
    list.channels.push(Channel::new("c2", "general", ChannelType::Text, 1).with_parent("cat1"));
    list.channels.push(Channel::new("c3", "lounge", ChannelType::Voice, 2).with_parent("cat2"));
    list.channels.push(Channel::new("c4", "random", ChannelType::Text, 3).with_parent("cat1"));
    list
}

fn populated() -> App {
    let mut a = app();
    a.dms = vec![dm("d1", "alice"), dm("d2", "bob")];
    let mut g1 = Guild::new("g1", "Server One");
    g1.expanded = true;
    a.guilds = vec![g1, Guild::new("g2", "Server Two")];
    a.channel_cache.insert("g1", server_list());
    a.expanded_categories.insert("g1", vec!["cat1".to_string()]);
    a
}

fn kinds(items: &[SidebarItem]) -> Vec<String> {
    items
        .iter()
        .map(|i| match i {
            SidebarItem::DmSection => "dms".to_string(),
            SidebarItem::DmChannel(d) => format!("dm:{}", d.id),
            SidebarItem::ServerSection => "servers".to_string(),
            SidebarItem::Server(g) => format!("server:{}", g.id),
            SidebarItem::Category { guild_id, category, expanded } => {
                format!("cat:{}:{}:{}", guild_id, category.id, expanded)
            }
            SidebarItem::Channel { guild_id, channel } => format!("ch:{}:{}", guild_id, channel.id),
        })
        .collect()
}

fn mode_name(a: &App) -> &'static str {
    match a.mode {
        AppMode::Sidebar => "sidebar",
        AppMode::Messages => "messages",
        AppMode::Input => "input",
        AppMode::Settings => "settings",
        AppMode::KeybindRecording(_) => "recording",
    }
}

#[test]
fn new_app_is_empty() {
    let a = app();
    assert_eq!(mode_name(&a), "sidebar");
    assert!(a.dm_section_expanded);
    assert!(a.dms.is_empty() && a.guilds.is_empty() && a.messages.is_empty());
    assert_eq!((a.selected_sidebar_idx, a.message_scroll, a.input_cursor, a.settings_selected), (0, 0, 0, 0));
    assert!(a.selected_channel.is_none() && a.cache_stats.is_none());
    assert!(!a.loading_channels && !a.loading_dms && !a.loading_messages);
    assert!(a.notifications.is_empty());
    assert_eq!(kinds(&a.get_sidebar_items()), vec!["dms", "servers"]);
    assert!(AppMode::Settings.is_settings());
    assert!(AppMode::KeybindRecording("Quit".to_string()).is_settings());
    assert!(!AppMode::Sidebar.is_settings());
}

#[test]
fn sidebar_lists_expanded_parts() {
    let a = populated();
    assert_eq!(
        kinds(&a.get_sidebar_items()),
        vec![
            "dms",
            "dm:d1",
            "dm:d2",
            "servers",
            "server:g1",
            "ch:g1:c1",
            "cat:g1:cat1:true",
            "ch:g1:c2",
            "ch:g1:c4",
            "cat:g1:cat2:false",
            "server:g2",
        ]
    );
    let mut b = populated();
    b.dm_section_expanded = false;
    b.guilds[1].expanded = true;
    b.guilds[0].expanded = false;
    assert_eq!(kinds(&b.get_sidebar_items()), vec!["dms", "servers", "server:g1", "server:g2"]);
    let empty_cache: KeyedStore<ChannelList> = KeyedStore::new();
    let no_categories: KeyedStore<Vec<String>> = KeyedStore::new();
    let items = get_items(&a.dms, true, &a.guilds, &empty_cache, &no_categories);
    assert_eq!(kinds(&items), vec!["dms", "dm:d1", "dm:d2", "servers", "server:g1", "server:g2"]);
}

#[test]
fn categories_toggle() {
    let mut a = populated();
    assert!(a.is_category_expanded("g1", "cat1"));
    assert!(!a.is_category_expanded("g1", "cat2"));
    assert!(!a.is_category_expanded("g2", "cat1"));
    a.toggle_category("g1", "cat2");
    assert!(a.is_category_expanded("g1", "cat2"));
    a.toggle_category("g1", "cat1");
    assert!(!a.is_category_expanded("g1", "cat1"));
    assert!(a.is_category_expanded("g1", "cat2"));
    a.toggle_category("g2", "x");
    assert!(a.is_category_expanded("g2", "x"));
    assert!(a.get_guild_channels("g1").is_some());
    assert!(a.get_guild_channels("g2").is_none());
}

#[test]
fn header_names() {
    let mut a = populated();
    assert_eq!(a.get_current_channel_name(), None);
    assert_eq!(a.get_current_guild_name(), None);
    a.selected_channel = Some("d2".to_string());
    assert_eq!(a.get_current_channel_name().as_deref(), Some("bob"));
    assert_eq!(a.get_current_guild_name().as_deref(), Some("Direct Messages"));
    a.selected_channel = Some("c4".to_string());
    assert_eq!(a.get_current_channel_name().as_deref(), Some("random"));
    assert_eq!(a.get_current_guild_name().as_deref(), Some("Server One"));
    a.selected_channel = Some("nope".to_string());
    assert_eq!(a.get_current_channel_name(), None);
    assert_eq!(a.get_current_guild_name(), None);
    let mut twice = populated();
    twice.dms = vec![dm("d1", "alice"), dm("d1", "zed")];
    twice.guilds.push(Guild::new("g1", "Shadow"));
    let mut other = ChannelList::new();
    other.channels.push(Channel::new("c4", "late", ChannelType::Text, 0));
    other.channels.push(Channel::new("x", "first", ChannelType::Text, 1));
    other.channels.push(Channel::new("x", "second", ChannelType::Text, 2));
    twice.channel_cache.insert("g2", other);
    twice.selected_channel = Some("d1".to_string());
    assert_eq!(twice.get_current_channel_name().as_deref(), Some("alice"));
    twice.selected_channel = Some("c4".to_string());
    assert_eq!(twice.get_current_channel_name().as_deref(), Some("random"));
    assert_eq!(twice.get_current_guild_name().as_deref(), Some("Server One"));
    twice.selected_channel = Some("x".to_string());
    assert_eq!(twice.get_current_channel_name().as_deref(), Some("first"));
    assert_eq!(twice.get_current_guild_name().as_deref(), Some("Server Two"));
    let mut cache: KeyedStore<ChannelList> = KeyedStore::new();
    cache.insert("gone", server_list());
    let selected = Some("c1".to_string());
    assert_eq!(get_channel_name(&selected, &a.dms, &cache).as_deref(), Some("rules"));
    assert_eq!(get_guild_name(&selected, &a.dms, &a.guilds, &cache), None);
}

#[test]
fn sidebar_navigation_wraps() {
    let mut a = populated();
    let count = a.get_sidebar_items().len();
    assert_eq!(count, 11);
    a.navigate_sidebar_up();
    assert_eq!(a.selected_sidebar_idx, 10);
    a.navigate_sidebar_down();
    assert_eq!(a.selected_sidebar_idx, 0);
    a.navigate_sidebar_down();
    assert_eq!(a.selected_sidebar_idx, 1);
    a.navigate_sidebar_up();
    assert_eq!(a.selected_sidebar_idx, 0);
    a.selected_sidebar_idx = usize::MAX;
    a.navigate_sidebar_down();
    assert_eq!(a.selected_sidebar_idx, ((usize::MAX % 11) + 1) % 11);
}

#[test]
fn selecting_lines_of_the_sidebar() {
    let mut a = populated();
    a.selected_sidebar_idx = 0;
    a.select_sidebar_item();
    assert!(!a.dm_section_expanded && !a.loading_dms);
    a.dms.clear();
    a.select_sidebar_item();
    assert!(a.dm_section_expanded && a.loading_dms);

    let mut a = populated();
    a.selected_sidebar_idx = 3;
    a.select_sidebar_item();
    assert_eq!(mode_name(&a), "sidebar");
    a.selected_sidebar_idx = 10;
    a.select_sidebar_item();
    assert!(a.guilds[1].expanded && a.loading_channels);
    a.loading_channels = false;
    a.selected_sidebar_idx = 4;
    a.select_sidebar_item();
    assert!(!a.guilds[0].expanded && !a.loading_channels);
    a.select_sidebar_item();
    assert!(a.guilds[0].expanded && !a.loading_channels);
    a.selected_sidebar_idx = 9;
    a.select_sidebar_item();
    assert!(a.is_category_expanded("g1", "cat2"));
    a.selected_sidebar_idx = 10;
    a.select_sidebar_item();
    assert_eq!(a.notifications.len(), 1);
    assert_eq!(a.notifications[0].message, "Cannot view messages in voice channels");
    assert_eq!(a.notifications[0].kind, NotificationKind::Info);
    assert_eq!(mode_name(&a), "sidebar");
    a.selected_sidebar_idx = 500;
    a.select_sidebar_item();
    assert_eq!(a.notifications.len(), 1);
}

#[test]
fn entering_and_leaving_a_channel() {
    let mut a = populated();
    a.message_cache.insert("c2", vec![message("m1", "c2"), message("m2", "c2")]);
    a.message_scroll = 7;
    a.selected_sidebar_idx = 7;
    a.select_sidebar_item();
    assert_eq!(mode_name(&a), "messages");
    assert_eq!(a.selected_channel.as_deref(), Some("c2"));
    assert_eq!(a.message_scroll, 0);
    assert_eq!(a.messages.len(), 2);
    assert_eq!(a.messages[1].id, "m2");
    assert!(!a.loading_messages);
    assert_eq!(a.messages_to_load(), None);
    a.exit_channel();
    assert_eq!(mode_name(&a), "sidebar");
    assert!(a.selected_channel.is_none() && a.messages.is_empty());

    a.selected_sidebar_idx = 1;
    a.select_sidebar_item();
    assert_eq!(a.selected_channel.as_deref(), Some("d1"));
    assert!(a.messages.is_empty() && a.loading_messages);
    assert_eq!(a.messages_to_load().as_deref(), Some("d1"));
    let requests = a.messages_loaded("d1", vec![message("m9", "d1")]);
    assert_eq!(requests.len(), 1);
    assert_eq!(a.messages.len(), 1);
    assert_eq!(a.messages_to_load(), None);
    a.finish_loading_messages();
    assert!(!a.loading_messages);
}

#[test]
fn messages_scroll_within_bounds() {
    let mut a = app();
    a.messages = (0..10).map(|i| message(&i.to_string(), "c")).collect();
    a.config.general.message_scroll_speed = 4;
    a.scroll_messages_down();
    assert_eq!(a.message_scroll, 4);
    a.scroll_messages_down();
    assert_eq!(a.message_scroll, 8);
    a.scroll_messages_down();
    assert_eq!(a.message_scroll, 9);
    a.scroll_messages_down();
    assert_eq!(a.message_scroll, 9);
    a.scroll_messages_up();
    assert_eq!(a.message_scroll, 5);
    a.scroll_messages_up();
    a.scroll_messages_up();
    assert_eq!(a.message_scroll, 0);
    a.scroll_messages_up();
    assert_eq!(a.message_scroll, 0);
    a.config.general.message_scroll_speed = usize::MAX;
    a.scroll_messages_down();
    assert_eq!(a.message_scroll, 9);
    let mut empty = app();
    empty.scroll_messages_down();
    assert_eq!(empty.message_scroll, 0);
}

#[test]
fn keys_in_the_sidebar() {
    let mut a = populated();
    assert_eq!(a.handle_input(Key::Char('j'), NONE), QUIET);
    assert_eq!(a.selected_sidebar_idx, 1);
    assert_eq!(a.handle_input(Key::Down, NONE), QUIET);
    assert_eq!(a.selected_sidebar_idx, 2);
    assert_eq!(a.handle_input(Key::Char('k'), NONE), QUIET);
    assert_eq!(a.handle_input(Key::Up, NONE), QUIET);
    assert_eq!(a.selected_sidebar_idx, 0);
    assert_eq!(a.handle_input(Key::Tab, NONE), QUIET);
    assert_eq!(a.handle_input(Key::Char('s'), NONE), QUIET);
    assert_eq!(mode_name(&a), "settings");
    let mut b = populated();
    b.selected_sidebar_idx = 2;
    assert_eq!(b.handle_input(Key::Enter, NONE), QUIET);
    assert_eq!(mode_name(&b), "messages");
    assert_eq!(b.selected_channel.as_deref(), Some("d2"));
    let mut c = populated();
    assert_eq!(c.handle_input(Key::Char('q'), NONE), InputEffect { quit: true, ..QUIET });
    assert_eq!(c.handle_input(Key::Char('c'), CTRL), InputEffect { quit: true, ..QUIET });
    assert_eq!(c.handle_input(Key::Char('c'), NONE), QUIET);
}

#[test]
fn keys_among_the_messages() {
    let mut a = populated();
    a.selected_sidebar_idx = 1;
    a.select_sidebar_item();
    a.messages = (0..5).map(|i| message(&i.to_string(), "d1")).collect();
    assert_eq!(a.handle_input(Key::Char('j'), NONE), QUIET);
    assert_eq!(a.message_scroll, 1);
    assert_eq!(a.handle_input(Key::Up, NONE), QUIET);
    assert_eq!(a.message_scroll, 0);
    assert_eq!(a.handle_input(Key::Char('a'), NONE), InputEffect { pick_file: true, ..QUIET });
    assert_eq!(mode_name(&a), "messages");
    assert_eq!(a.handle_input(Key::Char('i'), NONE), QUIET);
    assert_eq!(mode_name(&a), "input");
    a.mode = AppMode::Messages;
    assert_eq!(a.handle_input(Key::Char('s'), NONE), QUIET);
    assert_eq!(mode_name(&a), "settings");
    a.mode = AppMode::Messages;
    assert_eq!(a.handle_input(Key::Esc, NONE), QUIET);
    assert_eq!(mode_name(&a), "sidebar");
    assert!(a.selected_channel.is_none());
    a.mode = AppMode::Messages;
    a.selected_channel = Some("d1".to_string());
    assert_eq!(a.handle_input(Key::Char('q'), NONE), QUIET);
    assert_eq!(mode_name(&a), "sidebar");
}

#[test]
fn keys_on_the_input_line() {
    let mut a = app();
    a.mode = AppMode::Input;
    for c in ['h', 'é', 'y'] {
        assert_eq!(a.handle_input(Key::Char(c), NONE), QUIET);
    }
    assert_eq!(a.input, vec!['h', 'é', 'y']);
    assert_eq!(a.input_cursor, 3);
    a.handle_input(Key::Left, NONE);
    a.handle_input(Key::Char('l'), NONE);
    assert_eq!(a.input, vec!['h', 'é', 'l', 'y']);
    assert_eq!(a.input_cursor, 3);
    a.handle_input(Key::Backspace, NONE);
    assert_eq!(a.input, vec!['h', 'é', 'y']);
    assert_eq!(a.input_cursor, 2);
    a.handle_input(Key::Home, NONE);
    assert_eq!(a.input_cursor, 0);
    a.handle_input(Key::Backspace, NONE);
    a.handle_input(Key::Left, NONE);
    assert_eq!((a.input.len(), a.input_cursor), (3, 0));
    a.handle_input(Key::End, NONE);
    assert_eq!(a.input_cursor, 3);
    a.handle_input(Key::Right, NONE);
    assert_eq!(a.input_cursor, 3);
    a.handle_input(Key::Char('a'), CTRL);
    assert_eq!((a.input.len(), a.input_cursor), (3, 3));
    a.handle_input(Key::Char('q'), NONE);
    assert_eq!(a.input, vec!['h', 'é', 'y', 'q']);
    assert_eq!(mode_name(&a), "input");
    a.attached_files.push(remycord::models::AttachedFile::new("/tmp/x"));
    a.handle_input(Key::Enter, NONE);
    assert_eq!(mode_name(&a), "messages");
    assert_eq!(a.attached_files.len(), 1);
    a.mode = AppMode::Input;
    a.handle_input(Key::Esc, NONE);
    assert_eq!(mode_name(&a), "messages");
    assert!(a.attached_files.is_empty());
    assert_eq!(a.input.len(), 4);
}

#[test]
fn sending_takes_the_input_line() {
    let mut a = app();
    a.mode = AppMode::Input;
    a.selected_channel = Some("c1".to_string());
    assert_eq!(a.take_outgoing(Key::Enter, NONE), None);
    a.input = vec!['h', 'i'];
    a.input_cursor = 2;
    assert_eq!(a.take_outgoing(Key::Char('x'), NONE), None);
    assert_eq!(a.take_outgoing(Key::Enter, CTRL), None);
    assert_eq!(a.input.len(), 2);
    assert_eq!(a.take_outgoing(Key::Enter, NONE), Some(("c1".to_string(), "hi".to_string())));
    assert!(a.input.is_empty());
    assert_eq!(a.input_cursor, 0);
    a.input = vec!['y'];
    a.selected_channel = None;
    assert_eq!(a.take_outgoing(Key::Enter, NONE), None);
    assert!(a.input.is_empty());
    a.input = vec!['y'];
    a.mode = AppMode::Messages;
    assert_eq!(a.take_outgoing(Key::Enter, NONE), None);
    assert_eq!(a.input.len(), 1);
}

#[test]
fn keys_on_the_settings_screen() {
    let mut a = app();
    a.mode = AppMode::Settings;
    assert_eq!(a.handle_input(Key::Down, NONE), QUIET);
    assert_eq!(a.handle_input(Key::Char('j'), NONE), QUIET);
    assert_eq!(a.settings_selected, 2);
    assert_eq!(a.handle_input(Key::Char('k'), NONE), QUIET);
    assert_eq!(a.settings_selected, 1);
    let saved = InputEffect { save_config: true, ..QUIET };
    assert_eq!(a.handle_input(Key::Enter, NONE), saved);
    assert_eq!(a.config.general.file_manager, "lf");
    assert_eq!(a.handle_input(Key::Enter, NONE), saved);
    assert_eq!(a.config.general.file_manager, "fzf");
    a.settings_selected = 6;
    assert_eq!(a.handle_input(Key::Enter, NONE), InputEffect { save_config: true, cycle_theme: true, ..QUIET });
    a.settings_selected = 27;
    assert_eq!(a.handle_input(Key::Down, NONE), QUIET);
    assert_eq!(a.settings_selected, 27);
    a.settings_selected = 0;
    assert_eq!(a.handle_input(Key::Up, NONE), QUIET);
    assert_eq!(a.settings_selected, 0);
    assert_eq!(a.handle_input(Key::Char('r'), NONE), QUIET);
    assert_eq!(mode_name(&a), "settings");
    assert_eq!(a.handle_input(Key::Esc, NONE), saved);
    assert_eq!(mode_name(&a), "sidebar");
    a.mode = AppMode::Settings;
    a.selected_channel = Some("c".to_string());
    assert_eq!(a.handle_input(Key::Char('q'), NONE), saved);
    assert_eq!(mode_name(&a), "messages");
}

#[test]
fn editing_each_setting() {
    let mut a = app();
    let mut edit = |a: &mut App, line: usize| {
        a.settings_selected = line;
        a.edit_setting()
    };
    assert!(!edit(&mut a, 2));
    assert!(!a.config.general.show_timestamps);
    edit(&mut a, 3);
    assert!(!a.config.general.show_typing_indicators);
    for expected in [2, 3, 4, 5, 1, 2] {
        edit(&mut a, 4);
        assert_eq!(a.config.general.message_scroll_speed, expected);
    }
    for expected in [9, 10, 11, 12, 4, 5] {
        edit(&mut a, 5);
        assert_eq!(a.config.general.max_input_lines, expected);
    }
    assert!(edit(&mut a, 6));
    edit(&mut a, 9);
    assert!(!a.config.images.enabled);
    edit(&mut a, 10);
    assert!(!a.config.images.render_avatars);
    edit(&mut a, 11);
    assert!(!a.config.images.render_emojis);
    edit(&mut a, 12);
    assert!(!a.config.images.render_stickers);
    edit(&mut a, 13);
    assert!(!a.config.images.render_attachments);
    edit(&mut a, 14);
    assert!(!a.config.images.render_server_icons);
    edit(&mut a, 15);
    assert_eq!(a.config.images.max_image_width, 50);
    edit(&mut a, 16);
    assert_eq!(a.config.images.max_image_height, 25);
    let before = (a.config.images.max_cache_size_mb, a.config.theme_name.clone());
    for line in [0usize, 7, 8, 17, 18, 19, 27, 99] {
        edit(&mut a, line);
    }
    assert_eq!(before, (a.config.images.max_cache_size_mb, a.config.theme_name.clone()));
    assert_eq!(a.config.images.max_image_width, 50);
}

#[test]
fn recording_a_key() {
    let names = [
        (19, "Quit"),
        (20, "Settings"),
        (21, "Up"),
        (22, "Down"),
        (23, "Select"),
        (24, "Back"),
        (25, "Input Mode"),
        (26, "Attach File"),
        (27, "Send Message"),
    ];
    for (line, name) in names {
        let mut a = app();
        a.mode = AppMode::Settings;
        a.settings_selected = line;
        a.start_keybind_recording();
        match &a.mode {
            AppMode::KeybindRecording(action) => assert_eq!(action, name),
            _ => panic!("not recording"),
        }
        let effect = a.handle_input(Key::Char('c'), CTRL);
        assert_eq!(effect, InputEffect { save_config: true, ..QUIET });
        assert_eq!(mode_name(&a), "settings");
        let kb = &a.config.keybinds;
        let bound = [
            &kb.quit,
            &kb.settings,
            &kb.up,
            &kb.down,
            &kb.select,
            &kb.back,
            &kb.input_mode,
            &kb.attach_file,
            &kb.send_message,
        ];
        for (i, b) in bound.iter().enumerate() {
            let is_new = b.key == "c" && b.modifiers == vec!["Ctrl".to_string()];
            assert_eq!(is_new, i == line - 19);
        }
    }
    let mut a = app();
    a.settings_selected = 18;
    a.start_keybind_recording();
    assert_eq!(mode_name(&a), "sidebar");
    a.handle_keybind_recording(Key::Tab, NONE, "Nonsense");
    assert_eq!(mode_name(&a), "settings");
    assert_eq!(a.config.keybinds.quit.key, "q");
}

#[test]
fn platform_events() {
    let mut a = populated();
    let r = a.handle_discord_event(DiscordEvent::Ready(vec![
        Guild::new("g2", "Renamed"),
        Guild::new("g3", "Third"),
        Guild::new("g3", "Third again"),
    ]));
    assert!(r.is_empty());
    let names: Vec<&str> = a.guilds.iter().map(|g| g.name.as_str()).collect();
    assert_eq!(names, vec!["Server One", "Renamed", "Third again"]);
    assert!(a.guilds[0].expanded);
    let r = a.handle_discord_event(DiscordEvent::Connected("alice".to_string()));
    assert!(r.is_empty());
    assert_eq!(a.notifications.last().unwrap().message, "Connected as alice");
    assert_eq!(a.notifications.last().unwrap().kind, NotificationKind::Success);
    let before = a.notifications.len();
    assert!(a.handle_discord_event(DiscordEvent::Error("x".to_string())).is_empty());
    assert!(a.handle_discord_event(DiscordEvent::DmChannels(vec![])).is_empty());
    assert_eq!(a.notifications.len(), before);
    assert_eq!(a.dms.len(), 2);
}

#[test]
fn new_message_goes_where_it_belongs() {
    let image = MessageAttachment::new("a1", "cat.PNG", "https://x/cat.png", "p", None, None, None);
    let text = MessageAttachment::new("a2", "notes.txt", "https://x/notes.txt", "p", None, None, None);
    let typed = MessageAttachment::new("a3", "blob", "https://x/blob", "p", None, None, Some("image/webp".to_string()));
    let incoming = || message("m1", "c2").with_attachments(vec![image.clone(), text.clone(), typed.clone()]);
    let mut a = populated();
    a.message_cache.insert("c2", vec![message("m0", "c2")]);
    a.selected_channel = Some("c2".to_string());
    let requests = a.handle_discord_event(DiscordEvent::NewMessage(incoming()));
    let summary: Vec<String> = requests
        .iter()
        .map(|r| match r {
            ImageRequest::Avatar { user_id, avatar_hash } => format!("avatar:{}:{:?}", user_id, avatar_hash),
            ImageRequest::Attachment { id, url } => format!("attachment:{}:{}", id, url),
        })
        .collect();
    assert_eq!(
        summary,
        vec!["avatar:42:None", "attachment:a1:https://x/cat.png", "attachment:a3:https://x/blob"]
    );
    assert_eq!(a.messages.len(), 1);
    assert_eq!(a.message_cache.get("c2").unwrap().len(), 2);

    a.selected_channel = Some("other".to_string());
    let requests = a.handle_discord_event(DiscordEvent::NewMessage(incoming()));
    assert!(requests.is_empty());
    assert_eq!(a.messages.len(), 1);
    assert_eq!(a.message_cache.get("c2").unwrap().len(), 3);
    let requests = a.handle_discord_event(DiscordEvent::NewMessage(message("m5", "unknown")));
    assert!(requests.is_empty());
    assert!(!a.message_cache.contains("unknown"));

    a.config.images.render_avatars = false;
    assert_eq!(image_requests(&a.config, &vec![incoming(), incoming()]).len(), 4);
    a.config.images.render_attachments = false;
    assert!(image_requests(&a.config, &vec![incoming()]).is_empty());
    a.config.images.render_avatars = true;
    a.config.images.render_attachments = true;
    assert_eq!(image_requests(&a.config, &vec![incoming(), incoming()]).len(), 6);
    a.config.images.enabled = false;
    assert!(image_requests(&a.config, &vec![incoming()]).is_empty());
}

#[test]
fn load_results_are_announced() {
    let mut a = populated();
    a.loading_dms = true;
    a.dms_loaded(Some(vec![dm("x", "x")]));
    assert_eq!(a.dms.len(), 1);
    assert!(!a.loading_dms);
    assert_eq!(a.notifications.last().unwrap().message, "Loaded 1 DM channel(s)");
    a.loading_dms = true;
    a.dms_loaded(None);
    assert_eq!(a.dms.len(), 1);
    assert_eq!(a.notifications.last().unwrap().message, "Failed to load DMs");
    assert_eq!(a.notifications.last().unwrap().kind, NotificationKind::Error);

    a.guilds[1].expanded = true;
    assert_eq!(a.guilds_to_load(), vec!["g2"]);
    let mut one = ChannelList::new();
    one.categories.push(ChannelCategory::new("k", "K", 0));
    one.channels.push(Channel::new("z", "z", ChannelType::Text, 0));
    one.channels.push(Channel::new("y", "y", ChannelType::Text, 1));
    a.channels_loaded("g2", one);
    assert_eq!(
        a.notifications.last().unwrap().message,
        "Loaded channels for Server Two: 2 channel(s), 1 category"
    );
    assert!(a.guilds_to_load().is_empty());
    a.channels_loaded("g1", ChannelList::new());
    assert_eq!(
        a.notifications.last().unwrap().message,
        "Loaded channels for Server One: 0 channel(s), 0 categories"
    );
    let count = a.notifications.len();
    a.channels_loaded("unknown", ChannelList::new());
    assert_eq!(a.notifications.len(), count);
    assert!(a.channel_cache.contains("unknown"));
    a.channels_failed("g1", "timeout");
    assert_eq!(a.notifications.last().unwrap().message, "Failed to load channels for Server One: timeout");
    a.channels_failed("unknown", "timeout");
    assert_eq!(a.notifications.len(), count + 1);
    a.messages_failed("boom");
    assert_eq!(a.notifications.last().unwrap().message, "Failed to load messages: boom");
    a.loading_channels = true;
    a.finish_loading_channels();
    assert!(!a.loading_channels);
    a.loading_messages = true;
    a.selected_channel = None;
    a.finish_loading_messages();
    assert!(a.loading_messages);
}

#[test]
fn themes_cycle() {
    let mut a = app();
    let themes = vec!["a".to_string(), "oxocarbon-dark".to_string(), "z".to_string()];
    assert!(a.cycle_theme(&themes));
    assert_eq!(a.config.theme_name, "z");
    assert!(a.cycle_theme(&themes));
    assert_eq!(a.config.theme_name, "a");
    assert!(a.cycle_theme(&themes));
    assert_eq!(a.config.theme_name, "oxocarbon-dark");
    assert!(!a.cycle_theme(&vec!["other".to_string()]));
    assert!(!a.cycle_theme(&Vec::new()));
    assert_eq!(a.config.theme_name, "oxocarbon-dark");
    assert_eq!(theme_name_of("oxocarbon-dark.yaml").as_deref(), Some("oxocarbon-dark"));
    assert_eq!(theme_name_of("a.yaml.yaml").as_deref(), Some("a"));
    assert_eq!(theme_name_of(".yaml").as_deref(), Some(""));
    assert_eq!(theme_name_of("a.yml"), None);
    assert_eq!(theme_name_of("a.yaml.bak"), None);
    a.reload_theme(None);
    assert_eq!(a.theme().name, "Fallback");
    let mut custom = remycord::config::Theme::default();
    custom.name = "Custom".to_string();
    a.reload_theme(Some(custom));
    assert_eq!(a.theme().name, "Custom");
}

fn stats(bytes: u64) -> CacheStats {
    CacheStats {
        total_size_bytes: bytes,
        total_files: 3,
        avatar_files: 1,
        attachment_files: 2,
        cache_path: "/c".to_string(),
    }
}

#[test]
fn cache_fills_up_and_is_cleared() {
    let mut a = app();
    a.config.images.max_cache_size_mb = 1;
    a.config.images.cache_warn_threshold_percent = 80;
    a.config.images.cache_auto_clear = CacheAutoClear::WhenFull;
    assert_eq!(a.check_cache_health(), None);
    a.update_cache_stats(Some(stats(900 * 1024)));
    a.update_cache_stats(None);
    assert_eq!(a.cache_stats.as_ref().unwrap().total_size_bytes, 900 * 1024);
    let first = a.check_cache_health().unwrap();
    assert_eq!(first.usage_percent, 87);
    assert!(first.warn);
    assert_eq!(first.clear, None);
    assert_eq!(a.notifications.len(), 1);
    assert_eq!(
        a.notifications[0].message,
        "Cache is 87% full (0/1MB). Consider clearing cache in settings."
    );
    assert_eq!(a.notifications[0].kind, NotificationKind::Warning);
    let again = a.check_cache_health().unwrap();
    assert!(!again.warn);
    assert_eq!(a.notifications.len(), 1);
    a.update_cache_stats(Some(stats(1100 * 1024)));
    let second = a.check_cache_health().unwrap();
    assert!(second.usage_percent >= 95);
    assert!(!second.warn);
    assert_eq!(second.clear, Some(ClearCause::Full));
    assert_eq!(a.notifications.len(), 2);
    assert_eq!(a.notifications[1].message, "Cache full, auto-clearing...");
    a.update_cache_stats(Some(stats(0)));
    let after = a.check_cache_health().unwrap();
    assert_eq!(after.usage_percent, 0);
    assert_eq!(after.clear, None);
    assert!(!after.warn);
    assert_eq!(a.notifications.len(), 2);
}

#[test]
fn scheduled_clear_follows_the_setting() {
    let mut a = app();
    assert!(!a.check_scheduled_cache_clear(u64::MAX));
    a.config.images.cache_auto_clear = CacheAutoClear::EveryHour;
    assert!(!a.check_scheduled_cache_clear(3599));
    assert!(a.notifications.is_empty());
    assert_eq!(a.monitor.last_clear_secs(), 0);
    assert!(a.check_scheduled_cache_clear(3600));
    assert_eq!(a.notifications.len(), 1);
    assert_eq!(a.notifications[0].message, "Scheduled cache clear...");
    assert_eq!(a.notifications[0].kind, NotificationKind::Info);
    assert_eq!(a.monitor.last_clear_secs(), 3600);
    assert!(!a.check_scheduled_cache_clear(3601));
    assert!(!a.check_scheduled_cache_clear(7199));
    assert_eq!(a.notifications.len(), 1);
    assert!(a.check_scheduled_cache_clear(7200));
    assert_eq!(a.notifications.len(), 2);
    assert_eq!(a.monitor.last_clear_secs(), 7200);
}

#[test]
fn expired_notifications_are_taken_down() {
    let mut a = app();
    a.add_notification(remycord::models::Notification::info("stays").with_duration(600_000));
    a.add_notification(remycord::models::Notification::info("goes").with_duration(0));
    a.add_notification(remycord::models::Notification::error("stays too").with_duration(600_000));
    a.clear_expired_notifications();
    let left: Vec<&str> = a.notifications.iter().map(|n| n.message.as_str()).collect();
    assert_eq!(left, vec!["stays", "stays too"]);
}

#[test]
fn screen_arithmetic() {
    assert_eq!(input_height(0, 8), 3);
    assert_eq!(input_height(1, 8), 3);
    assert_eq!(input_height(5, 8), 7);
    assert_eq!(input_height(20, 8), 10);
    assert_eq!(input_height(3, 0), 2);
    assert_eq!(input_height(usize::MAX, usize::MAX), u16::MAX);
    assert_eq!(message_height(0, 0, 0, 50), 3);
    assert_eq!(message_height(1, 0, 0, 50), 3);
    assert_eq!(message_height(2, 0, 0, 50), 4);
    assert_eq!(message_height(2, 3, 10, 50), 18);
    assert_eq!(message_height(2, 3, 10, 6), 6);
    assert_eq!(message_height(2, 3, 10, 1), 3);
    assert_eq!(message_height(usize::MAX, usize::MAX, usize::MAX, u16::MAX), u16::MAX);
    let area = Area { x: 10, y: 5, width: 12, height: 4 };
    assert_eq!(cursor_position(area, 0), Some((11, 6)));
    assert_eq!(cursor_position(area, 9), Some((20, 6)));
    assert_eq!(cursor_position(area, 10), Some((11, 7)));
    assert_eq!(cursor_position(area, 25), Some((16, 8)));
    assert_eq!(cursor_position(Area { width: 2, ..area }, 3), None);
    assert_eq!(cursor_position(Area { x: u16::MAX, ..area }, 0), None);
    let screen = Area { x: 0, y: 2, width: 90, height: 11 };
    assert_eq!(notification_area(0, screen), Some(Area { x: 59, y: 3, width: 30, height: 3 }));
    assert_eq!(notification_area(2, screen), Some(Area { x: 59, y: 11, width: 30, height: 3 }));
    assert_eq!(notification_area(3, screen), None);
    assert_eq!(notification_area(5, Area { height: 200, ..screen }), None);
    assert_eq!(notification_area(4, Area { height: 200, width: 300, ..screen }).unwrap().width, 40);
    assert_eq!(bar_width(30, 1000), 26);
    assert_eq!(bar_width(30, 500), 13);
    assert_eq!(bar_width(30, 0), 0);
    assert_eq!(bar_width(3, 1000), 0);
    assert_eq!(bar_width(u16::MAX, 999), 65465);
}

#[test]
fn settings_texts() {
    assert_eq!(format_modifiers(&Vec::new()), "");
    assert_eq!(format_modifiers(&vec!["Ctrl".to_string()]), "Ctrl+");
    assert_eq!(format_modifiers(&vec!["Ctrl".to_string(), "Shift".to_string()]), "Ctrl+Shift+");
    assert_eq!(protocol_status(true, "Kitty"), "✓ Kitty");
    assert_eq!(protocol_status(false, "Halfblocks"), "✗ Halfblocks (fallback only)");
    assert_eq!(usage_line(&stats(5 * 1_048_576 + 9), 100), "  Current Usage: 5 / 100MB (5%)");
    assert_eq!(files_line(&stats(0)), "  Files: 3 total (1 avatars, 2 attachments)");
}

#[test]
fn sidebar_lines() {
    let a = populated();
    let items = a.get_sidebar_items();
    let texts: Vec<String> = items.iter().map(|i| line_of(i, true)).collect();
    assert_eq!(
        texts,
        vec![
            "▼ Direct Messages",
            "  # alice",
            "  # bob",
            "▼ Servers",
            "  ▼ Server One",
            "    # rules",
            "    ▼ TALK",
            "      # general",
            "      # random",
            "    ▶ VOICE",
            "  ▶ Server Two",
        ]
    );
    assert_eq!(line_of(&items[0], false), "▶ Direct Messages");
    let none: Option<String> = None;
    let c2 = Some("c2".to_string());
    let d1 = Some("d1".to_string());
    assert_eq!(style(&items[0], true, true, &none), LineStyle::Section);
    assert_eq!(style(&items[3], false, true, &none), LineStyle::Section);
    assert_eq!(style(&items[6], true, true, &c2), LineStyle::Category);
    assert_eq!(style(&items[7], true, true, &c2), LineStyle::Selected);
    assert_eq!(style(&items[7], true, false, &c2), LineStyle::Active);
    assert_eq!(style(&items[7], false, true, &c2), LineStyle::Active);
    assert_eq!(style(&items[8], false, true, &c2), LineStyle::Plain);
    assert_eq!(style(&items[1], false, false, &d1), LineStyle::Active);
    assert_eq!(style(&items[2], false, false, &d1), LineStyle::Plain);
    assert_eq!(style(&items[4], false, true, &c2), LineStyle::Plain);
    assert_eq!(style(&items[4], true, true, &c2), LineStyle::Selected);
}
