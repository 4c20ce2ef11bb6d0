use remycord::config::keybinds::{Key, KeyBind, Keybinds, Modifiers};
use remycord::config::theme::{hex_to_color, Theme, ThemeColor};
use remycord::config::{
    CacheAutoClear, Config, GeneralSettings, ImageQuality, ImageSettings, ResampleFilter,
};
use remycord::memory_cache::KeyedStore;

const NONE: Modifiers = Modifiers { ctrl: false, alt: false, shift: false };
const CTRL: Modifiers = Modifiers { ctrl: true, alt: false, shift: false };

#[test]
fn auto_clear_intervals() {
    assert_eq!(CacheAutoClear::Never.duration_secs(), None);
    assert_eq!(CacheAutoClear::WhenFull.duration_secs(), None);
    assert_eq!(CacheAutoClear::Every30Minutes.duration_secs(), Some(1800));
    assert_eq!(CacheAutoClear::EveryHour.duration_secs(), Some(3600));
    assert_eq!(CacheAutoClear::EveryDay.duration_secs(), Some(86400));
}

#[test]
fn auto_clear_cycles_through_all_settings() {
    let mut seen = vec![CacheAutoClear::Never];
    let mut at = CacheAutoClear::Never.next();
    while at != CacheAutoClear::Never {
        seen.push(at);
        at = at.next();
    }
    assert_eq!(
        seen,
        vec![
            CacheAutoClear::Never,
            CacheAutoClear::WhenFull,
            CacheAutoClear::Every30Minutes,
            CacheAutoClear::EveryHour,
            CacheAutoClear::EveryDay,
        ]
    );
}

#[test]
fn auto_clear_names() {
    assert_eq!(CacheAutoClear::Never.as_str(), "Never");
    assert_eq!(CacheAutoClear::WhenFull.as_str(), "When Full");
    assert_eq!(CacheAutoClear::Every30Minutes.as_str(), "Every 30 Minutes");
    assert_eq!(CacheAutoClear::EveryHour.as_str(), "Every Hour");
    assert_eq!(CacheAutoClear::EveryDay.as_str(), "Every Day");
}

#[test]
fn quality_stands_for_filter() {
    assert_eq!(ImageQuality::Low.to_filter_type(), ResampleFilter::Nearest);
    assert_eq!(ImageQuality::Medium.to_filter_type(), ResampleFilter::Triangle);
    assert_eq!(ImageQuality::High.to_filter_type(), ResampleFilter::Lanczos3);
}

#[test]
fn default_settings() {
    let g = GeneralSettings::default();
    assert_eq!((g.username.as_str(), g.file_manager.as_str()), ("You", "fzf"));
    assert!(g.show_timestamps && g.show_typing_indicators);
    assert_eq!((g.message_scroll_speed, g.max_input_lines), (1, 8));
    let i = ImageSettings::defaults(true);
    assert!(i.enabled && i.render_avatars && i.render_attachments && i.auto_load_images);
    assert_eq!((i.min_image_width, i.max_image_width, i.max_image_height), (20, 40, 20));
    assert_eq!(i.aspect_ratio_correction_percent, 200);
    assert_eq!(i.max_cache_size_mb, 100);
    assert_eq!(i.cache_warn_threshold_percent, 80);
    assert_eq!(i.cache_auto_clear, CacheAutoClear::WhenFull);
    assert_eq!(i.image_quality, ImageQuality::High);
    assert!(!i.cache_clear_on_exit);
    assert!(!ImageSettings::defaults(false).enabled);
    let c = Config::defaults(false);
    assert_eq!(c.theme_name, "oxocarbon-dark");
    assert_eq!(c.theme.name, "Fallback");
    assert_eq!(c.keybinds.quit.key, "q");
    assert!(!c.images.enabled);
}

#[test]
fn settings_give_attachment_limits() {
    let s = ImageSettings::defaults(true).attachment_sizing(9);
    assert_eq!((s.min_cols, s.min_rows, s.max_cols, s.max_rows), (20, 5, 40, 20));
    assert_eq!((s.cell_width, s.cell_height), (9, 18));
}

#[test]
fn footprint_sizes_step_through_their_choices() {
    assert_eq!(ImageSettings::next_max_width(10), 20);
    assert_eq!(ImageSettings::next_max_width(20), 30);
    assert_eq!(ImageSettings::next_max_width(30), 40);
    assert_eq!(ImageSettings::next_max_width(40), 50);
    assert_eq!(ImageSettings::next_max_width(50), 10);
    assert_eq!(ImageSettings::next_max_width(33), 10);
    assert_eq!(ImageSettings::next_max_height(5), 10);
    assert_eq!(ImageSettings::next_max_height(10), 15);
    assert_eq!(ImageSettings::next_max_height(15), 20);
    assert_eq!(ImageSettings::next_max_height(20), 25);
    assert_eq!(ImageSettings::next_max_height(25), 5);
    assert_eq!(ImageSettings::next_max_height(0), 5);
}

#[test]
fn default_keybinds() {
    let kb = Keybinds::default();
    let key = |b: &KeyBind| (b.key.clone(), b.modifiers.clone());
    assert_eq!(key(&kb.quit), ("q".to_string(), vec![]));
    assert_eq!(key(&kb.settings), ("s".to_string(), vec![]));
    assert_eq!(key(&kb.up), ("k".to_string(), vec![]));
    assert_eq!(key(&kb.down), ("j".to_string(), vec![]));
    assert_eq!(key(&kb.select), ("Enter".to_string(), vec![]));
    assert_eq!(key(&kb.back), ("Esc".to_string(), vec![]));
    assert_eq!(key(&kb.input_mode), ("i".to_string(), vec![]));
    assert_eq!(key(&kb.attach_file), ("a".to_string(), vec![]));
    assert_eq!(key(&kb.scroll_up), ("k".to_string(), vec![]));
    assert_eq!(key(&kb.scroll_down), ("j".to_string(), vec![]));
    assert_eq!(key(&kb.send_message), ("Enter".to_string(), vec![]));
    assert_eq!(key(&kb.cancel_input), ("Esc".to_string(), vec![]));
    assert_eq!(key(&kb.cursor_left), ("Left".to_string(), vec![]));
    assert_eq!(key(&kb.cursor_right), ("Right".to_string(), vec![]));
    assert_eq!(key(&kb.cursor_start), ("a".to_string(), vec!["Ctrl".to_string()]));
    assert_eq!(key(&kb.cursor_end), ("e".to_string(), vec!["Ctrl".to_string()]));
}

#[test]
fn keybind_matches_key_and_exact_modifiers() {
    let q = KeyBind::new("q", vec![]);
    assert!(q.matches(Key::Char('q'), NONE));
    assert!(q.matches(Key::Char('Q'), NONE));
    assert!(!q.matches(Key::Char('w'), NONE));
    assert!(!q.matches(Key::Char('q'), CTRL));
    assert!(!q.matches(Key::Enter, NONE));
    let ctrl_a = KeyBind::new("a", vec!["Ctrl"]);
    assert!(ctrl_a.matches(Key::Char('a'), CTRL));
    assert!(!ctrl_a.matches(Key::Char('a'), NONE));
    assert!(!ctrl_a.matches(Key::Char('a'), Modifiers { ctrl: true, alt: true, shift: false }));
    let all = KeyBind::new("x", vec!["Shift", "Alt", "Ctrl"]);
    assert!(all.matches(Key::Char('X'), Modifiers { ctrl: true, alt: true, shift: true }));
    assert!(!all.matches(Key::Char('X'), Modifiers { ctrl: true, alt: false, shift: true }));
    let upper = KeyBind::new("É", vec![]);
    assert!(upper.matches(Key::Char('é'), NONE));
}

#[test]
fn keybind_matches_named_keys() {
    let named = [
        ("Enter", Key::Enter),
        ("Esc", Key::Esc),
        ("Backspace", Key::Backspace),
        ("Left", Key::Left),
        ("Right", Key::Right),
        ("Up", Key::Up),
        ("Down", Key::Down),
        ("Home", Key::Home),
        ("End", Key::End),
        ("Tab", Key::Tab),
    ];
    for (name, key) in named {
        let b = KeyBind::new(name, vec![]);
        assert!(b.matches(key, NONE));
        assert!(!b.matches(Key::Other, NONE));
        assert!(!b.matches(Key::Char('e'), NONE));
        assert!(!KeyBind::new(&name.to_lowercase(), vec![]).matches(key, NONE));
        for (other_name, _) in named {
            if other_name != name {
                assert!(!KeyBind::new(other_name, vec![]).matches(key, NONE));
            }
        }
    }
    assert!(!KeyBind::new("Other", vec![]).matches(Key::Other, NONE));
}

#[test]
fn recorded_binding_names_key_and_modifiers() {
    let b = KeyBind::recorded(Key::Char('x'), Modifiers { ctrl: true, alt: false, shift: true });
    assert_eq!(b.key, "x");
    assert_eq!(b.modifiers, vec!["Ctrl", "Shift"]);
    assert!(b.matches(Key::Char('x'), Modifiers { ctrl: true, alt: false, shift: true }));
    let e = KeyBind::recorded(Key::Enter, Modifiers { ctrl: false, alt: true, shift: false });
    assert_eq!((e.key.as_str(), e.modifiers.clone()), ("Enter", vec!["Alt".to_string()]));
    assert_eq!(KeyBind::recorded(Key::Tab, NONE).key, "Tab");
    assert_eq!(KeyBind::recorded(Key::Other, NONE).key, "Null");
    assert!(KeyBind::recorded(Key::Home, NONE).modifiers.is_empty());
}

#[test]
fn hex_colours() {
    assert_eq!(hex_to_color("#ff8800"), ThemeColor::Rgb(255, 136, 0));
    assert_eq!(hex_to_color("#000000"), ThemeColor::Rgb(0, 0, 0));
    assert_eq!(hex_to_color("#FFFFFF"), ThemeColor::Rgb(255, 255, 255));
    assert_eq!(hex_to_color("#AbCdEf"), ThemeColor::Rgb(0xab, 0xcd, 0xef));
    assert_eq!(hex_to_color("161616"), ThemeColor::Rgb(0x16, 0x16, 0x16));
    assert_eq!(hex_to_color("###123456"), ThemeColor::Rgb(0x12, 0x34, 0x56));
    assert_eq!(hex_to_color("#gg0000"), ThemeColor::Rgb(255, 0, 0));
    assert_eq!(hex_to_color("#0g0000"), ThemeColor::Rgb(255, 0, 0));
    assert_eq!(hex_to_color("#+a+b+c"), ThemeColor::Rgb(10, 11, 12));
    assert_eq!(hex_to_color("#-a0000"), ThemeColor::Rgb(255, 0, 0));
    assert_eq!(hex_to_color("#a+0000"), ThemeColor::Rgb(255, 0, 0));
    assert_eq!(hex_to_color("#++0000"), ThemeColor::Rgb(255, 0, 0));
    assert_eq!(hex_to_color("#12345#"), ThemeColor::Rgb(0x12, 0x34, 255));
}

#[test]
fn hex_colours_of_wrong_length_are_white() {
    for text in ["", "#", "#12345", "#1234567", "12345", "#12 456 "] {
        assert_eq!(hex_to_color(text), ThemeColor::White, "{}", text);
    }
    assert_eq!(hex_to_color("ééé"), ThemeColor::Rgb(255, 255, 255));
}

#[test]
fn theme_colours_by_name() {
    let t = Theme::default();
    assert_eq!(t.name, "Fallback");
    assert_eq!(t.author, None);
    let expected = [
        ("base00", (0x00, 0x00, 0x00)),
        ("base01", (0x11, 0x11, 0x11)),
        ("base02", (0x22, 0x22, 0x22)),
        ("base03", (0x33, 0x33, 0x33)),
        ("base04", (0xcc, 0xcc, 0xcc)),
        ("base05", (0xdd, 0xdd, 0xdd)),
        ("base06", (0xee, 0xee, 0xee)),
        ("base07", (0xff, 0xff, 0xff)),
        ("base08", (0xff, 0x00, 0x00)),
        ("base09", (0xff, 0x88, 0x00)),
        ("base0A", (0xff, 0xff, 0x00)),
        ("base0B", (0x00, 0xff, 0x00)),
        ("base0C", (0x00, 0xff, 0xff)),
        ("base0D", (0x00, 0x88, 0xff)),
        ("base0E", (0x88, 0x00, 0xff)),
        ("base0F", (0xff, 0x00, 0xff)),
        ("base0a", (0xdd, 0xdd, 0xdd)),
        ("nonsense", (0xdd, 0xdd, 0xdd)),
    ];
    for (name, (r, g, b)) in expected {
        assert_eq!(t.get_color(name), ThemeColor::Rgb(r, g, b), "{}", name);
    }
    let mut odd = Theme::default();
    odd.base03 = "red".to_string();
    assert_eq!(odd.get_color("base03"), ThemeColor::White);
}

#[test]
fn keyed_store_is_a_map() {
    let mut store: KeyedStore<u32> = KeyedStore::new();
    assert_eq!(store.len(), 0);
    assert!(!store.contains("a"));
    assert_eq!(store.get("a"), None);
    store.insert("a", 1);
    store.insert("b", 2);
    store.insert("a", 3);
    assert_eq!(store.len(), 2);
    assert_eq!(store.get("a"), Some(&3));
    assert_eq!(store.get("b"), Some(&2));
    assert_eq!(store.entry_at(0), ("a", &3));
    assert_eq!(store.entry_at(1), ("b", &2));
    if let Some(v) = store.get_mut("b") {
        *v = 20;
    }
    assert_eq!(store.get("b"), Some(&20));
    assert!(store.get_mut("zz").is_none());
    assert_eq!(store.remove("a"), Some(3));
    assert_eq!(store.remove("a"), None);
    assert_eq!(store.len(), 1);
    assert_eq!(store.entry_at(0), ("b", &20));
    store.clear();
    assert_eq!(store.len(), 0);
    assert!(!store.contains("b"));
}
