//! Key bindings: which key does what.

use vstd::prelude::*;
use crate::text::{lowercase, same_text, string_of, to_lowercase};

verus! {

/// A key of the keyboard, as far as bindings tell keys apart.
#[derive(Debug, Clone, Copy, PartialEq, Eq, Structural)]
pub enum Key {
    Char(char),
    Enter,
    Esc,
    Backspace,
    Left,
    Right,
    Up,
    Down,
    Home,
    End,
    Tab,
    /// Any key that no binding can name.
    Other,
}

/// The modifier keys held down with a key.
#[derive(Debug, Clone, Copy, PartialEq, Eq, Structural)]
pub struct Modifiers {
    pub ctrl: bool,
    pub alt: bool,
    pub shift: bool,
}

/// The bindings of the client.
#[derive(Debug, Clone)]
pub struct Keybinds {
    pub quit: KeyBind,
    pub settings: KeyBind,
    pub up: KeyBind,
    pub down: KeyBind,
    pub select: KeyBind,
    pub back: KeyBind,
    pub input_mode: KeyBind,
    pub attach_file: KeyBind,
    pub scroll_up: KeyBind,
    pub scroll_down: KeyBind,
    pub send_message: KeyBind,
    pub cancel_input: KeyBind,
    pub cursor_left: KeyBind,
    pub cursor_right: KeyBind,
    pub cursor_start: KeyBind,
    pub cursor_end: KeyBind,
}

/// One binding: a key by its name, and the modifiers to hold with it.
#[derive(Debug, Clone)]
pub struct KeyBind {
    pub key: String,
    pub modifiers: Vec<String>,
}

/// A binding as a mathematical value.
pub struct KeyBindView {
    pub key: Seq<char>,
    pub modifiers: Seq<Seq<char>>,
}

/// The views of a run of strings.
pub open spec fn texts_view(texts: Seq<String>) -> Seq<Seq<char>> {
    texts.map_values(|t: String| t@)
}

/// The views of a run of string slices.
pub open spec fn slices_view(texts: Seq<&str>) -> Seq<Seq<char>> {
    texts.map_values(|t: &str| t@)
}

impl View for KeyBind {
    type V = KeyBindView;

    open spec fn view(&self) -> KeyBindView {
        KeyBindView { key: self.key@, modifiers: texts_view(self.modifiers@) }
    }
}

/// Whether a binding on the key named `name` is met by `key`. A character
/// meets a binding on itself and on any name that differs from it only in
/// case; every other key meets the binding on its own name.
pub open spec fn names_key(name: Seq<char>, key: Key) -> bool {
    match key {
        Key::Char(c) => name == seq![c] || lowercase(name) == lowercase(seq![c]),
        Key::Enter => name == "Enter"@,
        Key::Esc => name == "Esc"@,
        Key::Backspace => name == "Backspace"@,
        Key::Left => name == "Left"@,
        Key::Right => name == "Right"@,
        Key::Up => name == "Up"@,
        Key::Down => name == "Down"@,
        Key::Home => name == "Home"@,
        Key::End => name == "End"@,
        Key::Tab => name == "Tab"@,
        Key::Other => false,
    }
}

/// Whether a binding is met by `key` held with `mods`: the key is the one
/// named, and the modifiers held are exactly those asked for.
pub open spec fn is_met(binding: KeyBindView, key: Key, mods: Modifiers) -> bool {
    &&& names_key(binding.key, key)
    &&& mods.ctrl == binding.modifiers.contains("Ctrl"@)
    &&& mods.alt == binding.modifiers.contains("Alt"@)
    &&& mods.shift == binding.modifiers.contains("Shift"@)
}

/// The name that a recorded key is bound under.
pub open spec fn recorded_name(key: Key) -> Seq<char> {
    match key {
        Key::Char(c) => seq![c],
        Key::Enter => "Enter"@,
        Key::Esc => "Esc"@,
        Key::Backspace => "Backspace"@,
        Key::Left => "Left"@,
        Key::Right => "Right"@,
        Key::Up => "Up"@,
        Key::Down => "Down"@,
        Key::Home => "Home"@,
        Key::End => "End"@,
        Key::Tab => "Tab"@,
        Key::Other => "Null"@,
    }
}

/// The modifiers that a recorded key is bound with, in the order in which
/// they are written.
pub open spec fn recorded_modifiers(mods: Modifiers) -> Seq<Seq<char>> {
    let ctrl = if mods.ctrl {
        seq!["Ctrl"@]
    } else {
        Seq::empty()
    };
    let alt = if mods.alt {
        seq!["Alt"@]
    } else {
        Seq::empty()
    };
    let shift = if mods.shift {
        seq!["Shift"@]
    } else {
        Seq::empty()
    };
    ctrl + alt + shift
}

impl KeyBind {
    /// A binding on the key named `key`, held with `modifiers`.
    pub fn new(key: &str, modifiers: Vec<&str>) -> (binding: KeyBind)
        ensures
            binding@ == (KeyBindView { key: key@, modifiers: slices_view(modifiers@) }),
    {
        let mut owned: Vec<String> = Vec::new();
        let mut i: usize = 0;
        while i < modifiers.len()
            invariant
                i <= modifiers.len(),
                texts_view(owned@) == slices_view(modifiers@.take(i as int)),
            decreases modifiers.len() - i,
        {
            let ghost before = owned@;
            owned.push(modifiers[i].to_owned());
            assert(texts_view(owned@) == texts_view(before).push(modifiers@[i as int]@));
            assert(slices_view(modifiers@.take(i + 1)) == slices_view(
                modifiers@.take(i as int),
            ).push(modifiers@[i as int]@));
            i += 1;
        }
        assert(modifiers@.take(modifiers.len() as int) == modifiers@);
        KeyBind { key: key.to_owned(), modifiers: owned }
    }

    /// The binding that a key press records.
    pub fn recorded(key: Key, mods: Modifiers) -> (binding: KeyBind)
        ensures
            binding@ == (KeyBindView {
                key: recorded_name(key),
                modifiers: recorded_modifiers(mods),
            }),
    {
        let name: String = match key {
            Key::Char(c) => {
                let mut one: Vec<char> = Vec::new();
                one.push(c);
                assert(one@ == seq![c]);
                string_of(&one)
            },
            Key::Enter => "Enter".to_owned(),
            Key::Esc => "Esc".to_owned(),
            Key::Backspace => "Backspace".to_owned(),
            Key::Left => "Left".to_owned(),
            Key::Right => "Right".to_owned(),
            Key::Up => "Up".to_owned(),
            Key::Down => "Down".to_owned(),
            Key::Home => "Home".to_owned(),
            Key::End => "End".to_owned(),
            Key::Tab => "Tab".to_owned(),
            Key::Other => "Null".to_owned(),
        };
        let mut modifiers: Vec<String> = Vec::new();
        assert(texts_view(modifiers@) == Seq::<Seq<char>>::empty());
        if mods.ctrl {
            let ghost before = modifiers@;
            modifiers.push("Ctrl".to_owned());
            assert(texts_view(modifiers@) == texts_view(before).push("Ctrl"@));
        }
        if mods.alt {
            let ghost before = modifiers@;
            modifiers.push("Alt".to_owned());
            assert(texts_view(modifiers@) == texts_view(before).push("Alt"@));
        }
        if mods.shift {
            let ghost before = modifiers@;
            modifiers.push("Shift".to_owned());
            assert(texts_view(modifiers@) == texts_view(before).push("Shift"@));
        }
        assert(texts_view(modifiers@) == recorded_modifiers(mods));
        KeyBind { key: name, modifiers }
    }

    /// Whether the binding asks for the modifier named `name`.
    fn asks_for(&self, name: &str) -> (yes: bool)
        ensures
            yes == self@.modifiers.contains(name@),
    {
        let mut i: usize = 0;
        while i < self.modifiers.len()
            invariant
                i <= self.modifiers.len(),
                forall|j: int| 0 <= j < i ==> self@.modifiers[j] != name@,
            decreases self.modifiers.len() - i,
        {
            if same_text(self.modifiers[i].as_str(), name) {
                assert(self@.modifiers[i as int] == name@);
                return true;
            }
            i += 1;
        }
        false
    }

    /// Whether the key named by the binding is `key`.
    fn names(&self, key: Key) -> (yes: bool)
        ensures
            yes == names_key(self.key@, key),
    {
        let name = self.key.as_str();
        match key {
            Key::Char(c) => {
                let mut one: Vec<char> = Vec::new();
                one.push(c);
                assert(one@ == seq![c]);
                let pressed = string_of(&one);
                if same_text(name, pressed.as_str()) {
                    true
                } else {
                    let a = to_lowercase(name);
                    let b = to_lowercase(pressed.as_str());
                    same_text(a.as_str(), b.as_str())
                }
            },
            Key::Enter => same_text(name, "Enter"),
            Key::Esc => same_text(name, "Esc"),
            Key::Backspace => same_text(name, "Backspace"),
            Key::Left => same_text(name, "Left"),
            Key::Right => same_text(name, "Right"),
            Key::Up => same_text(name, "Up"),
            Key::Down => same_text(name, "Down"),
            Key::Home => same_text(name, "Home"),
            Key::End => same_text(name, "End"),
            Key::Tab => same_text(name, "Tab"),
            Key::Other => false,
        }
    }

    /// Whether the binding is met by `key` held with `mods`.
    pub fn matches(&self, key: Key, mods: Modifiers) -> (met: bool)
        ensures
            met == is_met(self@, key, mods),
    {
        if !self.names(key) {
            return false;
        }
        let needs_ctrl = self.asks_for("Ctrl");
        let needs_alt = self.asks_for("Alt");
        let needs_shift = self.asks_for("Shift");
        mods.ctrl == needs_ctrl && mods.alt == needs_alt && mods.shift == needs_shift
    }
}

impl Default for Keybinds {
    fn default() -> (bindings: Keybinds)
        ensures
            bindings.quit@.key == "q"@,
            bindings.quit@.modifiers.len() == 0,
            bindings.send_message@.key == "Enter"@,
            bindings.cursor_start@.key == "a"@,
            bindings.cursor_start@.modifiers == seq!["Ctrl"@],
            bindings.cursor_end@.key == "e"@,
            bindings.cursor_end@.modifiers == seq!["Ctrl"@],
    {
        let mut ctrl_a: Vec<&str> = Vec::new();
        ctrl_a.push("Ctrl");
        let mut ctrl_e: Vec<&str> = Vec::new();
        ctrl_e.push("Ctrl");
        assert(slices_view(ctrl_a@) == seq!["Ctrl"@]);
        assert(slices_view(ctrl_e@) == seq!["Ctrl"@]);
        Keybinds {
            quit: KeyBind::new("q", Vec::new()),
            settings: KeyBind::new("s", Vec::new()),
            up: KeyBind::new("k", Vec::new()),
            down: KeyBind::new("j", Vec::new()),
            select: KeyBind::new("Enter", Vec::new()),
            back: KeyBind::new("Esc", Vec::new()),
            input_mode: KeyBind::new("i", Vec::new()),
            attach_file: KeyBind::new("a", Vec::new()),
            scroll_up: KeyBind::new("k", Vec::new()),
            scroll_down: KeyBind::new("j", Vec::new()),
            send_message: KeyBind::new("Enter", Vec::new()),
            cancel_input: KeyBind::new("Esc", Vec::new()),
            cursor_left: KeyBind::new("Left", Vec::new()),
            cursor_right: KeyBind::new("Right", Vec::new()),
            cursor_start: KeyBind::new("a", ctrl_a),
            cursor_end: KeyBind::new("e", ctrl_e),
        }
    }
}

} // verus!
