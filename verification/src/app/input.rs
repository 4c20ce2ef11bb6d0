//! What a key press does, in each mode of the client.

use vstd::prelude::*;
use crate::app::mode::AppMode;
use crate::app::model::App;
use crate::app::navigation::{
    chose_item, left_channel, line_above, line_below, scrolled_down, scrolled_up,
};
use crate::config::keybinds::{
    is_met, recorded_modifiers, recorded_name, Key, KeyBind, KeyBindView, Keybinds, Modifiers,
};
use crate::config::{
    height_after, width_after, Config, GeneralSettings, ImageSettings,
};
use crate::text::{same_text, string_of};

verus! {

/// The last line of the settings screen that can be selected.
pub const LAST_SETTING: usize = 27;

/// What the caller is to do after a key press.
#[derive(Debug, Clone, Copy, PartialEq, Eq, Structural)]
pub struct InputEffect {
    /// Leave the client.
    pub quit: bool,
    /// Write the settings to disk.
    pub save_config: bool,
    /// Let the user pick a file to attach.
    pub pick_file: bool,
    /// Step on to the next theme on disk.
    pub cycle_theme: bool,
}

/// Nothing to do.
pub open spec fn no_effect() -> InputEffect {
    InputEffect { quit: false, save_config: false, pick_file: false, cycle_theme: false }
}

/// What a key press asks for in the sidebar.
pub enum SidebarCommand {
    Down,
    Up,
    Select,
    Settings,
    Nothing,
}

/// What a key press asks for in the sidebar. Of two bindings on one key the
/// first listed wins.
pub open spec fn sidebar_command(kb: Keybinds, key: Key, mods: Modifiers) -> SidebarCommand {
    if is_met(kb.down@, key, mods) || key == Key::Down {
        SidebarCommand::Down
    } else if is_met(kb.up@, key, mods) || key == Key::Up {
        SidebarCommand::Up
    } else if is_met(kb.select@, key, mods) {
        SidebarCommand::Select
    } else if is_met(kb.settings@, key, mods) {
        SidebarCommand::Settings
    } else {
        SidebarCommand::Nothing
    }
}

/// Whether `new` is `old` after the selected line of the sidebar was chosen.
pub open spec fn chose_selected(old: App, new: App) -> bool {
    if old.selected_sidebar_idx < old.sidebar().len() {
        chose_item(old, old.sidebar()[old.selected_sidebar_idx as int], new)
    } else {
        new == old
    }
}

/// Whether `new` is `old` after a key press in the sidebar.
pub open spec fn sidebar_input(old: App, key: Key, mods: Modifiers, new: App) -> bool {
    match sidebar_command(old.config.keybinds, key, mods) {
        SidebarCommand::Down => new == (App {
            selected_sidebar_idx: line_below(
                old.selected_sidebar_idx as nat,
                old.sidebar().len(),
            ) as usize,
            ..old
        }),
        SidebarCommand::Up => new == (App {
            selected_sidebar_idx: line_above(
                old.selected_sidebar_idx as nat,
                old.sidebar().len(),
            ) as usize,
            ..old
        }),
        SidebarCommand::Select => chose_selected(old, new),
        SidebarCommand::Settings => new == (App { mode: AppMode::Settings, ..old }),
        SidebarCommand::Nothing => new == old,
    }
}

/// What a key press asks for among the messages.
pub enum MessagesCommand {
    ScrollDown,
    ScrollUp,
    Input,
    Attach,
    Settings,
    Nothing,
}

/// What a key press asks for among the messages.
pub open spec fn messages_command(kb: Keybinds, key: Key, mods: Modifiers) -> MessagesCommand {
    if is_met(kb.scroll_down@, key, mods) || key == Key::Down {
        MessagesCommand::ScrollDown
    } else if is_met(kb.scroll_up@, key, mods) || key == Key::Up {
        MessagesCommand::ScrollUp
    } else if is_met(kb.input_mode@, key, mods) {
        MessagesCommand::Input
    } else if is_met(kb.attach_file@, key, mods) {
        MessagesCommand::Attach
    } else if is_met(kb.settings@, key, mods) {
        MessagesCommand::Settings
    } else {
        MessagesCommand::Nothing
    }
}

/// Whether `new` is `old` after a key press among the messages.
pub open spec fn messages_input(old: App, key: Key, mods: Modifiers, new: App) -> bool {
    match messages_command(old.config.keybinds, key, mods) {
        MessagesCommand::ScrollDown => new == (App {
            message_scroll: scrolled_down(
                old.message_scroll as nat,
                old.config.general.message_scroll_speed as nat,
                old.messages@.len(),
            ) as usize,
            ..old
        }),
        MessagesCommand::ScrollUp => new == (App {
            message_scroll: scrolled_up(
                old.message_scroll as nat,
                old.config.general.message_scroll_speed as nat,
            ) as usize,
            ..old
        }),
        MessagesCommand::Input => new == (App { mode: AppMode::Input, ..old }),
        MessagesCommand::Attach => new == old,
        MessagesCommand::Settings => new == (App { mode: AppMode::Settings, ..old }),
        MessagesCommand::Nothing => new == old,
    }
}

/// What a key press asks for on the input line.
pub enum InputCommand {
    Cancel,
    Done,
    Insert(char),
    Backspace,
    Left,
    Right,
    Start,
    End,
    Nothing,
}

/// What a key press asks for on the input line. A character that is typed
/// with the control key held does nothing, whatever is bound to it.
pub open spec fn input_command(kb: Keybinds, key: Key, mods: Modifiers) -> InputCommand {
    if is_met(kb.cancel_input@, key, mods) {
        InputCommand::Cancel
    } else if is_met(kb.send_message@, key, mods) {
        InputCommand::Done
    } else if key is Char {
        if mods.ctrl {
            InputCommand::Nothing
        } else {
            InputCommand::Insert(key->Char_0)
        }
    } else if key == Key::Backspace {
        InputCommand::Backspace
    } else if is_met(kb.cursor_left@, key, mods) || key == Key::Left {
        InputCommand::Left
    } else if is_met(kb.cursor_right@, key, mods) || key == Key::Right {
        InputCommand::Right
    } else if is_met(kb.cursor_start@, key, mods) || key == Key::Home {
        InputCommand::Start
    } else if is_met(kb.cursor_end@, key, mods) || key == Key::End {
        InputCommand::End
    } else {
        InputCommand::Nothing
    }
}

/// Whether `new` is `old` after a key press on the input line.
pub open spec fn input_mode_input(old: App, key: Key, mods: Modifiers, new: App) -> bool {
    match input_command(old.config.keybinds, key, mods) {
        InputCommand::Cancel => {
            &&& new.attached_files@.len() == 0
            &&& new == (App {
                mode: AppMode::Messages,
                attached_files: new.attached_files,
                ..old
            })
        },
        InputCommand::Done => new == (App { mode: AppMode::Messages, ..old }),
        InputCommand::Insert(c) => {
            &&& new.input@ == old.input@.insert(old.input_cursor as int, c)
            &&& new.input_cursor == old.input_cursor + 1
            &&& new == (App { input: new.input, input_cursor: new.input_cursor, ..old })
        },
        InputCommand::Backspace => if old.input_cursor > 0 {
            &&& new.input@ == old.input@.remove(old.input_cursor - 1)
            &&& new.input_cursor == old.input_cursor - 1
            &&& new == (App { input: new.input, input_cursor: new.input_cursor, ..old })
        } else {
            new == old
        },
        InputCommand::Left => new == (App {
            input_cursor: if old.input_cursor > 0 {
                (old.input_cursor - 1) as usize
            } else {
                old.input_cursor
            },
            ..old
        }),
        InputCommand::Right => new == (App {
            input_cursor: if old.input_cursor < old.input@.len() {
                (old.input_cursor + 1) as usize
            } else {
                old.input_cursor
            },
            ..old
        }),
        InputCommand::Start => new == (App { input_cursor: 0, ..old }),
        InputCommand::End => new == (App { input_cursor: old.input@.len() as usize, ..old }),
        InputCommand::Nothing => new == old,
    }
}

/// The action whose key is recorded from a line of the settings screen.
pub open spec fn action_at(selected: nat) -> Option<Seq<char>> {
    if selected == 19 {
        Some("Quit"@)
    } else if selected == 20 {
        Some("Settings"@)
    } else if selected == 21 {
        Some("Up"@)
    } else if selected == 22 {
        Some("Down"@)
    } else if selected == 23 {
        Some("Select"@)
    } else if selected == 24 {
        Some("Back"@)
    } else if selected == 25 {
        Some("Input Mode"@)
    } else if selected == 26 {
        Some("Attach File"@)
    } else if selected == 27 {
        Some("Send Message"@)
    } else {
        None
    }
}

/// The other of the two file managers.
pub open spec fn other_file_manager(current: Seq<char>) -> Seq<char> {
    if current == "fzf"@ {
        "lf"@
    } else {
        "fzf"@
    }
}

/// The general settings after the line `selected` of the settings screen
/// was edited, given the file manager that is then set: a switch is
/// flipped, and a number steps on to the one that follows it.
pub open spec fn general_after(
    g: GeneralSettings,
    selected: nat,
    file_manager: String,
) -> GeneralSettings {
    if selected == 1 {
        GeneralSettings { file_manager, ..g }
    } else if selected == 2 {
        GeneralSettings { show_timestamps: !g.show_timestamps, ..g }
    } else if selected == 3 {
        GeneralSettings { show_typing_indicators: !g.show_typing_indicators, ..g }
    } else if selected == 4 {
        GeneralSettings { message_scroll_speed: (g.message_scroll_speed % 5 + 1) as usize, ..g }
    } else if selected == 5 {
        GeneralSettings {
            max_input_lines: if g.max_input_lines >= 12 {
                4usize
            } else {
                (g.max_input_lines + 1) as usize
            },
            ..g
        }
    } else {
        g
    }
}

/// The image settings after the line `selected` of the settings screen was
/// edited: a switch is flipped, and a size steps on to the one that
/// follows it.
pub open spec fn images_after(i: ImageSettings, selected: nat) -> ImageSettings {
    if selected == 9 {
        ImageSettings { enabled: !i.enabled, ..i }
    } else if selected == 10 {
        ImageSettings { render_avatars: !i.render_avatars, ..i }
    } else if selected == 11 {
        ImageSettings { render_emojis: !i.render_emojis, ..i }
    } else if selected == 12 {
        ImageSettings { render_stickers: !i.render_stickers, ..i }
    } else if selected == 13 {
        ImageSettings { render_attachments: !i.render_attachments, ..i }
    } else if selected == 14 {
        ImageSettings { render_server_icons: !i.render_server_icons, ..i }
    } else if selected == 15 {
        ImageSettings { max_image_width: width_after(i.max_image_width), ..i }
    } else if selected == 16 {
        ImageSettings { max_image_height: height_after(i.max_image_height), ..i }
    } else {
        i
    }
}

/// Whether `new` is the settings `old` after the line `selected` of the
/// settings screen was edited.
pub open spec fn edited_config(old: Config, selected: nat, new: Config) -> bool {
    &&& new.general == general_after(old.general, selected, new.general.file_manager)
    &&& new.general.file_manager@ == if selected == 1 {
        other_file_manager(old.general.file_manager@)
    } else {
        old.general.file_manager@
    }
    &&& new.images == images_after(old.images, selected)
    &&& new == (Config { general: new.general, images: new.images, ..old })
}

/// Edits the general settings from the line `selected` of the settings
/// screen.
fn edit_general(g: &mut GeneralSettings, selected: usize)
    ensures
        *final(g) == general_after(*old(g), selected as nat, final(g).file_manager),
        final(g).file_manager@ == if selected == 1 {
            other_file_manager(old(g).file_manager@)
        } else {
            old(g).file_manager@
        },
{
    if selected == 1 {
        let next = if same_text(g.file_manager.as_str(), "fzf") {
            "lf"
        } else {
            "fzf"
        };
        g.file_manager = next.to_owned();
    } else if selected == 2 {
        g.show_timestamps = !g.show_timestamps;
    } else if selected == 3 {
        g.show_typing_indicators = !g.show_typing_indicators;
    } else if selected == 4 {
        g.message_scroll_speed = g.message_scroll_speed % 5 + 1;
    } else if selected == 5 {
        g.max_input_lines = if g.max_input_lines >= 12 {
            4
        } else {
            g.max_input_lines + 1
        };
    }
}

/// Edits the image settings from the line `selected` of the settings
/// screen.
fn edit_images(i: &mut ImageSettings, selected: usize)
    ensures
        *final(i) == images_after(*old(i), selected as nat),
{
    if selected == 9 {
        i.enabled = !i.enabled;
    } else if selected == 10 {
        i.render_avatars = !i.render_avatars;
    } else if selected == 11 {
        i.render_emojis = !i.render_emojis;
    } else if selected == 12 {
        i.render_stickers = !i.render_stickers;
    } else if selected == 13 {
        i.render_attachments = !i.render_attachments;
    } else if selected == 14 {
        i.render_server_icons = !i.render_server_icons;
    } else if selected == 15 {
        i.max_image_width = ImageSettings::next_max_width(i.max_image_width);
    } else if selected == 16 {
        i.max_image_height = ImageSettings::next_max_height(i.max_image_height);
    }
}

/// What a key press asks for on the settings screen.
pub enum SettingsCommand {
    Down,
    Up,
    Edit,
    Record,
    Nothing,
}

/// What a key press asks for on the settings screen.
pub open spec fn settings_command(kb: Keybinds, key: Key, mods: Modifiers) -> SettingsCommand {
    if key == Key::Down || is_met(kb.down@, key, mods) {
        SettingsCommand::Down
    } else if key == Key::Up || is_met(kb.up@, key, mods) {
        SettingsCommand::Up
    } else if key == Key::Enter {
        SettingsCommand::Edit
    } else if key == Key::Char('r') {
        SettingsCommand::Record
    } else {
        SettingsCommand::Nothing
    }
}

/// Whether `new` is `old` after the recording of a key was begun from the
/// selected line of the settings screen.
pub open spec fn began_recording(old: App, new: App) -> bool {
    match action_at(old.settings_selected as nat) {
        Some(action) => {
            &&& new.mode matches AppMode::KeybindRecording(name) && name@ == action
            &&& new == (App { mode: new.mode, ..old })
        },
        None => new == old,
    }
}

/// Whether `new` and `effect` are what a key press on the settings screen
/// makes of `old`.
pub open spec fn settings_input(
    old: App,
    key: Key,
    mods: Modifiers,
    new: App,
    effect: InputEffect,
) -> bool {
    match settings_command(old.config.keybinds, key, mods) {
        SettingsCommand::Down => effect == no_effect() && new == (App {
            settings_selected: if old.settings_selected < 27 {
                (old.settings_selected + 1) as usize
            } else {
                old.settings_selected
            },
            ..old
        }),
        SettingsCommand::Up => effect == no_effect() && new == (App {
            settings_selected: if old.settings_selected > 0 {
                (old.settings_selected - 1) as usize
            } else {
                old.settings_selected
            },
            ..old
        }),
        SettingsCommand::Edit => {
            &&& effect == (InputEffect {
                save_config: true,
                cycle_theme: old.settings_selected == 6,
                ..no_effect()
            })
            &&& edited_config(old.config, old.settings_selected as nat, new.config)
            &&& new == (App { config: new.config, ..old })
        },
        SettingsCommand::Record => effect == no_effect() && began_recording(old, new),
        SettingsCommand::Nothing => effect == no_effect() && new == old,
    }
}

/// Whether `new` is the bindings `old` with the binding of `action`
/// replaced by `binding`. An action that has no binding changes nothing.
pub open spec fn rebound(old: Keybinds, action: Seq<char>, binding: KeyBind, new: Keybinds) -> bool {
    if action == "Quit"@ {
        new == (Keybinds { quit: binding, ..old })
    } else if action == "Settings"@ {
        new == (Keybinds { settings: binding, ..old })
    } else if action == "Up"@ {
        new == (Keybinds { up: binding, ..old })
    } else if action == "Down"@ {
        new == (Keybinds { down: binding, ..old })
    } else if action == "Select"@ {
        new == (Keybinds { select: binding, ..old })
    } else if action == "Back"@ {
        new == (Keybinds { back: binding, ..old })
    } else if action == "Input Mode"@ {
        new == (Keybinds { input_mode: binding, ..old })
    } else if action == "Attach File"@ {
        new == (Keybinds { attach_file: binding, ..old })
    } else if action == "Send Message"@ {
        new == (Keybinds { send_message: binding, ..old })
    } else {
        new == old
    }
}

/// Whether `new` is `old` after `key`, held with `mods`, was recorded as
/// the key of `action`.
pub open spec fn recorded_key(old: App, action: Seq<char>, key: Key, mods: Modifiers, new: App) -> bool {
    exists|binding: KeyBind|
        {
            &&& binding@ == (KeyBindView {
                key: recorded_name(key),
                modifiers: recorded_modifiers(mods),
            })
            &&& #[trigger] rebound(old.config.keybinds, action, binding, new.config.keybinds)
            &&& new == (App {
                mode: AppMode::Settings,
                config: Config { keybinds: new.config.keybinds, ..old.config },
                ..old
            })
        }
}

/// Whether `new` is `old` after the settings screen was closed: back among
/// the messages where a channel is selected, and in the sidebar otherwise.
pub open spec fn closed_settings(old: App, new: App) -> bool {
    new == (App {
        mode: if old.selected_channel is Some {
            AppMode::Messages
        } else {
            AppMode::Sidebar
        },
        ..old
    })
}

/// Whether `new` and `effect` are what a key press makes of `old`.
///
/// A key that is being recorded is bound and nothing else. Control and `c`
/// always quits. Otherwise the key goes to the mode that has the keyboard,
/// where the quit key leaves the client from the sidebar, leaves the channel
/// from the messages and closes the settings from the settings screen.
pub open spec fn key_press(old: App, key: Key, mods: Modifiers, new: App, effect: InputEffect) -> bool {
    let kb = old.config.keybinds;
    let quit_key = is_met(kb.quit@, key, mods);
    match old.mode {
        AppMode::KeybindRecording(action) => {
            &&& effect == (InputEffect { save_config: true, ..no_effect() })
            &&& recorded_key(old, action@, key, mods, new)
        },
        _ => if key == Key::Char('c') && mods.ctrl {
            effect == (InputEffect { quit: true, ..no_effect() }) && new == old
        } else {
            match old.mode {
                AppMode::Sidebar => if quit_key {
                    effect == (InputEffect { quit: true, ..no_effect() }) && new == old
                } else {
                    effect == no_effect() && sidebar_input(old, key, mods, new)
                },
                AppMode::Messages => if quit_key || is_met(kb.back@, key, mods) {
                    effect == no_effect() && left_channel(old, new)
                } else {
                    &&& effect == (InputEffect {
                        pick_file: messages_command(kb, key, mods) is Attach,
                        ..no_effect()
                    })
                    &&& messages_input(old, key, mods, new)
                },
                AppMode::Input => effect == no_effect() && input_mode_input(old, key, mods, new),
                AppMode::Settings => if quit_key || key == Key::Esc {
                    effect == (InputEffect { save_config: true, ..no_effect() }) && closed_settings(
                        old,
                        new,
                    )
                } else {
                    settings_input(old, key, mods, new, effect)
                },
                AppMode::KeybindRecording(_) => effect == no_effect() && new == old,
            }
        },
    }
}

/// Whether a key press on the input line sends what was written: the key
/// is the one bound to sending, and something was written.
pub open spec fn sends(old: App, key: Key, mods: Modifiers) -> bool {
    old.mode is Input && is_met(old.config.keybinds.send_message@, key, mods) && old.input@.len()
        > 0
}

impl App {
    /// A key press in the sidebar.
    pub fn handle_sidebar_input(&mut self, key: Key, mods: Modifiers)
        requires
            old(self).wf(),
        ensures
            final(self).wf(),
            sidebar_input(*old(self), key, mods, *final(self)),
    {
        if self.config.keybinds.down.matches(key, mods) || key == Key::Down {
            self.navigate_sidebar_down();
        } else if self.config.keybinds.up.matches(key, mods) || key == Key::Up {
            self.navigate_sidebar_up();
        } else if self.config.keybinds.select.matches(key, mods) {
            self.select_sidebar_item();
        } else if self.config.keybinds.settings.matches(key, mods) {
            self.mode = AppMode::Settings;
        }
    }

    /// A key press among the messages. Says whether the user is to pick a
    /// file to attach.
    pub fn handle_messages_input(&mut self, key: Key, mods: Modifiers) -> (pick_file: bool)
        ensures
            old(self).wf() ==> final(self).wf(),
            messages_input(*old(self), key, mods, *final(self)),
            pick_file == (messages_command(old(self).config.keybinds, key, mods) is Attach),
    {
        if self.config.keybinds.scroll_down.matches(key, mods) || key == Key::Down {
            self.scroll_messages_down();
            false
        } else if self.config.keybinds.scroll_up.matches(key, mods) || key == Key::Up {
            self.scroll_messages_up();
            false
        } else if self.config.keybinds.input_mode.matches(key, mods) {
            self.mode = AppMode::Input;
            false
        } else if self.config.keybinds.attach_file.matches(key, mods) {
            true
        } else if self.config.keybinds.settings.matches(key, mods) {
            self.mode = AppMode::Settings;
            false
        } else {
            false
        }
    }

    /// A key press on the input line.
    pub fn handle_input_mode(&mut self, key: Key, mods: Modifiers)
        requires
            old(self).wf(),
        ensures
            final(self).wf(),
            input_mode_input(*old(self), key, mods, *final(self)),
    {
        if self.config.keybinds.cancel_input.matches(key, mods) {
            self.mode = AppMode::Messages;
            self.attached_files.clear();
            return;
        }
        if self.config.keybinds.send_message.matches(key, mods) {
            self.mode = AppMode::Messages;
            return;
        }
        match key {
            Key::Char(c) => {
                if !mods.ctrl {
                    self.input.insert(self.input_cursor, c);
                    let grown = self.input.len();
                    assert(self.input_cursor < grown);
                    self.input_cursor = self.input_cursor + 1;
                }
                return;
            },
            Key::Backspace => {
                if self.input_cursor > 0 {
                    let _ = self.input.remove(self.input_cursor - 1);
                    self.input_cursor = self.input_cursor - 1;
                }
                return;
            },
            _ => {},
        }
        if self.config.keybinds.cursor_left.matches(key, mods) || key == Key::Left {
            if self.input_cursor > 0 {
                self.input_cursor = self.input_cursor - 1;
            }
        } else if self.config.keybinds.cursor_right.matches(key, mods) || key == Key::Right {
            if self.input_cursor < self.input.len() {
                self.input_cursor = self.input_cursor + 1;
            }
        } else if self.config.keybinds.cursor_start.matches(key, mods) || key == Key::Home {
            self.input_cursor = 0;
        } else if self.config.keybinds.cursor_end.matches(key, mods) || key == Key::End {
            self.input_cursor = self.input.len();
        }
    }

    /// Edits the selected line of the settings screen. Says whether the
    /// line is that of the theme, which the caller steps on.
    pub fn edit_setting(&mut self) -> (cycle_theme: bool)
        ensures
            old(self).wf() ==> final(self).wf(),
            cycle_theme == (old(self).settings_selected == 6),
            edited_config(old(self).config, old(self).settings_selected as nat, final(self).config),
            *final(self) == (App { config: final(self).config, ..*old(self) }),
    {
        let selected = self.settings_selected;
        edit_general(&mut self.config.general, selected);
        edit_images(&mut self.config.images, selected);
        selected == 6
    }

    /// Begins the recording of a key from the selected line of the settings
    /// screen, where the line is that of a binding.
    pub fn start_keybind_recording(&mut self)
        ensures
            old(self).wf() ==> final(self).wf(),
            began_recording(*old(self), *final(self)),
    {
        let selected = self.settings_selected;
        let action = if selected == 19 {
            Some("Quit")
        } else if selected == 20 {
            Some("Settings")
        } else if selected == 21 {
            Some("Up")
        } else if selected == 22 {
            Some("Down")
        } else if selected == 23 {
            Some("Select")
        } else if selected == 24 {
            Some("Back")
        } else if selected == 25 {
            Some("Input Mode")
        } else if selected == 26 {
            Some("Attach File")
        } else if selected == 27 {
            Some("Send Message")
        } else {
            None
        };
        match action {
            Some(name) => {
                self.mode = AppMode::KeybindRecording(name.to_owned());
            },
            None => {},
        }
    }

    /// A key press on the settings screen.
    pub fn handle_settings_input(&mut self, key: Key, mods: Modifiers) -> (effect: InputEffect)
        ensures
            old(self).wf() ==> final(self).wf(),
            settings_input(*old(self), key, mods, *final(self), effect),
    {
        let nothing = InputEffect {
            quit: false,
            save_config: false,
            pick_file: false,
            cycle_theme: false,
        };
        if key == Key::Down || self.config.keybinds.down.matches(key, mods) {
            if self.settings_selected < LAST_SETTING {
                self.settings_selected = self.settings_selected + 1;
            }
            nothing
        } else if key == Key::Up || self.config.keybinds.up.matches(key, mods) {
            if self.settings_selected > 0 {
                self.settings_selected = self.settings_selected - 1;
            }
            nothing
        } else if key == Key::Enter {
            let cycle_theme = self.edit_setting();
            InputEffect { quit: false, save_config: true, pick_file: false, cycle_theme }
        } else if key == Key::Char('r') {
            self.start_keybind_recording();
            nothing
        } else {
            nothing
        }
    }

    /// Binds the key that was pressed to the action that is being recorded,
    /// and goes back to the settings screen.
    pub fn handle_keybind_recording(&mut self, key: Key, mods: Modifiers, action: &str)
        ensures
            old(self).wf() ==> final(self).wf(),
            recorded_key(*old(self), action@, key, mods, *final(self)),
    {
        let binding = KeyBind::recorded(key, mods);
        let ghost witness = binding;
        if same_text(action, "Quit") {
            self.config.keybinds.quit = binding;
        } else if same_text(action, "Settings") {
            self.config.keybinds.settings = binding;
        } else if same_text(action, "Up") {
            self.config.keybinds.up = binding;
        } else if same_text(action, "Down") {
            self.config.keybinds.down = binding;
        } else if same_text(action, "Select") {
            self.config.keybinds.select = binding;
        } else if same_text(action, "Back") {
            self.config.keybinds.back = binding;
        } else if same_text(action, "Input Mode") {
            self.config.keybinds.input_mode = binding;
        } else if same_text(action, "Attach File") {
            self.config.keybinds.attach_file = binding;
        } else if same_text(action, "Send Message") {
            self.config.keybinds.send_message = binding;
        }
        self.mode = AppMode::Settings;
        proof {
            assert(rebound(old(self).config.keybinds, action@, witness, self.config.keybinds));
        }
    }

    /// A key press. Says what is left for the caller to do.
    pub fn handle_input(&mut self, key: Key, mods: Modifiers) -> (effect: InputEffect)
        requires
            old(self).wf(),
        ensures
            final(self).wf(),
            key_press(*old(self), key, mods, *final(self), effect),
    {
        let nothing = InputEffect {
            quit: false,
            save_config: false,
            pick_file: false,
            cycle_theme: false,
        };
        let save = InputEffect { quit: false, save_config: true, pick_file: false, cycle_theme: false };
        let quit = InputEffect { quit: true, save_config: false, pick_file: false, cycle_theme: false };
        let recording: Option<String> = match &self.mode {
            AppMode::KeybindRecording(action) => Some(action.clone()),
            _ => None,
        };
        match recording {
            Some(action) => {
                self.handle_keybind_recording(key, mods, action.as_str());
                return save;
            },
            None => {},
        }
        if key == Key::Char('c') && mods.ctrl {
            return quit;
        }
        let quit_key = self.config.keybinds.quit.matches(key, mods);
        let mode: u8 = match &self.mode {
            AppMode::Sidebar => 0,
            AppMode::Messages => 1,
            AppMode::Input => 2,
            AppMode::Settings => 3,
            AppMode::KeybindRecording(_) => 4,
        };
        if mode == 0 {
            if quit_key {
                return quit;
            }
            self.handle_sidebar_input(key, mods);
            nothing
        } else if mode == 1 {
            if quit_key || self.config.keybinds.back.matches(key, mods) {
                self.exit_channel();
                nothing
            } else {
                let pick_file = self.handle_messages_input(key, mods);
                InputEffect { quit: false, save_config: false, pick_file, cycle_theme: false }
            }
        } else if mode == 2 {
            self.handle_input_mode(key, mods);
            nothing
        } else if mode == 3 {
            if quit_key || key == Key::Esc {
                self.mode = if self.selected_channel.is_some() {
                    AppMode::Messages
                } else {
                    AppMode::Sidebar
                };
                save
            } else {
                self.handle_settings_input(key, mods)
            }
        } else {
            nothing
        }
    }

    /// Takes what was written on the input line, if the key press sends it:
    /// the line is emptied, and what was on it is handed over together with
    /// the channel to send it to, where a channel is selected.
    pub fn take_outgoing(&mut self, key: Key, mods: Modifiers) -> (outgoing: Option<(String, String)>)
        requires
            old(self).wf(),
        ensures
            final(self).wf(),
            if sends(*old(self), key, mods) {
                &&& final(self).input@.len() == 0
                &&& final(self).input_cursor == 0
                &&& *final(self) == (App {
                    input: final(self).input,
                    input_cursor: final(self).input_cursor,
                    ..*old(self)
                })
                &&& match old(self).selected_channel {
                    Some(channel) => outgoing matches Some((to, text)) && to@ == channel@
                        && text@ == old(self).input@,
                    None => outgoing is None,
                }
            } else {
                outgoing is None && *final(self) == *old(self)
            },
    {
        let in_input = match &self.mode {
            AppMode::Input => true,
            _ => false,
        };
        if !in_input || !self.config.keybinds.send_message.matches(key, mods) {
            return None;
        }
        if self.input.len() == 0 {
            return None;
        }
        let outgoing = match &self.selected_channel {
            Some(channel) => Some((channel.clone(), string_of(&self.input))),
            None => None,
        };
        self.input.clear();
        self.input_cursor = 0;
        outgoing
    }
}

} // verus!
