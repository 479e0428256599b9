//! Persisted configuration as the session sees it: the music directory,
//! the loop mode, display options, the colour palette names and the
//! configurable key bindings. Loading and saving the file lives outside;
//! this is the plain state those routines fill.
use vstd::prelude::*;
use crate::playlist::Loop;

verus! {

/// A colour slot of the theme, by name.
#[derive(Clone, Copy, Debug, PartialEq, Eq, Structural)]
pub enum ColorTermusic {
    Reset,
    Foreground,
    Background,
    Black,
    Red,
    Green,
    Yellow,
    Blue,
    Magenta,
    Cyan,
    White,
    LightBlack,
    LightRed,
    LightGreen,
    LightYellow,
    LightBlue,
    LightMagenta,
    LightCyan,
    LightWhite,
}

/// A key, as the input layer reports it.
#[derive(Clone, Copy, Debug, PartialEq, Eq, Structural)]
pub enum Key {
    Char(char),
    Left,
    Right,
    Up,
    Down,
    PageUp,
    PageDown,
    Home,
    End,
    Enter,
    Backspace,
    Tab,
    Delete,
    Esc,
}

/// Modifier held with a key.
#[derive(Clone, Copy, Debug, PartialEq, Eq, Structural)]
pub enum KeyMod {
    Plain,
    Shift,
    Control,
    Alt,
}

/// One keyboard event.
#[derive(Clone, Copy, Debug, PartialEq, Eq, Structural)]
pub struct KeyEvent {
    pub code: Key,
    pub modifiers: KeyMod,
}

/// The configurable bindings the session dispatches on.
#[derive(Clone, Copy, Debug, PartialEq, Eq, Structural)]
pub struct Keys {
    pub global_left: KeyEvent,
    pub global_right: KeyEvent,
    pub global_up: KeyEvent,
    pub global_down: KeyEvent,
    pub global_goto_top: KeyEvent,
    pub global_goto_bottom: KeyEvent,
    pub library_load_dir: KeyEvent,
    pub library_delete: KeyEvent,
    pub library_yank: KeyEvent,
    pub library_paste: KeyEvent,
    pub library_search: KeyEvent,
    pub library_search_youtube: KeyEvent,
    pub library_tag_editor_open: KeyEvent,
    pub playlist_delete: KeyEvent,
    pub playlist_delete_all: KeyEvent,
    pub playlist_shuffle: KeyEvent,
    pub playlist_mode_cycle: KeyEvent,
    pub playlist_play_selected: KeyEvent,
    pub playlist_add_front: KeyEvent,
    pub playlist_search: KeyEvent,
    pub playlist_swap_down: KeyEvent,
    pub playlist_swap_up: KeyEvent,
}

pub open spec fn spec_plain(c: char) -> KeyEvent {
    KeyEvent { code: Key::Char(c), modifiers: KeyMod::Plain }
}

pub open spec fn spec_shifted(c: char) -> KeyEvent {
    KeyEvent { code: Key::Char(c), modifiers: KeyMod::Shift }
}

fn plain(c: char) -> (r: KeyEvent)
    ensures
        r == spec_plain(c),
{
    KeyEvent { code: Key::Char(c), modifiers: KeyMod::Plain }
}

fn shifted(c: char) -> (r: KeyEvent)
    ensures
        r == spec_shifted(c),
{
    KeyEvent { code: Key::Char(c), modifiers: KeyMod::Shift }
}

/// The stock vi-style bindings used until the configuration overrides
/// them.
pub open spec fn spec_standard_keys() -> Keys {
    Keys {
        global_left: spec_plain('h'),
        global_right: spec_plain('l'),
        global_up: spec_plain('k'),
        global_down: spec_plain('j'),
        global_goto_top: spec_plain('g'),
        global_goto_bottom: spec_shifted('G'),
        library_load_dir: spec_shifted('L'),
        library_delete: spec_plain('d'),
        library_yank: spec_plain('y'),
        library_paste: spec_plain('p'),
        library_search: spec_plain('/'),
        library_search_youtube: spec_plain('s'),
        library_tag_editor_open: spec_plain('t'),
        playlist_delete: spec_plain('d'),
        playlist_delete_all: spec_shifted('D'),
        playlist_shuffle: spec_plain('r'),
        playlist_mode_cycle: spec_plain('m'),
        playlist_play_selected: spec_plain('l'),
        playlist_add_front: spec_plain('a'),
        playlist_search: spec_plain('/'),
        playlist_swap_down: spec_shifted('J'),
        playlist_swap_up: spec_shifted('K'),
    }
}

impl Keys {
    /// The stock bindings, as a value.
    pub fn standard() -> (r: Keys)
        ensures
            r == spec_standard_keys(),
    {
        Keys {
            global_left: plain('h'),
            global_right: plain('l'),
            global_up: plain('k'),
            global_down: plain('j'),
            global_goto_top: plain('g'),
            global_goto_bottom: shifted('G'),
            library_load_dir: shifted('L'),
            library_delete: plain('d'),
            library_yank: plain('y'),
            library_paste: plain('p'),
            library_search: plain('/'),
            library_search_youtube: plain('s'),
            library_tag_editor_open: plain('t'),
            playlist_delete: plain('d'),
            playlist_delete_all: shifted('D'),
            playlist_shuffle: plain('r'),
            playlist_mode_cycle: plain('m'),
            playlist_play_selected: plain('l'),
            playlist_add_front: plain('a'),
            playlist_search: plain('/'),
            playlist_swap_down: shifted('J'),
            playlist_swap_up: shifted('K'),
        }
    }
}

/// Persisted settings, loaded at startup and written at shutdown.
pub struct Settings {
    pub music_dir: String,
    pub music_dir_from_cli: Option<String>,
    pub loop_mode: Loop,
    pub add_playlist_front: bool,
    pub playlist_display_symbol: bool,
    pub keys: Keys,
}

impl Settings {
    /// The defaults used when no configuration file is readable.
    pub fn standard() -> (r: Settings)
        ensures
            r.music_dir@ =~= "~/Music"@,
            r.music_dir_from_cli is None,
            r.loop_mode == Loop::Queue,
            r.add_playlist_front == false,
            r.playlist_display_symbol == true,
            r.keys == spec_standard_keys(),
    {
        proof {
            reveal_strlit("~/Music");
        }
        Settings {
            music_dir: String::from_str("~/Music"),
            music_dir_from_cli: None,
            loop_mode: Loop::Queue,
            add_playlist_front: false,
            playlist_display_symbol: true,
            keys: Keys::standard(),
        }
    }
}

} // verus!
