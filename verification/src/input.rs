//! Key dispatch for the two main panes: each keyboard event reduces to
//! navigation commands for the focused widget plus one action symbol.
//! Turning an action into a message is a separate step, so the dispatch
//! tables stay free of payloads and are stated exactly.
use vstd::prelude::*;
use crate::config::{Key, KeyEvent, KeyMod, Keys};
use crate::messages::{GSMsg, LIMsg, Msg, PLMsg, TEMsg, YSMsg};

verus! {

/// A navigation command for the focused widget.
#[derive(Clone, Copy, Debug, PartialEq, Eq, Structural)]
pub enum NavCmd {
    MoveUp,
    MoveDown,
    ScrollUp,
    ScrollDown,
    GotoTop,
    GotoBottom,
    Open,
    Close,
    Submit,
}

/// What a key asks of the library pane, beyond widget navigation.
#[derive(Clone, Copy, Debug, PartialEq, Eq, Structural)]
pub enum LibAction {
    /// Add the selected node to the playlist.
    AddCurrent,
    /// Step into the selected directory.
    ExtendCurrent,
    GoUpperDir,
    Blur,
    DeleteConfirm,
    Yank,
    Paste,
    SearchPopup,
    YoutubeSearchPopup,
    /// Open the tag editor on the selected node.
    TagEditorCurrent,
    Idle,
}

/// What a key asks of the playlist pane.
#[derive(Clone, Copy, Debug, PartialEq, Eq, Structural)]
pub enum PlAction {
    Delete(usize),
    DeleteAll,
    Shuffle,
    ModeCycle,
    PlaySelected(usize),
    AddFront,
    SearchPopup,
    Blur,
    SwapDown(usize),
    SwapUp(usize),
    Idle,
}

pub open spec fn spec_key_plain(code: Key) -> KeyEvent {
    KeyEvent { code, modifiers: KeyMod::Plain }
}

/// What a left-arrow press does on the library pane: on a file, or on a
/// closed directory, the cursor moves to the parent; an open directory
/// is closed.
pub open spec fn spec_left_key_cmds(sel_is_dir: bool, sel_is_closed: bool) -> Seq<NavCmd> {
    if !sel_is_dir {
        seq![NavCmd::GotoTop, NavCmd::MoveUp]
    } else if sel_is_closed {
        seq![NavCmd::GotoTop, NavCmd::MoveUp]
    } else {
        seq![NavCmd::Close]
    }
}

/// The library pane's dispatch table, in binding order: configured
/// bindings are tried in the order the pane checks them, then the fixed
/// fallback keys.
pub open spec fn spec_music_library_on(
    keys: Keys,
    ev: KeyEvent,
    sel_is_dir: bool,
    sel_is_closed: bool,
) -> (Seq<NavCmd>, LibAction) {
    if ev == keys.global_left {
        (spec_left_key_cmds(sel_is_dir, sel_is_closed), LibAction::Idle)
    } else if ev == spec_key_plain(Key::Left) {
        (spec_left_key_cmds(sel_is_dir, sel_is_closed), LibAction::Idle)
    } else if ev == spec_key_plain(Key::Right) {
        if sel_is_dir {
            (seq![NavCmd::Open], LibAction::Idle)
        } else {
            (Seq::<NavCmd>::empty(), LibAction::AddCurrent)
        }
    } else if ev == keys.global_right {
        if sel_is_dir {
            (seq![NavCmd::Open], LibAction::Idle)
        } else {
            (Seq::<NavCmd>::empty(), LibAction::AddCurrent)
        }
    } else if ev == keys.global_down {
        (seq![NavCmd::MoveDown], LibAction::Idle)
    } else if ev == keys.global_up {
        (seq![NavCmd::MoveUp], LibAction::Idle)
    } else if ev == spec_key_plain(Key::Down) {
        (seq![NavCmd::MoveDown], LibAction::Idle)
    } else if ev == spec_key_plain(Key::Up) {
        (seq![NavCmd::MoveUp], LibAction::Idle)
    } else if ev == keys.library_load_dir {
        if sel_is_dir {
            (Seq::<NavCmd>::empty(), LibAction::AddCurrent)
        } else {
            (Seq::<NavCmd>::empty(), LibAction::Idle)
        }
    } else if ev == spec_key_plain(Key::PageDown) {
        (seq![NavCmd::ScrollDown], LibAction::Idle)
    } else if ev == spec_key_plain(Key::PageUp) {
        (seq![NavCmd::ScrollUp], LibAction::Idle)
    } else if ev == keys.global_goto_top {
        (seq![NavCmd::GotoTop], LibAction::Idle)
    } else if ev == keys.global_goto_bottom {
        (seq![NavCmd::GotoBottom], LibAction::Idle)
    } else if ev == spec_key_plain(Key::Enter) {
        (seq![NavCmd::Submit], LibAction::ExtendCurrent)
    } else if ev == spec_key_plain(Key::Backspace) {
        (Seq::<NavCmd>::empty(), LibAction::GoUpperDir)
    } else if ev == spec_key_plain(Key::Tab) {
        (Seq::<NavCmd>::empty(), LibAction::Blur)
    } else if ev == keys.library_delete {
        (Seq::<NavCmd>::empty(), LibAction::DeleteConfirm)
    } else if ev == keys.library_yank {
        (Seq::<NavCmd>::empty(), LibAction::Yank)
    } else if ev == keys.library_paste {
        (Seq::<NavCmd>::empty(), LibAction::Paste)
    } else if ev == keys.library_search {
        (Seq::<NavCmd>::empty(), LibAction::SearchPopup)
    } else if ev == keys.library_search_youtube {
        (Seq::<NavCmd>::empty(), LibAction::YoutubeSearchPopup)
    } else if ev == keys.library_tag_editor_open {
        (Seq::<NavCmd>::empty(), LibAction::TagEditorCurrent)
    } else {
        (Seq::<NavCmd>::empty(), LibAction::Idle)
    }
}

/// Reduces one keyboard event against the library pane. `sel_is_dir`
/// and `sel_is_closed` describe the node under the cursor.
pub fn music_library_on(keys: &Keys, ev: KeyEvent, sel_is_dir: bool, sel_is_closed: bool) -> (r:
    (Vec<NavCmd>, LibAction))
    ensures
        r.0@ == spec_music_library_on(*keys, ev, sel_is_dir, sel_is_closed).0,
        r.1 == spec_music_library_on(*keys, ev, sel_is_dir, sel_is_closed).1,
{
    let left_cmds = |dir: bool, closed: bool| -> (c: Vec<NavCmd>)
        ensures
            c@ == spec_left_key_cmds(dir, closed),
        {
            let mut v: Vec<NavCmd> = Vec::new();
            if !dir || closed {
                v.push(NavCmd::GotoTop);
                v.push(NavCmd::MoveUp);
                assert(v@ =~= seq![NavCmd::GotoTop, NavCmd::MoveUp]);
            } else {
                v.push(NavCmd::Close);
                assert(v@ =~= seq![NavCmd::Close]);
            }
            v
        };
    let one = |c: NavCmd| -> (v: Vec<NavCmd>)
        ensures
            v@ =~= seq![c],
        {
            let mut v: Vec<NavCmd> = Vec::new();
            v.push(c);
            v
        };
    if ev == keys.global_left {
        (left_cmds(sel_is_dir, sel_is_closed), LibAction::Idle)
    } else if ev == (KeyEvent { code: Key::Left, modifiers: KeyMod::Plain }) {
        (left_cmds(sel_is_dir, sel_is_closed), LibAction::Idle)
    } else if ev == (KeyEvent { code: Key::Right, modifiers: KeyMod::Plain }) {
        if sel_is_dir {
            (one(NavCmd::Open), LibAction::Idle)
        } else {
            (Vec::new(), LibAction::AddCurrent)
        }
    } else if ev == keys.global_right {
        if sel_is_dir {
            (one(NavCmd::Open), LibAction::Idle)
        } else {
            (Vec::new(), LibAction::AddCurrent)
        }
    } else if ev == keys.global_down {
        (one(NavCmd::MoveDown), LibAction::Idle)
    } else if ev == keys.global_up {
        (one(NavCmd::MoveUp), LibAction::Idle)
    } else if ev == (KeyEvent { code: Key::Down, modifiers: KeyMod::Plain }) {
        (one(NavCmd::MoveDown), LibAction::Idle)
    } else if ev == (KeyEvent { code: Key::Up, modifiers: KeyMod::Plain }) {
        (one(NavCmd::MoveUp), LibAction::Idle)
    } else if ev == keys.library_load_dir {
        if sel_is_dir {
            (Vec::new(), LibAction::AddCurrent)
        } else {
            (Vec::new(), LibAction::Idle)
        }
    } else if ev == (KeyEvent { code: Key::PageDown, modifiers: KeyMod::Plain }) {
        (one(NavCmd::ScrollDown), LibAction::Idle)
    } else if ev == (KeyEvent { code: Key::PageUp, modifiers: KeyMod::Plain }) {
        (one(NavCmd::ScrollUp), LibAction::Idle)
    } else if ev == keys.global_goto_top {
        (one(NavCmd::GotoTop), LibAction::Idle)
    } else if ev == keys.global_goto_bottom {
        (one(NavCmd::GotoBottom), LibAction::Idle)
    } else if ev == (KeyEvent { code: Key::Enter, modifiers: KeyMod::Plain }) {
        (one(NavCmd::Submit), LibAction::ExtendCurrent)
    } else if ev == (KeyEvent { code: Key::Backspace, modifiers: KeyMod::Plain }) {
        (Vec::new(), LibAction::GoUpperDir)
    } else if ev == (KeyEvent { code: Key::Tab, modifiers: KeyMod::Plain }) {
        (Vec::new(), LibAction::Blur)
    } else if ev == keys.library_delete {
        (Vec::new(), LibAction::DeleteConfirm)
    } else if ev == keys.library_yank {
        (Vec::new(), LibAction::Yank)
    } else if ev == keys.library_paste {
        (Vec::new(), LibAction::Paste)
    } else if ev == keys.library_search {
        (Vec::new(), LibAction::SearchPopup)
    } else if ev == keys.library_search_youtube {
        (Vec::new(), LibAction::YoutubeSearchPopup)
    } else if ev == keys.library_tag_editor_open {
        (Vec::new(), LibAction::TagEditorCurrent)
    } else {
        (Vec::new(), LibAction::Idle)
    }
}

/// The message a library action stands for, given the selected node.
pub fn lib_action_msg(action: LibAction, current_node: &str) -> (r: Msg)
    ensures
        action == LibAction::AddCurrent ==> (r matches Msg::Playlist(PLMsg::Add(s)) && s@
            == current_node@),
        action == LibAction::ExtendCurrent ==> (r matches Msg::Library(LIMsg::TreeExtendDir(s))
            && s@ == current_node@),
        action == LibAction::GoUpperDir ==> r == Msg::Library(LIMsg::TreeGoToUpperDir),
        action == LibAction::Blur ==> r == Msg::Library(LIMsg::TreeBlur),
        action == LibAction::DeleteConfirm ==> r == Msg::DeleteConfirmShow,
        action == LibAction::Yank ==> r == Msg::Library(LIMsg::Yank),
        action == LibAction::Paste ==> r == Msg::Library(LIMsg::Paste),
        action == LibAction::SearchPopup ==> r == Msg::GeneralSearch(GSMsg::PopupShowLibrary),
        action == LibAction::YoutubeSearchPopup ==> r == Msg::YoutubeSearch(
            YSMsg::InputPopupShow,
        ),
        action == LibAction::TagEditorCurrent ==> (r matches Msg::TagEditor(TEMsg::TagEditorRun(
            s,
        )) && s@ == current_node@),
        action == LibAction::Idle ==> r == Msg::Noop,
{
    match action {
        LibAction::AddCurrent => Msg::Playlist(PLMsg::Add(current_node.to_owned())),
        LibAction::ExtendCurrent => Msg::Library(LIMsg::TreeExtendDir(current_node.to_owned())),
        LibAction::GoUpperDir => Msg::Library(LIMsg::TreeGoToUpperDir),
        LibAction::Blur => Msg::Library(LIMsg::TreeBlur),
        LibAction::DeleteConfirm => Msg::DeleteConfirmShow,
        LibAction::Yank => Msg::Library(LIMsg::Yank),
        LibAction::Paste => Msg::Library(LIMsg::Paste),
        LibAction::SearchPopup => Msg::GeneralSearch(GSMsg::PopupShowLibrary),
        LibAction::YoutubeSearchPopup => Msg::YoutubeSearch(YSMsg::InputPopupShow),
        LibAction::TagEditorCurrent => Msg::TagEditor(TEMsg::TagEditorRun(
            current_node.to_owned(),
        )),
        LibAction::Idle => Msg::Noop,
    }
}

/// The playlist pane's dispatch table, in binding order. `selected` is
/// the row under the cursor, when the widget reports one.
pub open spec fn spec_playlist_on(keys: Keys, ev: KeyEvent, selected: Option<usize>) -> (
    Seq<NavCmd>,
    PlAction,
) {
    if ev.code == Key::Down {
        (seq![NavCmd::MoveDown], PlAction::Idle)
    } else if ev.code == Key::Up {
        (seq![NavCmd::MoveUp], PlAction::Idle)
    } else if ev == keys.global_down {
        (seq![NavCmd::MoveDown], PlAction::Idle)
    } else if ev == keys.global_up {
        (seq![NavCmd::MoveUp], PlAction::Idle)
    } else if ev.code == Key::PageDown {
        (seq![NavCmd::ScrollDown], PlAction::Idle)
    } else if ev.code == Key::PageUp {
        (seq![NavCmd::ScrollUp], PlAction::Idle)
    } else if ev == keys.global_goto_top {
        (seq![NavCmd::GotoTop], PlAction::Idle)
    } else if ev == keys.global_goto_bottom {
        (seq![NavCmd::GotoBottom], PlAction::Idle)
    } else if ev.code == Key::Home {
        (seq![NavCmd::GotoTop], PlAction::Idle)
    } else if ev.code == Key::End {
        (seq![NavCmd::GotoBottom], PlAction::Idle)
    } else if ev.code == Key::Tab {
        (Seq::<NavCmd>::empty(), PlAction::Blur)
    } else if ev == keys.playlist_delete {
        match selected {
            Some(i) => (Seq::<NavCmd>::empty(), PlAction::Delete(i)),
            None => (Seq::<NavCmd>::empty(), PlAction::Idle),
        }
    } else if ev == keys.playlist_delete_all {
        (Seq::<NavCmd>::empty(), PlAction::DeleteAll)
    } else if ev == keys.playlist_shuffle {
        (Seq::<NavCmd>::empty(), PlAction::Shuffle)
    } else if ev == keys.playlist_mode_cycle {
        (Seq::<NavCmd>::empty(), PlAction::ModeCycle)
    } else if ev == keys.playlist_play_selected {
        match selected {
            Some(i) => (Seq::<NavCmd>::empty(), PlAction::PlaySelected(i)),
            None => (Seq::<NavCmd>::empty(), PlAction::Idle),
        }
    } else if ev == keys.playlist_add_front {
        (Seq::<NavCmd>::empty(), PlAction::AddFront)
    } else if ev == keys.playlist_search {
        (Seq::<NavCmd>::empty(), PlAction::SearchPopup)
    } else if ev == keys.playlist_swap_down {
        match selected {
            Some(i) => (seq![NavCmd::MoveDown], PlAction::SwapDown(i)),
            None => (Seq::<NavCmd>::empty(), PlAction::Idle),
        }
    } else if ev == keys.playlist_swap_up {
        match selected {
            Some(i) => (seq![NavCmd::MoveUp], PlAction::SwapUp(i)),
            None => (Seq::<NavCmd>::empty(), PlAction::Idle),
        }
    } else {
        (Seq::<NavCmd>::empty(), PlAction::Idle)
    }
}

/// Reduces one keyboard event against the playlist pane.
pub fn playlist_on(keys: &Keys, ev: KeyEvent, selected: Option<usize>) -> (r: (
    Vec<NavCmd>,
    PlAction,
))
    ensures
        r.0@ == spec_playlist_on(*keys, ev, selected).0,
        r.1 == spec_playlist_on(*keys, ev, selected).1,
{
    let one = |c: NavCmd| -> (v: Vec<NavCmd>)
        ensures
            v@ =~= seq![c],
        {
            let mut v: Vec<NavCmd> = Vec::new();
            v.push(c);
            v
        };
    if ev.code == Key::Down {
        (one(NavCmd::MoveDown), PlAction::Idle)
    } else if ev.code == Key::Up {
        (one(NavCmd::MoveUp), PlAction::Idle)
    } else if ev == keys.global_down {
        (one(NavCmd::MoveDown), PlAction::Idle)
    } else if ev == keys.global_up {
        (one(NavCmd::MoveUp), PlAction::Idle)
    } else if ev.code == Key::PageDown {
        (one(NavCmd::ScrollDown), PlAction::Idle)
    } else if ev.code == Key::PageUp {
        (one(NavCmd::ScrollUp), PlAction::Idle)
    } else if ev == keys.global_goto_top {
        (one(NavCmd::GotoTop), PlAction::Idle)
    } else if ev == keys.global_goto_bottom {
        (one(NavCmd::GotoBottom), PlAction::Idle)
    } else if ev.code == Key::Home {
        (one(NavCmd::GotoTop), PlAction::Idle)
    } else if ev.code == Key::End {
        (one(NavCmd::GotoBottom), PlAction::Idle)
    } else if ev.code == Key::Tab {
        (Vec::new(), PlAction::Blur)
    } else if ev == keys.playlist_delete {
        match selected {
            Some(i) => (Vec::new(), PlAction::Delete(i)),
            None => (Vec::new(), PlAction::Idle),
        }
    } else if ev == keys.playlist_delete_all {
        (Vec::new(), PlAction::DeleteAll)
    } else if ev == keys.playlist_shuffle {
        (Vec::new(), PlAction::Shuffle)
    } else if ev == keys.playlist_mode_cycle {
        (Vec::new(), PlAction::ModeCycle)
    } else if ev == keys.playlist_play_selected {
        match selected {
            Some(i) => (Vec::new(), PlAction::PlaySelected(i)),
            None => (Vec::new(), PlAction::Idle),
        }
    } else if ev == keys.playlist_add_front {
        (Vec::new(), PlAction::AddFront)
    } else if ev == keys.playlist_search {
        (Vec::new(), PlAction::SearchPopup)
    } else if ev == keys.playlist_swap_down {
        match selected {
            Some(i) => (one(NavCmd::MoveDown), PlAction::SwapDown(i)),
            None => (Vec::new(), PlAction::Idle),
        }
    } else if ev == keys.playlist_swap_up {
        match selected {
            Some(i) => (one(NavCmd::MoveUp), PlAction::SwapUp(i)),
            None => (Vec::new(), PlAction::Idle),
        }
    } else {
        (Vec::new(), PlAction::Idle)
    }
}

/// The message a playlist action stands for.
pub fn pl_action_msg(action: PlAction) -> (r: Msg)
    ensures
        action matches PlAction::Delete(i) ==> r == Msg::Playlist(PLMsg::Delete(i)),
        action == PlAction::DeleteAll ==> r == Msg::Playlist(PLMsg::DeleteAll),
        action == PlAction::Shuffle ==> r == Msg::Playlist(PLMsg::Shuffle),
        action == PlAction::ModeCycle ==> r == Msg::Playlist(PLMsg::LoopModeCycle),
        action matches PlAction::PlaySelected(i) ==> r == Msg::Playlist(PLMsg::PlaySelected(i)),
        action == PlAction::AddFront ==> r == Msg::Playlist(PLMsg::AddFront),
        action == PlAction::SearchPopup ==> r == Msg::GeneralSearch(GSMsg::PopupShowPlaylist),
        action == PlAction::Blur ==> r == Msg::Playlist(PLMsg::TableBlur),
        action matches PlAction::SwapDown(i) ==> r == Msg::Playlist(PLMsg::SwapDown(i)),
        action matches PlAction::SwapUp(i) ==> r == Msg::Playlist(PLMsg::SwapUp(i)),
        action == PlAction::Idle ==> r == Msg::Noop,
{
    match action {
        PlAction::Delete(i) => Msg::Playlist(PLMsg::Delete(i)),
        PlAction::DeleteAll => Msg::Playlist(PLMsg::DeleteAll),
        PlAction::Shuffle => Msg::Playlist(PLMsg::Shuffle),
        PlAction::ModeCycle => Msg::Playlist(PLMsg::LoopModeCycle),
        PlAction::PlaySelected(i) => Msg::Playlist(PLMsg::PlaySelected(i)),
        PlAction::AddFront => Msg::Playlist(PLMsg::AddFront),
        PlAction::SearchPopup => Msg::GeneralSearch(GSMsg::PopupShowPlaylist),
        PlAction::Blur => Msg::Playlist(PLMsg::TableBlur),
        PlAction::SwapDown(i) => Msg::Playlist(PLMsg::SwapDown(i)),
        PlAction::SwapUp(i) => Msg::Playlist(PLMsg::SwapUp(i)),
        PlAction::Idle => Msg::Noop,
    }
}

} // verus!
