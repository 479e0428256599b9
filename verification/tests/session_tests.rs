use termusic::bridge::PlayerCmd;
use termusic::config::{Key, KeyEvent, KeyMod, Keys, Settings};
use termusic::input::{LibAction, NavCmd, PlAction, lib_action_msg, music_library_on, pl_action_msg,
    playlist_on};
use termusic::library::FsNode;
use termusic::messages::{GSMsg, LIMsg, Msg, PLMsg};
use termusic::model::{Effect, FORCED_REDRAW_INTERVAL_MS, Model, UI};
use termusic::tables::AddPlan;
use termusic::track::Track;

fn empty_snapshot() -> FsNode {
    FsNode {
        path: String::from("/music"),
        name: String::from("music"),
        is_dir: true,
        children: Vec::new(),
    }
}

fn model() -> Model {
    Model::new(Settings::standard(), empty_snapshot())
}

fn plain(c: char) -> KeyEvent {
    KeyEvent { code: Key::Char(c), modifiers: KeyMod::Plain }
}

fn track(name: &str, artist: &str, secs: u64) -> Track {
    Track::new(
        Some(String::from(artist)),
        Some(String::from("album")),
        Some(String::from(name)),
        Some(format!("/music/{}.mp3", name)),
        Some(format!("{}.mp3", name)),
        secs,
    )
}

#[test]
fn forced_redraw_fires_after_the_interval_even_when_idle() {
    let mut ui = UI::new(Settings::standard(), empty_snapshot());
    ui.mark_redrawn(1000);
    ui.check_force_redraw(1000 + FORCED_REDRAW_INTERVAL_MS - 1);
    assert!(!ui.model.redraw);
    ui.check_force_redraw(1000 + FORCED_REDRAW_INTERVAL_MS);
    assert!(ui.model.redraw);
    // the title is derived fresh on every paint, so the redraw carries
    // the current elapsed-time-derived fields
    ui.model.playlist.add(track("a", "x", 61), false);
    let (_, title) = ui.model.playlist_sync();
    assert!(title.contains("Total 1 tracks"));
    assert!(title.contains("01:01"));
}

#[test]
fn progress_polling_is_throttled_to_every_nth_tick() {
    let mut ui = UI::new(Settings::standard(), empty_snapshot());
    assert!(ui.tick_progress());
    for _ in 0..79 {
        assert!(!ui.tick_progress());
    }
    assert!(ui.tick_progress());
}

#[test]
fn library_keys_reduce_to_the_documented_actions() {
    let keys = Keys::standard();
    let (cmds, action) = music_library_on(&keys, plain('y'), false, false);
    assert!(cmds.is_empty());
    assert_eq!(action, LibAction::Yank);
    let msg = lib_action_msg(action, "/music/a.mp3");
    assert_eq!(msg, Msg::Library(LIMsg::Yank));

    // right on a file adds it; on a directory it opens the node
    let (cmds, action) = music_library_on(&keys, plain('l'), false, false);
    assert!(cmds.is_empty());
    assert_eq!(action, LibAction::AddCurrent);
    assert_eq!(
        lib_action_msg(action, "/music/a.mp3"),
        Msg::Playlist(PLMsg::Add(String::from("/music/a.mp3")))
    );
    let (cmds, action) = music_library_on(&keys, plain('l'), true, false);
    assert_eq!(cmds, vec![NavCmd::Open]);
    assert_eq!(action, LibAction::Idle);

    // left on an open directory closes it; on a file it climbs out
    let (cmds, _) = music_library_on(&keys, plain('h'), true, false);
    assert_eq!(cmds, vec![NavCmd::Close]);
    let (cmds, _) = music_library_on(&keys, plain('h'), false, false);
    assert_eq!(cmds, vec![NavCmd::GotoTop, NavCmd::MoveUp]);
}

#[test]
fn playlist_keys_reduce_to_the_documented_actions() {
    let keys = Keys::standard();
    let (cmds, action) = playlist_on(&keys, plain('d'), Some(3));
    assert!(cmds.is_empty());
    assert_eq!(action, PlAction::Delete(3));
    assert_eq!(pl_action_msg(action), Msg::Playlist(PLMsg::Delete(3)));

    let (_, action) = playlist_on(&keys, plain('d'), None);
    assert_eq!(action, PlAction::Idle);
    assert_eq!(pl_action_msg(action), Msg::Noop);

    let (cmds, action) = playlist_on(&keys, shifted_j(), Some(1));
    assert_eq!(cmds, vec![NavCmd::MoveDown]);
    assert_eq!(action, PlAction::SwapDown(1));

    let (_, action) = playlist_on(&keys, plain('/'), Some(0));
    assert_eq!(action, PlAction::SearchPopup);
    assert_eq!(pl_action_msg(action), Msg::GeneralSearch(GSMsg::PopupShowPlaylist));
}

fn shifted_j() -> KeyEvent {
    KeyEvent { code: Key::Char('J'), modifiers: KeyMod::Shift }
}

#[test]
fn update_reduces_playlist_messages_against_the_state() {
    let mut m = model();
    m.playlist.add(track("a", "x", 5), false);
    m.playlist.add(track("b", "y", 6), false);

    let (follow, effect) = m.update(Msg::Playlist(PLMsg::Delete(0)));
    assert!(follow.is_none() && effect.is_none());
    assert_eq!(m.playlist.len(), 1);

    let (_, effect) = m.update(Msg::Playlist(PLMsg::Add(String::from("/p.mp3"))));
    assert_eq!(effect, Some(Effect::AddPath(String::from("/p.mp3"))));

    let (_, effect) = m.update(Msg::Playlist(PLMsg::NextSong));
    assert_eq!(effect, Some(Effect::Player(PlayerCmd::Skip)));

    let (_, effect) = m.update(Msg::QuitPopupCloseOk);
    assert!(effect.is_none());
    assert!(m.quit);

    // a view-layer message leaves the state alone and is handed back
    let before = m.playlist.len();
    let (_, effect) = m.update(Msg::HelpPopupShow);
    assert_eq!(effect, Some(Effect::View(Msg::HelpPopupShow)));
    assert_eq!(m.playlist.len(), before);
}

#[test]
fn add_front_toggle_changes_where_items_land() {
    let mut m = model();
    m.update(Msg::Playlist(PLMsg::AddFront));
    assert!(m.config.add_playlist_front);
    m.playlist_add_item(track("a", "x", 5));
    m.playlist_add_item(track("b", "y", 6));
    let titles: Vec<String> =
        m.playlist.tracks.iter().map(|t| t.title.clone().unwrap()).collect();
    assert_eq!(titles, vec!["b", "a"]);
}

#[test]
fn update_chain_is_bounded_and_collects_effects() {
    let mut m = model();
    let effects = m.update_chain(Msg::Playlist(PLMsg::PrevSong));
    assert_eq!(effects, vec![Effect::Player(PlayerCmd::Previous)]);
    let effects = m.update_chain(Msg::Noop);
    assert!(effects.is_empty());
}

#[test]
fn playlist_add_plans_each_kind_of_path() {
    let m = model();
    assert_eq!(m.playlist_add("/gone.mp3", false, false), AddPlan::Ignore);
    assert_eq!(m.playlist_add("/music/d", true, true), AddPlan::ExpandDir);
    assert_eq!(m.playlist_add("/music/list.m3u", true, false), AddPlan::ParsePlaylist);
    assert_eq!(m.playlist_add("/music/list.M3U8", true, false), AddPlan::ParsePlaylist);
    assert_eq!(m.playlist_add("/music/a.MP3", true, false), AddPlan::ReadTrack);
    assert_eq!(m.playlist_add("/music/a.txt", true, false), AddPlan::Ignore);
}

#[test]
fn stepping_into_and_out_tracks_the_music_dir() {
    let mut m = model();
    let sub = FsNode {
        path: String::from("/music/rock"),
        name: String::from("rock"),
        is_dir: true,
        children: Vec::new(),
    };
    m.library_stepinto(sub);
    assert_eq!(m.config.music_dir, "/music/rock");
    assert_eq!(m.library_upper_dir().unwrap(), "/music");
    let parent = empty_snapshot();
    m.library_stepout(parent);
    assert_eq!(m.config.music_dir, "/music");
    assert_eq!(m.path, "/music");
}

#[test]
fn yank_and_paste_compute_the_rename_target() {
    let mut m = model();
    assert!(m.library_paste_target("/music/d", true).is_none());
    m.library_yank(String::from("/music/a.mp3"));
    let (src, dst) = m.library_paste_target("/music/d", true).unwrap();
    assert_eq!(src, "/music/a.mp3");
    assert_eq!(dst, "/music/d/a.mp3");
    let (_, dst) = m.library_paste_target("/music/sub/b.mp3", false).unwrap();
    assert_eq!(dst, "/music/sub/a.mp3");
    m.library_paste_done();
    assert!(m.library_paste_target("/music/d", true).is_none());
}
