use termusic::bridge::{EventQueue, MediaEvent, PlayerCmd, Status};
use termusic::config::Settings;
use termusic::library::FsNode;
use termusic::model::Model;
use termusic::playlist::{Loop, Playlist};
use termusic::track::Track;

fn track(name: &str) -> Track {
    Track::new(
        Some(format!("artist of {}", name)),
        Some(String::from("album")),
        Some(String::from(name)),
        Some(format!("/music/{}.mp3", name)),
        Some(format!("{}.mp3", name)),
        61,
    )
}

fn titles(p: &Playlist) -> Vec<String> {
    p.tracks.iter().map(|t| t.title.clone().unwrap()).collect()
}

fn empty_snapshot() -> FsNode {
    FsNode {
        path: String::from("/music"),
        name: String::from("music"),
        is_dir: true,
        children: Vec::new(),
    }
}

fn model() -> Model {
    Model::new(Settings::standard(), empty_snapshot())
}

#[test]
fn add_front_twice_stacks_in_reverse_arrival_order() {
    let mut p = Playlist::new();
    p.add(track("base"), false);
    p.add(track("A"), true);
    p.add(track("B"), true);
    assert_eq!(titles(&p), vec!["B", "A", "base"]);
}

#[test]
fn add_back_twice_appends_in_arrival_order() {
    let mut p = Playlist::new();
    p.add(track("base"), false);
    p.add(track("A"), false);
    p.add(track("B"), false);
    assert_eq!(titles(&p), vec!["base", "A", "B"]);
}

#[test]
fn loop_mode_cycle_is_a_three_cycle() {
    let mut m = model();
    assert_eq!(m.config.loop_mode, Loop::Queue);
    let first = m.playlist_cycle_loop_mode();
    assert_eq!(first, Loop::Playlist);
    let second = m.playlist_cycle_loop_mode();
    assert_eq!(second, Loop::Single);
    let third = m.playlist_cycle_loop_mode();
    assert_eq!(third, Loop::Queue);
    assert_eq!(m.config.loop_mode, Loop::Queue);
}

#[test]
fn cycle_into_single_pre_stages_back_track_and_leaving_undoes_it() {
    let mut m = model();
    m.playlist.add(track("one"), false);
    m.playlist.add(track("two"), false);
    m.playlist.add(track("three"), false);
    m.playlist_cycle_loop_mode(); // Queue -> Playlist: untouched
    assert_eq!(titles(&m.playlist), vec!["one", "two", "three"]);
    m.playlist_cycle_loop_mode(); // Playlist -> Single: back to front
    assert_eq!(titles(&m.playlist), vec!["three", "one", "two"]);
    m.playlist_cycle_loop_mode(); // Single -> Queue: front to back
    assert_eq!(titles(&m.playlist), vec!["one", "two", "three"]);
}

#[test]
fn prune_keeps_flagged_tracks_in_original_relative_order() {
    let mut m = model();
    m.playlist.add(track("one"), false);
    m.playlist.add(track("two"), false);
    m.playlist.add(track("three"), false);
    // track 2's backing file was deleted externally
    m.playlist_update_library_delete(&vec![true, false, true]);
    assert_eq!(titles(&m.playlist), vec!["one", "three"]);
}

#[test]
fn shuffle_keeps_every_track() {
    let mut p = Playlist::new();
    for name in ["a", "b", "c", "d", "e"] {
        p.add(track(name), false);
    }
    p.shuffle();
    let mut got = titles(&p);
    got.sort();
    assert_eq!(got, vec!["a", "b", "c", "d", "e"]);
}

#[test]
fn swap_down_and_up_exchange_neighbours() {
    let mut p = Playlist::new();
    p.add(track("a"), false);
    p.add(track("b"), false);
    p.add(track("c"), false);
    p.swap_down(0);
    assert_eq!(titles(&p), vec!["b", "a", "c"]);
    p.swap_up(2);
    assert_eq!(titles(&p), vec!["b", "c", "a"]);
    // out-of-range swaps are no-ops
    p.swap_down(2);
    p.swap_up(0);
    assert_eq!(titles(&p), vec!["b", "c", "a"]);
}

#[test]
fn play_selected_moves_the_track_to_the_front() {
    let mut m = model();
    m.playlist.add(track("a"), false);
    m.playlist.add(track("b"), false);
    m.playlist.add(track("c"), false);
    assert!(m.playlist_play_selected(2));
    assert_eq!(titles(&m.playlist), vec!["c", "a", "b"]);
    assert!(!m.playlist_play_selected(9));
    assert_eq!(titles(&m.playlist), vec!["c", "a", "b"]);
}

#[test]
fn delete_item_and_empty() {
    let mut m = model();
    m.playlist.add(track("a"), false);
    m.playlist.add(track("b"), false);
    m.playlist_delete_item(0);
    assert_eq!(titles(&m.playlist), vec!["b"]);
    m.playlist_delete_item(5);
    assert_eq!(titles(&m.playlist), vec!["b"]);
    m.playlist_empty();
    assert_eq!(m.playlist.len(), 0);
}

#[test]
fn add_all_from_db_keeps_row_order_at_the_back() {
    let mut m = model();
    let rows = vec![
        termusic::track::TrackForDB {
            file: String::from("/music/x.mp3"),
            artist: String::from("xa"),
            title: String::from("xt"),
            album: String::from("xl"),
            duration_secs: 10,
        },
        termusic::track::TrackForDB {
            file: String::from("/music/y.mp3"),
            artist: String::from("ya"),
            title: String::from("yt"),
            album: String::from("yl"),
            duration_secs: 20,
        },
    ];
    m.playlist_add_all_from_db(&rows);
    assert_eq!(titles(&m.playlist), vec!["xt", "yt"]);
    assert_eq!(m.playlist.total_duration_secs(), 30);
}

#[test]
fn media_channel_overflow_drops_without_blocking_or_corruption() {
    let mut q = EventQueue::new(2);
    assert!(q.try_push(MediaEvent::Play));
    assert!(q.try_push(MediaEvent::Pause));
    // the queue is full: the push returns at once and reports the drop
    assert!(!q.try_push(MediaEvent::Play));
    assert_eq!(q.len(), 2);

    // idempotent re-application: a dropped Play is healed by the next
    // delivered Play
    let mut m = model();
    let mut q2 = EventQueue::new(8);
    q2.try_push(MediaEvent::Play);
    q2.try_push(MediaEvent::Play);
    let first = m.update_mpris(&mut q2);
    assert_eq!(first, Some(PlayerCmd::Resume));
    let status_once = m.status;
    let second = m.update_mpris(&mut q2);
    assert_eq!(second, Some(PlayerCmd::Resume));
    assert_eq!(m.status, status_once);
    assert_eq!(m.status, Status::Running);
    // nothing queued: the drain returns at once with nothing
    assert_eq!(m.update_mpris(&mut q2), None);
}

#[test]
fn toggle_event_flips_between_running_and_paused() {
    let mut m = model();
    m.status = Status::Running;
    let cmd = m.mpris_handler(MediaEvent::Toggle);
    assert_eq!(cmd, PlayerCmd::Pause);
    assert_eq!(m.status, Status::Paused);
    let cmd = m.mpris_handler(MediaEvent::Toggle);
    assert_eq!(cmd, PlayerCmd::Resume);
    assert_eq!(m.status, Status::Running);
}

#[test]
fn open_uri_event_asks_for_add_and_play() {
    let mut m = model();
    let cmd = m.mpris_handler(MediaEvent::OpenUri(String::from("/music/u.mp3")));
    assert_eq!(cmd, PlayerCmd::AddAndPlay(String::from("/music/u.mp3")));
    assert_eq!(m.status, Status::Running);
}
