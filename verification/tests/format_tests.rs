use termusic::config::Settings;
use termusic::library::FsNode;
use termusic::lyrics::{SongTag, TagKugou, TagNetease, lyric_options};
use termusic::model::Model;
use termusic::playlist_file::{decode_playlist, filetype_supported, is_playlist,
    playlist_entry_path, playlist_file_paths, resolve_entry};
use termusic::search::{search_pattern, track_matches};
use termusic::strings::{path_file_name, path_join, path_parent, u64_to_dec};
use termusic::tables::{bracketed, library_update_search};
use termusic::track::{Track, format_duration};
use termusic::wrappers::{lowercase, url_decode, wild_match};

fn track(name: &str, artist: &str, secs: u64) -> Track {
    Track::new(
        Some(String::from(artist)),
        Some(String::from("album")),
        Some(String::from(name)),
        Some(format!("/music/{}.mp3", name)),
        Some(format!("{}.mp3", name)),
        secs,
    )
}

fn empty_snapshot() -> FsNode {
    FsNode {
        path: String::from("/music"),
        name: String::from("music"),
        is_dir: true,
        children: Vec::new(),
    }
}

#[test]
fn durations_format_as_minutes_and_hours() {
    assert_eq!(format_duration(0), "00:00");
    assert_eq!(format_duration(61), "01:01");
    assert_eq!(format_duration(599), "09:59");
    assert_eq!(format_duration(3661), "1:01:01");
    assert_eq!(format_duration(36_000), "10:00:00");
}

#[test]
fn decimal_rendering_is_exact() {
    assert_eq!(u64_to_dec(0), "0");
    assert_eq!(u64_to_dec(7), "7");
    assert_eq!(u64_to_dec(1234), "1234");
    assert_eq!(u64_to_dec(u64::MAX), "18446744073709551615");
}

#[test]
fn bracketed_cells_are_centred_and_clipped() {
    assert_eq!(bracketed("01:01", 7), "[ 01:01 ]");
    assert_eq!(bracketed("1:01:01", 7), "[1:01:01]");
    assert_eq!(bracketed("10:00:00", 7), "[10:00:0]");
    assert_eq!(bracketed("ab", 7), "[  ab   ]");
}

#[test]
fn playlist_table_and_title_are_derived_from_the_queue() {
    let mut m = Model::new(Settings::standard(), empty_snapshot());
    let (rows, title) = m.playlist_sync();
    assert_eq!(rows, vec![vec!["0", "empty playlist", "", ""]]);
    assert!(title.contains("Total 0 tracks"));

    m.playlist.add(track("song", "someone", 61), false);
    let (rows, title) = m.playlist_sync();
    assert_eq!(rows, vec![vec!["[ 01:01 ]", "someone", "song", "album"]]);
    assert_eq!(
        title,
        "\u{2500} Playlist \u{2500}\u{2500}\u{2524} Total 1 tracks | 01:01 | Mode: \u{1f5d8} \
         | Add to: \u{fb20} \u{251c}\u{2500}"
    );
}

#[test]
fn search_is_case_insensitive_and_wildcarded() {
    assert!(wild_match("*cat*", "dog_cat_dog"));
    assert!(wild_match("c?t", "cot"));
    assert!(!wild_match("?", "cat"));
    assert_eq!(lowercase("ABBA"), "abba");
    assert_eq!(search_pattern("AbBa"), "*abba*");

    let t = track("Waterloo", "ABBA", 180);
    assert!(track_matches("*abba*", &t));
    let pat = search_pattern("WATER");
    assert!(track_matches(&pat, &t));
    assert!(!track_matches("*queen*", &t));
}

#[test]
fn playlist_search_returns_stable_one_based_rows() {
    let mut m = Model::new(Settings::standard(), empty_snapshot());
    m.playlist.add(track("alpha", "ABBA", 61), false);
    m.playlist.add(track("beta", "Queen", 62), false);
    m.playlist.add(track("gamma", "abbaesque", 63), false);
    let (idxs, rows) = m.playlist_update_search("abba");
    assert_eq!(idxs, vec![0, 2]);
    assert_eq!(rows.len(), 2);
    assert_eq!(rows[0], vec!["[01:01 ]", "ABBA", "alpha", "/music/alpha.mp3"]);
    assert_eq!(rows[1][3], "/music/gamma.mp3");
}

#[test]
fn library_search_matches_lowercased_paths() {
    let paths = vec![
        String::from("/m/Rock/Song.mp3"),
        String::from("/m/Jazz/Tune.mp3"),
        String::from("/m/rockabilly/x.mp3"),
    ];
    let (idxs, rows) = library_update_search(&paths, "rock");
    assert_eq!(idxs, vec![0, 2]);
    assert_eq!(rows[0], vec!["1", "/m/Rock/Song.mp3"]);
    assert_eq!(rows[1], vec!["2", "/m/rockabilly/x.mp3"]);
}

#[test]
fn playlist_files_are_recognised_by_extension() {
    assert!(is_playlist("/m/list.m3u"));
    assert!(is_playlist("/m/list.M3U8"));
    assert!(!is_playlist("/m/list.pls"));
    assert!(filetype_supported("/m/a.mp3"));
    assert!(filetype_supported("/m/a.FLAC"));
    assert!(!filetype_supported("/m/a.txt"));
}

#[test]
fn playlist_text_decodes_to_its_entry_lines() {
    let text = "#EXTM3U\r\nsong one.mp3\n\n# comment\nsub/two.flac\n";
    let lines = decode_playlist(text);
    assert_eq!(lines, vec!["song one.mp3", "sub/two.flac"]);
    // no trailing newline keeps the last line
    assert_eq!(decode_playlist("a.mp3\nb.mp3"), vec!["a.mp3", "b.mp3"]);
    assert_eq!(decode_playlist(""), Vec::<String>::new());
}

#[test]
fn entries_resolve_against_the_playlist_directory() {
    assert!(resolve_entry("http://example.com/x.mp3", "/m").is_none());
    assert_eq!(resolve_entry("file:///a/b.mp3", "/m").unwrap(), "/a/b.mp3");
    assert_eq!(resolve_entry("/abs/c.mp3", "/m").unwrap(), "/abs/c.mp3");
    assert_eq!(resolve_entry("rel/d.mp3", "/m").unwrap(), "/m/rel/d.mp3");
}

#[test]
fn percent_escapes_are_decoded_before_resolving() {
    // would fail if the decoder handed its argument back unchanged
    assert_eq!(url_decode("my%20song.mp3").unwrap(), "my song.mp3");
    assert_eq!(
        playlist_entry_path("my%20song.mp3", "/m").unwrap(),
        "/m/my song.mp3"
    );
    assert!(playlist_entry_path("http://x/y.mp3", "/m").is_none());
}

#[test]
fn a_playlist_file_contributes_its_playable_paths_in_order() {
    let text = "# set\none.mp3\nskip.txt\nfile:///abs/two.flac\nhttp://no/three.mp3\nth%20ree.ogg\n";
    let paths = playlist_file_paths(text, "/m");
    assert_eq!(
        paths,
        vec![
            String::from("/m/one.mp3"),
            String::from("/abs/two.flac"),
            String::from("/m/th ree.ogg"),
        ]
    );
}

#[test]
fn path_helpers_split_like_the_player_expects() {
    assert_eq!(path_parent("/a/b").unwrap(), "/a");
    assert_eq!(path_parent("/a").unwrap(), "/");
    assert!(path_parent("/").is_none());
    assert!(path_parent("plain").is_none());
    assert_eq!(path_file_name("/a/b.mp3"), "b.mp3");
    assert_eq!(path_file_name("b.mp3"), "b.mp3");
    assert_eq!(path_join("/a", "b"), "/a/b");
}

#[test]
fn lyric_candidates_come_from_both_services_in_order() {
    let netease = vec![TagNetease {
        album: String::from("al"),
        artist: vec![String::from("ar")],
        id: 123,
        lyric_id: -7,
        name: String::from("song"),
        pic_id: String::from("p"),
        source: String::from("netease"),
        url_id: 1,
    }];
    let kugou = vec![TagKugou {
        album: String::from("kl"),
        artist: vec![String::from("kr")],
        id: String::from("k1"),
        lyric_id: String::from("k2"),
        name: String::from("ksong"),
        pic_id: String::from("p"),
        source: String::from("kugou"),
        url_id: String::from("u"),
    }];
    let tags = lyric_options(netease, kugou);
    assert_eq!(tags.len(), 2);
    assert_eq!(tags[0].title.as_deref(), Some("song"));
    assert_eq!(tags[0].song_id.as_deref(), Some("123"));
    assert_eq!(tags[0].lyric_id.as_deref(), Some("-7"));
    assert_eq!(tags[0].service_provider.as_deref(), Some("kugou"));
    assert_eq!(tags[1].song_id.as_deref(), Some("k1"));
    assert_eq!(tags[1].title.as_deref(), Some("ksong"));
}

#[test]
fn song_tag_display_clips_each_field() {
    let tag = SongTag {
        artist: vec![String::from("abcdefgh"), String::from("ijklmnop")],
        title: Some(String::from("a very long title indeed")),
        album: None,
        lang_ext: None,
        service_provider: None,
        song_id: None,
        lyric_id: None,
    };
    assert_eq!(
        tag.display_string(),
        "abcdefghijkl\u{300a}a very long \u{300b}Unknown Al"
    );
}
