//! What the render layer shows of the session: the playlist table, its
//! aggregated title, and the search-result tables. Everything here is
//! derived from the state on demand, never cached, so no mutation can
//! leave a stale aggregate behind.
use vstd::prelude::*;
use crate::lyrics::{clip, spec_clip};
use crate::model::Model;
use crate::playlist::{Loop, spec_total_duration};
use crate::playlist_file::{
    spec_filetype_supported, spec_is_playlist, filetype_supported, is_playlist,
};
use crate::search::{
    playlist_filter_indices, spec_search_pattern, spec_track_matches,
};
use crate::strings::{spec_dec, u64_to_dec};
use crate::track::{Track, spec_format_duration, format_duration};
use crate::wrappers::{glob_match, lower_of};

verus! {

/// `n` spaces.
pub open spec fn spec_spaces(n: int) -> Seq<char> {
    Seq::new(if n >= 0 { n as nat } else { 0 }, |i: int| ' ')
}

/// `s` clipped to `w` characters and centred in a field of `w`, the
/// spare space going right when odd.
pub open spec fn spec_center(s: Seq<char>, w: int) -> Seq<char> {
    let c = spec_clip(s, w);
    let pad = w - c.len();
    spec_spaces(pad / 2) + c + spec_spaces(pad - pad / 2)
}

/// A centred field between square brackets, as the duration column is
/// shown.
pub open spec fn spec_bracketed(s: Seq<char>, w: int) -> Seq<char> {
    seq!['['] + spec_center(s, w) + seq![']']
}

fn spaces(n: usize) -> (r: String)
    ensures
        r@ == spec_spaces(n as int),
{
    let mut out: String = String::new();
    let mut i: usize = 0;
    proof {
        reveal_strlit(" ");
        assert(out@ =~= spec_spaces(0));
    }
    while i < n
        invariant
            0 <= i <= n,
            out@ =~= spec_spaces(i as int),
        decreases n - i,
    {
        out.append(" ");
        proof {
            reveal_strlit(" ");
            assert(out@ =~= spec_spaces(i + 1));
        }
        i += 1;
    }
    out
}

/// Renders one table cell of width `w` between brackets.
pub fn bracketed(s: &str, w: usize) -> (r: String)
    ensures
        r@ == spec_bracketed(s@, w as int),
{
    let c: String = clip(s, w);
    let c_len: usize = c.as_str().unicode_len();
    let pad: usize = w - c_len;
    let left: String = spaces(pad / 2);
    let right: String = spaces(pad - pad / 2);
    let mut out: String = String::new();
    out.append("[");
    out.append(left.as_str());
    out.append(c.as_str());
    out.append(right.as_str());
    out.append("]");
    proof {
        reveal_strlit("[");
        reveal_strlit("]");
        assert(out@ =~= spec_bracketed(s@, w as int));
    }
    out
}

/// The artist cell: the tag, else the file name, else its own fallback.
pub open spec fn spec_row_artist(t: Track) -> Seq<char> {
    match t.artist {
        Some(a) => a@,
        None => match t.name {
            Some(n) => n@,
            None => "No Name"@,
        },
    }
}

pub open spec fn spec_row_title(t: Track) -> Seq<char> {
    match t.title {
        Some(s) => s@,
        None => "Unknown Title"@,
    }
}

pub open spec fn spec_row_album(t: Track) -> Seq<char> {
    match t.album {
        Some(s) => s@,
        None => "Unknown Album"@,
    }
}

pub open spec fn spec_row_file(t: Track) -> Seq<char> {
    match t.file {
        Some(s) => s@,
        None => "no file"@,
    }
}

fn row_artist(t: &Track) -> (r: String)
    ensures
        r@ == spec_row_artist(*t),
{
    match &t.artist {
        Some(a) => a.clone(),
        None => match &t.name {
            Some(n) => n.clone(),
            None => {
                proof {
                    reveal_strlit("No Name");
                }
                String::from_str("No Name")
            },
        },
    }
}

fn row_title(t: &Track) -> (r: String)
    ensures
        r@ == spec_row_title(*t),
{
    match &t.title {
        Some(s) => s.clone(),
        None => {
            proof {
                reveal_strlit("Unknown Title");
            }
            String::from_str("Unknown Title")
        },
    }
}

fn row_album(t: &Track) -> (r: String)
    ensures
        r@ == spec_row_album(*t),
{
    match &t.album {
        Some(s) => s.clone(),
        None => {
            proof {
                reveal_strlit("Unknown Album");
            }
            String::from_str("Unknown Album")
        },
    }
}

fn row_file(t: &Track) -> (r: String)
    ensures
        r@ == spec_row_file(*t),
{
    match &t.file {
        Some(s) => s.clone(),
        None => {
            proof {
                reveal_strlit("no file");
            }
            String::from_str("no file")
        },
    }
}

/// The four cells of one playlist row.
pub open spec fn spec_playlist_row(t: Track) -> Seq<Seq<char>> {
    seq![
        spec_bracketed(spec_format_duration(t.duration_secs as int), 7),
        spec_row_artist(t),
        spec_row_title(t),
        spec_row_album(t),
    ]
}

fn playlist_row(t: &Track) -> (r: Vec<String>)
    ensures
        r@.len() == 4,
        forall|c: int| 0 <= c < 4 ==> r@[c]@ == spec_playlist_row(*t)[c],
{
    let dur: String = format_duration(t.duration_secs);
    let mut row: Vec<String> = Vec::new();
    row.push(bracketed(dur.as_str(), 7));
    row.push(row_artist(t));
    row.push(row_title(t));
    row.push(row_album(t));
    row
}

/// The loop mode as the title names it.
pub fn loop_mode_display(m: Loop, symbol: bool) -> (r: &'static str)
    ensures
        symbol && m == Loop::Queue ==> r@ == "\u{1f5d8}"@,
        symbol && m == Loop::Playlist ==> r@ == "\u{27f3}"@,
        symbol && m == Loop::Single ==> r@ == "\u{21bb}"@,
        !symbol && m == Loop::Queue ==> r@ == "queue"@,
        !symbol && m == Loop::Playlist ==> r@ == "playlist"@,
        !symbol && m == Loop::Single ==> r@ == "single"@,
{
    match m {
        Loop::Queue => if symbol {
            "\u{1f5d8}"
        } else {
            "queue"
        },
        Loop::Playlist => if symbol {
            "\u{27f3}"
        } else {
            "playlist"
        },
        Loop::Single => if symbol {
            "\u{21bb}"
        } else {
            "single"
        },
    }
}

/// The add-direction marker of the title.
pub fn add_queue_display(front: bool, symbol: bool) -> (r: &'static str)
    ensures
        front && symbol ==> r@ == "\u{fb22}"@,
        front && !symbol ==> r@ == "next"@,
        !front && symbol ==> r@ == "\u{fb20}"@,
        !front && !symbol ==> r@ == "last"@,
{
    if front {
        if symbol {
            "\u{fb22}"
        } else {
            "next"
        }
    } else {
        if symbol {
            "\u{fb20}"
        } else {
            "last"
        }
    }
}

/// The playlist pane's title: track count, total duration, loop mode
/// and add direction, framed in box-drawing characters.
pub open spec fn spec_playlist_title(
    count: int,
    duration: Seq<char>,
    mode: Seq<char>,
    add_to: Seq<char>,
) -> Seq<char> {
    "\u{2500} Playlist \u{2500}\u{2500}\u{2524} Total "@ + spec_dec(count) + " tracks | "@
        + duration + " | Mode: "@ + mode + " | Add to: "@ + add_to + " \u{251c}\u{2500}"@
}

/// What the original's delete confirmation mounts: a plain radio for a
/// single file, a typed confirmation for a whole directory.
#[derive(Clone, Copy, Debug, PartialEq, Eq, Structural)]
pub enum ConfirmKind {
    Radio,
    Input,
}

/// How a path is taken into the playlist: not at all, expanded as a
/// directory, parsed as a playlist file, or read as one audio file.
#[derive(Clone, Copy, Debug, PartialEq, Eq, Structural)]
pub enum AddPlan {
    Ignore,
    ExpandDir,
    ParsePlaylist,
    ReadTrack,
}

impl Model {
    /// The playlist table and its title, freshly derived: one row per
    /// track, or the placeholder row when the queue is empty.
    pub fn playlist_sync(&self) -> (r: (Vec<Vec<String>>, String))
        ensures
            self.playlist@.len() > 0 ==> r.0@.len() == self.playlist@.len(),
            self.playlist@.len() > 0 ==> forall|i: int, c: int|
                0 <= i < r.0@.len() && 0 <= c < 4 ==> #[trigger] r.0@[i]@[c]@
                    == spec_playlist_row(self.playlist@[i])[c],
            self.playlist@.len() > 0 ==> forall|i: int| 0 <= i < r.0@.len() ==> #[trigger] r.0@[i]@.len() == 4,
            self.playlist@.len() == 0 ==> r.0@.len() == 1 && r.0@[0]@.len() == 4
                && r.0@[0]@[0]@ == "0"@ && r.0@[0]@[1]@ == "empty playlist"@
                && r.0@[0]@[2]@ == ""@ && r.0@[0]@[3]@ == ""@,
            r.1@ == spec_playlist_title(
                self.playlist@.len() as int,
                spec_format_duration(
                    if spec_total_duration(self.playlist@) <= u64::MAX {
                        spec_total_duration(self.playlist@)
                    } else {
                        u64::MAX as int
                    },
                ),
                if self.config.playlist_display_symbol {
                    spec_loop_symbol(self.config.loop_mode)
                } else {
                    spec_loop_word(self.config.loop_mode)
                },
                if self.config.add_playlist_front {
                    if self.config.playlist_display_symbol {
                        "\u{fb22}"@
                    } else {
                        "next"@
                    }
                } else {
                    if self.config.playlist_display_symbol {
                        "\u{fb20}"@
                    } else {
                        "last"@
                    }
                },
            ),
    {
        let len: usize = self.playlist.len();
        let mut rows: Vec<Vec<String>> = Vec::new();
        if len == 0 {
            proof {
                reveal_strlit("0");
                reveal_strlit("empty playlist");
                reveal_strlit("");
            }
            let mut row: Vec<String> = Vec::new();
            row.push(String::from_str("0"));
            row.push(String::from_str("empty playlist"));
            row.push(String::from_str(""));
            row.push(String::from_str(""));
            rows.push(row);
        } else {
            let mut i: usize = 0;
            while i < len
                invariant
                    0 <= i <= len,
                    len == self.playlist@.len(),
                    rows@.len() == i,
                    forall|m: int| 0 <= m < i ==> #[trigger] rows@[m]@.len() == 4,
                    forall|m: int, c: int|
                        0 <= m < i && 0 <= c < 4 ==> #[trigger] rows@[m]@[c]@
                            == spec_playlist_row(self.playlist@[m])[c],
                decreases len - i,
            {
                let row: Vec<String> = playlist_row(&self.playlist.tracks[i]);
                rows.push(row);
                i += 1;
            }
        }
        let title: String = self.playlist_update_title();
        (rows, title)
    }

    /// The aggregated playlist title, recomputed from the queue.
    pub fn playlist_update_title(&self) -> (r: String)
        ensures
            r.view() == spec_playlist_title(
                self.playlist@.len() as int,
                spec_format_duration(
                    if spec_total_duration(self.playlist@) <= u64::MAX {
                        spec_total_duration(self.playlist@)
                    } else {
                        u64::MAX as int
                    },
                ),
                if self.config.playlist_display_symbol {
                    spec_loop_symbol(self.config.loop_mode)
                } else {
                    spec_loop_word(self.config.loop_mode)
                },
                if self.config.add_playlist_front {
                    if self.config.playlist_display_symbol {
                        "\u{fb22}"@
                    } else {
                        "next"@
                    }
                } else {
                    if self.config.playlist_display_symbol {
                        "\u{fb20}"@
                    } else {
                        "last"@
                    }
                },
            ),
    {
        let total: u64 = self.playlist.total_duration_secs();
        let dur: String = format_duration(total);
        let mode: &str = loop_mode_display(self.config.loop_mode, self.config.playlist_display_symbol);
        let add_to: &str = add_queue_display(
            self.config.add_playlist_front,
            self.config.playlist_display_symbol,
        );
        let count: u64 = self.playlist.len() as u64;
        let count_str: String = u64_to_dec(count);
        let mut out: String = String::new();
        out.append("\u{2500} Playlist \u{2500}\u{2500}\u{2524} Total ");
        out.append(count_str.as_str());
        out.append(" tracks | ");
        out.append(dur.as_str());
        out.append(" | Mode: ");
        out.append(mode);
        out.append(" | Add to: ");
        out.append(add_to);
        out.append(" \u{251c}\u{2500}");
        proof {
            assert(out@ =~= spec_playlist_title(
                self.playlist@.len() as int,
                spec_format_duration(
                    if spec_total_duration(self.playlist@) <= u64::MAX {
                        spec_total_duration(self.playlist@)
                    } else {
                        u64::MAX as int
                    },
                ),
                if self.config.playlist_display_symbol {
                    spec_loop_symbol(self.config.loop_mode)
                } else {
                    spec_loop_word(self.config.loop_mode)
                },
                if self.config.add_playlist_front {
                    if self.config.playlist_display_symbol {
                        "\u{fb22}"@
                    } else {
                        "next"@
                    }
                } else {
                    if self.config.playlist_display_symbol {
                        "\u{fb20}"@
                    } else {
                        "last"@
                    }
                },
            ));
        }
        out
    }

    /// The search table over the queue: for each matching track, in
    /// queue order, its duration, artist, title and backing file.
    pub fn playlist_update_search(&self, input: &str) -> (r: (Vec<usize>, Vec<Vec<String>>))
        ensures
            forall|j: int|
                0 <= j < r.0@.len() ==> r.0@[j] < self.playlist@.len() && spec_track_matches(
                    spec_search_pattern(input@),
                    self.playlist@[r.0@[j] as int],
                ),
            forall|j1: int, j2: int| 0 <= j1 < j2 < r.0@.len() ==> r.0@[j1] < r.0@[j2],
            forall|i: int|
                0 <= i < self.playlist@.len() && spec_track_matches(
                    spec_search_pattern(input@),
                    self.playlist@[i],
                ) ==> r.0@.contains(i as usize),
            r.1@.len() == r.0@.len(),
            forall|m: int| 0 <= m < r.1@.len() ==> #[trigger] r.1@[m]@.len() == 4,
            forall|m: int, c: int|
                0 <= m < r.1@.len() && 0 <= c < 4 ==> #[trigger] r.1@[m]@[c]@
                    == spec_search_row(self.playlist@[r.0@[m] as int])[c],
    {
        let idxs: Vec<usize> = playlist_filter_indices(&self.playlist, input);
        let mut rows: Vec<Vec<String>> = Vec::new();
        let mut m: usize = 0;
        let n: usize = idxs.len();
        while m < n
            invariant
                0 <= m <= n,
                n == idxs@.len(),
                forall|j: int| 0 <= j < n ==> idxs@[j] < self.playlist@.len(),
                rows@.len() == m,
                forall|k: int| 0 <= k < m ==> #[trigger] rows@[k]@.len() == 4,
                forall|k: int, c: int|
                    0 <= k < m && 0 <= c < 4 ==> #[trigger] rows@[k]@[c]@
                        == spec_search_row(self.playlist@[idxs@[k] as int])[c],
            decreases n - m,
        {
            let ti: usize = idxs[m];
            proof {
                assert(ti < self.playlist@.len());
            }
            let t: &Track = &self.playlist.tracks[ti];
            let dur: String = format_duration(t.duration_secs);
            let mut row: Vec<String> = Vec::new();
            row.push(bracketed(dur.as_str(), 6));
            row.push(row_artist(t));
            row.push(row_title(t));
            row.push(row_file(t));
            rows.push(row);
            m += 1;
        }
        (idxs, rows)
    }

    /// Which confirmation the delete flow mounts for the selection.
    pub fn library_before_delete(&self, selected_is_file: bool) -> (r: ConfirmKind)
        ensures
            selected_is_file ==> r == ConfirmKind::Radio,
            !selected_is_file ==> r == ConfirmKind::Input,
    {
        if selected_is_file {
            ConfirmKind::Radio
        } else {
            ConfirmKind::Input
        }
    }

    /// How one path joins the playlist: missing paths are ignored, a
    /// directory is expanded, a playlist file is parsed, a supported
    /// audio file is read, anything else is ignored.
    pub fn playlist_add(&self, path: &str, path_exists: bool, path_is_dir: bool) -> (r: AddPlan)
        ensures
            !path_exists ==> r == AddPlan::Ignore,
            path_exists && path_is_dir ==> r == AddPlan::ExpandDir,
            path_exists && !path_is_dir && spec_is_playlist(path@) ==> r == AddPlan::ParsePlaylist,
            path_exists && !path_is_dir && !spec_is_playlist(path@) && spec_filetype_supported(
                path@,
            ) ==> r == AddPlan::ReadTrack,
            path_exists && !path_is_dir && !spec_is_playlist(path@) && !spec_filetype_supported(
                path@,
            ) ==> r == AddPlan::Ignore,
    {
        if !path_exists {
            AddPlan::Ignore
        } else if path_is_dir {
            AddPlan::ExpandDir
        } else if is_playlist(path) {
            AddPlan::ParsePlaylist
        } else if filetype_supported(path) {
            AddPlan::ReadTrack
        } else {
            AddPlan::Ignore
        }
    }
}

/// The loop-mode symbols of the title.
pub open spec fn spec_loop_word(m: Loop) -> Seq<char> {
    match m {
        Loop::Queue => "queue"@,
        Loop::Playlist => "playlist"@,
        Loop::Single => "single"@,
    }
}

pub open spec fn spec_loop_symbol(m: Loop) -> Seq<char> {
    match m {
        Loop::Queue => "\u{1f5d8}"@,
        Loop::Playlist => "\u{27f3}"@,
        Loop::Single => "\u{21bb}"@,
    }
}

/// The four cells of one search row over the queue.
pub open spec fn spec_search_row(t: Track) -> Seq<Seq<char>> {
    seq![
        spec_bracketed(spec_format_duration(t.duration_secs as int), 6),
        spec_row_artist(t),
        spec_row_title(t),
        spec_row_file(t),
    ]
}

/// The library search table: the 1-based display index and the path of
/// each matching file below the root, in walk order.
pub fn library_update_search(paths: &Vec<String>, input: &str) -> (r: (
    Vec<usize>,
    Vec<Vec<String>>,
))
    ensures
        forall|j: int|
            0 <= j < r.0@.len() ==> r.0@[j] < paths@.len() && glob_match(
                spec_search_pattern(input@),
                lower_of(paths@[r.0@[j] as int]@),
            ),
        forall|j1: int, j2: int| 0 <= j1 < j2 < r.0@.len() ==> r.0@[j1] < r.0@[j2],
        forall|i: int|
            0 <= i < paths@.len() && glob_match(
                spec_search_pattern(input@),
                lower_of(paths@[i]@),
            ) ==> r.0@.contains(i as usize),
        r.1@.len() == r.0@.len(),
        forall|m: int|
            0 <= m < r.1@.len() ==> #[trigger] r.1@[m]@.len() == 2 && r.1@[m]@[0]@ == spec_dec(
                m + 1,
            ) && r.1@[m]@[1]@ == paths@[r.0@[m] as int]@,
{
    let idxs: Vec<usize> = crate::search::path_filter_indices(paths, input);
    let mut rows: Vec<Vec<String>> = Vec::new();
    let mut m: usize = 0;
    let n: usize = idxs.len();
    while m < n
        invariant
            0 <= m <= n,
            n == idxs@.len(),
            n <= usize::MAX,
            forall|j: int| 0 <= j < n ==> idxs@[j] < paths@.len(),
            rows@.len() == m,
            forall|k: int|
                0 <= k < m ==> #[trigger] rows@[k]@.len() == 2 && rows@[k]@[0]@ == spec_dec(k + 1)
                    && rows@[k]@[1]@ == paths@[idxs@[k] as int]@,
        decreases n - m,
    {
        let display: u64 = (m as u64) + 1;
        proof {
            assert(display as int == m + 1);
            assert(idxs@[m as int] < paths@.len());
        }
        let mut row: Vec<String> = Vec::new();
        row.push(u64_to_dec(display));
        row.push(paths[idxs[m]].clone());
        proof {
            assert(row@.len() == 2);
            assert(row@[0]@ == spec_dec(m + 1));
            assert(row@[1]@ == paths@[idxs@[m as int] as int]@);
        }
        rows.push(row);
        m += 1;
    }
    (idxs, rows)
}

} // verus!
