//! Case-insensitive wildcard search over the playlist and the library:
//! the query is wrapped in `*`...`*`, lower-cased, and matched against a
//! track's artist and title, or against a file path.
use vstd::prelude::*;
use crate::playlist::Playlist;
use crate::track::Track;
use crate::wrappers::{glob_match, lower_of, lowercase, wild_match};

verus! {

/// The artist field a search sees: the tag, or its display fallback.
pub open spec fn spec_search_artist(t: Track) -> Seq<char> {
    match t.artist {
        Some(a) => a@,
        None => "Unknown artist"@,
    }
}

/// The title field a search sees: the tag, or its display fallback.
pub open spec fn spec_search_title(t: Track) -> Seq<char> {
    match t.title {
        Some(a) => a@,
        None => "Unknown title"@,
    }
}

/// A track matches when the pattern covers its lower-cased artist or its
/// lower-cased title.
pub open spec fn spec_track_matches(pattern: Seq<char>, t: Track) -> bool {
    glob_match(pattern, lower_of(spec_search_artist(t))) || glob_match(
        pattern,
        lower_of(spec_search_title(t)),
    )
}

/// The search pattern for a query: `*` + lower-cased query + `*`.
pub open spec fn spec_search_pattern(input: Seq<char>) -> Seq<char> {
    seq!['*'] + lower_of(input) + seq!['*']
}

/// Builds the wildcard pattern used by every search box.
pub fn search_pattern(input: &str) -> (r: String)
    ensures
        r@ == spec_search_pattern(input@),
{
    let low: String = lowercase(input);
    let mut out: String = String::new();
    out.append("*");
    out.append(low.as_str());
    out.append("*");
    proof {
        reveal_strlit("*");
        assert(out@ =~= spec_search_pattern(input@));
    }
    out
}

fn search_artist_of(t: &Track) -> (r: &str)
    ensures
        r@ == spec_search_artist(*t),
{
    match &t.artist {
        Some(a) => a.as_str(),
        None => "Unknown artist",
    }
}

fn search_title_of(t: &Track) -> (r: &str)
    ensures
        r@ == spec_search_title(*t),
{
    match &t.title {
        Some(a) => a.as_str(),
        None => "Unknown title",
    }
}

/// Whether one track matches the pattern, case-insensitively.
pub fn track_matches(pattern: &str, t: &Track) -> (r: bool)
    ensures
        r == spec_track_matches(pattern@, *t),
{
    let artist_low: String = lowercase(search_artist_of(t));
    let title_low: String = lowercase(search_title_of(t));
    let am: bool = wild_match(pattern, artist_low.as_str());
    let tm: bool = wild_match(pattern, title_low.as_str());
    am || tm
}

/// Indices of the playlist tracks that match the query, in queue order.
/// The result lists exactly the matching positions, strictly ascending,
/// so the table shown for a search keeps stable 1-based indices.
pub fn playlist_filter_indices(p: &Playlist, input: &str) -> (r: Vec<usize>)
    ensures
        forall|j: int| 0 <= j < r@.len() ==> r@[j] < p@.len() && spec_track_matches(
            spec_search_pattern(input@),
            p@[r@[j] as int],
        ),
        forall|j1: int, j2: int| 0 <= j1 < j2 < r@.len() ==> r@[j1] < r@[j2],
        forall|i: int| 0 <= i < p@.len() && spec_track_matches(
            spec_search_pattern(input@),
            p@[i],
        ) ==> r@.contains(i as usize),
{
    let pattern: String = search_pattern(input);
    let len: usize = p.len();
    let mut out: Vec<usize> = Vec::new();
    let mut i: usize = 0;
    while i < len
        invariant
            0 <= i <= len,
            len == p@.len(),
            pattern@ == spec_search_pattern(input@),
            forall|j: int| 0 <= j < out@.len() ==> out@[j] < i && spec_track_matches(
                spec_search_pattern(input@),
                p@[out@[j] as int],
            ),
            forall|j1: int, j2: int| 0 <= j1 < j2 < out@.len() ==> out@[j1] < out@[j2],
            forall|k: int| 0 <= k < i && spec_track_matches(
                spec_search_pattern(input@),
                p@[k],
            ) ==> out@.contains(k as usize),
        decreases len - i,
    {
        let ghost prev: Seq<usize> = out@;
        let m: bool = track_matches(pattern.as_str(), &p.tracks[i]);
        if m {
            out.push(i);
        }
        proof {
            assert forall|k: int|
                0 <= k < i + 1 && spec_track_matches(
                    spec_search_pattern(input@),
                    p@[k],
                ) implies out@.contains(k as usize) by {
                if k < i {
                    assert(prev.contains(k as usize));
                    let j: int = choose|j: int| 0 <= j < prev.len() && prev[j] == k as usize;
                    assert(out@[j] == k as usize);
                } else {
                    assert(m);
                    assert(out@[out@.len() - 1] == i as usize);
                }
            }
        }
        i += 1;
    }
    out
}

/// Indices of the paths that match the query, in walk order, mirroring
/// how a library search scans every file path below the root.
pub fn path_filter_indices(paths: &Vec<String>, input: &str) -> (r: Vec<usize>)
    ensures
        forall|j: int| 0 <= j < r@.len() ==> r@[j] < paths@.len() && glob_match(
            spec_search_pattern(input@),
            lower_of(paths@[r@[j] as int]@),
        ),
        forall|j1: int, j2: int| 0 <= j1 < j2 < r@.len() ==> r@[j1] < r@[j2],
        forall|i: int| 0 <= i < paths@.len() && glob_match(
            spec_search_pattern(input@),
            lower_of(paths@[i]@),
        ) ==> r@.contains(i as usize),
{
    let pattern: String = search_pattern(input);
    let len: usize = paths.len();
    let mut out: Vec<usize> = Vec::new();
    let mut i: usize = 0;
    while i < len
        invariant
            0 <= i <= len,
            len == paths@.len(),
            pattern@ == spec_search_pattern(input@),
            forall|j: int| 0 <= j < out@.len() ==> out@[j] < i && glob_match(
                spec_search_pattern(input@),
                lower_of(paths@[out@[j] as int]@),
            ),
            forall|j1: int, j2: int| 0 <= j1 < j2 < out@.len() ==> out@[j1] < out@[j2],
            forall|k: int| 0 <= k < i && glob_match(
                spec_search_pattern(input@),
                lower_of(paths@[k]@),
            ) ==> out@.contains(k as usize),
        decreases len - i,
    {
        let ghost prev: Seq<usize> = out@;
        let low: String = lowercase(paths[i].as_str());
        let m: bool = wild_match(pattern.as_str(), low.as_str());
        if m {
            out.push(i);
        }
        proof {
            assert forall|k: int|
                0 <= k < i + 1 && glob_match(
                    spec_search_pattern(input@),
                    lower_of(paths@[k]@),
                ) implies out@.contains(k as usize) by {
                if k < i {
                    assert(prev.contains(k as usize));
                    let j: int = choose|j: int| 0 <= j < prev.len() && prev[j] == k as usize;
                    assert(out@[j] == k as usize);
                } else {
                    assert(m);
                    assert(out@[out@.len() - 1] == i as usize);
                }
            }
        }
        i += 1;
    }
    out
}

} // verus!
