//! A playlist entry: the metadata snapshot of one audio file, plus the
//! formatting of durations and display fields that the playlist table shows.
use vstd::prelude::*;
use crate::strings::{spec_dec, u64_to_dec, u64_to_dec2};

verus! {

/// Immutable metadata snapshot of one track. The fields mirror what the
/// tag reader hands over; absent tags stay `None` and are given display
/// fallbacks only when rendered.
pub struct Track {
    pub artist: Option<String>,
    pub album: Option<String>,
    pub title: Option<String>,
    /// Absolute path of the backing file.
    pub file: Option<String>,
    /// File name, used as a display fallback when no tags are present.
    pub name: Option<String>,
    pub duration_secs: u64,
}

/// A track row as the database hands it over; already plain metadata,
/// so a playlist entry can be built from it without touching the file.
pub struct TrackForDB {
    pub file: String,
    pub artist: String,
    pub title: String,
    pub album: String,
    pub duration_secs: u64,
}

impl Track {
    pub fn new(
        artist: Option<String>,
        album: Option<String>,
        title: Option<String>,
        file: Option<String>,
        name: Option<String>,
        duration_secs: u64,
    ) -> (r: Track)
        ensures
            r.artist == artist,
            r.album == album,
            r.title == title,
            r.file == file,
            r.name == name,
            r.duration_secs == duration_secs,
    {
        Track { artist, album, title, file, name, duration_secs }
    }

    /// A playlist entry for a database row: every field is already known.
    pub fn from_db(row: &TrackForDB) -> (r: Track)
        ensures
            r.artist == Some(row.artist),
            r.album == Some(row.album),
            r.title == Some(row.title),
            r.file == Some(row.file),
            r.name is Some,
            r.duration_secs == row.duration_secs,
    {
        Track {
            artist: Some(row.artist.clone()),
            album: Some(row.album.clone()),
            title: Some(row.title.clone()),
            file: Some(row.file.clone()),
            name: Some(row.file.clone()),
            duration_secs: row.duration_secs,
        }
    }

    pub fn duration(&self) -> (r: u64)
        ensures
            r == self.duration_secs,
    {
        self.duration_secs
    }

    /// The duration as the playlist shows it.
    pub fn duration_formatted(&self) -> (r: String)
        ensures
            r@ == spec_format_duration(self.duration_secs as int),
    {
        format_duration(self.duration_secs)
    }
}

/// `h:mm:ss` when an hour or more, `mm:ss` below that.
pub open spec fn spec_format_duration(secs: int) -> Seq<char> {
    let h = secs / 3600;
    let m = (secs % 3600) / 60;
    let s = secs % 60;
    let pad_m = if m < 10 { seq!['0'] + spec_dec(m) } else { spec_dec(m) };
    let pad_s = if s < 10 { seq!['0'] + spec_dec(s) } else { spec_dec(s) };
    if h > 0 {
        spec_dec(h) + seq![':'] + pad_m + seq![':'] + pad_s
    } else {
        pad_m + seq![':'] + pad_s
    }
}

/// Renders a number of seconds for the playlist table and its title.
pub fn format_duration(secs: u64) -> (r: String)
    ensures
        r@ == spec_format_duration(secs as int),
{
    let h: u64 = secs / 3600;
    let m: u64 = (secs % 3600) / 60;
    let s: u64 = secs % 60;
    proof {
        reveal_strlit(":");
    }
    if h > 0 {
        let mut out: String = u64_to_dec(h);
        out.append(":");
        let pm: String = u64_to_dec2(m);
        out.append(pm.as_str());
        out.append(":");
        let ps: String = u64_to_dec2(s);
        out.append(ps.as_str());
        proof {
            assert(out@ =~= spec_format_duration(secs as int));
        }
        out
    } else {
        let mut out: String = u64_to_dec2(m);
        out.append(":");
        let ps: String = u64_to_dec2(s);
        out.append(ps.as_str());
        proof {
            assert(out@ =~= spec_format_duration(secs as int));
        }
        out
    }
}

} // verus!
