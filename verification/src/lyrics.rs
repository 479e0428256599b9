//! Song-tag candidates for the lyric search: the rows the two lyric
//! services answer with, their conversion into the player's own tag
//! type, and the combined candidate list. The network fetch itself
//! happens outside; this module owns every decision about the data.
use vstd::prelude::*;
use crate::strings::{spec_dec, u64_to_dec};

verus! {

/// A lyric-search candidate as the player keeps it.
pub struct SongTag {
    pub artist: Vec<String>,
    pub title: Option<String>,
    pub album: Option<String>,
    pub lang_ext: Option<String>,
    pub service_provider: Option<String>,
    pub song_id: Option<String>,
    pub lyric_id: Option<String>,
}

/// A search row as the netease service answers it.
pub struct TagNetease {
    pub album: String,
    pub artist: Vec<String>,
    pub id: i64,
    pub lyric_id: i64,
    pub name: String,
    pub pic_id: String,
    pub source: String,
    pub url_id: i64,
}

/// A search row as the kugou service answers it.
pub struct TagKugou {
    pub album: String,
    pub artist: Vec<String>,
    pub id: String,
    pub lyric_id: String,
    pub name: String,
    pub pic_id: String,
    pub source: String,
    pub url_id: String,
}

/// Decimal digits of a signed number: a minus sign before the magnitude.
pub open spec fn spec_dec_i64(n: int) -> Seq<char> {
    if n >= 0 {
        spec_dec(n)
    } else {
        seq!['-'] + spec_dec(-n)
    }
}

/// Decimal rendering of a signed number.
pub fn i64_to_dec(n: i64) -> (r: String)
    ensures
        r@ == spec_dec_i64(n as int),
{
    proof {
        reveal_strlit("-");
    }
    if n >= 0 {
        u64_to_dec(n as u64)
    } else {
        let mag: u64 = if n == i64::MIN {
            9223372036854775808u64
        } else {
            (-n) as u64
        };
        proof {
            assert(mag == -(n as int));
        }
        let mut out: String = String::new();
        out.append("-");
        let digits: String = u64_to_dec(mag);
        out.append(digits.as_str());
        proof {
            assert(out@ =~= spec_dec_i64(n as int));
        }
        out
    }
}

/// How a converted candidate relates to its netease row: the fields
/// carried over, the numeric identifiers rendered in decimal, and the
/// language and provider markers the player stores with it.
pub open spec fn spec_tag_of_netease(t: SongTag, v: TagNetease) -> bool {
    &&& t.artist == v.artist
    &&& t.title matches Some(s) && s@ == v.name@
    &&& t.album matches Some(s) && s@ == v.album@
    &&& t.lang_ext matches Some(s) && s@ == "chi"@
    &&& t.service_provider matches Some(s) && s@ == "kugou"@
    &&& t.song_id matches Some(s) && s@ == spec_dec_i64(v.id as int)
    &&& t.lyric_id matches Some(s) && s@ == spec_dec_i64(v.lyric_id as int)
}

/// How a converted candidate relates to its kugou row.
pub open spec fn spec_tag_of_kugou(t: SongTag, v: TagKugou) -> bool {
    &&& t.artist == v.artist
    &&& t.title matches Some(s) && s@ == v.name@
    &&& t.album matches Some(s) && s@ == v.album@
    &&& t.lang_ext matches Some(s) && s@ == "chi"@
    &&& t.service_provider matches Some(s) && s@ == "kugou"@
    &&& t.song_id matches Some(s) && s@ == v.id@
    &&& t.lyric_id matches Some(s) && s@ == v.lyric_id@
}

/// Converts one netease search row.
pub fn song_tag_from_netease(v: TagNetease) -> (t: SongTag)
    ensures
        spec_tag_of_netease(t, v),
{
    proof {
        reveal_strlit("chi");
        reveal_strlit("kugou");
    }
    SongTag {
        artist: v.artist,
        title: Some(v.name),
        album: Some(v.album),
        lang_ext: Some(String::from_str("chi")),
        service_provider: Some(String::from_str("kugou")),
        song_id: Some(i64_to_dec(v.id)),
        lyric_id: Some(i64_to_dec(v.lyric_id)),
    }
}

/// Converts one kugou search row.
pub fn song_tag_from_kugou(v: TagKugou) -> (t: SongTag)
    ensures
        spec_tag_of_kugou(t, v),
{
    proof {
        reveal_strlit("chi");
        reveal_strlit("kugou");
    }
    SongTag {
        artist: v.artist,
        title: Some(v.name),
        album: Some(v.album),
        lang_ext: Some(String::from_str("chi")),
        service_provider: Some(String::from_str("kugou")),
        song_id: Some(v.id),
        lyric_id: Some(v.lyric_id),
    }
}

/// The combined candidate list for one query: every netease row first,
/// every kugou row after, each converted as its service prescribes.
pub fn lyric_options(netease: Vec<TagNetease>, kugou: Vec<TagKugou>) -> (r: Vec<SongTag>)
    ensures
        r@.len() == netease@.len() + kugou@.len(),
        forall|i: int|
            0 <= i < netease@.len() ==> spec_tag_of_netease(#[trigger] r@[i], netease@[i]),
        forall|i: int|
            0 <= i < kugou@.len() ==> spec_tag_of_kugou(
                #[trigger] r@[netease@.len() + i],
                kugou@[i],
            ),
{
    let ghost gn: Seq<TagNetease> = netease@;
    let ghost gk: Seq<TagKugou> = kugou@;
    let mut out: Vec<SongTag> = Vec::new();
    let mut src_n: Vec<TagNetease> = netease;
    let mut i: usize = 0;
    let n_len: usize = src_n.len();
    while i < n_len
        invariant
            0 <= i <= n_len,
            n_len == gn.len(),
            src_n@ =~= gn.skip(i as int),
            out@.len() == i,
            forall|m: int| 0 <= m < i ==> spec_tag_of_netease(#[trigger] out@[m], gn[m]),
        decreases n_len - i,
    {
        let v: TagNetease = src_n.remove(0);
        proof {
            assert(v == gn[i as int]);
            assert(src_n@ =~= gn.skip(i + 1));
        }
        let t: SongTag = song_tag_from_netease(v);
        out.push(t);
        i += 1;
    }
    let mut src_k: Vec<TagKugou> = kugou;
    let mut k: usize = 0;
    let k_len: usize = src_k.len();
    while k < k_len
        invariant
            0 <= k <= k_len,
            k_len == gk.len(),
            n_len == gn.len(),
            src_k@ =~= gk.skip(k as int),
            out@.len() == n_len + k,
            forall|m: int| 0 <= m < n_len ==> spec_tag_of_netease(#[trigger] out@[m], gn[m]),
            forall|m: int|
                0 <= m < k ==> spec_tag_of_kugou(#[trigger] out@[n_len + m], gk[m]),
        decreases k_len - k,
    {
        let v: TagKugou = src_k.remove(0);
        proof {
            assert(v == gk[k as int]);
            assert(src_k@ =~= gk.skip(k + 1));
        }
        let t: SongTag = song_tag_from_kugou(v);
        out.push(t);
        k += 1;
    }
    out
}

/// What the candidate table shows of absent fields.
pub open spec fn spec_title_or_default(t: SongTag) -> Seq<char> {
    match t.title {
        Some(s) => s@,
        None => "Unknown Title"@,
    }
}

pub open spec fn spec_album_or_default(t: SongTag) -> Seq<char> {
    match t.album {
        Some(s) => s@,
        None => "Unknown Album"@,
    }
}

/// The artist names of a candidate, run together.
pub open spec fn spec_artists_joined(s: Seq<String>) -> Seq<char>
    decreases s.len(),
{
    if s.len() == 0 {
        Seq::<char>::empty()
    } else {
        spec_artists_joined(s.drop_last()) + s.last()@
    }
}

/// The first `n` characters of `s`, or all of it when shorter.
pub open spec fn spec_clip(s: Seq<char>, n: int) -> Seq<char> {
    if s.len() <= n {
        s
    } else {
        s.take(n)
    }
}

impl SongTag {
    /// The one-line form shown in the candidate table: artists, title
    /// and album, each clipped, the title set off in corner brackets.
    pub fn display_string(&self) -> (r: String)
        ensures
            r@ == spec_clip(spec_artists_joined(self.artist@), 12) + "\u{300a}"@ + spec_clip(
                spec_title_or_default(*self),
                12,
            ) + "\u{300b}"@ + spec_clip(spec_album_or_default(*self), 10),
    {
        let mut artists: String = String::new();
        let mut i: usize = 0;
        let len: usize = self.artist.len();
        proof {
            assert(self.artist@.take(0) =~= Seq::<String>::empty());
        }
        while i < len
            invariant
                0 <= i <= len,
                len == self.artist@.len(),
                artists@ == spec_artists_joined(self.artist@.take(i as int)),
            decreases len - i,
        {
            proof {
                assert(self.artist@.take(i + 1).drop_last() =~= self.artist@.take(i as int));
                assert(self.artist@.take(i + 1).last() == self.artist@[i as int]);
            }
            artists.append(self.artist[i].as_str());
            i += 1;
        }
        proof {
            assert(self.artist@.take(len as int) =~= self.artist@);
        }
        let mut out: String = clip(artists.as_str(), 12);
        out.append("\u{300a}");
        let title: String = match &self.title {
            Some(s) => clip(s.as_str(), 12),
            None => clip("Unknown Title", 12),
        };
        out.append(title.as_str());
        out.append("\u{300b}");
        let album: String = match &self.album {
            Some(s) => clip(s.as_str(), 10),
            None => clip("Unknown Album", 10),
        };
        out.append(album.as_str());
        proof {
            reveal_strlit("Unknown Title");
            reveal_strlit("Unknown Album");
            assert(out@ =~= spec_clip(spec_artists_joined(self.artist@), 12) + "\u{300a}"@
                + spec_clip(spec_title_or_default(*self), 12) + "\u{300b}"@ + spec_clip(
                spec_album_or_default(*self),
                10,
            ));
        }
        out
    }
}

/// Clips a string to its first `n` characters.
pub fn clip(s: &str, n: usize) -> (r: String)
    ensures
        r@ == spec_clip(s@, n as int),
{
    let len: usize = s.unicode_len();
    if len <= n {
        s.to_owned()
    } else {
        s.substring_char(0, n).to_owned()
    }
}

} // verus!
