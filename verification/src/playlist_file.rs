//! Reading a playlist file: the line format (blank lines and `#`
//! comments skipped), resolution of each entry to an absolute path
//! (URL-decoding, stripping a `file://` scheme, rejecting network
//! schemes), and the file-type gate for playable entries.
use vstd::prelude::*;
use crate::strings::{is_prefix_of, is_suffix_of, spec_lower, spec_lower_char, lower_char};
use crate::wrappers::{url_decode, url_decoded};

verus! {

/// True when no character of `s` is a percent sign, so URL-decoding
/// leaves `s` unchanged.
pub open spec fn percent_free(s: Seq<char>) -> bool {
    forall|i: int| 0 <= i < s.len() ==> s[i] != '%'
}

/// Case-folded suffix test: does `s`, lower-cased, end in `p`?
pub fn suffix_matches_folded(s: &str, p: &str) -> (r: bool)
    ensures
        r == is_suffix_of(p@, spec_lower(s@)),
{
    let s_len: usize = s.unicode_len();
    let p_len: usize = p.unicode_len();
    if p_len > s_len {
        assert(!is_suffix_of(p@, spec_lower(s@)));
        return false;
    }
    let off: usize = s_len - p_len;
    let mut i: usize = 0;
    while i < p_len
        invariant
            0 <= i <= p_len <= s_len,
            off == s_len - p_len,
            s_len == s@.len(),
            p_len == p@.len(),
            forall|j: int| 0 <= j < i ==> spec_lower(s@)[off + j] == p@[j],
        decreases p_len - i,
    {
        if lower_char(s.get_char(off + i)) != p.get_char(i) {
            assert(spec_lower(s@)[off + i] == spec_lower_char(s@[off + i]));
            assert(spec_lower(s@).subrange(
                spec_lower(s@).len() - p@.len(),
                spec_lower(s@).len() as int,
            )[i as int] != p@[i as int]);
            return false;
        }
        i += 1;
    }
    assert(spec_lower(s@).subrange(
        spec_lower(s@).len() - p@.len(),
        spec_lower(s@).len() as int,
    ) =~= p@);
    true
}

/// The audio file types the player reads tags from.
pub open spec fn spec_filetype_supported(path: Seq<char>) -> bool {
    ||| is_suffix_of(".mp3"@, spec_lower(path))
    ||| is_suffix_of(".m4a"@, spec_lower(path))
    ||| is_suffix_of(".flac"@, spec_lower(path))
    ||| is_suffix_of(".ogg"@, spec_lower(path))
    ||| is_suffix_of(".opus"@, spec_lower(path))
    ||| is_suffix_of(".aiff"@, spec_lower(path))
    ||| is_suffix_of(".wav"@, spec_lower(path))
}

/// Whether a path names a playable audio file, by extension,
/// case-insensitively.
pub fn filetype_supported(path: &str) -> (r: bool)
    ensures
        r == spec_filetype_supported(path@),
{
    if suffix_matches_folded(path, ".mp3") {
        return true;
    }
    if suffix_matches_folded(path, ".m4a") {
        return true;
    }
    if suffix_matches_folded(path, ".flac") {
        return true;
    }
    if suffix_matches_folded(path, ".ogg") {
        return true;
    }
    if suffix_matches_folded(path, ".opus") {
        return true;
    }
    if suffix_matches_folded(path, ".aiff") {
        return true;
    }
    suffix_matches_folded(path, ".wav")
}

/// Whether a path names a playlist file, by extension.
pub open spec fn spec_is_playlist(path: Seq<char>) -> bool {
    is_suffix_of(".m3u"@, spec_lower(path)) || is_suffix_of(".m3u8"@, spec_lower(path))
}

pub fn is_playlist(path: &str) -> (r: bool)
    ensures
        r == spec_is_playlist(path@),
{
    if suffix_matches_folded(path, ".m3u") {
        return true;
    }
    suffix_matches_folded(path, ".m3u8")
}

/// Index of the first newline of `s`, or its length when there is none.
pub open spec fn spec_find_nl(s: Seq<char>) -> int
    decreases s.len(),
{
    if s.len() == 0 {
        0
    } else if s[0] == '\n' {
        0
    } else {
        1 + spec_find_nl(s.drop_first())
    }
}

proof fn lemma_find_nl_exact(s: Seq<char>, i: int)
    requires
        0 <= i <= s.len(),
        forall|m: int| 0 <= m < i ==> s[m] != '\n',
        i < s.len() ==> s[i] == '\n',
    ensures
        spec_find_nl(s) == i,
    decreases s.len(),
{
    if s.len() > 0 && s[0] != '\n' {
        assert(forall|m: int| 0 <= m < i - 1 ==> s.drop_first()[m] != '\n');
        lemma_find_nl_exact(s.drop_first(), i - 1);
    }
}

/// A line with its trailing carriage return removed.
pub open spec fn spec_strip_cr(l: Seq<char>) -> Seq<char> {
    if l.len() > 0 && l.last() == '\r' {
        l.drop_last()
    } else {
        l
    }
}

/// Whether a playlist line carries an entry: non-blank and no comment.
pub open spec fn spec_line_kept(l: Seq<char>) -> bool {
    l.len() > 0 && l[0] != '#'
}

/// The entries of a playlist file: its lines, carriage returns stripped,
/// blank lines and `#` comments dropped, in file order.
pub open spec fn spec_decode(s: Seq<char>) -> Seq<Seq<char>>
    decreases s.len(),
{
    if s.len() == 0 {
        Seq::<Seq<char>>::empty()
    } else {
        let i = spec_find_nl(s);
        let line = spec_strip_cr(s.take(i));
        let kept: Seq<Seq<char>> = if spec_line_kept(line) {
            seq![line]
        } else {
            Seq::<Seq<char>>::empty()
        };
        if 0 <= i < s.len() {
            kept + spec_decode(s.skip(i + 1))
        } else {
            kept
        }
    }
}

/// Splits a playlist file into its entry lines.
pub fn decode_playlist(text: &str) -> (r: Vec<String>)
    ensures
        r@.len() == spec_decode(text@).len(),
        forall|m: int| 0 <= m < r@.len() ==> r@[m]@ == spec_decode(text@)[m],
{
    let len: usize = text.unicode_len();
    let mut out: Vec<String> = Vec::new();
    let mut start: usize = 0;
    let ghost full: Seq<char> = text@;
    proof {
        assert(full.skip(0) =~= full);
    }
    while start < len
        invariant
            0 <= start <= len,
            len == full.len(),
            full == text@,
            spec_decode(full).len() == out@.len() + spec_decode(full.skip(start as int)).len(),
            forall|m: int| 0 <= m < out@.len() ==> #[trigger] spec_decode(full)[m] == out@[m]@,
            forall|m: int|
                0 <= m < spec_decode(full.skip(start as int)).len() ==> #[trigger] spec_decode(
                    full,
                )[out@.len() + m] == spec_decode(full.skip(start as int))[m],
        decreases len - start,
    {
        let ghost tail: Seq<char> = full.skip(start as int);
        let mut j: usize = start;
        while j < len && text.get_char(j) != '\n'
            invariant
                start <= j <= len,
                len == full.len(),
                full == text@,
                forall|m: int| start <= m < j ==> full[m] != '\n',
            decreases len - j,
        {
            j += 1;
        }
        proof {
            assert(forall|m: int| 0 <= m < j - start ==> tail[m] != '\n');
            if j < len {
                assert(tail[j - start] == '\n');
            }
            lemma_find_nl_exact(tail, j - start);
        }
        let line_end: usize = if j > start && text.get_char(j - 1) == '\r' {
            j - 1
        } else {
            j
        };
        let ghost line: Seq<char> = full.subrange(start as int, line_end as int);
        proof {
            assert(tail.take(j - start) =~= full.subrange(start as int, j as int));
            if j > start && full[j - 1] == '\r' {
                assert(tail.take(j - start).last() == '\r');
                assert(spec_strip_cr(tail.take(j - start)) =~= line);
            } else {
                assert(spec_strip_cr(tail.take(j - start)) =~= line);
            }
        }
        let keep: bool = line_end > start && text.get_char(start) != '#';
        let ghost kept_lines: Seq<Seq<char>> = if keep {
            seq![line]
        } else {
            Seq::<Seq<char>>::empty()
        };
        let next: usize = if j < len {
            j + 1
        } else {
            len
        };
        let ghost old_out: Seq<String> = out@;
        let ghost dtail: Seq<Seq<char>> = spec_decode(tail);
        proof {
            assert(keep == spec_line_kept(line));
            if j < len {
                assert(tail.skip((j - start) + 1) =~= full.skip(next as int));
                assert(dtail == kept_lines + spec_decode(full.skip(next as int)));
            } else {
                assert(full.skip(next as int) =~= full.skip(len as int));
                assert(spec_decode(full.skip(next as int)) =~= Seq::<Seq<char>>::empty());
                assert(dtail =~= kept_lines + spec_decode(full.skip(next as int)));
            }
        }
        if keep {
            let line_str: &str = text.substring_char(start, line_end);
            out.push(line_str.to_owned());
        }
        proof {
            let dnext = spec_decode(full.skip(next as int));
            assert(dtail.len() == kept_lines.len() + dnext.len());
            assert(forall|m: int| 0 <= m < dnext.len() ==> dtail[kept_lines.len() + m] == dnext[m]);
            assert(forall|m: int|
                0 <= m < dtail.len() ==> #[trigger] spec_decode(full)[old_out.len() + m * 1int]
                    == dtail[m]);
            if keep {
                assert(out@.len() == old_out.len() + 1);
                assert(out@[old_out.len() as int]@ == line);
                assert(dtail[0] == line);
                assert(spec_decode(full)[old_out.len() + 0int] == dtail[0]);
                assert forall|m: int| 0 <= m < dnext.len() implies #[trigger] spec_decode(
                    full,
                )[out@.len() + m] == dnext[m] by {
                    assert(spec_decode(full)[old_out.len() + (m + 1int)] == dtail[m + 1]);
                    assert(dtail[kept_lines.len() + m] == dnext[m]);
                    assert(out@.len() + m == old_out.len() + (m + 1));
                }
            } else {
                assert forall|m: int| 0 <= m < dnext.len() implies #[trigger] spec_decode(
                    full,
                )[out@.len() + m] == dnext[m] by {
                    assert(spec_decode(full)[old_out.len() + m * 1int] == dtail[m]);
                    assert(dtail[kept_lines.len() + m] == dnext[m]);
                }
            }
        }
        start = next;
    }
    proof {
        assert(spec_decode(full.skip(start as int)) =~= Seq::<Seq<char>>::empty());
    }
    out
}

/// Where a decoded playlist entry points: `None` for a network scheme;
/// otherwise the path itself when absolute, or the path joined to the
/// playlist's directory, after a `file://` scheme is stripped.
pub open spec fn spec_resolve_entry(decoded: Seq<char>, base: Seq<char>) -> Option<Seq<char>> {
    if is_prefix_of("http"@, decoded) {
        None
    } else {
        let url = if is_prefix_of("file://"@, decoded) {
            decoded.skip("file://"@.len() as int)
        } else {
            decoded
        };
        if url.len() > 0 && url[0] == '/' {
            Some(url)
        } else {
            Some(base + seq!['/'] + url)
        }
    }
}

/// Resolves one already-URL-decoded playlist entry against the
/// playlist's directory.
pub fn resolve_entry(decoded: &str, base: &str) -> (r: Option<String>)
    ensures
        r is Some <==> spec_resolve_entry(decoded@, base@) is Some,
        r is Some ==> r.unwrap()@ == spec_resolve_entry(decoded@, base@).unwrap(),
{
    if crate::strings::str_starts_with(decoded, "http") {
        return None;
    }
    let url: String = if crate::strings::str_starts_with(decoded, "file://") {
        proof {
            reveal_strlit("file://");
        }
        let d_len: usize = decoded.unicode_len();
        decoded.substring_char(7, d_len).to_owned()
    } else {
        decoded.to_owned()
    };
    let url_len: usize = url.as_str().unicode_len();
    if url_len > 0 && url.as_str().get_char(0) == '/' {
        Some(url)
    } else {
        let joined: String = crate::strings::path_join(base, url.as_str());
        Some(joined)
    }
}

/// Resolves one raw playlist entry: URL-decodes it, then resolves the
/// result. `None` when decoding fails or the entry names a network
/// scheme. An entry without percent-escapes is resolved exactly as
/// written.
pub fn playlist_entry_path(item: &str, base: &str) -> (r: Option<String>)
    ensures
        r is Some ==> spec_resolve_entry(url_decoded(item@), base@) == Some(r.unwrap()@),
        percent_free(item@) ==> (r is Some <==> spec_resolve_entry(item@, base@) is Some),
        percent_free(item@) && r is Some ==> Some(r.unwrap()@) == spec_resolve_entry(
            item@,
            base@,
        ),
{
    let decoded: Option<String> = url_decode(item);
    match decoded {
        Some(d) => resolve_entry(d.as_str(), base),
        None => None,
    }
}

/// Whether some kept line of the playlist file, with a supported
/// extension, URL-decodes and resolves to exactly this path.
pub open spec fn resolves_some_line(lines: Seq<Seq<char>>, base: Seq<char>, p: Seq<char>) -> bool {
    exists|k: int|
        0 <= k < lines.len() && spec_filetype_supported(#[trigger] lines[k]) && spec_resolve_entry(
            url_decoded(lines[k]),
            base,
        ) == Some(p)
}

/// The playable paths a playlist file contributes: each kept line whose
/// extension is supported, URL-decoded and resolved against the file's
/// directory, in file order. Every returned path resolves from some
/// line, and a percent-free supported line that resolves is never
/// dropped.
pub fn playlist_file_paths(text: &str, base: &str) -> (r: Vec<String>)
    ensures
        forall|m: int|
            0 <= m < r@.len() ==> resolves_some_line(spec_decode(text@), base@, #[trigger] r@[m]@),
        forall|k: int|
            #![trigger spec_decode(text@)[k]]
            0 <= k < spec_decode(text@).len() && percent_free(spec_decode(text@)[k])
                && spec_filetype_supported(spec_decode(text@)[k]) && spec_resolve_entry(
                spec_decode(text@)[k],
                base@,
            ) is Some ==> exists|m: int|
                0 <= m < r@.len() && #[trigger] r@[m]@ == spec_resolve_entry(
                    spec_decode(text@)[k],
                    base@,
                ).unwrap(),
{
    let ghost lines: Seq<Seq<char>> = spec_decode(text@);
    let entries: Vec<String> = decode_playlist(text);
    let mut out: Vec<String> = Vec::new();
    let mut k: usize = 0;
    let len: usize = entries.len();
    while k < len
        invariant
            0 <= k <= len,
            len == lines.len(),
            lines == spec_decode(text@),
            entries@.len() == lines.len(),
            forall|j: int| 0 <= j < entries@.len() ==> #[trigger] entries@[j]@ == lines[j],
            forall|m: int|
                0 <= m < out@.len() ==> resolves_some_line(lines, base@, #[trigger] out@[m]@),
            forall|j: int|
                #![trigger lines[j]]
                0 <= j < k && percent_free(lines[j]) && spec_filetype_supported(lines[j])
                    && spec_resolve_entry(lines[j], base@) is Some ==> exists|m: int|
                    0 <= m < out@.len() && #[trigger] out@[m]@ == spec_resolve_entry(
                        lines[j],
                        base@,
                    ).unwrap(),
        decreases len - k,
    {
        let ghost prev: Seq<String> = out@;
        let line: &String = &entries[k];
        let mut resolved_here: bool = false;
        if filetype_supported(line.as_str()) {
            let resolved: Option<String> = playlist_entry_path(line.as_str(), base);
            match resolved {
                Some(p) => {
                    out.push(p);
                    resolved_here = true;
                },
                None => {},
            }
        }
        proof {
            if resolved_here {
                assert(spec_filetype_supported(lines[k as int]));
                assert(spec_resolve_entry(url_decoded(lines[k as int]), base@) == Some(
                    out@.last()@,
                ));
                assert(resolves_some_line(lines, base@, out@[out@.len() - 1]@));
            }
            assert forall|m: int|
                0 <= m < out@.len() implies resolves_some_line(
                lines,
                base@,
                #[trigger] out@[m]@,
            ) by {
                if m < prev.len() {
                    assert(out@[m] == prev[m]);
                    assert(resolves_some_line(lines, base@, prev[m]@));
                }
            }
            assert forall|j: int|
                #![trigger lines[j]]
                0 <= j < k + 1 && percent_free(lines[j]) && spec_filetype_supported(lines[j])
                    && spec_resolve_entry(lines[j], base@) is Some implies exists|m: int|
                0 <= m < out@.len() && #[trigger] out@[m]@ == spec_resolve_entry(
                    lines[j],
                    base@,
                ).unwrap() by {
                if j < k {
                    let m0 = choose|m0: int|
                        0 <= m0 < prev.len() && #[trigger] prev[m0]@ == spec_resolve_entry(
                            lines[j],
                            base@,
                        ).unwrap();
                    assert(out@[m0]@ == spec_resolve_entry(lines[j], base@).unwrap());
                } else {
                    assert(resolved_here);
                    assert(Some(out@[out@.len() - 1]@) == spec_resolve_entry(lines[j], base@));
                }
            }
        }
        k += 1;
    }
    out
}

} // verus!
