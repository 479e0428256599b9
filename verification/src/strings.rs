//! Character-level string helpers used by the playlist, the library tree
//! and the coordinator: prefix/suffix tests, path splitting and decimal
//! formatting, all specified over `Seq<char>` views.
use vstd::prelude::*;

verus! {

/// True when `p@` is a prefix of `s@`.
pub open spec fn is_prefix_of(p: Seq<char>, s: Seq<char>) -> bool {
    p.len() <= s.len() && s.subrange(0, p.len() as int) == p
}

/// True when `p@` is a suffix of `s@`.
pub open spec fn is_suffix_of(p: Seq<char>, s: Seq<char>) -> bool {
    p.len() <= s.len() && s.subrange(s.len() - p.len(), s.len() as int) == p
}

pub fn str_starts_with(s: &str, p: &str) -> (r: bool)
    ensures
        r == is_prefix_of(p@, s@),
{
    let s_len: usize = s.unicode_len();
    let p_len: usize = p.unicode_len();
    if p_len > s_len {
        assert(!is_prefix_of(p@, s@));
        return false;
    }
    let mut i: usize = 0;
    while i < p_len
        invariant
            0 <= i <= p_len <= s_len,
            s_len == s@.len(),
            p_len == p@.len(),
            forall|j: int| 0 <= j < i ==> s@[j] == p@[j],
        decreases p_len - i,
    {
        if s.get_char(i) != p.get_char(i) {
            assert(s@.subrange(0, p@.len() as int)[i as int] != p@[i as int]);
            return false;
        }
        i += 1;
    }
    assert(s@.subrange(0, p@.len() as int) =~= p@);
    true
}

pub fn str_ends_with(s: &str, p: &str) -> (r: bool)
    ensures
        r == is_suffix_of(p@, s@),
{
    let s_len: usize = s.unicode_len();
    let p_len: usize = p.unicode_len();
    if p_len > s_len {
        assert(!is_suffix_of(p@, s@));
        return false;
    }
    let off: usize = s_len - p_len;
    let mut i: usize = 0;
    while i < p_len
        invariant
            0 <= i <= p_len <= s_len,
            off == s_len - p_len,
            s_len == s@.len(),
            p_len == p@.len(),
            forall|j: int| 0 <= j < i ==> s@[off + j] == p@[j],
        decreases p_len - i,
    {
        if s.get_char(off + i) != p.get_char(i) {
            assert(s@.subrange(s@.len() - p@.len(), s@.len() as int)[i as int] != p@[i as int]);
            return false;
        }
        i += 1;
    }
    assert(s@.subrange(s@.len() - p@.len(), s@.len() as int) =~= p@);
    true
}

/// Lower-cased form of an ASCII letter; any other character is unchanged.
pub open spec fn spec_lower_char(c: char) -> char {
    if 'A' <= c && c <= 'Z' {
        ((c as u8) + 32) as char
    } else {
        c
    }
}

/// Character-wise ASCII lower-casing of a sequence.
pub open spec fn spec_lower(s: Seq<char>) -> Seq<char> {
    s.map_values(|c: char| spec_lower_char(c))
}

pub fn lower_char(c: char) -> (r: char)
    ensures
        r == spec_lower_char(c),
{
    if 'A' <= c && c <= 'Z' {
        (((c as u8) + 32) as char)
    } else {
        c
    }
}

/// Index just past the last `/` of `s`, or 0 when `s` has none.
pub open spec fn spec_after_last_slash(s: Seq<char>) -> int
    decreases s.len(),
{
    if s.len() == 0 {
        0
    } else if s[s.len() - 1] == '/' {
        s.len() as int
    } else {
        spec_after_last_slash(s.drop_last())
    }
}

proof fn lemma_after_last_slash_bounds(s: Seq<char>)
    ensures
        0 <= spec_after_last_slash(s) <= s.len(),
        forall|j: int| spec_after_last_slash(s) <= j < s.len() ==> s[j] != '/',
        spec_after_last_slash(s) > 0 ==> s[spec_after_last_slash(s) - 1] == '/',
    decreases s.len(),
{
    if s.len() > 0 && s[s.len() - 1] != '/' {
        lemma_after_last_slash_bounds(s.drop_last());
        assert(forall|j: int| spec_after_last_slash(s) <= j < s.len() - 1 ==> s.drop_last()[j]
            == s[j]);
    }
}

/// Everything after the last `/` of `s` (the whole of `s` when it has none).
pub open spec fn spec_file_name(s: Seq<char>) -> Seq<char> {
    s.subrange(spec_after_last_slash(s), s.len() as int)
}

/// The portion of `s` before its last `/`: `None` when `s` holds no `/` or
/// is the single segment `/`; the root `/` keeps itself as parent.
pub open spec fn spec_parent(s: Seq<char>) -> Option<Seq<char>> {
    let cut = spec_after_last_slash(s);
    if cut == 0 || s.len() == 1 {
        None
    } else if cut == 1 {
        Some(s.subrange(0, 1))
    } else {
        Some(s.subrange(0, cut - 1))
    }
}

/// Position just past the last slash, found by a right-to-left scan.
pub fn after_last_slash(s: &str) -> (r: usize)
    ensures
        r == spec_after_last_slash(s@),
{
    let len: usize = s.unicode_len();
    let mut i: usize = len;
    assert(s@.subrange(0, len as int) =~= s@);
    while i > 0
        invariant
            0 <= i <= len,
            len == s@.len(),
            spec_after_last_slash(s@) == spec_after_last_slash(s@.subrange(0, i as int)),
        decreases i,
    {
        assert(s@.subrange(0, i as int).drop_last() =~= s@.subrange(0, i - 1));
        if s.get_char(i - 1) == '/' {
            assert(spec_after_last_slash(s@.subrange(0, i as int)) == i);
            return i;
        }
        i -= 1;
    }
    assert(s@.subrange(0, 0) =~= Seq::<char>::empty());
    0
}

/// File-name component of a path: what follows the last `/`.
pub fn path_file_name(s: &str) -> (r: String)
    ensures
        r@ == spec_file_name(s@),
{
    let len: usize = s.unicode_len();
    let cut: usize = after_last_slash(s);
    proof {
        lemma_after_last_slash_bounds(s@);
    }
    let tail: &str = s.substring_char(cut, len);
    tail.to_owned()
}

/// Parent directory of a path, mirroring how the player steps out of a
/// directory: strip the last `/`-separated component.
pub fn path_parent(s: &str) -> (r: Option<String>)
    ensures
        r is Some <==> spec_parent(s@) is Some,
        r is Some ==> r.unwrap()@ == spec_parent(s@).unwrap(),
{
    let len: usize = s.unicode_len();
    let cut: usize = after_last_slash(s);
    proof {
        lemma_after_last_slash_bounds(s@);
    }
    if cut == 0 || len == 1 {
        None
    } else if cut == 1 {
        Some(s.substring_char(0, 1).to_owned())
    } else {
        Some(s.substring_char(0, cut - 1).to_owned())
    }
}

/// `base` and `rel` joined with a single `/`.
pub fn path_join(base: &str, rel: &str) -> (r: String)
    ensures
        r@ == base@ + seq!['/'] + rel@,
{
    let mut out: String = base.to_owned();
    out.append("/");
    out.append(rel);
    proof {
        reveal_strlit("/");
        assert(out@ =~= base@ + seq!['/'] + rel@);
    }
    out
}

/// The decimal digit character for `d` (< 10).
pub open spec fn spec_digit(d: int) -> char {
    if d == 0 { '0' }
    else if d == 1 { '1' }
    else if d == 2 { '2' }
    else if d == 3 { '3' }
    else if d == 4 { '4' }
    else if d == 5 { '5' }
    else if d == 6 { '6' }
    else if d == 7 { '7' }
    else if d == 8 { '8' }
    else { '9' }
}

/// Decimal digit string of `n`, most significant digit first.
pub open spec fn spec_dec(n: int) -> Seq<char>
    decreases n,
{
    if n < 10 {
        seq![spec_digit(n)]
    } else {
        spec_dec(n / 10) + seq![spec_digit(n % 10)]
    }
}

fn digit_str(d: u64) -> (r: &'static str)
    requires
        d < 10,
    ensures
        r@ =~= seq![spec_digit(d as int)],
{
    proof {
        reveal_strlit("0");
        reveal_strlit("1");
        reveal_strlit("2");
        reveal_strlit("3");
        reveal_strlit("4");
        reveal_strlit("5");
        reveal_strlit("6");
        reveal_strlit("7");
        reveal_strlit("8");
        reveal_strlit("9");
    }
    if d == 0 { "0" }
    else if d == 1 { "1" }
    else if d == 2 { "2" }
    else if d == 3 { "3" }
    else if d == 4 { "4" }
    else if d == 5 { "5" }
    else if d == 6 { "6" }
    else if d == 7 { "7" }
    else if d == 8 { "8" }
    else { "9" }
}

/// Decimal rendering of an unsigned number.
pub fn u64_to_dec(n: u64) -> (r: String)
    ensures
        r@ == spec_dec(n as int),
    decreases n,
{
    if n < 10 {
        digit_str(n).to_owned()
    } else {
        let mut out: String = u64_to_dec(n / 10);
        out.append(digit_str(n % 10));
        out
    }
}

/// Decimal rendering padded on the left with `0` to two places.
pub fn u64_to_dec2(n: u64) -> (r: String)
    ensures
        n < 10 ==> r@ == seq!['0'] + spec_dec(n as int),
        n >= 10 ==> r@ == spec_dec(n as int),
{
    if n < 10 {
        let mut out: String = digit_str(0).to_owned();
        out.append(digit_str(n));
        out
    } else {
        u64_to_dec(n)
    }
}

} // verus!
