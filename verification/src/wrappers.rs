//! The few places where the library leans on outside crates: wildcard
//! matching, Unicode lower-casing, URL percent-decoding and random index
//! drawing. Each call is behind one trusted function whose contract states
//! what that crate's documentation and source promise; everything else in
//! the crate is verified against these contracts.
use vstd::prelude::*;
use rand::RngExt;

verus! {

/// Glob matching as the wildcard matcher documents it: `*` stands for any
/// run of characters (also none), `?` for exactly one, any other character
/// for itself, and the pattern must cover the whole text.
pub open spec fn glob_match(p: Seq<char>, t: Seq<char>) -> bool
    decreases p.len(), t.len(),
{
    if p.len() == 0 {
        t.len() == 0
    } else if p[0] == '*' {
        glob_match(p.skip(1), t) || (t.len() > 0 && glob_match(p, t.skip(1)))
    } else if t.len() == 0 {
        false
    } else {
        (p[0] == '?' || p[0] == t[0]) && glob_match(p.skip(1), t.skip(1))
    }
}

/// Relies on wildmatch::WildMatch::new and WildMatch::matches: `?` matches
/// exactly one character, `*` arbitrarily many including none, and the
/// pattern must apply to the entire input.
#[verifier::external_body]
pub fn wild_match(pattern: &str, text: &str) -> (r: bool)
    ensures
        r == glob_match(pattern@, text@),
{
    wildmatch::WildMatch::new(pattern).matches(text)
}

/// What str::to_lowercase returns: a function of the characters alone.
pub uninterp spec fn lower_of(s: Seq<char>) -> Seq<char>;

/// Relies on str::to_lowercase: the lower-cased form per Unicode, depending
/// on nothing but the input characters; empty input stays empty.
#[verifier::external_body]
pub fn lowercase(s: &str) -> (r: String)
    ensures
        r@ == lower_of(s@),
        s@.len() == 0 ==> r@.len() == 0,
{
    s.to_lowercase()
}

/// What urlencoding::decode returns on success: a function of the input
/// characters alone.
pub uninterp spec fn url_decoded(s: Seq<char>) -> Seq<char>;

/// Relies on urlencoding::decode: percent-decoding that assumes UTF-8.
/// An input without `%` is returned unchanged; decoded bytes that are not
/// valid UTF-8 are the one error case.
#[verifier::external_body]
pub fn url_decode(s: &str) -> (r: Option<String>)
    ensures
        r is Some ==> r.unwrap()@ == url_decoded(s@),
        (forall|i: int| 0 <= i < s@.len() ==> s@[i] != '%') ==> r is Some
            && r.unwrap()@ == s@,
{
    match urlencoding::decode(s) {
        Ok(cow) => Some(cow.into_owned()),
        Err(_) => None,
    }
}

/// Relies on rand::rng and RngExt::random_range over `0..n`: an index drawn
/// below `n`. Nothing more can be said of a random draw.
#[verifier::external_body]
pub fn rand_below(n: usize) -> (r: usize)
    requires
        n > 0,
    ensures
        r < n,
{
    rand::rng().random_range(0..n)
}

} // verus!
