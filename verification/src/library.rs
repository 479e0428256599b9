//! The library tree: nodes identified by canonical path, children sorted
//! by a case-folded sort key, depth-bounded construction from a raw
//! filesystem snapshot, and the route machinery that keeps the cursor on
//! an existing node across rebuilds.
use vstd::prelude::*;
use vstd::relations::sorted_by;
use vstd::multiset::Multiset;
use crate::strings::{spec_lower, lower_char};

verus! {

/// A raw directory listing as the filesystem reports it: unfiltered,
/// unsorted, not depth-limited. The scanner never reads the disk itself;
/// it is handed one of these.
pub struct FsNode {
    /// Canonical path of the entry.
    pub path: String,
    /// Last path component.
    pub name: String,
    pub is_dir: bool,
    pub children: Vec<FsNode>,
}

/// One node of the built library tree. Built fresh on every scan and
/// never mutated in place.
pub struct Node {
    /// Canonical path, the rebuild-stable identifier.
    pub id: String,
    /// Display name.
    pub name: String,
    pub is_dir: bool,
    pub children: Vec<Node>,
}

/// Whether some node of the tree carries this identifier.
pub open spec fn contains_id(n: Node, id: Seq<char>) -> bool
    decreases n,
{
    n.id@ == id || exists|i: int|
        0 <= i < n.children@.len() && contains_id(#[trigger] n.children@[i], id)
}

/// The node a child-index route leads to, if every index is in range.
pub open spec fn spec_node_by_route(n: Node, route: Seq<usize>) -> Option<Node>
    decreases route.len(),
{
    if route.len() == 0 {
        Some(n)
    } else if route[0] < n.children@.len() {
        spec_node_by_route(n.children@[route[0] as int], route.skip(1))
    } else {
        None
    }
}

/// Resolves a child-index route, the position-stable handle that
/// survives a rebuild.
pub fn node_by_route<'a>(n: &'a Node, route: &Vec<usize>) -> (r: Option<&'a Node>)
    ensures
        match r {
            Some(found) => spec_node_by_route(*n, route@) == Some(*found),
            None => spec_node_by_route(*n, route@) is None,
        },
{
    let mut cur: &'a Node = n;
    let mut i: usize = 0;
    let len: usize = route.len();
    assert(route@.skip(0) =~= route@);
    while i < len
        invariant
            0 <= i <= len,
            len == route@.len(),
            spec_node_by_route(*n, route@) == spec_node_by_route(*cur, route@.skip(i as int)),
        decreases len - i,
    {
        let idx: usize = route[i];
        if idx < cur.children.len() {
            proof {
                assert(route@.skip(i as int)[0] == route@[i as int]);
                assert(route@.skip(i as int).skip(1) =~= route@.skip(i + 1));
            }
            cur = &cur.children[idx];
        } else {
            proof {
                assert(route@.skip(i as int)[0] == route@[i as int]);
            }
            return None;
        }
        i += 1;
    }
    proof {
        assert(route@.skip(len as int) =~= Seq::<usize>::empty());
    }
    Some(cur)
}

/// Searches the tree for a node with the given identifier and returns a
/// route to it: a route is returned exactly when the identifier occurs.
pub fn find_route(n: &Node, id: &str) -> (r: Option<Vec<usize>>)
    ensures
        match r {
            Some(route) => {
                &&& spec_node_by_route(*n, route@) is Some
                &&& spec_node_by_route(*n, route@).unwrap().id@ == id@
            },
            None => !contains_id(*n, id@),
        },
    decreases *n,
{
    if str_eq(n.id.as_str(), id) {
        return Some(Vec::new());
    }
    let mut i: usize = 0;
    let len: usize = n.children.len();
    while i < len
        invariant
            0 <= i <= len,
            len == n.children@.len(),
            forall|k: int| 0 <= k < i ==> !contains_id(#[trigger] n.children@[k], id@),
        decreases len - i,
    {
        let sub: Option<Vec<usize>> = find_route(&n.children[i], id);
        match sub {
            Some(tail) => {
                let mut route: Vec<usize> = Vec::new();
                route.push(i);
                let mut j: usize = 0;
                let tail_len: usize = tail.len();
                while j < tail_len
                    invariant
                        0 <= j <= tail_len,
                        tail_len == tail@.len(),
                        route@ =~= seq![i as usize] + tail@.take(j as int),
                    decreases tail_len - j,
                {
                    route.push(tail[j]);
                    proof {
                        assert(route@ =~= seq![i as usize] + tail@.take(j + 1));
                    }
                    j += 1;
                }
                proof {
                    assert(route@ =~= seq![i as usize] + tail@);
                    assert(route@.skip(1) =~= tail@);
                }
                return Some(route);
            },
            None => {},
        }
        i += 1;
    }
    proof {
        assert(!contains_id(*n, id@));
    }
    None
}

/// Character-for-character equality of two strings.
pub fn str_eq(a: &str, b: &str) -> (r: bool)
    ensures
        r == (a@ == b@),
{
    let a_len: usize = a.unicode_len();
    let b_len: usize = b.unicode_len();
    if a_len != b_len {
        return false;
    }
    let mut i: usize = 0;
    while i < a_len
        invariant
            0 <= i <= a_len,
            a_len == a@.len(),
            a_len == b@.len(),
            forall|j: int| 0 <= j < i ==> a@[j] == b@[j],
        decreases a_len - i,
    {
        if a.get_char(i) != b.get_char(i) {
            assert(a@ != b@);
            return false;
        }
        i += 1;
    }
    proof {
        assert(a@ =~= b@);
    }
    true
}

/// The route with its last index decremented, the first refocus fallback
/// after a deletion: select the sibling that now occupies the spot.
pub open spec fn spec_dec_last(route: Seq<usize>) -> Seq<usize>
    recommends
        route.len() > 0,
{
    if route.len() > 0 && route.last() > 0 {
        route.update(route.len() - 1, (route.last() - 1) as usize)
    } else {
        route
    }
}

/// Where the cursor lands after a structural change, given the route the
/// removed node had in the old tree. Tiers: the exact route in the new
/// tree; then the route with its last index decremented; then the route
/// truncated by one level (the parent). `None` only when all three miss.
pub fn refocus_id(root: &Node, route: &Vec<usize>) -> (r: Option<String>)
    ensures
        match spec_node_by_route(*root, route@) {
            Some(n) => r is Some && r.unwrap()@ == n.id@,
            None => match spec_node_by_route(*root, spec_dec_last(route@)) {
                Some(n) => r is Some && r.unwrap()@ == n.id@,
                None => {
                    if route@.len() > 0 {
                        match spec_node_by_route(*root, route@.drop_last()) {
                            Some(n) => r is Some && r.unwrap()@ == n.id@,
                            None => r is None,
                        }
                    } else {
                        r is None
                    }
                },
            },
        },
{
    match node_by_route(root, route) {
        Some(n) => {
            return Some(n.id.clone());
        },
        None => {},
    }
    let len: usize = route.len();
    if len == 0 {
        // an empty route always resolves to the root, so this is not
        // reached; it only completes the case analysis
        return None;
    }
    let last: usize = route[len - 1];
    let mut dec: Vec<usize> = route.clone();
    if last > 0 {
        dec.set(len - 1, last - 1);
        proof {
            assert(dec@ =~= spec_dec_last(route@));
        }
    } else {
        proof {
            assert(dec@ =~= spec_dec_last(route@));
        }
    }
    match node_by_route(root, &dec) {
        Some(n) => {
            return Some(n.id.clone());
        },
        None => {},
    }
    let mut parent: Vec<usize> = route.clone();
    parent.truncate(len - 1);
    proof {
        assert(parent@ =~= route@.drop_last());
    }
    match node_by_route(root, &parent) {
        Some(n) => Some(n.id.clone()),
        None => None,
    }
}

/// Lexicographic order on character sequences, by code point.
pub open spec fn lex_le(a: Seq<char>, b: Seq<char>) -> bool
    decreases a.len(),
{
    if a.len() == 0 {
        true
    } else if b.len() == 0 {
        false
    } else if (a[0] as u32) < (b[0] as u32) {
        true
    } else if (a[0] as u32) > (b[0] as u32) {
        false
    } else {
        lex_le(a.drop_first(), b.drop_first())
    }
}

/// The sort key of a sibling name: its case-folded form, so that names
/// differing only in case sort together and the order is reproduced
/// identically on every scan of an unchanged directory.
pub open spec fn spec_sort_key(name: Seq<char>) -> Seq<char> {
    spec_lower(name)
}

/// Sibling order: sort keys compared lexicographically.
pub open spec fn node_le(x: FsNode, y: FsNode) -> bool {
    lex_le(spec_sort_key(x.name@), spec_sort_key(y.name@))
}

pub proof fn lemma_lex_le_total(a: Seq<char>, b: Seq<char>)
    ensures
        lex_le(a, b) || lex_le(b, a),
    decreases a.len(),
{
    if a.len() > 0 && b.len() > 0 && (a[0] as u32) == (b[0] as u32) {
        lemma_lex_le_total(a.drop_first(), b.drop_first());
    }
}

pub proof fn lemma_lex_le_trans(a: Seq<char>, b: Seq<char>, c: Seq<char>)
    requires
        lex_le(a, b),
        lex_le(b, c),
    ensures
        lex_le(a, c),
    decreases a.len(),
{
    if a.len() > 0 && b.len() > 0 && c.len() > 0 && (a[0] as u32) == (b[0] as u32) && (b[0] as u32)
        == (c[0] as u32) {
        lemma_lex_le_trans(a.drop_first(), b.drop_first(), c.drop_first());
    }
}

/// Compares two sibling names by their sort keys.
pub fn name_key_le(a: &str, b: &str) -> (r: bool)
    ensures
        r == lex_le(spec_sort_key(a@), spec_sort_key(b@)),
{
    let a_len: usize = a.unicode_len();
    let b_len: usize = b.unicode_len();
    let ghost ka: Seq<char> = spec_sort_key(a@);
    let ghost kb: Seq<char> = spec_sort_key(b@);
    let mut i: usize = 0;
    proof {
        assert(ka.skip(0) =~= ka);
        assert(kb.skip(0) =~= kb);
    }
    while i < a_len && i < b_len
        invariant
            0 <= i <= a_len,
            0 <= i <= b_len,
            a_len == a@.len(),
            b_len == b@.len(),
            ka.len() == a_len,
            kb.len() == b_len,
            ka == spec_sort_key(a@),
            kb == spec_sort_key(b@),
            lex_le(ka, kb) == lex_le(ka.skip(i as int), kb.skip(i as int)),
        decreases a_len - i,
    {
        let ca: char = lower_char(a.get_char(i));
        let cb: char = lower_char(b.get_char(i));
        proof {
            assert(ka.skip(i as int)[0] == ka[i as int]);
            assert(kb.skip(i as int)[0] == kb[i as int]);
            assert(ka[i as int] == ca);
            assert(kb[i as int] == cb);
        }
        if (ca as u32) < (cb as u32) {
            return true;
        }
        if (ca as u32) > (cb as u32) {
            return false;
        }
        proof {
            assert(ka.skip(i as int).drop_first() =~= ka.skip(i + 1));
            assert(kb.skip(i as int).drop_first() =~= kb.skip(i + 1));
        }
        i += 1;
    }
    if i >= a_len {
        proof {
            assert(ka.skip(i as int).len() == 0);
        }
        true
    } else {
        proof {
            assert(kb.skip(i as int).len() == 0);
            assert(ka.skip(i as int).len() > 0);
        }
        false
    }
}

/// `x` placed into `s` after every entry whose key is less than or equal
/// to its own: the stable insertion step.
pub open spec fn spec_insert_sorted(s: Seq<FsNode>, x: FsNode) -> Seq<FsNode>
    decreases s.len(),
{
    if s.len() == 0 {
        seq![x]
    } else if node_le(s.last(), x) {
        s.push(x)
    } else {
        spec_insert_sorted(s.drop_last(), x).push(s.last())
    }
}

/// Stable insertion sort of sibling entries by their sort keys.
pub open spec fn spec_sort(s: Seq<FsNode>) -> Seq<FsNode>
    decreases s.len(),
{
    if s.len() == 0 {
        s
    } else {
        spec_insert_sorted(spec_sort(s.drop_last()), s.last())
    }
}

/// Where the insertion step puts `x` in a sorted sequence: at the
/// position after every entry that compares at-most-equal, before every
/// entry that compares strictly greater.
proof fn lemma_insert_sorted_split(s: Seq<FsNode>, x: FsNode) -> (p: int)
    ensures
        0 <= p <= s.len(),
        spec_insert_sorted(s, x) =~= s.take(p) + seq![x] + s.skip(p),
        forall|m: int| p <= m < s.len() ==> !node_le(#[trigger] s[m], x),
        p > 0 ==> node_le(s[p - 1], x),
    decreases s.len(),
{
    if s.len() == 0 {
        assert(spec_insert_sorted(s, x) =~= s.take(0) + seq![x] + s.skip(0));
        0
    } else if node_le(s.last(), x) {
        assert(spec_insert_sorted(s, x) =~= s.take(s.len() as int) + seq![x] + s.skip(
            s.len() as int,
        ));
        s.len() as int
    } else {
        let p = lemma_insert_sorted_split(s.drop_last(), x);
        assert(spec_insert_sorted(s, x) =~= s.take(p) + seq![x] + s.skip(p)) by {
            assert(s.drop_last().take(p) =~= s.take(p));
            assert(spec_insert_sorted(s.drop_last(), x).push(s.last()) =~= (s.drop_last().take(p)
                + seq![x] + s.drop_last().skip(p)).push(s.last()));
            assert((s.drop_last().take(p) + seq![x] + s.drop_last().skip(p)).push(s.last())
                =~= s.take(p) + seq![x] + s.skip(p));
        }
        assert(forall|m: int| p <= m < s.len() - 1 ==> !node_le(#[trigger] s.drop_last()[m], x));
        assert(forall|m: int| p <= m < s.len() - 1 ==> s.drop_last()[m] == s[m]);
        p
    }
}

/// The insertion step keeps a sorted sequence sorted and adds exactly
/// the inserted entry.
proof fn lemma_insert_sorted_props(s: Seq<FsNode>, x: FsNode)
    requires
        sorted_by(s, |a: FsNode, b: FsNode| node_le(a, b)),
    ensures
        sorted_by(spec_insert_sorted(s, x), |a: FsNode, b: FsNode| node_le(a, b)),
        spec_insert_sorted(s, x).to_multiset() =~= s.to_multiset().insert(x),
        spec_insert_sorted(s, x).len() == s.len() + 1,
{
    broadcast use vstd::seq_lib::group_to_multiset_ensures;

    let leq = |a: FsNode, b: FsNode| node_le(a, b);
    let p = lemma_insert_sorted_split(s, x);
    let r = spec_insert_sorted(s, x);
    assert forall|i: int, j: int| 0 <= i < j < r.len() implies leq(r[i], r[j]) by {
        if i < p && j < p {
            assert(r[i] == s[i] && r[j] == s[j]);
        } else if i < p && j == p {
            assert(r[i] == s[i] && r[j] == x);
            if i == p - 1 {
                assert(node_le(s[p - 1], x));
            } else {
                assert(leq(s[i], s[p - 1]));
                lemma_lex_le_trans(
                    spec_sort_key(s[i].name@),
                    spec_sort_key(s[p - 1].name@),
                    spec_sort_key(x.name@),
                );
            }
        } else if i < p && j > p {
            assert(r[i] == s[i] && r[j] == s[j - 1]);
        } else if i == p && j > p {
            assert(r[i] == x && r[j] == s[j - 1]);
            lemma_lex_le_total(
                spec_sort_key(s[j - 1].name@),
                spec_sort_key(x.name@),
            );
            assert(!node_le(s[j - 1], x));
        } else {
            assert(i > p && j > p);
            assert(r[i] == s[i - 1] && r[j] == s[j - 1]);
        }
    }
    assert(r.to_multiset() =~= s.to_multiset().insert(x)) by {
        assert(r =~= (s.take(p) + seq![x]) + s.skip(p));
        vstd::seq_lib::lemma_multiset_commutative(s.take(p) + seq![x], s.skip(p));
        vstd::seq_lib::lemma_multiset_commutative(s.take(p), seq![x]);
        vstd::seq_lib::lemma_multiset_commutative(s.take(p), s.skip(p));
        assert(s.take(p) + s.skip(p) =~= s);
        assert(seq![x].to_multiset() =~= Multiset::<FsNode>::empty().insert(x)) by {
            assert(seq![x].drop_first() =~= Seq::<FsNode>::empty());
        }
    }
}

/// The sort returns a sorted permutation of its input.
pub proof fn lemma_sort_props(s: Seq<FsNode>)
    ensures
        sorted_by(spec_sort(s), |a: FsNode, b: FsNode| node_le(a, b)),
        spec_sort(s).to_multiset() =~= s.to_multiset(),
        spec_sort(s).len() == s.len(),
    decreases s.len(),
{
    broadcast use vstd::seq_lib::group_to_multiset_ensures;

    if s.len() == 0 {
    } else {
        lemma_sort_props(s.drop_last());
        lemma_insert_sorted_props(spec_sort(s.drop_last()), s.last());
        assert(s.drop_last().push(s.last()) =~= s);
        assert(s.drop_last().to_multiset().insert(s.last()) =~= s.to_multiset()) by {
            assert(s.drop_last().push(s.last()).to_multiset() =~= s.drop_last().to_multiset()
                .insert(s.last()));
        }
    }
}

/// Stability of the sibling sort: when two entries carry equal sort
/// keys, the earlier one ends up at an earlier position. (With the
/// entries of one directory, which are pairwise distinct, this is
/// exactly stability.)
pub proof fn lemma_sort_stable(s: Seq<FsNode>, i: int, j: int)
    requires
        0 <= i < j < s.len(),
        node_le(s[i], s[j]),
        node_le(s[j], s[i]),
    ensures
        exists|pi: int, pj: int|
            #![trigger spec_sort(s)[pi], spec_sort(s)[pj]]
            0 <= pi < pj < spec_sort(s).len() && spec_sort(s)[pi] == s[i] && spec_sort(s)[pj]
                == s[j],
    decreases s.len(),
{
    broadcast use vstd::seq_lib::group_to_multiset_ensures;

    let dl = s.drop_last();
    let x = s.last();
    let sorted_dl = spec_sort(dl);
    lemma_sort_props(dl);
    let p = lemma_insert_sorted_split(sorted_dl, x);
    let r = spec_sort(s);
    assert(r == spec_insert_sorted(sorted_dl, x));
    if j == s.len() - 1 {
        // the later entry is the one being inserted; the earlier one is
        // already placed and cannot sit at or after the insertion point,
        // where every key is strictly greater
        assert(dl[i] == s[i]);
        assert(dl.contains(s[i]));
        assert(sorted_dl.to_multiset().count(s[i]) > 0);
        assert(sorted_dl.contains(s[i]));
        let q = choose|q: int| 0 <= q < sorted_dl.len() && sorted_dl[q] == s[i];
        assert(q < p) by {
            if q >= p {
                assert(!node_le(sorted_dl[q], x));
            }
        }
        assert(r[q] == s[i]);
        assert(r[p] == x);
        assert(0 <= q < p < r.len() && r[q] == s[i] && r[p] == s[j]);
    } else {
        assert(dl[i] == s[i] && dl[j] == s[j]);
        lemma_sort_stable(dl, i, j);
        let (qi, qj): (int, int) = choose|qi: int, qj: int|
            #![trigger sorted_dl[qi], sorted_dl[qj]]
            0 <= qi < qj < sorted_dl.len() && sorted_dl[qi] == dl[i] && sorted_dl[qj] == dl[j];
        let ri = if qi < p { qi } else { qi + 1 };
        let rj = if qj < p { qj } else { qj + 1 };
        assert(r[ri] == sorted_dl[qi] && r[rj] == sorted_dl[qj]);
        assert(0 <= ri < rj < r.len() && r[ri] == s[i] && r[rj] == s[j]);
    }
}

/// Places one entry into an already-built prefix, after every entry
/// whose key is at most its own.
fn insert_node_sorted(v: &mut Vec<FsNode>, x: FsNode)
    ensures
        final(v)@ == spec_insert_sorted(old(v)@, x),
    decreases old(v)@.len(),
{
    let len: usize = v.len();
    if len == 0 {
        v.push(x);
        proof {
            assert(v@ =~= seq![x]);
        }
        return;
    }
    if name_key_le(v[len - 1].name.as_str(), x.name.as_str()) {
        v.push(x);
    } else {
        let last: Option<FsNode> = v.pop();
        match last {
            Some(tail) => {
                proof {
                    assert(v@ =~= old(v)@.drop_last());
                }
                insert_node_sorted(v, x);
                v.push(tail);
            },
            None => {},
        }
    }
}

/// Sorts sibling entries by their case-folded keys, stably.
pub fn sort_fs_nodes(v: Vec<FsNode>) -> (r: Vec<FsNode>)
    ensures
        r@ == spec_sort(v@),
{
    let ghost orig: Seq<FsNode> = v@;
    let mut src: Vec<FsNode> = v;
    let mut out: Vec<FsNode> = Vec::new();
    let mut i: usize = 0;
    let len: usize = src.len();
    proof {
        assert(orig.take(0) =~= Seq::<FsNode>::empty());
        assert(src@ =~= orig.skip(0));
    }
    while i < len
        invariant
            0 <= i <= len,
            len == orig.len(),
            src@ =~= orig.skip(i as int),
            out@ == spec_sort(orig.take(i as int)),
        decreases len - i,
    {
        let x: FsNode = src.remove(0);
        proof {
            assert(x == orig[i as int]);
            assert(src@ =~= orig.skip(i + 1));
            assert(orig.take(i + 1).drop_last() =~= orig.take(i as int));
            assert(orig.take(i + 1).last() == orig[i as int]);
        }
        insert_node_sorted(&mut out, x);
        i += 1;
    }
    proof {
        assert(orig.take(len as int) =~= orig);
    }
    out
}

/// Whether a directory entry is shown: dotfiles are filtered out.
pub open spec fn spec_entry_visible(e: FsNode) -> bool {
    !(e.name@.len() > 0 && e.name@[0] == '.')
}

/// The visible entries of a listing, in listing order.
pub open spec fn spec_visible(s: Seq<FsNode>) -> Seq<FsNode>
    decreases s.len(),
{
    if s.len() == 0 {
        Seq::<FsNode>::empty()
    } else if spec_entry_visible(s.last()) {
        spec_visible(s.drop_last()) + seq![s.last()]
    } else {
        spec_visible(s.drop_last())
    }
}

fn entry_visible(e: &FsNode) -> (r: bool)
    ensures
        r == spec_entry_visible(*e),
{
    let len: usize = e.name.as_str().unicode_len();
    if len == 0 {
        return true;
    }
    e.name.as_str().get_char(0) != '.'
}

/// The tree a scan must build below one raw listing: same identifier,
/// name and directory flag; no children at depth zero or below a file;
/// otherwise one child per visible entry, in sorted order, each built
/// with one level less.
pub open spec fn scan_ok(src: FsNode, depth: nat, out: Node) -> bool
    decreases depth,
{
    &&& out.id@ == src.path@
    &&& out.name@ == src.name@
    &&& out.is_dir == src.is_dir
    &&& if depth == 0 || !src.is_dir {
        out.children@.len() == 0
    } else {
        let entries = spec_sort(spec_visible(src.children@));
        &&& out.children@.len() == entries.len()
        &&& forall|i: int|
            0 <= i < entries.len() ==> scan_ok(
                entries[i],
                (depth - 1) as nat,
                #[trigger] out.children@[i],
            )
    }
}

/// Builds the library tree from a raw snapshot: dotfiles dropped,
/// siblings sorted by their case-folded keys, and recursion stopped at
/// `depth` levels below the root, whatever the snapshot holds.
pub fn build_tree(src: FsNode, depth: usize) -> (r: Node)
    ensures
        scan_ok(src, depth as nat, r),
    decreases depth,
{
    let ghost gsrc: FsNode = src;
    let FsNode { path, name, is_dir, children } = src;
    if depth == 0 || !is_dir {
        return Node { id: path, name, is_dir, children: Vec::new() };
    }
    let ghost raw: Seq<FsNode> = children@;
    let mut rest: Vec<FsNode> = children;
    let mut vis: Vec<FsNode> = Vec::new();
    let mut i: usize = 0;
    let len: usize = rest.len();
    proof {
        assert(spec_visible(raw.take(0)) =~= Seq::<FsNode>::empty());
        assert(rest@ =~= raw.skip(0));
    }
    while i < len
        invariant
            0 <= i <= len,
            len == raw.len(),
            rest@ =~= raw.skip(i as int),
            vis@ == spec_visible(raw.take(i as int)),
        decreases len - i,
    {
        let e: FsNode = rest.remove(0);
        proof {
            assert(e == raw[i as int]);
            assert(rest@ =~= raw.skip(i + 1));
            assert(raw.take(i + 1).drop_last() =~= raw.take(i as int));
            assert(raw.take(i + 1).last() == raw[i as int]);
        }
        if entry_visible(&e) {
            vis.push(e);
        }
        i += 1;
    }
    proof {
        assert(raw.take(len as int) =~= raw);
    }
    let mut entries: Vec<FsNode> = sort_fs_nodes(vis);
    let ghost sorted: Seq<FsNode> = entries@;
    let mut kids: Vec<Node> = Vec::new();
    let mut k: usize = 0;
    let n_entries: usize = entries.len();
    proof {
        assert(entries@ =~= sorted.skip(0));
    }
    while k < n_entries
        invariant
            0 <= k <= n_entries,
            n_entries == sorted.len(),
            entries@ =~= sorted.skip(k as int),
            kids@.len() == k,
            depth >= 1,
            forall|m: int|
                0 <= m < k ==> scan_ok(sorted[m], (depth - 1) as nat, #[trigger] kids@[m]),
        decreases n_entries - k,
    {
        let e: FsNode = entries.remove(0);
        proof {
            assert(e == sorted[k as int]);
            assert(entries@ =~= sorted.skip(k + 1));
        }
        let child: Node = build_tree(e, depth - 1);
        kids.push(child);
        k += 1;
    }
    Node { id: path, name, is_dir, children: kids }
}

/// The tree reaches at most `h` levels: every child stays within one
/// level less.
pub open spec fn height_le(n: Node, h: int) -> bool
    decreases n,
{
    h >= 1 && forall|i: int|
        0 <= i < n.children@.len() ==> height_le(#[trigger] n.children@[i], h - 1)
}

/// A scan bounded by `depth` yields a tree of at most `depth + 1`
/// levels: the levels beyond the bound are omitted entirely.
pub proof fn lemma_scan_depth(src: FsNode, depth: nat, out: Node)
    requires
        scan_ok(src, depth, out),
    ensures
        height_le(out, depth + 1 as int),
    decreases depth,
{
    if depth == 0 || !src.is_dir {
        assert(out.children@.len() == 0);
    } else {
        let entries = spec_sort(spec_visible(src.children@));
        assert forall|i: int| 0 <= i < out.children@.len() implies height_le(
            #[trigger] out.children@[i],
            depth as int,
        ) by {
            lemma_scan_depth(entries[i], (depth - 1) as nat, out.children@[i]);
        }
    }
}

/// View-level likeness of two trees: same identifiers, names, flags and
/// shape throughout.
pub open spec fn node_like(a: Node, b: Node) -> bool
    decreases a,
{
    &&& a.id@ == b.id@
    &&& a.name@ == b.name@
    &&& a.is_dir == b.is_dir
    &&& a.children@.len() == b.children@.len()
    &&& forall|i: int|
        0 <= i < a.children@.len() ==> node_like(#[trigger] a.children@[i], b.children@[i])
}

/// Scanning is deterministic: two trees built from the same snapshot
/// with the same bound are alike throughout, so repeated scans of an
/// unchanged directory reproduce the same order.
pub proof fn lemma_scan_deterministic(src: FsNode, depth: nat, out1: Node, out2: Node)
    requires
        scan_ok(src, depth, out1),
        scan_ok(src, depth, out2),
    ensures
        node_like(out1, out2),
    decreases depth,
{
    if depth == 0 || !src.is_dir {
    } else {
        let entries = spec_sort(spec_visible(src.children@));
        assert forall|i: int| 0 <= i < out1.children@.len() implies node_like(
            #[trigger] out1.children@[i],
            out2.children@[i],
        ) by {
            lemma_scan_deterministic(
                entries[i],
                (depth - 1) as nat,
                out1.children@[i],
                out2.children@[i],
            );
        }
    }
}

/// The file entries of a listing after the sibling sort, by path: what
/// adding a whole directory appends to the playlist.
pub open spec fn spec_nondir_paths(s: Seq<FsNode>) -> Seq<Seq<char>>
    decreases s.len(),
{
    if s.len() == 0 {
        Seq::<Seq<char>>::empty()
    } else if !s.last().is_dir {
        spec_nondir_paths(s.drop_last()) + seq![s.last().path@]
    } else {
        spec_nondir_paths(s.drop_last())
    }
}

/// The paths of the non-directory entries of one listing, sorted by the
/// sibling order. Mirrors how a directory is expanded (non-recursively)
/// when added to the playlist.
pub fn dir_children(src: FsNode) -> (r: Vec<String>)
    ensures
        r@.len() == spec_nondir_paths(spec_sort(src.children@)).len(),
        forall|i: int|
            0 <= i < r@.len() ==> r@[i]@ == spec_nondir_paths(spec_sort(src.children@))[i],
{
    let FsNode { path: _, name: _, is_dir: _, children } = src;
    let ghost raw: Seq<FsNode> = children@;
    let mut entries: Vec<FsNode> = sort_fs_nodes(children);
    let ghost sorted: Seq<FsNode> = entries@;
    let ghost target: Seq<Seq<char>> = spec_nondir_paths(sorted);
    let mut out: Vec<String> = Vec::new();
    let mut i: usize = 0;
    let len: usize = entries.len();
    proof {
        assert(spec_nondir_paths(sorted.take(0)) =~= Seq::<Seq<char>>::empty());
        assert(entries@ =~= sorted.skip(0));
    }
    while i < len
        invariant
            0 <= i <= len,
            len == sorted.len(),
            entries@ =~= sorted.skip(i as int),
            out@.len() == spec_nondir_paths(sorted.take(i as int)).len(),
            forall|m: int|
                0 <= m < out@.len() ==> out@[m]@ == spec_nondir_paths(sorted.take(i as int))[m],
        decreases len - i,
    {
        let e: FsNode = entries.remove(0);
        proof {
            assert(e == sorted[i as int]);
            assert(entries@ =~= sorted.skip(i + 1));
            assert(sorted.take(i + 1).drop_last() =~= sorted.take(i as int));
            assert(sorted.take(i + 1).last() == sorted[i as int]);
        }
        if !e.is_dir {
            out.push(e.path);
        }
        i += 1;
    }
    proof {
        assert(sorted.take(len as int) =~= sorted);
    }
    out
}

} // verus!
