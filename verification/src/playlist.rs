//! The playlist engine: an ordered double-ended queue of tracks with
//! add-front/add-back, removal, swapping, unbiased shuffle, loop-mode
//! cycling with its queue-rotation side effect, pruning against a set of
//! keep-flags, and total-duration aggregation.
use vstd::prelude::*;
use vstd::seq_lib::group_to_multiset_ensures;
use vstd::multiset::Multiset;
use std::collections::VecDeque;
use crate::track::Track;
use crate::wrappers::rand_below;

verus! {

/// Playback repeat policy. Cycling also rotates the queue so the next
/// play target is pre-staged consistently with the new mode.
#[derive(Clone, Copy, Debug, PartialEq, Eq, Structural)]
pub enum Loop {
    Queue,
    Playlist,
    Single,
}

/// The successor of a mode in the Queue -> Playlist -> Single -> Queue cycle.
pub open spec fn next_loop_mode(m: Loop) -> Loop {
    match m {
        Loop::Queue => Loop::Playlist,
        Loop::Playlist => Loop::Single,
        Loop::Single => Loop::Queue,
    }
}

/// Loop-mode cycling is a three-cycle: three steps return to the start,
/// and from Queue the intermediate modes are exactly Playlist then Single.
pub proof fn lemma_loop_mode_three_cycle(m: Loop)
    ensures
        next_loop_mode(next_loop_mode(next_loop_mode(m))) == m,
        next_loop_mode(Loop::Queue) == Loop::Playlist,
        next_loop_mode(Loop::Playlist) == Loop::Single,
        next_loop_mode(Loop::Single) == Loop::Queue,
{
}

/// The queue after adding one track: at the very front, or at the back.
pub open spec fn spec_add(s: Seq<Track>, t: Track, front: bool) -> Seq<Track> {
    if front {
        seq![t] + s
    } else {
        s.push(t)
    }
}

/// Adding two tracks to the front stacks them in reverse arrival order;
/// adding two to the back appends them in arrival order.
pub proof fn lemma_add_two(s: Seq<Track>, a: Track, b: Track)
    ensures
        spec_add(spec_add(s, a, true), b, true) =~= seq![b, a] + s,
        spec_add(spec_add(s, a, false), b, false) =~= s + seq![a, b],
{
}

/// The tracks that survive a prune: those whose keep-flag is set, in
/// their original relative order.
pub open spec fn spec_filter_by(s: Seq<Track>, keep: Seq<bool>) -> Seq<Track>
    recommends
        s.len() == keep.len(),
    decreases s.len(),
{
    if s.len() == 0 {
        Seq::<Track>::empty()
    } else if keep[s.len() - 1] {
        spec_filter_by(s.drop_last(), keep.drop_last()) + seq![s.last()]
    } else {
        spec_filter_by(s.drop_last(), keep.drop_last())
    }
}

/// Sum of the track durations, in seconds.
pub open spec fn spec_total_duration(s: Seq<Track>) -> int
    decreases s.len(),
{
    if s.len() == 0 {
        0
    } else {
        spec_total_duration(s.drop_last()) + s.last().duration_secs
    }
}

/// The ordered track queue. Only the session coordinator mutates it, so
/// no synchronisation is involved.
pub struct Playlist {
    pub tracks: VecDeque<Track>,
}

impl View for Playlist {
    type V = Seq<Track>;

    open spec fn view(&self) -> Seq<Track> {
        self.tracks@
    }
}

impl Playlist {
    pub fn new() -> (r: Playlist)
        ensures
            r@ =~= Seq::<Track>::empty(),
    {
        Playlist { tracks: VecDeque::new() }
    }

    pub fn len(&self) -> (r: usize)
        ensures
            r == self@.len(),
    {
        self.tracks.len()
    }

    pub fn is_empty(&self) -> (r: bool)
        ensures
            r == (self@.len() == 0),
    {
        self.tracks.len() == 0
    }

    /// Adds a track at the front (`front == true`) or the back.
    pub fn add(&mut self, t: Track, front: bool)
        ensures
            final(self)@ == spec_add(old(self)@, t, front),
    {
        if front {
            self.tracks.push_front(t);
        } else {
            self.tracks.push_back(t);
        }
    }

    /// Removes the track at `index`; out-of-range indices are a no-op.
    pub fn remove(&mut self, index: usize) -> (r: Option<Track>)
        ensures
            index < old(self)@.len() ==> r == Some(old(self)@[index as int]) && final(self)@
                == old(self)@.remove(index as int),
            index >= old(self)@.len() ==> r is None && final(self)@ == old(self)@,
    {
        self.tracks.remove(index)
    }

    pub fn clear(&mut self)
        ensures
            final(self)@ =~= Seq::<Track>::empty(),
    {
        self.tracks.clear();
    }

    /// Swaps the track at `index` with its successor; without a successor
    /// the queue is left unchanged.
    pub fn swap_down(&mut self, index: usize)
        ensures
            index + 1 < old(self)@.len() ==> final(self)@ =~= old(self)@.update(
                index as int,
                old(self)@[index + 1],
            ).update(index + 1, old(self)@[index as int]),
            index + 1 >= old(self)@.len() ==> final(self)@ == old(self)@,
    {
        let len: usize = self.tracks.len();
        if len > 0 && index < len - 1 {
            let moved: Option<Track> = self.tracks.remove(index + 1);
            match moved {
                Some(t) => {
                    self.tracks.insert(index, t);
                    proof {
                        assert(self@ =~= old(self)@.update(
                            index as int,
                            old(self)@[index + 1],
                        ).update(index + 1, old(self)@[index as int]));
                    }
                },
                None => {},
            }
        }
    }

    /// Swaps the track at `index` with its predecessor; the front track
    /// stays where it is.
    pub fn swap_up(&mut self, index: usize)
        ensures
            0 < index < old(self)@.len() ==> final(self)@ =~= old(self)@.update(
                index as int,
                old(self)@[index - 1],
            ).update(index - 1, old(self)@[index as int]),
            !(0 < index < old(self)@.len()) ==> final(self)@ == old(self)@,
    {
        if index > 0 && index < self.tracks.len() {
            let moved: Option<Track> = self.tracks.remove(index);
            match moved {
                Some(t) => {
                    self.tracks.insert(index - 1, t);
                    proof {
                        assert(self@ =~= old(self)@.update(
                            index as int,
                            old(self)@[index - 1],
                        ).update(index - 1, old(self)@[index as int]));
                    }
                },
                None => {},
            }
        }
    }

    /// Moves the track at `index` to the front, as playing a selected
    /// entry does; out-of-range indices leave the queue unchanged.
    pub fn move_to_front(&mut self, index: usize) -> (moved: bool)
        ensures
            index < old(self)@.len() ==> moved && final(self)@ =~= seq![
                old(self)@[index as int],
            ] + old(self)@.remove(index as int),
            index >= old(self)@.len() ==> !moved && final(self)@ == old(self)@,
    {
        let taken: Option<Track> = self.tracks.remove(index);
        match taken {
            Some(t) => {
                self.tracks.push_front(t);
                true
            },
            None => false,
        }
    }

    /// Advances the loop mode and rotates the queue: entering Single
    /// pre-stages the back track at the front, and leaving Single undoes
    /// that staging by sending the front track to the back.
    pub fn cycle_loop_mode(&mut self, mode: Loop) -> (next: Loop)
        ensures
            next == next_loop_mode(mode),
            mode == Loop::Queue ==> final(self)@ == old(self)@,
            mode == Loop::Playlist && old(self)@.len() > 0 ==> final(self)@ =~= seq![
                old(self)@.last(),
            ] + old(self)@.drop_last(),
            mode == Loop::Playlist && old(self)@.len() == 0 ==> final(self)@ == old(self)@,
            mode == Loop::Single && old(self)@.len() > 0 ==> final(self)@ =~= old(
                self,
            )@.drop_first().push(old(self)@.first()),
            mode == Loop::Single && old(self)@.len() == 0 ==> final(self)@ == old(self)@,
    {
        match mode {
            Loop::Queue => Loop::Playlist,
            Loop::Playlist => {
                let last: Option<Track> = self.tracks.pop_back();
                match last {
                    Some(t) => {
                        self.tracks.push_front(t);
                    },
                    None => {},
                }
                Loop::Single
            },
            Loop::Single => {
                let first: Option<Track> = self.tracks.pop_front();
                match first {
                    Some(t) => {
                        self.tracks.push_back(t);
                        proof {
                            assert(self@ =~= old(self)@.drop_first().push(old(self)@.first()));
                        }
                    },
                    None => {},
                }
                Loop::Queue
            },
        }
    }

    /// Keeps exactly the tracks whose flag is set, in order. The caller
    /// supplies one flag per track (typically: "the backing file exists").
    pub fn prune(&mut self, keep: &Vec<bool>)
        requires
            keep@.len() == old(self)@.len(),
        ensures
            final(self)@ == spec_filter_by(old(self)@, keep@),
    {
        let ghost orig: Seq<Track> = self@;
        let n: usize = self.tracks.len();
        let mut out: VecDeque<Track> = VecDeque::new();
        let mut i: usize = 0;
        proof {
            assert(spec_filter_by(orig.take(0), keep@.take(0)) =~= Seq::<Track>::empty());
        }
        while self.tracks.len() > 0
            invariant
                n == orig.len(),
                i + self.tracks@.len() == orig.len(),
                keep@.len() == orig.len(),
                self.tracks@ =~= orig.skip(i as int),
                out@ == spec_filter_by(orig.take(i as int), keep@.take(i as int)),
            decreases self.tracks@.len(),
        {
            let t: Option<Track> = self.tracks.pop_front();
            match t {
                Some(tr) => {
                    proof {
                        assert(orig.take(i + 1).drop_last() =~= orig.take(i as int));
                        assert(keep@.take(i + 1).drop_last() =~= keep@.take(i as int));
                        assert(orig.take(i + 1).last() == tr);
                        assert(self.tracks@ =~= orig.skip(i + 1));
                    }
                    if keep[i] {
                        out.push_back(tr);
                    }
                    i += 1;
                },
                None => {},
            }
        }
        proof {
            assert(orig.take(orig.len() as int) =~= orig);
            assert(keep@.take(orig.len() as int) =~= keep@);
        }
        self.tracks = out;
    }

    /// Rearranges the queue into a random permutation: every track is
    /// kept, only the order changes.
    pub fn shuffle(&mut self)
        ensures
            final(self)@.to_multiset() == old(self)@.to_multiset(),
            final(self)@.len() == old(self)@.len(),
    {
        broadcast use group_to_multiset_ensures;

        let ghost orig: Seq<Track> = self@;
        let mut out: VecDeque<Track> = VecDeque::new();
        proof {
            assert(out@.to_multiset() =~= Multiset::<Track>::empty());
        }
        while self.tracks.len() > 0
            invariant
                out@.to_multiset().add(self.tracks@.to_multiset()) =~= orig.to_multiset(),
                out@.len() + self.tracks@.len() == orig.len(),
            decreases self.tracks@.len(),
        {
            let ghost pre_tracks: Seq<Track> = self.tracks@;
            let ghost pre_out: Seq<Track> = out@;
            let k: usize = rand_below(self.tracks.len());
            let picked: Option<Track> = self.tracks.remove(k);
            match picked {
                Some(t) => {
                    out.push_back(t);
                    proof {
                        pre_tracks.to_multiset_ensures();
                        pre_out.to_multiset_ensures();
                        assert(pre_tracks[k as int] == t);
                        assert(pre_tracks.contains(t));
                        assert(self.tracks@ == pre_tracks.remove(k as int));
                        assert(out@ == pre_out.push(t));
                        assert(self.tracks@.to_multiset() == pre_tracks.to_multiset().remove(t));
                        assert(out@.to_multiset() == pre_out.to_multiset().insert(t));
                        assert(pre_tracks.to_multiset().count(t) > 0);
                        assert(out@.to_multiset().add(self.tracks@.to_multiset())
                            =~= pre_out.to_multiset().add(pre_tracks.to_multiset()));
                    }
                },
                None => {},
            }
        }
        proof {
            assert(self.tracks@.to_multiset() =~= Multiset::<Track>::empty());
            assert(out@.to_multiset() =~= orig.to_multiset());
        }
        self.tracks = out;
    }

    /// Total duration of the queue in seconds, saturating at the largest
    /// representable value instead of overflowing.
    pub fn total_duration_secs(&self) -> (r: u64)
        ensures
            spec_total_duration(self@) <= u64::MAX ==> r == spec_total_duration(self@),
            spec_total_duration(self@) > u64::MAX ==> r == u64::MAX,
    {
        let len: usize = self.tracks.len();
        let mut acc: u64 = 0;
        let mut i: usize = 0;
        proof {
            assert(self@.take(0) =~= Seq::<Track>::empty());
        }
        while i < len
            invariant
                0 <= i <= len,
                len == self@.len(),
                spec_total_duration(self@.take(i as int)) <= u64::MAX ==> acc
                    == spec_total_duration(self@.take(i as int)),
                spec_total_duration(self@.take(i as int)) > u64::MAX ==> acc == u64::MAX,
                acc <= spec_total_duration(self@.take(i as int)),
            decreases len - i,
        {
            let d: u64 = self.tracks[i].duration_secs;
            proof {
                assert(self@.take(i + 1).drop_last() =~= self@.take(i as int));
                assert(self@.take(i + 1).last() == self@[i as int]);
                lemma_total_duration_nonneg(self@.take(i as int));
            }
            if acc > u64::MAX - d {
                acc = u64::MAX;
            } else {
                acc = acc + d;
            }
            i += 1;
        }
        proof {
            assert(self@.take(len as int) =~= self@);
        }
        acc
    }
}

/// A duration sum is never negative.
proof fn lemma_total_duration_nonneg(s: Seq<Track>)
    ensures
        spec_total_duration(s) >= 0,
    decreases s.len(),
{
    if s.len() > 0 {
        lemma_total_duration_nonneg(s.drop_last());
    }
}

} // verus!
