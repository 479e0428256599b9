//! The session state and its reductions: one `Model` owns the playlist,
//! the library tree, the loop mode and the tick bookkeeping, and every
//! message is reduced against it by a pure step. Work that needs the
//! filesystem, the network or the player process is returned as a typed
//! effect for the surrounding loop to perform.
use vstd::prelude::*;
use crate::bridge::{MediaEvent, PlayerCmd, Status, spec_reduce_media_event, reduce_media_event};
use crate::config::Settings;
use crate::library::{FsNode, Node, build_tree, scan_ok};
use crate::messages::{LIMsg, Msg, PLMsg};
use crate::playlist::{Loop, Playlist, next_loop_mode, spec_add, spec_filter_by};
use crate::strings::{spec_parent, path_parent};
use crate::track::Track;

verus! {

/// How long the screen may stay unpainted with no messages arriving
/// before a redraw is forced, in milliseconds.
pub const FORCED_REDRAW_INTERVAL_MS: u64 = 1000;

/// Progress is polled on every Nth tick rather than continuously.
pub const PROGRESS_POLL_TICKS: u8 = 80;

/// The depth ceiling of a library scan.
pub const MAX_DEPTH: usize = 4;

/// Outside work a reduction asks the surrounding loop to perform.
#[derive(Clone, Debug, PartialEq)]
pub enum Effect {
    /// Send one command to the playback engine.
    Player(PlayerCmd),
    /// Read this path (file, directory or playlist file) and add it.
    AddPath(String),
    /// Rescan with this directory as the new root.
    StepInto(String),
    /// Rescan from the parent directory.
    StepOut,
    /// Record the selected node for a later paste.
    YankSelected,
    /// Move the yanked node to the selection.
    PasteYanked,
    /// Delete the selected node, after confirmation.
    DeleteSelected,
    /// A view-layer message: popups, focus and layout changes.
    View(Msg),
}

/// The session state: owned and mutated by the coordinator alone.
pub struct Model {
    pub config: Settings,
    pub playlist: Playlist,
    pub status: Status,
    pub tree: Node,
    pub path: String,
    pub yanked_node_id: Option<String>,
    pub quit: bool,
    pub redraw: bool,
    pub last_redraw_ms: u64,
    pub progress_interval: u8,
}

/// Everything but the playlist and the loop mode is carried over
/// unchanged.
pub open spec fn same_but_playlist(pre: Model, post: Model) -> bool {
    &&& post.config.music_dir == pre.config.music_dir
    &&& post.config.music_dir_from_cli == pre.config.music_dir_from_cli
    &&& post.config.add_playlist_front == pre.config.add_playlist_front
    &&& post.config.playlist_display_symbol == pre.config.playlist_display_symbol
    &&& post.config.keys == pre.config.keys
    &&& post.status == pre.status
    &&& post.tree == pre.tree
    &&& post.path == pre.path
    &&& post.yanked_node_id == pre.yanked_node_id
    &&& post.quit == pre.quit
    &&& post.redraw == pre.redraw
    &&& post.last_redraw_ms == pre.last_redraw_ms
    &&& post.progress_interval == pre.progress_interval
}

/// Nothing at all changed.
pub open spec fn same_model(pre: Model, post: Model) -> bool {
    same_but_playlist(pre, post) && post.playlist@ == pre.playlist@ && post.config.loop_mode
        == pre.config.loop_mode
}

/// The contract of one reduction step: for each message, how the state
/// moves and which effect is handed out. A message the session itself
/// cannot act on leaves the state alone and is handed to the view layer.
pub open spec fn update_ok(
    pre: Model,
    msg: Msg,
    post: Model,
    followup: Option<Msg>,
    effect: Option<Effect>,
) -> bool {
    followup is None && match msg {
        Msg::Playlist(p) => match p {
            PLMsg::AddFront => {
                &&& post.config.add_playlist_front == !pre.config.add_playlist_front
                &&& post.playlist@ == pre.playlist@
                &&& post.config.loop_mode == pre.config.loop_mode
                &&& post.config.music_dir == pre.config.music_dir
                &&& post.config.keys == pre.config.keys
                &&& post.config.playlist_display_symbol == pre.config.playlist_display_symbol
                &&& post.status == pre.status && post.tree == pre.tree && post.path == pre.path
                &&& post.yanked_node_id == pre.yanked_node_id && post.quit == pre.quit
                &&& post.redraw == pre.redraw && post.last_redraw_ms == pre.last_redraw_ms
                &&& post.progress_interval == pre.progress_interval
                &&& effect is None
            },
            PLMsg::NextSong => same_model(pre, post) && effect == Some(
                Effect::Player(PlayerCmd::Skip),
            ),
            PLMsg::PrevSong => same_model(pre, post) && effect == Some(
                Effect::Player(PlayerCmd::Previous),
            ),
            PLMsg::Add(s) => same_model(pre, post) && effect == Some(Effect::AddPath(s)),
            PLMsg::Delete(i) => {
                &&& same_but_playlist(pre, post)
                &&& post.config.loop_mode == pre.config.loop_mode
                &&& if i < pre.playlist@.len() {
                    post.playlist@ == pre.playlist@.remove(i as int)
                } else {
                    post.playlist@ == pre.playlist@
                }
                &&& effect is None
            },
            PLMsg::DeleteAll => {
                &&& same_but_playlist(pre, post)
                &&& post.config.loop_mode == pre.config.loop_mode
                &&& post.playlist@ == Seq::<Track>::empty()
                &&& effect is None
            },
            PLMsg::LoopModeCycle => {
                &&& same_but_playlist(pre, post)
                &&& post.config.loop_mode == next_loop_mode(pre.config.loop_mode)
                &&& (pre.config.loop_mode == Loop::Queue ==> post.playlist@ == pre.playlist@)
                &&& (pre.config.loop_mode == Loop::Playlist && pre.playlist@.len() > 0
                    ==> post.playlist@ == seq![pre.playlist@.last()] + pre.playlist@.drop_last())
                &&& (pre.config.loop_mode == Loop::Single && pre.playlist@.len() > 0
                    ==> post.playlist@ == pre.playlist@.drop_first().push(pre.playlist@.first()))
                &&& (pre.playlist@.len() == 0 ==> post.playlist@ == pre.playlist@)
                &&& effect is None
            },
            PLMsg::PlaySelected(i) => {
                &&& same_but_playlist(pre, post)
                &&& post.config.loop_mode == pre.config.loop_mode
                &&& if i < pre.playlist@.len() {
                    post.playlist@ == seq![pre.playlist@[i as int]] + pre.playlist@.remove(i as int)
                        && effect == Some(Effect::Player(PlayerCmd::Stop))
                } else {
                    post.playlist@ == pre.playlist@ && effect is None
                }
            },
            PLMsg::Shuffle => {
                &&& same_but_playlist(pre, post)
                &&& post.config.loop_mode == pre.config.loop_mode
                &&& post.playlist@.to_multiset() == pre.playlist@.to_multiset()
                &&& effect is None
            },
            PLMsg::SwapDown(i) => {
                &&& same_but_playlist(pre, post)
                &&& post.config.loop_mode == pre.config.loop_mode
                &&& if i + 1 < pre.playlist@.len() {
                    post.playlist@ == pre.playlist@.update(i as int, pre.playlist@[i + 1]).update(
                        i + 1,
                        pre.playlist@[i as int],
                    )
                } else {
                    post.playlist@ == pre.playlist@
                }
                &&& effect is None
            },
            PLMsg::SwapUp(i) => {
                &&& same_but_playlist(pre, post)
                &&& post.config.loop_mode == pre.config.loop_mode
                &&& if 0 < i < pre.playlist@.len() {
                    post.playlist@ == pre.playlist@.update(i as int, pre.playlist@[i - 1]).update(
                        i - 1,
                        pre.playlist@[i as int],
                    )
                } else {
                    post.playlist@ == pre.playlist@
                }
                &&& effect is None
            },
            PLMsg::TableBlur => same_model(pre, post) && effect == Some(
                Effect::View(Msg::Playlist(PLMsg::TableBlur)),
            ),
        },
        Msg::Library(l) => match l {
            LIMsg::TreeExtendDir(s) => same_model(pre, post) && effect == Some(
                Effect::StepInto(s),
            ),
            LIMsg::TreeGoToUpperDir => same_model(pre, post) && effect == Some(Effect::StepOut),
            LIMsg::TreeBlur => same_model(pre, post) && effect == Some(
                Effect::View(Msg::Library(LIMsg::TreeBlur)),
            ),
            LIMsg::Yank => same_model(pre, post) && effect == Some(Effect::YankSelected),
            LIMsg::Paste => same_model(pre, post) && effect == Some(Effect::PasteYanked),
        },
        Msg::QuitPopupCloseOk => {
            &&& post.quit == true
            &&& post.playlist@ == pre.playlist@ && post.config.loop_mode == pre.config.loop_mode
            &&& post.config.music_dir == pre.config.music_dir
            &&& post.config.add_playlist_front == pre.config.add_playlist_front
            &&& post.status == pre.status && post.tree == pre.tree && post.path == pre.path
            &&& post.yanked_node_id == pre.yanked_node_id
            &&& post.redraw == pre.redraw && post.last_redraw_ms == pre.last_redraw_ms
            &&& post.progress_interval == pre.progress_interval
            &&& effect is None
        },
        Msg::PlayerTogglePause => {
            &&& post.playlist@ == pre.playlist@ && post.config == pre.config
            &&& post.tree == pre.tree && post.path == pre.path
            &&& post.yanked_node_id == pre.yanked_node_id && post.quit == pre.quit
            &&& post.redraw == pre.redraw && post.last_redraw_ms == pre.last_redraw_ms
            &&& post.progress_interval == pre.progress_interval
            &&& match pre.status {
                Status::Running => post.status == Status::Paused && effect == Some(
                    Effect::Player(PlayerCmd::Pause),
                ),
                Status::Paused => post.status == Status::Running && effect == Some(
                    Effect::Player(PlayerCmd::Resume),
                ),
                Status::Stopped => post.status == Status::Stopped && effect is None,
            }
        },
        Msg::PlayerVolumeUp => same_model(pre, post) && effect == Some(
            Effect::Player(PlayerCmd::VolumeUp),
        ),
        Msg::PlayerVolumeDown => same_model(pre, post) && effect == Some(
            Effect::Player(PlayerCmd::VolumeDown),
        ),
        Msg::PlayerSpeedUp => same_model(pre, post) && effect == Some(
            Effect::Player(PlayerCmd::SpeedUp),
        ),
        Msg::PlayerSpeedDown => same_model(pre, post) && effect == Some(
            Effect::Player(PlayerCmd::SpeedDown),
        ),
        Msg::PlayerSeek(d) => same_model(pre, post) && effect == Some(
            Effect::Player(PlayerCmd::Seek(d)),
        ),
        Msg::PlayerToggleGapless => same_model(pre, post) && effect == Some(
            Effect::Player(PlayerCmd::ToggleGapless),
        ),
        Msg::DeleteConfirmCloseOk => same_model(pre, post) && effect == Some(
            Effect::DeleteSelected,
        ),
        Msg::Noop => same_model(pre, post) && effect is None,
        _ => same_model(pre, post) && effect == Some(Effect::View(msg)),
    }
}

impl Model {
    /// Builds the starting state: the given settings, an empty playlist,
    /// a library tree scanned from the snapshot with the standard depth
    /// ceiling, and a stopped player.
    pub fn new(config: Settings, snapshot: FsNode) -> (r: Model)
        ensures
            r.config == config,
            r.playlist@ == Seq::<Track>::empty(),
            r.status == Status::Stopped,
            scan_ok(snapshot, MAX_DEPTH as nat, r.tree),
            r.path@ == snapshot.path@,
            r.yanked_node_id is None,
            r.quit == false,
            r.redraw == false,
            r.last_redraw_ms == 0,
            r.progress_interval == 0,
    {
        let path: String = snapshot.path.clone();
        let tree: Node = build_tree(snapshot, MAX_DEPTH);
        Model {
            config,
            playlist: Playlist::new(),
            status: Status::Stopped,
            tree,
            path,
            yanked_node_id: None,
            quit: false,
            redraw: false,
            last_redraw_ms: 0,
            progress_interval: 0,
        }
    }

    /// Rescans the library below a new root.
    pub fn library_scan_dir(&mut self, snapshot: FsNode)
        ensures
            final(self).path@ == snapshot.path@,
            scan_ok(snapshot, MAX_DEPTH as nat, final(self).tree),
            final(self).playlist@ == old(self).playlist@,
            final(self).config == old(self).config,
            final(self).status == old(self).status,
            final(self).yanked_node_id == old(self).yanked_node_id,
            final(self).quit == old(self).quit,
    {
        self.path = snapshot.path.clone();
        self.tree = build_tree(snapshot, MAX_DEPTH);
    }

    /// The directory above the current library root, if any.
    pub fn library_upper_dir(&self) -> (r: Option<String>)
        ensures
            r is Some <==> spec_parent(self.path@) is Some,
            r is Some ==> r.unwrap()@ == spec_parent(self.path@).unwrap(),
    {
        path_parent(self.path.as_str())
    }

    /// Steps the library root into the given directory, remembering it
    /// as the configured music directory.
    pub fn library_stepinto(&mut self, snapshot: FsNode)
        ensures
            final(self).path@ == snapshot.path@,
            final(self).config.music_dir@ == snapshot.path@,
            scan_ok(snapshot, MAX_DEPTH as nat, final(self).tree),
            final(self).playlist@ == old(self).playlist@,
            final(self).config.loop_mode == old(self).config.loop_mode,
            final(self).config.add_playlist_front == old(self).config.add_playlist_front,
            final(self).status == old(self).status,
            final(self).quit == old(self).quit,
    {
        self.config.music_dir = snapshot.path.clone();
        self.library_scan_dir(snapshot);
    }

    /// Steps the library root out to the parent directory, whose
    /// snapshot the caller provides after asking `library_upper_dir`.
    pub fn library_stepout(&mut self, snapshot: FsNode)
        ensures
            final(self).path@ == snapshot.path@,
            final(self).config.music_dir@ == snapshot.path@,
            scan_ok(snapshot, MAX_DEPTH as nat, final(self).tree),
            final(self).playlist@ == old(self).playlist@,
            final(self).config.loop_mode == old(self).config.loop_mode,
            final(self).status == old(self).status,
            final(self).quit == old(self).quit,
    {
        self.library_stepinto(snapshot);
    }

    /// Rebuilds the tree below the unchanged root, as after a rename or
    /// deletion.
    pub fn library_reload_tree(&mut self, snapshot: FsNode)
        ensures
            final(self).path@ == snapshot.path@,
            scan_ok(snapshot, MAX_DEPTH as nat, final(self).tree),
            final(self).playlist@ == old(self).playlist@,
            final(self).config == old(self).config,
            final(self).status == old(self).status,
            final(self).yanked_node_id == old(self).yanked_node_id,
            final(self).quit == old(self).quit,
    {
        self.library_scan_dir(snapshot);
    }

    /// Records the selected node for a later paste.
    pub fn library_yank(&mut self, node_id: String)
        ensures
            final(self).yanked_node_id == Some(node_id),
            final(self).playlist@ == old(self).playlist@,
            final(self).config == old(self).config,
            final(self).tree == old(self).tree,
            final(self).path == old(self).path,
            final(self).status == old(self).status,
            final(self).quit == old(self).quit,
    {
        self.yanked_node_id = Some(node_id);
    }

    /// Forgets the yanked node, as a finished or failed paste does.
    pub fn library_paste_done(&mut self)
        ensures
            final(self).yanked_node_id is None,
            final(self).playlist@ == old(self).playlist@,
            final(self).config == old(self).config,
            final(self).tree == old(self).tree,
            final(self).path == old(self).path,
            final(self).status == old(self).status,
            final(self).quit == old(self).quit,
    {
        self.yanked_node_id = None;
    }

    /// Where a paste moves the yanked node: into the selected directory,
    /// or beside the selected file, keeping the yanked node's file name.
    /// `None` when nothing is yanked, the selection has no parent, or
    /// the yanked path has no file name.
    pub fn library_paste_target(&self, new_id: &str, new_is_dir: bool) -> (r: Option<(
        String,
        String,
    )>)
        ensures
            self.yanked_node_id is None ==> r is None,
            r matches Some((src, dst)) ==> {
                &&& self.yanked_node_id matches Some(y) && src@ == y@
                &&& {
                    let name = crate::strings::spec_file_name(src@);
                    if new_is_dir {
                        dst@ == new_id@ + seq!['/'] + name
                    } else {
                        spec_parent(new_id@) matches Some(par) && dst@ == par + seq!['/'] + name
                    }
                }
            },
            self.yanked_node_id matches Some(y) && crate::strings::spec_file_name(y@).len() > 0
                && (new_is_dir || spec_parent(new_id@) is Some) ==> r is Some,
    {
        let yanked: &String = match &self.yanked_node_id {
            Some(y) => y,
            None => {
                return None;
            },
        };
        let name: String = crate::strings::path_file_name(yanked.as_str());
        if name.as_str().unicode_len() == 0 {
            return None;
        }
        if new_is_dir {
            let dst: String = crate::strings::path_join(new_id, name.as_str());
            Some((yanked.clone(), dst))
        } else {
            match path_parent(new_id) {
                Some(par) => {
                    let dst: String = crate::strings::path_join(par.as_str(), name.as_str());
                    Some((yanked.clone(), dst))
                },
                None => None,
            }
        }
    }

    /// Adds one already-read track at the front or the back, as the
    /// configuration directs.
    pub fn playlist_add_item(&mut self, track: Track)
        ensures
            final(self).playlist@ == spec_add(
                old(self).playlist@,
                track,
                old(self).config.add_playlist_front,
            ),
            same_but_playlist(*old(self), *final(self)),
            final(self).config == old(self).config,
    {
        let front: bool = self.config.add_playlist_front;
        self.playlist.add(track, front);
    }

    /// Adds a batch of already-read tracks. Added to the back they keep
    /// their order; added to the front the batch as a whole keeps its
    /// order ahead of the old queue, as inserting at a running index
    /// does.
    pub fn playlist_add_items_common(&mut self, tracks: Vec<Track>)
        ensures
            old(self).config.add_playlist_front ==> final(self).playlist@ == tracks@ + old(self).playlist@,
            !old(self).config.add_playlist_front ==> final(self).playlist@ == old(self).playlist@
                + tracks@,
            same_but_playlist(*old(self), *final(self)),
            final(self).config == old(self).config,
    {
        let ghost incoming: Seq<Track> = tracks@;
        let ghost orig: Seq<Track> = self.playlist@;
        let front: bool = self.config.add_playlist_front;
        let mut rest: Vec<Track> = tracks;
        let mut index: usize = 0;
        let len: usize = rest.len();
        proof {
            assert(rest@ =~= incoming.skip(0));
            assert(incoming.take(0) =~= Seq::<Track>::empty());
        }
        while index < len
            invariant
                0 <= index <= len,
                len == incoming.len(),
                rest@ =~= incoming.skip(index as int),
                front == self.config.add_playlist_front,
                front ==> self.playlist@ =~= incoming.take(index as int) + orig,
                !front ==> self.playlist@ =~= orig + incoming.take(index as int),
                self.config == old(self).config,
                same_but_playlist(*old(self), *self),
            decreases len - index,
        {
            let t: Track = rest.remove(0);
            proof {
                assert(t == incoming[index as int]);
                assert(rest@ =~= incoming.skip(index + 1));
            }
            if front {
                self.playlist.tracks.insert(index, t);
                proof {
                    assert(self.playlist@ =~= incoming.take(index + 1) + orig);
                }
            } else {
                self.playlist.tracks.push_back(t);
                proof {
                    assert(self.playlist@ =~= orig + incoming.take(index + 1));
                }
            }
            index += 1;
        }
        proof {
            assert(incoming.take(len as int) =~= incoming);
        }
    }

    /// Adds every track of a database answer, converted in place: the
    /// batch keeps its row order, prepended as a whole or appended as a
    /// whole as the configuration directs.
    pub fn playlist_add_all_from_db(&mut self, rows: &Vec<crate::track::TrackForDB>)
        ensures
            final(self).playlist@.len() == old(self).playlist@.len() + rows@.len(),
            same_but_playlist(*old(self), *final(self)),
            final(self).config == old(self).config,
            old(self).config.add_playlist_front ==> forall|i: int|
                0 <= i < rows@.len() ==> (#[trigger] final(self).playlist@[i]).file == Some(
                    rows@[i].file,
                ),
            old(self).config.add_playlist_front ==> forall|i: int|
                rows@.len() <= i < final(self).playlist@.len() ==> #[trigger] final(self).playlist@[i] == old(self).playlist@[i - rows@.len()],
            !old(self).config.add_playlist_front ==> forall|i: int|
                0 <= i < rows@.len() ==> (#[trigger] final(self).playlist@[old(self).playlist@.len() + i]).file == Some(rows@[i].file),
            !old(self).config.add_playlist_front ==> forall|i: int|
                0 <= i < old(self).playlist@.len() ==> #[trigger] final(self).playlist@[i] == old(self).playlist@[i],
    {
        let mut tracks: Vec<Track> = Vec::new();
        let mut i: usize = 0;
        let len: usize = rows.len();
        while i < len
            invariant
                0 <= i <= len,
                len == rows@.len(),
                tracks@.len() == i,
                forall|m: int| 0 <= m < i ==> #[trigger] tracks@[m].file == Some(rows@[m].file),
            decreases len - i,
        {
            let t: Track = Track::from_db(&rows[i]);
            tracks.push(t);
            i += 1;
        }
        self.playlist_add_items_common(tracks);
    }

    /// Removes the track at `index`; an index past the end is a no-op.
    pub fn playlist_delete_item(&mut self, index: usize)
        ensures
            index < old(self).playlist@.len() ==> final(self).playlist@ == old(self).playlist@.remove(index as int),
            index >= old(self).playlist@.len() ==> final(self).playlist@ == old(self).playlist@,
            same_but_playlist(*old(self), *final(self)),
            final(self).config == old(self).config,
    {
        let _removed: Option<Track> = self.playlist.remove(index);
    }

    /// Empties the queue.
    pub fn playlist_empty(&mut self)
        ensures
            final(self).playlist@ == Seq::<Track>::empty(),
            same_but_playlist(*old(self), *final(self)),
            final(self).config == old(self).config,
    {
        self.playlist.clear();
        proof {
            assert(final(self).playlist@ =~= Seq::<Track>::empty());
        }
    }

    /// Re-orders the queue at random; every track is kept.
    pub fn playlist_shuffle(&mut self)
        ensures
            final(self).playlist@.to_multiset() == old(self).playlist@.to_multiset(),
            final(self).playlist@.len() == old(self).playlist@.len(),
            same_but_playlist(*old(self), *final(self)),
            final(self).config == old(self).config,
    {
        self.playlist.shuffle();
    }

    /// Prunes the queue against one keep-flag per track, as after a
    /// deletion or rename on disk: exactly the flagged tracks survive,
    /// in order.
    pub fn playlist_update_library_delete(&mut self, keep: &Vec<bool>)
        requires
            keep@.len() == old(self).playlist@.len(),
        ensures
            final(self).playlist@ == spec_filter_by(old(self).playlist@, keep@),
            same_but_playlist(*old(self), *final(self)),
            final(self).config == old(self).config,
    {
        self.playlist.prune(keep);
    }

    /// Advances the loop mode, rotating the queue to pre-stage the next
    /// play target.
    pub fn playlist_cycle_loop_mode(&mut self) -> (next: Loop)
        ensures
            next == next_loop_mode(old(self).config.loop_mode),
            final(self).config.loop_mode == next,
            old(self).config.loop_mode == Loop::Queue ==> final(self).playlist@ == old(self).playlist@,
            old(self).config.loop_mode == Loop::Playlist && old(self).playlist@.len() > 0 ==> final(self).playlist@ == seq![old(self).playlist@.last()] + old(self).playlist@.drop_last(),
            old(self).config.loop_mode == Loop::Single && old(self).playlist@.len() > 0 ==> final(self).playlist@ == old(self).playlist@.drop_first().push(old(self).playlist@.first()),
            old(self).playlist@.len() == 0 ==> final(self).playlist@ == old(self).playlist@,
            same_but_playlist_and_mode(*old(self), *final(self)),
    {
        let mode: Loop = self.config.loop_mode;
        let next: Loop = self.playlist.cycle_loop_mode(mode);
        self.config.loop_mode = next;
        next
    }

    /// Moves the selected track to the front to play it; the player is
    /// told to stop so the next tick starts the new front track.
    pub fn playlist_play_selected(&mut self, index: usize) -> (stop: bool)
        ensures
            index < old(self).playlist@.len() ==> stop && final(self).playlist@ == seq![
                old(self).playlist@[index as int],
            ] + old(self).playlist@.remove(index as int),
            index >= old(self).playlist@.len() ==> !stop && final(self).playlist@ == old(self).playlist@,
            same_but_playlist(*old(self), *final(self)),
            final(self).config == old(self).config,
    {
        self.playlist.move_to_front(index)
    }

    /// What plays after the current track ends, per the loop mode:
    /// Single replays the front track; Queue consumes it and moves on;
    /// Playlist rotates it to the back and moves on. Returns the path
    /// of the next track to start, when there is one.
    pub fn playlist_advance(&mut self) -> (r: Option<String>)
        ensures
            same_but_playlist(*old(self), *final(self)),
            final(self).config == old(self).config,
            old(self).playlist@.len() == 0 ==> final(self).playlist@ == old(self).playlist@
                && r is None,
            old(self).config.loop_mode == Loop::Single && old(self).playlist@.len() > 0 ==> final(self).playlist@
                == old(self).playlist@ && opt_path_view(r) == opt_path_view(old(self).playlist@[0].file),
            old(self).config.loop_mode == Loop::Queue && old(self).playlist@.len() > 0 ==> final(self).playlist@
                == old(self).playlist@.drop_first() && (old(self).playlist@.len() > 1
                ==> opt_path_view(r) == opt_path_view(old(self).playlist@[1].file)) && (old(self).playlist@.len()
                == 1 ==> r is None),
            old(self).config.loop_mode == Loop::Playlist && old(self).playlist@.len() > 0 ==> final(self).playlist@
                == old(self).playlist@.drop_first().push(old(self).playlist@.first()) && (old(
                self,
            ).playlist@.len() > 1 ==> opt_path_view(r) == opt_path_view(old(self).playlist@[1].file)) && (old(
                self,
            ).playlist@.len() == 1 ==> opt_path_view(r) == opt_path_view(old(self).playlist@[0].file)),
    {
        let len: usize = self.playlist.len();
        if len == 0 {
            return None;
        }
        match self.config.loop_mode {
            Loop::Single => file_of(&self.playlist.tracks[0]),
            Loop::Queue => {
                let _front: Option<Track> = self.playlist.tracks.pop_front();
                if self.playlist.tracks.len() > 0 {
                    file_of(&self.playlist.tracks[0])
                } else {
                    None
                }
            },
            Loop::Playlist => {
                let front: Option<Track> = self.playlist.tracks.pop_front();
                match front {
                    Some(t) => {
                        self.playlist.tracks.push_back(t);
                    },
                    None => {},
                }
                proof {
                    assert(self.playlist@ =~= old(self).playlist@.drop_first().push(
                        old(self).playlist@.first(),
                    ));
                }
                file_of(&self.playlist.tracks[0])
            },
        }
    }

    /// Reduces one transport event from the media-control bridge and
    /// returns the command for the playback engine.
    pub fn mpris_handler(&mut self, e: MediaEvent) -> (cmd: PlayerCmd)
        ensures
            (final(self).status, cmd) == spec_reduce_media_event(old(self).status, e),
            final(self).playlist@ == old(self).playlist@,
            final(self).config == old(self).config,
            final(self).tree == old(self).tree,
            final(self).path == old(self).path,
            final(self).quit == old(self).quit,
    {
        let (st, cmd): (Status, PlayerCmd) = reduce_media_event(self.status, e);
        self.status = st;
        cmd
    }

    /// Drains at most one transport event per tick, never waiting.
    pub fn update_mpris(&mut self, q: &mut crate::bridge::EventQueue) -> (cmd: Option<PlayerCmd>)
        requires
            old(q).wf(),
        ensures
            final(q).wf(),
            old(q).items@.len() == 0 ==> cmd is None && final(self).status == old(self).status
                && final(q).items@ == old(q).items@,
            old(q).items@.len() > 0 ==> final(q).items@ == old(q).items@.drop_first() && (cmd
                matches Some(c) && (final(self).status, c) == spec_reduce_media_event(
                old(self).status,
                old(q).items@[0],
            )),
            final(self).playlist@ == old(self).playlist@,
            final(self).config == old(self).config,
            final(self).quit == old(self).quit,
    {
        let ev: Option<MediaEvent> = q.try_pop();
        match ev {
            Some(e) => Some(self.mpris_handler(e)),
            None => None,
        }
    }

    /// Reduces one message. The returned follow-up message, if any, is
    /// reduced in the same tick; the returned effect is performed by the
    /// surrounding loop.
    pub fn update(&mut self, msg: Msg) -> (r: (Option<Msg>, Option<Effect>))
        ensures
            update_ok(*old(self), msg, *final(self), r.0, r.1),
    {
        match msg {
            Msg::Playlist(p) => match p {
                PLMsg::AddFront => {
                    self.config.add_playlist_front = !self.config.add_playlist_front;
                    (None, None)
                },
                PLMsg::NextSong => (None, Some(Effect::Player(PlayerCmd::Skip))),
                PLMsg::PrevSong => (None, Some(Effect::Player(PlayerCmd::Previous))),
                PLMsg::Add(s) => (None, Some(Effect::AddPath(s))),
                PLMsg::Delete(i) => {
                    self.playlist_delete_item(i);
                    (None, None)
                },
                PLMsg::DeleteAll => {
                    self.playlist_empty();
                    (None, None)
                },
                PLMsg::LoopModeCycle => {
                    let _next: Loop = self.playlist_cycle_loop_mode();
                    (None, None)
                },
                PLMsg::PlaySelected(i) => {
                    let stop: bool = self.playlist_play_selected(i);
                    if stop {
                        (None, Some(Effect::Player(PlayerCmd::Stop)))
                    } else {
                        (None, None)
                    }
                },
                PLMsg::Shuffle => {
                    self.playlist_shuffle();
                    (None, None)
                },
                PLMsg::SwapDown(i) => {
                    self.playlist.swap_down(i);
                    (None, None)
                },
                PLMsg::SwapUp(i) => {
                    self.playlist.swap_up(i);
                    (None, None)
                },
                PLMsg::TableBlur => (
                    None,
                    Some(Effect::View(Msg::Playlist(PLMsg::TableBlur))),
                ),
            },
            Msg::Library(l) => match l {
                LIMsg::TreeExtendDir(s) => (None, Some(Effect::StepInto(s))),
                LIMsg::TreeGoToUpperDir => (None, Some(Effect::StepOut)),
                LIMsg::TreeBlur => (None, Some(Effect::View(Msg::Library(LIMsg::TreeBlur)))),
                LIMsg::Yank => (None, Some(Effect::YankSelected)),
                LIMsg::Paste => (None, Some(Effect::PasteYanked)),
            },
            Msg::QuitPopupCloseOk => {
                self.quit = true;
                (None, None)
            },
            Msg::PlayerTogglePause => match self.status {
                Status::Running => {
                    self.status = Status::Paused;
                    (None, Some(Effect::Player(PlayerCmd::Pause)))
                },
                Status::Paused => {
                    self.status = Status::Running;
                    (None, Some(Effect::Player(PlayerCmd::Resume)))
                },
                Status::Stopped => (None, None),
            },
            Msg::PlayerVolumeUp => (None, Some(Effect::Player(PlayerCmd::VolumeUp))),
            Msg::PlayerVolumeDown => (None, Some(Effect::Player(PlayerCmd::VolumeDown))),
            Msg::PlayerSpeedUp => (None, Some(Effect::Player(PlayerCmd::SpeedUp))),
            Msg::PlayerSpeedDown => (None, Some(Effect::Player(PlayerCmd::SpeedDown))),
            Msg::PlayerSeek(d) => (None, Some(Effect::Player(PlayerCmd::Seek(d)))),
            Msg::PlayerToggleGapless => (None, Some(Effect::Player(PlayerCmd::ToggleGapless))),
            Msg::DeleteConfirmCloseOk => (None, Some(Effect::DeleteSelected)),
            Msg::Noop => (None, None),
            other => (None, Some(Effect::View(other))),
        }
    }

    /// Drains one message within the tick and collects the effects.
    /// A reduction never re-queues a message here: follow-up work is
    /// returned as an effect and performed outside the reduction, so
    /// the drain reaches its fixpoint in one step by construction and
    /// no chain of reductions can cycle.
    pub fn update_chain(&mut self, first: Msg) -> (effects: Vec<Effect>)
        ensures
            update_ok(*old(self), first, *final(self), None, spec_opt_first(effects@)),
            effects@.len() <= 1,
    {
        let mut effects: Vec<Effect> = Vec::new();
        let (next, eff): (Option<Msg>, Option<Effect>) = self.update(first);
        match eff {
            Some(e) => effects.push(e),
            None => {},
        }
        proof {
            assert(next is None);
        }
        effects
    }
}


/// The front effect of a drained chain, if any.
pub open spec fn spec_opt_first(effects: Seq<Effect>) -> Option<Effect> {
    if effects.len() == 0 {
        None
    } else {
        Some(effects[0])
    }
}

/// The character-level view of a possibly-absent path, so a returned
/// clone can be compared with a stored one.
pub open spec fn opt_path_view(o: Option<String>) -> Option<Seq<char>> {
    match o {
        Some(s) => Some(s@),
        None => None,
    }
}

/// Clones a track's backing path.
fn file_of(t: &Track) -> (r: Option<String>)
    ensures
        r is Some <==> t.file is Some,
        r is Some ==> r.unwrap()@ == t.file.unwrap()@,
{
    match &t.file {
        Some(f) => Some(f.clone()),
        None => None,
    }
}

/// Everything but the playlist and the loop mode is carried over
/// unchanged (the loop-mode cycle touches both).
pub open spec fn same_but_playlist_and_mode(pre: Model, post: Model) -> bool {
    &&& post.config.music_dir == pre.config.music_dir
    &&& post.config.music_dir_from_cli == pre.config.music_dir_from_cli
    &&& post.config.add_playlist_front == pre.config.add_playlist_front
    &&& post.config.playlist_display_symbol == pre.config.playlist_display_symbol
    &&& post.config.keys == pre.config.keys
    &&& post.status == pre.status
    &&& post.tree == pre.tree
    &&& post.path == pre.path
    &&& post.yanked_node_id == pre.yanked_node_id
    &&& post.quit == pre.quit
    &&& post.redraw == pre.redraw
    &&& post.last_redraw_ms == pre.last_redraw_ms
    &&& post.progress_interval == pre.progress_interval
}

/// The user interface shell around the session state: the per-tick
/// bookkeeping of redraws and progress polling.
pub struct UI {
    pub model: Model,
}

impl UI {
    /// Builds the interface around a fresh session.
    pub fn new(config: Settings, snapshot: FsNode) -> (r: UI)
        ensures
            r.model.config == config,
            r.model.playlist@ == Seq::<Track>::empty(),
            r.model.quit == false,
            scan_ok(snapshot, MAX_DEPTH as nat, r.model.tree),
    {
        UI { model: Model::new(config, snapshot) }
    }

    /// Forces a redraw when more than the forced-redraw interval has
    /// passed since the last one, so time-derived fields stay live even
    /// with no input at all.
    pub fn check_force_redraw(&mut self, now_ms: u64)
        ensures
            now_ms >= old(self).model.last_redraw_ms + FORCED_REDRAW_INTERVAL_MS ==> final(self).model.redraw == true,
            now_ms < old(self).model.last_redraw_ms + FORCED_REDRAW_INTERVAL_MS ==> final(self).model.redraw == old(self).model.redraw,
            final(self).model.playlist@ == old(self).model.playlist@,
            final(self).model.config == old(self).model.config,
            final(self).model.quit == old(self).model.quit,
            final(self).model.last_redraw_ms == old(self).model.last_redraw_ms,
            final(self).model.progress_interval == old(self).model.progress_interval,
    {
        let elapsed: u64 = if now_ms >= self.model.last_redraw_ms {
            now_ms - self.model.last_redraw_ms
        } else {
            0
        };
        if elapsed >= FORCED_REDRAW_INTERVAL_MS {
            self.model.redraw = true;
        }
    }

    /// Notes that the screen was just painted.
    pub fn mark_redrawn(&mut self, now_ms: u64)
        ensures
            final(self).model.redraw == false,
            final(self).model.last_redraw_ms == now_ms,
            final(self).model.playlist@ == old(self).model.playlist@,
            final(self).model.config == old(self).model.config,
            final(self).model.quit == old(self).model.quit,
    {
        self.model.redraw = false;
        self.model.last_redraw_ms = now_ms;
    }

    /// Asks for a redraw on the next paint.
    pub fn request_redraw(&mut self)
        ensures
            final(self).model.redraw == true,
            final(self).model.playlist@ == old(self).model.playlist@,
            final(self).model.config == old(self).model.config,
            final(self).model.quit == old(self).model.quit,
            final(self).model.last_redraw_ms == old(self).model.last_redraw_ms,
    {
        self.model.redraw = true;
    }

    /// Advances the tick counter and says whether this tick polls the
    /// playback engine for progress: exactly every `PROGRESS_POLL_TICKS`
    /// ticks, starting with the first.
    pub fn tick_progress(&mut self) -> (poll: bool)
        ensures
            poll == (old(self).model.progress_interval == 0),
            old(self).model.progress_interval + 1 >= PROGRESS_POLL_TICKS ==> final(self).model.progress_interval == 0,
            old(self).model.progress_interval + 1 < PROGRESS_POLL_TICKS ==> final(self).model.progress_interval == old(self).model.progress_interval + 1,
            final(self).model.playlist@ == old(self).model.playlist@,
            final(self).model.config == old(self).model.config,
            final(self).model.quit == old(self).model.quit,
    {
        let poll: bool = self.model.progress_interval == 0;
        if self.model.progress_interval >= PROGRESS_POLL_TICKS - 1 {
            self.model.progress_interval = 0;
        } else {
            self.model.progress_interval = self.model.progress_interval + 1;
        }
        poll
    }
}

} // verus!
