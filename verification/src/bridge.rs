//! The media-control bridge, modelled: transport events arriving from
//! the OS, the bounded queue they cross on (at-most-once, best-effort:
//! a full queue drops, it never blocks the producer), and the reduction
//! of one event into the player status and a transport command.
use vstd::prelude::*;
use std::collections::VecDeque;

verus! {

/// A transport event as the OS media-control surface delivers it.
#[derive(Clone, Debug, PartialEq)]
pub enum MediaEvent {
    Play,
    Pause,
    Toggle,
    Next,
    Previous,
    OpenUri(String),
}

/// Playback engine status as the session tracks it.
#[derive(Clone, Copy, Debug, PartialEq, Eq, Structural)]
pub enum Status {
    Running,
    Paused,
    Stopped,
}

/// A command for the playback engine adapter.
#[derive(Clone, Debug, PartialEq)]
pub enum PlayerCmd {
    Skip,
    Previous,
    Pause,
    Resume,
    Stop,
    AddAndPlay(String),
    VolumeUp,
    VolumeDown,
    SpeedUp,
    SpeedDown,
    Seek(isize),
    ToggleGapless,
}

/// How one transport event reduces against the current status: the new
/// status and the command sent to the playback engine.
pub open spec fn spec_reduce_media_event(status: Status, ev: MediaEvent) -> (Status, PlayerCmd) {
    match ev {
        MediaEvent::Next => (status, PlayerCmd::Skip),
        MediaEvent::Previous => (status, PlayerCmd::Previous),
        MediaEvent::Pause => (Status::Paused, PlayerCmd::Pause),
        MediaEvent::Play => (Status::Running, PlayerCmd::Resume),
        MediaEvent::Toggle => if status == Status::Paused {
            (Status::Running, PlayerCmd::Resume)
        } else {
            (Status::Paused, PlayerCmd::Pause)
        },
        MediaEvent::OpenUri(uri) => (Status::Running, PlayerCmd::AddAndPlay(uri)),
    }
}

/// Reduces one transport event.
pub fn reduce_media_event(status: Status, ev: MediaEvent) -> (r: (Status, PlayerCmd))
    ensures
        r == spec_reduce_media_event(status, ev),
{
    match ev {
        MediaEvent::Next => (status, PlayerCmd::Skip),
        MediaEvent::Previous => (status, PlayerCmd::Previous),
        MediaEvent::Pause => (Status::Paused, PlayerCmd::Pause),
        MediaEvent::Play => (Status::Running, PlayerCmd::Resume),
        MediaEvent::Toggle => {
            if status == Status::Paused {
                (Status::Running, PlayerCmd::Resume)
            } else {
                (Status::Paused, PlayerCmd::Pause)
            }
        },
        MediaEvent::OpenUri(uri) => (Status::Running, PlayerCmd::AddAndPlay(uri)),
    }
}

/// Every transport event except Toggle is idempotent on the status: when
/// a delivery is dropped by a full queue, the next delivered event of the
/// same kind leaves the session in the state a lossless channel would
/// have reached.
pub proof fn lemma_media_event_idempotent(status: Status, ev: MediaEvent)
    requires
        ev != MediaEvent::Toggle,
    ensures
        spec_reduce_media_event(spec_reduce_media_event(status, ev).0, ev).0
            == spec_reduce_media_event(status, ev).0,
{
}

/// The bounded event queue between the bridge thread and the
/// coordinator. Its capacity is fixed at construction; a push onto a
/// full queue drops the event and reports it, so the producer can never
/// be made to wait.
pub struct EventQueue {
    pub items: VecDeque<MediaEvent>,
    pub cap: usize,
}

impl EventQueue {
    /// The queue never holds more than its capacity.
    pub open spec fn wf(&self) -> bool {
        self.items@.len() <= self.cap
    }

    pub fn new(cap: usize) -> (r: EventQueue)
        ensures
            r.wf(),
            r.items@.len() == 0,
            r.cap == cap,
    {
        EventQueue { items: VecDeque::new(), cap }
    }

    pub fn len(&self) -> (r: usize)
        ensures
            r == self.items@.len(),
    {
        self.items.len()
    }

    /// Non-blocking enqueue: appends when there is room, otherwise drops
    /// the event and leaves the queue exactly as it was.
    pub fn try_push(&mut self, ev: MediaEvent) -> (accepted: bool)
        requires
            old(self).wf(),
        ensures
            final(self).wf(),
            final(self).cap == old(self).cap,
            accepted ==> old(self).items@.len() < old(self).cap
                && final(self).items@ == old(self).items@.push(ev),
            !accepted ==> old(self).items@.len() == old(self).cap
                && final(self).items@ == old(self).items@,
    {
        if self.items.len() < self.cap {
            self.items.push_back(ev);
            true
        } else {
            false
        }
    }

    /// Non-blocking drain step: the front event, if any.
    pub fn try_pop(&mut self) -> (r: Option<MediaEvent>)
        requires
            old(self).wf(),
        ensures
            final(self).wf(),
            final(self).cap == old(self).cap,
            match r {
                Some(ev) => old(self).items@.len() > 0 && ev == old(self).items@[0]
                    && final(self).items@ == old(self).items@.drop_first(),
                None => old(self).items@.len() == 0 && final(self).items@ == old(self).items@,
            },
    {
        let r: Option<MediaEvent> = self.items.pop_front();
        proof {
            if old(self).items@.len() > 0 {
                assert(self.items@ =~= old(self).items@.drop_first());
            }
        }
        r
    }
}

} // verus!
