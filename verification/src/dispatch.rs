//! The console: what the operator's actions launch.
//!
//! A [`Console`] holds the pose cache for the life of the process. The pose
//! feed writes into it; an operator's action starts a session that the driver
//! then runs to its end. Starting a session never changes the pose, and a
//! session that runs has no way back to the console: a reset leaves the cache
//! alone, and a match keeps the pose it began with.

use crate::goal::{GoalEventView, MatchSession, MatchSessionView};
use crate::pose::{PoseCache, PoseSnapshot, PoseSnapshotView, Scalar};
use crate::reset::{ResetEventView, ResetSession, ResetStateView};
use vstd::prelude::*;

verus! {

/// What reaches the console from the user interface.
#[derive(Clone, Copy, Debug, PartialEq, Eq, Structural)]
pub enum Message {
    /// Nothing to do: the acknowledgement of a command that has run.
    Empty,
    /// The operator asked for a reset of the ghost and the marker.
    Reset,
    /// The operator asked for the robot to match the ghost.
    Match,
}

impl Message {
    /// The message that acknowledges a command that has run. It is the same
    /// whether the command succeeded or not: the user interface is told that
    /// the command is over, and nothing else.
    pub fn acknowledge(_succeeded: bool) -> (message: Message)
        ensures
            message == Message::Empty,
    {
        Message::Empty
    }
}

/// What the driver is to run in answer to a message.
pub enum Launch {
    /// Nothing.
    Idle,
    /// A reset, not begun yet.
    Reset(ResetSession),
    /// A match, with its goal built.
    Match(MatchSession),
}

/// A [`Launch`] as a mathematical value.
pub enum LaunchView {
    Idle,
    Reset(ResetStateView),
    Match(MatchSessionView),
}

impl View for Launch {
    type V = LaunchView;

    open spec fn view(&self) -> LaunchView {
        match self {
            Launch::Idle => LaunchView::Idle,
            Launch::Reset(session) => LaunchView::Reset(session@),
            Launch::Match(session) => LaunchView::Match(session@),
        }
    }
}

impl Launch {
    /// Whether the session to run, if there is one, has just begun: nothing
    /// was reported to it yet.
    pub open spec fn fresh(&self) -> bool {
        match self {
            Launch::Idle => true,
            Launch::Reset(session) => session.history() == Seq::<ResetEventView>::empty(),
            Launch::Match(session) => session.history() == Seq::<GoalEventView>::empty(),
        }
    }
}

impl LaunchView {
    /// What `message` launches when the pose is `pose`.
    pub open spec fn of(message: Message, pose: PoseSnapshotView) -> LaunchView {
        match message {
            Message::Empty => LaunchView::Idle,
            Message::Reset => LaunchView::Reset(ResetStateView::Idle),
            Message::Match => LaunchView::Match(MatchSessionView::begin(pose)),
        }
    }
}

/// The state that outlives a single command: the pose cache.
#[derive(Debug)]
pub struct Console {
    cache: PoseCache,
}

impl View for Console {
    type V = PoseSnapshotView;

    closed spec fn view(&self) -> PoseSnapshotView {
        self.cache@
    }
}

impl Console {
    /// A console that has seen no pose yet.
    pub fn new() -> (console: Console)
        ensures
            console@ == PoseSnapshotView::empty(),
    {
        Console { cache: PoseCache::new() }
    }

    /// A console around a given cache.
    pub fn with_cache(cache: PoseCache) -> (console: Console)
        ensures
            console@ == cache@,
    {
        Console { cache }
    }

    /// A copy of the pose that the console holds.
    pub fn pose(&self) -> (snapshot: PoseSnapshot)
        ensures
            snapshot@ == self@,
    {
        self.cache.read()
    }

    /// Takes one item of the pose feed: see [`PoseCache::ingest`].
    pub fn observe(&mut self, item: Option<Vec<Scalar>>) -> (stored: bool)
        ensures
            stored == item.is_some(),
            final(self)@ == match item {
                Some(positions) => old(self)@.with_positions(positions@),
                None => old(self)@,
            },
    {
        self.cache.ingest(item)
    }

    /// Answers a message with what it launches: a reset for `Reset`, a match
    /// built from the pose as it is now for `Match`, nothing for `Empty`. The
    /// pose is left as it was.
    pub fn handle(&mut self, message: Message) -> (launch: Launch)
        ensures
            launch@ == LaunchView::of(message, old(self)@),
            launch.fresh(),
            final(self)@ == old(self)@,
    {
        match message {
            Message::Empty => Launch::Idle,
            Message::Reset => Launch::Reset(ResetSession::begin()),
            Message::Match => Launch::Match(MatchSession::begin(&self.cache)),
        }
    }
}

} // verus!
