//! The match command: one motion goal that sends the robot to the pose of
//! the ghost, followed from submission to its terminal result.
//!
//! A [`MatchSession`] reads the pose cache once, when it begins, and builds
//! its goal from that snapshot. The driver submits the goal and reports what
//! the action protocol answers as [`GoalEvent`]s: first whether the goal was
//! accepted, later how it ended. A goal that ended counts as a success of the
//! command whatever its status, `Aborted` included: the motion was carried
//! out or was legitimately cut short. A goal that was never taken has no
//! result. Nothing is retried.

use crate::pose::{PoseCache, PoseSnapshot, PoseSnapshotView, Scalar};
use vstd::prelude::*;

verus! {

/// The bit pattern of the binary64 number nearest to one tenth.
pub const ONE_TENTH: u64 = 0x3FB9_9999_9999_999A;

/// The command of a motion goal: what to do, where to, and how fast.
#[derive(Debug, PartialEq, Eq)]
pub struct MatchGoal {
    /// The kind of motion.
    pub command: String,
    /// Whether `joint_positions` is the target of the motion.
    pub use_joint_positions: bool,
    /// The pose to move to.
    pub joint_positions: PoseSnapshot,
    /// The speed, as a fraction of the maximum.
    pub velocity: Scalar,
    /// The acceleration, as a fraction of the maximum.
    pub acceleration: Scalar,
}

/// A [`MatchGoal`] as a mathematical value.
pub struct MatchGoalView {
    pub command: Seq<char>,
    pub use_joint_positions: bool,
    pub joint_positions: PoseSnapshotView,
    pub velocity: Scalar,
    pub acceleration: Scalar,
}

impl View for MatchGoal {
    type V = MatchGoalView;

    open spec fn view(&self) -> MatchGoalView {
        MatchGoalView {
            command: self.command@,
            use_joint_positions: self.use_joint_positions,
            joint_positions: self.joint_positions@,
            velocity: self.velocity,
            acceleration: self.acceleration,
        }
    }
}

impl MatchGoalView {
    /// The goal that sends the robot to `snapshot`: a move in joint space to
    /// the positions of the snapshot, at a tenth of the maximal speed and
    /// acceleration.
    pub open spec fn matching(snapshot: PoseSnapshotView) -> MatchGoalView {
        MatchGoalView {
            command: "move_j"@,
            use_joint_positions: true,
            joint_positions: snapshot,
            velocity: Scalar { bits: ONE_TENTH },
            acceleration: Scalar { bits: ONE_TENTH },
        }
    }
}

impl MatchGoal {
    /// The goal that sends the robot to `snapshot`: a move in joint space to
    /// the positions of the snapshot, at a tenth of the maximal speed and
    /// acceleration.
    pub fn matching(snapshot: PoseSnapshot) -> (goal: MatchGoal)
        ensures
            goal@ == MatchGoalView::matching(snapshot@),
    {
        MatchGoal {
            command: "move_j".to_owned(),
            use_joint_positions: true,
            joint_positions: snapshot,
            velocity: Scalar { bits: ONE_TENTH },
            acceleration: Scalar { bits: ONE_TENTH },
        }
    }
}

/// The status of a goal, as the action protocol reports it.
#[derive(Clone, Copy, Debug, PartialEq, Eq, Structural)]
pub enum GoalStatus {
    Unknown,
    Accepted,
    Executing,
    Canceling,
    Succeeded,
    Canceled,
    Aborted,
}

impl GoalStatus {
    /// Whether a goal with this status has come to its end.
    pub open spec fn spec_is_terminal(self) -> bool {
        self is Succeeded || self is Canceled || self is Aborted
    }

    /// Whether a goal with this status has come to its end.
    #[verifier::when_used_as_spec(spec_is_terminal)]
    pub fn is_terminal(self) -> (yes: bool)
        ensures
            yes == self.spec_is_terminal(),
    {
        match self {
            GoalStatus::Succeeded => true,
            GoalStatus::Canceled => true,
            GoalStatus::Aborted => true,
            _ => false,
        }
    }
}

/// Why a goal was never taken.
#[derive(Clone, Copy, Debug, PartialEq, Eq, Structural)]
pub enum Rejection {
    /// The goal could not be sent.
    NotSent,
    /// The goal was sent and was not accepted.
    NotAccepted,
}

/// What the driver reports to a session.
#[derive(Debug, PartialEq, Eq)]
pub enum GoalEvent {
    /// The goal could not be sent.
    SendFailed,
    /// The goal was sent and was not accepted.
    Refused,
    /// The goal was accepted.
    Accepted,
    /// The controller reported progress.
    Progress,
    /// The result arrived: a status and a message.
    Concluded(GoalStatus, String),
    /// The connection was lost while the result was awaited.
    Lost,
}

/// A [`GoalEvent`] as a mathematical value.
pub enum GoalEventView {
    SendFailed,
    Refused,
    Accepted,
    Progress,
    Concluded(GoalStatus, Seq<char>),
    Lost,
}

impl View for GoalEvent {
    type V = GoalEventView;

    open spec fn view(&self) -> GoalEventView {
        match self {
            GoalEvent::SendFailed => GoalEventView::SendFailed,
            GoalEvent::Refused => GoalEventView::Refused,
            GoalEvent::Accepted => GoalEventView::Accepted,
            GoalEvent::Progress => GoalEventView::Progress,
            GoalEvent::Concluded(status, message) => GoalEventView::Concluded(*status, message@),
            GoalEvent::Lost => GoalEventView::Lost,
        }
    }
}

/// What the driver is to do next.
#[derive(Clone, Copy, Debug, PartialEq, Eq, Structural)]
pub enum GoalAction {
    /// Send the goal and wait for the answer; report `SendFailed`, `Refused`
    /// or `Accepted`.
    Submit,
    /// Wait for the result; report `Concluded` or `Lost`, and `Progress` in
    /// between if the driver follows it.
    AwaitResult,
    /// Nothing more: the session has its outcome.
    Finish,
}

/// Where a goal stands.
#[derive(Debug, PartialEq, Eq)]
pub enum GoalLifecycleState {
    /// The goal is handed to the driver and not answered yet.
    Submitted,
    /// The goal was accepted.
    Accepted,
    /// The controller is carrying the goal out.
    Executing,
    /// The goal came to its end, with this status and message.
    Terminal(GoalStatus, String),
    /// The goal was never taken.
    Rejected(Rejection),
    /// The connection was lost before the result arrived.
    Disconnected,
}

/// A [`GoalLifecycleState`] as a mathematical value.
pub enum GoalLifecycleStateView {
    Submitted,
    Accepted,
    Executing,
    Terminal(GoalStatus, Seq<char>),
    Rejected(Rejection),
    Disconnected,
}

impl View for GoalLifecycleState {
    type V = GoalLifecycleStateView;

    open spec fn view(&self) -> GoalLifecycleStateView {
        match self {
            GoalLifecycleState::Submitted => GoalLifecycleStateView::Submitted,
            GoalLifecycleState::Accepted => GoalLifecycleStateView::Accepted,
            GoalLifecycleState::Executing => GoalLifecycleStateView::Executing,
            GoalLifecycleState::Terminal(status, message) => GoalLifecycleStateView::Terminal(
                *status,
                message@,
            ),
            GoalLifecycleState::Rejected(rejection) => GoalLifecycleStateView::Rejected(*rejection),
            GoalLifecycleState::Disconnected => GoalLifecycleStateView::Disconnected,
        }
    }
}

/// What a match came to.
#[derive(Debug, PartialEq, Eq)]
pub enum GoalOutcome {
    /// The goal was never taken: there is no result.
    NoResult(Rejection),
    /// The goal came to its end, with this status and message.
    Success { status: GoalStatus, message: String },
    /// The connection was lost before the result arrived.
    Failure,
}

/// A [`GoalOutcome`] as a mathematical value.
pub enum GoalOutcomeView {
    NoResult(Rejection),
    Success { status: GoalStatus, message: Seq<char> },
    Failure,
}

impl View for GoalOutcome {
    type V = GoalOutcomeView;

    open spec fn view(&self) -> GoalOutcomeView {
        match self {
            GoalOutcome::NoResult(rejection) => GoalOutcomeView::NoResult(*rejection),
            GoalOutcome::Success { status, message } => GoalOutcomeView::Success {
                status: *status,
                message: message@,
            },
            GoalOutcome::Failure => GoalOutcomeView::Failure,
        }
    }
}

impl GoalOutcome {
    /// Whether the match succeeded: whether the goal came to its end.
    pub fn succeeded(&self) -> (yes: bool)
        ensures
            yes == (self@ is Success),
    {
        match self {
            GoalOutcome::Success { .. } => true,
            _ => false,
        }
    }
}

impl GoalLifecycleStateView {
    /// Whether a goal in this state has use for `event`.
    pub open spec fn expects(self, event: GoalEventView) -> bool {
        match (self, event) {
            (GoalLifecycleStateView::Submitted, GoalEventView::SendFailed) => true,
            (GoalLifecycleStateView::Submitted, GoalEventView::Refused) => true,
            (GoalLifecycleStateView::Submitted, GoalEventView::Accepted) => true,
            (GoalLifecycleStateView::Accepted, GoalEventView::Progress) => true,
            (GoalLifecycleStateView::Accepted, GoalEventView::Concluded(_, _)) => true,
            (GoalLifecycleStateView::Accepted, GoalEventView::Lost) => true,
            (GoalLifecycleStateView::Executing, GoalEventView::Progress) => true,
            (GoalLifecycleStateView::Executing, GoalEventView::Concluded(_, _)) => true,
            (GoalLifecycleStateView::Executing, GoalEventView::Lost) => true,
            _ => false,
        }
    }

    /// The state after `event`. An event that the state has no use for
    /// changes nothing.
    pub open spec fn next(self, event: GoalEventView) -> GoalLifecycleStateView {
        match (self, event) {
            (GoalLifecycleStateView::Submitted, GoalEventView::SendFailed) => {
                GoalLifecycleStateView::Rejected(Rejection::NotSent)
            },
            (GoalLifecycleStateView::Submitted, GoalEventView::Refused) => {
                GoalLifecycleStateView::Rejected(Rejection::NotAccepted)
            },
            (GoalLifecycleStateView::Submitted, GoalEventView::Accepted) => {
                GoalLifecycleStateView::Accepted
            },
            (GoalLifecycleStateView::Accepted, GoalEventView::Progress) => {
                GoalLifecycleStateView::Executing
            },
            (GoalLifecycleStateView::Accepted, GoalEventView::Concluded(status, message)) => {
                GoalLifecycleStateView::Terminal(status, message)
            },
            (GoalLifecycleStateView::Accepted, GoalEventView::Lost) => {
                GoalLifecycleStateView::Disconnected
            },
            (GoalLifecycleStateView::Executing, GoalEventView::Progress) => {
                GoalLifecycleStateView::Executing
            },
            (GoalLifecycleStateView::Executing, GoalEventView::Concluded(status, message)) => {
                GoalLifecycleStateView::Terminal(status, message)
            },
            (GoalLifecycleStateView::Executing, GoalEventView::Lost) => {
                GoalLifecycleStateView::Disconnected
            },
            _ => self,
        }
    }

    /// What the driver is to do in this state.
    pub open spec fn action(self) -> GoalAction {
        match self {
            GoalLifecycleStateView::Submitted => GoalAction::Submit,
            GoalLifecycleStateView::Accepted => GoalAction::AwaitResult,
            GoalLifecycleStateView::Executing => GoalAction::AwaitResult,
            _ => GoalAction::Finish,
        }
    }

    /// What the match came to, once the goal is over; `None` while it is
    /// under way.
    pub open spec fn outcome(self) -> Option<GoalOutcomeView> {
        match self {
            GoalLifecycleStateView::Terminal(status, message) => Some(
                GoalOutcomeView::Success { status, message },
            ),
            GoalLifecycleStateView::Rejected(rejection) => Some(
                GoalOutcomeView::NoResult(rejection),
            ),
            GoalLifecycleStateView::Disconnected => Some(GoalOutcomeView::Failure),
            _ => None,
        }
    }
}

/// A [`MatchSession`] as a mathematical value: its goal and where it stands.
pub struct MatchSessionView {
    pub goal: MatchGoalView,
    pub lifecycle: GoalLifecycleStateView,
}

impl MatchSessionView {
    /// The session that begins when the pose is `snapshot`.
    pub open spec fn begin(snapshot: PoseSnapshotView) -> MatchSessionView {
        MatchSessionView {
            goal: MatchGoalView::matching(snapshot),
            lifecycle: GoalLifecycleStateView::Submitted,
        }
    }

    /// The session after `event`: the goal as it was, the lifecycle one step
    /// on.
    pub open spec fn next(self, event: GoalEventView) -> MatchSessionView {
        MatchSessionView { goal: self.goal, lifecycle: self.lifecycle.next(event) }
    }

    /// The session after a sequence of events, taken in order.
    pub open spec fn run(self, events: Seq<GoalEventView>) -> MatchSessionView
        decreases events.len(),
    {
        if events.len() == 0 {
            self
        } else {
            self.run(events.drop_last()).next(events.last())
        }
    }
}

/// One invocation of the match command.
///
/// A session is begun by [`MatchSession::begin`] and moved on by
/// [`MatchSession::step`], and in no other way: its goal is the one that was
/// built at the start, and where it stands is where the events that were
/// reported to it have led.
pub struct MatchSession {
    goal: MatchGoal,
    lifecycle: GoalLifecycleState,
    history: Ghost<Seq<GoalEventView>>,
}

impl View for MatchSession {
    type V = MatchSessionView;

    closed spec fn view(&self) -> MatchSessionView {
        MatchSessionView { goal: self.goal@, lifecycle: self.lifecycle@ }
    }
}

impl MatchSession {
    /// The events that were reported to this session, in order.
    pub closed spec fn history(&self) -> Seq<GoalEventView> {
        self.history@
    }

    #[verifier::type_invariant]
    spec fn reached(&self) -> bool {
        self@ == MatchSessionView::begin(self.goal@.joint_positions).run(self.history@)
    }

    /// Begins a match: reads the pose from `cache`, now, and builds the goal
    /// from that snapshot. What the cache holds later is of no account.
    pub fn begin(cache: &PoseCache) -> (session: MatchSession)
        ensures
            session@ == MatchSessionView::begin(cache@),
            session.history() == Seq::<GoalEventView>::empty(),
    {
        MatchSession {
            goal: MatchGoal::matching(cache.read()),
            lifecycle: GoalLifecycleState::Submitted,
            history: Ghost(Seq::empty()),
        }
    }

    /// The goal of this match: the one that was built when the match began.
    /// It never changes.
    pub fn goal(&self) -> (goal: &MatchGoal)
        ensures
            goal@ == self@.goal,
            goal@ == MatchGoalView::matching(goal@.joint_positions),
    {
        proof {
            use_type_invariant(self);
            goal_is_fixed_at_start(self.goal@.joint_positions, Seq::empty(), self.history@);
        }
        &self.goal
    }

    /// Where the goal stands: where the events reported so far have led.
    pub fn lifecycle(&self) -> (lifecycle: &GoalLifecycleState)
        ensures
            lifecycle@ == self@.lifecycle,
            self@ == MatchSessionView::begin(self@.goal.joint_positions).run(self.history()),
    {
        proof {
            use_type_invariant(self);
        }
        &self.lifecycle
    }

    /// What the driver is to do next.
    pub fn action(&self) -> (action: GoalAction)
        ensures
            action == self@.lifecycle.action(),
    {
        match &self.lifecycle {
            GoalLifecycleState::Submitted => GoalAction::Submit,
            GoalLifecycleState::Accepted => GoalAction::AwaitResult,
            GoalLifecycleState::Executing => GoalAction::AwaitResult,
            _ => GoalAction::Finish,
        }
    }

    /// Whether the session has use for `event` as it stands.
    pub fn expects(&self, event: &GoalEvent) -> (yes: bool)
        ensures
            yes == self@.lifecycle.expects(event@),
    {
        match (&self.lifecycle, event) {
            (GoalLifecycleState::Submitted, GoalEvent::SendFailed) => true,
            (GoalLifecycleState::Submitted, GoalEvent::Refused) => true,
            (GoalLifecycleState::Submitted, GoalEvent::Accepted) => true,
            (GoalLifecycleState::Accepted, GoalEvent::Progress) => true,
            (GoalLifecycleState::Accepted, GoalEvent::Concluded(_, _)) => true,
            (GoalLifecycleState::Accepted, GoalEvent::Lost) => true,
            (GoalLifecycleState::Executing, GoalEvent::Progress) => true,
            (GoalLifecycleState::Executing, GoalEvent::Concluded(_, _)) => true,
            (GoalLifecycleState::Executing, GoalEvent::Lost) => true,
            _ => false,
        }
    }

    /// Takes one event and moves on: the session after it is
    /// `self@.next(event@)`, with the same goal. An event that the session
    /// has no use for leaves it where it is.
    pub fn step(self, event: GoalEvent) -> (session: MatchSession)
        ensures
            session@ == self@.next(event@),
            session.history() == self.history().push(event@),
    {
        proof {
            use_type_invariant(&self);
            run_push(
                MatchSessionView::begin(self.goal@.joint_positions),
                self.history@,
                event@,
            );
        }
        let ghost history = self.history@.push(event@);
        let lifecycle = match (self.lifecycle, event) {
            (GoalLifecycleState::Submitted, GoalEvent::SendFailed) => {
                GoalLifecycleState::Rejected(Rejection::NotSent)
            },
            (GoalLifecycleState::Submitted, GoalEvent::Refused) => {
                GoalLifecycleState::Rejected(Rejection::NotAccepted)
            },
            (GoalLifecycleState::Submitted, GoalEvent::Accepted) => GoalLifecycleState::Accepted,
            (GoalLifecycleState::Accepted, GoalEvent::Progress) => GoalLifecycleState::Executing,
            (GoalLifecycleState::Accepted, GoalEvent::Concluded(status, message)) => {
                GoalLifecycleState::Terminal(status, message)
            },
            (GoalLifecycleState::Accepted, GoalEvent::Lost) => GoalLifecycleState::Disconnected,
            (GoalLifecycleState::Executing, GoalEvent::Progress) => GoalLifecycleState::Executing,
            (GoalLifecycleState::Executing, GoalEvent::Concluded(status, message)) => {
                GoalLifecycleState::Terminal(status, message)
            },
            (GoalLifecycleState::Executing, GoalEvent::Lost) => GoalLifecycleState::Disconnected,
            (lifecycle, _) => lifecycle,
        };
        MatchSession { goal: self.goal, lifecycle, history: Ghost(history) }
    }

    /// What the match came to, once the goal is over; `None` while it is
    /// under way. An outcome is backed by the events that were reported: see
    /// [`backed_by`].
    pub fn outcome(&self) -> (outcome: Option<GoalOutcome>)
        ensures
            outcome.is_some() == self@.lifecycle.outcome().is_some(),
            outcome matches Some(outcome) ==> Some(outcome@) == self@.lifecycle.outcome(),
            backed_by(self@.lifecycle, self.history()),
    {
        proof {
            use_type_invariant(self);
            every_outcome_is_backed(self.goal@.joint_positions, self.history@);
        }
        match &self.lifecycle {
            GoalLifecycleState::Terminal(status, message) => Some(
                GoalOutcome::Success { status: *status, message: message.clone() },
            ),
            GoalLifecycleState::Rejected(rejection) => Some(GoalOutcome::NoResult(*rejection)),
            GoalLifecycleState::Disconnected => Some(GoalOutcome::Failure),
            _ => None,
        }
    }
}

/// Running a sequence with one more event at its end is one more step.
pub proof fn run_push(session: MatchSessionView, events: Seq<GoalEventView>, event: GoalEventView)
    ensures
        session.run(events.push(event)) == session.run(events).next(event),
{
    assert(events.push(event).drop_last() =~= events);
}

/// A session carries the goal that was built from the pose read at its
/// start, whatever is reported to it afterwards. If the cache is given other
/// positions after that read, the goal still holds the snapshot from before
/// the update, and not the one after it.
pub proof fn goal_is_fixed_at_start(
    snapshot: PoseSnapshotView,
    later: Seq<Scalar>,
    events: Seq<GoalEventView>,
)
    ensures
        MatchSessionView::begin(snapshot).run(events).goal == MatchGoalView::matching(snapshot),
        MatchSessionView::begin(snapshot).run(events).goal.joint_positions == snapshot,
        later != snapshot.positions ==> MatchSessionView::begin(snapshot).run(
            events,
        ).goal.joint_positions != snapshot.with_positions(later),
    decreases events.len(),
{
    if events.len() > 0 {
        goal_is_fixed_at_start(snapshot, later, events.drop_last());
    }
}

/// A goal that was accepted and came to its end is a success of the match,
/// whatever its status: `Aborted` as much as `Succeeded`. The outcome keeps
/// the status and the message. This holds whether or not progress was
/// reported in between.
pub proof fn ended_goal_is_success(
    snapshot: PoseSnapshotView,
    status: GoalStatus,
    message: Seq<char>,
    with_progress: bool,
)
    ensures
        MatchSessionView::begin(snapshot).run(
            if with_progress {
                seq![
                    GoalEventView::Accepted,
                    GoalEventView::Progress,
                    GoalEventView::Concluded(status, message),
                ]
            } else {
                seq![GoalEventView::Accepted, GoalEventView::Concluded(status, message)]
            },
        ).lifecycle.outcome() == Some(GoalOutcomeView::Success { status, message }),
{
    let begun = MatchSessionView::begin(snapshot);
    let none = Seq::<GoalEventView>::empty();
    let accepted = GoalEventView::Accepted;
    let progress = GoalEventView::Progress;
    let concluded = GoalEventView::Concluded(status, message);
    assert(begun.run(none) == begun);
    run_push(begun, none, accepted);
    if with_progress {
        run_push(begun, none.push(accepted), progress);
        run_push(begun, none.push(accepted).push(progress), concluded);
        assert(seq![accepted, progress, concluded] =~= none.push(accepted).push(progress).push(
            concluded,
        ));
    } else {
        run_push(begun, none.push(accepted), concluded);
        assert(seq![accepted, concluded] =~= none.push(accepted).push(concluded));
    }
}

/// A goal that could not be sent, or was sent and not accepted, ends the
/// match in one step and without a result.
pub proof fn untaken_goal_has_no_result(snapshot: PoseSnapshotView)
    ensures
        MatchSessionView::begin(snapshot).next(GoalEventView::SendFailed).lifecycle.outcome()
            == Some(GoalOutcomeView::NoResult(Rejection::NotSent)),
        MatchSessionView::begin(snapshot).next(GoalEventView::Refused).lifecycle.outcome() == Some(
            GoalOutcomeView::NoResult(Rejection::NotAccepted),
        ),
{
}

/// What each event that a goal has use for leads to: a result is a success,
/// a lost connection a failure, a goal not taken no result; and only these
/// end the match.
pub proof fn outcome_by_event(lifecycle: GoalLifecycleStateView, event: GoalEventView)
    requires
        lifecycle.expects(event),
    ensures
        lifecycle.outcome() is None,
        lifecycle.next(event).outcome() == match event {
            GoalEventView::SendFailed => Some(GoalOutcomeView::NoResult(Rejection::NotSent)),
            GoalEventView::Refused => Some(GoalOutcomeView::NoResult(Rejection::NotAccepted)),
            GoalEventView::Concluded(status, message) => Some(
                GoalOutcomeView::Success { status, message },
            ),
            GoalEventView::Lost => Some(GoalOutcomeView::Failure),
            GoalEventView::Accepted => None,
            GoalEventView::Progress => None,
        },
{
}

/// What a state owes to the events that led to it. A goal is held as
/// accepted only if that was reported, and as carried out only if progress
/// was. A goal that ended was accepted before, and its status and message
/// are those of the result that was reported. A goal that was not taken was
/// reported so, and a lost connection likewise.
pub open spec fn backed_by(lifecycle: GoalLifecycleStateView, events: Seq<GoalEventView>) -> bool {
    match lifecycle {
        GoalLifecycleStateView::Submitted => true,
        GoalLifecycleStateView::Accepted => events.contains(GoalEventView::Accepted),
        GoalLifecycleStateView::Executing => events.contains(GoalEventView::Accepted)
            && events.contains(GoalEventView::Progress),
        GoalLifecycleStateView::Terminal(status, message) => events.contains(
            GoalEventView::Accepted,
        ) && events.contains(GoalEventView::Concluded(status, message)),
        GoalLifecycleStateView::Rejected(Rejection::NotSent) => events.contains(
            GoalEventView::SendFailed,
        ),
        GoalLifecycleStateView::Rejected(Rejection::NotAccepted) => events.contains(
            GoalEventView::Refused,
        ),
        GoalLifecycleStateView::Disconnected => events.contains(GoalEventView::Accepted)
            && events.contains(GoalEventView::Lost),
    }
}

/// Whatever is reported to a match, and in whatever order, the state it is
/// in is backed by what was reported: no match succeeds unless its goal was
/// accepted and a result arrived, and the outcome keeps the status and the
/// message of that result.
pub proof fn every_outcome_is_backed(snapshot: PoseSnapshotView, events: Seq<GoalEventView>)
    ensures
        backed_by(MatchSessionView::begin(snapshot).run(events).lifecycle, events),
    decreases events.len(),
{
    if events.len() > 0 {
        let earlier = events.drop_last();
        let event = events.last();
        every_outcome_is_backed(snapshot, earlier);
        assert(events.contains(event)) by {
            assert(events[events.len() - 1] == event);
        }
        assert forall|other: GoalEventView| earlier.contains(other) implies events.contains(
            other,
        ) by {
            let i = choose|i: int| 0 <= i < earlier.len() && earlier[i] == other;
            assert(events[i] == other);
        }
    }
}

/// How far a goal is from its end, in events that count.
pub open spec fn remaining(lifecycle: GoalLifecycleStateView) -> nat {
    match lifecycle {
        GoalLifecycleStateView::Submitted => 2,
        GoalLifecycleStateView::Accepted => 1,
        GoalLifecycleStateView::Executing => 1,
        _ => 0,
    }
}

/// Every event that a goal has use for, but a report of progress, brings it
/// nearer to its end, and an event that it has no use for leaves it where it
/// is. A goal that is over has use for none. So a match is over after the
/// answer to the goal and, if it was accepted, its result, however much
/// progress is reported in between.
pub proof fn every_step_advances(lifecycle: GoalLifecycleStateView, event: GoalEventView)
    ensures
        lifecycle.expects(event) && !(event is Progress) ==> remaining(lifecycle.next(event))
            < remaining(lifecycle),
        lifecycle.expects(event) && event is Progress ==> lifecycle.next(event)
            == GoalLifecycleStateView::Executing,
        !lifecycle.expects(event) ==> lifecycle.next(event) == lifecycle,
        remaining(lifecycle) == 0 <==> lifecycle.outcome() is Some,
        lifecycle.outcome() is Some ==> !lifecycle.expects(event),
{
}

/// A match that is over stays as it is, and the session asks for nothing
/// more exactly when it is over.
pub proof fn finished_is_final(session: MatchSessionView, events: Seq<GoalEventView>)
    ensures
        session.lifecycle.outcome() is Some <==> session.lifecycle.action() == GoalAction::Finish,
        session.lifecycle.outcome() is Some ==> session.run(events) == session,
    decreases events.len(),
{
    if events.len() > 0 {
        finished_is_final(session, events.drop_last());
    }
}

} // verus!
