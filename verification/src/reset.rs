//! The reset command: two trigger calls, one to the ghost and one to the
//! teaching marker, joined so that the command succeeds only if both do.
//!
//! A [`ResetSession`] follows one invocation. The driver asks the session what
//! to do ([`ResetSession::action`]), does it, and reports what came of it as a
//! [`ResetEvent`] ([`ResetSession::step`]). Both requests are sent before any
//! answer is awaited; the answers may come in either order; both are awaited
//! before the session finishes. A request that cannot even be sent finishes
//! the session at once. Nothing is retried.

use vstd::prelude::*;

verus! {

/// The two endpoints of a reset.
#[derive(Clone, Copy, Debug, PartialEq, Eq, Structural)]
pub enum Target {
    GhostProxy,
    Marker,
}

impl Target {
    /// The name a target goes by in diagnostics.
    pub open spec fn spec_name(self) -> Seq<char> {
        match self {
            Target::GhostProxy => "ghost"@,
            Target::Marker => "marker"@,
        }
    }

    /// The name a target goes by in diagnostics: `"ghost"` or `"marker"`.
    pub fn name(self) -> (name: &'static str)
        ensures
            name@ == self.spec_name(),
    {
        match self {
            Target::GhostProxy => "ghost",
            Target::Marker => "marker",
        }
    }
}

/// The answer of a trigger service: a success flag and a message.
#[derive(Debug, PartialEq, Eq)]
pub struct TriggerReply {
    pub success: bool,
    pub message: String,
}

/// A [`TriggerReply`] as a mathematical value.
pub struct TriggerReplyView {
    pub success: bool,
    pub message: Seq<char>,
}

impl View for TriggerReply {
    type V = TriggerReplyView;

    open spec fn view(&self) -> TriggerReplyView {
        TriggerReplyView { success: self.success, message: self.message@ }
    }
}

/// How a call that was sent came to its end.
#[derive(Debug, PartialEq, Eq)]
pub enum Completion {
    /// The endpoint answered.
    Replied(TriggerReply),
    /// The connection was lost while the answer was awaited.
    Lost,
}

/// A [`Completion`] as a mathematical value.
pub enum CompletionView {
    Replied(TriggerReplyView),
    Lost,
}

impl View for Completion {
    type V = CompletionView;

    open spec fn view(&self) -> CompletionView {
        match self {
            Completion::Replied(reply) => CompletionView::Replied(reply@),
            Completion::Lost => CompletionView::Lost,
        }
    }
}

/// Why a call failed.
#[derive(Debug, PartialEq, Eq)]
pub enum FailureReason {
    /// The request could not be sent.
    Dispatch,
    /// The connection was lost while the answer was awaited.
    Transport,
    /// The endpoint answered that it did not succeed; its message is kept.
    Logical(String),
}

/// A [`FailureReason`] as a mathematical value.
pub enum FailureReasonView {
    Dispatch,
    Transport,
    Logical(Seq<char>),
}

impl View for FailureReason {
    type V = FailureReasonView;

    open spec fn view(&self) -> FailureReasonView {
        match self {
            FailureReason::Dispatch => FailureReasonView::Dispatch,
            FailureReason::Transport => FailureReasonView::Transport,
            FailureReason::Logical(message) => FailureReasonView::Logical(message@),
        }
    }
}

/// What one target's call came to.
#[derive(Debug, PartialEq, Eq)]
pub enum TargetOutcome {
    Success,
    Failure(FailureReason),
}

/// A [`TargetOutcome`] as a mathematical value.
pub enum TargetOutcomeView {
    Success,
    Failure(FailureReasonView),
}

impl View for TargetOutcome {
    type V = TargetOutcomeView;

    open spec fn view(&self) -> TargetOutcomeView {
        match self {
            TargetOutcome::Success => TargetOutcomeView::Success,
            TargetOutcome::Failure(reason) => TargetOutcomeView::Failure(reason@),
        }
    }
}

impl CompletionView {
    /// Whether the endpoint answered, and answered that it did not succeed.
    pub open spec fn refused(self) -> bool {
        self matches CompletionView::Replied(reply) && !reply.success
    }

    /// What a completed call counts as: a success only if the endpoint
    /// answered and said so.
    pub open spec fn outcome(self) -> TargetOutcomeView {
        match self {
            CompletionView::Replied(reply) => if reply.success {
                TargetOutcomeView::Success
            } else {
                TargetOutcomeView::Failure(FailureReasonView::Logical(reply.message))
            },
            CompletionView::Lost => TargetOutcomeView::Failure(FailureReasonView::Transport),
        }
    }
}

impl Completion {
    /// What a completed call counts as: a success only if the endpoint
    /// answered and said so. A refusal keeps the endpoint's message.
    pub fn outcome(self) -> (outcome: TargetOutcome)
        ensures
            outcome@ == self@.outcome(),
    {
        match self {
            Completion::Replied(reply) => if reply.success {
                TargetOutcome::Success
            } else {
                TargetOutcome::Failure(FailureReason::Logical(reply.message))
            },
            Completion::Lost => TargetOutcome::Failure(FailureReason::Transport),
        }
    }
}

/// What a reset came to: success, or the first target that failed and why.
#[derive(Debug, PartialEq, Eq)]
pub enum ResetOutcome {
    Success,
    Failure { target: Target, reason: FailureReason },
}

/// A [`ResetOutcome`] as a mathematical value.
pub enum ResetOutcomeView {
    Success,
    Failure { target: Target, reason: FailureReasonView },
}

impl View for ResetOutcome {
    type V = ResetOutcomeView;

    open spec fn view(&self) -> ResetOutcomeView {
        match self {
            ResetOutcome::Success => ResetOutcomeView::Success,
            ResetOutcome::Failure { target, reason } => ResetOutcomeView::Failure {
                target: *target,
                reason: reason@,
            },
        }
    }
}

impl ResetOutcomeView {
    /// The join of the two calls: success if and only if both succeeded;
    /// else the failure of the ghost if it failed, and that of the marker if
    /// only the marker did.
    pub open spec fn combine(
        ghost: TargetOutcomeView,
        marker: TargetOutcomeView,
    ) -> ResetOutcomeView {
        match ghost {
            TargetOutcomeView::Failure(reason) => ResetOutcomeView::Failure {
                target: Target::GhostProxy,
                reason,
            },
            TargetOutcomeView::Success => match marker {
                TargetOutcomeView::Failure(reason) => ResetOutcomeView::Failure {
                    target: Target::Marker,
                    reason,
                },
                TargetOutcomeView::Success => ResetOutcomeView::Success,
            },
        }
    }

    /// The outcome of a reset in which `target` could not be sent its request.
    pub open spec fn undelivered(target: Target) -> ResetOutcomeView {
        ResetOutcomeView::Failure { target, reason: FailureReasonView::Dispatch }
    }
}

impl ResetOutcome {
    /// The outcome of a reset in which `target` could not be sent its request.
    pub fn undelivered(target: Target) -> (outcome: ResetOutcome)
        ensures
            outcome@ == ResetOutcomeView::undelivered(target),
    {
        ResetOutcome::Failure { target, reason: FailureReason::Dispatch }
    }

    /// Joins the outcomes of the two calls: success if and only if both
    /// succeeded; else the failure of the ghost if it failed, and that of the
    /// marker if only the marker did.
    pub fn combine(ghost: TargetOutcome, marker: TargetOutcome) -> (outcome: ResetOutcome)
        ensures
            outcome@ == ResetOutcomeView::combine(ghost@, marker@),
    {
        match ghost {
            TargetOutcome::Failure(reason) => ResetOutcome::Failure {
                target: Target::GhostProxy,
                reason,
            },
            TargetOutcome::Success => match marker {
                TargetOutcome::Failure(reason) => ResetOutcome::Failure {
                    target: Target::Marker,
                    reason,
                },
                TargetOutcome::Success => ResetOutcome::Success,
            },
        }
    }

    /// Whether the reset succeeded.
    pub fn succeeded(&self) -> (yes: bool)
        ensures
            yes == (self@ is Success),
    {
        match self {
            ResetOutcome::Success => true,
            ResetOutcome::Failure { .. } => false,
        }
    }

    /// The target that the failure is attributed to, if the reset failed.
    pub fn failed_target(&self) -> (target: Option<Target>)
        ensures
            target == match self@ {
                ResetOutcomeView::Success => None::<Target>,
                ResetOutcomeView::Failure { target, .. } => Some(target),
            },
    {
        match self {
            ResetOutcome::Success => None,
            ResetOutcome::Failure { target, .. } => Some(*target),
        }
    }
}

/// What the driver reports to a session.
#[derive(Debug, PartialEq, Eq)]
pub enum ResetEvent {
    /// The request to this target was sent.
    Sent(Target),
    /// The request to this target could not be sent.
    SendFailed(Target),
    /// The call to this target came to its end.
    Completed(Target, Completion),
}

/// A [`ResetEvent`] as a mathematical value.
pub enum ResetEventView {
    Sent(Target),
    SendFailed(Target),
    Completed(Target, CompletionView),
}

impl View for ResetEvent {
    type V = ResetEventView;

    open spec fn view(&self) -> ResetEventView {
        match self {
            ResetEvent::Sent(target) => ResetEventView::Sent(*target),
            ResetEvent::SendFailed(target) => ResetEventView::SendFailed(*target),
            ResetEvent::Completed(target, completion) => ResetEventView::Completed(
                *target,
                completion@,
            ),
        }
    }
}

/// What the driver is to do next.
#[derive(Clone, Copy, Debug, PartialEq, Eq, Structural)]
pub enum ResetAction {
    /// Send the request to this target and report `Sent` or `SendFailed`.
    Send(Target),
    /// Wait until a call in flight comes to its end and report `Completed`.
    Await,
    /// Nothing more: the session has its outcome.
    Finish,
}

/// Where a reset stands.
#[derive(Debug, PartialEq, Eq)]
pub enum ResetState {
    /// Nothing was sent yet.
    Idle,
    /// The ghost's request is in flight; the marker's is not sent yet.
    GhostSent,
    /// Both requests are in flight.
    BothSent,
    /// The ghost's call has ended; the marker's is in flight.
    GhostDone(Completion),
    /// The marker's call has ended; the ghost's is in flight.
    MarkerDone(Completion),
    /// The reset is over.
    Finished(ResetOutcome),
}

/// A [`ResetState`] as a mathematical value.
pub enum ResetStateView {
    Idle,
    GhostSent,
    BothSent,
    GhostDone(CompletionView),
    MarkerDone(CompletionView),
    Finished(ResetOutcomeView),
}

impl View for ResetState {
    type V = ResetStateView;

    open spec fn view(&self) -> ResetStateView {
        match self {
            ResetState::Idle => ResetStateView::Idle,
            ResetState::GhostSent => ResetStateView::GhostSent,
            ResetState::BothSent => ResetStateView::BothSent,
            ResetState::GhostDone(completion) => ResetStateView::GhostDone(completion@),
            ResetState::MarkerDone(completion) => ResetStateView::MarkerDone(completion@),
            ResetState::Finished(outcome) => ResetStateView::Finished(outcome@),
        }
    }
}

impl ResetStateView {
    /// Whether a session in this state has use for `event`.
    ///
    /// The ghost's request is sent first, then the marker's; once both are in
    /// flight, each call ends once, in either order.
    pub open spec fn expects(self, event: ResetEventView) -> bool {
        match (self, event) {
            (ResetStateView::Idle, ResetEventView::Sent(Target::GhostProxy)) => true,
            (ResetStateView::Idle, ResetEventView::SendFailed(Target::GhostProxy)) => true,
            (ResetStateView::GhostSent, ResetEventView::Sent(Target::Marker)) => true,
            (ResetStateView::GhostSent, ResetEventView::SendFailed(Target::Marker)) => true,
            (ResetStateView::BothSent, ResetEventView::Completed(_, _)) => true,
            (ResetStateView::GhostDone(_), ResetEventView::Completed(Target::Marker, _)) => true,
            (
                ResetStateView::MarkerDone(_),
                ResetEventView::Completed(Target::GhostProxy, _),
            ) => true,
            _ => false,
        }
    }

    /// The state after `event`.
    ///
    /// A request that cannot be sent ends the reset at once, whatever is in
    /// flight. The first call to end is remembered; the second one ends the
    /// reset with the join of the two. An event that the state has no use for
    /// changes nothing.
    pub open spec fn next(self, event: ResetEventView) -> ResetStateView {
        match (self, event) {
            (ResetStateView::Idle, ResetEventView::Sent(Target::GhostProxy)) => {
                ResetStateView::GhostSent
            },
            (ResetStateView::Idle, ResetEventView::SendFailed(Target::GhostProxy)) => {
                ResetStateView::Finished(ResetOutcomeView::undelivered(Target::GhostProxy))
            },
            (ResetStateView::GhostSent, ResetEventView::Sent(Target::Marker)) => {
                ResetStateView::BothSent
            },
            (ResetStateView::GhostSent, ResetEventView::SendFailed(Target::Marker)) => {
                ResetStateView::Finished(ResetOutcomeView::undelivered(Target::Marker))
            },
            (
                ResetStateView::BothSent,
                ResetEventView::Completed(Target::GhostProxy, ghost),
            ) => ResetStateView::GhostDone(ghost),
            (ResetStateView::BothSent, ResetEventView::Completed(Target::Marker, marker)) => {
                ResetStateView::MarkerDone(marker)
            },
            (
                ResetStateView::GhostDone(ghost),
                ResetEventView::Completed(Target::Marker, marker),
            ) => ResetStateView::Finished(
                ResetOutcomeView::combine(ghost.outcome(), marker.outcome()),
            ),
            (
                ResetStateView::MarkerDone(marker),
                ResetEventView::Completed(Target::GhostProxy, ghost),
            ) => ResetStateView::Finished(
                ResetOutcomeView::combine(ghost.outcome(), marker.outcome()),
            ),
            _ => self,
        }
    }

    /// What the driver is to do in this state.
    pub open spec fn action(self) -> ResetAction {
        match self {
            ResetStateView::Idle => ResetAction::Send(Target::GhostProxy),
            ResetStateView::GhostSent => ResetAction::Send(Target::Marker),
            ResetStateView::BothSent => ResetAction::Await,
            ResetStateView::GhostDone(_) => ResetAction::Await,
            ResetStateView::MarkerDone(_) => ResetAction::Await,
            ResetStateView::Finished(_) => ResetAction::Finish,
        }
    }

    /// The state after a sequence of events, taken in order.
    pub open spec fn run(self, events: Seq<ResetEventView>) -> ResetStateView
        decreases events.len(),
    {
        if events.len() == 0 {
            self
        } else {
            self.run(events.drop_last()).next(events.last())
        }
    }
}

/// One invocation of the reset command.
///
/// A session is begun by [`ResetSession::begin`] and moved on by
/// [`ResetSession::step`], and in no other way: where it stands is where the
/// events that were reported to it have led, from the start.
pub struct ResetSession {
    state: ResetState,
    history: Ghost<Seq<ResetEventView>>,
}

impl View for ResetSession {
    type V = ResetStateView;

    closed spec fn view(&self) -> ResetStateView {
        self.state@
    }
}

impl ResetSession {
    /// The events that were reported to this session, in order.
    pub closed spec fn history(&self) -> Seq<ResetEventView> {
        self.history@
    }

    #[verifier::type_invariant]
    spec fn reached(&self) -> bool {
        self.state@ == ResetStateView::Idle.run(self.history@)
    }

    /// A new reset, with nothing sent yet.
    pub fn begin() -> (session: ResetSession)
        ensures
            session@ == ResetStateView::Idle,
            session.history() == Seq::<ResetEventView>::empty(),
    {
        ResetSession { state: ResetState::Idle, history: Ghost(Seq::empty()) }
    }

    /// Where the reset stands: where the events reported so far have led.
    pub fn state(&self) -> (state: &ResetState)
        ensures
            state@ == self@,
            self@ == ResetStateView::Idle.run(self.history()),
    {
        proof {
            use_type_invariant(self);
        }
        &self.state
    }

    /// What the driver is to do next.
    pub fn action(&self) -> (action: ResetAction)
        ensures
            action == self@.action(),
    {
        match &self.state {
            ResetState::Idle => ResetAction::Send(Target::GhostProxy),
            ResetState::GhostSent => ResetAction::Send(Target::Marker),
            ResetState::BothSent => ResetAction::Await,
            ResetState::GhostDone(_) => ResetAction::Await,
            ResetState::MarkerDone(_) => ResetAction::Await,
            ResetState::Finished(_) => ResetAction::Finish,
        }
    }

    /// Whether the session has use for `event` as it stands.
    pub fn expects(&self, event: &ResetEvent) -> (yes: bool)
        ensures
            yes == self@.expects(event@),
    {
        match (&self.state, event) {
            (ResetState::Idle, ResetEvent::Sent(Target::GhostProxy)) => true,
            (ResetState::Idle, ResetEvent::SendFailed(Target::GhostProxy)) => true,
            (ResetState::GhostSent, ResetEvent::Sent(Target::Marker)) => true,
            (ResetState::GhostSent, ResetEvent::SendFailed(Target::Marker)) => true,
            (ResetState::BothSent, ResetEvent::Completed(_, _)) => true,
            (ResetState::GhostDone(_), ResetEvent::Completed(Target::Marker, _)) => true,
            (ResetState::MarkerDone(_), ResetEvent::Completed(Target::GhostProxy, _)) => true,
            _ => false,
        }
    }

    /// Takes one event and moves on: the session after it is
    /// `self@.next(event@)`. An event that the session has no use for leaves
    /// it where it is.
    pub fn step(self, event: ResetEvent) -> (session: ResetSession)
        ensures
            session@ == self@.next(event@),
            session.history() == self.history().push(event@),
    {
        proof {
            use_type_invariant(&self);
            run_push(ResetStateView::Idle, self.history@, event@);
        }
        let ghost history = self.history@.push(event@);
        let state = match (self.state, event) {
            (ResetState::Idle, ResetEvent::Sent(Target::GhostProxy)) => ResetState::GhostSent,
            (ResetState::Idle, ResetEvent::SendFailed(Target::GhostProxy)) => {
                ResetState::Finished(ResetOutcome::undelivered(Target::GhostProxy))
            },
            (ResetState::GhostSent, ResetEvent::Sent(Target::Marker)) => ResetState::BothSent,
            (ResetState::GhostSent, ResetEvent::SendFailed(Target::Marker)) => {
                ResetState::Finished(ResetOutcome::undelivered(Target::Marker))
            },
            (ResetState::BothSent, ResetEvent::Completed(Target::GhostProxy, ghost)) => {
                ResetState::GhostDone(ghost)
            },
            (ResetState::BothSent, ResetEvent::Completed(Target::Marker, marker)) => {
                ResetState::MarkerDone(marker)
            },
            (ResetState::GhostDone(ghost), ResetEvent::Completed(Target::Marker, marker)) => {
                ResetState::Finished(ResetOutcome::combine(ghost.outcome(), marker.outcome()))
            },
            (ResetState::MarkerDone(marker), ResetEvent::Completed(Target::GhostProxy, ghost)) => {
                ResetState::Finished(ResetOutcome::combine(ghost.outcome(), marker.outcome()))
            },
            (state, _) => state,
        };
        ResetSession { state, history: Ghost(history) }
    }

    /// The outcome, once the reset is over; `None` while it is under way.
    /// An outcome is backed by the events that were reported: see
    /// [`backed_by`].
    pub fn outcome(&self) -> (outcome: Option<&ResetOutcome>)
        ensures
            match outcome {
                Some(outcome) => self@ == ResetStateView::Finished(outcome@),
                None => !(self@ is Finished),
            },
            backed_by(self@, self.history()),
    {
        proof {
            use_type_invariant(self);
            every_outcome_is_backed(self.history@);
        }
        match &self.state {
            ResetState::Finished(outcome) => Some(outcome),
            _ => None,
        }
    }
}

/// The events of a reset in which both requests were sent and both calls
/// came to their end: the ghost's first if `ghost_first`, else the marker's.
pub open spec fn exchange(
    ghost: CompletionView,
    marker: CompletionView,
    ghost_first: bool,
) -> Seq<ResetEventView> {
    let sent = seq![
        ResetEventView::Sent(Target::GhostProxy),
        ResetEventView::Sent(Target::Marker),
    ];
    let ghost_done = ResetEventView::Completed(Target::GhostProxy, ghost);
    let marker_done = ResetEventView::Completed(Target::Marker, marker);
    if ghost_first {
        sent.push(ghost_done).push(marker_done)
    } else {
        sent.push(marker_done).push(ghost_done)
    }
}

/// Running a sequence with one more event at its end is one more step.
pub proof fn run_push(state: ResetStateView, events: Seq<ResetEventView>, event: ResetEventView)
    ensures
        state.run(events.push(event)) == state.run(events).next(event),
{
    assert(events.push(event).drop_last() =~= events);
}

/// A reset in which both calls came to their end finishes with the join of
/// the two, whichever ended first.
pub proof fn completion_order_is_irrelevant(
    ghost: CompletionView,
    marker: CompletionView,
    ghost_first: bool,
)
    ensures
        ResetStateView::Idle.run(exchange(ghost, marker, ghost_first)) == ResetStateView::Finished(
            ResetOutcomeView::combine(ghost.outcome(), marker.outcome()),
        ),
{
    let idle = ResetStateView::Idle;
    let none = Seq::<ResetEventView>::empty();
    let e0 = ResetEventView::Sent(Target::GhostProxy);
    let e1 = ResetEventView::Sent(Target::Marker);
    let ghost_done = ResetEventView::Completed(Target::GhostProxy, ghost);
    let marker_done = ResetEventView::Completed(Target::Marker, marker);
    let e2 = if ghost_first { ghost_done } else { marker_done };
    let e3 = if ghost_first { marker_done } else { ghost_done };
    assert(idle.run(none) == idle);
    run_push(idle, none, e0);
    run_push(idle, none.push(e0), e1);
    run_push(idle, none.push(e0).push(e1), e2);
    run_push(idle, none.push(e0).push(e1).push(e2), e3);
    assert(exchange(ghost, marker, ghost_first) =~= none.push(e0).push(e1).push(e2).push(e3));
}

/// The join succeeds if and only if both calls succeeded. If it fails, it
/// names the ghost where the ghost failed, and the marker where only the
/// marker did, each with its own reason.
pub proof fn join_names_first_failure(ghost: TargetOutcomeView, marker: TargetOutcomeView)
    ensures
        ResetOutcomeView::combine(ghost, marker) is Success <==> ghost is Success
            && marker is Success,
        ghost matches TargetOutcomeView::Failure(reason) ==> ResetOutcomeView::combine(
            ghost,
            marker,
        ) == (ResetOutcomeView::Failure { target: Target::GhostProxy, reason }),
        ghost is Success ==> (marker matches TargetOutcomeView::Failure(reason)
            ==> ResetOutcomeView::combine(ghost, marker) == (ResetOutcomeView::Failure {
            target: Target::Marker,
            reason,
        })),
{
}

/// Where both endpoints answer that they succeeded, the reset succeeds,
/// whatever their messages say and whichever answered first.
pub proof fn reset_succeeds_when_both_succeed(
    ghost_message: Seq<char>,
    marker_message: Seq<char>,
    ghost_first: bool,
)
    ensures
        ResetStateView::Idle.run(
            exchange(
                CompletionView::Replied(
                    TriggerReplyView { success: true, message: ghost_message },
                ),
                CompletionView::Replied(
                    TriggerReplyView { success: true, message: marker_message },
                ),
                ghost_first,
            ),
        ) == ResetStateView::Finished(ResetOutcomeView::Success),
{
    completion_order_is_irrelevant(
        CompletionView::Replied(TriggerReplyView { success: true, message: ghost_message }),
        CompletionView::Replied(TriggerReplyView { success: true, message: marker_message }),
        ghost_first,
    );
}

/// Where an endpoint answers that it did not succeed, the reset fails,
/// whatever became of the other call and whichever ended first. If the ghost
/// answered, the failure names an endpoint that said so, with its message:
/// the ghost if the ghost did, else the marker.
pub proof fn reported_failure_is_attributed(
    ghost: CompletionView,
    marker: CompletionView,
    ghost_first: bool,
)
    requires
        ghost.refused() || marker.refused(),
    ensures
        ResetStateView::Idle.run(
            exchange(ghost, marker, ghost_first),
        ) matches ResetStateView::Finished(outcome) && outcome is Failure,
        ghost matches CompletionView::Replied(reply) ==> ResetStateView::Idle.run(
            exchange(ghost, marker, ghost_first),
        ) == ResetStateView::Finished(
            if !reply.success {
                ResetOutcomeView::Failure {
                    target: Target::GhostProxy,
                    reason: FailureReasonView::Logical(reply.message),
                }
            } else {
                ResetOutcomeView::Failure {
                    target: Target::Marker,
                    reason: FailureReasonView::Logical(marker->Replied_0.message),
                }
            },
        ),
{
    completion_order_is_irrelevant(ghost, marker, ghost_first);
}

/// A request that cannot be sent ends the reset with a dispatch failure of
/// that target, in one step: the session asks for nothing more, and so never
/// waits for the answer to a request that is in flight.
pub proof fn unsendable_request_ends_reset(state: ResetStateView, target: Target)
    requires
        state.expects(ResetEventView::SendFailed(target)),
    ensures
        state.next(ResetEventView::SendFailed(target)) == ResetStateView::Finished(
            ResetOutcomeView::undelivered(target),
        ),
        state.next(ResetEventView::SendFailed(target)).action() == ResetAction::Finish,
{
}

/// While no call has come to its end, the session waits only if both
/// requests are in flight: before that it asks for the next request to be
/// sent, and the failure to send it is an event it has use for.
pub proof fn no_wait_before_both_sent(state: ResetStateView)
    ensures
        state is Idle ==> state.action() == ResetAction::Send(Target::GhostProxy)
            && state.expects(ResetEventView::SendFailed(Target::GhostProxy)),
        state is GhostSent ==> state.action() == ResetAction::Send(Target::Marker)
            && state.expects(ResetEventView::SendFailed(Target::Marker)),
        state.action() == ResetAction::Await ==> !(state is Idle) && !(state is GhostSent),
{
}

/// A finished reset stays as it is: no event reopens it or changes its
/// outcome.
pub proof fn finished_is_final(outcome: ResetOutcomeView, events: Seq<ResetEventView>)
    ensures
        ResetStateView::Finished(outcome).run(events) == ResetStateView::Finished(outcome),
    decreases events.len(),
{
    if events.len() > 0 {
        finished_is_final(outcome, events.drop_last());
    }
}

/// How far a state is from the end, in events that it has use for.
pub open spec fn remaining(state: ResetStateView) -> nat {
    match state {
        ResetStateView::Idle => 4,
        ResetStateView::GhostSent => 3,
        ResetStateView::BothSent => 2,
        ResetStateView::GhostDone(_) => 1,
        ResetStateView::MarkerDone(_) => 1,
        ResetStateView::Finished(_) => 0,
    }
}

/// Every event that a session has use for brings it nearer to its end, and
/// any other event leaves it where it is. A finished session has use for
/// none. So a reset is over after at most four events that count: two
/// requests sent and two calls ended.
pub proof fn every_step_advances(state: ResetStateView, event: ResetEventView)
    ensures
        state.expects(event) ==> remaining(state.next(event)) < remaining(state),
        !state.expects(event) ==> state.next(event) == state,
        remaining(state) == 0 <==> state is Finished,
        state is Finished ==> !state.expects(event),
{
}

/// What a state owes to the events that led to it. A call that is held as
/// ended was reported so. A success rests on an answer of each endpoint that
/// says so. A failure rests on the event that it names: for its target, the
/// request that could not be sent, the connection that was lost, or the
/// answer that it did not succeed, with the message of that answer. A state
/// that holds no ended call owes nothing.
pub open spec fn backed_by(state: ResetStateView, events: Seq<ResetEventView>) -> bool {
    match state {
        ResetStateView::GhostDone(ghost) => events.contains(
            ResetEventView::Completed(Target::GhostProxy, ghost),
        ),
        ResetStateView::MarkerDone(marker) => events.contains(
            ResetEventView::Completed(Target::Marker, marker),
        ),
        ResetStateView::Finished(ResetOutcomeView::Success) => exists|
            ghost: CompletionView,
            marker: CompletionView,
        |
            #![trigger ghost.outcome(), marker.outcome()]
            ghost.outcome() is Success && marker.outcome() is Success && events.contains(
                ResetEventView::Completed(Target::GhostProxy, ghost),
            ) && events.contains(ResetEventView::Completed(Target::Marker, marker)),
        ResetStateView::Finished(ResetOutcomeView::Failure { target, reason }) => events.contains(
            match reason {
                FailureReasonView::Dispatch => ResetEventView::SendFailed(target),
                FailureReasonView::Transport => ResetEventView::Completed(
                    target,
                    CompletionView::Lost,
                ),
                FailureReasonView::Logical(message) => ResetEventView::Completed(
                    target,
                    CompletionView::Replied(TriggerReplyView { success: false, message }),
                ),
            },
        ),
        _ => true,
    }
}

/// Whatever is reported to a reset, and in whatever order, the state it is
/// in is backed by what was reported: no reset succeeds unless both
/// endpoints answered that they succeeded, and none names a target for a
/// failure that was not reported of that target.
pub proof fn every_outcome_is_backed(events: Seq<ResetEventView>)
    ensures
        backed_by(ResetStateView::Idle.run(events), events),
    decreases events.len(),
{
    if events.len() > 0 {
        let earlier = events.drop_last();
        let event = events.last();
        let before = ResetStateView::Idle.run(earlier);
        every_outcome_is_backed(earlier);
        assert(events.contains(event)) by {
            assert(events[events.len() - 1] == event);
        }
        assert forall|other: ResetEventView| earlier.contains(other) implies events.contains(
            other,
        ) by {
            let i = choose|i: int| 0 <= i < earlier.len() && earlier[i] == other;
            assert(events[i] == other);
        }
        match (before, event) {
            (
                ResetStateView::GhostDone(ghost),
                ResetEventView::Completed(Target::Marker, marker),
            ) => {
                let _ = (ghost.outcome(), marker.outcome());
            },
            (
                ResetStateView::MarkerDone(marker),
                ResetEventView::Completed(Target::GhostProxy, ghost),
            ) => {
                let _ = (ghost.outcome(), marker.outcome());
            },
            (ResetStateView::Finished(ResetOutcomeView::Success), _) => {
                let (ghost, marker) = choose|ghost: CompletionView, marker: CompletionView|
                    #![trigger ghost.outcome(), marker.outcome()]
                    ghost.outcome() is Success && marker.outcome() is Success && earlier.contains(
                        ResetEventView::Completed(Target::GhostProxy, ghost),
                    ) && earlier.contains(ResetEventView::Completed(Target::Marker, marker));
                let _ = (ghost.outcome(), marker.outcome());
            },
            _ => {},
        }
    }
}

/// A reset leaves nothing behind for the next one: each begins at `Idle`
/// and is moved by its own events alone. Two resets in a row, each answered
/// with success by both endpoints, both succeed.
pub proof fn reset_is_repeatable(
    first: (Seq<char>, Seq<char>, bool),
    second: (Seq<char>, Seq<char>, bool),
)
    ensures
        ResetStateView::Idle.run(
            exchange(
                CompletionView::Replied(TriggerReplyView { success: true, message: first.0 }),
                CompletionView::Replied(TriggerReplyView { success: true, message: first.1 }),
                first.2,
            ),
        ) == ResetStateView::Finished(ResetOutcomeView::Success),
        ResetStateView::Idle.run(
            exchange(
                CompletionView::Replied(TriggerReplyView { success: true, message: second.0 }),
                CompletionView::Replied(TriggerReplyView { success: true, message: second.1 }),
                second.2,
            ),
        ) == ResetStateView::Finished(ResetOutcomeView::Success),
{
    reset_succeeds_when_both_succeed(first.0, first.1, first.2);
    reset_succeeds_when_both_succeed(second.0, second.1, second.2);
}

} // verus!
