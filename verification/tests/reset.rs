use teaching_tools::reset::{
    Completion, FailureReason, ResetAction, ResetEvent, ResetOutcome, ResetSession, ResetState,
    Target, TargetOutcome, TriggerReply,
};

fn reply(success: bool, message: &str) -> Completion {
    Completion::Replied(TriggerReply { success, message: message.to_string() })
}

fn ended(target: Target, completion: Completion) -> ResetEvent {
    ResetEvent::Completed(target, completion)
}

fn both_sent() -> ResetSession {
    ResetSession::begin()
        .step(ResetEvent::Sent(Target::GhostProxy))
        .step(ResetEvent::Sent(Target::Marker))
}

fn logical(message: &str) -> FailureReason {
    FailureReason::Logical(message.to_string())
}

#[test]
fn targets_have_their_names() {
    assert_eq!(Target::GhostProxy.name(), "ghost");
    assert_eq!(Target::Marker.name(), "marker");
}

#[test]
fn a_new_reset_asks_for_the_ghost_request() {
    let session = ResetSession::begin();
    assert_eq!(session.state(), &ResetState::Idle);
    assert_eq!(session.action(), ResetAction::Send(Target::GhostProxy));
    assert_eq!(session.outcome(), None);
}

#[test]
fn the_actions_of_a_full_reset_in_order() {
    let session = ResetSession::begin();
    assert_eq!(session.action(), ResetAction::Send(Target::GhostProxy));
    let session = session.step(ResetEvent::Sent(Target::GhostProxy));
    assert_eq!(session.state(), &ResetState::GhostSent);
    assert_eq!(session.action(), ResetAction::Send(Target::Marker));
    let session = session.step(ResetEvent::Sent(Target::Marker));
    assert_eq!(session.state(), &ResetState::BothSent);
    assert_eq!(session.action(), ResetAction::Await);
    let session = session.step(ended(Target::GhostProxy, reply(true, "done")));
    assert_eq!(session.state(), &ResetState::GhostDone(reply(true, "done")));
    assert_eq!(session.action(), ResetAction::Await);
    assert_eq!(session.outcome(), None);
    let session = session.step(ended(Target::Marker, reply(true, "")));
    assert_eq!(session.state(), &ResetState::Finished(ResetOutcome::Success));
    assert_eq!(session.action(), ResetAction::Finish);
    assert_eq!(session.outcome(), Some(&ResetOutcome::Success));
}

#[test]
fn both_succeed_ghost_first() {
    let session = both_sent()
        .step(ended(Target::GhostProxy, reply(true, "ghost is home")))
        .step(ended(Target::Marker, reply(true, "marker is home")));
    let outcome = session.outcome().expect("the reset is over");
    assert_eq!(outcome, &ResetOutcome::Success);
    assert!(outcome.succeeded());
    assert_eq!(outcome.failed_target(), None);
}

#[test]
fn both_succeed_marker_first() {
    let session = both_sent()
        .step(ended(Target::Marker, reply(true, "")))
        .step(ended(Target::GhostProxy, reply(true, "")));
    assert_eq!(session.state(), &ResetState::Finished(ResetOutcome::Success));
    assert_eq!(session.outcome(), Some(&ResetOutcome::Success));
}

#[test]
fn the_first_completion_is_remembered_marker_first() {
    let session = both_sent().step(ended(Target::Marker, reply(false, "stuck")));
    assert_eq!(session.state(), &ResetState::MarkerDone(reply(false, "stuck")));
    assert_eq!(session.action(), ResetAction::Await);
    assert_eq!(session.outcome(), None);
}

#[test]
fn jammed_marker_is_named() {
    let session = both_sent()
        .step(ended(Target::GhostProxy, reply(true, "")))
        .step(ended(Target::Marker, reply(false, "jammed")));
    let outcome = session.outcome().expect("the reset is over");
    assert_eq!(
        outcome,
        &ResetOutcome::Failure { target: Target::Marker, reason: logical("jammed") }
    );
    assert!(!outcome.succeeded());
    let target = outcome.failed_target().expect("a failure names its target");
    assert_eq!(target, Target::Marker);
    assert_eq!(target.name(), "marker");
}

#[test]
fn jammed_marker_is_named_when_it_answers_first() {
    let session = both_sent()
        .step(ended(Target::Marker, reply(false, "jammed")))
        .step(ended(Target::GhostProxy, reply(true, "")));
    assert_eq!(
        session.outcome(),
        Some(&ResetOutcome::Failure { target: Target::Marker, reason: logical("jammed") })
    );
}

#[test]
fn failing_ghost_is_named() {
    let session = both_sent()
        .step(ended(Target::GhostProxy, reply(false, "no ghost")))
        .step(ended(Target::Marker, reply(true, "")));
    let outcome = session.outcome().expect("the reset is over");
    assert_eq!(
        outcome,
        &ResetOutcome::Failure { target: Target::GhostProxy, reason: logical("no ghost") }
    );
    assert_eq!(outcome.failed_target().map(|t| t.name()), Some("ghost"));
}

#[test]
fn when_both_fail_the_ghost_is_named() {
    for ghost_first in [true, false] {
        let ghost = ended(Target::GhostProxy, reply(false, "g"));
        let marker = ended(Target::Marker, reply(false, "m"));
        let session = if ghost_first {
            both_sent().step(ghost).step(marker)
        } else {
            both_sent().step(marker).step(ghost)
        };
        assert_eq!(
            session.outcome(),
            Some(&ResetOutcome::Failure { target: Target::GhostProxy, reason: logical("g") })
        );
    }
}

#[test]
fn a_failed_reset_still_waits_for_both_answers() {
    let session = both_sent().step(ended(Target::GhostProxy, reply(false, "no")));
    assert_eq!(session.action(), ResetAction::Await);
    assert_eq!(session.outcome(), None);
}

#[test]
fn ghost_request_that_cannot_be_sent_ends_the_reset() {
    let session = ResetSession::begin().step(ResetEvent::SendFailed(Target::GhostProxy));
    assert_eq!(session.action(), ResetAction::Finish);
    assert_eq!(
        session.outcome(),
        Some(&ResetOutcome::Failure { target: Target::GhostProxy, reason: FailureReason::Dispatch })
    );
}

#[test]
fn marker_request_that_cannot_be_sent_ends_the_reset_without_waiting() {
    let session = ResetSession::begin()
        .step(ResetEvent::Sent(Target::GhostProxy))
        .step(ResetEvent::SendFailed(Target::Marker));
    assert_eq!(session.action(), ResetAction::Finish);
    let outcome = session.outcome().expect("the reset is over");
    assert_eq!(
        outcome,
        &ResetOutcome::Failure { target: Target::Marker, reason: FailureReason::Dispatch }
    );
    assert!(!outcome.succeeded());
    assert_eq!(outcome.failed_target(), Some(Target::Marker));
}

#[test]
fn a_dispatch_failure_is_told_apart_from_a_refusal() {
    let unsent = ResetSession::begin().step(ResetEvent::SendFailed(Target::GhostProxy));
    let refused = both_sent()
        .step(ended(Target::GhostProxy, reply(false, "")))
        .step(ended(Target::Marker, reply(true, "")));
    assert_ne!(unsent.outcome(), refused.outcome());
    assert_eq!(unsent.outcome().and_then(|o| o.failed_target()), Some(Target::GhostProxy));
    assert_eq!(refused.outcome().and_then(|o| o.failed_target()), Some(Target::GhostProxy));
}

#[test]
fn lost_connection_to_the_ghost_is_a_transport_failure() {
    let session = both_sent()
        .step(ended(Target::GhostProxy, Completion::Lost))
        .step(ended(Target::Marker, reply(true, "")));
    assert_eq!(
        session.outcome(),
        Some(&ResetOutcome::Failure {
            target: Target::GhostProxy,
            reason: FailureReason::Transport
        })
    );
}

#[test]
fn lost_connection_to_the_marker_is_a_transport_failure() {
    let session = both_sent()
        .step(ended(Target::Marker, Completion::Lost))
        .step(ended(Target::GhostProxy, reply(true, "")));
    assert_eq!(
        session.outcome(),
        Some(&ResetOutcome::Failure { target: Target::Marker, reason: FailureReason::Transport })
    );
}

#[test]
fn events_out_of_turn_change_nothing() {
    let session = ResetSession::begin();
    assert!(!session.expects(&ResetEvent::Sent(Target::Marker)));
    let session = session.step(ResetEvent::Sent(Target::Marker));
    assert_eq!(session.state(), &ResetState::Idle);
    let session = session.step(ended(Target::GhostProxy, reply(true, "")));
    assert_eq!(session.state(), &ResetState::Idle);

    let session = session.step(ResetEvent::Sent(Target::GhostProxy));
    assert!(!session.expects(&ResetEvent::Sent(Target::GhostProxy)));
    assert!(!session.expects(&ended(Target::GhostProxy, reply(true, ""))));
    let session = session.step(ResetEvent::Sent(Target::GhostProxy));
    let session = session.step(ended(Target::GhostProxy, reply(true, "")));
    assert_eq!(session.state(), &ResetState::GhostSent);

    let session = session.step(ResetEvent::Sent(Target::Marker));
    let session = session.step(ResetEvent::SendFailed(Target::Marker));
    assert_eq!(session.state(), &ResetState::BothSent);

    let session = session.step(ended(Target::GhostProxy, reply(true, "once")));
    assert!(!session.expects(&ended(Target::GhostProxy, reply(false, "twice"))));
    let session = session.step(ended(Target::GhostProxy, reply(false, "twice")));
    assert_eq!(session.state(), &ResetState::GhostDone(reply(true, "once")));
}

#[test]
fn expected_events_by_state() {
    let idle = ResetSession::begin();
    assert!(idle.expects(&ResetEvent::Sent(Target::GhostProxy)));
    assert!(idle.expects(&ResetEvent::SendFailed(Target::GhostProxy)));
    assert!(!idle.expects(&ResetEvent::SendFailed(Target::Marker)));
    let ghost_sent = idle.step(ResetEvent::Sent(Target::GhostProxy));
    assert!(ghost_sent.expects(&ResetEvent::Sent(Target::Marker)));
    assert!(ghost_sent.expects(&ResetEvent::SendFailed(Target::Marker)));
    assert!(!ghost_sent.expects(&ResetEvent::SendFailed(Target::GhostProxy)));
    let sent = ghost_sent.step(ResetEvent::Sent(Target::Marker));
    assert!(sent.expects(&ended(Target::GhostProxy, Completion::Lost)));
    assert!(sent.expects(&ended(Target::Marker, reply(true, ""))));
    assert!(!sent.expects(&ResetEvent::Sent(Target::Marker)));
    let ghost_done = sent.step(ended(Target::GhostProxy, Completion::Lost));
    assert!(ghost_done.expects(&ended(Target::Marker, reply(true, ""))));
    assert!(!ghost_done.expects(&ended(Target::GhostProxy, reply(true, ""))));
    let marker_done = both_sent().step(ended(Target::Marker, Completion::Lost));
    assert!(marker_done.expects(&ended(Target::GhostProxy, reply(true, ""))));
    assert!(!marker_done.expects(&ended(Target::Marker, reply(true, ""))));
}

#[test]
fn a_finished_reset_stays_finished() {
    let session = both_sent()
        .step(ended(Target::GhostProxy, reply(true, "")))
        .step(ended(Target::Marker, reply(true, "")));
    assert!(!session.expects(&ResetEvent::Sent(Target::GhostProxy)));
    assert!(!session.expects(&ended(Target::Marker, reply(false, "late"))));
    let session = session
        .step(ResetEvent::Sent(Target::GhostProxy))
        .step(ResetEvent::SendFailed(Target::Marker))
        .step(ended(Target::Marker, reply(false, "late")))
        .step(ended(Target::GhostProxy, Completion::Lost));
    assert_eq!(session.outcome(), Some(&ResetOutcome::Success));
    assert_eq!(session.action(), ResetAction::Finish);
}

#[test]
fn two_resets_in_a_row_both_succeed() {
    for _ in 0..2 {
        let session = both_sent()
            .step(ended(Target::GhostProxy, reply(true, "")))
            .step(ended(Target::Marker, reply(true, "")));
        assert_eq!(session.outcome(), Some(&ResetOutcome::Success));
    }
}

#[test]
fn a_reset_after_a_failed_one_starts_anew() {
    let failed = ResetSession::begin().step(ResetEvent::SendFailed(Target::GhostProxy));
    assert!(!failed.outcome().expect("over").succeeded());
    let again = both_sent()
        .step(ended(Target::Marker, reply(true, "")))
        .step(ended(Target::GhostProxy, reply(true, "")));
    assert_eq!(again.outcome(), Some(&ResetOutcome::Success));
}

#[test]
fn completion_counts_as_its_outcome() {
    assert_eq!(reply(true, "fine").outcome(), TargetOutcome::Success);
    assert_eq!(reply(false, "jammed").outcome(), TargetOutcome::Failure(logical("jammed")));
    assert_eq!(reply(false, "").outcome(), TargetOutcome::Failure(logical("")));
    assert_eq!(Completion::Lost.outcome(), TargetOutcome::Failure(FailureReason::Transport));
}

#[test]
fn join_of_two_outcomes() {
    let ok = || TargetOutcome::Success;
    let bad = |m: &str| TargetOutcome::Failure(logical(m));
    assert_eq!(ResetOutcome::combine(ok(), ok()), ResetOutcome::Success);
    assert_eq!(
        ResetOutcome::combine(ok(), bad("m")),
        ResetOutcome::Failure { target: Target::Marker, reason: logical("m") }
    );
    assert_eq!(
        ResetOutcome::combine(bad("g"), ok()),
        ResetOutcome::Failure { target: Target::GhostProxy, reason: logical("g") }
    );
    assert_eq!(
        ResetOutcome::combine(bad("g"), bad("m")),
        ResetOutcome::Failure { target: Target::GhostProxy, reason: logical("g") }
    );
    assert_eq!(
        ResetOutcome::combine(ok(), TargetOutcome::Failure(FailureReason::Transport)),
        ResetOutcome::Failure { target: Target::Marker, reason: FailureReason::Transport }
    );
    assert_eq!(
        ResetOutcome::combine(TargetOutcome::Failure(FailureReason::Dispatch), ok()),
        ResetOutcome::Failure { target: Target::GhostProxy, reason: FailureReason::Dispatch }
    );
}

#[test]
fn undelivered_names_the_target() {
    assert_eq!(
        ResetOutcome::undelivered(Target::Marker),
        ResetOutcome::Failure { target: Target::Marker, reason: FailureReason::Dispatch }
    );
    assert_eq!(
        ResetOutcome::undelivered(Target::GhostProxy).failed_target(),
        Some(Target::GhostProxy)
    );
}
