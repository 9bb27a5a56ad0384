use teaching_tools::dispatch::{Console, Launch, Message};
use teaching_tools::goal::{GoalAction, GoalEvent, GoalLifecycleState, GoalStatus};
use teaching_tools::pose::{Header, PoseCache, PoseSnapshot, Scalar, Stamp};
use teaching_tools::reset::{
    Completion, ResetAction, ResetEvent, ResetOutcome, ResetSession, ResetState, Target,
    TriggerReply,
};

fn scalars(values: &[f64]) -> Vec<Scalar> {
    values.iter().map(|v| Scalar { bits: v.to_bits() }).collect()
}

fn floats(values: &[Scalar]) -> Vec<f64> {
    values.iter().map(|s| f64::from_bits(s.bits)).collect()
}

fn run_successful_reset(session: ResetSession) -> ResetSession {
    let ok = || Completion::Replied(TriggerReply { success: true, message: String::new() });
    session
        .step(ResetEvent::Sent(Target::GhostProxy))
        .step(ResetEvent::Sent(Target::Marker))
        .step(ResetEvent::Completed(Target::GhostProxy, ok()))
        .step(ResetEvent::Completed(Target::Marker, ok()))
}

#[test]
fn new_console_has_seen_no_pose() {
    let console = Console::new();
    assert_eq!(console.pose(), PoseSnapshot::empty());
}

#[test]
fn console_around_a_cache_shows_its_pose() {
    let start = PoseSnapshot {
        header: Header { stamp: Stamp { sec: 8, nanosec: 9 }, frame_id: "ghost".to_string() },
        positions: scalars(&[0.1, 0.2]),
    };
    let console = Console::with_cache(PoseCache::holding(start.clone()));
    assert_eq!(console.pose(), start);
}

#[test]
fn observe_stores_poses_and_reports_gaps() {
    let mut console = Console::new();
    assert!(console.observe(Some(scalars(&[1.0, 2.0]))));
    assert_eq!(floats(&console.pose().positions), vec![1.0, 2.0]);
    assert!(!console.observe(None));
    assert_eq!(floats(&console.pose().positions), vec![1.0, 2.0]);
    assert!(console.observe(Some(scalars(&[3.0]))));
    assert_eq!(floats(&console.pose().positions), vec![3.0]);
}

#[test]
fn empty_message_launches_nothing() {
    let mut console = Console::new();
    console.observe(Some(scalars(&[1.0])));
    assert!(matches!(console.handle(Message::Empty), Launch::Idle));
    assert_eq!(floats(&console.pose().positions), vec![1.0]);
}

#[test]
fn reset_message_launches_a_new_reset() {
    let mut console = Console::new();
    match console.handle(Message::Reset) {
        Launch::Reset(session) => {
            assert_eq!(session.state(), &ResetState::Idle);
            assert_eq!(session.action(), ResetAction::Send(Target::GhostProxy));
        }
        _ => panic!("a reset was asked for"),
    }
}

#[test]
fn match_message_launches_a_match_to_the_current_pose() {
    let mut console = Console::new();
    console.observe(Some(scalars(&[0.1, 0.2, 0.3, 0.4, 0.5, 0.6])));
    match console.handle(Message::Match) {
        Launch::Match(session) => {
            assert_eq!(session.lifecycle(), &GoalLifecycleState::Submitted);
            assert_eq!(session.action(), GoalAction::Submit);
            let goal = session.goal();
            assert_eq!(
                floats(&goal.joint_positions.positions),
                vec![0.1, 0.2, 0.3, 0.4, 0.5, 0.6]
            );
            assert_eq!(f64::from_bits(goal.velocity.bits), 0.1);
            assert_eq!(f64::from_bits(goal.acceleration.bits), 0.1);
            assert!(goal.use_joint_positions);
        }
        _ => panic!("a match was asked for"),
    }
    assert_eq!(floats(&console.pose().positions), vec![0.1, 0.2, 0.3, 0.4, 0.5, 0.6]);
}

#[test]
fn a_match_under_way_ignores_later_poses() {
    let mut console = Console::new();
    console.observe(Some(scalars(&[0.1, 0.2])));
    let session = match console.handle(Message::Match) {
        Launch::Match(session) => session,
        _ => panic!("a match was asked for"),
    };
    console.observe(Some(scalars(&[5.0, 6.0])));
    let session = session.step(GoalEvent::Accepted);
    console.observe(Some(scalars(&[7.0, 8.0])));
    let session = session.step(GoalEvent::Concluded(GoalStatus::Succeeded, String::new()));
    assert_eq!(floats(&session.goal().joint_positions.positions), vec![0.1, 0.2]);
    assert_eq!(floats(&console.pose().positions), vec![7.0, 8.0]);
}

#[test]
fn two_resets_leave_the_pose_as_it_was() {
    let start = PoseSnapshot {
        header: Header { stamp: Stamp { sec: 1, nanosec: 2 }, frame_id: "ghost".to_string() },
        positions: scalars(&[0.1, 0.2, 0.3]),
    };
    let mut console = Console::with_cache(PoseCache::holding(start.clone()));
    for _ in 0..2 {
        let session = match console.handle(Message::Reset) {
            Launch::Reset(session) => session,
            _ => panic!("a reset was asked for"),
        };
        let session = run_successful_reset(session);
        assert_eq!(session.outcome(), Some(&ResetOutcome::Success));
        assert_eq!(console.pose(), start);
    }
}

#[test]
fn two_matches_in_a_row_are_both_launched() {
    let mut console = Console::new();
    console.observe(Some(scalars(&[0.1])));
    let first = match console.handle(Message::Match) {
        Launch::Match(session) => session,
        _ => panic!("a match was asked for"),
    };
    console.observe(Some(scalars(&[0.2])));
    let second = match console.handle(Message::Match) {
        Launch::Match(session) => session,
        _ => panic!("a match was asked for"),
    };
    assert_eq!(first.action(), GoalAction::Submit);
    assert_eq!(second.action(), GoalAction::Submit);
    assert_eq!(floats(&first.goal().joint_positions.positions), vec![0.1]);
    assert_eq!(floats(&second.goal().joint_positions.positions), vec![0.2]);
}

#[test]
fn sessions_and_console_can_be_handed_to_another_thread() {
    fn sendable<T: Send + 'static>(value: T) -> T {
        value
    }
    let mut console = sendable(Console::new());
    console.observe(Some(scalars(&[0.5])));
    let launch = sendable(console.handle(Message::Match));
    let session = match launch {
        Launch::Match(session) => sendable(session),
        _ => panic!("a match was asked for"),
    };
    assert_eq!(floats(&session.goal().joint_positions.positions), vec![0.5]);
    let reset = sendable(ResetSession::begin());
    assert_eq!(reset.action(), ResetAction::Send(Target::GhostProxy));
}

#[test]
fn acknowledgement_is_empty_either_way() {
    assert_eq!(Message::acknowledge(true), Message::Empty);
    assert_eq!(Message::acknowledge(false), Message::Empty);
}

#[test]
fn acknowledgement_launches_nothing() {
    let mut console = Console::new();
    assert!(matches!(console.handle(Message::acknowledge(true)), Launch::Idle));
}
