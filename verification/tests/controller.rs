use steering::command::Command;
use steering::command::TurnCommand;
use steering::command::WalkCommand;
use steering::command::walk_from_dist_sq;
use steering::controller::Gait;
use steering::controller::IngestAction;
use steering::controller::IngestEvent;
use steering::controller::Session;
use steering::controller::SinkOp;
use steering::controller::Telemetry;
use steering::controller::Waypoint;
use steering::controller::turn_actuator_step;
use steering::controller::walk_actuator_step;
use steering::vectors::Vector3D;

fn at(x: i64, y: i64, z: i64) -> Vector3D {
    Vector3D { x, y, z }
}

fn goal(x: i64, y: i64, z: i64) -> Waypoint {
    Waypoint { from: at(0, 0, 0), to: at(x, y, z) }
}

#[test]
fn far_waypoint_selects_run() {
    // Waypoint 10 units straight ahead, heading already aligned: distance
    // 10 is past the run threshold of 5, and the heading error is zero.
    let mut s = Session::new();
    s.push_waypoint(goal(0, 0, 10000));
    s.tick();
    assert_eq!(s.command, Command { turn: TurnCommand::Idle, walk: WalkCommand::Run });
    assert_eq!(s.queue.len(), 1);
}

#[test]
fn near_waypoint_selects_walk() {
    // Distance 3 is between the reach threshold of 1 and the run threshold
    // of 5.
    let mut s = Session::new();
    s.push_waypoint(goal(0, 0, 3000));
    s.tick();
    assert_eq!(s.command.walk, WalkCommand::Walk);
    assert_eq!(s.queue.len(), 1);
}

#[test]
fn reached_waypoint_is_popped_and_walk_idles() {
    // Distance 0.5 is under the reach threshold of 1: the waypoint is
    // consumed this tick and the gait goes idle.
    let mut s = Session::new();
    s.push_waypoint(goal(0, 0, 500));
    s.tick();
    assert_eq!(s.command.walk, WalkCommand::Idle);
    assert_eq!(s.queue.len(), 0);
}

#[test]
fn walk_thresholds_are_exact() {
    // Exactly 5 units is still Walk; anything beyond runs.
    assert_eq!(walk_from_dist_sq(25_000_000), WalkCommand::Walk);
    assert_eq!(walk_from_dist_sq(25_010_001), WalkCommand::Run);
    // Exactly 1 unit is not yet reached.
    assert_eq!(walk_from_dist_sq(1_000_000), WalkCommand::Walk);
    assert_eq!(walk_from_dist_sq(999_999), WalkCommand::Idle);
}

#[test]
fn second_waypoint_becomes_active_next_tick() {
    // After the first waypoint is reached, the very next tick steers by
    // the second: nothing is skipped.
    let mut s = Session::new();
    s.push_waypoint(goal(0, 0, 500));
    s.push_waypoint(goal(0, 0, 10000));
    s.tick();
    assert_eq!(s.queue.len(), 1);
    assert_eq!(s.queue[0].to, at(0, 0, 10000));
    s.tick();
    assert_eq!(s.command.walk, WalkCommand::Run);
    assert_eq!(s.queue.len(), 1);
}

#[test]
fn thresholds_are_exact_at_session_level() {
    // Exactly 1 unit away: not yet reached, so the waypoint stays and the
    // gait is Walk.
    let mut s = Session::new();
    s.push_waypoint(goal(0, 0, 1000));
    s.tick();
    assert_eq!(s.command.walk, WalkCommand::Walk);
    assert_eq!(s.queue.len(), 1);
    // Exactly 5 units away: still Walk, not Run.
    let mut s2 = Session::new();
    s2.push_waypoint(goal(0, 0, 5000));
    s2.tick();
    assert_eq!(s2.command.walk, WalkCommand::Walk);
}

#[test]
fn waypoints_are_consumed_in_declaration_order() {
    let mut s = Session::new();
    s.push_waypoint(goal(0, 0, 100));
    s.push_waypoint(goal(0, 0, 200));
    s.push_waypoint(goal(0, 0, 10000));
    s.tick();
    s.tick();
    assert_eq!(s.queue.len(), 1);
    assert_eq!(s.queue[0].to, at(0, 0, 10000));
}

#[test]
fn empty_queue_idles_everything() {
    let mut s = Session::new();
    s.tick();
    assert_eq!(s.command, Command { turn: TurnCommand::Idle, walk: WalkCommand::Idle });
}

#[test]
fn misaligned_heading_turns_with_clamped_force() {
    // Goal along positive x has bearing -90 degrees; yaw 0 gives a folded
    // error of +90 degrees, clamped to a full-force right turn.
    let mut s = Session::new();
    s.push_waypoint(goal(10000, 0, 0));
    s.tick();
    assert_eq!(s.command.turn, TurnCommand::Right(32));
    // A goal behind and to the left: bearing +90, error -90, left turn.
    let mut s2 = Session::new();
    s2.push_waypoint(goal(-10000, 0, 0));
    s2.tick();
    assert_eq!(s2.command.turn, TurnCommand::Left(32));
}

#[test]
fn small_heading_error_turns_gently() {
    // Goal one degree off to the right of straight ahead.
    let mut s = Session::new();
    s.push_waypoint(goal(175, 0, 10000));
    s.tick();
    assert_eq!(s.command.turn, TurnCommand::Right(1));
    assert_eq!(s.command.walk, WalkCommand::Run);
}

#[test]
fn valid_frame_replaces_telemetry_wholesale() {
    let mut s = Session::new();
    let t = Telemetry { position: at(1, 2, 3), yaw: 4500, movement_speed: 100 };
    let action = s.ingest(IngestEvent::Frame(Some(t)));
    assert_eq!(action, IngestAction::Updated);
    assert_eq!(s.telemetry, t);
}

#[test]
fn malformed_frame_leaves_state_unchanged() {
    let mut s = Session::new();
    let t = Telemetry { position: at(1, 2, 3), yaw: 4500, movement_speed: 100 };
    s.ingest(IngestEvent::Frame(Some(t)));
    s.push_waypoint(goal(0, 0, 10000));
    // A frame that failed to parse is discarded: position and heading stay
    // exactly as the last good frame left them, and the loop goes on.
    let action = s.ingest(IngestEvent::Frame(None));
    assert_eq!(action, IngestAction::Discarded);
    assert_eq!(s.telemetry, t);
    assert_eq!(s.queue.len(), 1);
}

#[test]
fn ping_is_answered_and_changes_nothing() {
    let mut s = Session::new();
    let t = Telemetry { position: at(7, 8, 9), yaw: -100, movement_speed: 0 };
    s.ingest(IngestEvent::Frame(Some(t)));
    let action = s.ingest(IngestEvent::Ping);
    assert_eq!(action, IngestAction::Pong);
    assert_eq!(s.telemetry, t);
}

#[test]
fn closed_transport_ends_the_session() {
    let mut s = Session::new();
    let action = s.ingest(IngestEvent::Closed);
    assert_eq!(action, IngestAction::End);
}

#[test]
fn command_is_one_value_per_tick() {
    // Both halves of the command come from the same tick's inputs: after
    // any tick the pair is exactly the decision for that queue/telemetry,
    // never a mix of two ticks.
    let mut s = Session::new();
    s.push_waypoint(goal(10000, 0, 0));
    s.tick();
    let first = s.command;
    assert_eq!(first, Command { turn: TurnCommand::Right(32), walk: WalkCommand::Run });
    let t = Telemetry { position: at(9500, 0, 0), yaw: -9000, movement_speed: 0 };
    s.ingest(IngestEvent::Frame(Some(t)));
    s.tick();
    // The waypoint is now reached with an aligned heading: both halves
    // changed together.
    assert_eq!(s.command, Command { turn: TurnCommand::Idle, walk: WalkCommand::Idle });
}

#[test]
fn run_command_asserts_sprint_and_forward() {
    let (g, ops) = walk_actuator_step(Gait::Idle, WalkCommand::Run);
    assert_eq!(g, Gait::Running);
    assert_eq!(ops, vec![SinkOp::PressSprint, SinkOp::PressForward]);
}

#[test]
fn leaving_run_settles_before_walking() {
    let (g, ops) = walk_actuator_step(Gait::Running, WalkCommand::Walk);
    assert_eq!(g, Gait::Walking);
    assert_eq!(
        ops,
        vec![SinkOp::ReleaseForward, SinkOp::ReleaseSprint, SinkOp::Settle, SinkOp::PressForward],
    );
}

#[test]
fn stopping_from_run_releases_the_modifier_too() {
    // Run to not-Run releases forward and the sprint modifier: going idle
    // straight from running must not leave the modifier held at the sink.
    let (g, ops) = walk_actuator_step(Gait::Running, WalkCommand::Idle);
    assert_eq!(g, Gait::Idle);
    assert_eq!(ops, vec![SinkOp::ReleaseForward, SinkOp::ReleaseSprint]);
    // From any other gait, idling only releases forward.
    let (g2, ops2) = walk_actuator_step(Gait::Idle, WalkCommand::Idle);
    assert_eq!(g2, Gait::Idle);
    assert_eq!(ops2, vec![SinkOp::ReleaseForward]);
}

#[test]
fn walking_from_idle_just_presses_forward() {
    let (g, ops) = walk_actuator_step(Gait::Idle, WalkCommand::Walk);
    assert_eq!(g, Gait::Walking);
    assert_eq!(ops, vec![SinkOp::PressForward]);
    let (g2, ops2) = walk_actuator_step(Gait::Walking, WalkCommand::Idle);
    assert_eq!(g2, Gait::Idle);
    assert_eq!(ops2, vec![SinkOp::ReleaseForward]);
}

#[test]
fn turn_actuator_emits_sign_per_tag() {
    assert_eq!(turn_actuator_step(TurnCommand::Idle), None);
    assert_eq!(turn_actuator_step(TurnCommand::Left(5)), Some(5));
    assert_eq!(turn_actuator_step(TurnCommand::Right(5)), Some(-5));
    assert_eq!(turn_actuator_step(TurnCommand::Left(32)), Some(32));
}
