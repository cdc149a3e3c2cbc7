use vstd::prelude::*;
use crate::angles::angle_diff;
use crate::angles::angle_diff_spec;
use crate::atan::bearing_spec;
use crate::command::Command;
use crate::command::REACH_SQ_MILLI;
use crate::command::TurnCommand;
use crate::command::WalkCommand;
use crate::command::turn_for_diff;
use crate::command::turn_force;
use crate::command::turn_from_force;
use crate::command::turn_wf;
use crate::command::walk_for_dist_sq;
use crate::command::walk_from_dist_sq;
use crate::command::lemma_turn_wf;
use crate::vectors::Vector3D;
use crate::vectors::vec_ok;

verus! {

/// The latest telemetry: a world position in milliunits, a heading yaw in
/// centidegrees, and the reported movement speed in milliunits per second.
/// A frame always replaces the whole value, never single fields, so no
/// reader can observe a blend of two frames.
#[derive(Clone, Copy, Debug, PartialEq, Eq, Structural)]
pub struct Telemetry {
    pub position: Vector3D,
    pub yaw: i64,
    pub movement_speed: i64,
}

/// One goal of the steering plan. Only `to` takes part in steering; `from`
/// is informational.
#[derive(Clone, Copy, Debug, PartialEq, Eq, Structural)]
pub struct Waypoint {
    pub from: Vector3D,
    pub to: Vector3D,
}

/// One controller session: the shared telemetry state, the waypoint queue
/// consumed front to back, and the single current command, replaced
/// wholesale once per tick.
pub struct Session {
    pub telemetry: Telemetry,
    pub queue: Vec<Waypoint>,
    pub command: Command,
}

/// Every coordinate the session steers by stays within the range on which
/// coordinate differences cannot overflow, and the stored command's turn
/// is well formed: a zero force appears only as `Idle`.
pub open spec fn session_wf(s: Session) -> bool {
    &&& vec_ok(s.telemetry.position)
    &&& forall|i: int| 0 <= i < s.queue@.len() ==> vec_ok(#[trigger] s.queue@[i].to)
    &&& turn_wf(s.command.turn)
}

/// The turn command steering a heading `yaw` onto the planar direction
/// `(dx, dz)`: the folded heading error, rounded to whole degrees and
/// clamped. A zero direction has no bearing and yields `Idle`.
pub open spec fn turn_toward(yaw: int, dx: int, dz: int) -> TurnCommand {
    if dx == 0 && dz == 0 {
        TurnCommand::Idle
    } else {
        turn_for_diff(angle_diff_spec(yaw, bearing_spec(dx, dz)))
    }
}

/// The command one tick produces from a waypoint queue and the current
/// telemetry. An empty queue yields the all-idle command; otherwise the
/// turn steers toward the head waypoint and the gait follows the squared
/// remaining planar distance.
pub open spec fn decide_command(q: Seq<Waypoint>, t: Telemetry) -> Command {
    if q.len() == 0 {
        Command { turn: TurnCommand::Idle, walk: WalkCommand::Idle }
    } else {
        let dx = q[0].to.x - t.position.x;
        let dz = q[0].to.z - t.position.z;
        Command { turn: turn_toward(t.yaw as int, dx, dz), walk: walk_for_dist_sq(dx * dx + dz * dz) }
    }
}

/// The queue after one tick: the head waypoint is popped exactly when it
/// was reached this tick, and a popped waypoint is never revisited.
pub open spec fn decide_queue(q: Seq<Waypoint>, t: Telemetry) -> Seq<Waypoint> {
    if q.len() == 0 {
        q
    } else {
        let dx = q[0].to.x - t.position.x;
        let dz = q[0].to.z - t.position.z;
        if dx * dx + dz * dz < REACH_SQ_MILLI as int {
            q.drop_first()
        } else {
            q
        }
    }
}

/// One inbound event of the telemetry channel, as the transport hands it
/// over: a frame that parsed into telemetry or failed to, a keepalive
/// probe, or the end of the connection.
#[derive(Clone, Copy, Debug, PartialEq, Eq, Structural)]
pub enum IngestEvent {
    Frame(Option<Telemetry>),
    Ping,
    Closed,
}

/// What the ingest loop must do in the same iteration that produced the
/// event.
#[derive(Clone, Copy, Debug, PartialEq, Eq, Structural)]
pub enum IngestAction {
    Updated,
    Discarded,
    Pong,
    End,
}

impl Session {
    /// A fresh session: zeroed telemetry, an empty plan, the all-idle
    /// command.
    pub fn new() -> (s: Session)
        ensures
            s.telemetry == (Telemetry {
                position: Vector3D { x: 0, y: 0, z: 0 },
                yaw: 0,
                movement_speed: 0,
            }),
            s.queue@.len() == 0,
            s.command == (Command { turn: TurnCommand::Idle, walk: WalkCommand::Idle }),
            session_wf(s),
    {
        Session {
            telemetry: Telemetry {
                position: Vector3D { x: 0, y: 0, z: 0 },
                yaw: 0,
                movement_speed: 0,
            },
            queue: Vec::new(),
            command: Command { turn: TurnCommand::Idle, walk: WalkCommand::Idle },
        }
    }

    /// Appends one waypoint to the back of the plan; the queue stays FIFO
    /// in declaration order.
    pub fn push_waypoint(&mut self, w: Waypoint)
        requires
            session_wf(*old(self)),
            vec_ok(w.to),
        ensures
            session_wf(*final(self)),
            final(self).queue@ == old(self).queue@.push(w),
            final(self).telemetry == old(self).telemetry,
            final(self).command == old(self).command,
    {
        self.queue.push(w);
    }

    /// One decision tick: computes the command for the current telemetry
    /// and the head waypoint, replaces the shared command wholesale, and
    /// pops the head waypoint exactly when it was reached.
    pub fn tick(&mut self)
        requires
            session_wf(*old(self)),
        ensures
            session_wf(*final(self)),
            final(self).telemetry == old(self).telemetry,
            final(self).command == decide_command(old(self).queue@, old(self).telemetry),
            final(self).queue@ == decide_queue(old(self).queue@, old(self).telemetry),
    {
        if self.queue.len() == 0 {
            self.command = Command { turn: TurnCommand::Idle, walk: WalkCommand::Idle };
            return;
        }
        let goal = self.queue[0].to.planar();
        let pos = self.telemetry.position.planar();
        let direction = goal.sub(&pos);
        let dist_sq: u128 = direction.planar_magnitude_sq();
        let turn: TurnCommand = if direction.x == 0 && direction.z == 0 {
            TurnCommand::Idle
        } else {
            let target_bearing = direction.to_angle();
            let diff = angle_diff(self.telemetry.yaw, target_bearing);
            let force = turn_force(diff);
            turn_from_force(force)
        };
        let walk = walk_from_dist_sq(dist_sq);
        self.command = Command { turn, walk };
        proof {
            lemma_decide_turn_wf(old(self).queue@, old(self).telemetry);
        }
        if dist_sq < REACH_SQ_MILLI {
            self.queue.remove(0);
            proof {
                assert(self.queue@ =~= old(self).queue@.drop_first());
            }
        }
    }

    /// One iteration of the telemetry ingest loop. A well-formed frame
    /// replaces the telemetry wholesale; a malformed frame is discarded
    /// and leaves every part of the session exactly as it was; a keepalive
    /// probe is answered and changes nothing; a closed transport ends the
    /// session and changes nothing.
    pub fn ingest(&mut self, event: IngestEvent) -> (action: IngestAction)
        requires
            session_wf(*old(self)),
            match event {
                IngestEvent::Frame(Some(t)) => vec_ok(t.position),
                _ => true,
            },
        ensures
            session_wf(*final(self)),
            final(self).queue@ == old(self).queue@,
            final(self).command == old(self).command,
            match event {
                IngestEvent::Frame(Some(t)) => final(self).telemetry == t && action
                    == IngestAction::Updated,
                IngestEvent::Frame(None) => final(self).telemetry == old(self).telemetry
                    && action == IngestAction::Discarded,
                IngestEvent::Ping => final(self).telemetry == old(self).telemetry && action
                    == IngestAction::Pong,
                IngestEvent::Closed => final(self).telemetry == old(self).telemetry && action
                    == IngestAction::End,
            },
    {
        match event {
            IngestEvent::Frame(parsed) => match parsed {
                Some(t) => {
                    self.telemetry = t;
                    IngestAction::Updated
                },
                None => IngestAction::Discarded,
            },
            IngestEvent::Ping => IngestAction::Pong,
            IngestEvent::Closed => IngestAction::End,
        }
    }
}

/// The turn half of every decided command is well formed: its magnitude
/// is in [1, 32] and a zero force appears only as `Idle`.
pub proof fn lemma_decide_turn_wf(q: Seq<Waypoint>, t: Telemetry)
    ensures
        turn_wf(decide_command(q, t).turn),
{
    if q.len() > 0 {
        let dx = q[0].to.x - t.position.x;
        let dz = q[0].to.z - t.position.z;
        if !(dx == 0 && dz == 0) {
            lemma_turn_wf(angle_diff_spec(t.yaw as int, bearing_spec(dx, dz)));
        }
    }
}

/// Reaching the head waypoint consumes exactly it: the former second entry
/// becomes the head that the following tick steers by, and nothing is
/// skipped. A head that is not yet reached leaves the plan unchanged.
pub proof fn lemma_queue_advances(q: Seq<Waypoint>, t: Telemetry)
    requires
        q.len() >= 1,
    ensures
        ((q[0].to.x - t.position.x) * (q[0].to.x - t.position.x) + (q[0].to.z - t.position.z)
            * (q[0].to.z - t.position.z) < REACH_SQ_MILLI as int) ==> {
            &&& decide_queue(q, t).len() == q.len() - 1
            &&& forall|i: int| 0 <= i < q.len() - 1 ==> decide_queue(q, t)[i] == q[i + 1]
        },
        ((q[0].to.x - t.position.x) * (q[0].to.x - t.position.x) + (q[0].to.z - t.position.z)
            * (q[0].to.z - t.position.z) >= REACH_SQ_MILLI as int) ==> decide_queue(q, t) == q,
{
}

/// The walk actuator's own state: which gait its last applied command left
/// it in.
#[derive(Clone, Copy, Debug, PartialEq, Eq, Structural)]
pub enum Gait {
    Idle,
    Walking,
    Running,
}

/// One primitive operation on the actuation sink: key-state changes for
/// the forward key and the sprint modifier, and the brief settle delay
/// that keeps a release and a press from landing at the same instant.
#[derive(Clone, Copy, Debug, PartialEq, Eq, Structural)]
pub enum SinkOp {
    PressForward,
    ReleaseForward,
    PressSprint,
    ReleaseSprint,
    Settle,
}

/// The walk actuator's transition: the next gait and the exact sink
/// operations, in order, for one command. Leaving `Run` always releases
/// both forward and the modifier, and settles before any new forward
/// press; no sprint modifier is left held once the gait is not `Running`.
pub open spec fn walk_step_spec(g: Gait, w: WalkCommand) -> (Gait, Seq<SinkOp>) {
    match w {
        WalkCommand::Run => (Gait::Running, seq![SinkOp::PressSprint, SinkOp::PressForward]),
        WalkCommand::Walk => if g == Gait::Running {
            (
                Gait::Walking,
                seq![SinkOp::ReleaseForward, SinkOp::ReleaseSprint, SinkOp::Settle, SinkOp::PressForward],
            )
        } else {
            (Gait::Walking, seq![SinkOp::PressForward])
        },
        WalkCommand::Idle => if g == Gait::Running {
            (Gait::Idle, seq![SinkOp::ReleaseForward, SinkOp::ReleaseSprint])
        } else {
            (Gait::Idle, seq![SinkOp::ReleaseForward])
        },
    }
}

/// One period of the walk actuator: from the current gait and the latest
/// walk command to the next gait and the sink operations to perform, in
/// order, after the shared command lock is released.
pub fn walk_actuator_step(g: Gait, w: WalkCommand) -> (r: (Gait, Vec<SinkOp>))
    ensures
        r.0 == walk_step_spec(g, w).0,
        r.1@ == walk_step_spec(g, w).1,
{
    match w {
        WalkCommand::Run => {
            let ops = vec![SinkOp::PressSprint, SinkOp::PressForward];
            proof {
                assert(ops@ =~= walk_step_spec(g, w).1);
            }
            (Gait::Running, ops)
        },
        WalkCommand::Walk => {
            if g == Gait::Running {
                let ops = vec![
                    SinkOp::ReleaseForward,
                    SinkOp::ReleaseSprint,
                    SinkOp::Settle,
                    SinkOp::PressForward,
                ];
                proof {
                    assert(ops@ =~= walk_step_spec(g, w).1);
                }
                (Gait::Walking, ops)
            } else {
                let ops = vec![SinkOp::PressForward];
                proof {
                    assert(ops@ =~= walk_step_spec(g, w).1);
                }
                (Gait::Walking, ops)
            }
        },
        WalkCommand::Idle => {
            if g == Gait::Running {
                let ops = vec![SinkOp::ReleaseForward, SinkOp::ReleaseSprint];
                proof {
                    assert(ops@ =~= walk_step_spec(g, w).1);
                }
                (Gait::Idle, ops)
            } else {
                let ops = vec![SinkOp::ReleaseForward];
                proof {
                    assert(ops@ =~= walk_step_spec(g, w).1);
                }
                (Gait::Idle, ops)
            }
        },
    }
}

/// One period of the turn actuator: the signed relative turn to emit for
/// the latest command, if any. Left turns emit the positive magnitude,
/// right turns the negative one; idle emits nothing.
pub fn turn_actuator_step(t: TurnCommand) -> (r: Option<i32>)
    requires
        turn_wf(t),
    ensures
        match t {
            TurnCommand::Idle => r is None,
            TurnCommand::Left(f) => r == Some(f),
            TurnCommand::Right(f) => r == Some((-(f as int)) as i32),
        },
{
    match t {
        TurnCommand::Idle => None,
        TurnCommand::Left(f) => Some(f),
        TurnCommand::Right(f) => Some(-f),
    }
}

} // verus!
