use vstd::prelude::*;

verus! {

/// Distances are carried squared, in square milliunits, so that threshold
/// comparisons stay exact integer arithmetic. A waypoint counts as reached
/// strictly below 1.0 world units (1000 milliunits).
pub const REACH_SQ_MILLI: u128 = 1000000;

/// Above 5.0 world units (5000 milliunits) of remaining distance the
/// controller selects the running gait.
pub const RUN_SQ_MILLI: u128 = 25000000;

/// One tick's turn actuation: idle, or a turn of a clamped magnitude in a
/// fixed direction. The magnitude is always in [1, 32]; a zero magnitude is
/// represented only as `Idle`.
#[derive(Clone, Copy, Debug, PartialEq, Eq, Structural)]
pub enum TurnCommand {
    Idle,
    Left(i32),
    Right(i32),
}

/// One tick's gait selection.
#[derive(Clone, Copy, Debug, PartialEq, Eq, Structural)]
pub enum WalkCommand {
    Idle,
    Walk,
    Run,
}

/// The single shared per-tick command: a turn and a gait, always replaced
/// wholesale so that no reader can observe a turn from one tick next to a
/// walk from another.
#[derive(Clone, Copy, Debug, PartialEq, Eq, Structural)]
pub struct Command {
    pub turn: TurnCommand,
    pub walk: WalkCommand,
}

/// A well-formed turn command never carries a zero or out-of-range
/// magnitude: force 0 is `Idle`, and magnitudes stay within the per-tick
/// clamp of 32.
pub open spec fn turn_wf(t: TurnCommand) -> bool {
    match t {
        TurnCommand::Idle => true,
        TurnCommand::Left(f) => 1 <= f <= 32,
        TurnCommand::Right(f) => 1 <= f <= 32,
    }
}

/// Centidegrees rounded to whole degrees, ties away from zero.
pub open spec fn round_deg(d: int) -> int {
    if d >= 0 {
        (d + 50) / 100
    } else {
        -((50 - d) / 100)
    }
}

/// `v` clamped into [lo, hi].
pub open spec fn clamp(v: int, lo: int, hi: int) -> int {
    if v < lo {
        lo
    } else if v > hi {
        hi
    } else {
        v
    }
}

/// The signed turn force for a folded heading error `diff` in centidegrees:
/// the error rounded to whole degrees and clamped into [-32, 32].
pub open spec fn force_of(diff: int) -> int {
    clamp(round_deg(diff), -32, 32)
}

/// The turn command encoding a signed force: negative forces turn left,
/// positive forces turn right, and zero is idle.
pub open spec fn turn_of_force(f: int) -> TurnCommand {
    if f == 0 {
        TurnCommand::Idle
    } else if f < 0 {
        TurnCommand::Left((-f) as i32)
    } else {
        TurnCommand::Right(f as i32)
    }
}

/// The turn command for a folded heading error, combining the rounding,
/// the clamp and the sign split.
pub open spec fn turn_for_diff(diff: int) -> TurnCommand {
    turn_of_force(force_of(diff))
}

/// The gait for a squared remaining distance: idle once the waypoint is
/// reached, running beyond the run threshold, walking in between.
pub open spec fn walk_for_dist_sq(dist_sq: int) -> WalkCommand {
    if dist_sq < REACH_SQ_MILLI {
        WalkCommand::Idle
    } else if dist_sq > RUN_SQ_MILLI {
        WalkCommand::Run
    } else {
        WalkCommand::Walk
    }
}

/// The signed turn force for a heading error in centidegrees: the error in
/// whole degrees, rounded ties away from zero, clamped into [-32, 32].
pub fn turn_force(diff: i64) -> (f: i32)
    ensures
        f == force_of(diff as int),
        -32 <= f <= 32,
{
    if diff >= 0 {
        let q: u128 = (diff as u128 + 50) / 100;
        if q > 32 {
            32
        } else {
            q as i32
        }
    } else {
        let neg: i128 = -(diff as i128);
        let q: u128 = ((neg as u128) + 50) / 100;
        if q > 32 {
            -32
        } else {
            -(q as i32)
        }
    }
}

/// The turn command for a signed force in [-32, 32]. A zero force is
/// `Idle`, never a zero-magnitude turn.
pub fn turn_from_force(f: i32) -> (t: TurnCommand)
    requires
        -32 <= f <= 32,
    ensures
        t == turn_of_force(f as int),
        turn_wf(t),
        (f == 0) <==> (t == TurnCommand::Idle),
{
    if f == 0 {
        TurnCommand::Idle
    } else if f < 0 {
        TurnCommand::Left(-f)
    } else {
        TurnCommand::Right(f)
    }
}

/// The gait for a squared remaining distance in square milliunits.
pub fn walk_from_dist_sq(dist_sq: u128) -> (w: WalkCommand)
    ensures
        w == walk_for_dist_sq(dist_sq as int),
{
    if dist_sq < REACH_SQ_MILLI {
        WalkCommand::Idle
    } else if dist_sq > RUN_SQ_MILLI {
        WalkCommand::Run
    } else {
        WalkCommand::Walk
    }
}

/// Every turn command built from a clamped force is well formed, and only
/// a zero heading error (after rounding) yields `Idle`.
pub proof fn lemma_turn_wf(diff: int)
    ensures
        turn_wf(turn_for_diff(diff)),
        round_deg(diff) == 0 <==> turn_for_diff(diff) == TurnCommand::Idle,
{
}

} // verus!
