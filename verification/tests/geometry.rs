use steering::angles::angle_diff;
use steering::command::TurnCommand;
use steering::command::turn_force;
use steering::command::turn_from_force;
use steering::vectors::Vector3D;

#[test]
fn angle_diff_stays_in_half_open_range() {
    // The fold lands in (-18000, 18000]: the half-turn boundary is +18000,
    // never -18000.
    assert_eq!(angle_diff(18000, 0), 18000);
    assert_eq!(angle_diff(0, 18000), 18000);
    assert_eq!(angle_diff(-18000, 0), 18000);
    assert_eq!(angle_diff(17999, 0), 17999);
    assert_eq!(angle_diff(-17999, 0), -17999);
}

#[test]
fn angle_diff_antisymmetric_up_to_boundary() {
    assert_eq!(angle_diff(12000, 4000), 8000);
    assert_eq!(angle_diff(4000, 12000), -8000);
    assert_eq!(angle_diff(-100, 200), -(angle_diff(200, -100)));
}

#[test]
fn angle_diff_invariant_under_full_turns() {
    assert_eq!(angle_diff(0, 17000), -17000);
    assert_eq!(angle_diff(36000, 17000), -17000);
    assert_eq!(angle_diff(-72000, 17000), -17000);
    assert_eq!(angle_diff(0, 17000 + 5 * 36000), -17000);
    assert_eq!(angle_diff(36000, 0), 0);
}

#[test]
fn large_heading_error_folds_then_clamps() {
    // An unfolded error of 200 degrees folds to -160 degrees and clamps to
    // a full-force left turn.
    assert_eq!(angle_diff(20000, 0), -16000);
    assert_eq!(turn_force(-16000), -32);
    assert_eq!(turn_from_force(-32), TurnCommand::Left(32));
    // The worked heading error: yaw 0 against bearing 170 degrees.
    assert_eq!(angle_diff(0, 17000), -17000);
    assert_eq!(turn_force(-17000), -32);
    assert_eq!(turn_from_force(turn_force(angle_diff(0, 17000))), TurnCommand::Left(32));
}

#[test]
fn turn_force_rounds_ties_away_from_zero() {
    assert_eq!(turn_force(150), 2);
    assert_eq!(turn_force(-150), -2);
    assert_eq!(turn_force(149), 1);
    assert_eq!(turn_force(49), 0);
    assert_eq!(turn_force(50), 1);
    assert_eq!(turn_force(-49), 0);
    assert_eq!(turn_force(-50), -1);
    assert_eq!(turn_force(3200), 32);
    assert_eq!(turn_force(3249), 32);
    assert_eq!(turn_force(18000), 32);
    assert_eq!(turn_force(-18000), -32);
}

#[test]
fn zero_force_is_idle_never_a_zero_turn() {
    assert_eq!(turn_from_force(0), TurnCommand::Idle);
    assert_ne!(turn_from_force(0), TurnCommand::Left(0));
    assert_ne!(turn_from_force(0), TurnCommand::Right(0));
    assert_eq!(turn_from_force(turn_force(0)), TurnCommand::Idle);
    assert_eq!(turn_from_force(turn_force(49)), TurnCommand::Idle);
    assert_eq!(turn_from_force(1), TurnCommand::Right(1));
    assert_eq!(turn_from_force(-1), TurnCommand::Left(1));
}

#[test]
fn bearing_of_cardinal_directions() {
    // Straight ahead along positive z.
    assert_eq!(Vector3D { x: 0, y: 0, z: 10000 }.to_angle(), 0);
    // Along positive x: a quarter turn, negated by the heading convention.
    assert_eq!(Vector3D { x: 10000, y: 0, z: 0 }.to_angle(), -9000);
    assert_eq!(Vector3D { x: -10000, y: 0, z: 0 }.to_angle(), 9000);
    // Straight back: the half-turn boundary is +18000.
    assert_eq!(Vector3D { x: 0, y: 0, z: -10000 }.to_angle(), 18000);
}

#[test]
fn bearing_of_diagonals() {
    assert_eq!(Vector3D { x: 10000, y: 0, z: 10000 }.to_angle(), -4500);
    assert_eq!(Vector3D { x: -10000, y: 0, z: 10000 }.to_angle(), 4500);
    assert_eq!(Vector3D { x: 10000, y: 0, z: -10000 }.to_angle(), -13500);
    assert_eq!(Vector3D { x: -10000, y: 0, z: -10000 }.to_angle(), 13500);
}

#[test]
fn bearing_invariant_under_positive_scaling() {
    let base = Vector3D { x: 3000, y: 0, z: 4000 };
    let scaled = Vector3D { x: 21000, y: 0, z: 28000 };
    assert_eq!(base.to_angle(), scaled.to_angle());
    let odd = Vector3D { x: -1234, y: 0, z: 777 };
    let odd_scaled = Vector3D { x: -1234 * 13, y: 0, z: 777 * 13 };
    assert_eq!(odd.to_angle(), odd_scaled.to_angle());
    // The vertical component plays no part.
    let lifted = Vector3D { x: 3000, y: 999999, z: 4000 };
    assert_eq!(base.to_angle(), lifted.to_angle());
}

#[test]
fn magnitude_of_pythagorean_triple() {
    assert_eq!(Vector3D { x: 3000, y: 0, z: 4000 }.get_magnitude(), 5000);
    assert_eq!(Vector3D { x: 0, y: 0, z: 0 }.get_magnitude(), 0);
    // Rounded down: sqrt(3) of a unit-ish vector.
    assert_eq!(Vector3D { x: 1, y: 1, z: 1 }.get_magnitude(), 1);
    assert_eq!(Vector3D { x: 0, y: 2, z: 0 }.get_magnitude(), 2);
}

#[test]
fn normalized_vector_in_milliunits() {
    let v = Vector3D { x: 3000, y: 0, z: 4000 };
    let n = v.get_normalized();
    assert_eq!((n.x, n.y, n.z), (600, 0, 800));
    let w = Vector3D { x: -3000, y: 0, z: 4000 };
    let m = w.get_normalized();
    assert_eq!((m.x, m.y, m.z), (-600, 0, 800));
}

#[test]
fn sub_and_planar_projection() {
    let a = Vector3D { x: 10, y: 20, z: 30 };
    let b = Vector3D { x: 1, y: 2, z: 3 };
    let d = a.sub(&b);
    assert_eq!((d.x, d.y, d.z), (9, 18, 27));
    let p = a.planar();
    assert_eq!((p.x, p.y, p.z), (10, 0, 30));
    let t = Vector3D::from((4, 5, 6));
    assert_eq!((t.x, t.y, t.z), (4, 5, 6));
}
