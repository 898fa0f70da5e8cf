use football_sim::fixed::{FX_ONE, TRIG_ONE};
use football_sim::quat::{orientation_quat, quat_forward, quat_left, HalfAngle, QuatFx};

/// The half-angle cosine/sine pair of `angle` radians, at the fixed-point
/// trig scale.
fn half(angle: f32) -> HalfAngle {
    let h = angle / 2.0;
    HalfAngle {
        cos: (h.cos() * TRIG_ONE as f32).round() as i64,
        sin: (h.sin() * TRIG_ONE as f32).round() as i64,
    }
}

/// The roll measure of a fixed-point quaternion, computed wide.
fn measure(q: &QuatFx) -> i128 {
    (q.w as i128) * (q.z as i128) + (q.x as i128) * (q.y as i128)
}

#[test]
fn zero_angles_give_the_identity_rotation() {
    let q = orientation_quat(HalfAngle::zero(), HalfAngle::zero());
    assert_eq!((q.w, q.x, q.y, q.z), (FX_ONE, 0, 0, 0));
}

#[test]
fn yaw_then_pitch_carries_no_roll() {
    let angles = [
        (0.0f32, 0.0f32),
        (0.7, -0.3),
        (-2.9, 1.53),
        (3.1, -1.54),
        (1.2, 1.54),
    ];
    for (yaw, pitch) in angles {
        let q = orientation_quat(half(yaw), half(pitch));
        assert_eq!(measure(&q), 0);
    }
}

#[test]
fn pitch_then_yaw_would_roll() {
    // the same two half-angle rotations multiplied in the opposite order,
    // written out by hand: pitch (w, x) times yaw (w, y)
    let y = half(0.7);
    let p = half(-0.3);
    let q = QuatFx {
        w: p.cos * y.cos,
        x: p.sin * y.cos,
        y: p.cos * y.sin,
        z: p.sin * y.sin,
    };
    assert_eq!(
        measure(&q),
        2 * (p.cos as i128 * p.sin as i128) * (y.cos as i128 * y.sin as i128)
    );
    assert_ne!(measure(&q), 0);
}

#[test]
fn forward_and_left_of_identity() {
    let q = QuatFx::identity();
    let f = quat_forward(&q);
    assert_eq!((f.x, f.y, f.z), (0, 0, -FX_ONE));
    let l = quat_left(&q);
    assert_eq!((l.x, l.y, l.z), (-FX_ONE, 0, 0));
}

#[test]
fn forward_after_a_quarter_yaw_points_sideways() {
    // yaw of 90 degrees: half-angle pair (707, 707)
    let q = orientation_quat(HalfAngle { cos: 707, sin: 707 }, HalfAngle::zero());
    assert_eq!((q.w, q.x, q.y, q.z), (707_000, 0, 707_000, 0));
    let f = quat_forward(&q);
    // -2 * (707000 * 707000) / FX_ONE, truncated
    assert_eq!(f.x, -999_698);
    assert_eq!(f.y, 0);
    assert_eq!(f.z, -302);
}
