use football_sim::fixed::{isqrt_u64, FX_ONE};
use football_sim::motion::{
    write_orientation, KeyBindingProfile, PlanarMotionController, Pose,
};
use football_sim::quat::{HalfAngle, QuatFx};
use football_sim::scene::{
    ball_in_goal, EntityRole, LookupError, SceneRegistry, GOAL_LINE_FX,
};
use football_sim::vec3::Vec3Fx;

const KEY_W: u32 = 87;
const KEY_A: u32 = 65;
const KEY_S: u32 = 83;
const KEY_D: u32 = 68;
const KEY_SPACE: u32 = 32;
const KEY_LCTRL: u32 = 341;
const KEY_LEFT: u32 = 263;
const KEY_RIGHT: u32 = 262;
const KEY_UP: u32 = 265;
const KEY_DOWN: u32 = 264;

/// The camera's bindings: W/S along forward, A/D sideways, space and
/// control vertically, three world units per second.
fn camera_profile() -> KeyBindingProfile {
    KeyBindingProfile {
        forward: KEY_W,
        backward: KEY_S,
        strafe_left: KEY_A,
        strafe_right: KEY_D,
        ascend: Some(KEY_SPACE),
        descend: Some(KEY_LCTRL),
        speed: 3 * FX_ONE,
    }
}

/// The primary actor's bindings: A/D along its forward axis, S/W sideways,
/// no vertical keys.
fn primary_profile() -> KeyBindingProfile {
    KeyBindingProfile {
        forward: KEY_A,
        backward: KEY_D,
        strafe_left: KEY_S,
        strafe_right: KEY_W,
        ascend: None,
        descend: None,
        speed: 3 * FX_ONE,
    }
}

/// Half a second at the fixed-point time scale.
const HALF_SECOND: i64 = 500_000;

#[test]
fn holding_forward_moves_speed_times_dt() {
    let controller = PlanarMotionController::new(camera_profile());
    let mut pose = Pose::level_at(0, 0, 0);
    controller.update(&vec![KEY_W], HALF_SECOND, &mut pose);
    // 3 units/s for half a second: 1.5 units along the forward axis (-z)
    assert_eq!((pose.position.x, pose.position.y, pose.position.z), (0, 0, -1_500_000));
}

#[test]
fn diagonal_keys_move_the_full_distance_on_each_axis() {
    let controller = PlanarMotionController::new(camera_profile());
    let mut pose = Pose::level_at(0, 0, 0);
    controller.update(&vec![KEY_W, KEY_A], HALF_SECOND, &mut pose);
    assert_eq!(
        (pose.position.x, pose.position.y, pose.position.z),
        (-1_500_000, 0, -1_500_000)
    );
}

#[test]
fn opposed_keys_cancel() {
    let controller = PlanarMotionController::new(camera_profile());
    let mut pose = Pose::level_at(7, -9, 13);
    controller.update(&vec![KEY_W, KEY_S], HALF_SECOND, &mut pose);
    assert_eq!((pose.position.x, pose.position.y, pose.position.z), (7, -9, 13));
}

#[test]
fn backward_and_strafe_right_negate() {
    let controller = PlanarMotionController::new(camera_profile());
    let mut pose = Pose::level_at(0, 0, 0);
    controller.update(&vec![KEY_S, KEY_D], HALF_SECOND, &mut pose);
    assert_eq!(
        (pose.position.x, pose.position.y, pose.position.z),
        (1_500_000, 0, 1_500_000)
    );
}

#[test]
fn vertical_keys_bypass_the_plane_projection() {
    let controller = PlanarMotionController::new(camera_profile());
    let mut pose = Pose::level_at(0, 0, 0);
    controller.update(&vec![KEY_SPACE], HALF_SECOND, &mut pose);
    assert_eq!((pose.position.x, pose.position.y, pose.position.z), (0, 1_500_000, 0));
    controller.update(&vec![KEY_LCTRL], HALF_SECOND, &mut pose);
    assert_eq!((pose.position.x, pose.position.y, pose.position.z), (0, 0, 0));
}

#[test]
fn pitched_down_forward_keeps_height() {
    // pitch 45 degrees downward, written the way the integrator writes it
    let mut pose = Pose::level_at(0, 0, 0);
    let h = -0.785398f32 / 2.0;
    write_orientation(
        &mut pose,
        HalfAngle::zero(),
        HalfAngle { cos: (h.cos() * 1000.0).round() as i64, sin: (h.sin() * 1000.0).round() as i64 },
    );
    let controller = PlanarMotionController::new(camera_profile());
    controller.update(&vec![KEY_W], HALF_SECOND, &mut pose);
    assert_eq!(pose.position.y, 0);
    // the projected forward is re-normalized to a full unit: the ground
    // distance is the full 1.5 units, not the cosine-shortened one
    assert_eq!(pose.position.z, -1_500_000);
    assert_eq!(pose.position.x, 0);
}

#[test]
fn looking_straight_up_falls_back_to_the_default_heading() {
    let mut pose = Pose::level_at(0, 0, 0);
    // a quarter-turn pitch: the forward direction is exactly vertical and
    // its ground projection vanishes
    pose.rotation = QuatFx { w: 707_107, x: 707_107, y: 0, z: 0 };
    let controller = PlanarMotionController::new(camera_profile());
    controller.update(&vec![KEY_W], HALF_SECOND, &mut pose);
    // the fallback heading is one unit along negative z
    assert_eq!((pose.position.x, pose.position.y, pose.position.z), (0, 0, -1_500_000));
}

#[test]
fn primary_actor_mapping_runs_sideways() {
    let controller = PlanarMotionController::new(primary_profile());
    let mut pose = Pose::level_at(0, 0, 0);
    // W is bound as strafe-right for the primary actor: against left, so
    // towards positive x
    controller.update(&vec![KEY_W], HALF_SECOND, &mut pose);
    assert_eq!(
        (pose.position.x, pose.position.y, pose.position.z),
        (1_500_000, 0, 0)
    );
}

#[test]
fn camera_follows_the_actor_strafe_share_only() {
    let controller = PlanarMotionController::new(primary_profile());
    let mut actor = Pose::level_at(0, 0, 0);
    let mut camera = Pose::level_at(0, 2_500_000, 8_000_000);
    let held = vec![KEY_W, KEY_A];
    let side = controller.strafe_displacement(&held, &actor.rotation, HALF_SECOND);
    controller.update(&held, HALF_SECOND, &mut actor);
    camera.translate(&side);
    // the actor moves forward (A) and sideways (W); the camera follows the
    // sideways share alone
    assert_eq!(
        (actor.position.x, actor.position.y, actor.position.z),
        (1_500_000, 0, -1_500_000)
    );
    assert_eq!(
        (camera.position.x, camera.position.y, camera.position.z),
        (1_500_000, 2_500_000, 8_000_000)
    );
}

#[test]
fn secondary_actor_uses_its_own_keys() {
    let secondary = KeyBindingProfile {
        forward: KEY_LEFT,
        backward: KEY_RIGHT,
        strafe_left: KEY_DOWN,
        strafe_right: KEY_UP,
        ascend: None,
        descend: None,
        speed: 3 * FX_ONE,
    };
    let controller = PlanarMotionController::new(secondary);
    let mut pose = Pose::level_at(0, 0, 0);
    // the primary actor's keys do nothing to the secondary actor
    controller.update(&vec![KEY_W, KEY_A], HALF_SECOND, &mut pose);
    assert_eq!((pose.position.x, pose.position.y, pose.position.z), (0, 0, 0));
    controller.update(&vec![KEY_LEFT], HALF_SECOND, &mut pose);
    assert_eq!((pose.position.x, pose.position.y, pose.position.z), (0, 0, -1_500_000));
}

#[test]
fn registry_reports_missing_and_ambiguous_roles() {
    let mut registry = SceneRegistry::new();
    assert_eq!(registry.find_unique(EntityRole::Camera), Err(LookupError::NotFound));
    registry.add(EntityRole::PrimaryActor, Pose::level_at(-2_000_000, 250_000, 0));
    registry.add(EntityRole::Camera, Pose::level_at(0, 2_500_000, 8_372_000));
    registry.add(EntityRole::SecondaryActor, Pose::level_at(2_000_000, 250_000, 0));
    assert_eq!(registry.find_unique(EntityRole::Camera), Ok(1));
    assert_eq!(registry.find_unique(EntityRole::PrimaryActor), Ok(0));
    registry.add(EntityRole::Camera, Pose::level_at(0, 0, 0));
    assert_eq!(registry.find_unique(EntityRole::Camera), Err(LookupError::Ambiguous));
}

#[test]
fn goal_line_is_exclusive() {
    assert!(!ball_in_goal(0));
    assert!(!ball_in_goal(GOAL_LINE_FX));
    assert!(!ball_in_goal(-GOAL_LINE_FX));
    assert!(ball_in_goal(GOAL_LINE_FX + 1));
    assert!(ball_in_goal(-GOAL_LINE_FX - 1));
}

#[test]
fn integer_square_roots_are_floors() {
    assert_eq!(isqrt_u64(0), 0);
    assert_eq!(isqrt_u64(1), 1);
    assert_eq!(isqrt_u64(3), 1);
    assert_eq!(isqrt_u64(4), 2);
    assert_eq!(isqrt_u64(10), 3);
    assert_eq!(isqrt_u64(1_000_000_000_000), 1_000_000);
    assert_eq!(isqrt_u64(1_000_001_999_999), 1_000_000);
    assert_eq!(isqrt_u64(u64::MAX), 4_294_967_295);
}

#[test]
fn translate_moves_without_touching_rotation() {
    let mut pose = Pose::level_at(1, 2, 3);
    let rot = pose.rotation;
    pose.translate(&Vec3Fx { x: 10, y: -20, z: 30 });
    assert_eq!((pose.position.x, pose.position.y, pose.position.z), (11, -18, 33));
    assert_eq!(pose.rotation, rot);
}
