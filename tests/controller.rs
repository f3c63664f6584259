use four_x_camera::follow::{camera_rig_follow, select_follow, FollowSource};
use four_x_camera::geometry::{
    quat_mul, rotate, step_rotation, step_translation, turn_by, Axis, Quat, Transform, Turn, Vec3,
    MAX_COORD,
    SCALE,
};
use four_x_camera::rig::{
    any_pressed, camera_rig_movement, is_pressed, sensitivity, CameraRig, CameraRigBundle,
    CameraRigFollow, FrameInput, MouseMotion, Sensitivity, KEY_E, KEY_UP, KEY_W, MOUSE_LEFT,
    MOUSE_RIGHT,
};

fn quiet(dt: u64) -> FrameInput {
    FrameInput { delta_micros: dt, keys: vec![], buttons: vec![], motion: vec![], wheel: vec![] }
}

fn at(x: i64, y: i64, z: i64) -> Transform {
    Transform::from_translation(Vec3::new(x, y, z))
}

fn dist_sq(a: Vec3, b: Vec3) -> i128 {
    let dx = (a.x - b.x) as i128;
    let dy = (a.y - b.y) as i128;
    let dz = (a.z - b.z) as i128;
    dx * dx + dy * dy + dz * dz
}

#[test]
fn forward_key_full_frame_reaches_target() {
    let mut rig = CameraRig::default();
    let mut t = Transform::identity();
    let mut cam = None;
    let mut follows = vec![];
    let mut input = quiet(100_000);
    input.keys = vec![KEY_W];
    camera_rig_movement(&mut rig, &mut t, &mut cam, &mut follows, &input);
    // move sensitivity at height 0 is the offset, 0.1 units
    assert_eq!(t.translation, Vec3::new(100_000_000, 0, 0));
    assert_eq!(t.rotation, Quat::identity());
    // reached, so the rig is at rest again
    assert_eq!(rig.move_to.0, None);
}

#[test]
fn forward_key_half_frame_keeps_target() {
    let mut rig = CameraRig::default();
    let mut t = Transform::identity();
    let mut cam = None;
    let mut follows = vec![];
    let mut input = quiet(50_000);
    input.keys = vec![KEY_UP];
    camera_rig_movement(&mut rig, &mut t, &mut cam, &mut follows, &input);
    assert_eq!(rig.move_to.0, Some(at(100_000_000, 0, 0)));
    assert_eq!(t.translation, Vec3::new(50_000_000, 0, 0));
}

#[test]
fn long_frame_does_not_overshoot() {
    let mut rig = CameraRig::default();
    let mut t = Transform::identity();
    let mut cam = None;
    let mut follows = vec![];
    let mut input = quiet(300_000);
    input.keys = vec![KEY_W];
    camera_rig_movement(&mut rig, &mut t, &mut cam, &mut follows, &input);
    assert_eq!(t.translation, Vec3::new(100_000_000, 0, 0));
}

#[test]
fn wheel_notch_moves_camera_toward_rig() {
    let d: i64 = 75 * SCALE;
    let mut rig = CameraRig::default();
    let mut t = Transform::identity();
    let mut cam = Some(at(0, 0, d));
    let mut follows = vec![];
    let mut input = quiet(100_000);
    input.wheel = vec![1];
    camera_rig_movement(&mut rig, &mut t, &mut cam, &mut follows, &input);
    assert_eq!(cam, Some(at(0, 0, d - SCALE)));
    assert_eq!(t, Transform::identity());
}

#[test]
fn wheel_notch_backward_moves_camera_away() {
    let mut rig = CameraRig::default();
    let mut t = Transform::identity();
    let mut cam = Some(at(0, 0, 10 * SCALE));
    let mut follows = vec![];
    let mut input = quiet(100_000);
    input.wheel = vec![-2];
    camera_rig_movement(&mut rig, &mut t, &mut cam, &mut follows, &input);
    assert_eq!(cam, Some(at(0, 0, 12 * SCALE)));
}

#[test]
fn drag_disarms_every_follow_flag() {
    let mut rig = CameraRig::default();
    let mut t = Transform::identity();
    let mut cam = None;
    let mut follows = vec![CameraRigFollow(true), CameraRigFollow(false), CameraRigFollow(true)];
    let mut input = quiet(16_000);
    input.buttons = vec![MOUSE_LEFT];
    input.motion = vec![MouseMotion { dx: 3, dy: 0 }];
    camera_rig_movement(&mut rig, &mut t, &mut cam, &mut follows, &input);
    assert_eq!(follows, vec![CameraRigFollow(false); 3]);
    // dragging right moves the target along -Z of the rig
    let target = rig.move_to.0.unwrap();
    assert!(target.translation.z < 0);
    assert_eq!(target.translation.x, 0);
}

#[test]
fn direction_key_disarms_follow() {
    let mut rig = CameraRig::default();
    let mut t = Transform::identity();
    let mut cam = None;
    let mut follows = vec![CameraRigFollow(true)];
    let mut input = quiet(16_000);
    input.keys = vec![KEY_W];
    camera_rig_movement(&mut rig, &mut t, &mut cam, &mut follows, &input);
    assert_eq!(follows, vec![CameraRigFollow(false)]);
}

#[test]
fn rotation_alone_keeps_follow_armed() {
    let mut rig = CameraRig::default();
    let mut t = Transform::identity();
    let mut cam = Some(at(0, 0, 10 * SCALE));
    let mut follows = vec![CameraRigFollow(true)];
    let mut input = quiet(16_000);
    input.keys = vec![KEY_E];
    input.buttons = vec![MOUSE_RIGHT];
    input.motion = vec![MouseMotion { dx: 5, dy: 5 }];
    camera_rig_movement(&mut rig, &mut t, &mut cam, &mut follows, &input);
    assert_eq!(follows, vec![CameraRigFollow(true)]);
    assert!(rig.move_to.0.is_some());
    assert!(rig.move_to.1.is_some());
}

#[test]
fn counter_clockwise_key_yaws_target() {
    let mut rig = CameraRig::default();
    let mut t = Transform::identity();
    let mut cam = None;
    let mut follows = vec![];
    let mut input = quiet(0);
    input.keys = vec![KEY_E];
    camera_rig_movement(&mut rig, &mut t, &mut cam, &mut follows, &input);
    let q = rig.move_to.0.unwrap().rotation;
    assert_eq!(q, Quat { x: 0, y: 156_434_465, z: 0, w: 987_688_341 });
    // a frame of no time moves nothing
    assert_eq!(t, Transform::identity());
}

#[test]
fn rest_is_kept_without_input() {
    let mut rig = CameraRig::default();
    let start = at(SCALE, 2 * SCALE, 3 * SCALE);
    let cam_start = at(0, 5 * SCALE, 5 * SCALE);
    rig.move_to = (Some(start), Some(cam_start));
    let mut t = start;
    let mut cam = Some(cam_start);
    let mut follows = vec![CameraRigFollow(true)];
    camera_rig_movement(&mut rig, &mut t, &mut cam, &mut follows, &quiet(16_000));
    assert_eq!(t, start);
    assert_eq!(cam, Some(cam_start));
    assert_eq!(rig.move_to, (None, None));
    assert_eq!(follows, vec![CameraRigFollow(true)]);
}

#[test]
fn disabled_rig_is_frozen() {
    let mut rig = CameraRig::default();
    rig.disable = true;
    rig.move_to = (Some(at(SCALE, 0, 0)), None);
    let mut t = Transform::identity();
    let mut cam = Some(at(0, 0, SCALE));
    let mut follows = vec![CameraRigFollow(true)];
    let input = FrameInput {
        delta_micros: 50_000,
        keys: vec![KEY_W, KEY_E],
        buttons: vec![MOUSE_LEFT, MOUSE_RIGHT],
        motion: vec![MouseMotion { dx: 7, dy: -4 }],
        wheel: vec![3],
    };
    camera_rig_movement(&mut rig, &mut t, &mut cam, &mut follows, &input);
    assert_eq!(t, Transform::identity());
    assert_eq!(cam, Some(at(0, 0, SCALE)));
    assert_eq!(rig.move_to, (Some(at(SCALE, 0, 0)), None));
    assert_eq!(follows, vec![CameraRigFollow(true)]);

    let mut ts = vec![t];
    let mut rigs = vec![rig];
    let changed = vec![FollowSource {
        entity: 1,
        translation: Vec3::new(9 * SCALE, 0, 0),
        follow: CameraRigFollow(true),
    }];
    camera_rig_follow(&mut ts, &mut rigs, &changed, 50_000);
    assert_eq!(ts, vec![Transform::identity()]);
    assert_eq!(rigs[0].move_to, (Some(at(SCALE, 0, 0)), None));
}

#[test]
fn follow_moves_translation_not_rotation() {
    let turned = Transform {
        translation: Vec3::zero(),
        rotation: Quat { x: 0, y: 156_434_465, z: 0, w: 987_688_341 },
    };
    let mut rig = CameraRig::default();
    rig.move_to = (Some(turned), None);
    let mut ts = vec![turned, at(SCALE, 0, 0)];
    let mut rigs = vec![rig, CameraRig::default()];
    let changed = vec![FollowSource {
        entity: 4,
        translation: Vec3::new(10 * SCALE, 0, 0),
        follow: CameraRigFollow(true),
    }];
    camera_rig_follow(&mut ts, &mut rigs, &changed, 50_000);
    assert_eq!(ts[0].translation, Vec3::new(5 * SCALE, 0, 0));
    assert_eq!(ts[0].rotation, turned.rotation);
    assert_eq!(ts[1].translation, Vec3::new(5_500_000_000, 0, 0));
    assert_eq!(rigs[0].move_to.0.unwrap().translation, Vec3::new(5 * SCALE, 0, 0));
    assert_eq!(rigs[0].move_to.0.unwrap().rotation, turned.rotation);
    assert_eq!(rigs[1].move_to.0, None);
}

#[test]
fn follow_snaps_when_close() {
    let mut ts = vec![at(0, 0, 0)];
    let mut rigs = vec![CameraRig::default()];
    let changed = vec![FollowSource {
        entity: 4,
        translation: Vec3::new(4_000_000, 0, 0),
        follow: CameraRigFollow(true),
    }];
    camera_rig_follow(&mut ts, &mut rigs, &changed, 1);
    assert_eq!(ts[0].translation, Vec3::new(4_000_000, 0, 0));
}

#[test]
fn unarmed_follow_does_nothing() {
    let mut ts = vec![at(0, 0, 0)];
    let mut rigs = vec![CameraRig::default()];
    let changed = vec![
        FollowSource { entity: 2, translation: Vec3::new(SCALE, 0, 0), follow: CameraRigFollow(true) },
        FollowSource { entity: 8, translation: Vec3::new(SCALE, 0, 0), follow: CameraRigFollow(false) },
    ];
    camera_rig_follow(&mut ts, &mut rigs, &changed, 50_000);
    assert_eq!(ts, vec![at(0, 0, 0)]);
}

#[test]
fn follow_source_is_largest_entity() {
    let src = |entity: u64| FollowSource {
        entity,
        translation: Vec3::zero(),
        follow: CameraRigFollow(true),
    };
    assert_eq!(select_follow(&vec![]), None);
    assert_eq!(select_follow(&vec![src(3), src(9), src(5)]), Some(1));
    assert_eq!(select_follow(&vec![src(9), src(2), src(9)]), Some(2));
}

#[test]
fn translation_converges_then_snaps() {
    let target = Vec3::new(3 * SCALE, -2 * SCALE, SCALE);
    let mut cur = Vec3::zero();
    let mut steps = 0;
    while cur != target {
        let next = step_translation(cur, target, 16_000);
        assert!(dist_sq(next, target) < dist_sq(cur, target));
        cur = next;
        steps += 1;
        assert!(steps < 1000);
    }
    assert!(steps > 1);
    assert_eq!(step_translation(cur, target, 16_000), target);
}

#[test]
fn rotation_converges_then_snaps() {
    let target = Quat { x: 0, y: 707_106_781, z: 0, w: 707_106_781 };
    let mut cur = Quat::identity();
    let mut steps = 0;
    while cur != target {
        cur = step_rotation(cur, target, 16_000);
        steps += 1;
        assert!(steps < 1000);
    }
    assert!(steps > 1);
}

#[test]
fn quarter_yaw_turns_x_to_minus_z() {
    let q = Quat { x: 0, y: 707_106_781, z: 0, w: 707_106_781 };
    let r = rotate(q, Vec3::new(SCALE, 0, 0));
    assert!(r.x.abs() < 10);
    assert_eq!(r.y, 0);
    assert!((r.z + SCALE).abs() < 10);
}

#[test]
fn identity_rotation_keeps_vector() {
    let v = Vec3::new(123, -456, 789_000_000_000);
    assert_eq!(rotate(Quat::identity(), v), v);
}

#[test]
fn two_turns_compose() {
    let t = Turn { sin_half: 156_434_465, cos_half: 987_688_341 };
    let one = turn_by(Axis::Y, t, 1);
    assert_eq!(one, Quat { x: 0, y: 156_434_465, z: 0, w: 987_688_341 });
    assert_eq!(turn_by(Axis::Y, t, 2), quat_mul(one, one));
    assert_eq!(turn_by(Axis::X, t, -1), Quat { x: -156_434_465, y: 0, z: 0, w: 987_688_341 });
    assert_eq!(turn_by(Axis::Z, t, 0), Quat::identity());
}

#[test]
fn sensitivity_grows_with_height() {
    let s = Sensitivity { slope: 2 * SCALE, offset: SCALE / 10 };
    assert_eq!(sensitivity(s, 0), SCALE / 10);
    assert_eq!(sensitivity(s, SCALE), 2_100_000_000);
    assert_eq!(sensitivity(s, -SCALE), -1_900_000_000);
}

#[test]
fn key_sets_match_any_held_key() {
    assert!(any_pressed(&vec![KEY_W, KEY_UP], &vec![1, KEY_UP]));
    assert!(!any_pressed(&vec![KEY_W, KEY_UP], &vec![1, 2]));
    assert!(!any_pressed(&vec![], &vec![KEY_W]));
    assert!(is_pressed(MOUSE_RIGHT, &vec![MOUSE_LEFT, MOUSE_RIGHT]));
    assert!(!is_pressed(MOUSE_RIGHT, &vec![]));
}

#[test]
fn bundle_defaults_at_rest() {
    let b = CameraRigBundle::default();
    assert_eq!(b.transform, Transform::identity());
    assert_eq!(b.camera_rig.move_to, (None, None));
    assert!(!b.camera_rig.disable);
}

#[test]
fn world_bound_saturates() {
    let mut rig = CameraRig::default();
    let mut t = at(MAX_COORD, 0, 0);
    let mut cam = None;
    let mut follows = vec![];
    let mut input = quiet(100_000);
    input.keys = vec![KEY_W];
    camera_rig_movement(&mut rig, &mut t, &mut cam, &mut follows, &input);
    assert_eq!(t.translation, Vec3::new(MAX_COORD, 0, 0));
    assert_eq!(rig.move_to.0, None);
}
