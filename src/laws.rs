//! What holds of the controller over many inputs and frames.
use vstd::prelude::*;
use crate::geometry::{
    FULL_STEP_MICROS, Quat, SNAP_ROTATION, Transform, Vec3, abs, converge_quat, converge_vec,
    dist_sq, far_apart, lemma_lerp_step, lerp_coord, near_quat, quat_dist_sq,
};
use crate::rig::{CameraRig, FrameInput, MovementOutcome, movement, rig_frame};
use crate::follow::{followed_move_to, followed_transform};

verus! {

/// A lerp step leaves a coordinate no farther from its target, and strictly
/// nearer once `|b - a| * n` reaches a full step.
proof fn lemma_coord_closer(a: int, b: int, n: int)
    requires
        0 <= n <= FULL_STEP_MICROS,
    ensures
        a <= b ==> a <= lerp_coord(a, b, n) <= b,
        b < a ==> b <= lerp_coord(a, b, n) <= a,
        (b - lerp_coord(a, b, n)) * (b - lerp_coord(a, b, n)) <= (b - a) * (b - a),
        abs(b - a) * n >= FULL_STEP_MICROS ==> (b - lerp_coord(a, b, n)) * (b - lerp_coord(a, b, n))
            < (b - a) * (b - a),
{
    let d = b - a;
    lemma_lerp_step(d, n);
    let x = b - lerp_coord(a, b, n);
    let e = abs(d);
    let y = abs(x);
    assert(x * x == y * y && d * d == e * e) by (nonlinear_arith)
        requires
            e == abs(d),
            y == abs(x),
    ;
    assert(y * y <= e * e) by (nonlinear_arith)
        requires
            0 <= y <= e,
    ;
    if e * n >= FULL_STEP_MICROS {
        assert(y * y < e * e) by (nonlinear_arith)
            requires
                0 <= y < e,
        ;
    }
}

proof fn lemma_big_times(e: int, n: int, lo: int)
    requires
        e >= lo,
        n >= 1,
        lo * n >= FULL_STEP_MICROS,
    ensures
        e * n >= FULL_STEP_MICROS,
{
    assert(e * n >= lo * n) by (nonlinear_arith)
        requires
            e >= lo,
            n >= 1,
    ;
}

proof fn lemma_sq_le(d: int, bound: int)
    requires
        abs(d) <= bound,
    ensures
        d * d <= bound * bound,
{
    assert(d * d <= bound * bound) by (nonlinear_arith)
        requires
            -bound <= d <= bound,
    ;
}

/// Convergence of a translation: while farther than the snap distance from
/// its target, each step of a frame of at least one microsecond brings it
/// strictly nearer; once within it, the step lands exactly on the target.
pub proof fn lemma_translation_converges(cur: Vec3, target: Vec3, dt: u64)
    requires
        cur.wf(),
        target.wf(),
        cur != target,
        dt >= 1,
    ensures
        far_apart(cur, target) ==> dist_sq(converge_vec(cur, target, dt), target) < dist_sq(
            cur,
            target,
        ),
        !far_apart(cur, target) ==> converge_vec(cur, target, dt) == target,
{
    if far_apart(cur, target) {
        let n: int = if dt > FULL_STEP_MICROS {
            FULL_STEP_MICROS as int
        } else {
            dt as int
        };
        let (dx, dy, dz) = (target.x - cur.x, target.y - cur.y, target.z - cur.z);
        lemma_coord_closer(cur.x as int, target.x as int, n);
        lemma_coord_closer(cur.y as int, target.y as int, n);
        lemma_coord_closer(cur.z as int, target.z as int, n);
        let r = converge_vec(cur, target, dt);
        assert(r.x == lerp_coord(cur.x as int, target.x as int, n));
        assert(r.y == lerp_coord(cur.y as int, target.y as int, n));
        assert(r.z == lerp_coord(cur.z as int, target.z as int, n));
        let lo: int = 2_886_752;
        if abs(dx) < lo && abs(dy) < lo && abs(dz) < lo {
            lemma_sq_le(dx, lo - 1);
            lemma_sq_le(dy, lo - 1);
            lemma_sq_le(dz, lo - 1);
            assert(false);
        }
        if abs(dx) >= lo {
            lemma_big_times(abs(dx), n, lo);
        } else if abs(dy) >= lo {
            lemma_big_times(abs(dy), n, lo);
        } else {
            lemma_big_times(abs(dz), n, lo);
        }
    }
}

/// Convergence of a rotation: while some component differs from the target
/// by more than the snap tolerance, each step of a frame of at least ten
/// microseconds brings it strictly nearer; once all are within it, the step
/// lands exactly on the target.
pub proof fn lemma_rotation_converges(cur: Quat, target: Quat, dt: u64)
    requires
        cur.wf(),
        target.wf(),
        cur != target,
        dt >= 10,
    ensures
        !near_quat(cur, target) ==> quat_dist_sq(converge_quat(cur, target, dt), target)
            < quat_dist_sq(cur, target),
        near_quat(cur, target) ==> converge_quat(cur, target, dt) == target,
{
    if !near_quat(cur, target) {
        let n: int = if dt > FULL_STEP_MICROS {
            FULL_STEP_MICROS as int
        } else {
            dt as int
        };
        lemma_coord_closer(cur.x as int, target.x as int, n);
        lemma_coord_closer(cur.y as int, target.y as int, n);
        lemma_coord_closer(cur.z as int, target.z as int, n);
        lemma_coord_closer(cur.w as int, target.w as int, n);
        let r = converge_quat(cur, target, dt);
        assert(r.x == lerp_coord(cur.x as int, target.x as int, n));
        assert(r.y == lerp_coord(cur.y as int, target.y as int, n));
        assert(r.z == lerp_coord(cur.z as int, target.z as int, n));
        assert(r.w == lerp_coord(cur.w as int, target.w as int, n));
        let lo: int = SNAP_ROTATION + 1;
        if abs(target.x - cur.x) >= lo {
            lemma_big_times(abs(target.x - cur.x), n, lo);
        } else if abs(target.y - cur.y) >= lo {
            lemma_big_times(abs(target.y - cur.y), n, lo);
        } else if abs(target.z - cur.z) >= lo {
            lemma_big_times(abs(target.z - cur.z), n, lo);
        } else {
            lemma_big_times(abs(target.w - cur.w), n, lo);
        }
    }
}


/// Rest is kept: a rig and camera that stand at their targets (or have
/// none) stay where they are through a frame without input, and both
/// targets are cleared.
pub proof fn lemma_rest_is_kept(rig: CameraRig, rig_t: Transform, camera: Transform, input: FrameInput)
    requires
        rig.wf(),
        rig_t.wf(),
        camera.wf(),
        rig.move_to.0 == None::<Transform> || rig.move_to.0 == Some(rig_t),
        rig.move_to.1 == None::<Transform> || rig.move_to.1 == Some(camera),
        input.keys@.len() == 0,
        input.buttons@.len() == 0,
        input.motion@.len() == 0,
        input.wheel@.len() == 0,
    ensures
        movement(rig, rig_t, Some(camera), input) == (MovementOutcome {
            rig_transform: rig_t,
            camera: Some(camera),
            move_to: (None, None),
            translated: false,
        }),
{
}

/// Following moves a rig but never turns it: one follow step toward `p`
/// leaves an enabled rig's rotation as it was, and brings its translation
/// strictly nearer to `p`, or onto `p` once within the snap distance.
pub proof fn lemma_follow_approaches(t: Transform, rig: CameraRig, p: Vec3, dt: u64)
    requires
        t.wf(),
        p.wf(),
        !rig.disable,
        dt >= 1,
        t.translation != p,
    ensures
        followed_transform(t, rig, Some(p), dt).rotation == t.rotation,
        far_apart(t.translation, p) ==> dist_sq(
            followed_transform(t, rig, Some(p), dt).translation,
            p,
        ) < dist_sq(t.translation, p),
        !far_apart(t.translation, p) ==> followed_transform(t, rig, Some(p), dt).translation == p,
{
    lemma_translation_converges(t.translation, p, dt);
}

/// A disabled rig is frozen: through a frame of movement and then of
/// following, whatever the input, its transform, its camera's and its
/// targets stay as they were, and it disarms nothing.
pub proof fn lemma_disabled_rig_frozen(
    rig: CameraRig,
    rig_t: Transform,
    camera: Option<Transform>,
    input: FrameInput,
    to: Option<Vec3>,
    dt: u64,
)
    requires
        rig.disable,
    ensures
        ({
            let o = rig_frame(rig, rig_t, camera, input);
            &&& o.rig_transform == rig_t
            &&& o.camera == camera
            &&& o.move_to == rig.move_to
            &&& !o.translated
            &&& followed_transform(o.rig_transform, rig, to, dt) == rig_t
            &&& followed_move_to(o.rig_transform, rig, to, dt) == rig.move_to.0
        }),
{
}

} // verus!
