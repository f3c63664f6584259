//! Rig configuration and state, and the per-frame input handling.
use vstd::prelude::*;
use crate::geometry::{
    converge_transform, step_transform,
    Axis, Quat, Transform, Turn, Vec3, MAX_COORD, SCALE, in_world, minus, plus, quat_mul,
    quat_mul_spec, rotate, rotate_spec, sat, tdiv, turn_by, turn_quat, vec_minus, vec_plus,
};

verus! {

/// Key codes of the default bindings.
pub const KEY_A: u32 = 10;
pub const KEY_D: u32 = 13;
pub const KEY_E: u32 = 14;
pub const KEY_Q: u32 = 26;
pub const KEY_S: u32 = 28;
pub const KEY_W: u32 = 32;
pub const KEY_LEFT: u32 = 70;
pub const KEY_UP: u32 = 71;
pub const KEY_RIGHT: u32 = 72;
pub const KEY_DOWN: u32 = 73;

/// Mouse button codes of the default bindings.
pub const MOUSE_LEFT: u32 = 0;
pub const MOUSE_RIGHT: u32 = 1;

/// A sensitivity that grows with the rig's height: `slope * height + offset`,
/// with `slope` in `SCALE`-ths and `offset` in `SCALE`-ths of a unit.
#[derive(Clone, Copy, Debug, PartialEq, Eq, Structural)]
pub struct Sensitivity {
    pub slope: i64,
    pub offset: i64,
}

pub open spec fn sensitivity_at(s: Sensitivity, height: int) -> int {
    sat(tdiv(height * s.slope, SCALE as int) + s.offset)
}

/// The sensitivity at `height`, saturated to the bounded world.
pub fn sensitivity(s: Sensitivity, height: i64) -> (r: i64)
    requires
        in_world(height as int),
    ensures
        r == sensitivity_at(s, height as int),
        in_world(r as int),
{
    proof {
        crate::geometry::lemma_mul_within(
            height as int,
            s.slope as int,
            MAX_COORD as int,
            0x8000_0000_0000_0000int,
        );
    }
    let p = crate::geometry::div_toward_zero(height as i128 * s.slope as i128, SCALE as i128);
    crate::geometry::saturate(p + s.offset as i128)
}

/// Whether any key of `bindings` is among the `pressed` ones.
pub open spec fn held(bindings: Seq<u32>, pressed: Seq<u32>) -> bool {
    exists|i: int, j: int|
        0 <= i < bindings.len() && 0 <= j < pressed.len() && #[trigger] bindings[i]
            == #[trigger] pressed[j]
}

/// Whether `button` is among the `pressed` ones.
pub open spec fn button_held(button: u32, pressed: Seq<u32>) -> bool {
    exists|j: int| 0 <= j < pressed.len() && #[trigger] pressed[j] == button
}

/// Whether `code` is among the `pressed` ones.
pub fn is_pressed(code: u32, pressed: &Vec<u32>) -> (r: bool)
    ensures
        r == button_held(code, pressed@),
{
    let mut j: usize = 0;
    while j < pressed.len()
        invariant
            j <= pressed@.len(),
            forall|k: int| 0 <= k < j ==> pressed@[k] != code,
        decreases pressed@.len() - j,
    {
        if pressed[j] == code {
            return true;
        }
        j = j + 1;
    }
    false
}

/// Whether any key of `bindings` is among the `pressed` ones.
pub fn any_pressed(bindings: &Vec<u32>, pressed: &Vec<u32>) -> (r: bool)
    ensures
        r == held(bindings@, pressed@),
{
    let mut i: usize = 0;
    while i < bindings.len()
        invariant
            i <= bindings@.len(),
            forall|a: int, b: int|
                0 <= a < i && 0 <= b < pressed@.len() ==> bindings@[a] != pressed@[b],
        decreases bindings@.len() - i,
    {
        if is_pressed(bindings[i], pressed) {
            return true;
        }
        i = i + 1;
    }
    false
}


/// Keyboard bindings and sensitivities.
pub struct KeyboardConf {
    pub forward: Vec<u32>,
    pub backward: Vec<u32>,
    pub left: Vec<u32>,
    pub right: Vec<u32>,
    /// Distance moved per frame a direction key is held, by rig height.
    pub move_sensitivity: Sensitivity,
    pub clockwise: Vec<u32>,
    pub counter_clockwise: Vec<u32>,
    /// Yaw per frame a rotation key is held.
    pub rotate_sensitivity: Turn,
}

impl Default for KeyboardConf {
    /// WASD and the arrows move, Q and E turn by a twentieth of a turn.
    fn default() -> (r: KeyboardConf)
        ensures
            r.forward@ == seq![KEY_W, KEY_UP],
            r.backward@ == seq![KEY_S, KEY_DOWN],
            r.left@ == seq![KEY_A, KEY_LEFT],
            r.right@ == seq![KEY_D, KEY_RIGHT],
            r.move_sensitivity == (Sensitivity { slope: 2_000_000_000, offset: 100_000_000 }),
            r.clockwise@ == seq![KEY_Q],
            r.counter_clockwise@ == seq![KEY_E],
            r.rotate_sensitivity == (Turn { sin_half: 156_434_465, cos_half: 987_688_341 }),
    {
        KeyboardConf {
            forward: vec![KEY_W, KEY_UP],
            backward: vec![KEY_S, KEY_DOWN],
            left: vec![KEY_A, KEY_LEFT],
            right: vec![KEY_D, KEY_RIGHT],
            move_sensitivity: Sensitivity { slope: 2_000_000_000, offset: 100_000_000 },
            clockwise: vec![KEY_Q],
            counter_clockwise: vec![KEY_E],
            rotate_sensitivity: Turn { sin_half: 156_434_465, cos_half: 987_688_341 },
        }
    }
}

/// Mouse bindings and sensitivities.
pub struct MouseConf {
    pub rotate: u32,
    /// Turn per pixel of motion while the rotate button is held.
    pub rotate_sensitivity: Turn,
    pub drag: u32,
    /// Distance per pixel of motion while the drag button is held, by rig height.
    pub drag_sensitivity: Sensitivity,
    /// Distance per wheel notch, in `SCALE`-ths of a unit.
    pub zoom_sensitivity: i64,
}

impl Default for MouseConf {
    /// The right button turns by a thousandth of a half turn per pixel, the
    /// left one drags, one wheel notch zooms by one unit.
    fn default() -> (r: MouseConf)
        ensures
            r.rotate == MOUSE_RIGHT,
            r.rotate_sensitivity == (Turn { sin_half: 1_570_796, cos_half: 999_998_766 }),
            r.drag == MOUSE_LEFT,
            r.drag_sensitivity == (Sensitivity { slope: SCALE, offset: 3_141_593 }),
            r.zoom_sensitivity == SCALE,
    {
        MouseConf {
            rotate: MOUSE_RIGHT,
            rotate_sensitivity: Turn { sin_half: 1_570_796, cos_half: 999_998_766 },
            drag: MOUSE_LEFT,
            drag_sensitivity: Sensitivity { slope: SCALE, offset: 3_141_593 },
            zoom_sensitivity: SCALE,
        }
    }
}

/// The state of one rig: its configuration, the transforms it is moving
/// toward (rig, camera), and whether it is frozen.
pub struct CameraRig {
    pub keyboard: KeyboardConf,
    pub mouse: MouseConf,
    pub move_to: (Option<Transform>, Option<Transform>),
    pub disable: bool,
}

pub open spec fn target_wf(t: Option<Transform>) -> bool {
    match t {
        Some(t) => t.wf(),
        None => true,
    }
}

impl CameraRig {
    pub open spec fn wf(self) -> bool {
        &&& self.keyboard.rotate_sensitivity.wf()
        &&& self.mouse.rotate_sensitivity.wf()
        &&& in_world(self.mouse.zoom_sensitivity as int)
        &&& target_wf(self.move_to.0)
        &&& target_wf(self.move_to.1)
    }
}

impl Default for CameraRig {
    /// The default bindings, at rest and enabled.
    fn default() -> (r: CameraRig)
        ensures
            r.wf(),
            r.move_to == (None::<Transform>, None::<Transform>),
            !r.disable,
            r.mouse.rotate == MOUSE_RIGHT,
            r.mouse.drag == MOUSE_LEFT,
            r.mouse.zoom_sensitivity == SCALE,
            r.keyboard.forward@ == seq![KEY_W, KEY_UP],
            r.keyboard.move_sensitivity == (Sensitivity { slope: 2_000_000_000, offset: 100_000_000 }),
    {
        CameraRig {
            keyboard: KeyboardConf::default(),
            mouse: MouseConf::default(),
            move_to: (None, None),
            disable: false,
        }
    }
}

/// What a new rig entity is made of.
pub struct CameraRigBundle {
    pub camera_rig: CameraRig,
    pub transform: Transform,
}

impl Default for CameraRigBundle {
    fn default() -> (r: CameraRigBundle)
        ensures
            r.camera_rig.wf(),
            r.camera_rig.move_to == (None::<Transform>, None::<Transform>),
            !r.camera_rig.disable,
            r.transform == (Transform {
                translation: Vec3 { x: 0, y: 0, z: 0 },
                rotation: Quat { x: 0, y: 0, z: 0, w: SCALE },
            }),
    {
        CameraRigBundle { camera_rig: CameraRig::default(), transform: Transform::identity() }
    }
}

/// Marks an entity that rigs may follow; armed while the flag is set.
#[derive(Clone, Copy, Debug, PartialEq, Eq, Structural)]
pub struct CameraRigFollow(pub bool);

/// The two per-frame stages; movement runs strictly before following.
#[derive(Clone, Copy, Debug, PartialEq, Eq, Structural)]
pub enum CameraSystem {
    CameraRigMovement,
    CameraRigFollow,
}

/// One mouse motion, in pixels.
#[derive(Clone, Copy, Debug, PartialEq, Eq, Structural)]
pub struct MouseMotion {
    pub dx: i32,
    pub dy: i32,
}

/// The input of one frame.
pub struct FrameInput {
    /// Frame time in microseconds.
    pub delta_micros: u64,
    /// Keys held.
    pub keys: Vec<u32>,
    /// Mouse buttons held.
    pub buttons: Vec<u32>,
    /// Mouse motions, in order.
    pub motion: Vec<MouseMotion>,
    /// Wheel notches, in order.
    pub wheel: Vec<i32>,
}

/// The rig target after the keyboard: moves along the rig's own forward
/// (+X) and lateral (+Z) axes, and yaws about the world's up axis.
pub open spec fn keyboard_target(kb: KeyboardConf, keys: Seq<u32>, cur: Transform, target: Transform) -> Transform {
    let s = sensitivity_at(kb.move_sensitivity, cur.translation.y as int);
    let fwd = rotate_spec(cur.rotation, Vec3 { x: s as i64, y: 0, z: 0 });
    let side = rotate_spec(cur.rotation, Vec3 { x: 0, y: 0, z: s as i64 });
    let t0 = target.translation;
    let t1 = if held(kb.forward@, keys) { vec_plus(t0, fwd) } else { t0 };
    let t2 = if held(kb.backward@, keys) { vec_minus(t1, fwd) } else { t1 };
    let t3 = if held(kb.right@, keys) { vec_plus(t2, side) } else { t2 };
    let t4 = if held(kb.left@, keys) { vec_minus(t3, side) } else { t3 };
    let r0 = target.rotation;
    let r1 = if held(kb.counter_clockwise@, keys) {
        quat_mul_spec(turn_quat(Axis::Y, kb.rotate_sensitivity, 1), r0)
    } else {
        r0
    };
    let r2 = if held(kb.clockwise@, keys) {
        quat_mul_spec(turn_quat(Axis::Y, kb.rotate_sensitivity, -1), r1)
    } else {
        r1
    };
    Transform { translation: t4, rotation: r2 }
}

/// Whether a direction key is held.
pub open spec fn keyboard_translates(kb: KeyboardConf, keys: Seq<u32>) -> bool {
    held(kb.forward@, keys) || held(kb.backward@, keys) || held(kb.left@, keys) || held(
        kb.right@,
        keys,
    )
}

fn keyboard_step(kb: &KeyboardConf, keys: &Vec<u32>, cur: Transform, target: Transform) -> (r: (
    Transform,
    bool,
))
    requires
        kb.rotate_sensitivity.wf(),
        cur.wf(),
        target.wf(),
    ensures
        r.0 == keyboard_target(*kb, keys@, cur, target),
        r.0.wf(),
        r.1 == keyboard_translates(*kb, keys@),
{
    let s = sensitivity(kb.move_sensitivity, cur.translation.y);
    let fwd = rotate(cur.rotation, Vec3 { x: s, y: 0, z: 0 });
    let side = rotate(cur.rotation, Vec3 { x: 0, y: 0, z: s });
    let mut t = target.translation;
    let f = any_pressed(&kb.forward, keys);
    if f {
        t = plus(t, fwd);
    }
    let b = any_pressed(&kb.backward, keys);
    if b {
        t = minus(t, fwd);
    }
    let rt = any_pressed(&kb.right, keys);
    if rt {
        t = plus(t, side);
    }
    let l = any_pressed(&kb.left, keys);
    if l {
        t = minus(t, side);
    }
    let mut q = target.rotation;
    if any_pressed(&kb.counter_clockwise, keys) {
        q = quat_mul(turn_by(Axis::Y, kb.rotate_sensitivity, 1), q);
    }
    if any_pressed(&kb.clockwise, keys) {
        q = quat_mul(turn_by(Axis::Y, kb.rotate_sensitivity, -1), q);
    }
    (Transform { translation: t, rotation: q }, f || b || l || rt)
}


/// The rig target after the mouse motions: yaw by each horizontal motion
/// while the rotate button is held, drag along the rig's plane while the
/// drag button is held.
pub open spec fn motion_target(
    m: MouseConf,
    buttons: Seq<u32>,
    cur: Transform,
    events: Seq<MouseMotion>,
    target: Transform,
) -> Transform
    decreases events.len(),
{
    if events.len() == 0 {
        target
    } else {
        let prev = motion_target(m, buttons, cur, events.drop_last(), target);
        let e = events.last();
        let turned = if button_held(m.rotate, buttons) {
            Transform {
                translation: prev.translation,
                rotation: quat_mul_spec(
                    turn_quat(Axis::Y, m.rotate_sensitivity, -(e.dx as int)),
                    prev.rotation,
                ),
            }
        } else {
            prev
        };
        if button_held(m.drag, buttons) {
            let ds = sensitivity_at(m.drag_sensitivity, cur.translation.y as int);
            let d = Vec3 { x: sat(e.dy * ds) as i64, y: 0, z: sat(-e.dx * ds) as i64 };
            Transform {
                translation: vec_plus(turned.translation, rotate_spec(cur.rotation, d)),
                rotation: turned.rotation,
            }
        } else {
            turned
        }
    }
}

/// The sum of the vertical motions, saturated at each step.
pub open spec fn pitch_sum(events: Seq<MouseMotion>) -> int
    decreases events.len(),
{
    if events.len() == 0 {
        0
    } else {
        sat(pitch_sum(events.drop_last()) + events.last().dy)
    }
}

/// `a * b`, saturated to the bounded world.
fn scaled(a: i64, b: i64) -> (r: i64)
    requires
        -0x8000_0000 <= a <= 0x8000_0000,
        in_world(b as int),
    ensures
        r == sat(a * b),
{
    proof {
        crate::geometry::lemma_mul_within(a as int, b as int, 0x8000_0000int, MAX_COORD as int);
    }
    crate::geometry::saturate(a as i128 * b as i128)
}

fn motion_step(
    m: &MouseConf,
    buttons: &Vec<u32>,
    cur: Transform,
    events: &Vec<MouseMotion>,
    target: Transform,
) -> (r: (Transform, i64))
    requires
        m.rotate_sensitivity.wf(),
        cur.wf(),
        target.wf(),
    ensures
        r.0 == motion_target(*m, buttons@, cur, events@, target),
        r.0.wf(),
        r.1 == pitch_sum(events@),
{
    let rotating = is_pressed(m.rotate, buttons);
    let dragging = is_pressed(m.drag, buttons);
    let ds = sensitivity(m.drag_sensitivity, cur.translation.y);
    let mut t = target;
    let mut pitch: i64 = 0;
    let mut i: usize = 0;
    while i < events.len()
        invariant
            i <= events@.len(),
            rotating == button_held(m.rotate, buttons@),
            dragging == button_held(m.drag, buttons@),
            ds == sensitivity_at(m.drag_sensitivity, cur.translation.y as int),
            in_world(ds as int),
            m.rotate_sensitivity.wf(),
            cur.wf(),
            t.wf(),
            t == motion_target(*m, buttons@, cur, events@.take(i as int), target),
            pitch == pitch_sum(events@.take(i as int)),
            in_world(pitch as int),
        decreases events@.len() - i,
    {
        let e = events[i];
        proof {
            assert(events@.take(i + 1).drop_last() =~= events@.take(i as int));
            assert(events@.take(i + 1).last() == e);
        }
        if rotating {
            t = Transform {
                translation: t.translation,
                rotation: quat_mul(
                    turn_by(Axis::Y, m.rotate_sensitivity, -(e.dx as i64)),
                    t.rotation,
                ),
            };
        }
        if dragging {
            let d = Vec3 { x: scaled(e.dy as i64, ds), y: 0, z: scaled(-(e.dx as i64), ds) };
            t = Transform {
                translation: plus(t.translation, rotate(cur.rotation, d)),
                rotation: t.rotation,
            };
        }
        pitch = crate::geometry::saturate(pitch as i128 + e.dy as i128);
        i = i + 1;
    }
    proof {
        assert(events@.take(events@.len() as int) =~= events@);
    }
    (t, pitch)
}


/// The camera target after the wheel: each notch `y` moves the camera by
/// `y` times the zoom sensitivity toward its own forward (-Z) axis.
pub open spec fn zoom_target(zoom: i64, wheel: Seq<i32>, target: Transform) -> Transform
    decreases wheel.len(),
{
    if wheel.len() == 0 {
        target
    } else {
        let prev = zoom_target(zoom, wheel.drop_last(), target);
        let back = Vec3 { x: 0, y: 0, z: sat(wheel.last() * zoom) as i64 };
        Transform {
            translation: vec_minus(prev.translation, rotate_spec(prev.rotation, back)),
            rotation: prev.rotation,
        }
    }
}

/// The camera target after the wheel and, while the rotate button is held,
/// the pitch: about the camera's X axis, its position turned about world Z.
pub open spec fn camera_target(
    m: MouseConf,
    buttons: Seq<u32>,
    wheel: Seq<i32>,
    pitch: int,
    target: Transform,
) -> Transform {
    let z = zoom_target(m.zoom_sensitivity, wheel, target);
    if button_held(m.rotate, buttons) {
        Transform {
            translation: rotate_spec(turn_quat(Axis::Z, m.rotate_sensitivity, -pitch), z.translation),
            rotation: quat_mul_spec(turn_quat(Axis::X, m.rotate_sensitivity, -pitch), z.rotation),
        }
    } else {
        z
    }
}

fn camera_step(m: &MouseConf, buttons: &Vec<u32>, wheel: &Vec<i32>, pitch: i64, target: Transform) -> (r: Transform)
    requires
        m.rotate_sensitivity.wf(),
        in_world(m.zoom_sensitivity as int),
        in_world(pitch as int),
        target.wf(),
    ensures
        r == camera_target(*m, buttons@, wheel@, pitch as int, target),
        r.wf(),
{
    let mut t = target;
    let mut i: usize = 0;
    while i < wheel.len()
        invariant
            i <= wheel@.len(),
            in_world(m.zoom_sensitivity as int),
            t.wf(),
            t == zoom_target(m.zoom_sensitivity, wheel@.take(i as int), target),
        decreases wheel@.len() - i,
    {
        proof {
            assert(wheel@.take(i + 1).drop_last() =~= wheel@.take(i as int));
        }
        let back = Vec3 { x: 0, y: 0, z: scaled(wheel[i] as i64, m.zoom_sensitivity) };
        t = Transform { translation: minus(t.translation, rotate(t.rotation, back)), rotation: t.rotation };
        i = i + 1;
    }
    proof {
        assert(wheel@.take(wheel@.len() as int) =~= wheel@);
    }
    if is_pressed(m.rotate, buttons) {
        t = Transform {
            translation: rotate(turn_by(Axis::Z, m.rotate_sensitivity, -pitch), t.translation),
            rotation: quat_mul(turn_by(Axis::X, m.rotate_sensitivity, -pitch), t.rotation),
        };
    }
    t
}

/// What one frame of movement makes of a rig.
pub struct MovementOutcome {
    pub rig_transform: Transform,
    pub camera: Option<Transform>,
    pub move_to: (Option<Transform>, Option<Transform>),
    pub translated: bool,
}

/// The pending target of a node: none once the node has reached it.
pub open spec fn settle(node: Transform, target: Transform) -> Option<Transform> {
    if node == target {
        None
    } else {
        Some(target)
    }
}

/// Whether the frame's input moves the rig by hand: a direction key, or a
/// motion while the drag button is held.
pub open spec fn manual_translation(rig: CameraRig, input: FrameInput) -> bool {
    keyboard_translates(rig.keyboard, input.keys@) || (button_held(rig.mouse.drag, input.buttons@)
        && input.motion@.len() > 0)
}

/// One frame of movement of an enabled rig at `rig_t` with the camera child
/// `camera` (none when the child has no transform).
pub open spec fn movement(rig: CameraRig, rig_t: Transform, camera: Option<Transform>, input: FrameInput) -> MovementOutcome {
    let dt = input.delta_micros;
    let seed = match rig.move_to.0 {
        Some(t) => t,
        None => rig_t,
    };
    let kt = keyboard_target(rig.keyboard, input.keys@, rig_t, seed);
    let mt = motion_target(rig.mouse, input.buttons@, rig_t, input.motion@, kt);
    let new_rig = converge_transform(rig_t, mt, dt);
    match camera {
        None => MovementOutcome {
            rig_transform: new_rig,
            camera: None,
            move_to: (settle(new_rig, mt), rig.move_to.1),
            translated: manual_translation(rig, input),
        },
        Some(c) => {
            let cseed = match rig.move_to.1 {
                Some(t) => t,
                None => c,
            };
            let ct = camera_target(rig.mouse, input.buttons@, input.wheel@, pitch_sum(input.motion@), cseed);
            let nc = converge_transform(c, ct, dt);
            MovementOutcome {
                rig_transform: new_rig,
                camera: Some(nc),
                move_to: (settle(new_rig, mt), settle(nc, ct)),
                translated: manual_translation(rig, input),
            }
        },
    }
}

/// One frame of movement of any rig: a disabled one stays as it is.
pub open spec fn rig_frame(rig: CameraRig, rig_t: Transform, camera: Option<Transform>, input: FrameInput) -> MovementOutcome {
    if rig.disable {
        MovementOutcome { rig_transform: rig_t, camera, move_to: rig.move_to, translated: false }
    } else {
        movement(rig, rig_t, camera, input)
    }
}

/// Runs one frame of input on a rig: moves its targets, steps the rig and
/// its camera toward them, and disarms every follow flag when the rig was
/// moved by hand. A disabled rig is left as it is.
pub fn camera_rig_movement(
    rig: &mut CameraRig,
    rig_transform: &mut Transform,
    camera: &mut Option<Transform>,
    follows: &mut Vec<CameraRigFollow>,
    input: &FrameInput,
)
    requires
        old(rig).wf(),
        old(rig_transform).wf(),
        target_wf(*old(camera)),
    ensures
        final(rig).wf(),
        final(rig_transform).wf(),
        target_wf(*final(camera)),
        final(rig).keyboard == old(rig).keyboard,
        final(rig).mouse == old(rig).mouse,
        final(rig).disable == old(rig).disable,
        final(follows)@.len() == old(follows)@.len(),
        ({
            let o = rig_frame(*old(rig), *old(rig_transform), *old(camera), *input);
            &&& final(rig).move_to == o.move_to
            &&& *final(rig_transform) == o.rig_transform
            &&& *final(camera) == o.camera
            &&& forall|i: int|
                0 <= i < final(follows)@.len() ==> #[trigger] final(follows)@[i] == if o.translated {
                    CameraRigFollow(false)
                } else {
                    old(follows)@[i]
                }
        }),
        !old(rig).disable && manual_translation(*old(rig), *input) ==> forall|i: int|
            0 <= i < final(follows)@.len() ==> !(#[trigger] final(follows)@[i]).0,
{
    if rig.disable {
        return;
    }
    let cur = *rig_transform;
    let seed = match rig.move_to.0 {
        Some(t) => t,
        None => cur,
    };
    let (kt, by_keys) = keyboard_step(&rig.keyboard, &input.keys, cur, seed);
    let (mt, pitch) = motion_step(&rig.mouse, &input.buttons, cur, &input.motion, kt);
    let translated = by_keys || (is_pressed(rig.mouse.drag, &input.buttons) && input.motion.len()
        > 0);
    if translated {
        let ghost orig = follows@;
        let mut i: usize = 0;
        while i < follows.len()
            invariant
                i <= follows@.len(),
                follows@.len() == orig.len(),
                forall|k: int| 0 <= k < i ==> #[trigger] follows@[k] == CameraRigFollow(false),
                forall|k: int| i <= k < follows@.len() ==> #[trigger] follows@[k] == orig[k],
            decreases follows@.len() - i,
        {
            follows.set(i, CameraRigFollow(false));
            i = i + 1;
        }
    }
    let new_rig = step_transform(cur, mt, input.delta_micros);
    rig.move_to.0 = if new_rig == mt {
        None
    } else {
        Some(mt)
    };
    match *camera {
        Some(c) => {
            let cseed = match rig.move_to.1 {
                Some(t) => t,
                None => c,
            };
            let ct = camera_step(&rig.mouse, &input.buttons, &input.wheel, pitch, cseed);
            let nc = step_transform(c, ct, input.delta_micros);
            rig.move_to.1 = if nc == ct {
                None
            } else {
                Some(ct)
            };
            *camera = Some(nc);
        },
        None => {},
    }
    *rig_transform = new_rig;
}

} // verus!
