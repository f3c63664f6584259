//! Fixed-point vectors, quaternions and transforms.
use vstd::prelude::*;
use vstd::arithmetic::div_mod::{lemma_div_by_multiple, lemma_div_is_ordered, lemma_div_pos_is_pos};

verus! {

/// One world unit, and the unit quaternion component.
pub const SCALE: i64 = 1_000_000_000;

/// The largest magnitude of a coordinate: a million world units.
pub const MAX_COORD: i64 = 1_000_000_000_000_000;

/// Division that rounds toward zero, as integer division in Rust does.
pub open spec fn tdiv(a: int, d: int) -> int {
    if a >= 0 {
        a / d
    } else {
        -((-a) / d)
    }
}

pub open spec fn clamp(v: int, lo: int, hi: int) -> int {
    if v < lo {
        lo
    } else if v > hi {
        hi
    } else {
        v
    }
}

/// A coordinate saturated to the bounded world.
pub open spec fn sat(v: int) -> int {
    clamp(v, -MAX_COORD, MAX_COORD as int)
}

/// A quaternion component saturated to the unit range.
pub open spec fn sat_unit(v: int) -> int {
    clamp(v, -SCALE, SCALE as int)
}

pub open spec fn in_world(v: int) -> bool {
    -MAX_COORD <= v <= MAX_COORD
}

pub open spec fn in_unit(v: int) -> bool {
    -SCALE <= v <= SCALE
}

pub(crate) fn div_toward_zero(a: i128, d: i128) -> (r: i128)
    requires
        d > 0,
        a > i128::MIN,
    ensures
        r == tdiv(a as int, d as int),
{
    if a >= 0 {
        a / d
    } else {
        -((-a) / d)
    }
}

pub(crate) fn saturate(v: i128) -> (r: i64)
    ensures
        r == sat(v as int),
{
    if v < -(MAX_COORD as i128) {
        -MAX_COORD
    } else if v > MAX_COORD as i128 {
        MAX_COORD
    } else {
        v as i64
    }
}

fn saturate_unit(v: i128) -> (r: i64)
    ensures
        r == sat_unit(v as int),
{
    if v < -(SCALE as i128) {
        -SCALE
    } else if v > SCALE as i128 {
        SCALE
    } else {
        v as i64
    }
}


pub(crate) proof fn lemma_mul_within(a: int, b: int, ba: int, bb: int)
    requires
        -ba <= a <= ba,
        -bb <= b <= bb,
    ensures
        -(ba * bb) <= a * b <= ba * bb,
{
    assert(-(ba * bb) <= a * b <= ba * bb) by (nonlinear_arith)
        requires
            -ba <= a <= ba,
            -bb <= b <= bb,
    ;
}

/// A point or a direction; each coordinate in `SCALE`-ths of a world unit.
#[derive(Clone, Copy, Debug, PartialEq, Eq, Structural)]
pub struct Vec3 {
    pub x: i64,
    pub y: i64,
    pub z: i64,
}

/// A rotation quaternion; each component in `SCALE`-ths.
#[derive(Clone, Copy, Debug, PartialEq, Eq, Structural)]
pub struct Quat {
    pub x: i64,
    pub y: i64,
    pub z: i64,
    pub w: i64,
}

/// The pose of a scene node.
#[derive(Clone, Copy, Debug, PartialEq, Eq, Structural)]
pub struct Transform {
    pub translation: Vec3,
    pub rotation: Quat,
}

impl Vec3 {
    pub open spec fn wf(self) -> bool {
        in_world(self.x as int) && in_world(self.y as int) && in_world(self.z as int)
    }

    pub fn new(x: i64, y: i64, z: i64) -> (r: Vec3)
        ensures
            r == (Vec3 { x, y, z }),
    {
        Vec3 { x, y, z }
    }

    pub fn zero() -> (r: Vec3)
        ensures
            r == (Vec3 { x: 0, y: 0, z: 0 }),
            r.wf(),
    {
        Vec3 { x: 0, y: 0, z: 0 }
    }
}

impl Quat {
    pub open spec fn wf(self) -> bool {
        in_unit(self.x as int) && in_unit(self.y as int) && in_unit(self.z as int) && in_unit(
            self.w as int,
        )
    }

    pub fn identity() -> (r: Quat)
        ensures
            r == (Quat { x: 0, y: 0, z: 0, w: SCALE }),
            r.wf(),
    {
        Quat { x: 0, y: 0, z: 0, w: SCALE }
    }
}

impl Transform {
    pub open spec fn wf(self) -> bool {
        self.translation.wf() && self.rotation.wf()
    }

    /// A node at `translation` with no rotation.
    pub fn from_translation(translation: Vec3) -> (r: Transform)
        ensures
            r == (Transform { translation, rotation: Quat { x: 0, y: 0, z: 0, w: SCALE } }),
    {
        Transform { translation, rotation: Quat::identity() }
    }

    pub fn identity() -> (r: Transform)
        ensures
            r == (Transform {
                translation: Vec3 { x: 0, y: 0, z: 0 },
                rotation: Quat { x: 0, y: 0, z: 0, w: SCALE },
            }),
            r.wf(),
    {
        Transform { translation: Vec3::zero(), rotation: Quat::identity() }
    }
}

pub open spec fn vec_plus(a: Vec3, b: Vec3) -> Vec3 {
    Vec3 {
        x: sat(a.x + b.x) as i64,
        y: sat(a.y + b.y) as i64,
        z: sat(a.z + b.z) as i64,
    }
}

pub open spec fn vec_minus(a: Vec3, b: Vec3) -> Vec3 {
    Vec3 {
        x: sat(a.x - b.x) as i64,
        y: sat(a.y - b.y) as i64,
        z: sat(a.z - b.z) as i64,
    }
}

/// Sum of `a` and `b`, saturated to the bounded world.
pub fn plus(a: Vec3, b: Vec3) -> (r: Vec3)
    requires
        a.wf(),
        b.wf(),
    ensures
        r == vec_plus(a, b),
        r.wf(),
{
    Vec3 {
        x: saturate(a.x as i128 + b.x as i128),
        y: saturate(a.y as i128 + b.y as i128),
        z: saturate(a.z as i128 + b.z as i128),
    }
}

/// Difference of `a` and `b`, saturated to the bounded world.
pub fn minus(a: Vec3, b: Vec3) -> (r: Vec3)
    requires
        a.wf(),
        b.wf(),
    ensures
        r == vec_minus(a, b),
        r.wf(),
{
    Vec3 {
        x: saturate(a.x as i128 - b.x as i128),
        y: saturate(a.y as i128 - b.y as i128),
        z: saturate(a.z as i128 - b.z as i128),
    }
}

/// `SCALE * SCALE`: the denominator of a rotated coordinate.
pub open spec fn scale_sq() -> int {
    SCALE as int * SCALE as int
}

/// `w^2 - |b|^2` for the quaternion `(b, w)`.
pub open spec fn rot_k(q: Quat) -> int {
    q.w * q.w - (q.x * q.x + q.y * q.y + q.z * q.z)
}

/// `2 (b . v)` for the quaternion `(b, w)`.
pub open spec fn rot_d(q: Quat, v: Vec3) -> int {
    2 * (q.x * v.x + q.y * v.y + q.z * v.z)
}

/// `v (w^2 - b.b) + b (2 b.v) + (b x v) 2w`, scaled by `SCALE^2`.
pub open spec fn rotate_spec(q: Quat, v: Vec3) -> Vec3 {
    Vec3 {
        x: sat(tdiv(v.x * rot_k(q) + q.x * rot_d(q, v) + 2 * q.w * (q.y * v.z - q.z * v.y), scale_sq())) as i64,
        y: sat(tdiv(v.y * rot_k(q) + q.y * rot_d(q, v) + 2 * q.w * (q.z * v.x - q.x * v.z), scale_sq())) as i64,
        z: sat(tdiv(v.z * rot_k(q) + q.z * rot_d(q, v) + 2 * q.w * (q.x * v.y - q.y * v.x), scale_sq())) as i64,
    }
}

/// `v` turned by the rotation `q`.
pub fn rotate(q: Quat, v: Vec3) -> (r: Vec3)
    requires
        q.wf(),
        v.wf(),
    ensures
        r == rotate_spec(q, v),
        r.wf(),
{
    let s: i128 = SCALE as i128;
    let m: i128 = MAX_COORD as i128;
    let w = q.w as i128;
    let bx = q.x as i128;
    let by = q.y as i128;
    let bz = q.z as i128;
    let vx = v.x as i128;
    let vy = v.y as i128;
    let vz = v.z as i128;
    proof {
        lemma_mul_within(w as int, w as int, s as int, s as int);
        lemma_mul_within(bx as int, bx as int, s as int, s as int);
        lemma_mul_within(by as int, by as int, s as int, s as int);
        lemma_mul_within(bz as int, bz as int, s as int, s as int);
        lemma_mul_within(bx as int, vx as int, s as int, m as int);
        lemma_mul_within(by as int, vy as int, s as int, m as int);
        lemma_mul_within(bz as int, vz as int, s as int, m as int);
        lemma_mul_within(by as int, vz as int, s as int, m as int);
        lemma_mul_within(bz as int, vy as int, s as int, m as int);
        lemma_mul_within(bz as int, vx as int, s as int, m as int);
        lemma_mul_within(bx as int, vz as int, s as int, m as int);
        lemma_mul_within(bx as int, vy as int, s as int, m as int);
        lemma_mul_within(by as int, vx as int, s as int, m as int);
    }
    let k = w * w - (bx * bx + by * by + bz * bz);
    let d = 2 * (bx * vx + by * vy + bz * vz);
    let cx = by * vz - bz * vy;
    let cy = bz * vx - bx * vz;
    let cz = bx * vy - by * vx;
    proof {
        let ks = 4 * s * s;
        let ds = 6 * s * m;
        let cs = 2 * s * m;
        lemma_mul_within(vx as int, k as int, m as int, ks as int);
        lemma_mul_within(vy as int, k as int, m as int, ks as int);
        lemma_mul_within(vz as int, k as int, m as int, ks as int);
        lemma_mul_within(bx as int, d as int, s as int, ds as int);
        lemma_mul_within(by as int, d as int, s as int, ds as int);
        lemma_mul_within(bz as int, d as int, s as int, ds as int);
        lemma_mul_within(2 * w as int, cx as int, 2 * s as int, cs as int);
        lemma_mul_within(2 * w as int, cy as int, 2 * s as int, cs as int);
        lemma_mul_within(2 * w as int, cz as int, 2 * s as int, cs as int);
    }
    let ss = s * s;
    let nx = vx * k + bx * d + 2 * w * cx;
    let ny = vy * k + by * d + 2 * w * cy;
    let nz = vz * k + bz * d + 2 * w * cz;
    Vec3 {
        x: saturate(div_toward_zero(nx, ss)),
        y: saturate(div_toward_zero(ny, ss)),
        z: saturate(div_toward_zero(nz, ss)),
    }
}


/// Frame time, in microseconds, that carries a node the whole way to its target.
pub const FULL_STEP_MICROS: u64 = 100_000;

/// Distance under which a translation snaps to its target: 0.005 units.
pub const SNAP_DISTANCE: i64 = 5_000_000;

/// Per-component difference under which a rotation snaps to its target: 1e-5.
pub const SNAP_ROTATION: i64 = 10_000;

/// The interpolation numerator for a frame of `dt` microseconds, over
/// `FULL_STEP_MICROS`: frames longer than a full step move all the way.
pub open spec fn lerp_num(dt: u64) -> int {
    if dt > FULL_STEP_MICROS {
        FULL_STEP_MICROS as int
    } else {
        dt as int
    }
}

pub open spec fn lerp_coord(a: int, b: int, n: int) -> int {
    a + tdiv((b - a) * n, FULL_STEP_MICROS as int)
}

pub open spec fn dist_sq(a: Vec3, b: Vec3) -> int {
    (b.x - a.x) * (b.x - a.x) + (b.y - a.y) * (b.y - a.y) + (b.z - a.z) * (b.z - a.z)
}

pub open spec fn lerp_vec(a: Vec3, b: Vec3, n: int) -> Vec3 {
    Vec3 {
        x: lerp_coord(a.x as int, b.x as int, n) as i64,
        y: lerp_coord(a.y as int, b.y as int, n) as i64,
        z: lerp_coord(a.z as int, b.z as int, n) as i64,
    }
}

pub open spec fn lerp_quat(a: Quat, b: Quat, n: int) -> Quat {
    Quat {
        x: lerp_coord(a.x as int, b.x as int, n) as i64,
        y: lerp_coord(a.y as int, b.y as int, n) as i64,
        z: lerp_coord(a.z as int, b.z as int, n) as i64,
        w: lerp_coord(a.w as int, b.w as int, n) as i64,
    }
}

/// Whether `a` is farther than the snap distance from `b`.
pub open spec fn far_apart(a: Vec3, b: Vec3) -> bool {
    dist_sq(a, b) > SNAP_DISTANCE as int * SNAP_DISTANCE as int
}

pub open spec fn abs(v: int) -> int {
    if v < 0 {
        -v
    } else {
        v
    }
}

pub open spec fn quat_dist_sq(a: Quat, b: Quat) -> int {
    (b.x - a.x) * (b.x - a.x) + (b.y - a.y) * (b.y - a.y) + (b.z - a.z) * (b.z - a.z) + (b.w - a.w)
        * (b.w - a.w)
}

/// Whether every component of `a` is within the snap tolerance of `b`.
pub open spec fn near_quat(a: Quat, b: Quat) -> bool {
    abs(a.x - b.x) <= SNAP_ROTATION && abs(a.y - b.y) <= SNAP_ROTATION && abs(a.z - b.z)
        <= SNAP_ROTATION && abs(a.w - b.w) <= SNAP_ROTATION
}

/// One convergence step of a translation: stay if at the target, move part
/// of the way while far from it, snap to it once close.
pub open spec fn converge_vec(cur: Vec3, target: Vec3, dt: u64) -> Vec3 {
    if cur == target {
        cur
    } else if far_apart(cur, target) {
        lerp_vec(cur, target, lerp_num(dt))
    } else {
        target
    }
}

/// One convergence step of a rotation, component by component.
pub open spec fn converge_quat(cur: Quat, target: Quat, dt: u64) -> Quat {
    if cur == target {
        cur
    } else if !near_quat(cur, target) {
        lerp_quat(cur, target, lerp_num(dt))
    } else {
        target
    }
}

pub open spec fn converge_transform(cur: Transform, target: Transform, dt: u64) -> Transform {
    Transform {
        translation: converge_vec(cur.translation, target.translation, dt),
        rotation: converge_quat(cur.rotation, target.rotation, dt),
    }
}

/// The step `tdiv(d * n, FULL)` lies between zero and `d`, and is nonzero
/// once `|d| * n` reaches a full step.
pub proof fn lemma_lerp_step(d: int, n: int)
    requires
        0 <= n <= FULL_STEP_MICROS,
    ensures
        d >= 0 ==> 0 <= tdiv(d * n, FULL_STEP_MICROS as int) <= d,
        d < 0 ==> d <= tdiv(d * n, FULL_STEP_MICROS as int) <= 0,
        abs(d) * n >= FULL_STEP_MICROS ==> tdiv(d * n, FULL_STEP_MICROS as int) != 0,
{
    let f = FULL_STEP_MICROS as int;
    let e = abs(d);
    assert(0 <= e * n <= e * f) by (nonlinear_arith)
        requires
            0 <= n <= f,
            0 <= e,
    ;
    assert(d * n == if d >= 0 { e * n } else { -(e * n) }) by (nonlinear_arith)
        requires
            e == abs(d),
    ;
    lemma_div_is_ordered(e * n, e * f, f);
    lemma_div_by_multiple(e, f);
    lemma_div_pos_is_pos(e * n, f);
    if e * n >= f {
        lemma_div_is_ordered(f, e * n, f);
        lemma_div_by_multiple(1, f);
    }
}

fn lerp_component(a: i64, b: i64, n: u64, bound: i64) -> (r: i64)
    requires
        n <= FULL_STEP_MICROS,
        0 <= bound <= MAX_COORD,
        -bound <= a <= bound,
        -bound <= b <= bound,
    ensures
        r == lerp_coord(a as int, b as int, n as int),
        -bound <= r <= bound,
{
    let d = b as i128 - a as i128;
    proof {
        lemma_mul_within(d as int, n as int, 2 * MAX_COORD as int, FULL_STEP_MICROS as int);
        lemma_lerp_step(d as int, n as int);
    }
    let step = div_toward_zero(d * (n as i128), FULL_STEP_MICROS as i128);
    (a as i128 + step) as i64
}

/// One convergence step of a translation toward `target` over a frame of
/// `dt` microseconds.
pub fn step_translation(cur: Vec3, target: Vec3, dt: u64) -> (r: Vec3)
    requires
        cur.wf(),
        target.wf(),
    ensures
        r == converge_vec(cur, target, dt),
        r.wf(),
{
    if cur == target {
        return cur;
    }
    let dx = target.x as i128 - cur.x as i128;
    let dy = target.y as i128 - cur.y as i128;
    let dz = target.z as i128 - cur.z as i128;
    proof {
        let mm = 2 * MAX_COORD as int;
        lemma_mul_within(dx as int, dx as int, mm, mm);
        lemma_mul_within(dy as int, dy as int, mm, mm);
        lemma_mul_within(dz as int, dz as int, mm, mm);
        assert(mm * mm == 4_000_000_000_000_000_000_000_000_000_000int);
    }
    let d2 = dx * dx + dy * dy + dz * dz;
    let snap = SNAP_DISTANCE as i128;
    if d2 > snap * snap {
        let n = if dt > FULL_STEP_MICROS {
            FULL_STEP_MICROS
        } else {
            dt
        };
        Vec3 {
            x: lerp_component(cur.x, target.x, n, MAX_COORD),
            y: lerp_component(cur.y, target.y, n, MAX_COORD),
            z: lerp_component(cur.z, target.z, n, MAX_COORD),
        }
    } else {
        target
    }
}

fn abs_diff(a: i64, b: i64) -> (r: i128)
    ensures
        r == abs(a - b),
{
    let d = a as i128 - b as i128;
    if d < 0 {
        -d
    } else {
        d
    }
}

/// One convergence step of a rotation toward `target` over a frame of
/// `dt` microseconds.
pub fn step_rotation(cur: Quat, target: Quat, dt: u64) -> (r: Quat)
    requires
        cur.wf(),
        target.wf(),
    ensures
        r == converge_quat(cur, target, dt),
        r.wf(),
{
    if cur == target {
        return cur;
    }
    let tol = SNAP_ROTATION as i128;
    let near = abs_diff(cur.x, target.x) <= tol && abs_diff(cur.y, target.y) <= tol && abs_diff(
        cur.z,
        target.z,
    ) <= tol && abs_diff(cur.w, target.w) <= tol;
    if !near {
        let n = if dt > FULL_STEP_MICROS {
            FULL_STEP_MICROS
        } else {
            dt
        };
        Quat {
            x: lerp_component(cur.x, target.x, n, SCALE),
            y: lerp_component(cur.y, target.y, n, SCALE),
            z: lerp_component(cur.z, target.z, n, SCALE),
            w: lerp_component(cur.w, target.w, n, SCALE),
        }
    } else {
        target
    }
}

/// One convergence step of a whole transform.
pub fn step_transform(cur: Transform, target: Transform, dt: u64) -> (r: Transform)
    requires
        cur.wf(),
        target.wf(),
    ensures
        r == converge_transform(cur, target, dt),
        r.wf(),
{
    Transform {
        translation: step_translation(cur.translation, target.translation, dt),
        rotation: step_rotation(cur.rotation, target.rotation, dt),
    }
}


/// The Hamilton product `a * b`: the rotation `b` followed by `a`.
pub open spec fn quat_mul_spec(a: Quat, b: Quat) -> Quat {
    Quat {
        x: sat_unit(tdiv(a.w * b.x + a.x * b.w + a.y * b.z - a.z * b.y, SCALE as int)) as i64,
        y: sat_unit(tdiv(a.w * b.y - a.x * b.z + a.y * b.w + a.z * b.x, SCALE as int)) as i64,
        z: sat_unit(tdiv(a.w * b.z + a.x * b.y - a.y * b.x + a.z * b.w, SCALE as int)) as i64,
        w: sat_unit(tdiv(a.w * b.w - a.x * b.x - a.y * b.y - a.z * b.z, SCALE as int)) as i64,
    }
}

/// The rotation `b` followed by `a`.
pub fn quat_mul(a: Quat, b: Quat) -> (r: Quat)
    requires
        a.wf(),
        b.wf(),
    ensures
        r == quat_mul_spec(a, b),
        r.wf(),
{
    proof {
        let s = SCALE as int;
        lemma_mul_within(a.w as int, b.x as int, s, s);
        lemma_mul_within(a.w as int, b.y as int, s, s);
        lemma_mul_within(a.w as int, b.z as int, s, s);
        lemma_mul_within(a.w as int, b.w as int, s, s);
        lemma_mul_within(a.x as int, b.x as int, s, s);
        lemma_mul_within(a.x as int, b.y as int, s, s);
        lemma_mul_within(a.x as int, b.z as int, s, s);
        lemma_mul_within(a.x as int, b.w as int, s, s);
        lemma_mul_within(a.y as int, b.x as int, s, s);
        lemma_mul_within(a.y as int, b.y as int, s, s);
        lemma_mul_within(a.y as int, b.z as int, s, s);
        lemma_mul_within(a.y as int, b.w as int, s, s);
        lemma_mul_within(a.z as int, b.x as int, s, s);
        lemma_mul_within(a.z as int, b.y as int, s, s);
        lemma_mul_within(a.z as int, b.z as int, s, s);
        lemma_mul_within(a.z as int, b.w as int, s, s);
    }
    let (ax, ay, az, aw) = (a.x as i128, a.y as i128, a.z as i128, a.w as i128);
    let (bx, by, bz, bw) = (b.x as i128, b.y as i128, b.z as i128, b.w as i128);
    let d = SCALE as i128;
    Quat {
        x: saturate_unit(div_toward_zero(aw * bx + ax * bw + ay * bz - az * by, d)),
        y: saturate_unit(div_toward_zero(aw * by - ax * bz + ay * bw + az * bx, d)),
        z: saturate_unit(div_toward_zero(aw * bz + ax * by - ay * bx + az * bw, d)),
        w: saturate_unit(div_toward_zero(aw * bw - ax * bx - ay * by - az * bz, d)),
    }
}

/// The axes a turn can be made about.
#[derive(Clone, Copy, Debug, PartialEq, Eq, Structural)]
pub enum Axis {
    X,
    Y,
    Z,
}

/// An angle, held as the sine and cosine of its half, in `SCALE`-ths.
#[derive(Clone, Copy, Debug, PartialEq, Eq, Structural)]
pub struct Turn {
    pub sin_half: i64,
    pub cos_half: i64,
}

impl Turn {
    pub open spec fn wf(self) -> bool {
        in_unit(self.sin_half as int) && in_unit(self.cos_half as int)
    }
}

/// The rotation by the angle `t` (negated when `negate`) about `axis`.
pub open spec fn axis_quat(axis: Axis, t: Turn, negate: bool) -> Quat {
    let s = if negate {
        -t.sin_half
    } else {
        t.sin_half as int
    };
    match axis {
        Axis::X => Quat { x: s as i64, y: 0, z: 0, w: t.cos_half },
        Axis::Y => Quat { x: 0, y: s as i64, z: 0, w: t.cos_half },
        Axis::Z => Quat { x: 0, y: 0, z: s as i64, w: t.cos_half },
    }
}

/// `q` applied `n` times.
pub open spec fn quat_pow(q: Quat, n: nat) -> Quat
    decreases n,
{
    if n == 0 {
        Quat { x: 0, y: 0, z: 0, w: SCALE }
    } else {
        quat_mul_spec(q, quat_pow(q, (n - 1) as nat))
    }
}

/// The rotation by `k` times the angle `t` about `axis`.
pub open spec fn turn_quat(axis: Axis, t: Turn, k: int) -> Quat {
    quat_pow(axis_quat(axis, t, k < 0), abs(k) as nat)
}

/// The rotation by `k` times the angle `t` about `axis`, built one turn at a time.
pub fn turn_by(axis: Axis, t: Turn, k: i64) -> (r: Quat)
    requires
        t.wf(),
    ensures
        r == turn_quat(axis, t, k as int),
        r.wf(),
{
    let s = if k < 0 {
        -t.sin_half
    } else {
        t.sin_half
    };
    let q = match axis {
        Axis::X => Quat { x: s, y: 0, z: 0, w: t.cos_half },
        Axis::Y => Quat { x: 0, y: s, z: 0, w: t.cos_half },
        Axis::Z => Quat { x: 0, y: 0, z: s, w: t.cos_half },
    };
    let count: u64 = if k < 0 {
        (-(k as i128)) as u64
    } else {
        k as u64
    };
    let mut r = Quat::identity();
    let mut i: u64 = 0;
    while i < count
        invariant
            i <= count,
            count == abs(k as int),
            q == axis_quat(axis, t, k < 0),
            q.wf(),
            r.wf(),
            r == quat_pow(q, i as nat),
        decreases count - i,
    {
        r = quat_mul(q, r);
        i = i + 1;
    }
    r
}

} // verus!
