//! Following a moving entity.
use vstd::prelude::*;
use crate::geometry::{Transform, Vec3, converge_vec, step_translation};
use crate::rig::{CameraRig, CameraRigFollow, target_wf};

verus! {

/// An entity whose transform changed this frame and that carries a follow flag.
#[derive(Clone, Copy, Debug, PartialEq, Eq, Structural)]
pub struct FollowSource {
    pub entity: u64,
    pub translation: Vec3,
    pub follow: CameraRigFollow,
}

/// The index of the source with the largest entity id, the later one on a
/// tie; -1 when there is none.
pub open spec fn selected(changed: Seq<FollowSource>) -> int
    decreases changed.len(),
{
    if changed.len() == 0 {
        -1
    } else {
        let p = selected(changed.drop_last());
        if p < 0 || changed.last().entity >= changed[p].entity {
            changed.len() - 1
        } else {
            p
        }
    }
}

/// The translation that rigs follow this frame: that of the selected
/// source, when it is armed.
pub open spec fn follow_target(changed: Seq<FollowSource>) -> Option<Vec3> {
    let p = selected(changed);
    if p >= 0 && changed[p].follow.0 {
        Some(changed[p].translation)
    } else {
        None
    }
}

proof fn lemma_selected_range(changed: Seq<FollowSource>)
    ensures
        changed.len() == 0 <==> selected(changed) == -1,
        changed.len() > 0 ==> 0 <= selected(changed) < changed.len(),
        forall|j: int|
            0 <= j < changed.len() ==> #[trigger] changed[j].entity <= changed[selected(
                changed,
            )].entity,
    decreases changed.len(),
{
    if changed.len() > 0 {
        let prev = changed.drop_last();
        lemma_selected_range(prev);
        assert forall|j: int| 0 <= j < changed.len() implies #[trigger] changed[j].entity
            <= changed[selected(changed)].entity by {
            if j < changed.len() - 1 {
                assert(prev[j] == changed[j]);
            }
        }
    }
}

/// The source that rigs follow: the one with the largest entity id, the
/// later one on a tie; none when no source changed.
pub fn select_follow(changed: &Vec<FollowSource>) -> (r: Option<usize>)
    ensures
        r is None <==> changed@.len() == 0,
        r matches Some(i) ==> i == selected(changed@),
        r matches Some(i) ==> forall|j: int|
            0 <= j < changed@.len() ==> #[trigger] changed@[j].entity <= changed@[i as int].entity,
{
    proof {
        lemma_selected_range(changed@);
    }
    let mut best: Option<usize> = None;
    let mut i: usize = 0;
    while i < changed.len()
        invariant
            i <= changed@.len(),
            match best {
                Some(b) => b == selected(changed@.take(i as int)) && b < i,
                None => i == 0,
            },
        decreases changed@.len() - i,
    {
        proof {
            assert(changed@.take(i + 1).drop_last() =~= changed@.take(i as int));
            lemma_selected_range(changed@.take(i as int));
        }
        best = match best {
            Some(b) => if changed[i].entity >= changed[b].entity {
                Some(i)
            } else {
                Some(b)
            },
            None => Some(i),
        };
        i = i + 1;
    }
    proof {
        assert(changed@.take(changed@.len() as int) =~= changed@);
    }
    best
}

/// A rig's transform after one follow step toward `to`: its translation
/// steps toward `to`, its rotation stays; a disabled rig stays.
pub open spec fn followed_transform(t: Transform, rig: CameraRig, to: Option<Vec3>, dt: u64) -> Transform {
    match to {
        Some(p) if !rig.disable => Transform {
            translation: converge_vec(t.translation, p, dt),
            rotation: t.rotation,
        },
        _ => t,
    }
}

/// A rig's pending target after one follow step: its translation becomes
/// the rig's new translation, so that the next frame does not pull back.
pub open spec fn followed_move_to(t: Transform, rig: CameraRig, to: Option<Vec3>, dt: u64) -> Option<Transform> {
    match (to, rig.move_to.0) {
        (Some(p), Some(m)) if !rig.disable => Some(
            Transform { translation: converge_vec(t.translation, p, dt), rotation: m.rotation },
        ),
        _ => rig.move_to.0,
    }
}

fn follow_one(transform: &mut Transform, rig: &mut CameraRig, to: Vec3, dt: u64)
    requires
        old(transform).wf(),
        old(rig).wf(),
        to.wf(),
    ensures
        *final(transform) == followed_transform(*old(transform), *old(rig), Some(to), dt),
        final(rig).move_to.0 == followed_move_to(*old(transform), *old(rig), Some(to), dt),
        final(rig).move_to.1 == old(rig).move_to.1,
        final(rig).keyboard == old(rig).keyboard,
        final(rig).mouse == old(rig).mouse,
        final(rig).disable == old(rig).disable,
        final(transform).wf(),
        final(rig).wf(),
{
    if rig.disable {
        return;
    }
    let t = step_translation(transform.translation, to, dt);
    transform.translation = t;
    match rig.move_to.0 {
        Some(m) => {
            rig.move_to.0 = Some(Transform { translation: t, rotation: m.rotation });
        },
        None => {},
    }
}

/// Moves every enabled rig toward the selected follow source when it is
/// armed; rotations are never touched.
pub fn camera_rig_follow(
    rig_transforms: &mut Vec<Transform>,
    rigs: &mut Vec<CameraRig>,
    changed: &Vec<FollowSource>,
    dt: u64,
)
    requires
        old(rig_transforms)@.len() == old(rigs)@.len(),
        forall|i: int| 0 <= i < old(rigs)@.len() ==> (#[trigger] old(rigs)@[i]).wf(),
        forall|i: int| 0 <= i < old(rig_transforms)@.len() ==> (#[trigger] old(rig_transforms)@[i]).wf(),
        forall|i: int| 0 <= i < changed@.len() ==> (#[trigger] changed@[i]).translation.wf(),
    ensures
        final(rig_transforms)@.len() == old(rig_transforms)@.len(),
        final(rigs)@.len() == old(rigs)@.len(),
        forall|i: int|
            0 <= i < final(rigs)@.len() ==> {
                let to = follow_target(changed@);
                &&& #[trigger] final(rig_transforms)@[i] == followed_transform(
                    old(rig_transforms)@[i],
                    old(rigs)@[i],
                    to,
                    dt,
                )
                &&& final(rigs)@[i].move_to.0 == followed_move_to(
                    old(rig_transforms)@[i],
                    old(rigs)@[i],
                    to,
                    dt,
                )
                &&& final(rigs)@[i].move_to.1 == old(rigs)@[i].move_to.1
                &&& final(rigs)@[i].keyboard == old(rigs)@[i].keyboard
                &&& final(rigs)@[i].mouse == old(rigs)@[i].mouse
                &&& final(rigs)@[i].disable == old(rigs)@[i].disable
                &&& final(rigs)@[i].wf()
                &&& final(rig_transforms)@[i].wf()
            },
{
    let sel = select_follow(changed);
    proof {
        lemma_selected_range(changed@);
    }
    let to = match sel {
        Some(s) => if changed[s].follow.0 {
            Some(changed[s].translation)
        } else {
            None
        },
        None => None,
    };
    let ghost ts = rig_transforms@;
    let ghost rs = rigs@;
    match to {
        Some(p) => {
            let mut i: usize = 0;
            while i < rigs.len()
                invariant
                    i <= rigs@.len(),
                    rigs@.len() == rs.len(),
                    rig_transforms@.len() == ts.len(),
                    ts.len() == rs.len(),
                    to == follow_target(changed@),
                    to == Some(p),
                    p.wf(),
                    forall|k: int| 0 <= k < rs.len() ==> (#[trigger] rs[k]).wf(),
                    forall|k: int| 0 <= k < ts.len() ==> (#[trigger] ts[k]).wf(),
                    forall|k: int| i <= k < rs.len() ==> #[trigger] rigs@[k] == rs[k],
                    forall|k: int| i <= k < ts.len() ==> #[trigger] rig_transforms@[k] == ts[k],
                    forall|k: int|
                        0 <= k < i ==> {
                            &&& #[trigger] rig_transforms@[k] == followed_transform(ts[k], rs[k], to, dt)
                            &&& rigs@[k].move_to.0 == followed_move_to(ts[k], rs[k], to, dt)
                            &&& rigs@[k].move_to.1 == rs[k].move_to.1
                            &&& rigs@[k].keyboard == rs[k].keyboard
                            &&& rigs@[k].mouse == rs[k].mouse
                            &&& rigs@[k].disable == rs[k].disable
                            &&& rigs@[k].wf()
                            &&& rig_transforms@[k].wf()
                        },
                decreases rs.len() - i,
            {
                follow_one(&mut rig_transforms[i], &mut rigs[i], p, dt);
                i = i + 1;
            }
        },
        None => {},
    }
}

} // verus!
