//! The skeleton of a tracked user: its joints by role, and the bones that
//! join them.

use vstd::prelude::*;
use crate::native::{NitePoint3f, NiteSkeletonJoint, JOINT_COUNT};
use crate::scalar::Scalar;
use crate::types::{JointType, OpenNI2Status, Projection, Status};

verus! {

/// Number of bones in a skeleton.
pub const BONE_COUNT: usize = 15;

/// The bones of a skeleton, each by the roles of its two ends, in the order
/// in which they are listed: head and arms, shoulders and torso, hips, legs.
pub open spec fn bones() -> Seq<(JointType, JointType)> {
    seq![
        (JointType::Head, JointType::Neck),
        (JointType::LeftShoulder, JointType::LeftElbow),
        (JointType::LeftElbow, JointType::LeftHand),
        (JointType::RightShoulder, JointType::RightElbow),
        (JointType::RightElbow, JointType::RightHand),
        (JointType::LeftShoulder, JointType::RightShoulder),
        (JointType::LeftShoulder, JointType::Torso),
        (JointType::RightShoulder, JointType::Torso),
        (JointType::Torso, JointType::LeftHip),
        (JointType::Torso, JointType::RightHip),
        (JointType::LeftHip, JointType::RightHip),
        (JointType::LeftHip, JointType::LeftKnee),
        (JointType::LeftKnee, JointType::LeftFoot),
        (JointType::RightHip, JointType::RightKnee),
        (JointType::RightKnee, JointType::RightFoot),
    ]
}

/// The roles at the two ends of the bone at place `i`.
pub fn bone(i: usize) -> (r: (JointType, JointType))
    requires
        i < BONE_COUNT,
    ensures
        r == bones()[i as int],
{
    match i {
        0 => (JointType::Head, JointType::Neck),
        1 => (JointType::LeftShoulder, JointType::LeftElbow),
        2 => (JointType::LeftElbow, JointType::LeftHand),
        3 => (JointType::RightShoulder, JointType::RightElbow),
        4 => (JointType::RightElbow, JointType::RightHand),
        5 => (JointType::LeftShoulder, JointType::RightShoulder),
        6 => (JointType::LeftShoulder, JointType::Torso),
        7 => (JointType::RightShoulder, JointType::Torso),
        8 => (JointType::Torso, JointType::LeftHip),
        9 => (JointType::Torso, JointType::RightHip),
        10 => (JointType::LeftHip, JointType::RightHip),
        11 => (JointType::LeftHip, JointType::LeftKnee),
        12 => (JointType::LeftKnee, JointType::LeftFoot),
        13 => (JointType::RightHip, JointType::RightKnee),
        _ => (JointType::RightKnee, JointType::RightFoot),
    }
}

/// Whether the engine is fully confident of both ends of a segment.
pub open spec fn both_confident(segment: (NiteSkeletonJoint, NiteSkeletonJoint)) -> bool {
    segment.0.confident() && segment.1.confident()
}

/// `both_confident`, as a predicate to filter by.
pub open spec fn confident_segments() -> spec_fn((NiteSkeletonJoint, NiteSkeletonJoint)) -> bool {
    |segment: (NiteSkeletonJoint, NiteSkeletonJoint)| both_confident(segment)
}

/// The joints of one tracked user, by role.
#[derive(Clone, Copy, Debug)]
pub struct Skeleton {
    joints: [NiteSkeletonJoint; 15],
}

impl View for Skeleton {
    type V = Seq<NiteSkeletonJoint>;

    closed spec fn view(&self) -> Seq<NiteSkeletonJoint> {
        self.joints@
    }
}

impl Skeleton {
    /// A skeleton always has fifteen joints.
    pub proof fn lemma_joint_count(self)
        ensures
            self@.len() == JOINT_COUNT,
    {
    }

    /// The joint that plays `role`.
    pub open spec fn at(self, role: JointType) -> NiteSkeletonJoint {
        self@[role.code()]
    }

    /// Every bone as the pair of joints at its ends, in the order of `bones`.
    pub open spec fn segments(self) -> Seq<(NiteSkeletonJoint, NiteSkeletonJoint)> {
        bones().map_values(|b: (JointType, JointType)| (self.at(b.0), self.at(b.1)))
    }

    /// The segments to show: those of `segments`, in the same order, whose
    /// two ends both have full confidence.
    pub open spec fn limbs_spec(self) -> Seq<(NiteSkeletonJoint, NiteSkeletonJoint)> {
        self.segments().filter(confident_segments())
    }

    /// A skeleton of the given joints, the joint of each role at the place of
    /// its code.
    pub fn new(joints: [NiteSkeletonJoint; 15]) -> (r: Skeleton)
        ensures
            r@ == joints@,
    {
        Skeleton { joints }
    }

    /// The joint that plays the given role.
    pub fn joint(&self, joint_type: JointType) -> (r: &NiteSkeletonJoint)
        ensures
            *r == self.at(joint_type),
    {
        &self.joints[joint_type.index()]
    }

    /// All fifteen joints, the joint of each role at the place of its code.
    pub fn joints(&self) -> (r: &[NiteSkeletonJoint])
        ensures
            r@ == self@,
    {
        self.joints.as_slice()
    }

    /// The bones to draw: of the fifteen bones, in their fixed order, those
    /// whose two end joints both have a position confidence of at least one.
    /// Each is given by its two end joints, as they stand in this skeleton.
    pub fn limbs(&self) -> (r: Vec<(&NiteSkeletonJoint, &NiteSkeletonJoint)>)
        ensures
            r@.len() == self.limbs_spec().len(),
            forall|i: int|
                0 <= i < r@.len() ==> (*(#[trigger] r@[i]).0, *r@[i].1) == self.limbs_spec()[i],
    {
        let mut out: Vec<(&NiteSkeletonJoint, &NiteSkeletonJoint)> = Vec::new();
        let mut i: usize = 0;
        proof {
            assert(self.segments().take(0) =~= Seq::empty());
            assert(self.segments().take(0).filter(confident_segments()) =~= Seq::empty()) by {
                reveal(Seq::filter);
            }
        }
        while i < BONE_COUNT
            invariant
                i <= BONE_COUNT,
                self.segments().len() == BONE_COUNT,
                out@.len() == self.segments().take(i as int).filter(confident_segments()).len(),
                forall|k: int|
                    0 <= k < out@.len() ==> (*(#[trigger] out@[k]).0, *out@[k].1)
                        == self.segments().take(i as int).filter(confident_segments())[k],
            decreases BONE_COUNT - i,
        {
            let ends = bone(i);
            let from = self.joint(ends.0);
            let to = self.joint(ends.1);
            proof {
                let all = self.segments();
                assert(all[i as int] == (*from, *to));
                all.lemma_take_succ_push(i as int);
                all.take(i as int).lemma_filter_push((*from, *to), confident_segments());
            }
            if from.position_confidence.is_at_least_one()
                && to.position_confidence.is_at_least_one() {
                out.push((from, to));
            }
            i = i + 1;
        }
        proof {
            assert(self.segments().take(BONE_COUNT as int) =~= self.segments());
        }
        out
    }

    /// Whether `after` is `before` with the position of every joint replaced
    /// by what `project` gave for it, and nothing else changed.
    pub open spec fn projected_by<F>(before: Skeleton, project: F, after: Skeleton) -> bool
    where
        F: Fn((Scalar, Scalar, Scalar)) -> Projection,
    {
        forall|i: int|
            0 <= i < JOINT_COUNT ==> {
                &&& project.ensures(
                    (before@[i].position.triple(),),
                    Ok((#[trigger] after@[i]).position.triple()),
                )
                &&& after@[i] == before@[i].moved_to(after@[i].position)
            }
    }

    /// Whether `project` could give a new position for `joint`.
    pub open spec fn accepted_by<F>(joint: NiteSkeletonJoint, project: F) -> bool
    where
        F: Fn((Scalar, Scalar, Scalar)) -> Projection,
    {
        exists|t: (Scalar, Scalar, Scalar)| #[trigger]
            project.ensures((joint.position.triple(),), Ok(t))
    }

    /// Whether `project` gave up with `status` at some joint of `before`,
    /// after it had succeeded for every joint before that one.
    pub open spec fn refused_by<F>(before: Skeleton, project: F, status: Status) -> bool
    where
        F: Fn((Scalar, Scalar, Scalar)) -> Projection,
    {
        exists|i: int, cause: OpenNI2Status|
            {
                &&& 0 <= i < JOINT_COUNT
                &&& #[trigger] project.ensures((before@[i].position.triple(),), Err(cause))
                &&& status@ == cause@.to_status()
                &&& forall|k: int| 0 <= k < i ==> Self::accepted_by(#[trigger] before@[k], project)
            }
    }

    /// What a projection of the whole skeleton may return: the skeleton with
    /// every joint moved, or the first refusal as a status of the engine.
    pub open spec fn projection_outcome<F>(
        before: Skeleton,
        project: F,
        r: Result<Skeleton, Status>,
    ) -> bool
    where
        F: Fn((Scalar, Scalar, Scalar)) -> Projection,
    {
        match r {
            Ok(after) => Self::projected_by(before, project, after),
            Err(status) => Self::refused_by(before, project, status),
        }
    }

    /// Sends the position of every joint through `project`, joint by joint
    /// from the first, and stops at the first refusal.
    fn project_joints<F>(self, project: F) -> (r: Result<Skeleton, Status>)
    where
        F: Fn((Scalar, Scalar, Scalar)) -> Projection,
        requires
            forall|i: int|
                0 <= i < JOINT_COUNT ==> project.requires((#[trigger] self@[i].position.triple(),)),
        ensures
            Self::projection_outcome(self, project, r),
    {
        let mut joints = self.joints;
        let mut i: usize = 0;
        while i < JOINT_COUNT
            invariant
                i <= JOINT_COUNT,
                forall|k: int|
                    0 <= k < JOINT_COUNT ==> project.requires(
                        (#[trigger] self@[k].position.triple(),),
                    ),
                forall|k: int|
                    0 <= k < i ==> {
                        &&& project.ensures(
                            (self@[k].position.triple(),),
                            Ok((#[trigger] joints@[k]).position.triple()),
                        )
                        &&& joints@[k] == self@[k].moved_to(joints@[k].position)
                    },
                forall|k: int| i <= k < JOINT_COUNT ==> joints@[k] == self@[k],
            decreases JOINT_COUNT - i,
        {
            let joint = joints[i];
            let position = joint.position;
            assert(joint == self@[i as int]);
            assert(project.requires((self@[i as int].position.triple(),)));
            match project((position.x, position.y, position.z)) {
                Ok(t) => {
                    let moved = NiteSkeletonJoint {
                        position: NitePoint3f { x: t.0, y: t.1, z: t.2 },
                        ..joint
                    };
                    joints[i] = moved;
                },
                Err(cause) => {
                    let ghost witness = cause;
                    let status = Status::from_openni2(cause);
                    proof {
                        assert forall|k: int| 0 <= k < i implies Self::accepted_by(
                            #[trigger] self@[k],
                            project,
                        ) by {
                            let t = joints@[k].position.triple();
                            assert(project.ensures((self@[k].position.triple(),), Ok(t)));
                        }
                        assert(project.ensures(
                            (self@[i as int].position.triple(),),
                            Err(witness),
                        ));
                    }
                    return Err(status);
                },
            }
            i = i + 1;
        }
        Ok(Skeleton { joints })
    }

    /// Converts every joint's position from world to depth coordinates.
    ///
    /// `world_to_depth` is the camera's projection. The joints are sent
    /// through it one by one from the first; at the first refusal the
    /// conversion stops and returns the refusal as a status of the engine.
    pub fn into_depth<F>(self, world_to_depth: F) -> (r: Result<Skeleton, Status>)
    where
        F: Fn((Scalar, Scalar, Scalar)) -> Projection,
        requires
            forall|i: int|
                0 <= i < JOINT_COUNT ==> world_to_depth.requires(
                    (#[trigger] self@[i].position.triple(),),
                ),
        ensures
            Self::projection_outcome(self, world_to_depth, r),
    {
        self.project_joints(world_to_depth)
    }

    /// Converts every joint's position from depth to world coordinates.
    ///
    /// `depth_to_world` is the camera's projection. The joints are sent
    /// through it one by one from the first; at the first refusal the
    /// conversion stops and returns the refusal as a status of the engine.
    pub fn into_world<F>(self, depth_to_world: F) -> (r: Result<Skeleton, Status>)
    where
        F: Fn((Scalar, Scalar, Scalar)) -> Projection,
        requires
            forall|i: int|
                0 <= i < JOINT_COUNT ==> depth_to_world.requires(
                    (#[trigger] self@[i].position.triple(),),
                ),
        ensures
            Self::projection_outcome(self, depth_to_world, r),
    {
        self.project_joints(depth_to_world)
    }
}

/// Every segment that `limbs` returns has full confidence at both ends.
pub proof fn lemma_limbs_are_confident(skeleton: Skeleton, i: int)
    requires
        0 <= i < skeleton.limbs_spec().len(),
    ensures
        both_confident(skeleton.limbs_spec()[i]),
{
    skeleton.segments().lemma_filter_pred(confident_segments(), i);
}

/// Every segment that `limbs` returns joins the two ends of one of the
/// fifteen bones: no joint is made up.
pub proof fn lemma_limbs_are_bones(skeleton: Skeleton, i: int)
    requires
        0 <= i < skeleton.limbs_spec().len(),
    ensures
        exists|b: int|
            0 <= b < BONE_COUNT && skeleton.limbs_spec()[i] == (
                skeleton.at(bones()[b].0),
                skeleton.at(bones()[b].1),
            ),
{
    let all = skeleton.segments();
    let limb = skeleton.limbs_spec()[i];
    assert(skeleton.limbs_spec().contains(limb));
    all.lemma_filter_contains_rev(confident_segments(), limb);
    let b = choose|b: int| 0 <= b < all.len() && all[b] == limb;
    assert(0 <= b < BONE_COUNT && limb == (skeleton.at(bones()[b].0), skeleton.at(bones()[b].1)));
}

/// A bone whose two ends have full confidence is among the segments that
/// `limbs` returns.
pub proof fn lemma_confident_bone_is_limb(skeleton: Skeleton, b: int)
    requires
        0 <= b < BONE_COUNT,
        skeleton.at(bones()[b].0).confident(),
        skeleton.at(bones()[b].1).confident(),
    ensures
        skeleton.limbs_spec().contains((skeleton.at(bones()[b].0), skeleton.at(bones()[b].1))),
{
    let all = skeleton.segments();
    assert(all[b] == (skeleton.at(bones()[b].0), skeleton.at(bones()[b].1)));
    all.lemma_filter_contains(confident_segments(), b);
}

/// A filter that every element of the first `n` passes keeps those `n` as
/// they are.
proof fn lemma_filter_keeps_all<A>(s: Seq<A>, pred: spec_fn(A) -> bool, n: int)
    requires
        0 <= n <= s.len(),
        forall|i: int| 0 <= i < n ==> pred(#[trigger] s[i]),
    ensures
        s.take(n).filter(pred) == s.take(n),
    decreases n,
{
    if n == 0 {
        reveal(Seq::filter);
        assert(s.take(0) =~= Seq::empty());
    } else {
        lemma_filter_keeps_all(s, pred, n - 1);
        s.lemma_take_succ_push(n - 1);
        s.take(n - 1).lemma_filter_push(s[n - 1], pred);
    }
}

/// With full confidence at all fifteen joints, `limbs` returns all fifteen
/// bones, in their fixed order.
pub proof fn lemma_limbs_of_confident_skeleton(skeleton: Skeleton)
    requires
        forall|j: int| 0 <= j < JOINT_COUNT ==> (#[trigger] skeleton@[j]).confident(),
    ensures
        skeleton.limbs_spec() == skeleton.segments(),
        skeleton.limbs_spec().len() == BONE_COUNT,
        forall|b: int|
            0 <= b < BONE_COUNT ==> #[trigger] skeleton.limbs_spec()[b] == (
                skeleton.at(bones()[b].0),
                skeleton.at(bones()[b].1),
            ),
{
    let all = skeleton.segments();
    assert forall|b: int| 0 <= b < all.len() implies confident_segments()(#[trigger] all[b]) by {
        let ends = bones()[b];
        assert(0 <= ends.0.code() < JOINT_COUNT);
        assert(0 <= ends.1.code() < JOINT_COUNT);
        assert(all[b] == (skeleton.at(ends.0), skeleton.at(ends.1)));
    }
    lemma_filter_keeps_all(all, confident_segments(), all.len() as int);
    assert(all.take(all.len() as int) =~= all);
}

} // verus!
