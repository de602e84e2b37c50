//! The engine's records, field for field, with every number held as a plain
//! value: what a frame of the engine says about points, joints and users.

use vstd::prelude::*;
use crate::scalar::Scalar;
use crate::types::{NiteJointType, NiteSkeletonState};
use crate::NiteUserId;

verus! {

/// Number of joints in a skeleton.
pub const JOINT_COUNT: usize = 15;

/// A point in space, in the engine's layout.
#[derive(Clone, Copy, Debug, PartialEq)]
pub struct NitePoint3f {
    pub x: Scalar,
    pub y: Scalar,
    pub z: Scalar,
}

impl NitePoint3f {
    /// The three coordinates, in the order x, y, z.
    pub open spec fn triple(self) -> (Scalar, Scalar, Scalar) {
        (self.x, self.y, self.z)
    }
}

/// A rotation, in the engine's layout.
#[derive(Clone, Copy, Debug, PartialEq)]
pub struct NiteQuaternion {
    pub x: Scalar,
    pub y: Scalar,
    pub z: Scalar,
    pub w: Scalar,
}

/// A plane, given by a point on it and its normal.
#[derive(Clone, Copy, Debug, PartialEq)]
pub struct NitePlane {
    pub point: NitePoint3f,
    pub normal: NitePoint3f,
}

/// An axis-aligned box, given by two opposite corners.
#[derive(Clone, Copy, Debug, PartialEq)]
pub struct NiteBoundingBox {
    pub min: NitePoint3f,
    pub max: NitePoint3f,
}

/// One joint of a skeleton: where it is, how it is turned, and how sure the
/// engine is of each.
#[derive(Clone, Copy, Debug, PartialEq)]
pub struct NiteSkeletonJoint {
    pub joint_type: NiteJointType,
    pub position: NitePoint3f,
    pub position_confidence: Scalar,
    pub orientation: NiteQuaternion,
    pub orientation_confidence: Scalar,
}

impl NiteSkeletonJoint {
    /// Whether the engine is fully confident of this joint's position.
    pub open spec fn confident(self) -> bool {
        self.position_confidence.at_least_one()
    }

    /// This joint at another position, everything else kept.
    pub open spec fn moved_to(self, position: NitePoint3f) -> NiteSkeletonJoint {
        NiteSkeletonJoint { position, ..self }
    }
}

/// The skeleton of one user: fifteen joints and a tracking state.
#[derive(Clone, Copy, Debug)]
pub struct NiteSkeleton {
    pub joints: [NiteSkeletonJoint; 15],
    pub state: NiteSkeletonState,
}

/// What the engine reports of one user in one frame.
#[derive(Clone, Copy, Debug)]
pub struct NiteUserData {
    pub id: NiteUserId,
    pub bounding_box: NiteBoundingBox,
    pub center_of_mass: NitePoint3f,
    pub state: i32,
    pub skeleton: NiteSkeleton,
}

} // verus!
