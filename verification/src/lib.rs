//! A safe access layer over a real-time body-tracking engine: typed views of
//! the engine's frames, users and skeletons, and the policy that decides for
//! which users skeleton estimation is requested.
//!
//! The engine itself, its camera and its native handles stay outside this
//! crate. Everything here works on plain values: a frame is the record of
//! what the engine reported, and what is to be asked of the engine comes
//! back as a list of requests.

use vstd::prelude::*;

pub mod native;
pub mod retention;
pub mod scalar;
pub mod skeleton;
pub mod types;
pub mod user_tracker;
pub mod user_tracker_manager;

pub use native::{
    NiteBoundingBox, NitePlane, NitePoint3f, NiteQuaternion, NiteSkeleton, NiteSkeletonJoint,
    NiteUserData,
};
pub use retention::Retention;
pub use scalar::Scalar;
pub use skeleton::Skeleton;
pub use types::{
    DepthPoint, GestureType, JointType, OpenNI2Status, PoseType, SkeletonState, Status, WorldPoint,
};
pub use user_tracker::{
    DepthMap, OniDepthPixel, PixelMap, TrackingRequest, UserData, UserMap, UserTrackerFrame,
};
pub use user_tracker_manager::UserTrackerManager;

verus! {

/// Identifier that the tracking engine gives to a detected user; zero marks
/// the background.
pub type NiteUserId = i16;

} // verus!
