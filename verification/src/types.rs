//! Status kinds and the engine's enumerations, decoded from their native codes.

use vstd::prelude::*;
use vstd::string::*;
use crate::native::NitePoint3f;
use crate::scalar::Scalar;

verus! {

/// Native status code of the tracking engine.
pub type NiteStatus = i32;

/// Native code of a joint role.
pub type NiteJointType = i32;

/// Native code of a skeleton's tracking state.
pub type NiteSkeletonState = i32;

/// Native code of a pose.
pub type NitePoseType = i32;

/// Native code of a gesture.
pub type NiteGestureType = i32;

/// Outcome of a request to the tracking engine.
#[derive(Debug, Clone, Eq, PartialEq)]
pub enum Status {
    Success,
    /// Catch-all failure, with the diagnostic text that came with it.
    Error(String),
    /// The request named a user that the engine does not know.
    BadUserId,
    /// The request came outside the expected order of operations.
    OutOfFlow,
}

/// What a `Status` is in contracts: its kind, and its text as characters.
pub enum StatusView {
    Success,
    Error(Seq<char>),
    BadUserId,
    OutOfFlow,
}

impl View for Status {
    type V = StatusView;

    open spec fn view(&self) -> StatusView {
        match *self {
            Status::Success => StatusView::Success,
            Status::Error(s) => StatusView::Error(s@),
            Status::BadUserId => StatusView::BadUserId,
            Status::OutOfFlow => StatusView::OutOfFlow,
        }
    }
}

/// Outcome of a request to the camera device, as the device layer reports it.
#[derive(Debug, Clone, Eq, PartialEq)]
pub enum OpenNI2Status {
    Success,
    /// Failure with a message set by the device layer.
    Error(String),
    NotImplemented,
    NotSupported,
    BadParameter,
    OutOfFlow,
    NoDevice,
    TimeOut,
}

/// What an `OpenNI2Status` is in contracts.
pub enum OpenNI2StatusView {
    Success,
    Error(Seq<char>),
    NotImplemented,
    NotSupported,
    BadParameter,
    OutOfFlow,
    NoDevice,
    TimeOut,
}

impl View for OpenNI2Status {
    type V = OpenNI2StatusView;

    open spec fn view(&self) -> OpenNI2StatusView {
        match *self {
            OpenNI2Status::Success => OpenNI2StatusView::Success,
            OpenNI2Status::Error(s) => OpenNI2StatusView::Error(s@),
            OpenNI2Status::NotImplemented => OpenNI2StatusView::NotImplemented,
            OpenNI2Status::NotSupported => OpenNI2StatusView::NotSupported,
            OpenNI2Status::BadParameter => OpenNI2StatusView::BadParameter,
            OpenNI2Status::OutOfFlow => OpenNI2StatusView::OutOfFlow,
            OpenNI2Status::NoDevice => OpenNI2StatusView::NoDevice,
            OpenNI2Status::TimeOut => OpenNI2StatusView::TimeOut,
        }
    }
}

impl OpenNI2StatusView {
    /// The words for this outcome, without a prefix.
    pub open spec fn label(self) -> Seq<char> {
        match self {
            OpenNI2StatusView::Success => "Ok"@,
            OpenNI2StatusView::Error(s) => s,
            OpenNI2StatusView::NotImplemented => "Not implemented"@,
            OpenNI2StatusView::NotSupported => "Not supported"@,
            OpenNI2StatusView::BadParameter => "Bad parameter"@,
            OpenNI2StatusView::OutOfFlow => "Out of flow"@,
            OpenNI2StatusView::NoDevice => "No device"@,
            OpenNI2StatusView::TimeOut => "Timeout"@,
        }
    }

    /// The device layer's description of this outcome.
    pub open spec fn description(self) -> Seq<char> {
        "OpenNI2 error: "@ + self.label()
    }

    /// The engine-side status that stands for this device outcome: success and
    /// out-of-flow keep their kind, everything else becomes a generic error
    /// that quotes the device layer's description.
    pub open spec fn to_status(self) -> StatusView {
        match self {
            OpenNI2StatusView::Success => StatusView::Success,
            OpenNI2StatusView::OutOfFlow => StatusView::OutOfFlow,
            _ => StatusView::Error("OpenNI2 error: "@ + self.description()),
        }
    }
}

impl StatusView {
    /// The words for this outcome, without a prefix.
    pub open spec fn label(self) -> Seq<char> {
        match self {
            StatusView::Success => "Ok"@,
            StatusView::Error(s) => s,
            StatusView::BadUserId => "Bad user id"@,
            StatusView::OutOfFlow => "Out of flow"@,
        }
    }

    /// The text shown for this outcome.
    pub open spec fn description(self) -> Seq<char> {
        "NiTE2 error: "@ + self.label()
    }

    /// The device-side status that stands for this outcome.
    pub open spec fn to_openni2(self) -> OpenNI2StatusView {
        match self {
            StatusView::Success => OpenNI2StatusView::Success,
            StatusView::Error(s) => OpenNI2StatusView::Error(s),
            StatusView::BadUserId => OpenNI2StatusView::BadParameter,
            StatusView::OutOfFlow => OpenNI2StatusView::OutOfFlow,
        }
    }

    /// The outcome that a native status code stands for.
    pub open spec fn of_code(value: NiteStatus) -> StatusView {
        if value == 0 {
            StatusView::Success
        } else if value == 1 {
            StatusView::Error("Generic NiTE error"@)
        } else if value == 2 {
            StatusView::BadUserId
        } else {
            StatusView::OutOfFlow
        }
    }
}

impl OpenNI2Status {
    /// The device layer's description of this outcome: a fixed prefix, then
    /// the words for the kind, or the message of a generic error.
    pub fn description(&self) -> (r: String)
        ensures
            r@ == self@.description(),
    {
        let prefix = String::from_str("OpenNI2 error: ");
        match self {
            OpenNI2Status::Success => prefix.concat("Ok"),
            OpenNI2Status::Error(s) => prefix.concat(s.as_str()),
            OpenNI2Status::NotImplemented => prefix.concat("Not implemented"),
            OpenNI2Status::NotSupported => prefix.concat("Not supported"),
            OpenNI2Status::BadParameter => prefix.concat("Bad parameter"),
            OpenNI2Status::OutOfFlow => prefix.concat("Out of flow"),
            OpenNI2Status::NoDevice => prefix.concat("No device"),
            OpenNI2Status::TimeOut => prefix.concat("Timeout"),
        }
    }

    /// Renders an engine status for a caller that speaks the device
    /// layer's kinds. An unknown user becomes a bad parameter.
    pub fn from_status(status: Status) -> (r: OpenNI2Status)
        ensures
            r@ == status@.to_openni2(),
    {
        match status {
            Status::Success => OpenNI2Status::Success,
            Status::Error(s) => OpenNI2Status::Error(s),
            Status::BadUserId => OpenNI2Status::BadParameter,
            Status::OutOfFlow => OpenNI2Status::OutOfFlow,
        }
    }
}

impl Status {
    /// Whether `value` is one of the engine's four status codes.
    pub open spec fn known(value: NiteStatus) -> bool {
        0 <= value <= 3
    }

    /// Decides `known`.
    pub fn is_known(value: NiteStatus) -> (r: bool)
        ensures
            r == Self::known(value),
    {
        0 <= value && value <= 3
    }

    /// Decodes a native status code.
    pub fn from_int(value: NiteStatus) -> (r: Status)
        requires
            Self::known(value),
        ensures
            r@ == StatusView::of_code(value),
    {
        if value == 0 {
            Status::Success
        } else if value == 1 {
            Status::Error(String::from_str("Generic NiTE error"))
        } else if value == 2 {
            Status::BadUserId
        } else {
            Status::OutOfFlow
        }
    }

    /// Turns the status of a finished request into a result: success is
    /// `Ok(())`, and every other status is returned as the error, unchanged.
    pub fn into_result(self) -> (r: Result<(), Status>)
        ensures
            self@ == StatusView::Success ==> r is Ok,
            self@ != StatusView::Success ==> r is Err && r->Err_0 == self,
    {
        match self {
            Status::Success => Ok(()),
            status => Err(status),
        }
    }

    /// The text shown for this status.
    pub fn description(&self) -> (r: String)
        ensures
            r@ == self@.description(),
    {
        let prefix = String::from_str("NiTE2 error: ");
        match self {
            Status::Success => prefix.concat("Ok"),
            Status::Error(s) => prefix.concat(s.as_str()),
            Status::BadUserId => prefix.concat("Bad user id"),
            Status::OutOfFlow => prefix.concat("Out of flow"),
        }
    }

    /// Renders an outcome of the device layer. Success and out-of-flow
    /// keep their kind; anything else becomes a generic error whose text is
    /// the device layer's description behind the prefix `OpenNI2 error: `.
    pub fn from_openni2(status: OpenNI2Status) -> (r: Status)
        ensures
            r@ == status@.to_status(),
    {
        match status {
            OpenNI2Status::Success => Status::Success,
            OpenNI2Status::OutOfFlow => Status::OutOfFlow,
            other => {
                let text = other.description();
                Status::Error(String::from_str("OpenNI2 error: ").concat(text.as_str()))
            },
        }
    }
}

/// Role of a joint in the engine's fixed skeleton of fifteen.
#[derive(Debug, Copy, Clone, Eq, PartialEq, Structural)]
pub enum JointType {
    Head,
    Neck,
    LeftShoulder,
    RightShoulder,
    LeftElbow,
    RightElbow,
    LeftHand,
    RightHand,
    Torso,
    LeftHip,
    RightHip,
    LeftKnee,
    RightKnee,
    LeftFoot,
    RightFoot,
}


impl JointType {
    /// The native code of this role, which is also its place in a skeleton's
    /// joint array.
    pub open spec fn code(self) -> int {
        match self {
            JointType::Head => 0,
            JointType::Neck => 1,
            JointType::LeftShoulder => 2,
            JointType::RightShoulder => 3,
            JointType::LeftElbow => 4,
            JointType::RightElbow => 5,
            JointType::LeftHand => 6,
            JointType::RightHand => 7,
            JointType::Torso => 8,
            JointType::LeftHip => 9,
            JointType::RightHip => 10,
            JointType::LeftKnee => 11,
            JointType::RightKnee => 12,
            JointType::LeftFoot => 13,
            JointType::RightFoot => 14,
        }
    }

    /// Whether `i` is the code of a joint role.
    pub open spec fn known(i: NiteJointType) -> bool {
        0 <= i < 15
    }

    /// Decides `known`.
    pub fn is_known(i: NiteJointType) -> (r: bool)
        ensures
            r == Self::known(i),
    {
        0 <= i && i < 15
    }

    /// Decodes a native joint code.
    pub fn from_int(i: NiteJointType) -> (r: JointType)
        requires
            Self::known(i),
        ensures
            r.code() == i,
    {
        match i {
            0 => JointType::Head,
            1 => JointType::Neck,
            2 => JointType::LeftShoulder,
            3 => JointType::RightShoulder,
            4 => JointType::LeftElbow,
            5 => JointType::RightElbow,
            6 => JointType::LeftHand,
            7 => JointType::RightHand,
            8 => JointType::Torso,
            9 => JointType::LeftHip,
            10 => JointType::RightHip,
            11 => JointType::LeftKnee,
            12 => JointType::RightKnee,
            13 => JointType::LeftFoot,
            _ => JointType::RightFoot,
        }
    }

    /// The place of this role in a skeleton's joint array.
    pub fn index(self) -> (r: usize)
        ensures
            r == self.code(),
            r < 15,
    {
        match self {
            JointType::Head => 0,
            JointType::Neck => 1,
            JointType::LeftShoulder => 2,
            JointType::RightShoulder => 3,
            JointType::LeftElbow => 4,
            JointType::RightElbow => 5,
            JointType::LeftHand => 6,
            JointType::RightHand => 7,
            JointType::Torso => 8,
            JointType::LeftHip => 9,
            JointType::RightHip => 10,
            JointType::LeftKnee => 11,
            JointType::RightKnee => 12,
            JointType::LeftFoot => 13,
            JointType::RightFoot => 14,
        }
    }
}

/// Tracking state of one user's skeleton.
#[derive(Debug, Copy, Clone, Eq, PartialEq, Structural)]
pub enum SkeletonState {
    /// No skeleton: tracking was not requested, or the user was lost.
    Absent,
    /// Tracking was requested and the engine is still calibrating.
    Calibrating,
    /// The skeleton's joints are valid.
    Tracking,
    CalibrationErrorNotInPose,
    CalibrationErrorHands,
    CalibrationErrorHead,
    CalibrationErrorLegs,
    CalibrationErrorTorso,
}

impl SkeletonState {
    /// The native code of this state.
    pub open spec fn code(self) -> int {
        match self {
            SkeletonState::Absent => 0,
            SkeletonState::Calibrating => 1,
            SkeletonState::Tracking => 2,
            SkeletonState::CalibrationErrorNotInPose => 3,
            SkeletonState::CalibrationErrorHands => 4,
            SkeletonState::CalibrationErrorHead => 5,
            SkeletonState::CalibrationErrorLegs => 6,
            SkeletonState::CalibrationErrorTorso => 7,
        }
    }

    /// Whether `i` is the code of a skeleton state.
    pub open spec fn known(i: NiteSkeletonState) -> bool {
        0 <= i < 8
    }

    /// The state that a native code stands for.
    pub open spec fn of_code(i: NiteSkeletonState) -> SkeletonState {
        if i == 0 {
            SkeletonState::Absent
        } else if i == 1 {
            SkeletonState::Calibrating
        } else if i == 2 {
            SkeletonState::Tracking
        } else if i == 3 {
            SkeletonState::CalibrationErrorNotInPose
        } else if i == 4 {
            SkeletonState::CalibrationErrorHands
        } else if i == 5 {
            SkeletonState::CalibrationErrorHead
        } else if i == 6 {
            SkeletonState::CalibrationErrorLegs
        } else {
            SkeletonState::CalibrationErrorTorso
        }
    }

    /// Decides `known`.
    pub fn is_known(i: NiteSkeletonState) -> (r: bool)
        ensures
            r == Self::known(i),
    {
        0 <= i && i < 8
    }

    /// Decodes a native skeleton state.
    pub fn from_int(i: NiteSkeletonState) -> (r: SkeletonState)
        requires
            Self::known(i),
        ensures
            r == Self::of_code(i),
            r.code() == i,
    {
        match i {
            0 => SkeletonState::Absent,
            1 => SkeletonState::Calibrating,
            2 => SkeletonState::Tracking,
            3 => SkeletonState::CalibrationErrorNotInPose,
            4 => SkeletonState::CalibrationErrorHands,
            5 => SkeletonState::CalibrationErrorHead,
            6 => SkeletonState::CalibrationErrorLegs,
            _ => SkeletonState::CalibrationErrorTorso,
        }
    }
}

/// A pose that the engine can detect.
#[derive(Debug, Copy, Clone, Eq, PartialEq, Structural)]
pub enum PoseType {
    Psi,
    CrossedHands,
}

impl PoseType {
    /// The native code of this pose.
    pub open spec fn code(self) -> int {
        match self {
            PoseType::Psi => 0,
            PoseType::CrossedHands => 1,
        }
    }

    /// Whether `i` is the code of a pose.
    pub open spec fn known(i: NitePoseType) -> bool {
        0 <= i < 2
    }

    /// Decides `known`.
    pub fn is_known(i: NitePoseType) -> (r: bool)
        ensures
            r == Self::known(i),
    {
        0 <= i && i < 2
    }

    /// Decodes a native pose code.
    pub fn from_int(i: NitePoseType) -> (r: PoseType)
        requires
            Self::known(i),
        ensures
            r.code() == i,
    {
        match i {
            0 => PoseType::Psi,
            _ => PoseType::CrossedHands,
        }
    }
}

/// A gesture that the engine can detect.
#[derive(Debug, Copy, Clone, Eq, PartialEq, Structural)]
pub enum GestureType {
    Wave,
    Click,
    HandRaise,
}

impl GestureType {
    /// The native code of this gesture.
    pub open spec fn code(self) -> int {
        match self {
            GestureType::Wave => 0,
            GestureType::Click => 1,
            GestureType::HandRaise => 2,
        }
    }

    /// Whether `i` is the code of a gesture.
    pub open spec fn known(i: NiteGestureType) -> bool {
        0 <= i < 3
    }

    /// Decides `known`.
    pub fn is_known(i: NiteGestureType) -> (r: bool)
        ensures
            r == Self::known(i),
    {
        0 <= i && i < 3
    }

    /// Decodes a native gesture code.
    pub fn from_int(i: NiteGestureType) -> (r: GestureType)
        requires
            Self::known(i),
        ensures
            r.code() == i,
    {
        match i {
            0 => GestureType::Wave,
            1 => GestureType::Click,
            _ => GestureType::HandRaise,
        }
    }
}

/// One answer of the camera's coordinate projection: three coordinates, or
/// the device layer's refusal.
pub type Projection = Result<(Scalar, Scalar, Scalar), OpenNI2Status>;

/// A point in world space: metric coordinates around the camera.
#[derive(Clone, Copy, Debug, PartialEq)]
pub struct WorldPoint {
    pub x: Scalar,
    pub y: Scalar,
    pub z: Scalar,
}

/// A point in depth space: a pixel of the depth image and its depth.
#[derive(Clone, Copy, Debug, PartialEq)]
pub struct DepthPoint {
    pub x: Scalar,
    pub y: Scalar,
    pub z: Scalar,
}

impl WorldPoint {
    /// The three coordinates, in the order x, y, z.
    pub open spec fn triple(self) -> (Scalar, Scalar, Scalar) {
        (self.x, self.y, self.z)
    }

    /// What an answer of the projection from depth space means: the point at
    /// the coordinates it gave, or its refusal as a status of the engine.
    pub open spec fn answers(projected: Projection, r: Result<WorldPoint, Status>) -> bool {
        match projected {
            Ok(t) => r == Ok::<WorldPoint, Status>(WorldPoint { x: t.0, y: t.1, z: t.2 }),
            Err(cause) => r is Err && r->Err_0@ == cause@.to_status(),
        }
    }

    /// Reads an answer of the projection from depth space.
    pub fn from_projection(projected: Projection) -> (r: Result<WorldPoint, Status>)
        ensures
            Self::answers(projected, r),
    {
        match projected {
            Ok(t) => Ok(WorldPoint { x: t.0, y: t.1, z: t.2 }),
            Err(cause) => Err(Status::from_openni2(cause)),
        }
    }

    /// Converts this point to depth space by one call of `world_to_depth`,
    /// the camera's projection, on its three coordinates. The result is the
    /// reading of whatever that call answered.
    pub fn into_depth<F>(self, world_to_depth: F) -> (r: Result<DepthPoint, Status>)
    where
        F: Fn((Scalar, Scalar, Scalar)) -> Projection,
        requires
            world_to_depth.requires((self.triple(),)),
        ensures
            exists|projected: Projection| #[trigger]
                world_to_depth.ensures((self.triple(),), projected) && DepthPoint::answers(
                    projected,
                    r,
                ),
    {
        let projected = world_to_depth((self.x, self.y, self.z));
        DepthPoint::from_projection(projected)
    }
}

impl DepthPoint {
    /// The three coordinates, in the order x, y, z.
    pub open spec fn triple(self) -> (Scalar, Scalar, Scalar) {
        (self.x, self.y, self.z)
    }

    /// What an answer of the projection from world space means: the point at
    /// the coordinates it gave, or its refusal as a status of the engine.
    pub open spec fn answers(projected: Projection, r: Result<DepthPoint, Status>) -> bool {
        match projected {
            Ok(t) => r == Ok::<DepthPoint, Status>(DepthPoint { x: t.0, y: t.1, z: t.2 }),
            Err(cause) => r is Err && r->Err_0@ == cause@.to_status(),
        }
    }

    /// Reads an answer of the projection from world space.
    pub fn from_projection(projected: Projection) -> (r: Result<DepthPoint, Status>)
        ensures
            Self::answers(projected, r),
    {
        match projected {
            Ok(t) => Ok(DepthPoint { x: t.0, y: t.1, z: t.2 }),
            Err(cause) => Err(Status::from_openni2(cause)),
        }
    }

    /// Converts this point to world space by one call of `depth_to_world`,
    /// the camera's projection, on its three coordinates. The result is the
    /// reading of whatever that call answered.
    pub fn into_world<F>(self, depth_to_world: F) -> (r: Result<WorldPoint, Status>)
    where
        F: Fn((Scalar, Scalar, Scalar)) -> Projection,
        requires
            depth_to_world.requires((self.triple(),)),
        ensures
            exists|projected: Projection| #[trigger]
                depth_to_world.ensures((self.triple(),), projected) && WorldPoint::answers(
                    projected,
                    r,
                ),
    {
        let projected = depth_to_world((self.x, self.y, self.z));
        WorldPoint::from_projection(projected)
    }
}

impl From<NitePoint3f> for WorldPoint {
    fn from(p: NitePoint3f) -> (r: WorldPoint) {
        WorldPoint { x: p.x, y: p.y, z: p.z }
    }
}

impl vstd::std_specs::convert::FromSpecImpl<NitePoint3f> for WorldPoint {
    open spec fn obeys_from_spec() -> bool {
        true
    }

    open spec fn from_spec(p: NitePoint3f) -> WorldPoint {
        WorldPoint { x: p.x, y: p.y, z: p.z }
    }
}

impl From<NitePoint3f> for DepthPoint {
    fn from(p: NitePoint3f) -> (r: DepthPoint) {
        DepthPoint { x: p.x, y: p.y, z: p.z }
    }
}

impl vstd::std_specs::convert::FromSpecImpl<NitePoint3f> for DepthPoint {
    open spec fn obeys_from_spec() -> bool {
        true
    }

    open spec fn from_spec(p: NitePoint3f) -> DepthPoint {
        DepthPoint { x: p.x, y: p.y, z: p.z }
    }
}

/// A trip from world space to depth space and back adds nothing of its own
/// to what the camera's two projections answered: the point in between has
/// exactly the coordinates that the first gave, and the point at the end
/// exactly those that the second gave.
pub proof fn lemma_round_trip_is_the_projections(
    there: (Scalar, Scalar, Scalar),
    back: (Scalar, Scalar, Scalar),
    between: Result<DepthPoint, Status>,
    end: Result<WorldPoint, Status>,
)
    requires
        DepthPoint::answers(Ok(there), between),
        WorldPoint::answers(Ok(back), end),
    ensures
        between is Ok,
        between->Ok_0.triple() == there,
        end is Ok,
        end->Ok_0.triple() == back,
{
}

} // verus!
