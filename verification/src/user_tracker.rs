//! One frame of the engine's output: the users it reports, the map that
//! assigns each depth pixel to a user, and the requests that start and stop
//! skeleton tracking.

use vstd::prelude::*;
use crate::native::{NitePlane, NitePoint3f, NiteUserData};
use crate::scalar::Scalar;
use crate::skeleton::Skeleton;
use crate::types::{DepthPoint, SkeletonState, Status, StatusView, WorldPoint};
use crate::NiteUserId;

verus! {

/// The engine's record of one user in one frame.
#[derive(Clone, Copy, Debug)]
pub struct UserData(NiteUserData);

impl View for UserData {
    type V = NiteUserData;

    closed spec fn view(&self) -> NiteUserData {
        self.0
    }
}

impl UserData {
    #[verifier::type_invariant]
    spec fn well_formed(self) -> bool {
        SkeletonState::known(self.0.skeleton.state)
    }

    /// The state of this user's skeleton.
    pub open spec fn skeleton_state(self) -> SkeletonState {
        SkeletonState::of_code(self@.skeleton.state)
    }

    /// Takes over a record of the engine. Its skeleton state must be one of
    /// the states that the engine documents.
    pub fn new(data: NiteUserData) -> (r: UserData)
        requires
            SkeletonState::known(data.skeleton.state),
        ensures
            r@ == data,
    {
        UserData(data)
    }

    /// The user's identifier.
    pub fn id(&self) -> (r: NiteUserId)
        ensures
            r == self@.id,
    {
        self.0.id
    }

    /// The engine's raw state flags for this user.
    pub fn state(&self) -> (r: i32)
        ensures
            r == self@.state,
    {
        self.0.state
    }

    /// The user's skeleton, if the engine is tracking it: the joints as the
    /// engine reported them. In every other state the result is that state.
    pub fn skeleton(&self) -> (r: Result<Skeleton, SkeletonState>)
        ensures
            SkeletonState::known(self@.skeleton.state),
            self.skeleton_state() == SkeletonState::Tracking ==> r is Ok && r->Ok_0@
                == self@.skeleton.joints@,
            self.skeleton_state() != SkeletonState::Tracking ==> r == Err::<
                Skeleton,
                SkeletonState,
            >(self.skeleton_state()),
    {
        proof {
            use_type_invariant(self);
        }
        match SkeletonState::from_int(self.0.skeleton.state) {
            SkeletonState::Tracking => Ok(Skeleton::new(self.0.skeleton.joints)),
            state => Err(state),
        }
    }

    /// The user's center of mass, in world space.
    pub fn center_of_mass(&self) -> (r: WorldPoint)
        ensures
            r.triple() == self@.center_of_mass.triple(),
    {
        let p: NitePoint3f = self.0.center_of_mass;
        WorldPoint { x: p.x, y: p.y, z: p.z }
    }

    /// Two opposite corners of the box around the user, in depth space: the
    /// least corner, then the greatest.
    pub fn bounding_box(&self) -> (r: (DepthPoint, DepthPoint))
        ensures
            r.0.triple() == self@.bounding_box.min.triple(),
            r.1.triple() == self@.bounding_box.max.triple(),
    {
        let min: NitePoint3f = self.0.bounding_box.min;
        let max: NitePoint3f = self.0.bounding_box.max;
        (DepthPoint { x: min.x, y: min.y, z: min.z }, DepthPoint { x: max.x, y: max.y, z: max.z })
    }
}

/// The identifiers of a list of users, in the list's order.
pub open spec fn user_ids(users: Seq<UserData>) -> Seq<NiteUserId> {
    users.map_values(|u: UserData| u@.id)
}

/// A sample of the depth image: the distance of what a pixel shows.
pub type OniDepthPixel = u16;

/// An image of samples, row by row from the top.
#[derive(Debug)]
pub struct PixelMap<P> {
    pixels: Vec<P>,
    width: usize,
    height: usize,
    stride: usize,
}

/// The map that assigns each pixel of the depth image to a user. Zero marks
/// a pixel that belongs to no user.
pub type UserMap = PixelMap<NiteUserId>;

/// The depth image.
pub type DepthMap = PixelMap<OniDepthPixel>;

/// What a `PixelMap` is in contracts.
pub struct PixelMapView<P> {
    pub pixels: Seq<P>,
    pub width: nat,
    pub height: nat,
    pub stride: nat,
}

impl<P> PixelMapView<P> {
    /// Whether the samples fill the declared size exactly, and a row's
    /// stride covers its width.
    pub open spec fn well_formed(self) -> bool {
        self.pixels.len() == self.width * self.height && self.stride >= self.width
    }

    /// The sample at column `x` of row `y`, where there is one.
    pub open spec fn at(self, x: nat, y: nat) -> Option<P> {
        if x < self.width && y < self.height {
            Some(self.pixels[(y * self.width + x) as int])
        } else {
            None
        }
    }
}

impl<P> View for PixelMap<P> {
    type V = PixelMapView<P>;

    closed spec fn view(&self) -> PixelMapView<P> {
        PixelMapView {
            pixels: self.pixels@,
            width: self.width as nat,
            height: self.height as nat,
            stride: self.stride as nat,
        }
    }
}

impl<P> PixelMap<P> {
    #[verifier::type_invariant]
    spec fn well_formed(self) -> bool {
        self@.well_formed()
    }

    /// A map over the given samples, if they fill `width` times `height`
    /// exactly and `stride` is no less than `width`.
    pub fn new(pixels: Vec<P>, width: usize, height: usize, stride: usize) -> (r: Option<
        PixelMap<P>,
    >)
        ensures
            r is Some <==> pixels@.len() == width * height && stride >= width,
            r is Some ==> r->Some_0@ == (PixelMapView {
                pixels: pixels@,
                width: width as nat,
                height: height as nat,
                stride: stride as nat,
            }),
    {
        let samples: usize = pixels.len();
        match width.checked_mul(height) {
            Some(size) => {
                if samples == size && stride >= width {
                    Some(PixelMap { pixels, width, height, stride })
                } else {
                    None
                }
            },
            None => None,
        }
    }

    /// Number of samples in a row.
    pub fn width(&self) -> (r: usize)
        ensures
            r == self@.width,
    {
        self.width
    }

    /// Number of rows.
    pub fn height(&self) -> (r: usize)
        ensures
            r == self@.height,
    {
        self.height
    }

    /// The stride of a row, as the engine declared it.
    pub fn stride(&self) -> (r: usize)
        ensures
            r == self@.stride,
    {
        self.stride
    }

    /// All samples, row by row, `width` times `height` of them.
    pub fn pixels(&self) -> (r: &[P])
        ensures
            self@.well_formed(),
            r@ == self@.pixels,
    {
        proof {
            use_type_invariant(self);
        }
        self.pixels.as_slice()
    }

}

impl<P: Copy> PixelMap<P> {
    /// The sample at column `x` of row `y`, or `None` outside the image. The
    /// place of the sample is `y * width + x`, whatever the stride, and lies
    /// within the samples.
    pub fn get(&self, x: usize, y: usize) -> (r: Option<P>)
        ensures
            self@.well_formed(),
            r == self@.at(x as nat, y as nat),
            r is Some ==> y * self@.width + x < self@.width * self@.height,
    {
        proof {
            use_type_invariant(self);
        }
        if x < self.width && y < self.height {
            let w: usize = self.width;
            let h: usize = self.height;
            let size: usize = self.pixels.len();
            assert(0 <= y * w && y * w + x < w * h) by (nonlinear_arith)
                requires
                    0 <= x < w,
                    0 <= y < h,
            ;
            assert(y * w + x < size);
            Some(self.pixels[y * w + x])
        } else {
            None
        }
    }
}

/// In a well-formed map every place inside the image lies within the
/// samples, whatever the stride: the place of column `x` in row `y` is below
/// `width` times `height`.
pub proof fn lemma_sample_is_in_range<P>(map: PixelMapView<P>, x: nat, y: nat)
    requires
        map.well_formed(),
        x < map.width,
        y < map.height,
    ensures
        y * map.width + x < map.width * map.height,
        y * map.width + x < map.pixels.len(),
        map.at(x, y) == Some(map.pixels[(y * map.width + x) as int]),
{
    let w = map.width as int;
    let h = map.height as int;
    assert(y * w + x < w * h) by (nonlinear_arith)
        requires
            0 <= x < w,
            0 <= y < h,
    ;
}

/// One frame of the engine's output.
#[derive(Debug)]
pub struct UserTrackerFrame {
    timestamp: u64,
    frame_index: usize,
    floor_confidence: Scalar,
    floor: NitePlane,
    depth_frame: DepthMap,
    user_map: UserMap,
    users: Vec<UserData>,
}

/// What a `UserTrackerFrame` is in contracts.
pub struct UserTrackerFrameView {
    pub timestamp: u64,
    pub frame_index: usize,
    pub floor_confidence: Scalar,
    pub floor: NitePlane,
    pub depth_frame: PixelMapView<OniDepthPixel>,
    pub user_map: PixelMapView<NiteUserId>,
    pub users: Seq<UserData>,
}

impl View for UserTrackerFrame {
    type V = UserTrackerFrameView;

    closed spec fn view(&self) -> UserTrackerFrameView {
        UserTrackerFrameView {
            timestamp: self.timestamp,
            frame_index: self.frame_index,
            floor_confidence: self.floor_confidence,
            floor: self.floor,
            depth_frame: self.depth_frame@,
            user_map: self.user_map@,
            users: self.users@,
        }
    }
}

impl UserTrackerFrame {
    /// A frame of the given contents.
    pub fn new(
        timestamp: u64,
        frame_index: usize,
        floor_confidence: Scalar,
        floor: NitePlane,
        depth_frame: DepthMap,
        user_map: UserMap,
        users: Vec<UserData>,
    ) -> (r: UserTrackerFrame)
        ensures
            r@ == (UserTrackerFrameView {
                timestamp,
                frame_index,
                floor_confidence,
                floor,
                depth_frame: depth_frame@,
                user_map: user_map@,
                users: users@,
            }),
    {
        UserTrackerFrame {
            timestamp,
            frame_index,
            floor_confidence,
            floor,
            depth_frame,
            user_map,
            users,
        }
    }

    /// When the frame was taken, on the engine's clock.
    pub fn timestamp(&self) -> (r: u64)
        ensures
            r == self@.timestamp,
    {
        self.timestamp
    }

    /// The frame's number in the engine's sequence.
    pub fn frame_index(&self) -> (r: usize)
        ensures
            r == self@.frame_index,
    {
        self.frame_index
    }

    /// How sure the engine is of the floor plane.
    pub fn floor_confidence(&self) -> (r: Scalar)
        ensures
            r == self@.floor_confidence,
    {
        self.floor_confidence
    }

    /// The floor plane.
    pub fn floor(&self) -> (r: NitePlane)
        ensures
            r == self@.floor,
    {
        self.floor
    }

    /// The depth image that the frame was computed from.
    pub fn depth_frame(&self) -> (r: &DepthMap)
        ensures
            r@ == self@.depth_frame,
            r@.well_formed(),
    {
        proof {
            use_type_invariant(&self.depth_frame);
        }
        &self.depth_frame
    }

    /// The map of users over the depth image.
    pub fn user_map(&self) -> (r: &UserMap)
        ensures
            r@ == self@.user_map,
            r@.well_formed(),
    {
        proof {
            use_type_invariant(&self.user_map);
        }
        &self.user_map
    }

    /// The users in this frame, in the engine's order.
    pub fn users(&self) -> (r: Vec<UserData>)
        ensures
            r@ == self@.users,
    {
        let mut out: Vec<UserData> = Vec::new();
        let mut i: usize = 0;
        while i < self.users.len()
            invariant
                i <= self.users@.len(),
                out@ == self.users@.take(i as int),
            decreases self.users@.len() - i,
        {
            out.push(self.users[i]);
            proof {
                self.users@.lemma_take_succ_push(i as int);
            }
            i = i + 1;
        }
        proof {
            assert(self.users@.take(self.users@.len() as int) =~= self.users@);
        }
        out
    }

    /// How many users this frame reports.
    pub fn user_count(&self) -> (r: usize)
        ensures
            r == self@.users.len(),
    {
        self.users.len()
    }
}

/// A request to the engine about one user's skeleton.
#[derive(Clone, Copy, Debug, PartialEq, Eq, Structural)]
pub enum TrackingRequest {
    /// Start estimating the skeleton of this user.
    Start(NiteUserId),
    /// Stop estimating the skeleton of this user.
    Stop(NiteUserId),
}

impl TrackingRequest {
    /// The user that the request is about.
    pub open spec fn user(self) -> NiteUserId {
        match self {
            TrackingRequest::Start(id) => id,
            TrackingRequest::Stop(id) => id,
        }
    }

    /// The request that turns skeleton tracking on or off for `user`.
    pub fn track_skeleton(user: NiteUserId, setting: bool) -> (r: TrackingRequest)
        ensures
            r == if setting {
                TrackingRequest::Start(user)
            } else {
                TrackingRequest::Stop(user)
            },
    {
        if setting {
            TrackingRequest::Start(user)
        } else {
            TrackingRequest::Stop(user)
        }
    }

    /// What the request came to, given the status that the engine answered
    /// with. A start succeeds exactly if the status is success, and fails
    /// with the status otherwise. A stop always succeeds: the engine gives
    /// no answer to it, and any status handed in is ignored.
    pub fn outcome(self, answered: Status) -> (r: Result<(), Status>)
        ensures
            self is Stop ==> r is Ok,
            self is Start && answered@ == StatusView::Success ==> r is Ok,
            self is Start && answered@ != StatusView::Success ==> r is Err && r->Err_0
                == answered,
    {
        match self {
            TrackingRequest::Start(_) => answered.into_result(),
            TrackingRequest::Stop(_) => Ok(()),
        }
    }
}

} // verus!
