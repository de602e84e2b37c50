use nite2::{
    DepthMap, DepthPoint, NiteBoundingBox, NitePlane, NitePoint3f, NiteQuaternion, NiteSkeleton,
    NiteSkeletonJoint, NiteUserData, Scalar, SkeletonState, Status, TrackingRequest, UserData,
    UserMap, UserTrackerFrame, WorldPoint,
};

fn scalar(value: f32) -> Scalar {
    Scalar::from_bits(value.to_bits())
}

fn point(x: f32, y: f32, z: f32) -> NitePoint3f {
    NitePoint3f { x: scalar(x), y: scalar(y), z: scalar(z) }
}

fn joint(index: usize, confidence: f32) -> NiteSkeletonJoint {
    NiteSkeletonJoint {
        joint_type: index as i32,
        position: point(index as f32, 2.0 * index as f32, 1500.0),
        position_confidence: scalar(confidence),
        orientation: NiteQuaternion {
            x: scalar(0.0),
            y: scalar(0.0),
            z: scalar(0.0),
            w: scalar(1.0),
        },
        orientation_confidence: scalar(1.0),
    }
}

fn user(id: i16, skeleton_state: i32, confidence: f32) -> UserData {
    let mut joints = [joint(0, confidence); 15];
    for i in 0..15 {
        joints[i] = joint(i, confidence);
    }
    UserData::new(NiteUserData {
        id,
        bounding_box: NiteBoundingBox { min: point(10.0, 20.0, 0.0), max: point(110.0, 220.0, 0.0) },
        center_of_mass: point(5.0, -3.0, 2100.0),
        state: 6,
        skeleton: NiteSkeleton { joints, state: skeleton_state },
    })
}

fn frame_of(users: Vec<UserData>) -> UserTrackerFrame {
    let map = UserMap::new(vec![0, 1, 1, 0, 2, 2], 3, 2, 6).unwrap();
    let depth = DepthMap::new(vec![900, 1500, 1510, 0, 2200, 2210], 3, 2, 6).unwrap();
    UserTrackerFrame::new(
        123_456_789,
        42,
        scalar(0.75),
        NitePlane { point: point(0.0, -900.0, 0.0), normal: point(0.0, 1.0, 0.0) },
        depth,
        map,
        users,
    )
}

#[test]
fn user_data_getters() {
    let u = user(3, 2, 1.0);
    assert_eq!(u.id(), 3);
    assert_eq!(u.state(), 6);
    assert_eq!(
        u.center_of_mass(),
        WorldPoint { x: scalar(5.0), y: scalar(-3.0), z: scalar(2100.0) }
    );
    assert_eq!(
        u.bounding_box(),
        (
            DepthPoint { x: scalar(10.0), y: scalar(20.0), z: scalar(0.0) },
            DepthPoint { x: scalar(110.0), y: scalar(220.0), z: scalar(0.0) }
        )
    );
}

#[test]
fn skeleton_of_a_tracked_user_holds_the_reported_joints() {
    let u = user(1, 2, 1.0);
    let s = u.skeleton().unwrap();
    assert_eq!(s.joints().len(), 15);
    for i in 0..15 {
        assert_eq!(s.joints()[i], joint(i, 1.0));
    }
}

#[test]
fn skeleton_of_any_other_state_is_that_state() {
    assert_eq!(user(1, 0, 1.0).skeleton().unwrap_err(), SkeletonState::Absent);
    assert_eq!(user(1, 1, 1.0).skeleton().unwrap_err(), SkeletonState::Calibrating);
    assert_eq!(user(1, 3, 1.0).skeleton().unwrap_err(), SkeletonState::CalibrationErrorNotInPose);
    assert_eq!(user(1, 4, 1.0).skeleton().unwrap_err(), SkeletonState::CalibrationErrorHands);
    assert_eq!(user(1, 5, 1.0).skeleton().unwrap_err(), SkeletonState::CalibrationErrorHead);
    assert_eq!(user(1, 6, 1.0).skeleton().unwrap_err(), SkeletonState::CalibrationErrorLegs);
    assert_eq!(user(1, 7, 1.0).skeleton().unwrap_err(), SkeletonState::CalibrationErrorTorso);
}

#[test]
fn frame_with_a_tracked_and_a_calibrating_user() {
    let frame = frame_of(vec![user(1, 2, 1.0), user(2, 1, 0.0)]);
    let users = frame.users();
    assert_eq!(users.len(), 2);
    assert_eq!(frame.user_count(), 2);
    assert_eq!(users[0].id(), 1);
    assert_eq!(users[1].id(), 2);
    let skeleton = users[0].skeleton().unwrap();
    assert_eq!(skeleton.limbs().len(), 15);
    assert_eq!(users[1].skeleton().unwrap_err(), SkeletonState::Calibrating);
}

#[test]
fn frame_getters() {
    let frame = frame_of(vec![]);
    assert_eq!(frame.timestamp(), 123_456_789);
    assert_eq!(frame.frame_index(), 42);
    assert_eq!(frame.floor_confidence(), scalar(0.75));
    assert_eq!(
        frame.floor(),
        NitePlane { point: point(0.0, -900.0, 0.0), normal: point(0.0, 1.0, 0.0) }
    );
    assert_eq!(frame.user_count(), 0);
    assert!(frame.users().is_empty());
    assert_eq!(frame.user_map().width(), 3);
    assert_eq!(frame.user_map().height(), 2);
    assert_eq!(frame.user_map().get(1, 1), Some(2));
    assert_eq!(frame.depth_frame().width(), 3);
    assert_eq!(frame.depth_frame().height(), 2);
    assert_eq!(frame.depth_frame().pixels(), &[900, 1500, 1510, 0, 2200, 2210]);
    assert_eq!(frame.depth_frame().get(2, 1), Some(2210));
}

#[test]
fn depth_map_reads_by_width_whatever_the_stride() {
    let depth = DepthMap::new(vec![1, 2, 3, 4, 5, 6, 7, 8], 4, 2, 8).unwrap();
    assert_eq!(depth.stride(), 8);
    assert_eq!(depth.get(0, 0), Some(1));
    assert_eq!(depth.get(3, 0), Some(4));
    assert_eq!(depth.get(0, 1), Some(5));
    assert_eq!(depth.get(3, 1), Some(8));
    assert_eq!(depth.get(4, 0), None);
    assert_eq!(depth.get(7, 0), None);
    assert_eq!(depth.get(0, 2), None);
    assert!(DepthMap::new(vec![1, 2, 3], 2, 2, 4).is_none());
}

#[test]
fn user_map_reads_by_width_whatever_the_stride() {
    // Two rows of three samples; the stride is given in bytes and is larger
    // than the width.
    let map = UserMap::new(vec![0, 1, 1, 0, 2, 2], 3, 2, 6).unwrap();
    assert_eq!(map.width(), 3);
    assert_eq!(map.height(), 2);
    assert_eq!(map.stride(), 6);
    assert_eq!(map.pixels(), &[0, 1, 1, 0, 2, 2]);
    assert_eq!(map.get(0, 0), Some(0));
    assert_eq!(map.get(1, 0), Some(1));
    assert_eq!(map.get(2, 0), Some(1));
    assert_eq!(map.get(0, 1), Some(0));
    assert_eq!(map.get(1, 1), Some(2));
    assert_eq!(map.get(2, 1), Some(2));
}

#[test]
fn user_map_gives_nothing_outside_the_image() {
    let map = UserMap::new(vec![0, 1, 1, 0, 2, 2], 3, 2, 6).unwrap();
    assert_eq!(map.get(3, 0), None);
    assert_eq!(map.get(5, 0), None);
    assert_eq!(map.get(0, 2), None);
    assert_eq!(map.get(3, 1), None);
    assert_eq!(map.get(usize::MAX, 0), None);
    assert_eq!(map.get(0, usize::MAX), None);
    assert_eq!(map.get(usize::MAX, usize::MAX), None);
}

#[test]
fn user_map_wants_samples_that_fill_the_size() {
    assert!(UserMap::new(vec![0; 5], 3, 2, 3).is_none());
    assert!(UserMap::new(vec![0; 7], 3, 2, 3).is_none());
    assert!(UserMap::new(vec![0; 6], 3, 2, 2).is_none());
    assert!(UserMap::new(vec![0; 6], 3, 2, 3).is_some());
    assert!(UserMap::new(vec![], 0, 0, 0).is_some());
    assert!(UserMap::new(vec![], 0, 7, 0).is_some());
    assert!(UserMap::new(vec![], usize::MAX, 2, usize::MAX).is_none());
    assert!(UserMap::new(vec![0; 4], usize::MAX, usize::MAX, usize::MAX).is_none());
}

#[test]
fn empty_user_map_has_no_sample() {
    let map = UserMap::new(vec![], 0, 0, 0).unwrap();
    assert_eq!(map.get(0, 0), None);
    assert!(map.pixels().is_empty());
}

#[test]
fn tracking_request_for_a_setting() {
    assert_eq!(TrackingRequest::track_skeleton(4, true), TrackingRequest::Start(4));
    assert_eq!(TrackingRequest::track_skeleton(4, false), TrackingRequest::Stop(4));
}

#[test]
fn start_succeeds_only_on_success() {
    assert_eq!(TrackingRequest::Start(1).outcome(Status::Success), Ok(()));
    assert_eq!(TrackingRequest::Start(1).outcome(Status::BadUserId), Err(Status::BadUserId));
    assert_eq!(TrackingRequest::Start(1).outcome(Status::OutOfFlow), Err(Status::OutOfFlow));
    assert_eq!(
        TrackingRequest::Start(1).outcome(Status::Error(String::from("busy"))),
        Err(Status::Error(String::from("busy")))
    );
}

#[test]
fn stop_never_fails() {
    assert_eq!(TrackingRequest::Stop(1).outcome(Status::Success), Ok(()));
    assert_eq!(TrackingRequest::Stop(1).outcome(Status::BadUserId), Ok(()));
    assert_eq!(TrackingRequest::Stop(1).outcome(Status::OutOfFlow), Ok(()));
    assert_eq!(TrackingRequest::Stop(1).outcome(Status::Error(String::from("busy"))), Ok(()));
}
