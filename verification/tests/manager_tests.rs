use nite2::{
    DepthMap, NiteBoundingBox, NitePlane, NitePoint3f, NiteQuaternion, NiteSkeleton, NiteSkeletonJoint,
    NiteUserData, Scalar, Status, TrackingRequest, UserData, UserMap, UserTrackerFrame,
    UserTrackerManager,
};

fn scalar(value: f32) -> Scalar {
    Scalar::from_bits(value.to_bits())
}

fn point(x: f32, y: f32, z: f32) -> NitePoint3f {
    NitePoint3f { x: scalar(x), y: scalar(y), z: scalar(z) }
}

fn user(id: i16) -> UserData {
    let joint = NiteSkeletonJoint {
        joint_type: 0,
        position: point(0.0, 0.0, 0.0),
        position_confidence: scalar(0.0),
        orientation: NiteQuaternion {
            x: scalar(0.0),
            y: scalar(0.0),
            z: scalar(0.0),
            w: scalar(1.0),
        },
        orientation_confidence: scalar(0.0),
    };
    UserData::new(NiteUserData {
        id,
        bounding_box: NiteBoundingBox { min: point(0.0, 0.0, 0.0), max: point(1.0, 1.0, 0.0) },
        center_of_mass: point(0.0, 0.0, 1000.0),
        state: 0,
        skeleton: NiteSkeleton { joints: [joint; 15], state: 0 },
    })
}

fn frame(index: usize, ids: &[i16]) -> UserTrackerFrame {
    UserTrackerFrame::new(
        1000 + index as u64,
        index,
        scalar(0.0),
        NitePlane { point: point(0.0, 0.0, 0.0), normal: point(0.0, 1.0, 0.0) },
        DepthMap::new(vec![0; 4], 2, 2, 4).unwrap(),
        UserMap::new(vec![0; 4], 2, 2, 4).unwrap(),
        ids.iter().map(|id| user(*id)).collect(),
    )
}

fn ids_of(users: &[UserData]) -> Vec<i16> {
    users.iter().map(|u| u.id()).collect()
}

fn manager() -> UserTrackerManager {
    UserTrackerManager::create(Status::Success).unwrap()
}

#[test]
fn create_follows_the_status_of_opening() {
    let m = UserTrackerManager::create(Status::Success).unwrap();
    assert!(m.users().is_empty());
    assert_eq!(UserTrackerManager::create(Status::OutOfFlow).unwrap_err(), Status::OutOfFlow);
    assert_eq!(UserTrackerManager::create(Status::BadUserId).unwrap_err(), Status::BadUserId);
    assert_eq!(
        UserTrackerManager::create(Status::Error(String::from("no device"))).unwrap_err(),
        Status::Error(String::from("no device"))
    );
}

#[test]
fn new_users_are_requested_once_each() {
    let mut m = manager();
    let (read, requests) = m.read_frame(Ok(frame(1, &[1, 2])));
    assert_eq!(read.unwrap().frame_index(), 1);
    assert_eq!(requests, vec![TrackingRequest::Start(1), TrackingRequest::Start(2)]);
    assert_eq!(ids_of(m.users()), vec![1, 2]);
}

#[test]
fn users_of_the_frame_before_are_not_requested_again() {
    let mut m = manager();
    let _ = m.read_frame(Ok(frame(1, &[1, 2])));
    let (_, requests) = m.read_frame(Ok(frame(2, &[1, 2])));
    assert!(requests.is_empty());
    let (_, requests) = m.read_frame(Ok(frame(3, &[2, 3, 1])));
    assert_eq!(requests, vec![TrackingRequest::Start(3)]);
    assert_eq!(ids_of(m.users()), vec![2, 3, 1]);
}

#[test]
fn a_user_that_drops_out_and_returns_is_requested_again() {
    let mut m = manager();
    let (_, first) = m.read_frame(Ok(frame(1, &[5])));
    assert_eq!(first, vec![TrackingRequest::Start(5)]);
    let (_, gone) = m.read_frame(Ok(frame(2, &[])));
    assert!(gone.is_empty());
    assert!(m.users().is_empty());
    let (_, back) = m.read_frame(Ok(frame(3, &[5])));
    assert_eq!(back, vec![TrackingRequest::Start(5)]);
}

#[test]
fn the_seen_set_is_replaced_not_accumulated() {
    let mut m = manager();
    let _ = m.read_frame(Ok(frame(1, &[1])));
    let _ = m.read_frame(Ok(frame(2, &[2])));
    assert_eq!(ids_of(m.users()), vec![2]);
    let (_, requests) = m.read_frame(Ok(frame(3, &[1, 2])));
    assert_eq!(requests, vec![TrackingRequest::Start(1)]);
}

#[test]
fn a_failed_read_changes_nothing() {
    let mut m = manager();
    let _ = m.read_frame(Ok(frame(1, &[1, 2])));
    let (read, requests) = m.read_frame(Err(Status::OutOfFlow));
    assert_eq!(read.unwrap_err(), Status::OutOfFlow);
    assert!(requests.is_empty());
    assert_eq!(ids_of(m.users()), vec![1, 2]);
    let (_, requests) = m.read_frame(Ok(frame(2, &[1, 2, 3])));
    assert_eq!(requests, vec![TrackingRequest::Start(3)]);
}

#[test]
fn switching_off_stops_every_seen_user() {
    let mut m = manager();
    let _ = m.read_frame(Ok(frame(1, &[4, 7, 9])));
    let requests = m.track_skeletons(false);
    assert_eq!(
        requests,
        vec![TrackingRequest::Stop(4), TrackingRequest::Stop(7), TrackingRequest::Stop(9)]
    );
    assert_eq!(ids_of(m.users()), vec![4, 7, 9]);
    // The switch stays off for the frames that follow.
    let (read, requests) = m.read_frame(Ok(frame(2, &[4, 7, 9, 11])));
    assert!(read.is_ok());
    assert!(requests.is_empty());
    let (_, requests) = m.read_frame(Ok(frame(3, &[12])));
    assert!(requests.is_empty());
    assert_eq!(ids_of(m.users()), vec![12]);
}

#[test]
fn switching_off_with_no_user_asks_nothing() {
    let mut m = manager();
    assert!(m.track_skeletons(false).is_empty());
}

#[test]
fn switching_on_takes_up_new_users_only() {
    let mut m = manager();
    let _ = m.track_skeletons(false);
    let _ = m.read_frame(Ok(frame(1, &[1, 2])));
    let requests = m.track_skeletons(true);
    assert!(requests.is_empty());
    let (_, requests) = m.read_frame(Ok(frame(2, &[1, 2])));
    assert!(requests.is_empty());
    let (_, requests) = m.read_frame(Ok(frame(3, &[1, 2, 3])));
    assert_eq!(requests, vec![TrackingRequest::Start(3)]);
}

#[test]
fn the_frame_is_handed_back_unchanged() {
    let mut m = manager();
    let (read, _) = m.read_frame(Ok(frame(9, &[1])));
    let f = read.unwrap();
    assert_eq!(f.frame_index(), 9);
    assert_eq!(f.timestamp(), 1009);
    assert_eq!(f.user_count(), 1);
    assert_eq!(f.users()[0].id(), 1);
}
