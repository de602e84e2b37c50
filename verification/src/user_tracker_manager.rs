//! The policy that decides, frame over frame, for which users skeleton
//! tracking is requested: every user that was not in the frame before.

use vstd::prelude::*;
use crate::types::{Status, StatusView};
use crate::user_tracker::{user_ids, TrackingRequest, UserData, UserTrackerFrame};
use crate::NiteUserId;

verus! {

/// The predicate "was not seen": true of the identifiers outside `seen`.
pub open spec fn unseen(seen: Seq<NiteUserId>) -> spec_fn(NiteUserId) -> bool {
    |id: NiteUserId| !seen.contains(id)
}

/// The predicate "is this user".
pub open spec fn is_user(id: NiteUserId) -> spec_fn(NiteUserId) -> bool {
    |other: NiteUserId| other == id
}

/// The users of `reported` that are new against `seen`: each appearance of
/// an identifier that `seen` lacks, in the order of `reported`.
pub open spec fn new_users(seen: Seq<NiteUserId>, reported: Seq<NiteUserId>) -> Seq<NiteUserId> {
    reported.filter(unseen(seen))
}

/// How often `id` appears in `ids`.
pub open spec fn appearances(ids: Seq<NiteUserId>, id: NiteUserId) -> nat {
    ids.filter(is_user(id)).len()
}

/// One request to start tracking for each of `ids`, in their order.
pub open spec fn start_requests(ids: Seq<NiteUserId>) -> Seq<TrackingRequest> {
    ids.map_values(|id: NiteUserId| TrackingRequest::Start(id))
}

/// The predicate "is a start for this user".
pub open spec fn is_start_for(id: NiteUserId) -> spec_fn(TrackingRequest) -> bool {
    |request: TrackingRequest| request == TrackingRequest::Start(id)
}

/// How many of `requests` ask to start tracking for `id`.
pub open spec fn starts_for(requests: Seq<TrackingRequest>, id: NiteUserId) -> nat {
    requests.filter(is_start_for(id)).len()
}

/// One request to stop tracking for each of `ids`, in their order.
pub open spec fn stop_requests(ids: Seq<NiteUserId>) -> Seq<TrackingRequest> {
    ids.map_values(|id: NiteUserId| TrackingRequest::Stop(id))
}

/// Keeps the users of the latest frame and the switch that turns skeleton
/// tracking on and off for all of them.
#[derive(Debug)]
pub struct UserTrackerManager {
    users: Vec<UserData>,
    track_skeletons: bool,
}

/// What a `UserTrackerManager` is in contracts.
pub struct UserTrackerManagerView {
    /// The users of the latest frame that was read.
    pub users: Seq<UserData>,
    /// Whether new users get their skeleton tracked.
    pub track_skeletons: bool,
}

impl UserTrackerManagerView {
    /// The identifiers of the users of the latest frame.
    pub open spec fn seen(self) -> Seq<NiteUserId> {
        user_ids(self.users)
    }

    /// The requests that a frame with the users `reported` gives rise to:
    /// with tracking switched on, a start for every new user; none otherwise.
    pub open spec fn requests_for(self, reported: Seq<UserData>) -> Seq<TrackingRequest> {
        if self.track_skeletons {
            start_requests(new_users(self.seen(), user_ids(reported)))
        } else {
            Seq::empty()
        }
    }
}

impl View for UserTrackerManager {
    type V = UserTrackerManagerView;

    closed spec fn view(&self) -> UserTrackerManagerView {
        UserTrackerManagerView { users: self.users@, track_skeletons: self.track_skeletons }
    }
}

impl UserTrackerManager {
    /// A manager for a session that was just opened, given the status that
    /// opening it returned. On success the manager has seen no user and
    /// skeleton tracking is switched on; any other status is the error.
    pub fn create(opened: Status) -> (r: Result<UserTrackerManager, Status>)
        ensures
            opened@ == StatusView::Success ==> r is Ok && r->Ok_0@.users == Seq::<UserData>::empty()
                && r->Ok_0@.track_skeletons,
            opened@ != StatusView::Success ==> r is Err && r->Err_0 == opened,
    {
        match opened {
            Status::Success => Ok(
                UserTrackerManager { users: Vec::with_capacity(10), track_skeletons: true },
            ),
            status => Err(status),
        }
    }

    /// Whether the latest frame held a user with this identifier.
    fn has_seen(&self, id: NiteUserId) -> (r: bool)
        ensures
            r == self@.seen().contains(id),
    {
        let mut i: usize = 0;
        while i < self.users.len()
            invariant
                i <= self.users@.len(),
                forall|k: int| 0 <= k < i ==> (#[trigger] self.users@[k])@.id != id,
            decreases self.users@.len() - i,
        {
            if self.users[i].id() == id {
                assert(self@.seen()[i as int] == id);
                return true;
            }
            i = i + 1;
        }
        false
    }

    /// Switches skeleton tracking on or off for the users to come.
    ///
    /// Switching off returns a stop request for every user of the latest
    /// frame, in the frame's order. Switching on returns no request: users
    /// already seen are not taken up again, only new ones will be.
    pub fn track_skeletons(&mut self, enable: bool) -> (r: Vec<TrackingRequest>)
        ensures
            final(self)@.users == old(self)@.users,
            final(self)@.track_skeletons == enable,
            r@ == if enable {
                Seq::<TrackingRequest>::empty()
            } else {
                stop_requests(old(self)@.seen())
            },
    {
        let mut requests: Vec<TrackingRequest> = Vec::new();
        if !enable {
            let ghost ids = self@.seen();
            let mut i: usize = 0;
            assert(stop_requests(ids.take(0)) =~= Seq::empty());
            while i < self.users.len()
                invariant
                    i <= self.users@.len(),
                    ids == user_ids(self.users@),
                    requests@ == stop_requests(ids.take(i as int)),
                decreases self.users@.len() - i,
            {
                let id = self.users[i].id();
                requests.push(TrackingRequest::track_skeleton(id, false));
                proof {
                    ids.lemma_take_succ_push(i as int);
                    assert(stop_requests(ids.take(i as int + 1)) =~= stop_requests(
                        ids.take(i as int),
                    ).push(TrackingRequest::Stop(id)));
                }
                i = i + 1;
            }
            assert(ids.take(ids.len() as int) =~= ids);
        }
        self.track_skeletons = enable;
        requests
    }

    /// Takes in the outcome of reading the next frame, and returns it with
    /// the requests that it gives rise to.
    ///
    /// A failed read changes nothing and asks for nothing. A frame replaces
    /// the users kept so far by its own. With tracking switched on, it asks
    /// for a start for each of its users that the frame before did not hold,
    /// in the frame's order; whether the engine grants a start does not
    /// matter to the frame, which is returned either way.
    pub fn read_frame(&mut self, read: Result<UserTrackerFrame, Status>) -> (r: (
        Result<UserTrackerFrame, Status>,
        Vec<TrackingRequest>,
    ))
        ensures
            r.0 == read,
            final(self)@.track_skeletons == old(self)@.track_skeletons,
            read is Err ==> final(self)@.users == old(self)@.users && r.1@
                == Seq::<TrackingRequest>::empty(),
            read is Ok ==> final(self)@.users == read->Ok_0@.users && r.1@ == old(
                self,
            )@.requests_for(read->Ok_0@.users),
    {
        let frame = match read {
            Ok(frame) => frame,
            Err(status) => {
                return (Err(status), Vec::new());
            },
        };
        let users = frame.users();
        let mut requests: Vec<TrackingRequest> = Vec::new();
        if self.track_skeletons {
            let ghost seen = self@.seen();
            let ghost ids = user_ids(users@);
            let mut i: usize = 0;
            proof {
                reveal(Seq::filter);
                assert(ids.take(0) =~= Seq::empty());
                assert(start_requests(new_users(seen, ids.take(0))) =~= Seq::empty());
            }
            while i < users.len()
                invariant
                    i <= users@.len(),
                    seen == self@.seen(),
                    ids == user_ids(users@),
                    requests@ == start_requests(new_users(seen, ids.take(i as int))),
                decreases users@.len() - i,
            {
                let id = users[i].id();
                proof {
                    let before = ids.take(i as int);
                    ids.lemma_take_succ_push(i as int);
                    before.lemma_filter_push(id, unseen(seen));
                    assert(start_requests(new_users(seen, before).push(id)) =~= start_requests(
                        new_users(seen, before),
                    ).push(TrackingRequest::Start(id)));
                }
                if !self.has_seen(id) {
                    requests.push(TrackingRequest::track_skeleton(id, true));
                }
                i = i + 1;
            }
            assert(ids.take(ids.len() as int) =~= ids);
        }
        self.users = users;
        (Ok(frame), requests)
    }

    /// The users of the latest frame that was read, in the frame's order.
    pub fn users(&self) -> (r: &[UserData])
        ensures
            r@ == self@.users,
    {
        self.users.as_slice()
    }
}

/// Adding one identifier at the end adds one appearance of it, and none of
/// any other.
proof fn lemma_appearances_push(ids: Seq<NiteUserId>, last: NiteUserId, id: NiteUserId)
    ensures
        appearances(ids.push(last), id) == appearances(ids, id) + if last == id {
            1nat
        } else {
            0nat
        },
{
    ids.lemma_filter_push(last, is_user(id));
}

/// Each appearance of a new user in a frame gives one start request for
/// that user, and a user that the frame before held gives none: among the
/// users asked for, an identifier that was seen does not appear, and one
/// that was not appears as often as the frame reports it.
pub proof fn lemma_one_request_per_appearance(
    seen: Seq<NiteUserId>,
    reported: Seq<NiteUserId>,
    id: NiteUserId,
)
    ensures
        seen.contains(id) ==> appearances(new_users(seen, reported), id) == 0,
        !seen.contains(id) ==> appearances(new_users(seen, reported), id) == appearances(
            reported,
            id,
        ),
    decreases reported.len(),
{
    if reported.len() == 0 {
        reveal(Seq::filter);
    } else {
        let rest = reported.drop_last();
        let last = reported.last();
        assert(reported =~= rest.push(last));
        lemma_one_request_per_appearance(seen, rest, id);
        rest.lemma_filter_push(last, unseen(seen));
        lemma_appearances_push(rest, last, id);
        if !seen.contains(last) {
            lemma_appearances_push(new_users(seen, rest), last, id);
        }
    }
}

/// An identifier that appears once in a list appears at one place only.
proof fn lemma_single_appearance(ids: Seq<NiteUserId>, id: NiteUserId)
    requires
        ids.no_duplicates(),
        ids.contains(id),
    ensures
        appearances(ids, id) == 1,
    decreases ids.len(),
{
    let rest = ids.drop_last();
    let last = ids.last();
    assert(ids =~= rest.push(last));
    lemma_appearances_push(rest, last, id);
    if last == id {
        if rest.contains(id) {
            let k = choose|k: int| 0 <= k < rest.len() && rest[k] == id;
            assert(ids[k] == ids[ids.len() - 1]);
        }
        rest.lemma_all_neg_filter_empty(is_user(id));
    } else {
        let k = choose|k: int| 0 <= k < ids.len() && ids[k] == id;
        assert(rest[k] == id);
        lemma_single_appearance(rest, id);
    }
}

/// Among the start requests for a list of users, each user is asked for as
/// often as the list names it.
proof fn lemma_starts_match_users(ids: Seq<NiteUserId>, id: NiteUserId)
    ensures
        starts_for(start_requests(ids), id) == appearances(ids, id),
    decreases ids.len(),
{
    if ids.len() == 0 {
        reveal(Seq::filter);
        assert(start_requests(ids) =~= Seq::empty());
    } else {
        let rest = ids.drop_last();
        let last = ids.last();
        assert(ids =~= rest.push(last));
        assert(start_requests(ids) =~= start_requests(rest).push(TrackingRequest::Start(last)));
        lemma_starts_match_users(rest, id);
        start_requests(rest).lemma_filter_push(TrackingRequest::Start(last), is_start_for(id));
        lemma_appearances_push(rest, last, id);
    }
}

/// What a frame asks of the engine. With tracking switched on, a user that
/// the frame before did not hold is asked for once for each time the frame
/// names it, and a user that the frame before held is not asked for. With
/// tracking switched off nobody is asked for. A frame never asks to stop.
pub proof fn lemma_requests_of_a_frame(
    manager: UserTrackerManagerView,
    reported: Seq<UserData>,
    id: NiteUserId,
)
    ensures
        manager.track_skeletons && !manager.seen().contains(id) ==> starts_for(
            manager.requests_for(reported),
            id,
        ) == appearances(user_ids(reported), id),
        !manager.track_skeletons || manager.seen().contains(id) ==> starts_for(
            manager.requests_for(reported),
            id,
        ) == 0,
        !manager.track_skeletons ==> manager.requests_for(reported) == Seq::<
            TrackingRequest,
        >::empty(),
        forall|i: int|
            0 <= i < manager.requests_for(reported).len() ==> #[trigger] manager.requests_for(
                reported,
            )[i] is Start,
{
    if manager.track_skeletons {
        lemma_starts_match_users(new_users(manager.seen(), user_ids(reported)), id);
        lemma_one_request_per_appearance(manager.seen(), user_ids(reported), id);
    } else {
        reveal(Seq::filter);
    }
}

/// With tracking switched on, a user that a frame names once, and that the
/// frame before did not hold, is asked for exactly once.
pub proof fn lemma_first_appearance_is_requested_once(
    manager: UserTrackerManagerView,
    reported: Seq<UserData>,
    id: NiteUserId,
)
    requires
        manager.track_skeletons,
        user_ids(reported).no_duplicates(),
        user_ids(reported).contains(id),
        !manager.seen().contains(id),
    ensures
        starts_for(manager.requests_for(reported), id) == 1,
{
    lemma_requests_of_a_frame(manager, reported, id);
    lemma_single_appearance(user_ids(reported), id);
}

} // verus!
