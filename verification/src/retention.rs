//! The account of one native frame: how often this layer has retained it and
//! how often it has released it. Whoever holds a frame asks the account
//! before each native call, so that a release is never issued twice for one
//! retention, on whatever path the holder gives the frame up.

use vstd::prelude::*;

verus! {

/// What a `Retention` is in contracts: the two counts.
pub struct RetentionView {
    /// Retentions issued to the engine so far.
    pub retained: nat,
    /// Releases issued to the engine so far.
    pub released: nat,
}

impl RetentionView {
    /// Retentions and releases are paired: there is at least one retention,
    /// and no more releases than retentions.
    pub open spec fn well_formed(self) -> bool {
        1 <= self.retained && self.released <= self.retained
    }

    /// The retentions that no release has answered yet.
    pub open spec fn holders(self) -> nat {
        (self.retained - self.released) as nat
    }

    /// The account of a frame that was just acquired: retained once.
    pub open spec fn acquired() -> RetentionView {
        RetentionView { retained: 1, released: 0 }
    }

    /// The account after one attempt to release.
    pub open spec fn after_release(self) -> RetentionView {
        if self.holders() > 0 {
            RetentionView { released: self.released + 1, ..self }
        } else {
            self
        }
    }

    /// The account after `attempts` attempts to release.
    pub open spec fn after_releases(self, attempts: nat) -> RetentionView
        decreases attempts,
    {
        if attempts == 0 {
            self
        } else {
            self.after_release().after_releases((attempts - 1) as nat)
        }
    }
}

/// The account of one native frame.
#[derive(Debug)]
pub struct Retention {
    retained: usize,
    released: usize,
}

impl View for Retention {
    type V = RetentionView;

    closed spec fn view(&self) -> RetentionView {
        RetentionView { retained: self.retained as nat, released: self.released as nat }
    }
}

impl Retention {
    #[verifier::type_invariant]
    spec fn well_formed(self) -> bool {
        self@.well_formed()
    }

    /// Opens the account of a frame that the engine just handed out. The
    /// caller retains the frame once, and the account says so.
    pub fn acquire() -> (r: Retention)
        ensures
            r@ == RetentionView::acquired(),
    {
        Retention { retained: 1, released: 0 }
    }

    /// The retentions that no release has answered yet. While this is above
    /// zero the engine keeps the frame's storage.
    pub fn holders(&self) -> (r: usize)
        ensures
            self@.well_formed(),
            r == self@.holders(),
    {
        proof {
            use_type_invariant(self);
        }
        self.retained - self.released
    }

    /// Asks to retain the frame once more, for another holder. Returns
    /// whether the caller is to issue the retention: it is, unless the frame
    /// has no holder left, or the count cannot grow.
    pub fn retain(&mut self) -> (issue: bool)
        ensures
            final(self)@.well_formed(),
            issue == (old(self)@.holders() > 0 && old(self)@.retained < usize::MAX),
            issue ==> final(self)@ == (RetentionView {
                retained: old(self)@.retained + 1,
                ..old(self)@
            }),
            !issue ==> final(self)@ == old(self)@,
    {
        proof {
            use_type_invariant(&*self);
        }
        if self.released < self.retained && self.retained < usize::MAX {
            self.retained = self.retained + 1;
            true
        } else {
            false
        }
    }

    /// Asks to release the frame once. Returns whether the caller is to
    /// issue the release: it is exactly while a retention is unanswered.
    pub fn release(&mut self) -> (issue: bool)
        ensures
            final(self)@.well_formed(),
            issue == (old(self)@.holders() > 0),
            final(self)@ == old(self)@.after_release(),
    {
        proof {
            use_type_invariant(&*self);
        }
        if self.released < self.retained {
            self.released = self.released + 1;
            true
        } else {
            false
        }
    }
}

/// However often a release is attempted, as many releases are issued as
/// there were unanswered retentions, and no more.
pub proof fn lemma_releases_are_paired(account: RetentionView, attempts: nat)
    requires
        account.well_formed(),
    ensures
        account.after_releases(attempts).well_formed(),
        account.after_releases(attempts).retained == account.retained,
        account.after_releases(attempts).released == account.released + if attempts
            <= account.holders() {
            attempts
        } else {
            account.holders()
        },
    decreases attempts,
{
    if attempts > 0 {
        lemma_releases_are_paired(account.after_release(), (attempts - 1) as nat);
    }
}

/// A frame that was acquired and then given up, by one attempt to release
/// it or by many, has been released exactly once.
pub proof fn lemma_acquired_frame_is_released_once(attempts: nat)
    requires
        attempts >= 1,
    ensures
        RetentionView::acquired().after_releases(attempts).released == 1,
        RetentionView::acquired().after_releases(attempts).holders() == 0,
{
    lemma_releases_are_paired(RetentionView::acquired(), attempts);
}

} // verus!
