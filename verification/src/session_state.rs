//! Per-session state of Engineering and Quality work: one checkpoint, one
//! submission, one full suite, one review.
//!
//! The authority and receipt types are opaque here: a session carries them
//! from the call that resolved them to the call that may use them.

use vstd::prelude::*;

verus! {

pub const CHECKPOINT_TAKEN: &'static str =
    "the Engineering session already has a regression checkpoint or candidate submission";

pub const CANDIDATE_SUBMITTED: &'static str =
    "the Engineering session already submitted its candidate";

pub const CHECKPOINT_REQUIRED: &'static str =
    "an accepted regression checkpoint is required before candidate submission";

pub const FULL_SUITE_TAKEN: &'static str =
    "the Quality session already has a full-suite receipt or review submission";

pub const REVIEW_SUBMITTED: &'static str = "the Quality session already submitted its review";

pub const FULL_SUITE_RUNNING: &'static str = "the Quality session full suite is still running";

pub const FULL_SUITE_REQUIRED: &'static str =
    "this session must run its kernel-owned full suite before review submission";

pub const NO_PRIOR_FULL_SUITE: &'static str =
    "this Quality assignment has no persisted passed full-suite receipt to review";

pub const FULL_SUITE_INCONSISTENT: &'static str =
    "the Quality session has inconsistent full-suite state";

/// State of an Engineering session, over the authority it was given and the
/// regression checkpoint it made.
#[derive(Clone, Copy, Debug, PartialEq, Eq)]
pub struct EngineeringSessionState<A, C> {
    pub checkpoint_in_flight: bool,
    pub submission_in_flight: bool,
    pub submitted: bool,
    pub authority: Option<A>,
    pub checkpoint: Option<C>,
}

impl<A: Copy, C: Copy> Default for EngineeringSessionState<A, C> {
    fn default() -> (state: EngineeringSessionState<A, C>)
        ensures
            state == EngineeringSessionState::<A, C>::spec_default(),
    {
        EngineeringSessionState {
            checkpoint_in_flight: false,
            submission_in_flight: false,
            submitted: false,
            authority: None,
            checkpoint: None,
        }
    }
}

impl<A, C> EngineeringSessionState<A, C> {
    /// The state of a session that has done nothing.
    pub open spec fn spec_default() -> EngineeringSessionState<A, C> {
        EngineeringSessionState {
            checkpoint_in_flight: false,
            submission_in_flight: false,
            submitted: false,
            authority: None,
            checkpoint: None,
        }
    }

    /// Authority and checkpoint come together, nothing is submitted without
    /// them, and a session that submitted has nothing in flight.
    pub open spec fn well_formed(self) -> bool {
        &&& self.authority is Some <==> self.checkpoint is Some
        &&& self.submission_in_flight || self.submitted ==> self.checkpoint is Some
        &&& self.checkpoint is Some ==> !self.checkpoint_in_flight
        &&& !(self.submitted && self.submission_in_flight)
    }

    /// Whether a checkpoint may begin.
    pub open spec fn may_checkpoint(self) -> bool {
        self.checkpoint is None && !self.checkpoint_in_flight && !self.submitted
    }

    /// Why a submission may not begin, if it may not.
    pub open spec fn submission_refusal(self) -> Option<&'static str> {
        if self.submitted || self.submission_in_flight {
            Some(CANDIDATE_SUBMITTED)
        } else if self.authority is None || self.checkpoint is None {
            Some(CHECKPOINT_REQUIRED)
        } else {
            None
        }
    }
}

impl<A: Copy, C: Copy> EngineeringSessionState<A, C> {
    /// Begins the one checkpoint of the session.
    pub fn begin_checkpoint(&mut self) -> (result: Result<(), &'static str>)
        ensures
            result == (if old(self).may_checkpoint() {
                Ok::<(), &'static str>(())
            } else {
                Err(CHECKPOINT_TAKEN)
            }),
            *final(self) == (if old(self).may_checkpoint() {
                EngineeringSessionState { checkpoint_in_flight: true, ..*old(self) }
            } else {
                *old(self)
            }),
            old(self).well_formed() ==> final(self).well_formed(),
    {
        if self.checkpoint.is_some() || self.checkpoint_in_flight || self.submitted {
            return Err(CHECKPOINT_TAKEN);
        }
        self.checkpoint_in_flight = true;
        Ok(())
    }

    /// Keeps an accepted checkpoint with the authority it was made under.
    pub fn accept_checkpoint(&mut self, authority: A, checkpoint: C)
        ensures
            *final(self) == (EngineeringSessionState {
                checkpoint_in_flight: false,
                authority: Some(authority),
                checkpoint: Some(checkpoint),
                ..*old(self)
            }),
            old(self).well_formed() ==> final(self).well_formed(),
    {
        self.checkpoint_in_flight = false;
        self.authority = Some(authority);
        self.checkpoint = Some(checkpoint);
    }

    /// Gives up a checkpoint that was begun.
    pub fn abandon_checkpoint(&mut self)
        ensures
            *final(self) == (EngineeringSessionState { checkpoint_in_flight: false, ..*old(self) }),
            old(self).well_formed() ==> final(self).well_formed(),
    {
        self.checkpoint_in_flight = false;
    }

    /// Begins the one submission of the session, over its own checkpoint.
    pub fn begin_submission(&mut self) -> (result: Result<(A, C), &'static str>)
        ensures
            match result {
                Err(refusal) => old(self).submission_refusal() == Some(refusal) && *final(self)
                    == *old(self),
                Ok((authority, checkpoint)) => {
                    &&& old(self).submission_refusal() is None
                    &&& old(self).authority == Some(authority)
                    &&& old(self).checkpoint == Some(checkpoint)
                    &&& *final(self) == (EngineeringSessionState {
                        submission_in_flight: true,
                        ..*old(self)
                    })
                },
            },
            old(self).well_formed() ==> final(self).well_formed(),
    {
        if self.submitted || self.submission_in_flight {
            return Err(CANDIDATE_SUBMITTED);
        }
        match (self.authority, self.checkpoint) {
            (Some(authority), Some(checkpoint)) => {
                self.submission_in_flight = true;
                Ok((authority, checkpoint))
            },
            _ => Err(CHECKPOINT_REQUIRED),
        }
    }

    /// Gives up a submission that was begun.
    pub fn abandon_submission(&mut self)
        ensures
            *final(self) == (EngineeringSessionState { submission_in_flight: false, ..*old(self) }),
            old(self).well_formed() ==> final(self).well_formed(),
    {
        self.submission_in_flight = false;
    }

    /// Records the submission of the session.
    pub fn complete_submission(&mut self)
        ensures
            *final(self) == (EngineeringSessionState {
                submission_in_flight: false,
                submitted: true,
                ..*old(self)
            }),
            old(self).well_formed() && old(self).submission_in_flight
                ==> final(self).well_formed(),
    {
        self.submission_in_flight = false;
        self.submitted = true;
    }
}

/// A session that submitted its candidate begins neither another checkpoint
/// nor another submission, and one that never accepted a checkpoint submits
/// nothing.
pub proof fn law_engineering_submits_once<A, C>(state: EngineeringSessionState<A, C>)
    ensures
        state.submitted ==> !state.may_checkpoint() && state.submission_refusal() == Some(
            CANDIDATE_SUBMITTED,
        ),
        state.checkpoint is None ==> state.submission_refusal() is Some,
        state.checkpoint is Some ==> !state.may_checkpoint(),
        EngineeringSessionState::<A, C>::spec_default().well_formed(),
{
}

/// What a resolver read back for a Quality session: its authority, and the
/// passed full suite an interrupted session left behind.
#[derive(Clone, Copy, Debug, PartialEq, Eq)]
pub struct RecoveredQuality<A, S> {
    pub authority: A,
    pub prior_full_suite: Option<S>,
}

/// State of a Quality session, over its authority and the full-suite receipt
/// it may review.
#[derive(Clone, Copy, Debug, PartialEq, Eq)]
pub struct QualitySessionState<A, S> {
    pub full_suite_in_flight: bool,
    pub review_in_flight: bool,
    pub review_submitted: bool,
    pub authority: Option<A>,
    pub full_suite: Option<S>,
}

impl<A: Copy, S: Copy> Default for QualitySessionState<A, S> {
    fn default() -> (state: QualitySessionState<A, S>)
        ensures
            state == QualitySessionState::<A, S>::spec_default(),
    {
        QualitySessionState {
            full_suite_in_flight: false,
            review_in_flight: false,
            review_submitted: false,
            authority: None,
            full_suite: None,
        }
    }
}

impl<A, S> QualitySessionState<A, S> {
    /// The state of a session that has done nothing.
    pub open spec fn spec_default() -> QualitySessionState<A, S> {
        QualitySessionState {
            full_suite_in_flight: false,
            review_in_flight: false,
            review_submitted: false,
            authority: None,
            full_suite: None,
        }
    }

    /// Authority and receipt come together, nothing is reviewed without them,
    /// and a session that submitted its review has none in flight.
    pub open spec fn well_formed(self) -> bool {
        &&& self.authority is Some <==> self.full_suite is Some
        &&& self.review_in_flight || self.review_submitted ==> self.full_suite is Some
        &&& self.full_suite is Some ==> !self.full_suite_in_flight
        &&& !(self.review_submitted && self.review_in_flight)
    }

    /// Whether the full suite may begin.
    pub open spec fn may_run_full_suite(self) -> bool {
        self.full_suite is None && !self.full_suite_in_flight && !self.review_submitted
    }

    /// Whether a review needs a recovered receipt.
    pub open spec fn spec_needs_recovery(self) -> bool {
        self.authority is None && self.full_suite is None
    }

    /// The authority and receipt a review would use, or why it may not begin.
    pub open spec fn spec_review_inputs(self, recovered: Option<RecoveredQuality<A, S>>) -> Result<
        (A, S),
        &'static str,
    > {
        if self.review_submitted || self.review_in_flight {
            Err(REVIEW_SUBMITTED)
        } else if self.full_suite_in_flight {
            Err(FULL_SUITE_RUNNING)
        } else {
            match (self.authority, self.full_suite) {
                (Some(authority), Some(full_suite)) => Ok((authority, full_suite)),
                (None, None) => match recovered {
                    None => Err(FULL_SUITE_REQUIRED),
                    Some(recovered) => match recovered.prior_full_suite {
                        None => Err(NO_PRIOR_FULL_SUITE),
                        Some(full_suite) => Ok((recovered.authority, full_suite)),
                    },
                },
                _ => Err(FULL_SUITE_INCONSISTENT),
            }
        }
    }
}

impl<A: Copy, S: Copy> QualitySessionState<A, S> {
    /// Begins the one full suite of the session.
    pub fn begin_full_suite(&mut self) -> (result: Result<(), &'static str>)
        ensures
            result == (if old(self).may_run_full_suite() {
                Ok::<(), &'static str>(())
            } else {
                Err(FULL_SUITE_TAKEN)
            }),
            *final(self) == (if old(self).may_run_full_suite() {
                QualitySessionState { full_suite_in_flight: true, ..*old(self) }
            } else {
                *old(self)
            }),
            old(self).well_formed() ==> final(self).well_formed(),
    {
        if self.full_suite.is_some() || self.full_suite_in_flight || self.review_submitted {
            return Err(FULL_SUITE_TAKEN);
        }
        self.full_suite_in_flight = true;
        Ok(())
    }

    /// Keeps a full-suite receipt with the authority it was made under.
    pub fn accept_full_suite(&mut self, authority: A, full_suite: S)
        ensures
            *final(self) == (QualitySessionState {
                full_suite_in_flight: false,
                authority: Some(authority),
                full_suite: Some(full_suite),
                ..*old(self)
            }),
            old(self).well_formed() ==> final(self).well_formed(),
    {
        self.full_suite_in_flight = false;
        self.authority = Some(authority);
        self.full_suite = Some(full_suite);
    }

    /// Gives up a full suite that was begun.
    pub fn abandon_full_suite(&mut self)
        ensures
            *final(self) == (QualitySessionState { full_suite_in_flight: false, ..*old(self) }),
            old(self).well_formed() ==> final(self).well_formed(),
    {
        self.full_suite_in_flight = false;
    }

    /// Whether a review needs a recovered receipt.
    pub fn needs_recovery(&self) -> (needs: bool)
        ensures
            needs == self.spec_needs_recovery(),
    {
        self.authority.is_none() && self.full_suite.is_none()
    }

    /// Begins the one review of the session, over its own receipt or over the
    /// one a resolver recovered.
    pub fn begin_review(&mut self, recovered: Option<RecoveredQuality<A, S>>) -> (result: Result<
        (A, S),
        &'static str,
    >)
        ensures
            result == old(self).spec_review_inputs(recovered),
            *final(self) == (match old(self).spec_review_inputs(recovered) {
                Err(_) => *old(self),
                Ok((authority, full_suite)) => QualitySessionState {
                    review_in_flight: true,
                    authority: Some(authority),
                    full_suite: Some(full_suite),
                    ..*old(self)
                },
            }),
            old(self).well_formed() ==> final(self).well_formed(),
    {
        if self.review_submitted || self.review_in_flight {
            return Err(REVIEW_SUBMITTED);
        }
        if self.full_suite_in_flight {
            return Err(FULL_SUITE_RUNNING);
        }
        let (authority, full_suite) = match (self.authority, self.full_suite) {
            (Some(authority), Some(full_suite)) => (authority, full_suite),
            (None, None) => {
                let recovered = match recovered {
                    Some(recovered) => recovered,
                    None => return Err(FULL_SUITE_REQUIRED),
                };
                let full_suite = match recovered.prior_full_suite {
                    Some(full_suite) => full_suite,
                    None => return Err(NO_PRIOR_FULL_SUITE),
                };
                (recovered.authority, full_suite)
            },
            _ => return Err(FULL_SUITE_INCONSISTENT),
        };
        self.authority = Some(authority);
        self.full_suite = Some(full_suite);
        self.review_in_flight = true;
        Ok((authority, full_suite))
    }

    /// Gives up a review that was begun.
    pub fn abandon_review(&mut self)
        ensures
            *final(self) == (QualitySessionState { review_in_flight: false, ..*old(self) }),
            old(self).well_formed() ==> final(self).well_formed(),
    {
        self.review_in_flight = false;
    }

    /// Records the review of the session.
    pub fn complete_review(&mut self)
        ensures
            *final(self) == (QualitySessionState {
                review_in_flight: false,
                review_submitted: true,
                ..*old(self)
            }),
            old(self).well_formed() && old(self).review_in_flight ==> final(self).well_formed(),
    {
        self.review_in_flight = false;
        self.review_submitted = true;
    }
}

/// A session that submitted its review begins neither another full suite nor
/// another review, and a review never begins without a full-suite receipt.
pub proof fn law_quality_reviews_once<A, S>(
    state: QualitySessionState<A, S>,
    recovered: Option<RecoveredQuality<A, S>>,
)
    ensures
        state.review_submitted ==> !state.may_run_full_suite() && state.spec_review_inputs(
            recovered,
        ) == Err::<(A, S), &'static str>(REVIEW_SUBMITTED),
        state.well_formed() && state.spec_review_inputs(recovered) is Ok ==> state.full_suite
            is Some || (recovered is Some && recovered->0.prior_full_suite is Some),
        state.full_suite is Some ==> !state.may_run_full_suite(),
        QualitySessionState::<A, S>::spec_default().well_formed(),
{
}

/// An Engineering session may check its regression exactly before any
/// checkpoint was begun, made or submitted, and may submit exactly once with an
/// accepted one.
pub proof fn law_engineering_steps_are_owed_once<A, C>(state: EngineeringSessionState<A, C>)
    ensures
        state.may_checkpoint() <==> state.checkpoint is None && !state.checkpoint_in_flight
            && !state.submitted,
        state.submission_refusal() is None <==> {
            &&& !state.submitted
            &&& !state.submission_in_flight
            &&& state.authority is Some
            &&& state.checkpoint is Some
        },
        state.submitted || state.submission_in_flight ==> state.submission_refusal() == Some(
            CANDIDATE_SUBMITTED,
        ),
        !state.submitted && !state.submission_in_flight && (state.authority is None
            || state.checkpoint is None) ==> state.submission_refusal() == Some(
            CHECKPOINT_REQUIRED,
        ),
{
}

/// A Quality session may run its suite exactly before one was begun, made or
/// reviewed, and may review exactly once: its own suite, or, where it has
/// neither suite nor authority, one passed before.
pub proof fn law_quality_steps_are_owed_once<A, S>(
    state: QualitySessionState<A, S>,
    recovered: Option<RecoveredQuality<A, S>>,
)
    ensures
        state.may_run_full_suite() <==> state.full_suite is None && !state.full_suite_in_flight
            && !state.review_submitted,
        state.spec_needs_recovery() <==> state.authority is None && state.full_suite is None,
        ({
            let inputs = state.spec_review_inputs(recovered);
            let free = !state.review_submitted && !state.review_in_flight
                && !state.full_suite_in_flight;
            &&& inputs is Ok <==> free && ({
                ||| state.authority is Some && state.full_suite is Some
                ||| state.authority is None && state.full_suite is None && recovered is Some
                    && recovered->0.prior_full_suite is Some
            })
            &&& inputs is Ok && state.full_suite is Some ==> inputs->Ok_0 == (
                state.authority->0,
                state.full_suite->0,
            )
            &&& inputs is Ok && state.full_suite is None ==> inputs->Ok_0 == (
                recovered->0.authority,
                recovered->0.prior_full_suite->0,
            )
            &&& state.review_submitted || state.review_in_flight ==> inputs == Err::<
                (A, S),
                &'static str,
            >(REVIEW_SUBMITTED)
            &&& !state.review_submitted && !state.review_in_flight && state.full_suite_in_flight
                ==> inputs == Err::<(A, S), &'static str>(FULL_SUITE_RUNNING)
            &&& free && state.spec_needs_recovery() && recovered is None ==> inputs == Err::<
                (A, S),
                &'static str,
            >(FULL_SUITE_REQUIRED)
        }),
{
}

} // verus!
