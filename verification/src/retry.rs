//! The bounded retry policy that drives a batch of domains, as a state
//! machine: the state says which domain is next and how often it has
//! failed, the caller makes each attempt and hands back how it ended.

use vstd::prelude::*;
use crate::error::KnockKnockError;
use crate::record::RegistrationRecord;
use crate::report::{report_record, reported, DomainReport};
use crate::time::Timestamp;

verus! {

/// How often one domain is attempted at most.
pub const MAX_ATTEMPTS: u32 = 3;

/// Where a batch of `domain_count` domains stands.
#[derive(Debug, Clone, Copy, PartialEq, Eq)]
pub struct RetryState {
    /// How many domains the batch has.
    pub domain_count: usize,
    /// The domain that is attempted next.
    pub current_index: usize,
    /// The domain whose header was announced last, if any was.
    pub last_started_index: Option<usize>,
    /// How many attempts on the current domain have failed so far.
    pub retry_count: u32,
}

/// What the caller does next.
#[derive(Debug, Clone, Copy, PartialEq, Eq)]
pub enum Action {
    /// Resolve the domain at `index`; where `announce` is set, this is the
    /// first attempt on it and its header is shown before.
    Attempt { index: usize, announce: bool },
    /// Every domain has its report.
    Finish,
}

/// How one attempt ended: with a record, or with the error it was
/// classified as.
pub type Outcome = Result<RegistrationRecord, KnockKnockError>;

impl RetryState {
    /// The state before the first attempt of a batch.
    pub open spec fn initial(domain_count: usize) -> RetryState {
        RetryState { domain_count, current_index: 0, last_started_index: None, retry_count: 0 }
    }

    /// What holds of every state that a batch reaches from its start.
    pub open spec fn well_formed(self) -> bool {
        &&& self.current_index <= self.domain_count
        &&& self.retry_count < MAX_ATTEMPTS
        &&& self.retry_count > 0 ==> self.last_started_index == Some(self.current_index)
    }

    /// Whether every domain has its report.
    pub open spec fn finished(self) -> bool {
        self.current_index >= self.domain_count
    }

    /// Whether the next attempt is the first on its domain.
    pub open spec fn first_visit(self) -> bool {
        self.last_started_index != Some(self.current_index)
    }

    /// The attempts that the batch can still take at most.
    pub open spec fn attempts_left(self) -> int {
        (self.domain_count - self.current_index) * MAX_ATTEMPTS - self.retry_count
    }

    /// What the caller does next in this state.
    pub open spec fn action(self) -> Action {
        if self.finished() {
            Action::Finish
        } else {
            Action::Attempt { index: self.current_index, announce: self.first_visit() }
        }
    }

    /// The state once the next attempt has begun: on the first visit to a
    /// domain it is marked as started and its failures count from zero.
    pub open spec fn started(self) -> RetryState {
        if !self.finished() && self.first_visit() {
            RetryState {
                last_started_index: Some(self.current_index),
                retry_count: 0,
                ..self
            }
        } else {
            self
        }
    }

    /// The state once the current domain has its report: the next domain
    /// is current, and nothing has failed on it.
    pub open spec fn advanced(self) -> RetryState {
        RetryState { current_index: (self.current_index + 1) as usize, retry_count: 0, ..self }
    }

    /// Whether an attempt that ends in `outcome` is the last on the current
    /// domain: it succeeded, the domain was not found, or the attempts are
    /// used up.
    pub open spec fn settles(self, outcome: Outcome) -> bool {
        match outcome {
            Ok(_) => true,
            Err(error) => !error.retryable() || self.started().retry_count + 1 >= MAX_ATTEMPTS,
        }
    }

    /// The state after an attempt on the current domain has ended in
    /// `outcome`. The attempt counts as begun, whether or not the state
    /// was asked for its action before. A finished batch stays as it is.
    pub open spec fn after(self, outcome: Outcome) -> RetryState {
        if self.finished() {
            self
        } else if self.settles(outcome) {
            self.started().advanced()
        } else {
            RetryState { retry_count: (self.started().retry_count + 1) as u32, ..self.started() }
        }
    }

    /// The report, if any, that an attempt brings which ended in `outcome`
    /// at the time `now`.
    pub open spec fn report_after(self, outcome: Outcome, now: Timestamp) -> Option<DomainReport> {
        if self.finished() || !self.settles(outcome) {
            None
        } else {
            Some(
                match outcome {
                    Ok(record) => reported(record, now),
                    Err(error) => if error.retryable() {
                        DomainReport::LookupFailed { error }
                    } else {
                        DomainReport::NotRegistered
                    },
                },
            )
        }
    }

    /// The state before the first attempt of a batch of `domain_count`
    /// domains.
    pub fn new(domain_count: usize) -> (state: RetryState)
        ensures
            state == RetryState::initial(domain_count),
            state.well_formed(),
    {
        RetryState { domain_count, current_index: 0, last_started_index: None, retry_count: 0 }
    }

    /// Tells whether every domain has its report.
    pub fn is_finished(&self) -> (finished: bool)
        ensures
            finished == self.finished(),
    {
        self.current_index >= self.domain_count
    }

    /// Marks the current domain as started and tells whether this is the
    /// first visit to it.
    fn begin(&mut self) -> (first_visit: bool)
        ensures
            *final(self) == old(self).started(),
            first_visit == (!old(self).finished() && old(self).first_visit()),
    {
        if self.current_index >= self.domain_count {
            return false;
        }
        let first_visit = match self.last_started_index {
            Some(index) => index != self.current_index,
            None => true,
        };
        if first_visit {
            self.last_started_index = Some(self.current_index);
            self.retry_count = 0;
        }
        first_visit
    }

    /// Says what to do next and begins it: a batch that is not finished
    /// attempts its current domain, and announces it on the first visit.
    pub fn next_action(&mut self) -> (action: Action)
        ensures
            action == old(self).action(),
            *final(self) == old(self).started(),
    {
        if self.current_index >= self.domain_count {
            Action::Finish
        } else {
            let announce = self.begin();
            Action::Attempt { index: self.current_index, announce }
        }
    }

    /// Takes in how the attempt on the current domain ended, at the time
    /// `now`. A record settles the domain, and so does "domain not found",
    /// which reports it as not registered. Any other error is a failed
    /// attempt: the domain is tried again, until the last attempt allowed
    /// has failed and the lookup is reported as failed. With the report
    /// the batch moves on to the next domain.
    pub fn finish_attempt(&mut self, outcome: Outcome, now: Timestamp) -> (report: Option<
        DomainReport,
    >)
        ensures
            *final(self) == old(self).after(outcome),
            report == old(self).report_after(outcome, now),
    {
        if self.current_index >= self.domain_count {
            return None;
        }
        self.begin();
        let report = match outcome {
            Ok(record) => Some(report_record(&record, now)),
            Err(error) => {
                if !error.is_retryable() {
                    Some(DomainReport::NotRegistered)
                } else if self.retry_count >= MAX_ATTEMPTS - 1 {
                    Some(DomainReport::LookupFailed { error })
                } else {
                    None
                }
            },
        };
        if report.is_some() {
            self.current_index = self.current_index + 1;
            self.retry_count = 0;
        } else {
            self.retry_count = self.retry_count + 1;
        }
        report
    }
}

/// The state and the reports that a batch has after its attempts have
/// ended as `attempts` tells, each with the time at which it ended.
pub open spec fn run(state: RetryState, attempts: Seq<(Outcome, Timestamp)>) -> (
    RetryState,
    Seq<DomainReport>,
)
    decreases attempts.len(),
{
    if attempts.len() == 0 {
        (state, Seq::empty())
    } else {
        let (before, reports) = run(state, attempts.drop_last());
        let (outcome, now) = attempts.last();
        (
            before.after(outcome),
            match before.report_after(outcome, now) {
                Some(report) => reports.push(report),
                None => reports,
            },
        )
    }
}

/// A domain that is not found is reported as not registered by the very
/// attempt that says so: on the first attempt no retry has been counted,
/// and none is counted for it. The batch moves on to the next domain.
pub proof fn not_found_settles_at_once(state: RetryState, now: Timestamp)
    requires
        !state.finished(),
    ensures
        ({
            let outcome: Outcome = Err(KnockKnockError::DomainNotFound);
            &&& state.first_visit() ==> state.started().retry_count == 0
            &&& state.report_after(outcome, now) == Some(DomainReport::NotRegistered)
            &&& state.after(outcome).current_index == state.current_index + 1
            &&& state.after(outcome).retry_count == 0
        }),
{
}

/// A record settles its domain on the attempt that brings it, with the
/// report read off the record.
pub proof fn record_settles_at_once(state: RetryState, record: RegistrationRecord, now: Timestamp)
    requires
        !state.finished(),
    ensures
        ({
            let outcome: Outcome = Ok(record);
            &&& state.report_after(outcome, now) == Some(reported(record, now))
            &&& state.after(outcome).current_index == state.current_index + 1
            &&& state.after(outcome).retry_count == 0
        }),
{
}

/// A domain whose attempts all fail with an error other than "domain not
/// found" is attempted three times and no more: the first two failures
/// bring no report and leave the domain current, the third reports the
/// lookup as failed, with its error, and the batch goes on with the next
/// domain, or is finished where there is none.
pub proof fn persistent_failure_gives_up_after_three(
    state: RetryState,
    first: KnockKnockError,
    second: KnockKnockError,
    third: KnockKnockError,
    now: Timestamp,
)
    requires
        !state.finished(),
        state.first_visit(),
        first.retryable(),
        second.retryable(),
        third.retryable(),
    ensures
        ({
            let index = state.current_index;
            let once = state.after(Err(first));
            let twice = once.after(Err(second));
            let thrice = twice.after(Err(third));
            &&& state.action() == Action::Attempt { index, announce: true }
            &&& state.report_after(Err(first), now) is None
            &&& once.action() == Action::Attempt { index, announce: false }
            &&& once.report_after(Err(second), now) is None
            &&& twice.action() == Action::Attempt { index, announce: false }
            &&& twice.report_after(Err(third), now) == Some(
                DomainReport::LookupFailed { error: third },
            )
            &&& thrice.current_index == index + 1
            &&& thrice.retry_count == 0
            &&& thrice.action() == if index + 1 < state.domain_count {
                Action::Attempt { index: (index + 1) as usize, announce: true }
            } else {
                Action::Finish
            }
        }),
{
}

/// No report says more than the attempt told: a domain is reported as
/// not registered only where a record or the server said so, and a failed
/// lookup only where the last attempt allowed failed with an error that
/// could have been tried again. An error is never passed off as "not
/// registered".
pub proof fn reports_are_honest(state: RetryState, outcome: Outcome, now: Timestamp)
    ensures
        ({
            let report = state.report_after(outcome, now);
            let not_found: Outcome = Err(KnockKnockError::DomainNotFound);
            &&& report == Some(DomainReport::NotRegistered) ==> outcome == not_found || (outcome
                is Ok && !outcome.unwrap().is_registered)
            &&& report is Some && report.unwrap() is LookupFailed ==> outcome is Err
                && outcome.unwrap_err() == report.unwrap()->error
                && outcome.unwrap_err().retryable() && state.started().retry_count + 1
                >= MAX_ATTEMPTS
            &&& outcome is Ok && !state.finished() ==> report == Some(
                reported(outcome.unwrap(), now),
            )
        }),
{
}

/// Asking for the action changes nothing that an attempt goes by: the
/// attempt ends in the same state and report with or without it.
pub proof fn asking_does_not_count(state: RetryState, outcome: Outcome, now: Timestamp)
    ensures
        state.started().after(outcome) == state.after(outcome),
        state.started().report_after(outcome, now) == state.report_after(outcome, now),
        state.started().started() == state.started(),
        state.well_formed() ==> state.started().well_formed(),
{
}

/// Every attempt of a batch that is not finished uses up one of the
/// attempts left, and it brings a report exactly when it moves the batch
/// on by one domain; else the same domain stays current.
pub proof fn attempt_makes_progress(state: RetryState, outcome: Outcome, now: Timestamp)
    requires
        state.well_formed(),
        !state.finished(),
    ensures
        ({
            let next = state.after(outcome);
            let report = state.report_after(outcome, now);
            &&& next.well_formed()
            &&& next.domain_count == state.domain_count
            &&& next.attempts_left() < state.attempts_left()
            &&& state.attempts_left() >= 1
            &&& report is Some <==> next.current_index == state.current_index + 1
            &&& report is None <==> next.current_index == state.current_index
        }),
{
}

/// A batch reports each domain once, in the order of the list: after any
/// number of attempts there is one report for each domain before the
/// current one, and none else. It needs at most three attempts for each
/// domain: once that many have been made, every domain has its report.
pub proof fn batch_reports_each_domain_once(
    domain_count: usize,
    attempts: Seq<(Outcome, Timestamp)>,
)
    ensures
        ({
            let (end, reports) = run(RetryState::initial(domain_count), attempts);
            &&& end.well_formed()
            &&& end.domain_count == domain_count
            &&& reports.len() == end.current_index
            &&& end.finished() || end.attempts_left() + attempts.len() <= domain_count
                * MAX_ATTEMPTS
            &&& attempts.len() >= domain_count * MAX_ATTEMPTS ==> end.finished() && reports.len()
                == domain_count
        }),
    decreases attempts.len(),
{
    if attempts.len() > 0 {
        batch_reports_each_domain_once(domain_count, attempts.drop_last());
        let (before, reports) = run(RetryState::initial(domain_count), attempts.drop_last());
        let (outcome, now) = attempts.last();
        if !before.finished() {
            attempt_makes_progress(before, outcome, now);
        }
    }
}

} // verus!
