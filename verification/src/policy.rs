//! The backoff policy of a client, and the running schedule of one call.

use vstd::prelude::*;
use std::time::Duration;
use backoff::backoff::Backoff;
use crate::error::OpenAIError;

verus! {

/// The exponential backoff schedule of the `backoff` crate, carried as it is.
#[verifier::external_type_specification]
#[verifier::external_body]
#[verifier::reject_recursive_types(C)]
pub struct ExExponentialBackoff<C>(backoff::exponential::ExponentialBackoff<C>);

/// The system clock of the `backoff` crate.
#[verifier::external_type_specification]
#[verifier::external_body]
pub struct ExSystemClock(backoff::SystemClock);

/// The multiplier that makes a policy, in thousandths: anything above one.
pub open spec fn policy_ok(multiplier_permille: u64) -> bool {
    multiplier_permille > 1000
}

/// How the waits between the attempts of a call grow: from the initial
/// interval, multiplied after each attempt, never beyond the maximum
/// interval, and for no longer than the maximum elapsed time in all.
#[derive(Debug, Clone, Copy)]
pub struct BackoffPolicy {
    initial_interval_millis: u64,
    multiplier_permille: u64,
    max_interval_millis: u64,
    max_elapsed_millis: Option<u64>,
}

impl BackoffPolicy {
    pub closed spec fn spec_initial_interval_millis(&self) -> u64 {
        self.initial_interval_millis
    }

    pub closed spec fn spec_multiplier_permille(&self) -> u64 {
        self.multiplier_permille
    }

    pub closed spec fn spec_max_interval_millis(&self) -> u64 {
        self.max_interval_millis
    }

    pub closed spec fn spec_max_elapsed_millis(&self) -> Option<u64> {
        self.max_elapsed_millis
    }

    /// Every policy holds values that make a policy.
    #[verifier::type_invariant]
    pub closed spec fn valid(&self) -> bool {
        policy_ok(self.multiplier_permille)
    }

    /// The policy that a client starts with: half a second at first, one
    /// and a half times longer after each attempt, a minute at most, and
    /// fifteen minutes in all.
    pub open spec fn is_standard(&self) -> bool {
        &&& self.spec_initial_interval_millis() == 500
        &&& self.spec_multiplier_permille() == 1500
        &&& self.spec_max_interval_millis() == 60_000
        &&& self.spec_max_elapsed_millis() == Some(900_000u64)
    }

    /// A policy of the given values: intervals in milliseconds, the
    /// multiplier in thousandths, and the maximum elapsed time in
    /// milliseconds, or `None` for a call that may wait without end. A
    /// multiplier of one or less is a `ConfigError`.
    pub fn new(
        initial_interval_millis: u64,
        multiplier_permille: u64,
        max_interval_millis: u64,
        max_elapsed_millis: Option<u64>,
    ) -> (r: Result<Self, OpenAIError>)
        ensures
            policy_ok(multiplier_permille) <==> r is Ok,
            r matches Ok(p) ==> {
                &&& p.valid()
                &&& p.spec_initial_interval_millis() == initial_interval_millis
                &&& p.spec_multiplier_permille() == multiplier_permille
                &&& p.spec_max_interval_millis() == max_interval_millis
                &&& p.spec_max_elapsed_millis() == max_elapsed_millis
            },
            r matches Err(e) ==> e is ConfigError,
    {
        if multiplier_permille > 1000 {
            Ok(
                BackoffPolicy {
                    initial_interval_millis,
                    multiplier_permille,
                    max_interval_millis,
                    max_elapsed_millis,
                },
            )
        } else {
            Err(OpenAIError::ConfigError("the multiplier of a backoff policy must be above one".to_owned()))
        }
    }

    pub fn initial_interval_millis(&self) -> (r: u64)
        ensures
            r == self.spec_initial_interval_millis(),
    {
        self.initial_interval_millis
    }

    pub fn multiplier_permille(&self) -> (r: u64)
        ensures
            r == self.spec_multiplier_permille(),
    {
        self.multiplier_permille
    }

    pub fn max_interval_millis(&self) -> (r: u64)
        ensures
            r == self.spec_max_interval_millis(),
    {
        self.max_interval_millis
    }

    pub fn max_elapsed_millis(&self) -> (r: Option<u64>)
        ensures
            r == self.spec_max_elapsed_millis(),
    {
        self.max_elapsed_millis
    }
}

impl Default for BackoffPolicy {
    fn default() -> (r: Self)
        ensures
            r.is_standard(),
            r.valid(),
    {
        BackoffPolicy {
            initial_interval_millis: 500,
            multiplier_permille: 1500,
            max_interval_millis: 60_000,
            max_elapsed_millis: Some(900_000),
        }
    }
}

/// The running schedule of one call. Its only source is [`start_schedule`],
/// so every schedule was made from the values of a policy.
pub struct Schedule {
    inner: backoff::ExponentialBackoff,
    made_from: Ghost<BackoffPolicy>,
}

impl Schedule {
    /// The policy that the schedule was made from.
    pub closed spec fn spec_policy(&self) -> BackoffPolicy {
        self.made_from@
    }
}

/// Builds the schedule of a call with `ExponentialBackoffBuilder`: the
/// policy's intervals and elapsed time as durations, its multiplier as the
/// number that its thousandths stand for, the builder's own randomization
/// factor of one half, and the present moment as its start. The contract
/// records which policy the schedule was made from, and no more.
#[verifier::external_body]
pub(crate) fn start_schedule(policy: &BackoffPolicy) -> (r: Schedule)
    requires
        policy.valid(),
    ensures
        r.spec_policy() == *policy,
{
    let inner = backoff::ExponentialBackoffBuilder::new()
        .with_initial_interval(Duration::from_millis(policy.initial_interval_millis))
        .with_multiplier(Duration::from_millis(policy.multiplier_permille).as_secs_f64())
        .with_max_interval(Duration::from_millis(policy.max_interval_millis))
        .with_max_elapsed_time(policy.max_elapsed_millis.map(Duration::from_millis))
        .build();
    Schedule { inner, made_from: Ghost(*policy) }
}

/// Calls `Backoff::next_backoff`: the delay before the next attempt, or
/// `None` once the schedule's time is used up. The schedule stays that of
/// its policy. Where the policy sets no maximum elapsed time, a delay is
/// always granted; otherwise the answer depends on the clock and on a random
/// number, and nothing is claimed of it. The call adds the delay to the time
/// elapsed since the start, and that sum must stay within a `Duration`. It
/// does for a schedule made by [`start_schedule`]: an interval given in
/// milliseconds is a thousandth of what a `Duration` can hold at most, and
/// with a randomization factor of one half no delay is much longer than one
/// and a half times the interval.
#[verifier::external_body]
pub(crate) fn next_delay(schedule: &mut Schedule) -> (r: Option<Duration>)
    ensures
        final(schedule).spec_policy() == old(schedule).spec_policy(),
        old(schedule).spec_policy().spec_max_elapsed_millis() is None ==> r is Some,
{
    schedule.inner.next_backoff()
}

} // verus!
