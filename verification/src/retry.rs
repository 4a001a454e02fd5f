//! The decisions of a call that is retried while the service limits its rate.
//!
//! The transport sends the request and reports each response to a
//! [`RetryExecutor`], which answers with the final result or with the delay
//! after which the request is to be sent again.

use vstd::prelude::*;
use vstd::string::StringExecFns;
use std::time::Duration;
use crate::error::{ApiError, OpenAIError};
use crate::request::Request;
use crate::policy::{next_delay, start_schedule, BackoffPolicy, Schedule};
use crate::response::{decode, decoded, expected_body_spec, ParsedBody};

verus! {

/// Whether a failure may pass with time.
#[derive(Debug, Clone, Copy, PartialEq, Eq, Structural)]
pub enum Classification {
    /// Expected to succeed if tried again later.
    Transient,
    /// Trying again will not change the outcome.
    Permanent,
}

/// A failure is transient where the status is 429 and the envelope's type is
/// anything but `insufficient_quota`.
pub open spec fn classify_spec(status: u16, error_kind: Seq<char>) -> Classification {
    if status == 429 && error_kind != "insufficient_quota"@ {
        Classification::Transient
    } else {
        Classification::Permanent
    }
}

/// Classifies the failure that a status and an error envelope report.
pub fn classify(status: u16, error: &ApiError) -> (r: Classification)
    ensures
        r == classify_spec(status, error.kind@),
{
    let quota = String::from_str("insufficient_quota");
    if status == 429 && !(error.kind == quota) {
        Classification::Transient
    } else {
        Classification::Permanent
    }
}

/// The response asks for another attempt: the request can be sent again,
/// the envelope parsed, and the failure is transient.
pub open spec fn wants_retry<O>(retryable: bool, status: u16, parsed: ParsedBody<O>) -> bool {
    &&& retryable
    &&& parsed matches ParsedBody::Envelope(Ok(w))
    &&& classify_spec(status, w.error.kind@) == Classification::Transient
}

/// What follows a response.
pub enum Outcome<O> {
    /// The call is over, with this result.
    Finished(Result<O, OpenAIError>),
    /// The request is to be sent again after this delay; the error is the
    /// rate limit that the service reported.
    RetryAfter(Duration, ApiError),
}

/// What follows a rate limit, given the schedule's answer: the delay it
/// granted, or the rate limit as the call's error where it granted none.
pub open spec fn settle_spec<O>(error: ApiError, delay: Option<Duration>) -> Outcome<O> {
    match delay {
        Some(d) => Outcome::RetryAfter(d, error),
        None => Outcome::Finished(Err(OpenAIError::ApiError(error))),
    }
}

/// What follows a response, given what the schedule would answer.
pub open spec fn outcome_spec<O>(
    retryable: bool,
    status: u16,
    parsed: ParsedBody<O>,
    delay: Option<Duration>,
) -> Outcome<O> {
    if wants_retry(retryable, status, parsed) {
        settle_spec(parsed->Envelope_0->Ok_0.error, delay)
    } else {
        Outcome::Finished(decoded(parsed))
    }
}

/// Settles a rate limit with the schedule's answer.
pub fn settle<O>(error: ApiError, delay: Option<Duration>) -> (r: Outcome<O>)
    ensures
        r == settle_spec::<O>(error, delay),
{
    match delay {
        Some(d) => Outcome::RetryAfter(d, error),
        None => Outcome::Finished(Err(OpenAIError::ApiError(error))),
    }
}

/// Drives one logical call to its result.
pub struct RetryExecutor {
    schedule: Schedule,
    retryable: bool,
}

impl RetryExecutor {
    /// Whether the request can be sent more than once.
    pub closed spec fn spec_retryable(&self) -> bool {
        self.retryable
    }

    /// The policy under which the executor grants delays.
    pub closed spec fn spec_policy(&self) -> BackoffPolicy {
        self.schedule.spec_policy()
    }

    /// An executor for one call, with a schedule of its own that starts now
    /// under `policy`. A request that is not duplicable is never sent twice.
    pub fn new(policy: &BackoffPolicy, duplicable: bool) -> (r: Self)
        ensures
            r.spec_retryable() == duplicable,
            r.spec_policy() == *policy,
    {
        proof {
            use_type_invariant(policy);
        }
        RetryExecutor { schedule: start_schedule(policy), retryable: duplicable }
    }

    /// An executor for `request`: it retries where the request is duplicable.
    pub fn for_request(policy: &BackoffPolicy, request: &Request) -> (r: Self)
        ensures
            r.spec_retryable() == request.duplicable_spec(),
            r.spec_policy() == *policy,
    {
        RetryExecutor::new(policy, request.is_duplicable())
    }

    /// Whether the request can be sent more than once.
    pub fn retryable(&self) -> (r: bool)
        ensures
            r == self.spec_retryable(),
    {
        self.retryable
    }

    /// Whether a response asks for another attempt: the request can be sent
    /// again, the envelope parsed, and the failure is transient.
    pub fn asks_retry<O>(&self, status: u16, parsed: &ParsedBody<O>) -> (r: bool)
        ensures
            r == wants_retry(self.spec_retryable(), status, *parsed),
    {
        self.retryable && match parsed {
            ParsedBody::Envelope(Ok(w)) => classify(status, &w.error) == Classification::Transient,
            _ => false,
        }
    }

    /// A failure of the transport is permanent: the call ends with it.
    pub fn on_transport_error<O>(&self, message: String) -> (r: Outcome<O>)
        ensures
            r == Outcome::<O>::Finished(Err(OpenAIError::Reqwest(message))),
    {
        Outcome::Finished(Err(OpenAIError::Reqwest(message)))
    }

    /// Decides what follows a response whose body was parsed as its status
    /// calls for. A success, a permanent failure, an envelope that did not
    /// parse and any response to a request that cannot be sent again end the
    /// call with the decoded result. A transient failure is put to the
    /// schedule: the call goes on after the delay it grants, and ends with
    /// the failure where it grants none. Under a policy without a maximum
    /// elapsed time a delay is always granted.
    pub fn on_response<O>(&mut self, status: u16, parsed: ParsedBody<O>) -> (r: Outcome<O>)
        requires
            parsed.kind() == expected_body_spec(status),
        ensures
            final(self).spec_retryable() == old(self).spec_retryable(),
            final(self).spec_policy() == old(self).spec_policy(),
            (wants_retry(old(self).spec_retryable(), status, parsed) && old(
                self,
            ).spec_policy().spec_max_elapsed_millis() is None) ==> r is RetryAfter,
            !wants_retry(old(self).spec_retryable(), status, parsed) ==> {
                &&& r == Outcome::Finished(decoded(parsed))
                &&& *final(self) == *old(self)
            },
            exists|delay: Option<Duration>|
                r == outcome_spec(old(self).spec_retryable(), status, parsed, delay),
    {
        match parsed {
            ParsedBody::Envelope(Ok(w)) => {
                if self.retryable && classify(status, &w.error) == Classification::Transient {
                    let delay = next_delay(&mut self.schedule);
                    let r = settle(w.error, delay);
                    proof {
                        assert(r == outcome_spec(old(self).spec_retryable(), status, parsed, delay));
                    }
                    r
                } else {
                    let r = Outcome::Finished(Err(OpenAIError::ApiError(w.error)));
                    proof {
                        assert(r == outcome_spec(old(self).spec_retryable(), status, parsed, None));
                    }
                    r
                }
            },
            other => {
                let r = Outcome::Finished(decode(other));
                proof {
                    assert(r == outcome_spec(old(self).spec_retryable(), status, parsed, None));
                }
                r
            },
        }
    }
}

/// One response of a run, with what the schedule would answer if asked.
pub struct Exchange<O> {
    pub status: u16,
    pub parsed: ParsedBody<O>,
    pub delay: Option<Duration>,
}

impl<O> Exchange<O> {
    /// The run goes on after this response.
    pub open spec fn continues(self, retryable: bool) -> bool {
        outcome_spec(retryable, self.status, self.parsed, self.delay) is RetryAfter
    }
}

/// The number of times the request is sent when the responses arrive as
/// `script` has them: one for each response up to the first that ends the
/// call.
pub open spec fn attempts<O>(retryable: bool, script: Seq<Exchange<O>>) -> nat
    decreases script.len(),
{
    if script.len() == 0 {
        0
    } else if script[0].continues(retryable) {
        1 + attempts(retryable, script.drop_first())
    } else {
        1
    }
}

/// The result of the run, if `script` reaches it.
pub open spec fn final_result<O>(retryable: bool, script: Seq<Exchange<O>>) -> Option<
    Result<O, OpenAIError>,
>
    decreases script.len(),
{
    if script.len() == 0 {
        None
    } else if script[0].continues(retryable) {
        final_result(retryable, script.drop_first())
    } else {
        Some(decoded(script[0].parsed))
    }
}

/// A request that cannot be sent again is sent exactly once, whatever the
/// response, and the call's result is that response decoded.
pub proof fn lemma_not_duplicable_once<O>(script: Seq<Exchange<O>>)
    requires
        script.len() > 0,
    ensures
        attempts(false, script) == 1,
        final_result(false, script) == Some(decoded(script[0].parsed)),
{
}

/// No attempt follows a response that does not ask for one: a success, a
/// permanent failure, or an envelope that did not parse at position `i` bounds
/// the attempts by `i + 1`.
pub proof fn lemma_no_retry_after_permanent<O>(retryable: bool, script: Seq<Exchange<O>>, i: int)
    requires
        0 <= i < script.len(),
        !wants_retry(retryable, script[i].status, script[i].parsed),
    ensures
        attempts(retryable, script) <= i + 1,
    decreases i,
{
    if i > 0 && script[0].continues(retryable) {
        let rest = script.drop_first();
        assert(rest[i - 1] == script[i]);
        lemma_no_retry_after_permanent(retryable, rest, i - 1);
    }
}

/// Every attempt but the last follows a delay that the policy granted: the
/// attempts are never more than the responses, and never more than one above
/// the number of leading responses that were granted a delay.
pub proof fn lemma_attempts_need_grants<O>(retryable: bool, script: Seq<Exchange<O>>, i: int)
    requires
        0 <= i < script.len(),
        script[i].delay is None,
    ensures
        attempts(retryable, script) <= i + 1,
        attempts(retryable, script) <= script.len(),
    decreases i,
{
    if i > 0 && script[0].continues(retryable) {
        let rest = script.drop_first();
        assert(rest[i - 1] == script[i]);
        lemma_attempts_need_grants(retryable, rest, i - 1);
    }
}

/// The time that the run spends waiting between attempts, where `length`
/// measures a delay.
pub open spec fn total_wait<O>(
    retryable: bool,
    script: Seq<Exchange<O>>,
    length: spec_fn(Duration) -> nat,
) -> nat
    decreases script.len(),
{
    if script.len() == 0 {
        0
    } else if script[0].continues(retryable) {
        length(script[0].delay->Some_0) + total_wait(retryable, script.drop_first(), length)
    } else {
        0
    }
}

proof fn lemma_attempts_cost_time<O>(
    retryable: bool,
    script: Seq<Exchange<O>>,
    length: spec_fn(Duration) -> nat,
    interval: nat,
)
    requires
        forall|i: int|
            0 <= i < script.len() && (#[trigger] script[i]).delay is Some ==> length(
                script[i].delay->Some_0,
            ) >= interval,
    ensures
        attempts(retryable, script) * interval <= total_wait(retryable, script, length) + interval,
    decreases script.len(),
{
    if script.len() > 0 && script[0].continues(retryable) {
        let rest = script.drop_first();
        assert forall|i: int| 0 <= i < rest.len() && (#[trigger] rest[i]).delay is Some implies length(
            rest[i].delay->Some_0,
        ) >= interval by {
            assert(rest[i] == script[i + 1]);
        }
        lemma_attempts_cost_time(retryable, rest, length, interval);
        let a = attempts(retryable, rest);
        assert((1 + a) * interval == interval + a * interval) by (nonlinear_arith);
    } else if script.len() > 0 {
        assert(1 * interval == interval) by (nonlinear_arith);
    } else {
        assert(0 * interval == 0) by (nonlinear_arith);
    }
}

/// The attempts are bounded by the time the policy allows: where every
/// granted delay lasts at least `interval` and the run waits for less than
/// `max_elapsed` in all, the request is sent at most
/// `ceil(max_elapsed / interval)` times.
pub proof fn lemma_attempts_bounded_by_time<O>(
    retryable: bool,
    script: Seq<Exchange<O>>,
    length: spec_fn(Duration) -> nat,
    interval: nat,
    max_elapsed: nat,
)
    requires
        interval > 0,
        forall|i: int|
            0 <= i < script.len() && (#[trigger] script[i]).delay is Some ==> length(
                script[i].delay->Some_0,
            ) >= interval,
        total_wait(retryable, script, length) < max_elapsed,
    ensures
        attempts(retryable, script) <= (max_elapsed + interval - 1) / (interval as int),
{
    lemma_attempts_cost_time(retryable, script, length, interval);
    let a = attempts(retryable, script) as int;
    let i = interval as int;
    let m = max_elapsed as int;
    assert(a * i <= m + i - 1);
    assert(a <= (m + i - 1) / i) by (nonlinear_arith)
        requires
            i > 0,
            a * i <= m + i - 1,
    ;
}

/// The same bound where the waiting may fill the limit exactly: where every
/// granted delay lasts at least `interval` and the run waits for no more
/// than `max_elapsed` in all, the request is sent at most
/// `max_elapsed / interval + 1` times.
pub proof fn lemma_attempts_bounded_by_time_inclusive<O>(
    retryable: bool,
    script: Seq<Exchange<O>>,
    length: spec_fn(Duration) -> nat,
    interval: nat,
    max_elapsed: nat,
)
    requires
        interval > 0,
        forall|i: int|
            0 <= i < script.len() && (#[trigger] script[i]).delay is Some ==> length(
                script[i].delay->Some_0,
            ) >= interval,
        total_wait(retryable, script, length) <= max_elapsed,
    ensures
        attempts(retryable, script) <= max_elapsed / interval + 1,
{
    lemma_attempts_cost_time(retryable, script, length, interval);
    let a = attempts(retryable, script) as int;
    let i = interval as int;
    let m = max_elapsed as int;
    assert(a * i <= m + i);
    assert(a <= m / i + 1) by (nonlinear_arith)
        requires
            i > 0,
            a * i <= m + i,
    ;
}

/// A 429 whose envelope says `insufficient_quota` ends the call at once,
/// with that error: the request is sent exactly once.
pub proof fn lemma_exhausted_quota_once<O>(retryable: bool, script: Seq<Exchange<O>>)
    requires
        script.len() > 0,
        script[0].status == 429,
        script[0].parsed.error_kind() == Some("insufficient_quota"@),
    ensures
        attempts(retryable, script) == 1,
        final_result(retryable, script) == Some(decoded(script[0].parsed)),
        decoded(script[0].parsed) matches Err(e) && e is ApiError,
{
}

/// A 429 whose envelope says anything but `insufficient_quota` is followed
/// by another attempt, where the request is duplicable and the policy grants
/// a delay.
pub proof fn lemma_rate_limit_retried<O>(script: Seq<Exchange<O>>)
    requires
        script.len() > 1,
        script[0].status == 429,
        script[0].parsed.error_kind() matches Some(kind) && kind != "insufficient_quota"@,
        script[0].delay is Some,
    ensures
        script[0].continues(true),
        attempts(true, script) == 1 + attempts(true, script.drop_first()),
        attempts(true, script) >= 2,
{
    let rest = script.drop_first();
    assert(rest.len() > 0);
    assert(attempts(true, rest) >= 1);
}

} // verus!
