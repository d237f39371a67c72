//! Response classification and the decisions of the retry loop.
//!
//! A call is a sequence of attempts, run one at a time by the caller: build
//! the request, send it, read the response. After each attempt the caller
//! reports what happened as an [`AttemptEvent`], and [`RetryLoop::step`]
//! answers with what to do next: wait and try again, or finish with a result.
//! Only a rate-limited response (HTTP 429) is retried, and only while the
//! backoff policy hands out another interval.
use vstd::prelude::*;
use std::time::Duration;
use crate::error::{ApiError, StabilityAIError};
use crate::policy::RetryPolicy;

verus! {

/// Status codes of a successful response, `[200, 300)`.
pub open spec fn is_success_status(status: u16) -> bool {
    200 <= status && status < 300
}

/// The status by which the API says a client is rate limited.
pub const TOO_MANY_REQUESTS: u16 = 429;

/// Whether a response with this status is to be decoded into the expected
/// payload (otherwise into an [`ApiError`]).
pub fn expects_payload(status: u16) -> (r: bool)
    ensures
        r == is_success_status(status),
{
    200 <= status && status < 300
}

/// What decoding a response body gave.
pub enum Reply<T> {
    /// A successful response decoded into the expected payload.
    Payload(T),
    /// A failed response decoded into the API's error object.
    ApiError(ApiError),
    /// The body could not be decoded; holds what the decoder reported.
    Undecodable(String),
}

/// A reply is of the kind that the status asks for.
pub open spec fn reply_fits<T>(status: u16, reply: Reply<T>) -> bool {
    match reply {
        Reply::Payload(_) => is_success_status(status),
        Reply::ApiError(_) => !is_success_status(status),
        Reply::Undecodable(_) => true,
    }
}

/// How a response ends an attempt.
pub enum Outcome<T> {
    Success(T),
    /// The only recoverable failure: HTTP 429 with a well-formed error body.
    RateLimited(ApiError),
    Failure(StabilityAIError),
}

pub open spec fn classify_spec<T>(status: u16, body: Vec<u8>, reply: Reply<T>) -> Outcome<T> {
    match reply {
        Reply::Payload(t) => Outcome::Success(t),
        Reply::ApiError(e) => if status == TOO_MANY_REQUESTS {
            Outcome::RateLimited(e)
        } else {
            Outcome::Failure(StabilityAIError::ApiError(e))
        },
        Reply::Undecodable(reason) => Outcome::Failure(
            StabilityAIError::JSONDeserialize { reason, body },
        ),
    }
}

/// Classifies a response by its status and decoded body: a decoded payload
/// is a success; an error object is rate limiting for 429 and a terminal API
/// error otherwise; a body that could not be decoded, of either kind, is a
/// terminal deserialization error that keeps the body.
pub fn classify<T>(status: u16, body: Vec<u8>, reply: Reply<T>) -> (r: Outcome<T>)
    requires
        reply_fits(status, reply),
    ensures
        r == classify_spec(status, body, reply),
{
    match reply {
        Reply::Payload(t) => Outcome::Success(t),
        Reply::ApiError(e) => if status == TOO_MANY_REQUESTS {
            Outcome::RateLimited(e)
        } else {
            Outcome::Failure(StabilityAIError::ApiError(e))
        },
        Reply::Undecodable(reason) => Outcome::Failure(
            StabilityAIError::JSONDeserialize { reason, body },
        ),
    }
}

/// What happened in one attempt.
pub enum AttemptEvent<T> {
    /// The request could not be built (a file could not be read, an argument
    /// is invalid); nothing was sent.
    BuildFailed(StabilityAIError),
    /// The request was sent and the transport failed; holds its description.
    TransportFailed(String),
    /// The request was sent and a response came back.
    Responded { status: u16, body: Vec<u8>, reply: Reply<T> },
}

pub open spec fn event_fits<T>(ev: AttemptEvent<T>) -> bool {
    match ev {
        AttemptEvent::Responded { status, body, reply } => reply_fits(status, reply),
        _ => true,
    }
}

/// What the caller does next.
pub enum RetryAction<T> {
    /// Wait this long, then make another attempt.
    Retry(Duration),
    /// Stop with this result.
    Finish(Result<T, StabilityAIError>),
}

/// The state of one call: how many requests were sent, and whether it is over.
#[derive(Debug, Clone, Copy, PartialEq, Eq, Structural)]
pub struct RetryLoop {
    pub sends: u64,
    pub finished: bool,
}

/// After a rate-limited response: retry after the interval the policy
/// handed out, or, when it handed out none, fail with the rate-limit error.
pub open spec fn after_rate_limit_spec<T>(delay: Option<Duration>, e: ApiError) -> RetryAction<T> {
    match delay {
        Some(d) => RetryAction::Retry(d),
        None => RetryAction::Finish(Err(StabilityAIError::ApiError(e))),
    }
}

pub open spec fn action_of<T>(o: Outcome<T>, delay: Option<Duration>) -> RetryAction<T> {
    match o {
        Outcome::Success(t) => RetryAction::Finish(Ok(t)),
        Outcome::Failure(e) => RetryAction::Finish(Err(e)),
        Outcome::RateLimited(e) => after_rate_limit_spec(delay, e),
    }
}

/// One step of the loop, given the interval the policy hands out if it is asked.
pub open spec fn step_spec<T>(s: RetryLoop, ev: AttemptEvent<T>, delay: Option<Duration>) -> (
    RetryLoop,
    RetryAction<T>,
) {
    match ev {
        AttemptEvent::BuildFailed(e) => (
            RetryLoop { sends: s.sends, finished: true },
            RetryAction::Finish(Err(e)),
        ),
        AttemptEvent::TransportFailed(m) => (
            RetryLoop { sends: (s.sends + 1) as u64, finished: true },
            RetryAction::Finish(Err(StabilityAIError::Reqwest(m))),
        ),
        AttemptEvent::Responded { status, body, reply } => {
            let a = action_of(classify_spec(status, body, reply), delay);
            (RetryLoop { sends: (s.sends + 1) as u64, finished: a is Finish }, a)
        },
    }
}

/// What the next step of a loop in state `s` may do on event `ev`, for
/// whichever interval the policy hands out.
pub open spec fn step_allows<T>(
    s: RetryLoop,
    ev: AttemptEvent<T>,
    s2: RetryLoop,
    act: RetryAction<T>,
) -> bool {
    exists|delay: Option<Duration>| #[trigger] step_spec(s, ev, delay) == (s2, act)
}

/// Decides what follows a rate-limited response, from the interval the
/// backoff policy handed out (`None` once its budget is spent).
pub fn after_rate_limit<T>(delay: Option<Duration>, e: ApiError) -> (r: RetryAction<T>)
    ensures
        r == after_rate_limit_spec::<T>(delay, e),
{
    match delay {
        Some(d) => RetryAction::Retry(d),
        None => RetryAction::Finish(Err(StabilityAIError::ApiError(e))),
    }
}

impl RetryLoop {
    /// A call before its first attempt.
    pub fn new() -> (r: RetryLoop)
        ensures
            r == (RetryLoop { sends: 0, finished: false }),
    {
        RetryLoop { sends: 0, finished: false }
    }

    /// Records the outcome of one attempt and decides what follows. The
    /// backoff policy is consulted only after a rate-limited response.
    pub fn step<T>(&mut self, policy: &mut RetryPolicy, event: AttemptEvent<T>) -> (r:
        RetryAction<T>)
        requires
            !old(self).finished,
            old(self).sends < u64::MAX,
            event_fits(event),
        ensures
            step_allows(*old(self), event, *final(self), r),
    {
        let ghost ev = event;
        let ghost s0 = *self;
        match event {
            AttemptEvent::BuildFailed(e) => {
                self.finished = true;
                let r = RetryAction::Finish(Err(e));
                assert(step_spec(s0, ev, None) == (*self, r));
                r
            },
            AttemptEvent::TransportFailed(m) => {
                self.sends = self.sends + 1;
                self.finished = true;
                let r = RetryAction::Finish(Err(StabilityAIError::Reqwest(m)));
                assert(step_spec(s0, ev, None) == (*self, r));
                r
            },
            AttemptEvent::Responded { status, body, reply } => {
                self.sends = self.sends + 1;
                match classify(status, body, reply) {
                    Outcome::Success(t) => {
                        self.finished = true;
                        let r = RetryAction::Finish(Ok(t));
                        assert(step_spec(s0, ev, None) == (*self, r));
                        r
                    },
                    Outcome::Failure(e) => {
                        self.finished = true;
                        let r = RetryAction::Finish(Err(e));
                        assert(step_spec(s0, ev, None) == (*self, r));
                        r
                    },
                    Outcome::RateLimited(e) => {
                        let delay = policy.next_interval();
                        let r = after_rate_limit(delay, e);
                        self.finished = match r {
                            RetryAction::Retry(_) => false,
                            RetryAction::Finish(_) => true,
                        };
                        assert(step_spec(s0, ev, delay) == (*self, r));
                        r
                    },
                }
            },
        }
    }

    /// Whether the call is over.
    pub fn is_finished(&self) -> (r: bool)
        ensures
            r == self.finished,
    {
        self.finished
    }
}

/// A rate-limited response (429 with a well-formed error body) is retried:
/// it counts as one send and, whenever the policy hands out an interval, the
/// call stays open and the caller waits exactly that interval before sending
/// again. Only once the policy's budget is spent does the call finish, with
/// the rate-limit error itself.
pub proof fn lemma_rate_limited_is_retried<T>(
    s: RetryLoop,
    body: Vec<u8>,
    e: ApiError,
    s2: RetryLoop,
    act: RetryAction<T>,
)
    requires
        s.sends < u64::MAX,
        step_allows(
            s,
            AttemptEvent::<T>::Responded { status: TOO_MANY_REQUESTS, body, reply: Reply::ApiError(e) },
            s2,
            act,
        ),
    ensures
        s2.sends == s.sends + 1,
        act is Retry <==> !s2.finished,
        act is Finish ==> act == RetryAction::<T>::Finish(Err(StabilityAIError::ApiError(e))),
{
    let ev = AttemptEvent::<T>::Responded { status: TOO_MANY_REQUESTS, body, reply: Reply::ApiError(e) };
    let d = choose|d: Option<Duration>| #[trigger] step_spec(s, ev, d) == (s2, act);
    assert(step_spec(s, ev, d) == (s2, act));
}

/// A failed response other than 429 whose body is a well-formed error object
/// ends the call after its first send, with an API error equal to that object.
pub proof fn lemma_api_error_is_terminal<T>(
    status: u16,
    body: Vec<u8>,
    e: ApiError,
    s2: RetryLoop,
    act: RetryAction<T>,
)
    requires
        !is_success_status(status),
        status != TOO_MANY_REQUESTS,
        step_allows(
            RetryLoop { sends: 0, finished: false },
            AttemptEvent::<T>::Responded { status, body, reply: Reply::ApiError(e) },
            s2,
            act,
        ),
    ensures
        s2 == (RetryLoop { sends: 1, finished: true }),
        act == RetryAction::<T>::Finish(Err(StabilityAIError::ApiError(e))),
{
    let s = RetryLoop { sends: 0, finished: false };
    let ev = AttemptEvent::<T>::Responded { status, body, reply: Reply::ApiError(e) };
    let d = choose|d: Option<Duration>| #[trigger] step_spec(s, ev, d) == (s2, act);
    assert(step_spec(s, ev, d) == (s2, act));
}

/// A successful response whose body cannot be decoded ends the call after its
/// first send, with a deserialization error that carries the body as received.
pub proof fn lemma_undecodable_payload_is_terminal<T>(
    status: u16,
    body: Vec<u8>,
    reason: String,
    s2: RetryLoop,
    act: RetryAction<T>,
)
    requires
        is_success_status(status),
        step_allows(
            RetryLoop { sends: 0, finished: false },
            AttemptEvent::<T>::Responded { status, body, reply: Reply::Undecodable(reason) },
            s2,
            act,
        ),
    ensures
        s2 == (RetryLoop { sends: 1, finished: true }),
        act == RetryAction::<T>::Finish(Err(StabilityAIError::JSONDeserialize { reason, body })),
{
    let s = RetryLoop { sends: 0, finished: false };
    let ev = AttemptEvent::<T>::Responded { status, body, reply: Reply::Undecodable(reason) };
    let d = choose|d: Option<Duration>| #[trigger] step_spec(s, ev, d) == (s2, act);
    assert(step_spec(s, ev, d) == (s2, act));
}

/// A request that cannot be built because a file could not be read ends the
/// call at once, at whichever attempt it happens, with that error and
/// without sending anything more: it is never retried.
pub proof fn lemma_file_read_failure_is_terminal<T>(
    s: RetryLoop,
    m: String,
    s2: RetryLoop,
    act: RetryAction<T>,
)
    requires
        step_allows(s, AttemptEvent::<T>::BuildFailed(StabilityAIError::FileReadError(m)), s2, act),
    ensures
        s2 == (RetryLoop { sends: s.sends, finished: true }),
        act == RetryAction::<T>::Finish(Err(StabilityAIError::FileReadError(m))),
{
    let ev = AttemptEvent::<T>::BuildFailed(StabilityAIError::FileReadError(m));
    let d = choose|d: Option<Duration>| #[trigger] step_spec(s, ev, d) == (s2, act);
    assert(step_spec(s, ev, d) == (s2, act));
}

} // verus!
