use vstd::prelude::*;

verus! {

/// Seconds of age after which a pending request is expired.
pub const EXPIRY_SECONDS: u64 = 30;

/// Seconds between two sweeps of the pending queue.
pub const SWEEP_INTERVAL_SECONDS: u64 = 10;

/// A request for review as it travels through the pending queue.
///
/// `timestamp` is the moment the request entered the queue; it is absent only
/// in a payload that a client sent and the server has not stamped yet.
#[derive(Clone, Debug, PartialEq, Eq)]
pub struct ReviewRequest {
    pub user_id: i32,
    pub message: String,
    pub timestamp: Option<u64>,
}

/// A request that expired unreviewed and was moved to the dead-letter queue.
#[derive(Clone, Debug, PartialEq, Eq)]
pub struct InvalidatedReviewRequest {
    pub user_id: i32,
    pub message: String,
    pub timestamp: u64,
    pub invalidated_at: u64,
}

impl InvalidatedReviewRequest {
    /// The record was invalidated no earlier than it was submitted.
    pub open spec fn wf(&self) -> bool {
        self.invalidated_at >= self.timestamp
    }
}

/// Outcome of judging a pending request's age.
#[derive(Clone, Copy, Debug, PartialEq, Eq, Structural)]
pub enum Verdict {
    Pending,
    Expired,
}

/// Why a stored payload cannot be treated as a pending request.
#[derive(Clone, Copy, Debug, PartialEq, Eq, Structural)]
pub enum PayloadError {
    /// The payload could not be decoded into a request at all.
    Unreadable,
    /// The payload decoded but carries no submission time.
    MissingTimestamp,
}

/// True when a request stamped at `timestamp` is older than `ttl` at `now`.
pub open spec fn is_expired(timestamp: u64, now: u64, ttl: u64) -> bool {
    now as int - timestamp as int > ttl as int
}

pub open spec fn verdict_of(timestamp: u64, now: u64, ttl: u64) -> Verdict {
    if is_expired(timestamp, now, ttl) {
        Verdict::Expired
    } else {
        Verdict::Pending
    }
}

/// Judges a request stamped at `timestamp` against the instant `now`.
/// A timestamp later than `now` (a clock that went back) counts as fresh.
pub fn classify(timestamp: u64, now: u64, ttl: u64) -> (r: Verdict)
    ensures
        r == verdict_of(timestamp, now, ttl),
{
    if now > timestamp && now - timestamp > ttl {
        Verdict::Expired
    } else {
        Verdict::Pending
    }
}

/// The request as it is stored on submission: the server's clock replaces
/// whatever time the client sent.
pub open spec fn stamped(req: ReviewRequest, now: u64) -> ReviewRequest {
    ReviewRequest { timestamp: Some(now), ..req }
}

/// Stamps a submitted request with the server's current time `now`.
pub fn stamp(req: ReviewRequest, now: u64) -> (r: ReviewRequest)
    ensures
        r == stamped(req, now),
{
    ReviewRequest { user_id: req.user_id, message: req.message, timestamp: Some(now) }
}

/// Reads the submission time of a request taken from the pending queue; a
/// request without one is corrupt state, not a request stamped at zero.
pub fn pending_timestamp(req: &ReviewRequest) -> (r: Result<u64, PayloadError>)
    ensures
        match req.timestamp {
            Some(t) => r == Ok::<u64, PayloadError>(t),
            None => r == Err::<u64, PayloadError>(PayloadError::MissingTimestamp),
        },
{
    match req.timestamp {
        Some(t) => Ok(t),
        None => Err(PayloadError::MissingTimestamp),
    }
}

/// Judges a request taken from the pending queue at the instant `now`.
pub fn classify_request(req: &ReviewRequest, now: u64) -> (r: Result<Verdict, PayloadError>)
    ensures
        match req.timestamp {
            Some(t) => r == Ok::<Verdict, PayloadError>(verdict_of(t, now, EXPIRY_SECONDS)),
            None => r == Err::<Verdict, PayloadError>(PayloadError::MissingTimestamp),
        },
{
    match pending_timestamp(req) {
        Ok(t) => Ok(classify(t, now, EXPIRY_SECONDS)),
        Err(e) => Err(e),
    }
}

/// The dead-letter form of `req`, stamped at `timestamp` and invalidated at `now`.
pub open spec fn invalidated(req: ReviewRequest, timestamp: u64, now: u64) -> InvalidatedReviewRequest {
    InvalidatedReviewRequest {
        user_id: req.user_id,
        message: req.message,
        timestamp,
        invalidated_at: now,
    }
}

/// Builds the dead-letter record of a request judged expired at `now`.
pub fn invalidate(req: &ReviewRequest, now: u64) -> (r: Result<InvalidatedReviewRequest, PayloadError>)
    ensures
        match req.timestamp {
            Some(t) => r == Ok::<InvalidatedReviewRequest, PayloadError>(invalidated(*req, t, now)),
            None => r == Err::<InvalidatedReviewRequest, PayloadError>(PayloadError::MissingTimestamp),
        },
{
    match pending_timestamp(req) {
        Ok(t) => Ok(
            InvalidatedReviewRequest {
                user_id: req.user_id,
                message: req.message.clone(),
                timestamp: t,
                invalidated_at: now,
            },
        ),
        Err(e) => Err(e),
    }
}

} // verus!
