use vstd::prelude::*;

use crate::model::{
    classify_request, invalidate, invalidated, verdict_of, InvalidatedReviewRequest,
    PayloadError, ReviewRequest, Verdict, EXPIRY_SECONDS,
};

verus! {

/// One entry of the pending queue as a sweep reads it: the backend's message
/// id, and the request its payload decoded to (`None` when it did not decode).
#[derive(Clone, Debug, PartialEq, Eq)]
pub struct PendingRow {
    pub msg_id: i64,
    pub record: Option<ReviewRequest>,
}

/// What a sweep does with one pending entry.
#[derive(Clone, Debug, PartialEq, Eq)]
pub enum RowPlan {
    /// Still within its deadline: left in the pending queue.
    Keep,
    /// The payload is corrupt: skipped this tick and left where it is.
    Skip(PayloadError),
    /// Expired: this record goes to the dead-letter queue, and only once
    /// that succeeded is the pending entry deleted.
    Quarantine(InvalidatedReviewRequest),
}

/// The plan for `row` in a sweep that sampled the clock at `now`.
pub open spec fn plan_of(row: PendingRow, now: u64) -> RowPlan {
    match row.record {
        None => RowPlan::Skip(PayloadError::Unreadable),
        Some(req) => match req.timestamp {
            None => RowPlan::Skip(PayloadError::MissingTimestamp),
            Some(t) => if verdict_of(t, now, EXPIRY_SECONDS) == Verdict::Expired {
                RowPlan::Quarantine(invalidated(req, t, now))
            } else {
                RowPlan::Keep
            },
        },
    }
}

/// Decides what a sweep at `now` does with one pending entry.
pub fn plan_row(row: &PendingRow, now: u64) -> (r: RowPlan)
    ensures
        r == plan_of(*row, now),
{
    match &row.record {
        None => RowPlan::Skip(PayloadError::Unreadable),
        Some(req) => match classify_request(req, now) {
            Err(e) => RowPlan::Skip(e),
            Ok(Verdict::Pending) => RowPlan::Keep,
            Ok(Verdict::Expired) => match invalidate(req, now) {
                Ok(inv) => RowPlan::Quarantine(inv),
                Err(e) => RowPlan::Skip(e),
            },
        },
    }
}

/// Plans a whole tick: every entry read is judged against the same `now`,
/// and the plans come back in the order of the entries.
pub fn plan_tick(rows: &Vec<PendingRow>, now: u64) -> (r: Vec<RowPlan>)
    ensures
        r@.len() == rows@.len(),
        forall|i: int| 0 <= i < rows@.len() ==> #[trigger] r@[i] == plan_of(rows@[i], now),
{
    let mut plans: Vec<RowPlan> = Vec::new();
    let mut i: usize = 0;
    while i < rows.len()
        invariant
            i <= rows@.len(),
            plans@.len() == i,
            forall|j: int| 0 <= j < i ==> #[trigger] plans@[j] == plan_of(rows@[j], now),
        decreases rows@.len() - i,
    {
        plans.push(plan_row(&rows[i], now));
        i = i + 1;
    }
    plans
}

/// The delete that follows a quarantine send, if any: none when the send
/// failed, so that a later tick retries the whole move.
pub open spec fn delete_after(sent: bool, msg_id: i64) -> Option<i64> {
    if sent {
        Some(msg_id)
    } else {
        None
    }
}

/// Decides whether the pending entry `msg_id` is deleted once its quarantine
/// send has returned, `sent` telling whether it succeeded.
pub fn after_quarantine(sent: bool, msg_id: i64) -> (r: Option<i64>)
    ensures
        r == delete_after(sent, msg_id),
{
    if sent {
        Some(msg_id)
    } else {
        None
    }
}

} // verus!
