use vstd::prelude::*;

use crate::model::{invalidated, is_expired, InvalidatedReviewRequest, ReviewRequest, EXPIRY_SECONDS};
use crate::sweep::{delete_after, plan_of, PendingRow, RowPlan};
use crate::withdraw::{lemma_pick_first, lemma_pick_none, owned_by, withdraw_pick};

verus! {

broadcast use vstd::seq_lib::group_filter_ensures;

/// The pending queue once every entry with id `msg_id` is deleted.
pub open spec fn removed(pending: Seq<PendingRow>, msg_id: i64) -> Seq<PendingRow> {
    pending.filter(|r: PendingRow| r.msg_id != msg_id)
}

/// The pending queue after the delete `target` (if any) was issued and
/// succeeded (`ok`) or failed.
pub open spec fn after_delete(pending: Seq<PendingRow>, target: Option<i64>, ok: bool) -> Seq<
    PendingRow,
> {
    match target {
        Some(id) => if ok {
            removed(pending, id)
        } else {
            pending
        },
        None => pending,
    }
}

/// The dead-letter queue after `rec` was sent to it, the send succeeding (`ok`)
/// or failing.
pub open spec fn after_send(dead: Seq<InvalidatedReviewRequest>, rec: InvalidatedReviewRequest, ok: bool) -> Seq<
    InvalidatedReviewRequest,
> {
    if ok {
        dead.push(rec)
    } else {
        dead
    }
}

/// The pending and dead-letter queues after a sweep at `now` handled `row`,
/// with the outcomes of its quarantine send and of its delete.
pub open spec fn row_step(
    pending: Seq<PendingRow>,
    dead: Seq<InvalidatedReviewRequest>,
    row: PendingRow,
    now: u64,
    send_ok: bool,
    delete_ok: bool,
) -> (Seq<PendingRow>, Seq<InvalidatedReviewRequest>) {
    match plan_of(row, now) {
        RowPlan::Quarantine(rec) => (
            after_delete(pending, delete_after(send_ok, row.msg_id), delete_ok),
            after_send(dead, rec, send_ok),
        ),
        _ => (pending, dead),
    }
}

/// True when `row` holds a request stamped at `t` that is expired at `now`.
pub open spec fn expired_row(row: PendingRow, req: ReviewRequest, t: u64, now: u64) -> bool {
    &&& row.record == Some(req)
    &&& req.timestamp == Some(t)
    &&& is_expired(t, now, EXPIRY_SECONDS)
}

/// An expired entry whose quarantine and delete both succeed leaves the
/// pending queue and gains exactly one dead-letter record, which keeps all of
/// its fields and is invalidated at the tick's `now`.
pub proof fn lemma_quarantine_moves_once(
    pending: Seq<PendingRow>,
    dead: Seq<InvalidatedReviewRequest>,
    row: PendingRow,
    req: ReviewRequest,
    t: u64,
    now: u64,
)
    requires
        pending.contains(row),
        expired_row(row, req, t, now),
    ensures
        ({
            let (p, d) = row_step(pending, dead, row, now, true, true);
            &&& d == dead.push(invalidated(req, t, now))
            &&& d.last().user_id == req.user_id
            &&& d.last().message == req.message
            &&& d.last().timestamp == t
            &&& d.last().invalidated_at == now
            &&& d.last().wf()
            &&& !p.contains(row)
            &&& forall|r: PendingRow| pending.contains(r) && r.msg_id != row.msg_id ==> p.contains(r)
        }),
{
    let p = removed(pending, row.msg_id);
    let pred = |r: PendingRow| r.msg_id != row.msg_id;
    if p.contains(row) {
        let i = choose|i: int| 0 <= i < p.len() && p[i] == row;
        assert(pred(p[i]));
    }
    assert forall|r: PendingRow| pending.contains(r) && r.msg_id != row.msg_id implies p.contains(r) by {
        let i = choose|i: int| 0 <= i < pending.len() && pending[i] == r;
        pending.lemma_filter_contains(pred, i);
    }
}

/// A failed quarantine send changes neither queue and issues no delete,
/// whatever a delete would have done.
pub proof fn lemma_failed_send_keeps_pending(
    pending: Seq<PendingRow>,
    dead: Seq<InvalidatedReviewRequest>,
    row: PendingRow,
    now: u64,
    delete_ok: bool,
)
    ensures
        delete_after(false, row.msg_id) is None,
        row_step(pending, dead, row, now, false, delete_ok) == (pending, dead),
{
}

/// When the quarantine succeeds but the delete fails, the entry stays pending
/// and the next tick at `later` quarantines it again: the dead-letter queue
/// then holds two records of the same request.
pub proof fn lemma_failed_delete_duplicates(
    pending: Seq<PendingRow>,
    dead: Seq<InvalidatedReviewRequest>,
    row: PendingRow,
    req: ReviewRequest,
    t: u64,
    now: u64,
    later: u64,
)
    requires
        expired_row(row, req, t, now),
        now <= later,
    ensures
        ({
            let (p1, d1) = row_step(pending, dead, row, now, true, false);
            let (p2, d2) = row_step(p1, d1, row, later, true, true);
            &&& p1 == pending
            &&& d1 == dead.push(invalidated(req, t, now))
            &&& d2 == dead.push(invalidated(req, t, now)).push(invalidated(req, t, later))
            &&& d2.len() == dead.len() + 2
            &&& d2[dead.len() as int].user_id == d2[dead.len() + 1int].user_id
            &&& d2[dead.len() as int].message == d2[dead.len() + 1int].message
            &&& d2[dead.len() as int].timestamp == d2[dead.len() + 1int].timestamp
        }),
{
}

/// Withdrawing for a user with exactly one pending request (at `k`) picks
/// that entry, and once the entry is deleted a second withdrawal finds nothing.
pub proof fn lemma_withdraw_once(pending: Seq<PendingRow>, user_id: i32, k: int)
    requires
        0 <= k < pending.len(),
        owned_by(pending[k], user_id),
        forall|i: int| 0 <= i < pending.len() && owned_by(#[trigger] pending[i], user_id) ==> i == k,
    ensures
        withdraw_pick(pending, user_id) == Some(pending[k].msg_id),
        withdraw_pick(removed(pending, pending[k].msg_id), user_id) is None,
{
    lemma_pick_first(pending, user_id, k);
    let id = pending[k].msg_id;
    let p = removed(pending, id);
    let pred = |r: PendingRow| r.msg_id != id;
    assert forall|i: int| 0 <= i < p.len() implies !owned_by(#[trigger] p[i], user_id) by {
        assert(pred(p[i]));
        pending.lemma_filter_contains_rev(pred, p[i]);
        let j = choose|j: int| 0 <= j < pending.len() && pending[j] == p[i];
        if owned_by(p[i], user_id) {
            assert(j == k);
        }
    }
    lemma_pick_none(p, user_id);
}

/// Withdrawing for a user with no pending request finds nothing.
pub proof fn lemma_withdraw_absent(pending: Seq<PendingRow>, user_id: i32)
    requires
        forall|i: int| 0 <= i < pending.len() ==> !owned_by(#[trigger] pending[i], user_id),
    ensures
        withdraw_pick(pending, user_id) is None,
{
    lemma_pick_none(pending, user_id);
}

/// A record that a sweep quarantines was more than the expiry period old when
/// it was invalidated.
pub proof fn lemma_quarantined_is_overdue(row: PendingRow, now: u64)
    ensures
        plan_of(row, now) matches RowPlan::Quarantine(rec) ==> rec.invalidated_at - rec.timestamp
            > EXPIRY_SECONDS && rec.wf() && rec.invalidated_at == now,
{
}

} // verus!
