use vstd::prelude::*;

use crate::sweep::PendingRow;

verus! {

/// True when the pending entry `row` is a request of `user_id`.
pub open spec fn owned_by(row: PendingRow, user_id: i32) -> bool {
    match row.record {
        Some(req) => req.user_id == user_id,
        None => false,
    }
}

/// The message id a withdrawal of `user_id` deletes: that of the first entry
/// of `rows` owned by the user, if there is one.
pub open spec fn withdraw_pick(rows: Seq<PendingRow>, user_id: i32) -> Option<i64>
    decreases rows.len(),
{
    if rows.len() == 0 {
        None
    } else if owned_by(rows[0], user_id) {
        Some(rows[0].msg_id)
    } else {
        withdraw_pick(rows.drop_first(), user_id)
    }
}

/// A withdrawal finds nothing exactly when no entry belongs to the user.
pub proof fn lemma_pick_none(rows: Seq<PendingRow>, user_id: i32)
    ensures
        withdraw_pick(rows, user_id) is None <==> forall|i: int|
            0 <= i < rows.len() ==> !owned_by(#[trigger] rows[i], user_id),
    decreases rows.len(),
{
    if rows.len() > 0 {
        lemma_pick_none(rows.drop_first(), user_id);
        if !owned_by(rows[0], user_id) {
            assert forall|i: int| 0 < i < rows.len() implies rows[i] == rows.drop_first()[i - 1] by {}
            if forall|i: int| 0 <= i < rows.drop_first().len() ==> !owned_by(
                #[trigger] rows.drop_first()[i],
                user_id,
            ) {
                assert forall|i: int| 0 <= i < rows.len() implies !owned_by(
                    #[trigger] rows[i],
                    user_id,
                ) by {
                    if i > 0 {
                        assert(rows[i] == rows.drop_first()[i - 1]);
                    }
                }
            } else {
                let j = choose|j: int|
                    0 <= j < rows.drop_first().len() && owned_by(
                        #[trigger] rows.drop_first()[j],
                        user_id,
                    );
                assert(owned_by(rows[j + 1], user_id));
            }
        }
    }
}

/// A withdrawal picks the entry at `k` when it is the user's first.
pub proof fn lemma_pick_first(rows: Seq<PendingRow>, user_id: i32, k: int)
    requires
        0 <= k < rows.len(),
        owned_by(rows[k], user_id),
        forall|j: int| 0 <= j < k ==> !owned_by(#[trigger] rows[j], user_id),
    ensures
        withdraw_pick(rows, user_id) == Some(rows[k].msg_id),
    decreases k,
{
    if k > 0 {
        assert forall|j: int| 0 <= j < k - 1 implies !owned_by(
            #[trigger] rows.drop_first()[j],
            user_id,
        ) by {
            assert(rows.drop_first()[j] == rows[j + 1]);
        }
        assert(!owned_by(rows[0], user_id));
        lemma_pick_first(rows.drop_first(), user_id, k - 1);
    }
}

/// Finds the pending entry a withdrawal of `user_id` deletes: the first of
/// `rows` that belongs to the user, or none when the user has no pending request.
pub fn withdraw_target(rows: &Vec<PendingRow>, user_id: i32) -> (r: Option<i64>)
    ensures
        r == withdraw_pick(rows@, user_id),
        r is None <==> forall|i: int|
            0 <= i < rows@.len() ==> !owned_by(#[trigger] rows@[i], user_id),
{
    proof {
        lemma_pick_none(rows@, user_id);
    }
    let mut i: usize = 0;
    while i < rows.len()
        invariant
            i <= rows@.len(),
            forall|j: int| 0 <= j < i ==> !owned_by(#[trigger] rows@[j], user_id),
        decreases rows@.len() - i,
    {
        let owned = match &rows[i].record {
            Some(req) => req.user_id == user_id,
            None => false,
        };
        if owned {
            proof {
                lemma_pick_first(rows@, user_id, i as int);
            }
            return Some(rows[i].msg_id);
        }
        i = i + 1;
    }
    None
}

} // verus!
