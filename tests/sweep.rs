use review_queue::model::{stamp, InvalidatedReviewRequest, PayloadError, ReviewRequest};
use review_queue::sweep::{after_quarantine, plan_row, plan_tick, PendingRow, RowPlan};

fn row(msg_id: i64, user_id: i32, message: &str, timestamp: Option<u64>) -> PendingRow {
    PendingRow {
        msg_id,
        record: Some(ReviewRequest { user_id, message: message.to_string(), timestamp }),
    }
}

#[test]
fn plan_row_keeps_fresh_request() {
    assert_eq!(plan_row(&row(1, 1, "a", Some(100)), 130), RowPlan::Keep);
}

#[test]
fn plan_row_quarantines_expired_request() {
    assert_eq!(
        plan_row(&row(1, 9, "late", Some(100)), 131),
        RowPlan::Quarantine(InvalidatedReviewRequest {
            user_id: 9,
            message: "late".to_string(),
            timestamp: 100,
            invalidated_at: 131,
        })
    );
}

#[test]
fn plan_row_skips_corrupt_payloads() {
    assert_eq!(plan_row(&row(1, 1, "a", None), 1_000), RowPlan::Skip(PayloadError::MissingTimestamp));
    assert_eq!(
        plan_row(&PendingRow { msg_id: 2, record: None }, 1_000),
        RowPlan::Skip(PayloadError::Unreadable)
    );
}

#[test]
fn plan_tick_judges_every_row_against_one_instant() {
    let rows = vec![
        row(1, 1, "old", Some(10)),
        PendingRow { msg_id: 2, record: None },
        row(3, 2, "new", Some(75)),
        row(4, 3, "edge", Some(70)),
        row(5, 4, "unstamped", None),
    ];
    let plans = plan_tick(&rows, 100);
    assert_eq!(
        plans,
        vec![
            RowPlan::Quarantine(InvalidatedReviewRequest {
                user_id: 1,
                message: "old".to_string(),
                timestamp: 10,
                invalidated_at: 100,
            }),
            RowPlan::Skip(PayloadError::Unreadable),
            RowPlan::Keep,
            RowPlan::Keep,
            RowPlan::Skip(PayloadError::MissingTimestamp),
        ]
    );
}

#[test]
fn plan_tick_of_empty_queue_is_empty() {
    assert_eq!(plan_tick(&Vec::new(), 100), Vec::<RowPlan>::new());
}

#[test]
fn delete_follows_only_a_successful_send() {
    assert_eq!(after_quarantine(true, 17), Some(17));
    assert_eq!(after_quarantine(false, 17), None);
}

#[test]
fn failed_delete_requarantines_on_next_tick() {
    let pending = row(8, 5, "dup", Some(1_000));
    let first = plan_row(&pending, 1_040);
    let second = plan_row(&pending, 1_050);
    match (first, second) {
        (RowPlan::Quarantine(a), RowPlan::Quarantine(b)) => {
            assert_eq!((a.user_id, a.message.clone(), a.timestamp), (b.user_id, b.message.clone(), b.timestamp));
            assert_eq!(a.invalidated_at, 1_040);
            assert_eq!(b.invalidated_at, 1_050);
        }
        other => panic!("expected two quarantines, got {:?}", other),
    }
}

#[test]
fn submitted_request_expires_after_thirty_one_seconds() {
    let submitted = ReviewRequest { user_id: 1, message: "x".to_string(), timestamp: Some(0) };
    let stored = stamp(submitted, 5_000);
    let pending = PendingRow { msg_id: 1, record: Some(stored) };
    assert_eq!(plan_row(&pending, 5_030), RowPlan::Keep);
    match plan_row(&pending, 5_031) {
        RowPlan::Quarantine(inv) => {
            assert!(inv.invalidated_at - inv.timestamp > 30);
            assert_eq!(inv.timestamp, 5_000);
            assert_eq!(after_quarantine(true, pending.msg_id), Some(1));
        }
        other => panic!("expected quarantine, got {:?}", other),
    }
}
