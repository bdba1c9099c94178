use review_queue::model::{
    classify, classify_request, invalidate, pending_timestamp, stamp, InvalidatedReviewRequest,
    PayloadError, ReviewRequest, Verdict, EXPIRY_SECONDS,
};

fn request(user_id: i32, message: &str, timestamp: Option<u64>) -> ReviewRequest {
    ReviewRequest { user_id, message: message.to_string(), timestamp }
}

#[test]
fn classify_exactly_thirty_seconds_is_pending() {
    assert_eq!(classify(1_000, 1_030, EXPIRY_SECONDS), Verdict::Pending);
}

#[test]
fn classify_thirty_one_seconds_is_expired() {
    assert_eq!(classify(1_000, 1_031, EXPIRY_SECONDS), Verdict::Expired);
}

#[test]
fn classify_fresh_and_future_timestamps_are_pending() {
    assert_eq!(classify(1_000, 1_000, EXPIRY_SECONDS), Verdict::Pending);
    assert_eq!(classify(1_000, 1_010, EXPIRY_SECONDS), Verdict::Pending);
    assert_eq!(classify(2_000, 1_000, EXPIRY_SECONDS), Verdict::Pending);
}

#[test]
fn classify_extreme_values() {
    assert_eq!(classify(0, u64::MAX, EXPIRY_SECONDS), Verdict::Expired);
    assert_eq!(classify(u64::MAX, 0, EXPIRY_SECONDS), Verdict::Pending);
    assert_eq!(classify(0, 31, EXPIRY_SECONDS), Verdict::Expired);
}

#[test]
fn stamp_overwrites_client_timestamp() {
    let stored = stamp(request(1, "x", Some(0)), 1_700_000_000);
    assert_eq!(stored, request(1, "x", Some(1_700_000_000)));
}

#[test]
fn stamp_fills_absent_timestamp() {
    let stored = stamp(request(7, "please review", None), 42);
    assert_eq!(stored.timestamp, Some(42));
    assert_eq!(stored.user_id, 7);
    assert_eq!(stored.message, "please review");
}

#[test]
fn pending_timestamp_requires_a_stamp() {
    assert_eq!(pending_timestamp(&request(1, "a", Some(5))), Ok(5));
    assert_eq!(pending_timestamp(&request(1, "a", None)), Err(PayloadError::MissingTimestamp));
}

#[test]
fn classify_request_reads_the_stamp() {
    assert_eq!(classify_request(&request(1, "a", Some(100)), 130), Ok(Verdict::Pending));
    assert_eq!(classify_request(&request(1, "a", Some(100)), 131), Ok(Verdict::Expired));
    assert_eq!(classify_request(&request(1, "a", None), 131), Err(PayloadError::MissingTimestamp));
}

#[test]
fn invalidate_keeps_fields_and_records_now() {
    let inv = invalidate(&request(3, "hello", Some(100)), 200).unwrap();
    assert_eq!(
        inv,
        InvalidatedReviewRequest {
            user_id: 3,
            message: "hello".to_string(),
            timestamp: 100,
            invalidated_at: 200,
        }
    );
    assert_eq!(invalidate(&request(3, "hello", None), 200), Err(PayloadError::MissingTimestamp));
}
