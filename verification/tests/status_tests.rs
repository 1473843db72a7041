use bfinancial_rs::status::{transform, Status};

#[test]
fn maps_each_documented_status() {
    assert_eq!(
        transform("pending".to_string(), String::new()),
        Status::Pending
    );
    assert_eq!(
        transform("approved".to_string(), String::new()),
        Status::Approved
    );
    assert_eq!(
        transform("cancelled".to_string(), String::new()),
        Status::Cancelled
    );
    assert_eq!(
        transform("refunded".to_string(), String::new()),
        Status::Refunded
    );
    assert_eq!(
        transform("rejected".to_string(), String::new()),
        Status::Rejected(String::new())
    );
}

#[test]
fn unknown_for_anything_else() {
    assert_eq!(
        transform("paid".to_string(), String::new()),
        Status::Unknown
    );
    assert_eq!(transform(String::new(), String::new()), Status::Unknown);
    assert_eq!(
        transform("unknown".to_string(), String::new()),
        Status::Unknown
    );
}

#[test]
fn matching_is_case_sensitive() {
    assert_eq!(
        transform("Approved".to_string(), String::new()),
        Status::Unknown
    );
    assert_eq!(
        transform("PENDING".to_string(), String::new()),
        Status::Unknown
    );
}

#[test]
fn rejected_carries_cause_verbatim() {
    assert_eq!(
        transform("rejected".to_string(), "card expired".to_string()),
        Status::Rejected("card expired".to_string())
    );
}

#[test]
fn cause_is_ignored_outside_rejected() {
    assert_eq!(
        transform("approved".to_string(), "irrelevant".to_string()),
        Status::Approved
    );
    assert_eq!(
        transform("paid".to_string(), "irrelevant".to_string()),
        Status::Unknown
    );
}
