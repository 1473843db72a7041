use bfinancial_rs::fetch::{classify_fetch, FetchOutcome};

#[test]
fn reported_status_comes_back_as_observed() {
    let body = r#"{"data":{"status":"pending"}}"#;
    assert_eq!(
        classify_fetch(body),
        FetchOutcome::Observed {
            status: "pending".to_string(),
            cause: None,
        }
    );
}

#[test]
fn cause_rides_along_with_the_status() {
    let body = r#"{"data":{"status":"rejected","cause":"card expired"}}"#;
    assert_eq!(
        classify_fetch(body),
        FetchOutcome::Observed {
            status: "rejected".to_string(),
            cause: Some("card expired".to_string()),
        }
    );
}

#[test]
fn explicit_error_wins_over_status() {
    let body = r#"{"data":{"error":"payment not yours","status":"pending"}}"#;
    assert_eq!(
        classify_fetch(body),
        FetchOutcome::GatewayError("payment not yours".to_string())
    );
}

#[test]
fn data_without_status_or_error_is_no_status() {
    let body = r#"{"data":{"payment_id":17}}"#;
    assert_eq!(classify_fetch(body), FetchOutcome::NoStatus);
}

#[test]
fn missing_data_member_is_malformed() {
    let body = r#"{"status":"pending"}"#;
    assert_eq!(classify_fetch(body), FetchOutcome::Malformed);
}

#[test]
fn unparseable_body_is_malformed() {
    assert_eq!(classify_fetch("not json at all"), FetchOutcome::Malformed);
    assert_eq!(classify_fetch(""), FetchOutcome::Malformed);
}

#[test]
fn wrongly_typed_status_is_malformed() {
    let body = r#"{"data":{"status":17}}"#;
    assert_eq!(classify_fetch(body), FetchOutcome::Malformed);
}

#[test]
fn wrongly_typed_error_is_malformed() {
    let body = r#"{"data":{"error":{"code":1}}}"#;
    assert_eq!(classify_fetch(body), FetchOutcome::Malformed);
}

#[test]
fn wrongly_typed_cause_is_malformed() {
    let body = r#"{"data":{"status":"rejected","cause":false}}"#;
    assert_eq!(classify_fetch(body), FetchOutcome::Malformed);
}
