use workplan_core::update::{
    check_status, evaluate_release, release_report, status_is_success, UpdateError, UpdateReport,
    TAG_MEMBER,
};

#[test]
fn success_is_200_to_299() {
    assert!(status_is_success(200));
    assert!(status_is_success(204));
    assert!(status_is_success(299));
    assert!(!status_is_success(199));
    assert!(!status_is_success(300));
    assert!(!status_is_success(0));
    assert!(!status_is_success(404));
    assert!(!status_is_success(500));
    assert!(!status_is_success(u16::MAX));
}

#[test]
fn a_successful_status_passes() {
    assert_eq!(check_status(200, "OK"), Ok(()));
    assert_eq!(check_status(299, "<unknown status code>"), Ok(()));
}

#[test]
fn a_failed_status_is_an_error_that_carries_the_code() {
    let verdict = check_status(404, "Not Found");
    assert_eq!(
        verdict,
        Err(UpdateError::HttpStatus { code: 404, reason: "Not Found".to_string() })
    );
    assert_eq!(verdict.unwrap_err().message(), "HTTP Error: 404 Not Found");
    assert_eq!(
        check_status(503, "Service Unavailable").unwrap_err().message(),
        "HTTP Error: 503 Service Unavailable"
    );
    assert_eq!(
        check_status(301, "Moved Permanently"),
        Err(UpdateError::HttpStatus { code: 301, reason: "Moved Permanently".to_string() })
    );
    assert_eq!(
        check_status(799, "<unknown status code>").unwrap_err().message(),
        "HTTP Error: 799 <unknown status code>"
    );
    assert_eq!(check_status(100, "Continue").unwrap_err().message(), "HTTP Error: 100 Continue");
    assert_eq!(check_status(0, "").unwrap_err().message(), "HTTP Error: 0 ");
    assert_eq!(check_status(65535, "x").unwrap_err().message(), "HTTP Error: 65535 x");
    assert!(check_status(199, "").is_err());
    assert!(check_status(300, "").is_err());
}

#[test]
fn a_later_release_is_reported() {
    let report = evaluate_release("1.2.3", br#"{"tag_name": "v1.3.0", "name": "Spring"}"#);
    assert_eq!(
        report,
        Ok(UpdateReport {
            has_update: true,
            current_version: "1.2.3".to_string(),
            latest_version: "1.3.0".to_string(),
        })
    );
}

#[test]
fn the_same_release_is_no_update() {
    let report = evaluate_release("1.3.0", br#"{"tag_name":"v1.3"}"#);
    assert_eq!(
        report,
        Ok(UpdateReport {
            has_update: false,
            current_version: "1.3.0".to_string(),
            latest_version: "1.3".to_string(),
        })
    );
}

#[test]
fn an_earlier_release_is_no_update() {
    let report = evaluate_release("2.0.0", br#"{"id": 7, "tag_name": "1.9.9"}"#).unwrap();
    assert!(!report.has_update);
    assert_eq!(report.latest_version, "1.9.9");
    assert_eq!(report.current_version, "2.0.0");
}

#[test]
fn the_tag_is_read_by_the_json_parser() {
    let report = evaluate_release("0.1.0", b"  {\"tag_name\" : \"v\\u0031.0\\n\"}  ").unwrap();
    assert_eq!(report.latest_version, "1.0\n");
    assert!(report.has_update);
    let last_wins = evaluate_release("1.0", br#"{"tag_name":"v0.1","tag_name":"v3.0"}"#).unwrap();
    assert_eq!(last_wins.latest_version, "3.0");
    assert!(last_wins.has_update);
}

#[test]
fn a_document_without_the_tag_is_a_parse_error() {
    assert_eq!(evaluate_release("1.0.0", br#"{"name": "v2.0.0"}"#), Err(UpdateError::MissingTag));
    assert_eq!(evaluate_release("1.0.0", b"{}"), Err(UpdateError::MissingTag));
    assert_eq!(evaluate_release("1.0.0", br#"{"TAG_NAME": "v2"}"#), Err(UpdateError::MissingTag));
    assert_eq!(UpdateError::MissingTag.message(), "release has no tag_name");
    assert_eq!(TAG_MEMBER, "tag_name");
}

#[test]
fn a_tag_that_is_no_string_is_a_parse_error() {
    assert_eq!(evaluate_release("1.0.0", br#"{"tag_name": 2}"#), Err(UpdateError::MissingTag));
    assert_eq!(evaluate_release("1.0.0", br#"{"tag_name": null}"#), Err(UpdateError::MissingTag));
    assert_eq!(
        evaluate_release("1.0.0", br#"{"tag_name": ["v2.0.0"]}"#),
        Err(UpdateError::MissingTag)
    );
}

#[test]
fn a_document_that_is_no_object_is_a_parse_error() {
    assert_eq!(evaluate_release("1.0.0", br#"["tag_name"]"#), Err(UpdateError::MissingTag));
    assert_eq!(evaluate_release("1.0.0", br#""tag_name""#), Err(UpdateError::MissingTag));
    assert_eq!(evaluate_release("1.0.0", b"null"), Err(UpdateError::MissingTag));
}

#[test]
fn a_body_that_is_no_json_is_a_parse_error() {
    for body in [&b""[..], b"<html>", b"{", br#"{"tag_name": "v1""#, b"{} {}", b"\xff\xfe"] {
        match evaluate_release("1.0.0", body) {
            Err(UpdateError::InvalidJson { detail }) => assert!(!detail.is_empty()),
            other => panic!("{:?}", other),
        }
    }
    let error = evaluate_release("1.0.0", b"nonsense").unwrap_err();
    assert_eq!(error.message(), "error decoding response body");
}

#[test]
fn the_report_is_made_from_the_tag() {
    assert_eq!(
        release_report("v1.0", Some("v2.0")),
        Ok(UpdateReport {
            has_update: true,
            current_version: "v1.0".to_string(),
            latest_version: "2.0".to_string(),
        })
    );
    assert_eq!(
        release_report("v1.0", Some("vv2.0")),
        Ok(UpdateReport {
            has_update: false,
            current_version: "v1.0".to_string(),
            latest_version: "v2.0".to_string(),
        })
    );
    assert_eq!(
        release_report("1.0", Some("")),
        Ok(UpdateReport {
            has_update: false,
            current_version: "1.0".to_string(),
            latest_version: String::new(),
        })
    );
    assert_eq!(release_report("1.0", None), Err(UpdateError::MissingTag));
}

#[test]
fn a_transport_error_shows_its_detail() {
    let error = UpdateError::Transport { detail: "error sending request".to_string() };
    assert_eq!(error.message(), "error sending request");
}
