use linkkivahti::checker::{
    check_fetched, start_check, CheckError, CheckResult, Fetched, Responded, Started,
};

const HELLO_SHA256: &str = "sha256-uU0nuZNNPgilLlLX2n2r+sSE7+N6U4DukIj3rOLvzek=";

#[test]
fn test_check_error_description() {
    assert_eq!(CheckError::InvalidSri.description(), "Invalid SRI format");
    assert_eq!(CheckError::FetchFailed.description(), "Fetch failed");
    assert_eq!(CheckError::HttpError(404).description(), "HTTP error: 404");
}

#[test]
fn test_check_result_has_problem() {
    let success = CheckResult::success("https://example.com", 200, true);
    assert!(!success.has_problem());

    let sri_fail = CheckResult::success("https://example.com", 200, false);
    assert!(sri_fail.has_problem());

    let failure = CheckResult::failure("https://example.com", CheckError::FetchFailed);
    assert!(failure.has_problem());
}

#[test]
fn test_check_result_description() {
    let success = CheckResult::success("https://example.com", 200, true);
    assert_eq!(success.description(), "OK (HTTP 200)");

    let sri_fail = CheckResult::success("https://example.com", 200, false);
    assert_eq!(sri_fail.description(), "SRI mismatch (HTTP 200)");

    let failure = CheckResult::failure("https://example.com", CheckError::FetchFailed);
    assert_eq!(failure.description(), "Failed: Fetch failed");

    let http_error = CheckResult::failure("https://example.com", CheckError::HttpError(404));
    assert_eq!(http_error.description(), "Failed: HTTP error: 404");
}

#[test]
fn check_error_descriptions_of_every_variant() {
    assert_eq!(
        CheckError::BodyReadFailed.description(),
        "Failed to read response body"
    );
    assert_eq!(CheckError::HttpError(0).description(), "HTTP error: 0");
    assert_eq!(CheckError::HttpError(503).description(), "HTTP error: 503");
    assert_eq!(CheckError::HttpError(65535).description(), "HTTP error: 65535");
}

#[test]
fn success_and_failure_fill_the_fields() {
    let success = CheckResult::success("https://example.com/a.js", 204, false);
    assert_eq!(success.url, "https://example.com/a.js");
    assert!(success.success);
    assert_eq!(success.status_code, Some(204));
    assert_eq!(success.error, None);
    assert_eq!(success.sri_valid, Some(false));

    let failure = CheckResult::failure("https://example.com/a.js", CheckError::HttpError(500));
    assert_eq!(failure.url, "https://example.com/a.js");
    assert!(!failure.success);
    assert_eq!(failure.status_code, None);
    assert_eq!(failure.error, Some(CheckError::HttpError(500)));
    assert_eq!(failure.sri_valid, None);
}

#[test]
fn description_of_outcomes_built_by_hand() {
    let unknown = CheckResult {
        url: "https://example.com",
        success: false,
        status_code: None,
        error: None,
        sri_valid: None,
    };
    assert_eq!(unknown.description(), "Failed: Unknown error");
    assert!(unknown.has_problem());

    let mismatch = CheckResult {
        url: "https://example.com",
        success: true,
        status_code: None,
        error: None,
        sri_valid: Some(false),
    };
    assert_eq!(mismatch.description(), "SRI mismatch");
    assert!(mismatch.is_mismatch());

    let ok = CheckResult {
        url: "https://example.com",
        success: true,
        status_code: None,
        error: None,
        sri_valid: None,
    };
    assert_eq!(ok.description(), "OK");
    assert!(!ok.has_problem());
    assert!(!ok.is_mismatch());

    let body = CheckResult::failure("https://example.com", CheckError::BodyReadFailed);
    assert_eq!(body.description(), "Failed: Failed to read response body");
    let invalid = CheckResult::failure("https://example.com", CheckError::InvalidSri);
    assert_eq!(invalid.description(), "Failed: Invalid SRI format");
}

#[test]
fn invalid_digest_ends_the_check_before_any_fetch() {
    for digest in ["sha384", "md5-AAAA", "sha256-!!!", "sha256-dGVzdA==", ""] {
        match start_check("https://a.test/x.js", digest) {
            Started::Rejected(result) => {
                assert!(!result.success);
                assert_eq!(result.url, "https://a.test/x.js");
                assert_eq!(result.error, Some(CheckError::InvalidSri));
                assert_eq!(result.status_code, None);
                assert_eq!(result.sri_valid, None);
                assert!(result.has_problem());
            }
            Started::Fetch(_) => panic!("a rejected digest must not lead to a fetch"),
        }
    }
}

#[test]
fn valid_digest_asks_for_a_fetch_of_the_url() {
    match start_check("https://a.test/x.js", HELLO_SHA256) {
        Started::Fetch(pending) => assert_eq!(pending.url(), "https://a.test/x.js"),
        Started::Rejected(_) => panic!("a valid digest must lead to a fetch"),
    }
}

fn pending_fetch() -> linkkivahti::checker::PendingFetch {
    match start_check("https://a.test/x.js", HELLO_SHA256) {
        Started::Fetch(pending) => pending,
        Started::Rejected(_) => panic!("a valid digest must lead to a fetch"),
    }
}

#[test]
fn transport_failure_is_fetch_failed() {
    let result = pending_fetch().on_transport_error();
    assert!(!result.success);
    assert_eq!(result.url, "https://a.test/x.js");
    assert_eq!(result.error, Some(CheckError::FetchFailed));
    assert_eq!(result.status_code, None);
    assert_eq!(result.sri_valid, None);
}

#[test]
fn status_outside_2xx_ends_the_check_without_the_body() {
    for code in [0u16, 100, 199, 300, 301, 404, 500, 503, 65535] {
        match pending_fetch().on_response(code) {
            Responded::Finished(result) => {
                assert!(!result.success);
                assert_eq!(result.error, Some(CheckError::HttpError(code)));
                assert_eq!(result.status_code, None);
                assert_eq!(result.sri_valid, None);
            }
            Responded::ReadBody(_) => panic!("the body must not be read for status {}", code),
        }
    }
}

#[test]
fn status_in_2xx_asks_for_the_body() {
    for code in [200u16, 201, 204, 299] {
        match pending_fetch().on_response(code) {
            Responded::ReadBody(pending) => {
                let result = pending.on_body(b"hello world");
                assert!(result.success);
                assert_eq!(result.status_code, Some(code));
                assert_eq!(result.sri_valid, Some(true));
                assert_eq!(result.error, None);
            }
            Responded::Finished(_) => panic!("status {} must lead to reading the body", code),
        }
    }
}

fn pending_body() -> linkkivahti::checker::PendingBody {
    match pending_fetch().on_response(200) {
        Responded::ReadBody(pending) => pending,
        Responded::Finished(_) => panic!("status 200 must lead to reading the body"),
    }
}

#[test]
fn body_read_failure_is_its_own_error() {
    let result = pending_body().on_read_error();
    assert!(!result.success);
    assert_eq!(result.error, Some(CheckError::BodyReadFailed));
    assert_eq!(result.status_code, None);
    assert_eq!(result.sri_valid, None);
}

#[test]
fn expired_checks_count_as_failed_fetches() {
    let result = pending_fetch().expire();
    assert!(!result.success);
    assert_eq!(result.error, Some(CheckError::FetchFailed));
    assert_eq!(result.url, "https://a.test/x.js");

    let result = pending_body().expire();
    assert!(!result.success);
    assert_eq!(result.error, Some(CheckError::FetchFailed));
    assert_eq!(result.status_code, None);
}

#[test]
fn scenario_matching_content() {
    let result = pending_body().on_body(b"hello world");
    assert!(result.success);
    assert_eq!(result.url, "https://a.test/x.js");
    assert_eq!(result.status_code, Some(200));
    assert_eq!(result.sri_valid, Some(true));
    assert!(!result.has_problem());
    assert_eq!(result.description(), "OK (HTTP 200)");
}

#[test]
fn scenario_content_drifted() {
    let result = pending_body().on_body(b"hello world!");
    assert!(result.success);
    assert_eq!(result.status_code, Some(200));
    assert_eq!(result.sri_valid, Some(false));
    assert!(result.has_problem());
    assert_eq!(result.description(), "SRI mismatch (HTTP 200)");
}

#[test]
fn scenario_server_error() {
    match pending_fetch().on_response(503) {
        Responded::Finished(result) => {
            assert!(!result.success);
            assert_eq!(result.error, Some(CheckError::HttpError(503)));
            assert!(result.has_problem());
            assert_eq!(result.description(), "Failed: HTTP error: 503");
        }
        Responded::ReadBody(_) => panic!("the body must not be read for status 503"),
    }
}

#[test]
fn check_fetched_looks_for_failures_in_order() {
    let url = "https://a.test/x.js";
    let readable = Fetched::Response { status_code: 200, body: Some(b"hello world".to_vec()) };
    let unreadable = Fetched::Response { status_code: 200, body: None };
    let missing = Fetched::Response { status_code: 404, body: Some(b"hello world".to_vec()) };
    let missing_unreadable = Fetched::Response { status_code: 404, body: None };

    // An invalid digest wins over whatever the transport delivered.
    for fetched in [&Fetched::TransportError, &readable, &unreadable, &missing] {
        let result = check_fetched(url, "sha256-!!!", fetched);
        assert_eq!(result.error, Some(CheckError::InvalidSri));
        assert!(!result.success);
    }
    assert_eq!(
        check_fetched(url, HELLO_SHA256, &Fetched::TransportError).error,
        Some(CheckError::FetchFailed)
    );
    // The status wins over the body.
    assert_eq!(
        check_fetched(url, HELLO_SHA256, &missing).error,
        Some(CheckError::HttpError(404))
    );
    assert_eq!(
        check_fetched(url, HELLO_SHA256, &missing_unreadable).error,
        Some(CheckError::HttpError(404))
    );
    assert_eq!(
        check_fetched(url, HELLO_SHA256, &unreadable).error,
        Some(CheckError::BodyReadFailed)
    );
    let result = check_fetched(url, HELLO_SHA256, &readable);
    assert!(result.success);
    assert_eq!(result.error, None);
    assert_eq!(result.status_code, Some(200));
    assert_eq!(result.sri_valid, Some(true));
    assert!(!result.has_problem());
}

#[test]
fn check_fetched_records_the_verdict() {
    let url = "https://a.test/x.js";
    let drifted = Fetched::Response { status_code: 200, body: Some(b"hello world!".to_vec()) };
    let result = check_fetched(url, HELLO_SHA256, &drifted);
    assert!(result.success);
    assert_eq!(result.sri_valid, Some(false));
    assert!(result.has_problem());

    let empty = Fetched::Response { status_code: 204, body: Some(Vec::new()) };
    let result = check_fetched(
        url,
        "sha384-OLBgp1GsljhM2TJ+sbHjaiH9txEUvgdDTAzHv2P24donTt6/529l+9Ua0vFImLlb",
        &empty,
    );
    assert!(result.success);
    assert_eq!(result.status_code, Some(204));
    assert_eq!(result.sri_valid, Some(true));
}
