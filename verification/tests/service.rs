use widevine::error::{Error, ErrorKind};
use widevine::service::{
    decode_failure, is_challenge_page, is_request_error, json_of, rate_limit_message,
    request_failure, service_message, status_refusal, unreadable_json, FieldCode, RequestFailure,
    ServiceError, Violation,
};
use widevine::text::{contains, decimal, join, starts_with};

fn failure() -> RequestFailure {
    RequestFailure {
        request: false,
        redirect: false,
        timeout: false,
        connect: false,
        body: false,
        status_error: false,
        decode: false,
        builder: false,
        message: "it failed".to_string(),
        status: None,
        url: None,
    }
}

#[test]
fn decimal_of_numbers() {
    assert_eq!(decimal(0), "0");
    assert_eq!(decimal(7), "7");
    assert_eq!(decimal(10), "10");
    assert_eq!(decimal(1234567890), "1234567890");
    assert_eq!(decimal(u64::MAX), "18446744073709551615");
}

#[test]
fn join_with_a_separator() {
    assert_eq!(join(&vec![], ", "), "");
    assert_eq!(join(&vec!["a".to_string()], ", "), "a");
    assert_eq!(join(&vec!["a".to_string(), "".to_string(), "c".to_string()], ", "), "a, , c");
}

#[test]
fn bytes_start_with_and_contain() {
    assert!(starts_with(b"abc", b""));
    assert!(starts_with(b"abc", b"ab"));
    assert!(starts_with(b"abc", b"abc"));
    assert!(!starts_with(b"abc", b"abcd"));
    assert!(!starts_with(b"abc", b"bc"));
    assert!(contains(b"abc", b""));
    assert!(contains(b"", b""));
    assert!(contains(b"abc", b"bc"));
    assert!(contains(b"abc", b"abc"));
    assert!(contains(b"aab", b"ab"));
    assert!(!contains(b"abc", b"ac"));
    assert!(!contains(b"ab", b"abc"));
}

#[test]
fn failure_on_the_way_is_a_request_error() {
    let flags: [fn(&mut RequestFailure); 6] = [
        |f| f.request = true,
        |f| f.redirect = true,
        |f| f.timeout = true,
        |f| f.connect = true,
        |f| f.body = true,
        |f| f.status_error = true,
    ];
    for set in flags {
        let mut failure = failure();
        set(&mut failure);
        failure.decode = true;
        failure.builder = true;
        failure.status = Some(502);
        failure.url = Some("https://example.com/license".to_string());
        match request_failure(failure) {
            Error::Request { message, status, url } => {
                assert_eq!(message, "it failed");
                assert_eq!(status, Some(502));
                assert_eq!(url, "https://example.com/license");
            }
            _ => unreachable!(),
        }
    }
}

#[test]
fn failure_without_address_names_none() {
    let mut failure = failure();
    failure.timeout = true;
    let error = request_failure(failure);
    assert_eq!(error.to_text(), "it failed");
    match error {
        Error::Request { url, status, .. } => {
            assert_eq!(url, "n/a");
            assert_eq!(status, None);
        }
        _ => unreachable!(),
    }
}

#[test]
fn failure_to_decode_is_a_decode_error() {
    let mut failure = failure();
    failure.decode = true;
    failure.builder = true;
    failure.url = Some("https://example.com".to_string());
    match request_failure(failure) {
        Error::Decode { message, content, url } => {
            assert_eq!(message, "it failed");
            assert!(content.is_empty());
            assert_eq!(url, "https://example.com");
        }
        _ => unreachable!(),
    }
}

#[test]
fn failure_to_build_is_an_internal_error() {
    let mut failure = failure();
    failure.builder = true;
    match request_failure(failure) {
        Error::Internal { message } => assert_eq!(message, "it failed"),
        _ => unreachable!(),
    }
}

#[test]
fn failure_of_no_kind_is_an_internal_error() {
    match request_failure(failure()) {
        Error::Internal { message } => {
            assert_eq!(message, "Could not determine request error type - {err}")
        }
        _ => unreachable!(),
    }
}

#[test]
fn answer_that_is_no_json_is_a_decode_error() {
    let error = decode_failure("expected value".to_string());
    assert_eq!(error.kind(), ErrorKind::Decode);
    assert_eq!(error.to_text(), "expected value");
}

#[test]
fn typed_error_names_type_and_message() {
    let error = ServiceError::Typed {
        error_type: "invalid_grant".to_string(),
        message: "token expired".to_string(),
    };
    assert_eq!(service_message(&error), "invalid_grant - token expired");
}

#[test]
fn coded_error_names_code_and_fields() {
    let context = || {
        vec![
            FieldCode { code: "required".to_string(), field: "user_id".to_string() },
            FieldCode { code: "too_long".to_string(), field: "asset_id".to_string() },
        ]
    };
    let with_message = ServiceError::Coded {
        code: "bad_request".to_string(),
        context: context(),
        message: Some("Invalid".to_string()),
    };
    assert_eq!(
        service_message(&with_message),
        "Invalid (bad_request) - user_id: required, asset_id: too_long"
    );
    let without =
        ServiceError::Coded { code: "bad_request".to_string(), context: context(), message: None };
    assert_eq!(service_message(&without), "(bad_request) - user_id: required, asset_id: too_long");
    let bare =
        ServiceError::Coded { code: "bad_request".to_string(), context: vec![], message: None };
    assert_eq!(service_message(&bare), "(bad_request) - ");
}

#[test]
fn constrained_error_names_code_and_constraints() {
    let error = ServiceError::Constrained {
        code: "constraint".to_string(),
        context: vec![
            Violation {
                code: "range".to_string(),
                violated_constraints: vec![
                    ("min".to_string(), "1".to_string()),
                    ("max".to_string(), "9".to_string()),
                ],
            },
            Violation { code: "empty".to_string(), violated_constraints: vec![] },
        ],
    };
    assert_eq!(service_message(&error), "constraint: range: (min: 1, max: 9), empty: ()");
}

#[test]
fn reported_error_is_a_request_error() {
    let url = "https://example.com/auth".to_string();
    assert!(is_request_error(&None, &url, 200).is_ok());
    let error = ServiceError::Typed { error_type: "a".to_string(), message: "b".to_string() };
    let reported = is_request_error(&Some(error), &url, 401).err().unwrap();
    assert_eq!(reported.to_text(), "a - b (https://example.com/auth)");
    match reported {
        Error::Request { message, status, url } => {
            assert_eq!(message, "a - b");
            assert_eq!(status, Some(401));
            assert_eq!(url, "https://example.com/auth");
        }
        _ => unreachable!(),
    }
}

#[test]
fn challenge_page_is_told_by_doctype_and_title() {
    let page = b"<!DOCTYPE html><html><head><title>Just a moment...</title></head></html>";
    assert!(is_challenge_page(page));
    assert!(!is_challenge_page(b" <!DOCTYPE html><title>Just a moment...</title>"));
    assert!(!is_challenge_page(b"<!DOCTYPE html><title>Just a moment..</title>"));
    assert!(!is_challenge_page(b"<title>Just a moment...</title>"));
    assert!(is_challenge_page(b"<!DOCTYPE html><title>Just a moment...</title>"));
    assert!(!is_challenge_page(b""));
}

#[test]
fn status_403_with_a_challenge_page_is_a_block() {
    let url = "https://example.com".to_string();
    let page = b"<!DOCTYPE html><title>Just a moment...</title>";
    let error = status_refusal(403, page, None, &url).unwrap();
    assert_eq!(
        error.to_text(),
        "Triggered Cloudflare bot protection (https://example.com): <!DOCTYPE html><title>Just a moment...</title>"
    );
    assert_eq!(error.kind(), ErrorKind::Block);
    assert!(status_refusal(403, b"{\"error\":1}", None, &url).is_none());
    assert!(status_refusal(200, page, None, &url).is_none());
}

#[test]
fn status_404_is_a_request_error() {
    let url = "https://example.com".to_string();
    match status_refusal(404, b"", None, &url).unwrap() {
        Error::Request { message, status, url } => {
            assert_eq!(message, "The requested resource is not present");
            assert_eq!(status, Some(404));
            assert_eq!(url, "https://example.com");
        }
        _ => unreachable!(),
    }
}

#[test]
fn status_429_is_a_request_error_with_the_wait() {
    let url = "https://example.com".to_string();
    match status_refusal(429, b"", Some(30), &url).unwrap() {
        Error::Request { message, status, .. } => {
            assert_eq!(message, "Rate limit detected. Try again in 30 seconds");
            assert_eq!(status, Some(429));
        }
        _ => unreachable!(),
    }
    assert_eq!(rate_limit_message(None), "Rate limit detected. Try again later");
    assert_eq!(rate_limit_message(Some(0)), "Rate limit detected. Try again in 0 seconds");
}

#[test]
fn other_statuses_are_left_to_the_answer() {
    let url = "https://example.com".to_string();
    for status in [200u16, 201, 400, 401, 500] {
        assert!(status_refusal(status, b"{}", Some(1), &url).is_none());
    }
}

#[test]
fn empty_answer_counts_as_the_empty_object() {
    assert_eq!(json_of(vec![], 0), b"{}".to_vec());
    assert_eq!(json_of(vec![], 5), Vec::<u8>::new());
    assert_eq!(json_of(b"[1]".to_vec(), 0), b"[1]".to_vec());
}

#[test]
fn unreadable_json_names_the_place() {
    let error = unreadable_json(
        &"expected value".to_string(),
        3,
        14,
        b"{\"a\":}".to_vec(),
        "https://example.com".to_string(),
    );
    assert_eq!(error.to_text(), "expected value at 3:14 (https://example.com): {\"a\":}");
}

#[test]
fn error_text_by_variant() {
    assert_eq!(Error::Internal { message: "broken".to_string() }.to_text(), "broken");
    assert_eq!(Error::Input { message: "bad".to_string() }.to_text(), "bad");
    assert_eq!(Error::State { message: "late".to_string() }.to_text(), "late");
    assert_eq!(
        Error::Request {
            message: "failed".to_string(),
            status: Some(500),
            url: "https://a.b".to_string()
        }
        .to_text(),
        "failed (https://a.b)"
    );
    assert_eq!(
        Error::Request { message: "failed".to_string(), status: None, url: "n/a".to_string() }
            .to_text(),
        "failed"
    );
    assert_eq!(
        Error::Decode { message: "no".to_string(), content: vec![], url: "n/a".to_string() }
            .to_text(),
        "no"
    );
    assert_eq!(
        Error::Decode {
            message: "no".to_string(),
            content: vec![0x61, 0xff, 0x62],
            url: "n/a".to_string()
        }
        .to_text(),
        "no: a\u{fffd}b"
    );
    assert_eq!(
        Error::Block {
            message: "blocked".to_string(),
            body: "page".to_string(),
            url: "https://a.b".to_string()
        }
        .to_text(),
        "blocked (https://a.b): page"
    );
}

#[test]
fn error_text_of_a_provider_error_starts_with_the_message() {
    let stack = openssl::rsa::Rsa::private_key_from_pem(b"no key").err().unwrap();
    let expected = format!("could not read {}", stack);
    let error = Error::provider("could not read", stack);
    assert_eq!(error.kind(), ErrorKind::OpenSSL);
    assert_eq!(error.to_text(), expected);
    assert!(error.to_text().starts_with("could not read "));
}

#[test]
fn error_makers_set_kind_and_message() {
    assert_eq!(Error::input("a").kind(), ErrorKind::Input);
    assert_eq!(Error::state("b").kind(), ErrorKind::State);
    assert_eq!(Error::internal("c").kind(), ErrorKind::Internal);
    assert_eq!(Error::input("a").to_text(), "a");
    assert_eq!(Error::state("b").to_text(), "b");
    assert_eq!(Error::internal("c").to_text(), "c");
    let copy = Error::input("a").clone();
    assert_eq!(copy.kind(), ErrorKind::Input);
}

#[test]
fn error_text_with_the_text_of_the_stack() {
    let stack = openssl::rsa::Rsa::private_key_from_pem(b"no key").err().unwrap();
    let error = Error::provider("could not read", stack);
    assert_eq!(error.text_with("error:1"), "could not read error:1");
    assert_eq!(error.text_with(""), "could not read ");
    assert_eq!(Error::input("bad").text_with("error:1"), "bad");
}
