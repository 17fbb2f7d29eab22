use keygen_rs::errors::Error;
use keygen_sh::errors::{ErrorKind, KeygenError, Payload};
use keygen_sh::json::decimal_text;

#[test]
fn fixed_kind_message() {
    let e = KeygenError::from_error(Error::InvalidUrl);
    assert_eq!(e.kind, ErrorKind::InvalidUrl);
    assert_eq!(e.message(), "{\"details\":\"Invalid URL\",\"type\":\"InvalidUrl\"}");
    let e = KeygenError::from_error(Error::MachineNotFound);
    assert_eq!(e.message(), "{\"details\":\"Machine not found\",\"type\":\"MachineNotFound\"}");
    let e = KeygenError::from_error(Error::CerificateFileExpired);
    assert_eq!(e.message(), "{\"details\":\"Certificate file expired\",\"type\":\"CerificateFileExpired\"}");
}

#[test]
fn text_kind_message_escapes_its_detail() {
    let e = KeygenError::from_error(Error::UnexpectedError("bad \"quote\"\n".to_string()));
    assert_eq!(e.kind, ErrorKind::UnexpectedError);
    assert_eq!(e.message(), "{\"details\":\"bad \\\"quote\\\"\\n\",\"type\":\"UnexpectedError\"}");
}

#[test]
fn code_and_detail_message() {
    let e = KeygenError::from_error(Error::LicenseSuspended {
        code: "LICENSE_SUSPENDED".to_string(),
        detail: "is suspended".to_string(),
    });
    assert_eq!(e.kind, ErrorKind::LicenseSuspended);
    assert_eq!(
        e.message(),
        "{\"details\":{\"code\":\"LICENSE_SUSPENDED\",\"detail\":\"is suspended\"},\"type\":\"LicenseSuspended\"}"
    );
}

#[test]
fn rate_limit_carries_its_window() {
    let e = KeygenError::from_error(Error::RateLimitExceeded {
        window: "30s".to_string(),
        count: 61,
        limit: 60,
        remaining: 0,
        reset: 1700000000,
        retry_after: 12,
    });
    assert_eq!(e.kind, ErrorKind::RateLimitExceeded);
    match &e.payload {
        Payload::RateLimit { window, count, limit, remaining, reset, retry_after } => {
            assert_eq!(window, "30s");
            assert_eq!(*count, 61);
            assert!(*remaining <= *limit);
            assert_eq!(*reset, 1700000000);
            assert_eq!(*retry_after, 12);
        }
        _ => panic!("rate limit without its window"),
    }
    assert_eq!(
        e.message(),
        "{\"details\":{\"count\":61,\"limit\":60,\"remaining\":0,\"reset\":1700000000,\"retry_after\":12,\"window\":\"30s\"},\"type\":\"RateLimitExceeded\"}"
    );
}

#[test]
fn api_error_embeds_its_body() {
    let body: serde_json::Value = serde_json::from_str("{\"errors\":[{\"code\":\"X\"}]}").unwrap();
    let e = KeygenError::from_error(Error::KeygenApiError {
        code: "X".to_string(),
        detail: "failed".to_string(),
        body,
    });
    assert_eq!(e.kind, ErrorKind::KeygenApiError);
    assert_eq!(
        e.message(),
        "{\"details\":{\"body\":{\"errors\":[{\"code\":\"X\"}]},\"code\":\"X\",\"detail\":\"failed\"},\"type\":\"KeygenApiError\"}"
    );
}

#[test]
fn unmapped_failure_is_unknown() {
    let e = KeygenError::from_error(Error::KeygenSignatureMissing);
    assert_eq!(e.kind, ErrorKind::Unknown);
    assert_eq!(e.message(), "Unknown error");
    let e = KeygenError::from_error(Error::NotFound { code: "NOT_FOUND".to_string(), detail: "gone".to_string() });
    assert_eq!(e.kind, ErrorKind::Unknown);
}

#[test]
fn kind_names() {
    assert_eq!(ErrorKind::HeartbeatDead.name(), "HeartbeatDead");
    assert_eq!(ErrorKind::PublicKeyMissing.fixed_detail(), "Public key missing");
    assert_eq!(ErrorKind::TokenInvalid.fixed_detail(), "");
}

#[test]
fn decimal_digits() {
    assert_eq!(decimal_text(0), "0");
    assert_eq!(decimal_text(7), "7");
    assert_eq!(decimal_text(10), "10");
    assert_eq!(decimal_text(18446744073709551615), "18446744073709551615");
}

#[test]
fn not_activated_embeds_the_license() {
    let license = keygen_rs::license::License {
        id: "lic-1".to_string(),
        scheme: None,
        key: "KEY".to_string(),
        name: None,
        expiry: None,
        status: Some("ACTIVE".to_string()),
        policy: None,
        metadata: std::collections::HashMap::new(),
    };
    let e = KeygenError::from_error(Error::LicenseNotActivated {
        code: "NO_MACHINE".to_string(),
        detail: "not activated".to_string(),
        license,
    });
    assert_eq!(e.kind, ErrorKind::LicenseNotActivated);
    assert_eq!(
        e.message(),
        "{\"details\":{\"code\":\"NO_MACHINE\",\"detail\":\"not activated\",\"license\":{\"expiry\":null,\"id\":\"lic-1\",\"key\":\"KEY\",\"metadata\":{},\"name\":null,\"policy\":null,\"status\":\"ACTIVE\"}},\"type\":\"LicenseNotActivated\"}"
    );
}
