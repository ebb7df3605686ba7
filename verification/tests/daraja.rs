use mpesa_dev::daraja::client::{failure_error, oauth_url, parse_expires_in, stk_push_url, CachedToken, TokenCache};
use mpesa_dev::daraja::models::{DarajaErrorResponse, OAuthTokenResponse};
use mpesa_dev::daraja::result_code::{describe, Outcome};
use mpesa_dev::error::Error;

#[test]
fn describes_result_codes() {
    assert_eq!(describe(0), (Outcome::Success, "Success — the transaction completed"));
    assert_eq!(describe(1032), (Outcome::Failure, "Cancelled — the customer pressed cancel on the STK prompt"));
    assert_eq!(describe(9999).1, "Unknown error from Safaricom — check ResultDesc for details");
    assert_eq!(describe(42), (Outcome::Failure, "Unrecognized ResultCode — check ResultDesc for details"));
    assert_eq!(describe(1003), (Outcome::Failure, "PIN retries exceeded"));
    assert_eq!(describe(1022), (Outcome::Failure, "Insufficient balance"));
    assert_eq!(describe(1019).1, "Transaction expired — the customer took too long to respond");
    for code in [0i64, 1, 2, 11, 1003, 1011, 1032, 1037, 2001] {
        assert_ne!(describe(code).1, "Unrecognized ResultCode — check ResultDesc for details");
    }
    for code in [-1, 1, 17, 26, 1001, 1003, 1019, 1025, 1037, 2001] {
        assert_eq!(describe(code).0, Outcome::Failure);
    }
}

#[test]
fn error_descriptions() {
    let full = DarajaErrorResponse {
        request_id: Some("r".to_string()),
        error_code: Some("404.001.03".to_string()),
        error_message: Some("Invalid Access Token".to_string()),
    };
    assert_eq!(full.description(), "404.001.03: Invalid Access Token");
    let only_msg = DarajaErrorResponse { error_code: None, ..full.clone() };
    assert_eq!(only_msg.description(), "Invalid Access Token");
    let only_code = DarajaErrorResponse { error_message: None, ..full };
    assert_eq!(only_code.description(), "unknown Daraja error");
}

#[test]
fn failed_responses_become_api_errors() {
    let parsed = Some(DarajaErrorResponse {
        request_id: None,
        error_code: Some("400.002.02".to_string()),
        error_message: Some("Bad Request".to_string()),
    });
    match failure_error("400 Bad Request", "{...}", &parsed) {
        Error::Api(m) => assert_eq!(m, "HTTP 400 Bad Request: 400.002.02: Bad Request"),
        other => panic!("{other:?}"),
    }
    match failure_error("502 Bad Gateway", "upstream down", &None) {
        Error::Api(m) => assert_eq!(m, "HTTP 502 Bad Gateway: upstream down"),
        other => panic!("{other:?}"),
    }
}

#[test]
fn expires_in_is_parsed() {
    let ok = OAuthTokenResponse { access_token: "t".to_string(), expires_in: "3599".to_string() };
    assert_eq!(parse_expires_in(&ok).unwrap(), 3599);
    let bad = OAuthTokenResponse { access_token: "t".to_string(), expires_in: "soon".to_string() };
    match parse_expires_in(&bad) {
        Err(Error::Api(m)) => assert_eq!(m, "unexpected expires_in value: soon"),
        other => panic!("{other:?}"),
    }
}

#[test]
fn endpoint_urls() {
    assert_eq!(
        oauth_url("https://sandbox.safaricom.co.ke"),
        "https://sandbox.safaricom.co.ke/oauth/v1/generate?grant_type=client_credentials"
    );
    assert_eq!(
        stk_push_url("https://api.safaricom.co.ke"),
        "https://api.safaricom.co.ke/mpesa/stkpush/v1/processrequest"
    );
}

#[test]
fn token_cache_serves_fresh_tokens_only() {
    let second: i128 = 1_000_000_000;
    let mut cache = TokenCache::new();
    assert_eq!(cache.lookup(0), None);
    cache.store(CachedToken { access_token: "abc".to_string(), expires_at: 100 * second });
    assert_eq!(cache.lookup(0), Some("abc".to_string()));
    assert_eq!(cache.lookup(69 * second), Some("abc".to_string()));
    assert_eq!(cache.lookup(70 * second), None);
    assert_eq!(cache.lookup(200 * second), None);
    cache.store(CachedToken { access_token: "def".to_string(), expires_at: 300 * second });
    assert_eq!(cache.lookup(200 * second), Some("def".to_string()));
}
