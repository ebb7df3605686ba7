use mpesa_dev::doctor::{basic_auth_value, clock_skew_seconds, Doctor, OAuthOutcome, ReportLine, Section};

fn check(line: &ReportLine) -> (String, bool, String) {
    match line {
        ReportLine::Check { label, passed, detail } => (label.clone(), *passed, detail.clone()),
        other => panic!("expected a check row, got {other:?}"),
    }
}

fn hint(line: &ReportLine) -> String {
    match line {
        ReportLine::Hint(t) => t.clone(),
        other => panic!("expected a hint, got {other:?}"),
    }
}

#[test]
fn basic_auth_header() {
    assert_eq!(basic_auth_value("key", "secret"), "Basic a2V5OnNlY3JldA==");
    assert_eq!(basic_auth_value("", ""), "Basic Og==");
}

#[test]
fn a_clean_run_passes() {
    let key = Some("key".to_string());
    let secret = Some("secret".to_string());
    let mut d = Doctor::new(false);
    assert_eq!((d.base_url, d.environment), ("https://sandbox.safaricom.co.ke", "sandbox"));
    match d.section(Section::Reachability) {
        ReportLine::Header(t) => assert_eq!(t, "Daraja sandbox reachability"),
        other => panic!("{other:?}"),
    }
    let lines = d.credentials(&key, &secret);
    assert_eq!(lines.len(), 2);
    assert_eq!(check(&lines[0]), ("MPESA_CONSUMER_KEY is set".to_string(), true, String::new()));
    let lines = d.reachability(true);
    assert_eq!(
        check(&lines[0]),
        ("Daraja sandbox reachable (https://sandbox.safaricom.co.ke)".to_string(), true, String::new())
    );
    let (url, auth) = d.oauth_request(&key, &secret).unwrap();
    assert_eq!(url, "https://sandbox.safaricom.co.ke/oauth/v1/generate?grant_type=client_credentials");
    assert_eq!(auth, "Basic a2V5OnNlY3JldA==");
    let lines = d.oauth(&Some(OAuthOutcome::Answered { success: true, status: "200 OK".to_string(), token: true }));
    assert_eq!(check(&lines[0]), ("OAuth token obtained".to_string(), true, "Credentials are valid".to_string()));
    let lines = d.callback_scheme("https://example.com/cb");
    assert_eq!(check(&lines[0]).2, "https://example.com/cb");
    d.callback_reachability(Some(404));
    d.clock(Some(-299));
    assert!(d.all_ok);
    assert_eq!(d.summary(), "All checks passed.");
}

#[test]
fn failures_come_with_hints() {
    let mut d = Doctor::new(true);
    assert_eq!(d.base_url, "https://api.safaricom.co.ke");
    let lines = d.credentials(&Some(String::new()), &None);
    assert_eq!(lines.len(), 4);
    assert_eq!(check(&lines[0]).2, "Set --consumer-key or export MPESA_CONSUMER_KEY=...");
    assert_eq!(hint(&lines[1]), "export MPESA_CONSUMER_KEY=<your key from Daraja portal>");
    assert_eq!(hint(&lines[3]), "export MPESA_CONSUMER_SECRET=<your secret from Daraja portal>");
    assert!(d.oauth_request(&None, &None).is_none());
    let lines = d.oauth(&None);
    assert_eq!(check(&lines[0]), ("OAuth token obtained".to_string(), false, "Skipped — credentials not provided".to_string()));
    let lines = d.callback_scheme("http://example.com/cb");
    assert_eq!(check(&lines[0]).2, "Daraja requires HTTPS callbacks");
    assert_eq!(hint(&lines[1]), "Use `mpesa-dev tunnel` to get a free HTTPS tunnel URL");
    let lines = d.callback_reachability(Some(500));
    assert!(!check(&lines[0]).1);
    let lines = d.clock(Some(300));
    assert_eq!(check(&lines[0]).2, "Daraja rejects requests with large clock skew");
    assert!(!d.all_ok);
    assert_eq!(d.summary(), "Some checks failed. Fix the items marked FAIL above.");
}

#[test]
fn oauth_failures() {
    let mut d = Doctor::new(false);
    let lines = d.oauth(&Some(OAuthOutcome::Answered { success: false, status: "401 Unauthorized".to_string(), token: false }));
    assert_eq!(check(&lines[0]).2, "HTTP 401 Unauthorized");
    assert_eq!(hint(&lines[1]), "Verify consumer key and secret on https://developer.safaricom.co.ke");
    assert!(!d.all_ok);
    let mut d = Doctor::new(false);
    let lines = d.oauth(&Some(OAuthOutcome::Failed("connection refused".to_string())));
    assert_eq!(check(&lines[0]).2, "connection refused");
    assert_eq!(hint(&lines[1]), "Check network connectivity to Daraja");
    let mut d = Doctor::new(false);
    let lines = d.oauth(&Some(OAuthOutcome::Answered { success: true, status: "200 OK".to_string(), token: false }));
    assert_eq!(check(&lines[0]), ("OAuth token obtained".to_string(), false, "Unexpected response format".to_string()));
    assert_eq!(lines.len(), 1);
    assert!(!d.all_ok);
}

#[test]
fn missing_callback_fails_the_run() {
    let mut d = Doctor::new(false);
    let lines = d.callback_missing();
    assert_eq!(check(&lines[0]), ("Callback URL configured".to_string(), false, "Not provided".to_string()));
    assert_eq!(hint(&lines[1]), "Pass --callback-url or set MPESA_CALLBACK_URL");
    assert!(!d.all_ok);
    assert_eq!(d.summary(), "Some checks failed. Fix the items marked FAIL above.");
}

#[test]
fn unknown_clock_does_not_fail_the_run() {
    let mut d = Doctor::new(false);
    d.clock(None);
    assert!(d.all_ok);
    d.callback_reachability(None);
    assert!(!d.all_ok);
}

#[test]
fn clock_skew_from_date_header() {
    let date = "Wed, 18 Feb 2015 23:16:09 GMT";
    let server: i128 = 1424301369;
    let ns: i128 = 1_000_000_000;
    assert_eq!(clock_skew_seconds(date, server * ns), Some(0));
    assert_eq!(clock_skew_seconds(date, (server + 400) * ns + 999_999_999), Some(400));
    assert_eq!(clock_skew_seconds(date, (server - 301) * ns + 1), Some(-300));
    assert_eq!(clock_skew_seconds(date, server * ns - 500_000_000), Some(0));
    assert_eq!(clock_skew_seconds("not a date", server * ns), None);
    let mut d = Doctor::new(false);
    d.clock(clock_skew_seconds(date, (server - 301) * ns + 1));
    assert!(!d.all_ok);
}
