//! The `doctor` checklist: for each check, what it concludes from what was
//! observed, which rows and hints it reports, and whether every check passed.
use vstd::prelude::*;
use vstd::string::StringSliceAdditionalSpecFns;
use vstd::utf8::encode_utf8;

use crate::daraja::client::oauth_url;
use crate::text::{has_prefix, lemma_encode_utf8_concat, starts_with};

verus! {

/// The character of a 6-bit value in base64's standard alphabet:
/// `A`-`Z`, `a`-`z`, `0`-`9`, `+`, `/`.
pub open spec fn base64_digit(v: int) -> char {
    if v < 26 {
        (65 + v) as char
    } else if v < 52 {
        (97 + (v - 26)) as char
    } else if v < 62 {
        (48 + (v - 52)) as char
    } else if v == 62 {
        '+'
    } else {
        '/'
    }
}

/// Standard base64 with `=` padding (RFC 4648): each group of three bytes
/// becomes four characters of six bits each, and a last group of one or
/// two bytes becomes two or three characters padded with `=` to four.
pub open spec fn base64_standard(bytes: Seq<u8>) -> Seq<char>
    decreases bytes.len(),
{
    if bytes.len() == 0 {
        Seq::empty()
    } else if bytes.len() == 1 {
        let a = bytes[0] as int;
        seq![base64_digit(a / 4), base64_digit((a % 4) * 16), '=', '=']
    } else if bytes.len() == 2 {
        let a = bytes[0] as int;
        let b = bytes[1] as int;
        seq![base64_digit(a / 4), base64_digit((a % 4) * 16 + b / 16), base64_digit((b % 16) * 4), '=']
    } else {
        let a = bytes[0] as int;
        let b = bytes[1] as int;
        let c = bytes[2] as int;
        seq![
            base64_digit(a / 4),
            base64_digit((a % 4) * 16 + b / 16),
            base64_digit((b % 16) * 4 + c / 64),
            base64_digit(c % 64),
        ] + base64_standard(bytes.skip(3))
    }
}

/// `base64::engine::general_purpose::STANDARD.encode(bytes)`: standard
/// base64 with padding. `encode` panics only when the padded length
/// overflows `usize`, which the bound on the input rules out.
#[verifier::external_body]
fn encode_base64(bytes: &[u8]) -> (s: String)
    requires
        bytes@.len() <= usize::MAX / 2,
    ensures
        s@ == base64_standard(bytes@),
{
    base64::Engine::encode(&base64::engine::general_purpose::STANDARD, bytes)
}

/// The instant an RFC 2822 date (such as an HTTP `Date` header) denotes,
/// in whole seconds since the Unix epoch, as chrono parses it.
pub uninterp spec fn rfc2822_unix_seconds(date: Seq<char>) -> Option<int>;

/// `chrono::DateTime::parse_from_rfc2822(date)`, taken to its Unix
/// timestamp. The parsed instant is named `rfc2822_unix_seconds`; chrono's
/// dates lie within years -262143..=262142, so its timestamp is below 10^13
/// seconds either way.
#[verifier::external_body]
fn parse_rfc2822(date: &str) -> (r: Option<i64>)
    ensures
        match r {
            Some(t) => rfc2822_unix_seconds(date@) == Some(t as int) && -10_000_000_000_000 < t
                < 10_000_000_000_000,
            None => rfc2822_unix_seconds(date@) is None,
        },
{
    chrono::DateTime::parse_from_rfc2822(date).ok().map(|dt| dt.timestamp())
}

/// Whole seconds in a span of nanoseconds, truncated toward zero.
pub open spec fn whole_seconds(nanos: int) -> int {
    if nanos >= 0 {
        nanos / 1_000_000_000
    } else {
        -((-nanos) / 1_000_000_000)
    }
}

/// The local clock's lead over a server time, in whole seconds.
pub open spec fn skew_of(now_nanos: int, server_seconds: int) -> int {
    whole_seconds(now_nanos - server_seconds * 1_000_000_000)
}

/// How far the local clock, at `now_nanos` nanoseconds since the Unix
/// epoch, runs ahead of the time in a server's `Date` header, in whole
/// seconds truncated toward zero; `None` when the header does not parse.
pub fn clock_skew_seconds(date: &str, now_nanos: i128) -> (r: Option<i64>)
    requires
        -1_000_000_000_000_000_000_000_000 < now_nanos < 1_000_000_000_000_000_000_000_000,
    ensures
        match r {
            Some(skew) => rfc2822_unix_seconds(date@) matches Some(t) && skew == skew_of(now_nanos as int, t),
            None => rfc2822_unix_seconds(date@) is None,
        },
{
    match parse_rfc2822(date) {
        Some(t) => {
            let diff: i128 = now_nanos - (t as i128) * 1_000_000_000;
            let whole: i128 = if diff >= 0 {
                diff / 1_000_000_000
            } else {
                -((-diff) / 1_000_000_000)
            };
            Some(whole as i64)
        },
        None => None,
    }
}

/// One line of the doctor's report.
#[derive(Debug, Clone)]
pub enum ReportLine {
    /// A section header.
    Header(String),
    /// A pass/fail row, with an optional detail (empty when there is none).
    Check { label: String, passed: bool, detail: String },
    /// A hint on how to fix something.
    Hint(String),
}

/// What a report line says.
pub enum LineView {
    Header(Seq<char>),
    Check(Seq<char>, bool, Seq<char>),
    Hint(Seq<char>),
}

impl View for ReportLine {
    type V = LineView;

    open spec fn view(&self) -> LineView {
        match self {
            ReportLine::Header(t) => LineView::Header(t@),
            ReportLine::Check { label, passed, detail } => LineView::Check(label@, *passed, detail@),
            ReportLine::Hint(t) => LineView::Hint(t@),
        }
    }
}

/// What a sequence of report lines says.
pub open spec fn views(lines: Seq<ReportLine>) -> Seq<LineView> {
    lines.map_values(|l: ReportLine| l@)
}

/// The sections of the report.
#[derive(Debug, Clone, Copy)]
pub enum Section {
    Credentials,
    Reachability,
    OAuth,
    Callback,
    Clock,
}

/// The state of a doctor run.
#[derive(Debug, Clone)]
pub struct Doctor {
    pub base_url: &'static str,
    pub environment: &'static str,
    /// Both credentials were provided.
    pub credentials_ok: bool,
    /// Every check so far passed.
    pub all_ok: bool,
}

/// A setting counts as provided when it is set to a non-empty value.
pub open spec fn provided(value: Option<String>) -> bool {
    value matches Some(v) && v@.len() > 0
}

/// How the OAuth round trip went.
#[derive(Debug, Clone)]
pub enum OAuthOutcome {
    /// Daraja answered; `status` is the status as displayed, `success`
    /// whether it is a 2xx status, and `token` whether the body held an
    /// access token.
    Answered { success: bool, status: String, token: bool },
    /// The request failed before an answer came, with this error text.
    Failed(String),
}

fn emit_check(lines: &mut Vec<ReportLine>, label: &str, passed: bool, detail: &str)
    ensures
        views(final(lines)@) == views(old(lines)@).push(LineView::Check(label@, passed, detail@)),
{
    lines.push(ReportLine::Check { label: String::from_str(label), passed, detail: String::from_str(detail) });
    assert(views(lines@) =~= views(old(lines)@).push(LineView::Check(label@, passed, detail@)));
}

fn emit_hint(lines: &mut Vec<ReportLine>, text: &str)
    ensures
        views(final(lines)@) == views(old(lines)@).push(LineView::Hint(text@)),
{
    lines.push(ReportLine::Hint(String::from_str(text)));
    assert(views(lines@) =~= views(old(lines)@).push(LineView::Hint(text@)));
}

fn is_provided(value: &Option<String>) -> (r: bool)
    ensures
        r == provided(*value),
{
    match value {
        Some(v) => !v.as_str().is_empty(),
        None => false,
    }
}

/// `value`, or the empty string when it is not set.
pub open spec fn or_empty(value: Option<String>) -> Seq<char> {
    match value {
        Some(v) => v@,
        None => Seq::empty(),
    }
}

/// The `Authorization` header value for HTTP basic auth with these credentials.
pub open spec fn basic_auth_text(key: Seq<char>, secret: Seq<char>) -> Seq<char> {
    "Basic "@ + base64_standard(encode_utf8(key + ":"@ + secret))
}

/// `Basic {base64(key:secret)}`.
pub fn basic_auth_value(key: &str, secret: &str) -> (s: String)
    requires
        key.spec_bytes().len() + secret.spec_bytes().len() < usize::MAX / 2,
    ensures
        s@ == basic_auth_text(key@, secret@),
{
    let mut credentials = String::from_str(key);
    credentials.append(":");
    credentials.append(secret);
    let bytes = credentials.as_str().as_bytes();
    proof {
        reveal_strlit(":");
        assert(":"@.drop_first() =~= Seq::<char>::empty());
        assert(":"@[0] == ':');
        assert(vstd::utf8::has_width_1_encoding(':' as u32));
        assert(vstd::utf8::encode_scalar(':' as u32).len() == 1);
        assert(encode_utf8(Seq::<char>::empty()).len() == 0);
        assert(encode_utf8(":"@).len() == 1);
        lemma_encode_utf8_concat(key@, ":"@);
        lemma_encode_utf8_concat(key@ + ":"@, secret@);
    }
    let encoded = encode_base64(bytes);
    let mut s = String::from_str("Basic ");
    s.append(encoded.as_str());
    s
}

/// The lines hold a failed check row.
pub open spec fn reports_failure(lines: Seq<LineView>) -> bool {
    exists|i: int| 0 <= i < lines.len() && (#[trigger] lines[i]) matches LineView::Check(_, false, _)
}

/// A row, followed by a hint when it failed.
pub open spec fn row(label: Seq<char>, passed: bool, detail: Seq<char>, fix: Seq<char>) -> Seq<LineView> {
    if passed {
        seq![LineView::Check(label, passed, detail)]
    } else {
        seq![LineView::Check(label, passed, detail), LineView::Hint(fix)]
    }
}

pub open spec fn environment_for(production: bool) -> Seq<char> {
    if production { "production"@ } else { "sandbox"@ }
}

pub open spec fn base_url_for(production: bool) -> Seq<char> {
    if production { "https://api.safaricom.co.ke"@ } else { "https://sandbox.safaricom.co.ke"@ }
}

pub open spec fn section_title(d: Doctor, section: Section) -> Seq<char> {
    match section {
        Section::Credentials => "Credentials"@,
        Section::Reachability => "Daraja "@ + d.environment@ + " reachability"@,
        Section::OAuth => "OAuth"@,
        Section::Callback => "Callback URL"@,
        Section::Clock => "System clock"@,
    }
}

pub open spec fn credential_lines(key_ok: bool, secret_ok: bool) -> Seq<LineView> {
    row(
        "MPESA_CONSUMER_KEY is set"@,
        key_ok,
        if key_ok { Seq::empty() } else { "Set --consumer-key or export MPESA_CONSUMER_KEY=..."@ },
        "export MPESA_CONSUMER_KEY=<your key from Daraja portal>"@,
    ) + row(
        "MPESA_CONSUMER_SECRET is set"@,
        secret_ok,
        if secret_ok { Seq::empty() } else { "Set --consumer-secret or export MPESA_CONSUMER_SECRET=..."@ },
        "export MPESA_CONSUMER_SECRET=<your secret from Daraja portal>"@,
    )
}

pub open spec fn reachability_lines(d: Doctor, reachable: bool) -> Seq<LineView> {
    row(
        "Daraja "@ + d.environment@ + " reachable ("@ + d.base_url@ + ")"@,
        reachable,
        if reachable { Seq::empty() } else { "Check your network or VPN settings"@ },
        "Ensure you can reach sandbox.safaricom.co.ke on port 443"@,
    )
}

/// The OAuth check passes when Daraja answered with a 2xx status and a token.
pub open spec fn oauth_passed(outcome: OAuthOutcome) -> bool {
    outcome matches OAuthOutcome::Answered { success: true, token: true, .. }
}

pub open spec fn oauth_lines(outcome: Option<OAuthOutcome>) -> Seq<LineView> {
    match outcome {
        None => seq![LineView::Check("OAuth token obtained"@, false, "Skipped — credentials not provided"@)],
        Some(OAuthOutcome::Answered { success: true, token, .. }) => seq![
            LineView::Check(
                "OAuth token obtained"@,
                token,
                if token { "Credentials are valid"@ } else { "Unexpected response format"@ },
            ),
        ],
        Some(OAuthOutcome::Answered { success: false, status, .. }) => seq![
            LineView::Check("OAuth token obtained"@, false, "HTTP "@ + status@),
            LineView::Hint("Verify consumer key and secret on https://developer.safaricom.co.ke"@),
        ],
        Some(OAuthOutcome::Failed(err)) => seq![
            LineView::Check("OAuth token obtained"@, false, err@),
            LineView::Hint("Check network connectivity to Daraja"@),
        ],
    }
}

pub open spec fn scheme_lines(url: Seq<char>, ok: bool) -> Seq<LineView> {
    row(
        "Callback URL uses HTTPS"@,
        ok,
        if ok { url } else { "Daraja requires HTTPS callbacks"@ },
        "Use `mpesa-dev tunnel` to get a free HTTPS tunnel URL"@,
    )
}

/// The callback URL counts as reachable when a HEAD request to it got an
/// answer below 500.
pub open spec fn callback_reachable(status: Option<u16>) -> bool {
    status matches Some(s) && s < 500
}

/// A HEAD answer counts as reachable exactly when its status is below 500:
/// every server error (500, 502, 503, 504, ...) and no answer at all fail the
/// check, with a failed row in the report.
pub proof fn server_errors_fail_the_callback_check(status: Option<u16>)
    ensures
        callback_reachable(status) <==> (status matches Some(s) && s < 500),
        reports_failure(callback_reach_lines(callback_reachable(status))) <==> !(status matches Some(s)
            && s < 500),
{
    let lines = callback_reach_lines(callback_reachable(status));
    if !callback_reachable(status) {
        assert(lines[0] matches LineView::Check(_, false, _));
    } else {
        assert(lines.len() == 1);
        assert(lines[0] matches LineView::Check(_, true, _));
    }
}

/// The clock check fails exactly when network time was had and the skew is
/// five minutes or more either way.
pub proof fn large_skew_fails_the_clock_check(skew_seconds: Option<i64>)
    ensures
        !clock_ok(skew_seconds) <==> (skew_seconds matches Some(s) && (s <= -300 || 300 <= s)),
        reports_failure(clock_lines(clock_ok(skew_seconds))) <==> !clock_ok(skew_seconds),
{
    let lines = clock_lines(clock_ok(skew_seconds));
    if !clock_ok(skew_seconds) {
        assert(lines[0] matches LineView::Check(_, false, _));
    } else {
        assert(lines.len() == 1);
        assert(lines[0] matches LineView::Check(_, true, _));
    }
}

pub open spec fn callback_reach_lines(ok: bool) -> Seq<LineView> {
    row(
        "Callback URL is reachable"@,
        ok,
        if ok { Seq::empty() } else { "Could not reach the callback URL"@ },
        "Run `mpesa-dev tunnel --port <local-port>` to expose your local server"@,
    )
}

/// The clock is within tolerance when its skew against network time is
/// under five minutes, or when no network time could be had.
pub open spec fn clock_ok(skew_seconds: Option<i64>) -> bool {
    match skew_seconds {
        Some(s) => -300 < s < 300,
        None => true,
    }
}

pub open spec fn clock_lines(ok: bool) -> Seq<LineView> {
    row(
        "System clock within 5 minutes of network time"@,
        ok,
        if ok { Seq::empty() } else { "Daraja rejects requests with large clock skew"@ },
        "Sync your system clock: `sudo timedatectl set-ntp true` (Linux) or check Date & Time settings"@,
    )
}

pub open spec fn summary_of(all_ok: bool) -> Seq<char> {
    if all_ok {
        "All checks passed."@
    } else {
        "Some checks failed. Fix the items marked FAIL above."@
    }
}

/// The same run, with `all_ok` and `credentials_ok` possibly changed.
pub open spec fn same_target(a: Doctor, b: Doctor) -> bool {
    a.base_url == b.base_url && a.environment == b.environment
}

impl Doctor {
    /// A run against production or sandbox, before any check.
    pub fn new(production: bool) -> (d: Doctor)
        ensures
            d.base_url@ == base_url_for(production),
            d.environment@ == environment_for(production),
            d.all_ok,
            !d.credentials_ok,
    {
        if production {
            Doctor {
                base_url: "https://api.safaricom.co.ke",
                environment: "production",
                credentials_ok: false,
                all_ok: true,
            }
        } else {
            Doctor {
                base_url: "https://sandbox.safaricom.co.ke",
                environment: "sandbox",
                credentials_ok: false,
                all_ok: true,
            }
        }
    }

    /// The header of a section.
    pub fn section(&self, section: Section) -> (line: ReportLine)
        ensures
            line@ == LineView::Header(section_title(*self, section)),
    {
        match section {
            Section::Credentials => ReportLine::Header(String::from_str("Credentials")),
            Section::Reachability => {
                let mut t = String::from_str("Daraja ");
                t.append(self.environment);
                t.append(" reachability");
                ReportLine::Header(t)
            },
            Section::OAuth => ReportLine::Header(String::from_str("OAuth")),
            Section::Callback => ReportLine::Header(String::from_str("Callback URL")),
            Section::Clock => ReportLine::Header(String::from_str("System clock")),
        }
    }

    /// Checks that a consumer key and secret were provided.
    pub fn credentials(&mut self, key: &Option<String>, secret: &Option<String>) -> (lines: Vec<ReportLine>)
        ensures
            reports_failure(views(lines@)) ==> !final(self).all_ok,
            !reports_failure(views(lines@)) ==> final(self).all_ok == old(self).all_ok,
            same_target(*old(self), *final(self)),
            final(self).credentials_ok == (provided(*key) && provided(*secret)),
            final(self).all_ok == (old(self).all_ok && provided(*key) && provided(*secret)),
            views(lines@) == credential_lines(provided(*key), provided(*secret)),
    {
        let key_ok = is_provided(key);
        let secret_ok = is_provided(secret);
        self.all_ok = self.all_ok && key_ok && secret_ok;
        self.credentials_ok = key_ok && secret_ok;
        let mut lines: Vec<ReportLine> = Vec::new();
        proof {
            reveal_strlit("");
        }
        assert(views(lines@) =~= Seq::<LineView>::empty());
        assert(""@ =~= Seq::<char>::empty());
        if key_ok {
            emit_check(&mut lines, "MPESA_CONSUMER_KEY is set", true, "");
        } else {
            emit_check(&mut lines, "MPESA_CONSUMER_KEY is set", false, "Set --consumer-key or export MPESA_CONSUMER_KEY=...");
            emit_hint(&mut lines, "export MPESA_CONSUMER_KEY=<your key from Daraja portal>");
        }
        if secret_ok {
            emit_check(&mut lines, "MPESA_CONSUMER_SECRET is set", true, "");
        } else {
            emit_check(&mut lines, "MPESA_CONSUMER_SECRET is set", false, "Set --consumer-secret or export MPESA_CONSUMER_SECRET=...");
            emit_hint(&mut lines, "export MPESA_CONSUMER_SECRET=<your secret from Daraja portal>");
        }
        assert(views(lines@) =~= credential_lines(key_ok, secret_ok));
        proof {
            if !key_ok {
                assert(views(lines@)[0] matches LineView::Check(_, false, _));
            } else if !secret_ok {
                assert(views(lines@)[1] matches LineView::Check(_, false, _));
            }
        }
        lines
    }

    /// Records whether the Daraja API host answered at all.
    pub fn reachability(&mut self, reachable: bool) -> (lines: Vec<ReportLine>)
        ensures
            reports_failure(views(lines@)) ==> !final(self).all_ok,
            !reports_failure(views(lines@)) ==> final(self).all_ok == old(self).all_ok,
            same_target(*old(self), *final(self)),
            final(self).credentials_ok == old(self).credentials_ok,
            final(self).all_ok == (old(self).all_ok && reachable),
            views(lines@) == reachability_lines(*old(self), reachable),
    {
        self.all_ok = self.all_ok && reachable;
        let mut label = String::from_str("Daraja ");
        label.append(self.environment);
        label.append(" reachable (");
        label.append(self.base_url);
        label.append(")");
        let mut lines: Vec<ReportLine> = Vec::new();
        assert(views(lines@) =~= Seq::<LineView>::empty());
        proof {
            reveal_strlit("");
        }
        assert(""@ =~= Seq::<char>::empty());
        if reachable {
            emit_check(&mut lines, label.as_str(), true, "");
        } else {
            emit_check(&mut lines, label.as_str(), false, "Check your network or VPN settings");
            emit_hint(&mut lines, "Ensure you can reach sandbox.safaricom.co.ke on port 443");
        }
        assert(views(lines@) =~= reachability_lines(*old(self), reachable));
        lines
    }

    /// The token endpoint and `Authorization` header value of the OAuth
    /// round trip, when both credentials were provided; `None` when the
    /// round trip is to be skipped.
    pub fn oauth_request(&self, key: &Option<String>, secret: &Option<String>) -> (r: Option<(String, String)>)
        requires
            encode_utf8(or_empty(*key)).len() + encode_utf8(or_empty(*secret)).len() < usize::MAX / 2,
        ensures
            match r {
                Some((url, auth)) => self.credentials_ok && url@ == self.base_url@
                    + "/oauth/v1/generate?grant_type=client_credentials"@ && auth@ == basic_auth_text(
                    or_empty(*key),
                    or_empty(*secret),
                ),
                None => !self.credentials_ok,
            },
    {
        if !self.credentials_ok {
            return None;
        }
        let k: &str = match key {
            Some(k) => k.as_str(),
            None => "",
        };
        let s: &str = match secret {
            Some(s) => s.as_str(),
            None => "",
        };
        proof {
            reveal_strlit("");
        }
        assert(k@ == or_empty(*key));
        assert(s@ == or_empty(*secret));
        Some((oauth_url(self.base_url), basic_auth_value(k, s)))
    }

    /// Records how the OAuth round trip went, or that it was skipped for
    /// want of credentials, which fails the run.
    pub fn oauth(&mut self, outcome: &Option<OAuthOutcome>) -> (lines: Vec<ReportLine>)
        ensures
            reports_failure(views(lines@)) ==> !final(self).all_ok,
            !reports_failure(views(lines@)) ==> final(self).all_ok == old(self).all_ok,
            same_target(*old(self), *final(self)),
            final(self).credentials_ok == old(self).credentials_ok,
            final(self).all_ok == match *outcome {
                Some(o) => old(self).all_ok && oauth_passed(o),
                None => false,
            },
            views(lines@) == oauth_lines(*outcome),
    {
        let mut lines: Vec<ReportLine> = Vec::new();
        assert(views(lines@) =~= Seq::<LineView>::empty());
        match outcome {
            None => {
                self.all_ok = false;
                emit_check(&mut lines, "OAuth token obtained", false, "Skipped — credentials not provided");
            },
            Some(OAuthOutcome::Answered { success, status, token }) => {
                if *success {
                    self.all_ok = self.all_ok && *token;
                    if *token {
                        emit_check(&mut lines, "OAuth token obtained", true, "Credentials are valid");
                    } else {
                        emit_check(&mut lines, "OAuth token obtained", false, "Unexpected response format");
                    }
                } else {
                    self.all_ok = false;
                    let mut detail = String::from_str("HTTP ");
                    detail.append(status.as_str());
                    emit_check(&mut lines, "OAuth token obtained", false, detail.as_str());
                    emit_hint(&mut lines, "Verify consumer key and secret on https://developer.safaricom.co.ke");
                }
            },
            Some(OAuthOutcome::Failed(err)) => {
                self.all_ok = false;
                emit_check(&mut lines, "OAuth token obtained", false, err.as_str());
                emit_hint(&mut lines, "Check network connectivity to Daraja");
            },
        }
        assert(views(lines@) =~= oauth_lines(*outcome));
        proof {
            if self.all_ok != old(self).all_ok {
                assert(views(lines@)[0] matches LineView::Check(_, false, _));
            }
        }
        lines
    }

    /// Checks that the callback URL uses HTTPS, as Daraja requires.
    pub fn callback_scheme(&mut self, url: &str) -> (lines: Vec<ReportLine>)
        ensures
            reports_failure(views(lines@)) ==> !final(self).all_ok,
            !reports_failure(views(lines@)) ==> final(self).all_ok == old(self).all_ok,
            same_target(*old(self), *final(self)),
            final(self).credentials_ok == old(self).credentials_ok,
            final(self).all_ok == (old(self).all_ok && has_prefix(url@, "https://"@)),
            views(lines@) == scheme_lines(url@, has_prefix(url@, "https://"@)),
    {
        let ok = starts_with(url, "https://");
        self.all_ok = self.all_ok && ok;
        let mut lines: Vec<ReportLine> = Vec::new();
        assert(views(lines@) =~= Seq::<LineView>::empty());
        if ok {
            emit_check(&mut lines, "Callback URL uses HTTPS", true, url);
        } else {
            emit_check(&mut lines, "Callback URL uses HTTPS", false, "Daraja requires HTTPS callbacks");
            emit_hint(&mut lines, "Use `mpesa-dev tunnel` to get a free HTTPS tunnel URL");
        }
        assert(views(lines@) =~= scheme_lines(url@, ok));
        lines
    }

    /// Records whether the callback URL answered a HEAD request, and with
    /// which status.
    pub fn callback_reachability(&mut self, status: Option<u16>) -> (lines: Vec<ReportLine>)
        ensures
            reports_failure(views(lines@)) ==> !final(self).all_ok,
            !reports_failure(views(lines@)) ==> final(self).all_ok == old(self).all_ok,
            same_target(*old(self), *final(self)),
            final(self).credentials_ok == old(self).credentials_ok,
            final(self).all_ok == (old(self).all_ok && callback_reachable(status)),
            views(lines@) == callback_reach_lines(callback_reachable(status)),
    {
        let ok = match status {
            Some(s) => s < 500,
            None => false,
        };
        self.all_ok = self.all_ok && ok;
        let mut lines: Vec<ReportLine> = Vec::new();
        assert(views(lines@) =~= Seq::<LineView>::empty());
        proof {
            reveal_strlit("");
        }
        assert(""@ =~= Seq::<char>::empty());
        if ok {
            emit_check(&mut lines, "Callback URL is reachable", true, "");
        } else {
            emit_check(&mut lines, "Callback URL is reachable", false, "Could not reach the callback URL");
            emit_hint(&mut lines, "Run `mpesa-dev tunnel --port <local-port>` to expose your local server");
        }
        assert(views(lines@) =~= callback_reach_lines(ok));
        lines
    }

    /// Reports that no callback URL was configured, which fails the run.
    pub fn callback_missing(&mut self) -> (lines: Vec<ReportLine>)
        ensures
            reports_failure(views(lines@)) ==> !final(self).all_ok,
            !reports_failure(views(lines@)) ==> final(self).all_ok == old(self).all_ok,
            same_target(*old(self), *final(self)),
            final(self).credentials_ok == old(self).credentials_ok,
            !final(self).all_ok,
            views(lines@) == seq![
                LineView::Check("Callback URL configured"@, false, "Not provided"@),
                LineView::Hint("Pass --callback-url or set MPESA_CALLBACK_URL"@),
            ],
    {
        self.all_ok = false;
        let mut lines: Vec<ReportLine> = Vec::new();
        assert(views(lines@) =~= Seq::<LineView>::empty());
        emit_check(&mut lines, "Callback URL configured", false, "Not provided");
        emit_hint(&mut lines, "Pass --callback-url or set MPESA_CALLBACK_URL");
        lines
    }

    /// Records the skew between the local clock and network time, in
    /// seconds, or `None` when network time could not be had.
    pub fn clock(&mut self, skew_seconds: Option<i64>) -> (lines: Vec<ReportLine>)
        ensures
            reports_failure(views(lines@)) ==> !final(self).all_ok,
            !reports_failure(views(lines@)) ==> final(self).all_ok == old(self).all_ok,
            same_target(*old(self), *final(self)),
            final(self).credentials_ok == old(self).credentials_ok,
            final(self).all_ok == (old(self).all_ok && clock_ok(skew_seconds)),
            views(lines@) == clock_lines(clock_ok(skew_seconds)),
    {
        let ok = match skew_seconds {
            Some(s) => -300 < s && s < 300,
            None => true,
        };
        self.all_ok = self.all_ok && ok;
        let mut lines: Vec<ReportLine> = Vec::new();
        assert(views(lines@) =~= Seq::<LineView>::empty());
        proof {
            reveal_strlit("");
        }
        assert(""@ =~= Seq::<char>::empty());
        if ok {
            emit_check(&mut lines, "System clock within 5 minutes of network time", true, "");
        } else {
            emit_check(&mut lines, "System clock within 5 minutes of network time", false, "Daraja rejects requests with large clock skew");
            emit_hint(&mut lines, "Sync your system clock: `sudo timedatectl set-ntp true` (Linux) or check Date & Time settings");
        }
        assert(views(lines@) =~= clock_lines(ok));
        lines
    }

    /// The closing line of the report.
    pub fn summary(&self) -> (text: &'static str)
        ensures
            text@ == summary_of(self.all_ok),
    {
        if self.all_ok {
            "All checks passed."
        } else {
            "Some checks failed. Fix the items marked FAIL above."
        }
    }
}

} // verus!
