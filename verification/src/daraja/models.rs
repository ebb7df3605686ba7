//! Typed Daraja request and response bodies.
use vstd::prelude::*;

verus! {

/// Body of `GET /oauth/v1/generate?grant_type=client_credentials`.
/// Daraja sends `expires_in` as a numeric string (e.g. `"3599"`), which the
/// client parses.
#[derive(Debug, Clone)]
pub struct OAuthTokenResponse {
    pub access_token: String,
    pub expires_in: String,
}

/// Error body Daraja returns on most non-2xx responses.
#[derive(Debug, Clone)]
pub struct DarajaErrorResponse {
    pub request_id: Option<String>,
    pub error_code: Option<String>,
    pub error_message: Option<String>,
}

/// What `DarajaErrorResponse::description` reports.
pub open spec fn error_description(error_code: Option<Seq<char>>, error_message: Option<Seq<char>>) -> Seq<char> {
    match (error_code, error_message) {
        (Some(code), Some(msg)) => code + ": "@ + msg,
        (None, Some(msg)) => msg,
        _ => "unknown Daraja error"@,
    }
}

/// The view of an optional string.
pub open spec fn opt_view(s: Option<String>) -> Option<Seq<char>> {
    match s {
        Some(s) => Some(s@),
        None => None,
    }
}

impl DarajaErrorResponse {
    /// `"{code}: {message}"` when both are present, the message alone when
    /// there is no code, and a fixed fallback otherwise.
    pub fn description(&self) -> (d: String)
        ensures
            d@ == error_description(opt_view(self.error_code), opt_view(self.error_message)),
    {
        match (&self.error_code, &self.error_message) {
            (Some(code), Some(msg)) => {
                let mut d = code.clone();
                d.append(": ");
                d.append(msg.as_str());
                d
            },
            (None, Some(msg)) => msg.clone(),
            _ => String::from_str("unknown Daraja error"),
        }
    }
}

/// Body of `POST /mpesa/stkpush/v1/processrequest` (Lipa na M-Pesa Online).
#[derive(Debug, Clone)]
pub struct StkPushRequest {
    pub business_short_code: String,
    pub password: String,
    pub timestamp: String,
    pub transaction_type: String,
    pub amount: u32,
    pub party_a: String,
    pub party_b: String,
    pub phone_number: String,
    pub callback_url: String,
    pub account_reference: String,
    pub transaction_desc: String,
}

/// Body of a successful STK push submission. It only confirms the request
/// was accepted; the payment result arrives later as a callback.
#[derive(Debug, Clone)]
pub struct StkPushResponse {
    pub merchant_request_id: String,
    pub checkout_request_id: String,
    pub response_code: String,
    pub response_description: String,
    pub customer_message: String,
}

/// The body Daraja posts to the callback URL when an STK push completes.
#[derive(Debug, Clone)]
pub struct StkCallbackEnvelope {
    pub body: StkCallbackBody,
}

#[derive(Debug, Clone)]
pub struct StkCallbackBody {
    pub stk_callback: StkCallback,
}

/// The result of one STK push.
#[derive(Debug, Clone)]
pub struct StkCallback {
    pub merchant_request_id: String,
    pub checkout_request_id: String,
    pub result_code: i64,
    pub result_desc: String,
    /// Present on successful payments only.
    pub callback_metadata: Option<CallbackMetadata>,
}

/// Name/value details of a successful payment (amount, receipt, phone, ...).
#[derive(Debug, Clone)]
pub struct CallbackMetadata {
    pub item: Vec<CallbackMetadataItem>,
}

/// One metadata entry. Daraja's values are JSON strings or numbers; `value`
/// holds the text shown for it: a string as is, anything else as its JSON
/// rendering, and `None` when the entry has no value.
#[derive(Debug, Clone)]
pub struct CallbackMetadataItem {
    pub name: String,
    pub value: Option<String>,
}

} // verus!
