use mpesa_dev::daraja::models::{CallbackMetadata, CallbackMetadataItem};
use mpesa_dev::daraja::result_code::{describe, Outcome};
use mpesa_dev::inspect::{
    callback_event, classify_callback, mask_phone, metadata_value, pluralize, status_label, CallbackEvent, Stats,
};

#[test]
fn pluralizes_counts() {
    assert_eq!(pluralize(1, "payment"), "1 payment");
    assert_eq!(pluralize(0, "payment"), "0 payments");
    assert_eq!(pluralize(12, "callback"), "12 callbacks");
}

#[test]
fn status_label_is_the_uppercased_head() {
    assert_eq!(status_label("Cancelled — the customer pressed cancel on the STK prompt"), "CANCELLED");
    assert_eq!(status_label("Success"), "SUCCESS");
    let (_, description) = describe(1037);
    assert_eq!(status_label(description), "TIMEOUT");
    assert_eq!(status_label("straße — x"), "STRASSE");
}

#[test]
fn masks_phone_numbers() {
    assert_eq!(mask_phone("254708374149"), "254708••••49");
    assert_eq!(mask_phone("12345678"), "12345678");
    assert_eq!(mask_phone("123456789"), "123456••••89");
    assert_eq!(mask_phone("?"), "?");
}

#[test]
fn stats_count_events() {
    let mut stats = Stats::new();
    assert!(stats.record(CallbackEvent::Stk(Outcome::Success)));
    assert!(stats.record(CallbackEvent::Stk(Outcome::Failure)));
    assert!(stats.record(CallbackEvent::Unrecognized));
    assert!(!stats.record(CallbackEvent::InvalidJson));
    assert_eq!(stats, Stats { payments: 1, callbacks: 2, errors: 2 });
    assert!(stats.payments <= stats.callbacks);
    assert_eq!(stats.tally(), "Totals so far: 1 payment · 2 callbacks · 2 errors");
    assert_eq!(Stats::new().tally(), "Totals so far: 0 payments · 0 callbacks · 0 errors");
}

#[test]
fn metadata_values_are_looked_up_by_name() {
    let metadata = CallbackMetadata {
        item: vec![
            CallbackMetadataItem { name: "Amount".to_string(), value: Some("1".to_string()) },
            CallbackMetadataItem { name: "Balance".to_string(), value: None },
            CallbackMetadataItem { name: "Amount".to_string(), value: Some("2".to_string()) },
            CallbackMetadataItem { name: "PhoneNumber".to_string(), value: Some("254708374149".to_string()) },
        ],
    };
    assert_eq!(metadata_value(&metadata, "Amount"), "1");
    assert_eq!(metadata_value(&metadata, "Balance"), "?");
    assert_eq!(metadata_value(&metadata, "MpesaReceiptNumber"), "?");
    assert_eq!(mask_phone(&metadata_value(&metadata, "PhoneNumber")), "254708••••49");
}

#[test]
fn callbacks_are_classified_by_shape_and_result_code() {
    assert_eq!(classify_callback("not json", None), CallbackEvent::InvalidJson);
    assert_eq!(classify_callback("{\"Body\": ", Some(0)), CallbackEvent::InvalidJson);
    assert_eq!(classify_callback("{\"hello\": 1}", None), CallbackEvent::Unrecognized);
    assert_eq!(classify_callback("[1, 2, 3]", None), CallbackEvent::Unrecognized);
    assert_eq!(classify_callback("{\"Body\": {}}", Some(0)), CallbackEvent::Stk(Outcome::Success));
    assert_eq!(classify_callback("{\"Body\": {}}", Some(1032)), CallbackEvent::Stk(Outcome::Failure));
}

#[test]
fn callback_events_follow_the_parse_results() {
    assert_eq!(callback_event(false, Some(0)), CallbackEvent::InvalidJson);
    assert_eq!(callback_event(false, None), CallbackEvent::InvalidJson);
    assert_eq!(callback_event(true, None), CallbackEvent::Unrecognized);
    assert_eq!(callback_event(true, Some(0)), CallbackEvent::Stk(Outcome::Success));
    assert_eq!(callback_event(true, Some(-1)), CallbackEvent::Stk(Outcome::Failure));
}
