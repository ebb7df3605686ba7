//! What `inspect` decides about each incoming callback: the running
//! tallies it keeps, and how it labels, masks and counts what it prints.
use vstd::prelude::*;
use vstd::string::{StrSliceExecFns, StringSliceAdditionalSpecFns};
use vstd::utf8::{decode_utf8, encode_utf8, is_ascii_chars, is_char_boundary};

use crate::daraja::models::{CallbackMetadata, CallbackMetadataItem};
use crate::daraja::result_code::{describe, outcome_of, Outcome};
use crate::decimal::{decimal, format_u64};
use crate::text::{first_piece, first_piece_of, lemma_encode_utf8_concat, same_text};

verus! {

/// `count noun`, with the noun made plural by a trailing `s` unless the
/// count is exactly one.
pub open spec fn plural_text(count: nat, noun: Seq<char>) -> Seq<char> {
    decimal(count) + seq![' '] + noun + if count == 1 { Seq::<char>::empty() } else { seq!['s'] }
}

/// `"1 payment"`, `"0 payments"`, `"3 errors"`.
pub fn pluralize(count: u64, noun: &str) -> (s: String)
    ensures
        s@ == plural_text(count as nat, noun@),
{
    proof {
        reveal_strlit(" ");
        reveal_strlit("s");
    }
    let mut s = format_u64(count);
    s.append(" ");
    s.append(noun);
    if count != 1 {
        s.append("s");
    }
    s
}

/// What `str::to_uppercase` yields: the Unicode uppercase mapping of the text.
pub uninterp spec fn uppercase(s: Seq<char>) -> Seq<char>;

/// `str::to_uppercase` (std). Its result is named `uppercase`; nothing more
/// of the Unicode case tables is stated.
#[verifier::external_body]
fn to_uppercase(s: &str) -> (r: String)
    ensures
        r@ == uppercase(s@),
{
    s.to_uppercase()
}

/// The short label before the em dash in a ResultCode description,
/// uppercased: "Cancelled — the customer pressed..." gives "CANCELLED".
pub fn status_label(description: &str) -> (label: String)
    ensures
        label@ == uppercase(first_piece(description@, " — "@)),
{
    to_uppercase(first_piece_of(description, " — "))
}

/// The byte length of a phone number's text.
pub open spec fn byte_len(phone: &str) -> nat {
    phone.spec_bytes().len()
}

/// The number can be masked without cutting a character in two: it is
/// short enough to be shown as is, or its sixth and second-to-last byte
/// positions fall on character boundaries.
pub open spec fn maskable(phone: &str) -> bool {
    byte_len(phone) <= 8 || (is_char_boundary(phone.spec_bytes(), 6) && is_char_boundary(
        phone.spec_bytes(),
        byte_len(phone) - 2,
    ))
}

/// What `mask_phone` shows: numbers of at most eight bytes unchanged,
/// longer ones as their first six bytes, four bullets, and their last two.
pub open spec fn masked(phone: &str) -> Seq<char> {
    let b = phone.spec_bytes();
    if b.len() <= 8 {
        phone@
    } else {
        decode_utf8(b.subrange(0, 6)) + "••••"@ + decode_utf8(b.subrange(b.len() - 2, b.len() as int))
    }
}

/// Masks all but the first 6 and last 2 bytes of a phone number, e.g.
/// "254708374149" gives "254708••••49".
pub fn mask_phone(phone: &str) -> (s: String)
    requires
        maskable(phone),
    ensures
        s@ == masked(phone),
{
    broadcast use vstd::utf8::encode_utf8_decode_utf8;

    let n: usize = phone.as_bytes().len();
    if n <= 8 {
        return String::from_str(phone);
    }
    let (start, _) = phone.split_at(6);
    let (_, end) = phone.split_at(n - 2);
    assert(start@ == decode_utf8(start.spec_bytes()));
    assert(end@ == decode_utf8(end.spec_bytes()));
    let mut s = String::from_str(start);
    s.append("••••");
    s.append(end);
    s
}

/// What is shown for the metadata entry called `name`: the value of the
/// first entry with that name, or `?` when there is none or it has no value.
pub open spec fn metadata_text(items: Seq<CallbackMetadataItem>, name: Seq<char>) -> Seq<char>
    decreases items.len(),
{
    if items.len() == 0 {
        "?"@
    } else if items[0].name@ == name {
        match items[0].value {
            Some(v) => v@,
            None => "?"@,
        }
    } else {
        metadata_text(items.drop_first(), name)
    }
}

/// The value shown for `name` is that of the first entry called `name`
/// (`?` when that entry carries no value), and `?` when no entry has that
/// name; entries after the first of that name play no part.
pub proof fn metadata_shows_the_first_entry_named(items: Seq<CallbackMetadataItem>, name: Seq<char>)
    ensures
        (forall|k: int| 0 <= k < items.len() ==> (#[trigger] items[k]).name@ != name) ==> metadata_text(items, name)
            == "?"@,
        forall|k: int|
            0 <= k < items.len() && (#[trigger] items[k]).name@ == name && (forall|j: int|
                0 <= j < k ==> (#[trigger] items[j]).name@ != name) ==> metadata_text(items, name) == match items[k].value {
                Some(v) => v@,
                None => "?"@,
            },
    decreases items.len(),
{
    if items.len() > 0 {
        let rest = items.drop_first();
        metadata_shows_the_first_entry_named(rest, name);
        if items[0].name@ != name {
            if forall|k: int| 0 <= k < items.len() ==> (#[trigger] items[k]).name@ != name {
                assert forall|k: int| 0 <= k < rest.len() implies (#[trigger] rest[k]).name@ != name by {
                    assert(rest[k] == items[k + 1]);
                }
            }
            assert forall|k: int|
                0 <= k < items.len() && (#[trigger] items[k]).name@ == name && (forall|j: int|
                    0 <= j < k ==> (#[trigger] items[j]).name@ != name) implies metadata_text(items, name)
                == match items[k].value {
                Some(v) => v@,
                None => "?"@,
            } by {
                assert(k >= 1);
                assert(rest[k - 1] == items[k]);
                assert forall|j: int| 0 <= j < k - 1 implies (#[trigger] rest[j]).name@ != name by {
                    assert(rest[j] == items[j + 1]);
                }
            }
        } else {
            assert forall|k: int|
                0 <= k < items.len() && (#[trigger] items[k]).name@ == name && (forall|j: int|
                    0 <= j < k ==> (#[trigger] items[j]).name@ != name) implies metadata_text(items, name)
                == match items[k].value {
                Some(v) => v@,
                None => "?"@,
            } by {
                if k > 0 {
                    assert(items[0].name@ != name);
                }
            }
        }
    }
}

/// The displayed value of the metadata entry called `name`.
pub fn metadata_value(metadata: &CallbackMetadata, name: &str) -> (s: String)
    ensures
        s@ == metadata_text(metadata.item@, name@),
{
    let items = &metadata.item;
    let mut i: usize = 0;
    assert(items@.skip(0) =~= items@);
    while i < items.len()
        invariant
            i <= items@.len(),
            items@ == metadata.item@,
            metadata_text(items@, name@) == metadata_text(items@.skip(i as int), name@),
        decreases items@.len() - i,
    {
        assert(items@.skip(i as int)[0] == items@[i as int]);
        assert(items@.skip(i as int).len() > 0);
        if same_text(items[i].name.as_str(), name) {
            proof {
                reveal_strlit("?");
            }
            let ghost rest = items@.skip(i as int);
            assert(rest[0].name@ == name@);
            assert(metadata_text(rest, name@) == match rest[0].value {
                Some(v) => v@,
                None => "?"@,
            });
            let item = &items[i];
            assert(*item == rest[0]);
            match &item.value {
                Some(v) => {
                    let r = v.clone();
                    assert(r@ == metadata_text(rest, name@));
                    return r;
                },
                None => {
                    return String::from_str("?");
                },
            }
        }
        assert(items@.skip(i as int).drop_first() =~= items@.skip(i + 1));
        i = i + 1;
    }
    proof {
        reveal_strlit("?");
    }
    String::from_str("?")
}

/// The encoding of a prefix of a text ends on a character boundary of the
/// text's encoding.
proof fn lemma_prefix_encoding_is_boundary(c: Seq<char>, k: int)
    requires
        0 <= k <= c.len(),
    ensures
        is_char_boundary(encode_utf8(c), encode_utf8(c.take(k)).len() as int),
    decreases k,
{
    broadcast use vstd::utf8::encode_utf8_valid_utf8;

    if k == 0 {
        assert(c.take(0) =~= Seq::<char>::empty());
    } else {
        let bytes = encode_utf8(c);
        vstd::utf8::encode_utf8_first_scalar(c);
        vstd::utf8::encode_utf8_first_scalar(c.take(k));
        assert(vstd::utf8::pop_first_scalar(bytes) =~= encode_utf8(c.drop_first()));
        assert(c.take(k).drop_first() =~= c.drop_first().take(k - 1));
        assert(c.take(k)[0] == c[0]);
        lemma_encode_utf8_concat(c.take(k), c.skip(k));
        assert(c.take(k) + c.skip(k) =~= c);
        lemma_prefix_encoding_is_boundary(c.drop_first(), k - 1);
    }
}

proof fn lemma_ascii_prefix(c: Seq<char>, k: int)
    requires
        is_ascii_chars(c),
        0 <= k <= c.len(),
    ensures
        encode_utf8(c.take(k)).len() == k,
        encode_utf8(c).subrange(0, k) == encode_utf8(c.take(k)),
        encode_utf8(c).subrange(k, c.len() as int) == encode_utf8(c.skip(k)),
        is_char_boundary(encode_utf8(c), k),
{
    broadcast use vstd::utf8::is_ascii_chars_encode_utf8;

    assert(is_ascii_chars(c.take(k)));
    assert(is_ascii_chars(c.skip(k)));
    lemma_encode_utf8_concat(c.take(k), c.skip(k));
    assert(c.take(k) + c.skip(k) =~= c);
    lemma_prefix_encoding_is_boundary(c, k);
    assert(encode_utf8(c).subrange(0, k) =~= encode_utf8(c.take(k)));
    assert(encode_utf8(c).subrange(k, c.len() as int) =~= encode_utf8(c.skip(k)));
}

/// An ASCII phone number can always be masked, and masking shows its
/// first six and last two characters around four bullets, or the whole
/// number when it has at most eight characters: nothing in between is
/// revealed.
pub proof fn masking_ascii_numbers(phone: &str)
    requires
        is_ascii_chars(phone@),
    ensures
        maskable(phone),
        byte_len(phone) == phone@.len(),
        masked(phone) == if phone@.len() <= 8 {
            phone@
        } else {
            phone@.take(6) + "••••"@ + phone@.skip(phone@.len() - 2)
        },
{
    broadcast use vstd::utf8::is_ascii_chars_encode_utf8, vstd::utf8::encode_utf8_decode_utf8;

    let c = phone@;
    if c.len() > 8 {
        lemma_ascii_prefix(c, 6);
        lemma_ascii_prefix(c, c.len() - 2);
    }
}

/// Running counts shown after every event, so the terminal reads as a live
/// dashboard.
#[derive(Debug, Clone, Copy, PartialEq, Eq)]
pub struct Stats {
    pub payments: u64,
    pub callbacks: u64,
    pub errors: u64,
}

/// How an incoming callback was classified.
#[derive(Debug, Clone, Copy, PartialEq, Eq)]
pub enum CallbackEvent {
    /// The body was not valid JSON.
    InvalidJson,
    /// Valid JSON, but not the shape of an STK push callback.
    Unrecognized,
    /// An STK push callback with the given outcome.
    Stk(Outcome),
}

/// Whether serde_json reads the text as one JSON document.
pub uninterp spec fn json_document(text: Seq<char>) -> bool;

/// `serde_json::from_str::<serde_json::Value>` (serde_json). Only whether
/// it succeeds is kept; that is named `json_document`, a function of the
/// text alone.
#[verifier::external_body]
fn is_json(text: &str) -> (r: bool)
    ensures
        r == json_document(text@),
{
    serde_json::from_str::<serde_json::Value>(text).is_ok()
}

/// The event a callback body is counted as.
pub open spec fn event_of(is_json: bool, stk_result_code: Option<i64>) -> CallbackEvent {
    if !is_json {
        CallbackEvent::InvalidJson
    } else {
        match stk_result_code {
            Some(code) => CallbackEvent::Stk(outcome_of(code)),
            None => CallbackEvent::Unrecognized,
        }
    }
}

/// Classifies a callback from whether its body is JSON and, when it has the
/// shape of an STK push callback, that callback's ResultCode.
pub fn callback_event(is_json: bool, stk_result_code: Option<i64>) -> (e: CallbackEvent)
    ensures
        e == event_of(is_json, stk_result_code),
{
    if !is_json {
        CallbackEvent::InvalidJson
    } else {
        match stk_result_code {
            Some(code) => {
                let (outcome, _) = describe(code);
                CallbackEvent::Stk(outcome)
            },
            None => CallbackEvent::Unrecognized,
        }
    }
}

/// Classifies a raw callback body: invalid JSON, an STK push callback with
/// the outcome of its ResultCode (`stk_result_code`, read from the body
/// where it has that shape), or JSON of another shape.
pub fn classify_callback(text: &str, stk_result_code: Option<i64>) -> (e: CallbackEvent)
    ensures
        e == event_of(json_document(text@), stk_result_code),
{
    callback_event(is_json(text), stk_result_code)
}

impl Stats {
    /// Every payment counted was also counted as a callback.
    pub open spec fn wf(self) -> bool {
        self.payments <= self.callbacks
    }

    /// All counts at zero.
    pub fn new() -> (s: Stats)
        ensures
            s == (Stats { payments: 0, callbacks: 0, errors: 0 }),
            s.wf(),
    {
        Stats { payments: 0, callbacks: 0, errors: 0 }
    }

    /// The counts after `event`.
    pub open spec fn after(self, event: CallbackEvent) -> Stats {
        match event {
            CallbackEvent::Stk(outcome) => Stats {
                payments: if outcome == Outcome::Success { (self.payments + 1) as u64 } else { self.payments },
                callbacks: (self.callbacks + 1) as u64,
                errors: self.errors,
            },
            _ => Stats { errors: (self.errors + 1) as u64, ..self },
        }
    }

    /// Whether the counters have room for `event`.
    pub open spec fn can_record(self, event: CallbackEvent) -> bool {
        match event {
            CallbackEvent::Stk(_) => self.callbacks < u64::MAX,
            _ => self.errors < u64::MAX,
        }
    }

    /// Counts `event`: an STK callback is a callback, and a payment when it
    /// succeeded; anything else is an error. Returns whether the callback is
    /// to be saved for `replay`, which all but invalid JSON are.
    pub fn record(&mut self, event: CallbackEvent) -> (save: bool)
        requires
            old(self).wf(),
            old(self).can_record(event),
        ensures
            *final(self) == old(self).after(event),
            final(self).wf(),
            save == (event != CallbackEvent::InvalidJson),
    {
        match event {
            CallbackEvent::Stk(outcome) => {
                self.callbacks = self.callbacks + 1;
                if outcome == Outcome::Success {
                    self.payments = self.payments + 1;
                }
                true
            },
            CallbackEvent::InvalidJson => {
                self.errors = self.errors + 1;
                false
            },
            CallbackEvent::Unrecognized => {
                self.errors = self.errors + 1;
                true
            },
        }
    }

    /// The tally line printed after each event.
    pub open spec fn tally_text(self) -> Seq<char> {
        "Totals so far: "@ + plural_text(self.payments as nat, "payment"@) + " · "@ + plural_text(
            self.callbacks as nat,
            "callback"@,
        ) + " · "@ + plural_text(self.errors as nat, "error"@)
    }

    /// "Totals so far: 1 payment · 2 callbacks · 0 errors".
    pub fn tally(&self) -> (s: String)
        ensures
            s@ == self.tally_text(),
    {
        let mut s = String::from_str("Totals so far: ");
        s.append(pluralize(self.payments, "payment").as_str());
        s.append(" · ");
        s.append(pluralize(self.callbacks, "callback").as_str());
        s.append(" · ");
        s.append(pluralize(self.errors, "error").as_str());
        s
    }
}

/// Counting never makes payments outrun callbacks: starting from any
/// well-formed tally, every sequence of recorded events keeps it so.
pub proof fn recording_keeps_payments_within_callbacks(s: Stats, event: CallbackEvent)
    requires
        s.wf(),
        s.can_record(event),
    ensures
        s.after(event).wf(),
        s.after(event).callbacks + s.after(event).errors == s.callbacks + s.errors + 1,
{
}


/// The counts after a run of events, starting from zero.
pub open spec fn run_stats(events: Seq<CallbackEvent>) -> Stats
    decreases events.len(),
{
    if events.len() == 0 {
        Stats { payments: 0, callbacks: 0, errors: 0 }
    } else {
        run_stats(events.drop_last()).after(events.last())
    }
}

/// Over any run of events from zero: every event is counted exactly once,
/// as a callback or as an error; payments never outrun callbacks; and no
/// counter ever goes down along the run.
pub proof fn counts_over_a_run(events: Seq<CallbackEvent>)
    requires
        events.len() < u64::MAX,
    ensures
        run_stats(events).wf(),
        run_stats(events).callbacks + run_stats(events).errors == events.len(),
        forall|i: int|
            0 <= i <= events.len() ==> {
                let before = #[trigger] run_stats(events.take(i));
                &&& before.payments <= run_stats(events).payments
                &&& before.callbacks <= run_stats(events).callbacks
                &&& before.errors <= run_stats(events).errors
            },
    decreases events.len(),
{
    if events.len() > 0 {
        let rest = events.drop_last();
        counts_over_a_run(rest);
        assert forall|i: int| 0 <= i <= events.len() implies {
            let before = #[trigger] run_stats(events.take(i));
            &&& before.payments <= run_stats(events).payments
            &&& before.callbacks <= run_stats(events).callbacks
            &&& before.errors <= run_stats(events).errors
        } by {
            if i < events.len() {
                assert(events.take(i) =~= rest.take(i));
            } else {
                assert(events.take(i) =~= events);
            }
        }
    } else {
        assert forall|i: int| 0 <= i <= events.len() implies {
            let before = #[trigger] run_stats(events.take(i));
            &&& before.payments <= run_stats(events).payments
            &&& before.callbacks <= run_stats(events).callbacks
            &&& before.errors <= run_stats(events).errors
        } by {
            assert(events.take(i) =~= events);
        }
    }
}

} // verus!
