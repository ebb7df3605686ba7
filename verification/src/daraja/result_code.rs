//! Daraja `ResultCode`s of STK push callbacks: outcome and meaning.
use vstd::prelude::*;

use crate::result_codes::{decode, decode_text, is_known_code};
use crate::text::same_text;

verus! {

/// Whether a ResultCode represents a completed payment or some failure.
#[derive(Debug, Clone, Copy, PartialEq, Eq, Structural)]
pub enum Outcome {
    Success,
    Failure,
}

/// The plain-English description `describe` gives to `code`.
pub open spec fn description_of(code: i64) -> Seq<char> {
    if code == 0 {
        "Success — the transaction completed"@
    } else if code == 1 {
        "Insufficient funds — the customer doesn't have enough M-Pesa balance"@
    } else if code == 17 {
        "System internal error at Safaricom — safe to retry"@
    } else if code == 26 {
        "System busy — safe to retry after a short wait"@
    } else if code == 1001 {
        "Unable to lock subscriber — another transaction is already in progress on this number"@
    } else if code == 1019 {
        "Transaction expired — the customer took too long to respond"@
    } else if code == 1025 {
        "Unable to initiate the STK push — check TransactionDesc length and that the number is a valid Safaricom line"@
    } else if code == 1032 {
        "Cancelled — the customer pressed cancel on the STK prompt"@
    } else if code == 1037 {
        "Timeout — the customer's phone was unreachable or didn't respond in time"@
    } else if code == 2001 {
        "Wrong PIN — the customer entered an incorrect M-Pesa PIN"@
    } else if code == 9999 {
        "Unknown error from Safaricom — check ResultDesc for details"@
    } else if is_known_code(code) {
        decode_text(code)
    } else {
        "Unrecognized ResultCode — check ResultDesc for details"@
    }
}

/// Only ResultCode 0 is a completed payment.
pub open spec fn outcome_of(code: i64) -> Outcome {
    if code == 0 {
        Outcome::Success
    } else {
        Outcome::Failure
    }
}

/// Translates a Daraja `ResultCode` into whether it is a success or a
/// failure and a plain-English description. Codes without an entry of
/// their own get the meaning of the standard Daraja table, and codes in
/// neither a readable fallback rather than a bare number.
pub fn describe(code: i64) -> (r: (Outcome, &'static str))
    ensures
        r.0 == outcome_of(code),
        r.1@ == description_of(code),
{
    match code {
        0 => (Outcome::Success, "Success — the transaction completed"),
        1 => (
            Outcome::Failure,
            "Insufficient funds — the customer doesn't have enough M-Pesa balance",
        ),
        17 => (Outcome::Failure, "System internal error at Safaricom — safe to retry"),
        26 => (Outcome::Failure, "System busy — safe to retry after a short wait"),
        1001 => (
            Outcome::Failure,
            "Unable to lock subscriber — another transaction is already in progress on this number",
        ),
        1019 => (Outcome::Failure, "Transaction expired — the customer took too long to respond"),
        1025 => (
            Outcome::Failure,
            "Unable to initiate the STK push — check TransactionDesc length and that the number is a valid Safaricom line",
        ),
        1032 => (Outcome::Failure, "Cancelled — the customer pressed cancel on the STK prompt"),
        1037 => (
            Outcome::Failure,
            "Timeout — the customer's phone was unreachable or didn't respond in time",
        ),
        2001 => (Outcome::Failure, "Wrong PIN — the customer entered an incorrect M-Pesa PIN"),
        9999 => (Outcome::Failure, "Unknown error from Safaricom — check ResultDesc for details"),
        _ => {
            let meaning = decode(code);
            proof {
                crate::result_codes::decode_falls_back_exactly_outside_table(code);
            }
            if same_text(meaning, "Unknown result code") {
                (Outcome::Failure, "Unrecognized ResultCode — check ResultDesc for details")
            } else {
                (Outcome::Failure, meaning)
            }
        },
    }
}

/// Every code of the standard table, and every code with an entry of its
/// own, is described by its meaning rather than by the generic fallback.
pub proof fn known_codes_get_their_meaning(code: i64)
    requires
        is_known_code(code) || code == 1025 || code == 9999,
    ensures
        description_of(code) != "Unrecognized ResultCode — check ResultDesc for details"@,
{
    reveal_strlit("Unrecognized ResultCode — check ResultDesc for details");
    if code == 0 {
        reveal_strlit("Success — the transaction completed");
        assert("Success — the transaction completed"@.len() != "Unrecognized ResultCode — check ResultDesc for details"@.len());
    }
    if code == 1 {
        reveal_strlit("Insufficient funds — the customer doesn't have enough M-Pesa balance");
        assert("Insufficient funds — the customer doesn't have enough M-Pesa balance"@.len() != "Unrecognized ResultCode — check ResultDesc for details"@.len());
    }
    if code == 17 {
        reveal_strlit("System internal error at Safaricom — safe to retry");
        assert("System internal error at Safaricom — safe to retry"@.len() != "Unrecognized ResultCode — check ResultDesc for details"@.len());
    }
    if code == 26 {
        reveal_strlit("System busy — safe to retry after a short wait");
        assert("System busy — safe to retry after a short wait"@.len() != "Unrecognized ResultCode — check ResultDesc for details"@.len());
    }
    if code == 1001 {
        reveal_strlit("Unable to lock subscriber — another transaction is already in progress on this number");
        assert("Unable to lock subscriber — another transaction is already in progress on this number"@.len() != "Unrecognized ResultCode — check ResultDesc for details"@.len());
    }
    if code == 1019 {
        reveal_strlit("Transaction expired — the customer took too long to respond");
        assert("Transaction expired — the customer took too long to respond"@.len() != "Unrecognized ResultCode — check ResultDesc for details"@.len());
    }
    if code == 1025 {
        reveal_strlit("Unable to initiate the STK push — check TransactionDesc length and that the number is a valid Safaricom line");
        assert("Unable to initiate the STK push — check TransactionDesc length and that the number is a valid Safaricom line"@.len() != "Unrecognized ResultCode — check ResultDesc for details"@.len());
    }
    if code == 1032 {
        reveal_strlit("Cancelled — the customer pressed cancel on the STK prompt");
        assert("Cancelled — the customer pressed cancel on the STK prompt"@.len() != "Unrecognized ResultCode — check ResultDesc for details"@.len());
    }
    if code == 1037 {
        reveal_strlit("Timeout — the customer's phone was unreachable or didn't respond in time");
        assert("Timeout — the customer's phone was unreachable or didn't respond in time"@.len() != "Unrecognized ResultCode — check ResultDesc for details"@.len());
    }
    if code == 2001 {
        reveal_strlit("Wrong PIN — the customer entered an incorrect M-Pesa PIN");
        assert("Wrong PIN — the customer entered an incorrect M-Pesa PIN"@.len() != "Unrecognized ResultCode — check ResultDesc for details"@.len());
    }
    if code == 9999 {
        reveal_strlit("Unknown error from Safaricom — check ResultDesc for details");
        assert("Unknown error from Safaricom — check ResultDesc for details"@.len() != "Unrecognized ResultCode — check ResultDesc for details"@.len());
    }
    if is_known_code(code) {
        crate::result_codes::lemma_key_of_meaning(code);
    }
}


/// The codes with an entry of their own in `describe`'s table.
pub open spec fn has_own_entry(code: i64) -> bool {
    code == 0 || code == 1 || code == 17 || code == 26 || code == 1001 || code == 1019 || code == 1025 || code == 1032 || code == 1037 || code == 2001 || code == 9999
}

/// The meanings `describe` gives the codes of its own table, as Daraja
/// documents them.
pub proof fn own_entries_say_what_daraja_documents()
    ensures
        description_of(0) == "Success — the transaction completed"@,
        description_of(1) == "Insufficient funds — the customer doesn't have enough M-Pesa balance"@,
        description_of(17) == "System internal error at Safaricom — safe to retry"@,
        description_of(26) == "System busy — safe to retry after a short wait"@,
        description_of(1001) == "Unable to lock subscriber — another transaction is already in progress on this number"@,
        description_of(1019) == "Transaction expired — the customer took too long to respond"@,
        description_of(1025) == "Unable to initiate the STK push — check TransactionDesc length and that the number is a valid Safaricom line"@,
        description_of(1032) == "Cancelled — the customer pressed cancel on the STK prompt"@,
        description_of(1037) == "Timeout — the customer's phone was unreachable or didn't respond in time"@,
        description_of(2001) == "Wrong PIN — the customer entered an incorrect M-Pesa PIN"@,
        description_of(9999) == "Unknown error from Safaricom — check ResultDesc for details"@,
{
}

/// No two codes of `describe`'s own table share a description: each
/// reason tells its code apart from every other.
pub proof fn own_entries_are_distinct(a: i64, b: i64)
    requires
        has_own_entry(a),
        has_own_entry(b),
        a != b,
    ensures
        description_of(a) != description_of(b),
{
    reveal_strlit("Success — the transaction completed");
    reveal_strlit("Insufficient funds — the customer doesn't have enough M-Pesa balance");
    reveal_strlit("System internal error at Safaricom — safe to retry");
    reveal_strlit("System busy — safe to retry after a short wait");
    reveal_strlit("Unable to lock subscriber — another transaction is already in progress on this number");
    reveal_strlit("Transaction expired — the customer took too long to respond");
    reveal_strlit("Unable to initiate the STK push — check TransactionDesc length and that the number is a valid Safaricom line");
    reveal_strlit("Cancelled — the customer pressed cancel on the STK prompt");
    reveal_strlit("Timeout — the customer's phone was unreachable or didn't respond in time");
    reveal_strlit("Wrong PIN — the customer entered an incorrect M-Pesa PIN");
    reveal_strlit("Unknown error from Safaricom — check ResultDesc for details");
    assert(description_of(a).len() != description_of(b).len() || description_of(a)[0] != description_of(b)[0]);
}

/// Only ResultCode 0 is a completed payment; every other code, known or
/// not, is a failure.
pub proof fn only_zero_is_a_payment(code: i64)
    ensures
        (outcome_of(code) == Outcome::Success) <==> code == 0,
{
}

} // verus!
