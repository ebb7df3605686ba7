//! Plain-English meanings of M-Pesa Daraja `ResultCode`s.
use vstd::prelude::*;

verus! {

/// The meaning `decode` gives to `code`: the standard Daraja table, and
/// "Unknown result code" for anything outside it.
pub open spec fn decode_text(code: i64) -> Seq<char> {
    if code == 0 {
        "Success"@
    } else if code == 1 {
        "Insufficient funds"@
    } else if code == 2 {
        "Less than minimum transaction value"@
    } else if code == 3 {
        "More than maximum transaction value"@
    } else if code == 4 {
        "Would exceed daily transfer limit"@
    } else if code == 5 {
        "Would exceed minimum balance"@
    } else if code == 6 {
        "Unresolved primary party"@
    } else if code == 7 {
        "Unresolved receiver party"@
    } else if code == 8 {
        "Would exceed maximum balance"@
    } else if code == 11 {
        "Debit account invalid"@
    } else if code == 12 {
        "Credit account invalid"@
    } else if code == 13 {
        "Unresolved debit account"@
    } else if code == 14 {
        "Unresolved credit account"@
    } else if code == 15 {
        "Duplicate detected"@
    } else if code == 17 {
        "Internal failure"@
    } else if code == 20 {
        "Unresolved initiator"@
    } else if code == 26 {
        "Traffic blocking condition in place"@
    } else if code == 1001 {
        "Unable to lock subscriber"@
    } else if code == 1002 {
        "Financial service not allowed"@
    } else if code == 1003 {
        "PIN retries exceeded"@
    } else if code == 1004 {
        "Invalid MSISDN"@
    } else if code == 1005 {
        "PIN length exceeded"@
    } else if code == 1006 {
        "Too early to transact"@
    } else if code == 1007 {
        "Amount too small"@
    } else if code == 1008 {
        "Amount too large"@
    } else if code == 1009 {
        "Failed to debit funds"@
    } else if code == 1010 {
        "Would exceed maximum daily transaction limit"@
    } else if code == 1011 {
        "Incomplete transaction — system error"@
    } else if code == 1012 {
        "Request already exists"@
    } else if code == 1013 {
        "Illegal access: wrong PIN"@
    } else if code == 1014 {
        "Cannot debit a credit account"@
    } else if code == 1015 {
        "Credit to debit not allowed"@
    } else if code == 1016 {
        "M-PESA system under maintenance"@
    } else if code == 1017 {
        "User ineligible for this transaction"@
    } else if code == 1019 {
        "Transaction expired"@
    } else if code == 1020 {
        "Limit breach"@
    } else if code == 1021 {
        "Duplicate for the same account"@
    } else if code == 1022 {
        "Insufficient balance"@
    } else if code == 1026 {
        "Unable to send message to user"@
    } else if code == 1032 {
        "Request cancelled by user"@
    } else if code == 1037 {
        "DS timeout — user cannot be reached"@
    } else if code == 2001 {
        "Wrong credentials provided"@
    } else {
        "Unknown result code"@
    }
}

/// The codes of the standard Daraja table.
pub open spec fn is_known_code(code: i64) -> bool {
    code == 0 || code == 1 || code == 2 || code == 3 || code == 4 || code == 5 || code == 6 || code == 7 || code == 8 || code == 11 || code == 12 || code == 13 || code == 14 || code == 15 || code == 17 || code == 20 || code == 26 || code == 1001 || code == 1002 || code == 1003 || code == 1004 || code == 1005 || code == 1006 || code == 1007 || code == 1008 || code == 1009 || code == 1010 || code == 1011 || code == 1012 || code == 1013 || code == 1014 || code == 1015 || code == 1016 || code == 1017 || code == 1019 || code == 1020 || code == 1021 || code == 1022 || code == 1026 || code == 1032 || code == 1037 || code == 2001
}

/// Decodes an M-Pesa Daraja ResultCode into a human-readable description,
/// or a generic fallback for unknown codes.
pub fn decode(code: i64) -> (text: &'static str)
    ensures
        text@ == decode_text(code),
{
    match code {
        0 => "Success",
        1 => "Insufficient funds",
        2 => "Less than minimum transaction value",
        3 => "More than maximum transaction value",
        4 => "Would exceed daily transfer limit",
        5 => "Would exceed minimum balance",
        6 => "Unresolved primary party",
        7 => "Unresolved receiver party",
        8 => "Would exceed maximum balance",
        11 => "Debit account invalid",
        12 => "Credit account invalid",
        13 => "Unresolved debit account",
        14 => "Unresolved credit account",
        15 => "Duplicate detected",
        17 => "Internal failure",
        20 => "Unresolved initiator",
        26 => "Traffic blocking condition in place",
        1001 => "Unable to lock subscriber",
        1002 => "Financial service not allowed",
        1003 => "PIN retries exceeded",
        1004 => "Invalid MSISDN",
        1005 => "PIN length exceeded",
        1006 => "Too early to transact",
        1007 => "Amount too small",
        1008 => "Amount too large",
        1009 => "Failed to debit funds",
        1010 => "Would exceed maximum daily transaction limit",
        1011 => "Incomplete transaction — system error",
        1012 => "Request already exists",
        1013 => "Illegal access: wrong PIN",
        1014 => "Cannot debit a credit account",
        1015 => "Credit to debit not allowed",
        1016 => "M-PESA system under maintenance",
        1017 => "User ineligible for this transaction",
        1019 => "Transaction expired",
        1020 => "Limit breach",
        1021 => "Duplicate for the same account",
        1022 => "Insufficient balance",
        1026 => "Unable to send message to user",
        1032 => "Request cancelled by user",
        1037 => "DS timeout — user cannot be reached",
        2001 => "Wrong credentials provided",
        _ => "Unknown result code",
    }
}

/// A code decodes to the generic fallback exactly when it is not in the
/// standard table.
pub proof fn decode_falls_back_exactly_outside_table(code: i64)
    ensures
        (decode_text(code) == "Unknown result code"@) <==> !is_known_code(code),
{
    reveal_strlit("Unknown result code");
    if code == 0 {
        reveal_strlit("Success");
        assert("Success"@.len() != "Unknown result code"@.len());
    }
    if code == 1 {
        reveal_strlit("Insufficient funds");
        assert("Insufficient funds"@.len() != "Unknown result code"@.len());
    }
    if code == 2 {
        reveal_strlit("Less than minimum transaction value");
        assert("Less than minimum transaction value"@.len() != "Unknown result code"@.len());
    }
    if code == 3 {
        reveal_strlit("More than maximum transaction value");
        assert("More than maximum transaction value"@.len() != "Unknown result code"@.len());
    }
    if code == 4 {
        reveal_strlit("Would exceed daily transfer limit");
        assert("Would exceed daily transfer limit"@.len() != "Unknown result code"@.len());
    }
    if code == 5 {
        reveal_strlit("Would exceed minimum balance");
        assert("Would exceed minimum balance"@.len() != "Unknown result code"@.len());
    }
    if code == 6 {
        reveal_strlit("Unresolved primary party");
        assert("Unresolved primary party"@.len() != "Unknown result code"@.len());
    }
    if code == 7 {
        reveal_strlit("Unresolved receiver party");
        assert("Unresolved receiver party"@.len() != "Unknown result code"@.len());
    }
    if code == 8 {
        reveal_strlit("Would exceed maximum balance");
        assert("Would exceed maximum balance"@.len() != "Unknown result code"@.len());
    }
    if code == 11 {
        reveal_strlit("Debit account invalid");
        assert("Debit account invalid"@.len() != "Unknown result code"@.len());
    }
    if code == 12 {
        reveal_strlit("Credit account invalid");
        assert("Credit account invalid"@.len() != "Unknown result code"@.len());
    }
    if code == 13 {
        reveal_strlit("Unresolved debit account");
        assert("Unresolved debit account"@.len() != "Unknown result code"@.len());
    }
    if code == 14 {
        reveal_strlit("Unresolved credit account");
        assert("Unresolved credit account"@.len() != "Unknown result code"@.len());
    }
    if code == 15 {
        reveal_strlit("Duplicate detected");
        assert("Duplicate detected"@.len() != "Unknown result code"@.len());
    }
    if code == 17 {
        reveal_strlit("Internal failure");
        assert("Internal failure"@.len() != "Unknown result code"@.len());
    }
    if code == 20 {
        reveal_strlit("Unresolved initiator");
        assert("Unresolved initiator"@.len() != "Unknown result code"@.len());
    }
    if code == 26 {
        reveal_strlit("Traffic blocking condition in place");
        assert("Traffic blocking condition in place"@.len() != "Unknown result code"@.len());
    }
    if code == 1001 {
        reveal_strlit("Unable to lock subscriber");
        assert("Unable to lock subscriber"@.len() != "Unknown result code"@.len());
    }
    if code == 1002 {
        reveal_strlit("Financial service not allowed");
        assert("Financial service not allowed"@.len() != "Unknown result code"@.len());
    }
    if code == 1003 {
        reveal_strlit("PIN retries exceeded");
        assert("PIN retries exceeded"@.len() != "Unknown result code"@.len());
    }
    if code == 1004 {
        reveal_strlit("Invalid MSISDN");
        assert("Invalid MSISDN"@.len() != "Unknown result code"@.len());
    }
    if code == 1005 {
        reveal_strlit("PIN length exceeded");
        assert("PIN length exceeded"@[0] != "Unknown result code"@[0]);
    }
    if code == 1006 {
        reveal_strlit("Too early to transact");
        assert("Too early to transact"@.len() != "Unknown result code"@.len());
    }
    if code == 1007 {
        reveal_strlit("Amount too small");
        assert("Amount too small"@.len() != "Unknown result code"@.len());
    }
    if code == 1008 {
        reveal_strlit("Amount too large");
        assert("Amount too large"@.len() != "Unknown result code"@.len());
    }
    if code == 1009 {
        reveal_strlit("Failed to debit funds");
        assert("Failed to debit funds"@.len() != "Unknown result code"@.len());
    }
    if code == 1010 {
        reveal_strlit("Would exceed maximum daily transaction limit");
        assert("Would exceed maximum daily transaction limit"@.len() != "Unknown result code"@.len());
    }
    if code == 1011 {
        reveal_strlit("Incomplete transaction — system error");
        assert("Incomplete transaction — system error"@.len() != "Unknown result code"@.len());
    }
    if code == 1012 {
        reveal_strlit("Request already exists");
        assert("Request already exists"@.len() != "Unknown result code"@.len());
    }
    if code == 1013 {
        reveal_strlit("Illegal access: wrong PIN");
        assert("Illegal access: wrong PIN"@.len() != "Unknown result code"@.len());
    }
    if code == 1014 {
        reveal_strlit("Cannot debit a credit account");
        assert("Cannot debit a credit account"@.len() != "Unknown result code"@.len());
    }
    if code == 1015 {
        reveal_strlit("Credit to debit not allowed");
        assert("Credit to debit not allowed"@.len() != "Unknown result code"@.len());
    }
    if code == 1016 {
        reveal_strlit("M-PESA system under maintenance");
        assert("M-PESA system under maintenance"@.len() != "Unknown result code"@.len());
    }
    if code == 1017 {
        reveal_strlit("User ineligible for this transaction");
        assert("User ineligible for this transaction"@.len() != "Unknown result code"@.len());
    }
    if code == 1019 {
        reveal_strlit("Transaction expired");
        assert("Transaction expired"@[0] != "Unknown result code"@[0]);
    }
    if code == 1020 {
        reveal_strlit("Limit breach");
        assert("Limit breach"@.len() != "Unknown result code"@.len());
    }
    if code == 1021 {
        reveal_strlit("Duplicate for the same account");
        assert("Duplicate for the same account"@.len() != "Unknown result code"@.len());
    }
    if code == 1022 {
        reveal_strlit("Insufficient balance");
        assert("Insufficient balance"@.len() != "Unknown result code"@.len());
    }
    if code == 1026 {
        reveal_strlit("Unable to send message to user");
        assert("Unable to send message to user"@.len() != "Unknown result code"@.len());
    }
    if code == 1032 {
        reveal_strlit("Request cancelled by user");
        assert("Request cancelled by user"@.len() != "Unknown result code"@.len());
    }
    if code == 1037 {
        reveal_strlit("DS timeout — user cannot be reached");
        assert("DS timeout — user cannot be reached"@.len() != "Unknown result code"@.len());
    }
    if code == 2001 {
        reveal_strlit("Wrong credentials provided");
        assert("Wrong credentials provided"@.len() != "Unknown result code"@.len());
    }
}

/// A short fingerprint of a text: its length, and its first, last and
/// middle characters.
pub open spec fn text_key(t: Seq<char>) -> (int, char, char, char) {
    (t.len() as int, t[0], t[t.len() - 1], t[(t.len() / 2) as int])
}

pub(crate) open spec fn key_of_code(code: i64) -> (int, char, char, char) {
    if code == 0 {
        (7int, 'S', 's', 'c')
    } else if code == 1 {
        (18int, 'I', 's', 'e')
    } else if code == 2 {
        (35int, 'L', 'e', ' ')
    } else if code == 3 {
        (35int, 'M', 'e', ' ')
    } else if code == 4 {
        (33int, 'W', 't', 'l')
    } else if code == 5 {
        (28int, 'W', 'e', 'i')
    } else if code == 6 {
        (24int, 'U', 'y', 'r')
    } else if code == 7 {
        (25int, 'U', 'y', 'e')
    } else if code == 8 {
        (28int, 'W', 'e', 'a')
    } else if code == 11 {
        (21int, 'D', 'd', 'u')
    } else if code == 12 {
        (22int, 'C', 'd', 'u')
    } else if code == 13 {
        (24int, 'U', 't', 'e')
    } else if code == 14 {
        (25int, 'U', 't', 'r')
    } else if code == 15 {
        (18int, 'D', 'd', ' ')
    } else if code == 17 {
        (16int, 'I', 'e', ' ')
    } else if code == 20 {
        (20int, 'U', 'r', ' ')
    } else if code == 26 {
        (35int, 'T', 'e', 'c')
    } else if code == 1001 {
        (25int, 'U', 'r', 'c')
    } else if code == 1002 {
        (29int, 'F', 'd', 'i')
    } else if code == 1003 {
        (20int, 'P', 'd', 's')
    } else if code == 1004 {
        (14int, 'I', 'N', ' ')
    } else if code == 1005 {
        (19int, 'P', 'd', 'h')
    } else if code == 1006 {
        (21int, 'T', 't', 't')
    } else if code == 1007 {
        (16int, 'A', 'l', 'o')
    } else if code == 1008 {
        (16int, 'A', 'e', 'o')
    } else if code == 1009 {
        (21int, 'F', 's', 'd')
    } else if code == 1010 {
        (44int, 'W', 't', 'a')
    } else if code == 1011 {
        (37int, 'I', 'r', 't')
    } else if code == 1012 {
        (22int, 'R', 's', 'e')
    } else if code == 1013 {
        (25int, 'I', 'N', 's')
    } else if code == 1014 {
        (29int, 'C', 't', ' ')
    } else if code == 1015 {
        (27int, 'C', 'd', 'i')
    } else if code == 1016 {
        (31int, 'M', 'e', 'n')
    } else if code == 1017 {
        (36int, 'U', 'n', 'r')
    } else if code == 1019 {
        (19int, 'T', 'd', 'o')
    } else if code == 1020 {
        (12int, 'L', 'h', 'b')
    } else if code == 1021 {
        (30int, 'D', 't', 'h')
    } else if code == 1022 {
        (20int, 'I', 'e', 'n')
    } else if code == 1026 {
        (30int, 'U', 'r', 'm')
    } else if code == 1032 {
        (25int, 'R', 'r', 'e')
    } else if code == 1037 {
        (35int, 'D', 'd', ' ')
    } else if code == 2001 {
        (26int, 'W', 'd', 'i')
    } else {
        (0int, ' ', ' ', ' ')
    }
}

pub(crate) open spec fn code_of_key(k: (int, char, char, char)) -> int {
    if k == (7int, 'S', 's', 'c') {
        0
    } else if k == (18int, 'I', 's', 'e') {
        1
    } else if k == (35int, 'L', 'e', ' ') {
        2
    } else if k == (35int, 'M', 'e', ' ') {
        3
    } else if k == (33int, 'W', 't', 'l') {
        4
    } else if k == (28int, 'W', 'e', 'i') {
        5
    } else if k == (24int, 'U', 'y', 'r') {
        6
    } else if k == (25int, 'U', 'y', 'e') {
        7
    } else if k == (28int, 'W', 'e', 'a') {
        8
    } else if k == (21int, 'D', 'd', 'u') {
        11
    } else if k == (22int, 'C', 'd', 'u') {
        12
    } else if k == (24int, 'U', 't', 'e') {
        13
    } else if k == (25int, 'U', 't', 'r') {
        14
    } else if k == (18int, 'D', 'd', ' ') {
        15
    } else if k == (16int, 'I', 'e', ' ') {
        17
    } else if k == (20int, 'U', 'r', ' ') {
        20
    } else if k == (35int, 'T', 'e', 'c') {
        26
    } else if k == (25int, 'U', 'r', 'c') {
        1001
    } else if k == (29int, 'F', 'd', 'i') {
        1002
    } else if k == (20int, 'P', 'd', 's') {
        1003
    } else if k == (14int, 'I', 'N', ' ') {
        1004
    } else if k == (19int, 'P', 'd', 'h') {
        1005
    } else if k == (21int, 'T', 't', 't') {
        1006
    } else if k == (16int, 'A', 'l', 'o') {
        1007
    } else if k == (16int, 'A', 'e', 'o') {
        1008
    } else if k == (21int, 'F', 's', 'd') {
        1009
    } else if k == (44int, 'W', 't', 'a') {
        1010
    } else if k == (37int, 'I', 'r', 't') {
        1011
    } else if k == (22int, 'R', 's', 'e') {
        1012
    } else if k == (25int, 'I', 'N', 's') {
        1013
    } else if k == (29int, 'C', 't', ' ') {
        1014
    } else if k == (27int, 'C', 'd', 'i') {
        1015
    } else if k == (31int, 'M', 'e', 'n') {
        1016
    } else if k == (36int, 'U', 'n', 'r') {
        1017
    } else if k == (19int, 'T', 'd', 'o') {
        1019
    } else if k == (12int, 'L', 'h', 'b') {
        1020
    } else if k == (30int, 'D', 't', 'h') {
        1021
    } else if k == (20int, 'I', 'e', 'n') {
        1022
    } else if k == (30int, 'U', 'r', 'm') {
        1026
    } else if k == (25int, 'R', 'r', 'e') {
        1032
    } else if k == (35int, 'D', 'd', ' ') {
        1037
    } else if k == (26int, 'W', 'd', 'i') {
        2001
    } else {
        -1
    }
}

pub(crate) proof fn lemma_key_of_meaning(code: i64)
    requires
        is_known_code(code),
    ensures
        text_key(decode_text(code)) == key_of_code(code),
        code_of_key(key_of_code(code)) == code,
{
    if code == 0 {
        reveal_strlit("Success");
    }
    if code == 1 {
        reveal_strlit("Insufficient funds");
    }
    if code == 2 {
        reveal_strlit("Less than minimum transaction value");
    }
    if code == 3 {
        reveal_strlit("More than maximum transaction value");
    }
    if code == 4 {
        reveal_strlit("Would exceed daily transfer limit");
    }
    if code == 5 {
        reveal_strlit("Would exceed minimum balance");
    }
    if code == 6 {
        reveal_strlit("Unresolved primary party");
    }
    if code == 7 {
        reveal_strlit("Unresolved receiver party");
    }
    if code == 8 {
        reveal_strlit("Would exceed maximum balance");
    }
    if code == 11 {
        reveal_strlit("Debit account invalid");
    }
    if code == 12 {
        reveal_strlit("Credit account invalid");
    }
    if code == 13 {
        reveal_strlit("Unresolved debit account");
    }
    if code == 14 {
        reveal_strlit("Unresolved credit account");
    }
    if code == 15 {
        reveal_strlit("Duplicate detected");
    }
    if code == 17 {
        reveal_strlit("Internal failure");
    }
    if code == 20 {
        reveal_strlit("Unresolved initiator");
    }
    if code == 26 {
        reveal_strlit("Traffic blocking condition in place");
    }
    if code == 1001 {
        reveal_strlit("Unable to lock subscriber");
    }
    if code == 1002 {
        reveal_strlit("Financial service not allowed");
    }
    if code == 1003 {
        reveal_strlit("PIN retries exceeded");
    }
    if code == 1004 {
        reveal_strlit("Invalid MSISDN");
    }
    if code == 1005 {
        reveal_strlit("PIN length exceeded");
    }
    if code == 1006 {
        reveal_strlit("Too early to transact");
    }
    if code == 1007 {
        reveal_strlit("Amount too small");
    }
    if code == 1008 {
        reveal_strlit("Amount too large");
    }
    if code == 1009 {
        reveal_strlit("Failed to debit funds");
    }
    if code == 1010 {
        reveal_strlit("Would exceed maximum daily transaction limit");
    }
    if code == 1011 {
        reveal_strlit("Incomplete transaction — system error");
    }
    if code == 1012 {
        reveal_strlit("Request already exists");
    }
    if code == 1013 {
        reveal_strlit("Illegal access: wrong PIN");
    }
    if code == 1014 {
        reveal_strlit("Cannot debit a credit account");
    }
    if code == 1015 {
        reveal_strlit("Credit to debit not allowed");
    }
    if code == 1016 {
        reveal_strlit("M-PESA system under maintenance");
    }
    if code == 1017 {
        reveal_strlit("User ineligible for this transaction");
    }
    if code == 1019 {
        reveal_strlit("Transaction expired");
    }
    if code == 1020 {
        reveal_strlit("Limit breach");
    }
    if code == 1021 {
        reveal_strlit("Duplicate for the same account");
    }
    if code == 1022 {
        reveal_strlit("Insufficient balance");
    }
    if code == 1026 {
        reveal_strlit("Unable to send message to user");
    }
    if code == 1032 {
        reveal_strlit("Request cancelled by user");
    }
    if code == 1037 {
        reveal_strlit("DS timeout — user cannot be reached");
    }
    if code == 2001 {
        reveal_strlit("Wrong credentials provided");
    }
}

/// No two codes of the standard table share a meaning.
pub proof fn decode_is_injective_on_table(a: i64, b: i64)
    requires
        is_known_code(a),
        is_known_code(b),
        decode_text(a) == decode_text(b),
    ensures
        a == b,
{
    lemma_key_of_meaning(a);
    lemma_key_of_meaning(b);
}

} // verus!
