//! Stored callbacks: what `inspect` names the files it saves, how `replay`
//! resolves a user's selector to one of them, and how each is summarized.
use vstd::prelude::*;
use vstd::multiset::Multiset;

use crate::daraja::result_code::{describe, description_of};
use crate::decimal::{decimal, decimal_int, digit_char, format_i64, format_u64, parse_unsigned, parse_usize};
use crate::error::{config_error, Error};
use crate::relay::{generate_id, is_id};
use crate::text::{chars_of, has_suffix, matches_at};

verus! {

/// The directory `inspect` saves callbacks to and `replay` reads them from.
pub fn dir() -> (d: &'static str)
    ensures
        d@ == "callbacks"@,
{
    "callbacks"
}

/// The file-name tag of a saved callback: `rc{code}` for a recognized STK
/// callback, `raw` otherwise.
pub open spec fn tag_text(result_code: Option<i64>) -> Seq<char> {
    match result_code {
        Some(code) => "rc"@ + decimal_int(code as int),
        None => "raw"@,
    }
}

/// `{timestamp}_{tag}_{short_id}.json`.
pub open spec fn stored_name_text(timestamp: Seq<char>, result_code: Option<i64>, short_id: Seq<char>) -> Seq<char> {
    timestamp + "_"@ + tag_text(result_code) + "_"@ + short_id + ".json"@
}

/// The file name a saved callback gets, from the UTC timestamp it was
/// captured at, its ResultCode when it is an STK callback, and a short id.
pub fn stored_file_name(timestamp: &str, result_code: Option<i64>, short_id: &str) -> (name: String)
    ensures
        name@ == stored_name_text(timestamp@, result_code, short_id@),
{
    let mut name = String::from_str(timestamp);
    name.append("_");
    match result_code {
        Some(code) => {
            name.append("rc");
            name.append(format_i64(code).as_str());
        },
        None => name.append("raw"),
    }
    name.append("_");
    name.append(short_id);
    name.append(".json");
    name
}

/// A UTC date and time, to the second.
#[derive(Debug, Clone, Copy)]
pub struct UtcTime {
    pub year: i32,
    pub month: u32,
    pub day: u32,
    pub hour: u32,
    pub minute: u32,
    pub second: u32,
}

pub open spec fn is_leap_year(y: int) -> bool {
    y % 4 == 0 && (y % 100 != 0 || y % 400 == 0)
}

pub open spec fn days_in_month(y: int, m: int) -> int {
    if m == 2 {
        if is_leap_year(y) { 29 } else { 28 }
    } else if m == 4 || m == 6 || m == 9 || m == 11 {
        30
    } else {
        31
    }
}

/// The last `k` decimal digits of `n`, zero-padded.
pub open spec fn padded(n: nat, k: nat) -> Seq<char>
    decreases k,
{
    if k == 0 {
        Seq::empty()
    } else {
        padded(n / 10, (k - 1) as nat).push(digit_char(n % 10))
    }
}

pub open spec fn pow10(k: nat) -> nat
    decreases k,
{
    if k == 0 { 1 } else { 10 * pow10((k - 1) as nat) }
}

/// At least four digits: `n` zero-padded to four, or all its digits when
/// it has more.
pub open spec fn four_or_more_digits(n: nat) -> Seq<char> {
    if n < 10000 {
        padded(n, 4)
    } else {
        decimal(n)
    }
}

/// A year as `%Y` writes it: four zero-padded digits for 0..=9999, and
/// outside that range an explicit sign followed by at least four digits.
pub open spec fn year_text(y: int) -> Seq<char> {
    if 0 <= y <= 9999 {
        padded(y as nat, 4)
    } else if y < 0 {
        seq!['-'] + four_or_more_digits((-y) as nat)
    } else {
        seq!['+'] + four_or_more_digits(y as nat)
    }
}

impl UtcTime {
    /// A date and time chrono can represent, without a leap second.
    pub open spec fn valid(self) -> bool {
        &&& -262143 <= self.year <= 262142
        &&& 1 <= self.month <= 12
        &&& 1 <= self.day <= days_in_month(self.year as int, self.month as int)
        &&& self.hour < 24
        &&& self.minute < 60
        &&& self.second < 60
    }

    /// The year has four digits or fewer and no sign.
    pub open spec fn four_digit_year(self) -> bool {
        0 <= self.year <= 9999
    }

    /// `YYYYmmdd-HHMMSS`, the year as `year_text` writes it.
    pub open spec fn stamp(self) -> Seq<char> {
        year_text(self.year as int) + padded(self.month as nat, 2) + padded(self.day as nat, 2) + seq!['-']
            + padded(self.hour as nat, 2) + padded(self.minute as nat, 2) + padded(self.second as nat, 2)
    }

    /// `self` comes strictly before `other`: compared field by field, from
    /// the year down to the second.
    pub open spec fn before(self, other: UtcTime) -> bool {
        ||| self.year < other.year
        ||| self.year == other.year && self.month < other.month
        ||| self.year == other.year && self.month == other.month && self.day < other.day
        ||| self.year == other.year && self.month == other.month && self.day == other.day && self.hour < other.hour
        ||| self.year == other.year && self.month == other.month && self.day == other.day && self.hour == other.hour
            && self.minute < other.minute
        ||| self.year == other.year && self.month == other.month && self.day == other.day && self.hour == other.hour
            && self.minute == other.minute && self.second < other.second
    }
}

/// `NaiveDateTime::format("%Y%m%d-%H%M%S")` (chrono) on the given fields.
/// chrono writes `%Y` as the year zero-padded to four digits, and outside
/// 0..=9999 with an explicit sign and at least four digits; `%m`, `%d`,
/// `%H`, `%M`, `%S` as two zero-padded digits. Building the date panics
/// only on fields chrono cannot represent, which `valid` rules out.
#[verifier::external_body]
fn format_utc_stamp(t: &UtcTime) -> (s: String)
    requires
        t.valid(),
    ensures
        s@ == t.stamp(),
{
    chrono::NaiveDate::from_ymd_opt(t.year, t.month, t.day)
        .and_then(|d| d.and_hms_opt(t.hour, t.minute, t.second))
        .expect("a valid UTC date and time")
        .format("%Y%m%d-%H%M%S")
        .to_string()
}

/// A fresh file name for a callback captured at `captured` (UTC), with a
/// random short id so that callbacks captured within the same second do
/// not collide.
pub fn new_stored_file_name(captured: &UtcTime, result_code: Option<i64>) -> (name: String)
    requires
        captured.valid(),
    ensures
        exists|id: Seq<char>| is_id(id) && name@ == stored_name_text(captured.stamp(), result_code, id),
{
    let stamp = format_utc_stamp(captured);
    let id = generate_id();
    stored_file_name(stamp.as_str(), result_code, id.as_str())
}

/// What the file system says about the places a named selector may refer to.
#[derive(Debug, Clone, Copy)]
pub struct NameProbes {
    /// The selector, taken as a path, is a file.
    pub direct_is_file: bool,
    /// `callbacks/{selector}` is a file.
    pub in_store_is_file: bool,
    /// `callbacks/{selector}` has an extension.
    pub in_store_has_extension: bool,
    /// `callbacks/{selector}.json` is a file.
    pub in_store_json_is_file: bool,
}

/// Which stored callback a selector resolves to.
#[derive(Debug, Clone, Copy, PartialEq, Eq, Structural)]
pub enum Resolution {
    /// The entry at this 0-based position of the newest-first listing.
    Stored(usize),
    /// The selector itself, as a path.
    Direct,
    /// `callbacks/{selector}`.
    InStore,
    /// `callbacks/{selector}.json`.
    InStoreJson,
}

pub open spec fn one_indexed_message() -> Seq<char> {
    "stored callbacks are 1-indexed; try `mpesa-dev replay 1`"@
}

pub open spec fn no_stored_message(index: nat) -> Seq<char> {
    "no stored callback #"@ + decimal(index)
        + "; run `mpesa-dev replay` with no arguments to see what's available"@
}

pub open spec fn no_match_message(selector: Seq<char>) -> Seq<char> {
    "no stored callback matching '"@ + selector
        + "'; run `mpesa-dev replay` with no arguments to see what's available"@
}

/// What `resolve` decides for `selector`, given how many callbacks are
/// stored and what the file system says about the named candidates.
pub open spec fn resolves_to(selector: Seq<char>, stored_count: nat, probes: NameProbes, r: Result<Resolution, Error>) -> bool {
    match parse_unsigned(selector, usize::MAX as nat) {
        Some(index) => if index == 0 {
            r matches Err(e) && config_error(e, one_indexed_message())
        } else if index <= stored_count {
            r == Ok::<Resolution, Error>(Resolution::Stored((index - 1) as usize))
        } else {
            r matches Err(e) && config_error(e, no_stored_message(index))
        },
        None => if probes.direct_is_file {
            r == Ok::<Resolution, Error>(Resolution::Direct)
        } else if probes.in_store_is_file {
            r == Ok::<Resolution, Error>(Resolution::InStore)
        } else if !probes.in_store_has_extension && probes.in_store_json_is_file {
            r == Ok::<Resolution, Error>(Resolution::InStoreJson)
        } else {
            r matches Err(e) && config_error(e, no_match_message(selector))
        },
    }
}

/// A selector resolves only to a file the probes found, or to an entry of
/// the listing that exists: an index names a position within the stored
/// callbacks, and a name that matches no file is an error.
pub proof fn resolution_names_an_existing_callback(
    selector: Seq<char>,
    stored_count: nat,
    probes: NameProbes,
    r: Result<Resolution, Error>,
)
    requires
        resolves_to(selector, stored_count, probes, r),
    ensures
        r == Ok::<Resolution, Error>(Resolution::Direct) ==> probes.direct_is_file,
        r == Ok::<Resolution, Error>(Resolution::InStore) ==> probes.in_store_is_file,
        r == Ok::<Resolution, Error>(Resolution::InStoreJson) ==> probes.in_store_json_is_file
            && !probes.in_store_has_extension,
        r matches Ok(Resolution::Stored(i)) ==> i < stored_count && parse_unsigned(selector, usize::MAX as nat)
            == Some((i + 1) as nat),
        parse_unsigned(selector, usize::MAX as nat) is None && !probes.direct_is_file && !probes.in_store_is_file
            && !probes.in_store_json_is_file ==> r is Err,
{
}

/// Resolves a user-supplied selector — a 1-based index into the
/// newest-first listing of stored callbacks, a bare file name in the store
/// (with or without `.json`), or a path — to a stored callback.
pub fn resolve(selector: &str, stored_count: usize, probes: &NameProbes) -> (r: Result<Resolution, Error>)
    ensures
        resolves_to(selector@, stored_count as nat, *probes, r),
{
    if let Some(index) = parse_usize(selector) {
        if index == 0 {
            return Err(Error::Config(String::from_str("stored callbacks are 1-indexed; try `mpesa-dev replay 1`")));
        }
        if index <= stored_count {
            return Ok(Resolution::Stored(index - 1));
        }
        let mut msg = String::from_str("no stored callback #");
        msg.append(format_u64(index as u64).as_str());
        msg.append("; run `mpesa-dev replay` with no arguments to see what's available");
        return Err(Error::Config(msg));
    }
    if probes.direct_is_file {
        return Ok(Resolution::Direct);
    }
    if probes.in_store_is_file {
        return Ok(Resolution::InStore);
    }
    if !probes.in_store_has_extension && probes.in_store_json_is_file {
        return Ok(Resolution::InStoreJson);
    }
    let mut msg = String::from_str("no stored callback matching '");
    msg.append(selector);
    msg.append("'; run `mpesa-dev replay` with no arguments to see what's available");
    Err(Error::Config(msg))
}

/// What reading a stored callback back found.
#[derive(Debug, Clone, Copy)]
pub enum StoredCallback {
    /// The file could not be read.
    Unreadable,
    /// The file is not an STK callback envelope.
    Unrecognized,
    /// An STK callback with this ResultCode.
    Stk(i64),
}

/// The listing line of a stored callback.
pub open spec fn summary_text(callback: StoredCallback) -> Seq<char> {
    match callback {
        StoredCallback::Unreadable => "(unreadable)"@,
        StoredCallback::Unrecognized => "(not a recognized STK callback shape)"@,
        StoredCallback::Stk(code) => "ResultCode "@ + decimal_int(code as int) + ": "@ + description_of(code),
    }
}

/// A short, human-readable description of a stored callback for listing:
/// its ResultCode and plain-English meaning, or why there is none.
pub fn summarize(callback: StoredCallback) -> (s: String)
    ensures
        s@ == summary_text(callback),
{
    match callback {
        StoredCallback::Unreadable => String::from_str("(unreadable)"),
        StoredCallback::Unrecognized => String::from_str("(not a recognized STK callback shape)"),
        StoredCallback::Stk(code) => {
            let (_, description) = describe(code);
            let mut s = String::from_str("ResultCode ");
            s.append(format_i64(code).as_str());
            s.append(": ");
            s.append(description);
            s
        },
    }
}

/// Lexicographic order on text, character by character: the order std
/// gives paths that differ only in their last component, since UTF-8
/// preserves the order of code points.
pub open spec fn lex_lt(a: Seq<char>, b: Seq<char>) -> bool
    decreases a.len(),
{
    if a.len() == 0 {
        b.len() > 0
    } else if b.len() == 0 {
        false
    } else if a[0] != b[0] {
        a[0] < b[0]
    } else {
        lex_lt(a.drop_first(), b.drop_first())
    }
}

proof fn lemma_lex_lt_irreflexive(a: Seq<char>)
    ensures
        !lex_lt(a, a),
    decreases a.len(),
{
    if a.len() > 0 {
        lemma_lex_lt_irreflexive(a.drop_first());
    }
}

proof fn lemma_lex_lt_transitive(a: Seq<char>, b: Seq<char>, c: Seq<char>)
    requires
        lex_lt(a, b),
        lex_lt(b, c),
    ensures
        lex_lt(a, c),
    decreases a.len(),
{
    if a.len() > 0 && a[0] == b[0] && b[0] == c[0] {
        lemma_lex_lt_transitive(a.drop_first(), b.drop_first(), c.drop_first());
    }
}

/// Whether `a` comes before `b`.
fn text_less(a: &str, b: &str) -> (r: bool)
    ensures
        r == lex_lt(a@, b@),
{
    let av = chars_of(a);
    let bv = chars_of(b);
    let mut i: usize = 0;
    assert(a@.skip(0) =~= a@);
    assert(b@.skip(0) =~= b@);
    while i < av.len() && i < bv.len() && av[i] == bv[i]
        invariant
            av@ == a@,
            bv@ == b@,
            i <= av@.len(),
            i <= bv@.len(),
            lex_lt(a@, b@) == lex_lt(a@.skip(i as int), b@.skip(i as int)),
        decreases av@.len() - i,
    {
        assert(a@.skip(i as int).drop_first() =~= a@.skip(i + 1));
        assert(b@.skip(i as int).drop_first() =~= b@.skip(i + 1));
        i = i + 1;
    }
    if i == av.len() {
        i < bv.len()
    } else if i == bv.len() {
        false
    } else {
        av[i] < bv[i]
    }
}

/// A file name with the `json` extension, as `Path::extension` sees it:
/// it ends in `.json` and has a non-empty stem before that.
pub open spec fn is_json_name(name: Seq<char>) -> bool {
    name.len() > 5 && has_suffix(name, ".json"@)
}

/// The names among `names` that have the `json` extension, in order.
pub open spec fn json_names(names: Seq<String>) -> Seq<String>
    decreases names.len(),
{
    if names.len() == 0 {
        Seq::empty()
    } else if is_json_name(names.last()@) {
        json_names(names.drop_last()).push(names.last())
    } else {
        json_names(names.drop_last())
    }
}

/// No name comes before a name after it: the newest-first order of names
/// that start with their capture time.
pub open spec fn descending(s: Seq<String>) -> bool {
    forall|i: int, j: int| 0 <= i < j < s.len() ==> !lex_lt(#[trigger] s[i]@, #[trigger] s[j]@)
}

fn has_json_extension(name: &str) -> (r: bool)
    ensures
        r == is_json_name(name@),
{
    let nv = chars_of(name);
    let ext = chars_of(".json");
    proof {
        reveal_strlit(".json");
    }
    if nv.len() <= 5 {
        return false;
    }
    matches_at(&nv, &ext, nv.len() - 5)
}

/// The stored callbacks among a directory's entry names: those with the
/// `json` extension, newest first, i.e. in descending name order.
pub fn newest_first(names: &Vec<String>) -> (r: Vec<String>)
    ensures
        descending(r@),
        r@.to_multiset() == json_names(names@).to_multiset(),
{
    broadcast use vstd::seq_lib::group_to_multiset_ensures;

    let mut r: Vec<String> = Vec::new();
    let mut i: usize = 0;
    assert(json_names(names@.take(0)) =~= Seq::<String>::empty());
    assert(r@.to_multiset() =~= Multiset::<String>::empty());
    while i < names.len()
        invariant
            i <= names@.len(),
            descending(r@),
            r@.to_multiset() == json_names(names@.take(i as int)).to_multiset(),
        decreases names@.len() - i,
    {
        assert(names@.take(i + 1).drop_last() =~= names@.take(i as int));
        assert(names@.take(i + 1).last() == names@[i as int]);
        let name = &names[i];
        let ghost prev = json_names(names@.take(i as int));
        if has_json_extension(name.as_str()) {
            assert(json_names(names@.take(i + 1)) == prev.push(*name));
            let mut k: usize = 0;
            while k < r.len() && !text_less(r[k].as_str(), name.as_str())
                invariant
                    k <= r@.len(),
                    forall|j: int| 0 <= j < k ==> !lex_lt(#[trigger] r@[j]@, name@),
                decreases r@.len() - k,
            {
                k = k + 1;
            }
            let ghost old_r = r@;
            r.insert(k, name.clone());
            assert forall|a: int, b: int| 0 <= a < b < r@.len() implies !lex_lt(
                #[trigger] r@[a]@,
                #[trigger] r@[b]@,
            ) by {
                if b < k {
                    assert(r@[a] == old_r[a] && r@[b] == old_r[b]);
                } else if b == k {
                    assert(r@[a] == old_r[a]);
                } else if a < k {
                    assert(r@[a] == old_r[a] && r@[b] == old_r[b - 1]);
                } else if a == k {
                    assert(r@[b] == old_r[b - 1]);
                    assert(lex_lt(old_r[k as int]@, name@));
                    if lex_lt(name@, old_r[b - 1]@) {
                        lemma_lex_lt_transitive(old_r[k as int]@, name@, old_r[b - 1]@);
                        if b - 1 == k {
                            lemma_lex_lt_irreflexive(old_r[k as int]@);
                        }
                    }
                } else {
                    assert(r@[a] == old_r[a - 1] && r@[b] == old_r[b - 1]);
                }
            }
            proof {
                vstd::seq_lib::to_multiset_insert(old_r, k as int, *name);
                vstd::seq_lib::to_multiset_build(prev, *name);
            }
            assert(r@ == old_r.insert(k as int, *name));
        } else {
            assert(json_names(names@.take(i + 1)) == prev);
        }
        i = i + 1;
    }
    assert(names@.take(names@.len() as int) =~= names@);
    r
}

proof fn lemma_lex_lt_extend(a: Seq<char>, b: Seq<char>, x: Seq<char>, y: Seq<char>)
    requires
        a.len() == b.len(),
        lex_lt(a, b),
    ensures
        lex_lt(a + x, b + y),
    decreases a.len(),
{
    assert((a + x)[0] == a[0] && (b + y)[0] == b[0]);
    if a[0] == b[0] {
        assert((a + x).drop_first() =~= a.drop_first() + x);
        assert((b + y).drop_first() =~= b.drop_first() + y);
        lemma_lex_lt_extend(a.drop_first(), b.drop_first(), x, y);
    }
}

/// File names sort chronologically: a callback captured at a later
/// timestamp of the same fixed-width format gets a file name that sorts
/// after the earlier one's, whatever their tags and short ids, so the
/// newest-first listing puts it before the earlier one.
pub proof fn later_capture_sorts_after(
    earlier: Seq<char>,
    later: Seq<char>,
    earlier_code: Option<i64>,
    later_code: Option<i64>,
    earlier_id: Seq<char>,
    later_id: Seq<char>,
)
    requires
        earlier.len() == later.len(),
        lex_lt(earlier, later),
    ensures
        lex_lt(
            stored_name_text(earlier, earlier_code, earlier_id),
            stored_name_text(later, later_code, later_id),
        ),
{
    let x = "_"@ + tag_text(earlier_code) + "_"@ + earlier_id + ".json"@;
    let y = "_"@ + tag_text(later_code) + "_"@ + later_id + ".json"@;
    assert(stored_name_text(earlier, earlier_code, earlier_id) =~= earlier + x);
    assert(stored_name_text(later, later_code, later_id) =~= later + y);
    lemma_lex_lt_extend(earlier, later, x, y);
}


proof fn lemma_padded_len(n: nat, k: nat)
    ensures
        padded(n, k).len() == k,
    decreases k,
{
    if k > 0 {
        lemma_padded_len(n / 10, (k - 1) as nat);
    }
}

proof fn lemma_lex_lt_common_prefix(p: Seq<char>, a: Seq<char>, b: Seq<char>)
    requires
        lex_lt(a, b),
    ensures
        lex_lt(p + a, p + b),
    decreases p.len(),
{
    if p.len() > 0 {
        assert((p + a).drop_first() =~= p.drop_first() + a);
        assert((p + b).drop_first() =~= p.drop_first() + b);
        assert((p + a)[0] == p[0] && (p + b)[0] == p[0]);
        lemma_lex_lt_common_prefix(p.drop_first(), a, b);
    } else {
        assert(p + a =~= a);
        assert(p + b =~= b);
    }
}

proof fn lemma_padded_order(a: nat, b: nat, k: nat)
    requires
        a < b < pow10(k),
    ensures
        lex_lt(padded(a, k), padded(b, k)),
    decreases k,
{
    let k1 = (k - 1) as nat;
    lemma_padded_len(a / 10, k1);
    lemma_padded_len(b / 10, k1);
    assert(b / 10 < pow10(k1));
    if a / 10 < b / 10 {
        lemma_padded_order(a / 10, b / 10, k1);
        lemma_lex_lt_extend(padded(a / 10, k1), padded(b / 10, k1), seq![digit_char(a % 10)], seq![digit_char(b % 10)]);
        assert(padded(a, k) =~= padded(a / 10, k1) + seq![digit_char(a % 10)]);
        assert(padded(b, k) =~= padded(b / 10, k1) + seq![digit_char(b % 10)]);
    } else {
        assert(a / 10 == b / 10);
        assert(a % 10 < b % 10);
        let x = seq![digit_char(a % 10)];
        let y = seq![digit_char(b % 10)];
        assert(x.drop_first() =~= Seq::<char>::empty());
        assert(lex_lt(x, y));
        lemma_lex_lt_common_prefix(padded(a / 10, k1), x, y);
        assert(padded(a, k) =~= padded(a / 10, k1) + x);
        assert(padded(b, k) =~= padded(b / 10, k1) + y);
    }
}

/// `p + x + r1` comes before `p + y + r2` when `x` comes before `y` and
/// both have the same length.
proof fn lemma_lex_lt_middle(p: Seq<char>, x: Seq<char>, y: Seq<char>, r1: Seq<char>, r2: Seq<char>)
    requires
        x.len() == y.len(),
        lex_lt(x, y),
    ensures
        lex_lt(p + x + r1, p + y + r2),
{
    lemma_lex_lt_extend(x, y, r1, r2);
    lemma_lex_lt_common_prefix(p, x + r1, y + r2);
    assert(p + x + r1 =~= p + (x + r1));
    assert(p + y + r2 =~= p + (y + r2));
}

/// Stamps sort as the times they show: of two valid UTC times with
/// four-digit years, the earlier one's `YYYYmmdd-HHMMSS` stamp sorts first.
pub proof fn earlier_time_stamps_first(a: UtcTime, b: UtcTime)
    requires
        a.valid(),
        b.valid(),
        a.four_digit_year(),
        b.four_digit_year(),
        a.before(b),
    ensures
        lex_lt(a.stamp(), b.stamp()),
        a.stamp().len() == b.stamp().len(),
{
    lemma_padded_len(a.year as nat, 4);
    lemma_padded_len(b.year as nat, 4);
    lemma_padded_len(a.month as nat, 2);
    lemma_padded_len(b.month as nat, 2);
    lemma_padded_len(a.day as nat, 2);
    lemma_padded_len(b.day as nat, 2);
    lemma_padded_len(a.hour as nat, 2);
    lemma_padded_len(b.hour as nat, 2);
    lemma_padded_len(a.minute as nat, 2);
    lemma_padded_len(b.minute as nat, 2);
    lemma_padded_len(a.second as nat, 2);
    lemma_padded_len(b.second as nat, 2);
    assert(pow10(0) == 1);
    assert(pow10(1) == 10);
    assert(pow10(2) == 100);
    assert(pow10(3) == 1000);
    assert(pow10(4) == 10000);
    let ya = padded(a.year as nat, 4);
    let yb = padded(b.year as nat, 4);
    let ma = padded(a.month as nat, 2);
    let mb = padded(b.month as nat, 2);
    let da = padded(a.day as nat, 2);
    let db = padded(b.day as nat, 2);
    let ha = padded(a.hour as nat, 2);
    let hb = padded(b.hour as nat, 2);
    let na = padded(a.minute as nat, 2);
    let nb = padded(b.minute as nat, 2);
    let sa = padded(a.second as nat, 2);
    let sb = padded(b.second as nat, 2);
    let dash = seq!['-'];
    let empty = Seq::<char>::empty();
    if a.year < b.year {
        lemma_padded_order(a.year as nat, b.year as nat, 4);
        lemma_lex_lt_middle(empty, ya, yb, ma + da + dash + ha + na + sa, mb + db + dash + hb + nb + sb);
        assert(a.stamp() =~= empty + ya + (ma + da + dash + ha + na + sa));
        assert(b.stamp() =~= empty + yb + (mb + db + dash + hb + nb + sb));
    } else if a.month < b.month {
        lemma_padded_order(a.month as nat, b.month as nat, 2);
        lemma_lex_lt_middle(ya, ma, mb, da + dash + ha + na + sa, db + dash + hb + nb + sb);
        assert(a.stamp() =~= ya + ma + (da + dash + ha + na + sa));
        assert(b.stamp() =~= ya + mb + (db + dash + hb + nb + sb));
    } else if a.day < b.day {
        lemma_padded_order(a.day as nat, b.day as nat, 2);
        lemma_lex_lt_middle(ya + ma, da, db, dash + ha + na + sa, dash + hb + nb + sb);
        assert(a.stamp() =~= (ya + ma) + da + (dash + ha + na + sa));
        assert(b.stamp() =~= (ya + ma) + db + (dash + hb + nb + sb));
    } else if a.hour < b.hour {
        lemma_padded_order(a.hour as nat, b.hour as nat, 2);
        lemma_lex_lt_middle(ya + ma + da + dash, ha, hb, na + sa, nb + sb);
        assert(a.stamp() =~= (ya + ma + da + dash) + ha + (na + sa));
        assert(b.stamp() =~= (ya + ma + da + dash) + hb + (nb + sb));
    } else if a.minute < b.minute {
        lemma_padded_order(a.minute as nat, b.minute as nat, 2);
        lemma_lex_lt_middle(ya + ma + da + dash + ha, na, nb, sa, sb);
        assert(a.stamp() =~= (ya + ma + da + dash + ha) + na + sa);
        assert(b.stamp() =~= (ya + ma + da + dash + ha) + nb + sb);
    } else {
        lemma_padded_order(a.second as nat, b.second as nat, 2);
        lemma_lex_lt_middle(ya + ma + da + dash + ha + na, sa, sb, empty, empty);
        assert(a.stamp() =~= (ya + ma + da + dash + ha + na) + sa + empty);
        assert(b.stamp() =~= (ya + ma + da + dash + ha + na) + sb + empty);
    }
}

/// A callback saved at a later UTC second (four-digit years) gets a file
/// name that sorts after the earlier one's, whatever their tags and short
/// ids, so the newest-first listing shows it first.
pub proof fn later_save_sorts_after(
    earlier: UtcTime,
    later: UtcTime,
    earlier_code: Option<i64>,
    later_code: Option<i64>,
    earlier_id: Seq<char>,
    later_id: Seq<char>,
)
    requires
        earlier.valid(),
        later.valid(),
        earlier.four_digit_year(),
        later.four_digit_year(),
        earlier.before(later),
    ensures
        lex_lt(
            stored_name_text(earlier.stamp(), earlier_code, earlier_id),
            stored_name_text(later.stamp(), later_code, later_id),
        ),
{
    earlier_time_stamps_first(earlier, later);
    later_capture_sorts_after(earlier.stamp(), later.stamp(), earlier_code, later_code, earlier_id, later_id);
}

} // verus!
