//! The audit trail: one JSON line per run, carrying a SHA-256 hash of the
//! entry it is computed over, for tamper evidence.
//!
//! An entry is a JSON object with its keys in sorted order and no
//! whitespace; its string values are written by serde_json.  Its
//! `entry_sha256` is the lowercase hex SHA-256 of the same entry's bytes
//! without that key.

use vstd::prelude::*;
use sha2::Digest;
use vstd::utf8::encode_utf8;
use crate::runner::{views, RecordView, RunResult};
use crate::text::digit_char;

verus! {

/// The bytes a JSON string escape writes for the byte `b`: quote and
/// backslash are escaped with a backslash, the control bytes with their
/// short escapes or `\u00XX` (lowercase hex), every other byte stands for
/// itself.
pub open spec fn escape_byte(b: u8) -> Seq<u8> {
    if b == 0x22 {
        seq![0x5cu8, 0x22u8]
    } else if b == 0x5c {
        seq![0x5cu8, 0x5cu8]
    } else if b == 0x08 {
        seq![0x5cu8, 0x62u8]
    } else if b == 0x09 {
        seq![0x5cu8, 0x74u8]
    } else if b == 0x0a {
        seq![0x5cu8, 0x6eu8]
    } else if b == 0x0c {
        seq![0x5cu8, 0x66u8]
    } else if b == 0x0d {
        seq![0x5cu8, 0x72u8]
    } else if b < 0x20 {
        seq![0x5cu8, 0x75u8, 0x30u8, 0x30u8, hex_byte(b / 16), hex_byte(b % 16)]
    } else {
        seq![b]
    }
}

/// The ASCII byte of the lowercase hex digit `n` (0 to 15).
pub open spec fn hex_byte(n: u8) -> u8 {
    if n < 10 {
        (0x30 + n) as u8
    } else {
        (0x61 + n - 10) as u8
    }
}

/// The escaped form of a string's UTF-8 bytes.
pub open spec fn escape_bytes(bytes: Seq<u8>) -> Seq<u8>
    decreases bytes.len(),
{
    if bytes.len() == 0 {
        Seq::empty()
    } else {
        escape_bytes(bytes.drop_last()) + escape_byte(bytes.last())
    }
}

/// The JSON string literal of `s`, as serde_json writes it.
pub open spec fn json_string(s: Seq<char>) -> Seq<u8> {
    seq![0x22u8] + escape_bytes(encode_utf8(s)) + seq![0x22u8]
}

/// A JSON object member with a string value.
pub open spec fn str_member(key: Seq<char>, value: Seq<char>) -> Seq<u8> {
    json_string(key) + seq![0x3au8] + json_string(value)
}

/// The JSON object of one violation in an audit entry.
#[verifier::opaque]
pub open spec fn record_json(v: RecordView) -> Seq<u8> {
    seq![0x7bu8] + str_member("action_taken"@, v.action_taken) + seq![0x2cu8] + str_member(
        "clause_name"@,
        v.clause_name,
    ) + seq![0x2cu8] + str_member("clause_text"@, v.clause_text) + seq![0x2cu8] + str_member(
        "clause_type"@,
        v.clause_type,
    ) + seq![0x2cu8] + str_member("details"@, v.details) + seq![0x7du8]
}

/// The violations' objects, separated by commas.
pub open spec fn records_json(vs: Seq<RecordView>) -> Seq<u8>
    decreases vs.len(),
{
    if vs.len() == 0 {
        Seq::empty()
    } else if vs.len() == 1 {
        record_json(vs[0])
    } else {
        records_json(vs.drop_last()) + seq![0x2cu8] + record_json(vs.last())
    }
}

/// The `entry_sha256` member where there is one, with the comma before it.
pub open spec fn hash_member(hash: Option<Seq<char>>) -> Seq<u8> {
    match hash {
        Some(h) => seq![0x2cu8] + str_member("entry_sha256"@, h),
        None => Seq::empty(),
    }
}

/// The opening of an audit entry: the members before `entry_sha256`.
pub open spec fn entry_head(result: RunResult, contract_path: Seq<char>) -> Seq<u8> {
    seq![0x7bu8] + str_member("agent"@, result.agent@) + seq![0x2cu8] + str_member(
        "contract_path"@,
        contract_path,
    ) + seq![0x2cu8] + str_member("contract_version"@, result.contract_version@)
}

/// The `passed` member, with the comma before it.
pub open spec fn passed_member(passed: bool) -> Seq<u8> {
    seq![0x2cu8] + json_string("passed"@) + seq![0x3au8] + encode_utf8(
        if passed {
            "true"@
        } else {
            "false"@
        },
    )
}

/// The `violations` member, with the comma before it.
pub open spec fn violations_member(vs: Seq<RecordView>) -> Seq<u8> {
    seq![0x2cu8] + json_string("violations"@) + seq![0x3au8, 0x5bu8] + records_json(vs) + seq![
        0x5du8,
    ]
}

/// The rest of an audit entry: the members after `entry_sha256`, and the
/// closing brace.
pub open spec fn entry_tail(result: RunResult, timestamp: Seq<char>) -> Seq<u8> {
    seq![0x2cu8] + str_member("outcome"@, result.spec_outcome()) + passed_member(result.passed)
        + seq![0x2cu8] + str_member("run_id"@, result.run_id@) + seq![0x2cu8] + str_member(
        "timestamp"@,
        timestamp,
    ) + violations_member(views(result.violations@)) + seq![0x7du8]
}

/// The audit entry of `result`, with the `entry_sha256` member where
/// `hash` is given.
pub open spec fn entry_json(
    result: RunResult,
    contract_path: Seq<char>,
    timestamp: Seq<char>,
    hash: Option<Seq<char>>,
) -> Seq<u8> {
    entry_head(result, contract_path) + hash_member(hash) + entry_tail(result, timestamp)
}

/// The digits of `bytes` in lowercase hexadecimal, high nibble first.
pub open spec fn hex_lower(bytes: Seq<u8>) -> Seq<char>
    decreases bytes.len(),
{
    if bytes.len() == 0 {
        Seq::empty()
    } else {
        hex_lower(bytes.drop_last()) + seq![
            hex_digit((bytes.last() / 16) as nat),
            hex_digit((bytes.last() % 16) as nat),
        ]
    }
}

/// The lowercase hexadecimal digit `n` (0 to 15).
pub open spec fn hex_digit(n: nat) -> char {
    if n < 10 {
        digit_char(n)
    } else if n == 10 {
        'a'
    } else if n == 11 {
        'b'
    } else if n == 12 {
        'c'
    } else if n == 13 {
        'd'
    } else if n == 14 {
        'e'
    } else {
        'f'
    }
}

/// The SHA-256 digest of `data`, as `sha2::Sha256::digest` computes it.
pub uninterp spec fn sha256(data: Seq<u8>) -> Seq<u8>;

/// The signed audit line of `result`: its entry with an `entry_sha256`
/// member holding the hex SHA-256 of the entry without it.
pub open spec fn signed_entry(result: RunResult, contract_path: Seq<char>, timestamp: Seq<char>) -> Seq<u8> {
    entry_json(
        result,
        contract_path,
        timestamp,
        Some(hex_lower(sha256(entry_json(result, contract_path, timestamp, None)))),
    )
}

/// The SHA-256 digest of `data`, by `sha2::Sha256::digest`.
///
/// Trusted: the result is `sha256` of the data, and 32 bytes long (SHA-256's
/// output size).
#[verifier::external_body]
fn sha256_digest(data: &[u8]) -> (r: Vec<u8>)
    ensures
        r@ == sha256(data@),
        r@.len() == 32,
{
    sha2::Sha256::digest(data).to_vec()
}

/// `bytes` in lowercase hexadecimal, by `hex::encode`.
///
/// Trusted: two digits per byte from `0123456789abcdef`, high nibble first,
/// as the crate's source writes them.
#[verifier::external_body]
fn hex_encode(bytes: &[u8]) -> (r: String)
    ensures
        r@ == hex_lower(bytes@),
{
    hex::encode(bytes)
}

/// Whether every character of `s` is a decimal digit.
pub open spec fn all_digits(s: Seq<char>) -> bool {
    forall|i: int| 0 <= i < s.len() ==> '0' <= #[trigger] s[i] <= '9'
}

/// Whether `s` is a year as chrono writes it in RFC 3339: four digits, or
/// a sign and at least four digits for a year outside 0 to 9999.
pub open spec fn is_rfc3339_year(s: Seq<char>) -> bool {
    ||| s.len() == 4 && all_digits(s)
    ||| s.len() >= 5 && (s[0] == '+' || s[0] == '-') && all_digits(s.drop_first())
}

/// Whether `s` is `-MM-DDThh:mm:ss` with two digits in each field.
pub open spec fn is_rfc3339_date_time(s: Seq<char>) -> bool {
    &&& s.len() == 15
    &&& s[0] == '-' && s[3] == '-' && s[6] == 'T' && s[9] == ':' && s[12] == ':'
    &&& all_digits(s.subrange(1, 3)) && all_digits(s.subrange(4, 6))
    &&& all_digits(s.subrange(7, 9)) && all_digits(s.subrange(10, 12))
    &&& all_digits(s.subrange(13, 15))
}

/// Whether `s` is a UTC time in the RFC 3339 form that chrono's
/// `to_rfc3339` writes: year, `-MM-DDThh:mm:ss`, an optional fraction of
/// 3, 6 or 9 digits, and the offset `+00:00`.
pub open spec fn is_utc_rfc3339(s: Seq<char>) -> bool {
    exists|y: int, f: int|
        #![trigger s.subrange(0, y), s.subrange(y + 15, y + 15 + f)]
        0 <= y && (f == 0 || f == 4 || f == 7 || f == 10) && s.len() == y + 15 + f + 6
            && is_rfc3339_year(s.subrange(0, y)) && is_rfc3339_date_time(s.subrange(y, y + 15))
            && (f == 0 || (s[y + 15] == '.' && all_digits(s.subrange(y + 16, y + 15 + f))))
            && s.subrange(y + 15 + f, s.len() as int) == seq!['+', '0', '0', ':', '0', '0']
}

/// The current time, by `chrono::Utc::now`, in RFC 3339 form, by
/// `DateTime::to_rfc3339`.
///
/// Trusted: the text has the form `write_rfc3339` (chrono's
/// `format/formatting.rs`) gives a UTC time with automatic sub-second
/// digits and no `Z`.  Which time it is, is the clock's reading and is not
/// stated.
#[verifier::external_body]
fn now_rfc3339() -> (r: String)
    ensures
        is_utc_rfc3339(r@),
{
    chrono::Utc::now().to_rfc3339()
}

fn push_bytes(out: &mut Vec<u8>, s: &str)
    ensures
        final(out)@ == old(out)@ + encode_utf8(s@),
{
    let bytes = s.as_bytes();
    let ghost start = out@;
    let n = bytes.len();
    let mut i: usize = 0;
    while i < n
        invariant
            n == bytes@.len(),
            bytes@ == encode_utf8(s@),
            i <= n,
            out@ == start + bytes@.take(i as int),
        decreases n - i,
    {
        out.push(bytes[i]);
        assert(bytes@.take(i + 1) =~= bytes@.take(i as int).push(bytes@[i as int]));
        i = i + 1;
    }
    assert(bytes@.take(n as int) =~= bytes@);
}

/// The JSON string literal of `s`, by `serde_json::to_string`.
///
/// Trusted: the result's UTF-8 bytes are `json_string(s@)`: a quote, each
/// byte of `s` escaped by the table of serde_json's `ser.rs` (`ESCAPE`,
/// `HEX_DIGITS`), a quote.  Serialising a `str` into serde_json's in-memory
/// writer does not fail, so the error arm is never taken.
#[verifier::external_body]
fn json_string_literal(s: &str) -> (r: String)
    ensures
        encode_utf8(r@) == json_string(s@),
{
    match serde_json::to_string(s) {
        Ok(text) => text,
        Err(_) => String::new(),
    }
}

fn push_json_string(out: &mut Vec<u8>, s: &str)
    ensures
        final(out)@ == old(out)@ + json_string(s@),
{
    let literal = json_string_literal(s);
    push_bytes(out, literal.as_str());
}

fn push_str_member(out: &mut Vec<u8>, key: &str, value: &str)
    ensures
        final(out)@ == old(out)@ + str_member(key@, value@),
{
    let ghost start = out@;
    push_json_string(out, key);
    out.push(0x3a);
    push_json_string(out, value);
    assert(out@ =~= start + str_member(key@, value@));
}

fn push_record(out: &mut Vec<u8>, v: &crate::runner::ViolationRecord)
    ensures
        final(out)@ == old(out)@ + record_json(v@),
{
    reveal(record_json);
    let ghost start = out@;
    out.push(0x7b);
    push_str_member(out, "action_taken", v.action_taken.as_str());
    out.push(0x2c);
    push_str_member(out, "clause_name", v.clause_name.as_str());
    out.push(0x2c);
    push_str_member(out, "clause_text", v.clause_text.as_str());
    out.push(0x2c);
    push_str_member(out, "clause_type", v.clause_type.as_str());
    out.push(0x2c);
    push_str_member(out, "details", v.details.as_str());
    out.push(0x7d);
    assert(out@ =~= start + record_json(v@));
}

fn push_records(out: &mut Vec<u8>, result: &RunResult)
    ensures
        final(out)@ == old(out)@ + records_json(views(result.violations@)),
{
    let ghost start = out@;
    let ghost all = views(result.violations@);
    let n = result.violations.len();
    let mut i: usize = 0;
    assert(records_json(all.take(0)) =~= Seq::<u8>::empty());
    assert(out@ =~= start + records_json(all.take(0)));
    while i < n
        invariant
            n == result.violations@.len(),
            all == views(result.violations@),
            all.len() == n,
            i <= n,
            out@ == start + records_json(all.take(i as int)),
        decreases n - i,
    {
        assert(all.take(i + 1).drop_last() =~= all.take(i as int));
        assert(all.take(i + 1).last() == result.violations@[i as int]@);
        if i > 0 {
            out.push(0x2c);
        }
        push_record(out, &result.violations[i]);
        if i == 0 {
            assert(all.take(1) =~= seq![all[0]]);
        }
        assert(out@ =~= start + records_json(all.take(i + 1)));
        i = i + 1;
    }
    assert(all.take(n as int) =~= all);
}

fn push_head(out: &mut Vec<u8>, result: &RunResult, contract_path: &str)
    ensures
        final(out)@ == old(out)@ + entry_head(*result, contract_path@),
{
    let ghost start = out@;
    out.push(0x7b);
    push_str_member(out, "agent", result.agent.as_str());
    out.push(0x2c);
    push_str_member(out, "contract_path", contract_path);
    out.push(0x2c);
    push_str_member(out, "contract_version", result.contract_version.as_str());
    assert(out@ =~= start + entry_head(*result, contract_path@));
}

fn push_passed(out: &mut Vec<u8>, passed: bool)
    ensures
        final(out)@ == old(out)@ + passed_member(passed),
{
    let ghost start = out@;
    out.push(0x2c);
    push_json_string(out, "passed");
    out.push(0x3a);
    if passed {
        push_bytes(out, "true");
    } else {
        push_bytes(out, "false");
    }
    assert(out@ =~= start + passed_member(passed));
}

fn push_violations(out: &mut Vec<u8>, result: &RunResult)
    ensures
        final(out)@ == old(out)@ + violations_member(views(result.violations@)),
{
    let ghost start = out@;
    out.push(0x2c);
    push_json_string(out, "violations");
    out.push(0x3a);
    out.push(0x5b);
    push_records(out, result);
    out.push(0x5d);
    assert(out@ =~= start + violations_member(views(result.violations@)));
}

fn push_tail(out: &mut Vec<u8>, result: &RunResult, timestamp: &str)
    ensures
        final(out)@ == old(out)@ + entry_tail(*result, timestamp@),
{
    let ghost start = out@;
    out.push(0x2c);
    push_str_member(out, "outcome", result.outcome());
    push_passed(out, result.passed);
    out.push(0x2c);
    push_str_member(out, "run_id", result.run_id.as_str());
    out.push(0x2c);
    push_str_member(out, "timestamp", timestamp);
    push_violations(out, result);
    out.push(0x7d);
    assert(out@ =~= start + entry_tail(*result, timestamp@));
}

fn render_entry(
    result: &RunResult,
    contract_path: &str,
    timestamp: &str,
    hash: Option<&str>,
) -> (r: Vec<u8>)
    ensures
        r@ == entry_json(
            *result,
            contract_path@,
            timestamp@,
            match hash {
                Some(h) => Some(h@),
                None => None,
            },
        ),
{
    let ghost hash_view = match hash {
        Some(h) => Some(h@),
        None => None,
    };
    let mut out: Vec<u8> = Vec::new();
    push_head(&mut out, result, contract_path);
    let ghost head = out@;
    if let Some(h) = hash {
        out.push(0x2c);
        push_str_member(&mut out, "entry_sha256", h);
    }
    assert(out@ =~= head + hash_member(hash_view));
    push_tail(&mut out, result, timestamp);
    assert(out@ =~= entry_json(*result, contract_path@, timestamp@, hash_view));
    out
}

/// Appends audit entries for runs to a JSON Lines file.
pub struct AuditWriter {
    path: String,
}

impl AuditWriter {
    /// The file this writer appends to.
    pub closed spec fn spec_path(self) -> Seq<char> {
        self.path@
    }

    /// A writer appending to the file at `path`.
    pub fn new(path: &str) -> (r: Self)
        ensures
            r.spec_path() == path@,
    {
        AuditWriter { path: String::from_str(path) }
    }

    /// The file this writer appends to.
    pub fn path(&self) -> (r: &str)
        ensures
            r@ == self.spec_path(),
    {
        self.path.as_str()
    }

    /// The audit line of `result` for the contract at `contract_path`,
    /// stamped with `timestamp`: the entry, signed with the hex SHA-256 of
    /// its unsigned bytes.
    pub fn entry_line(result: &RunResult, contract_path: &str, timestamp: &str) -> (r: Vec<u8>)
        ensures
            r@ == signed_entry(*result, contract_path@, timestamp@),
    {
        let unsigned = render_entry(result, contract_path, timestamp, None);
        let digest = sha256_digest(unsigned.as_slice());
        let hash = hex_encode(digest.as_slice());
        render_entry(result, contract_path, timestamp, Some(hash.as_str()))
    }

    /// The audit line of `result` for the contract at `contract_path`,
    /// stamped with the current time in RFC 3339 form.
    pub fn line(&self, result: &RunResult, contract_path: &str) -> (r: Vec<u8>)
        ensures
            exists|timestamp: Seq<char>|
                is_utc_rfc3339(timestamp) && r@ == signed_entry(
                    *result,
                    contract_path@,
                    timestamp,
                ),
    {
        let timestamp = now_rfc3339();
        Self::entry_line(result, contract_path, timestamp.as_str())
    }
}

} // verus!
