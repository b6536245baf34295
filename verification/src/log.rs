//! The activity log's text format.
//!
//! The log is comma-separated text, one record per line, under a header line
//! that a new file starts with. Numbers are written in decimal without
//! padding. Everything here works on bytes; writing them is the host's part.

use vstd::prelude::*;
use vstd::slice::slice_to_vec;

verus! {

/// One line of the log: the counters and the idle time at one moment.
#[derive(Clone, Copy, Debug, PartialEq, Eq, Structural)]
pub struct LogRecord {
    /// When the record was taken, in epoch seconds.
    pub timestamp: u64,
    /// Key presses counted since the last reset.
    pub keyboard_count: u64,
    /// Mouse events counted since the last reset.
    pub mouse_count: u64,
    /// Seconds without genuine activity.
    pub idle_time_seconds: u64,
}

/// The ASCII digit of a value below ten.
pub open spec fn digit(value: nat) -> u8 {
    (48 + value) as u8
}

/// The decimal numeral of `n`, most significant digit first, as ASCII.
pub open spec fn decimal(n: nat) -> Seq<u8>
    decreases n,
{
    if n < 10 {
        seq![digit(n)]
    } else {
        decimal(n / 10).push(digit(n % 10))
    }
}

/// The header line, as characters.
pub open spec fn header_text() -> Seq<char> {
    "timestamp,keyboard_count,mouse_count,idle_time_seconds\n"@
}

/// The header line, as bytes: one byte per character.
pub open spec fn header_line() -> Seq<u8> {
    Seq::new(header_text().len(), |i: int| header_text()[i] as u8)
}

/// The line of a record: its four numbers in decimal, separated by commas,
/// and a line feed.
pub open spec fn record_line(record: LogRecord) -> Seq<u8> {
    decimal(record.timestamp as nat) + seq![44u8] + decimal(record.keyboard_count as nat)
        + seq![44u8] + decimal(record.mouse_count as nat) + seq![44u8] + decimal(
        record.idle_time_seconds as nat,
    ) + seq![10u8]
}

/// What a save appends to the log file: the record's line, after the header
/// line if the file did not exist.
pub open spec fn log_chunk(record: LogRecord, file_exists: bool) -> Seq<u8> {
    if file_exists {
        record_line(record)
    } else {
        header_line() + record_line(record)
    }
}

/// Appends the decimal numeral of `n` to `out`.
pub fn push_decimal(out: &mut Vec<u8>, n: u64)
    ensures
        final(out)@ == old(out)@ + decimal(n as nat),
    decreases n,
{
    if n >= 10 {
        push_decimal(out, n / 10);
    }
    out.push(48u8 + (n % 10) as u8);
}

/// Appends the header line to `out`.
pub fn push_header(out: &mut Vec<u8>)
    ensures
        final(out)@ == old(out)@ + header_line(),
{
    let text = "timestamp,keyboard_count,mouse_count,idle_time_seconds\n";
    proof {
        reveal_strlit("timestamp,keyboard_count,mouse_count,idle_time_seconds\n");
        vstd::string::is_ascii_spec_bytes(text);
    }
    let mut bytes = slice_to_vec(text.as_bytes());
    out.append(&mut bytes);
}

/// Appends the line of `record` to `out`.
pub fn push_record(out: &mut Vec<u8>, record: &LogRecord)
    ensures
        final(out)@ == old(out)@ + record_line(*record),
{
    push_decimal(out, record.timestamp);
    out.push(44u8);
    push_decimal(out, record.keyboard_count);
    out.push(44u8);
    push_decimal(out, record.mouse_count);
    out.push(44u8);
    push_decimal(out, record.idle_time_seconds);
    out.push(10u8);
}

/// The bytes that a save of `record` appends to the log file.
pub fn render_log_chunk(record: &LogRecord, file_exists: bool) -> (bytes: Vec<u8>)
    ensures
        bytes@ == log_chunk(*record, file_exists),
{
    let mut bytes: Vec<u8> = Vec::new();
    if !file_exists {
        push_header(&mut bytes);
    }
    push_record(&mut bytes, record);
    bytes
}

/// A decimal numeral is not empty and holds nothing but ASCII digits.
pub proof fn lemma_decimal_is_digits(n: nat)
    ensures
        decimal(n).len() >= 1,
        forall|i: int| 0 <= i < decimal(n).len() ==> 48 <= #[trigger] decimal(n)[i] <= 57,
    decreases n,
{
    if n >= 10 {
        lemma_decimal_is_digits(n / 10);
    }
}

/// One record is one line: the line of a record ends with a line feed and
/// holds no other.
pub proof fn lemma_record_is_one_line(record: LogRecord)
    ensures
        record_line(record).len() >= 8,
        record_line(record).last() == 10,
        forall|i: int|
            0 <= i < record_line(record).len() - 1 ==> #[trigger] record_line(record)[i] != 10,
{
    lemma_decimal_is_digits(record.timestamp as nat);
    lemma_decimal_is_digits(record.keyboard_count as nat);
    lemma_decimal_is_digits(record.mouse_count as nat);
    lemma_decimal_is_digits(record.idle_time_seconds as nat);
}

} // verus!
