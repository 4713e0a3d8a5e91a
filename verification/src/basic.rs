//! Clock readings in whole micro- and milliseconds since the Unix epoch, and
//! the identifier of an arbitrage opportunity.

use std::time::{Duration, SystemTime, SystemTimeError, UNIX_EPOCH};

use vstd::prelude::*;

use crate::text::push_char;

verus! {

#[verifier::external_type_specification]
#[verifier::external_body]
pub struct ExSystemTime(SystemTime);

#[verifier::external_type_specification]
#[verifier::external_body]
pub struct ExSystemTimeError(SystemTimeError);

/// Reads the system clock with `SystemTime::now`; nothing is stated of the
/// reading, which depends on the moment of the call.
#[verifier::external_body]
fn system_now() -> SystemTime {
    SystemTime::now()
}

/// `SystemTime::duration_since` with `UNIX_EPOCH`: the time elapsed since the
/// epoch, or an error when the reading lies before it. Nothing is stated of
/// the outcome, which rests on the reading.
#[verifier::external_body]
fn since_unix_epoch(t: &SystemTime) -> Result<Duration, SystemTimeError> {
    t.duration_since(UNIX_EPOCH)
}

/// `Duration::as_secs`: the whole seconds of a duration. A duration is opaque
/// here, so nothing is stated of the value.
#[verifier::external_body]
fn whole_seconds(d: &Duration) -> u64 {
    d.as_secs()
}

/// `Duration::subsec_nanos`: the fractional part of a duration in
/// nanoseconds, which the documentation says is always below one billion.
#[verifier::external_body]
fn subsecond_nanos(d: &Duration) -> (n: u32)
    ensures
        n < 1_000_000_000,
{
    d.subsec_nanos()
}

/// Whole microseconds in a duration of `secs` seconds and `nanos` nanoseconds.
pub open spec fn micros_of(secs: nat, nanos: nat) -> nat {
    secs * 1_000_000 + nanos / 1_000
}

/// Whole milliseconds in a duration of `secs` seconds and `nanos` nanoseconds.
pub open spec fn millis_of(secs: nat, nanos: nat) -> nat {
    secs * 1_000 + nanos / 1_000_000
}

/// Whole microseconds of a duration given as seconds and sub-second
/// nanoseconds, as `Duration::as_micros` counts them.
pub fn micros_from_parts(secs: u64, nanos: u32) -> (r: u128)
    ensures
        r == micros_of(secs as nat, nanos as nat),
{
    (secs as u128) * 1_000_000 + (nanos / 1_000) as u128
}

/// Whole milliseconds of a duration given as seconds and sub-second
/// nanoseconds, as `Duration::as_millis` counts them.
pub fn millis_from_parts(secs: u64, nanos: u32) -> (r: u128)
    ensures
        r == millis_of(secs as nat, nanos as nat),
{
    (secs as u128) * 1_000 + (nanos / 1_000_000) as u128
}

/// A clock reading is possible: its nanoseconds are below one billion.
pub open spec fn valid_reading(reading: Option<(u64, u32)>) -> bool {
    reading matches Some(p) ==> p.1 < 1_000_000_000
}

/// `r` is the microsecond count of `reading`, and `None` for no reading.
pub open spec fn micros_of_reading(reading: Option<(u64, u32)>, r: Option<u128>) -> bool {
    &&& (r is Some <==> reading is Some)
    &&& (reading matches Some(p) ==> r->0 == micros_of(p.0 as nat, p.1 as nat))
}

/// `r` is the millisecond count of `reading`, and `None` for no reading.
pub open spec fn millis_of_reading(reading: Option<(u64, u32)>, r: Option<u128>) -> bool {
    &&& (r is Some <==> reading is Some)
    &&& (reading matches Some(p) ==> r->0 == millis_of(p.0 as nat, p.1 as nat))
}

/// Reads the system clock: the time since the Unix epoch as whole seconds
/// and sub-second nanoseconds, or `None` when the clock reads a time before
/// the epoch. Which reading comes back rests on the clock.
pub fn epoch_reading() -> (r: Option<(u64, u32)>)
    ensures
        valid_reading(r),
{
    let now = system_now();
    match since_unix_epoch(&now) {
        Ok(d) => Some((whole_seconds(&d), subsecond_nanos(&d))),
        Err(_) => None,
    }
}

/// The microseconds of a clock reading: `None` for no reading, otherwise the
/// whole microseconds of its seconds and nanoseconds.
pub fn micros_since_epoch(reading: Option<(u64, u32)>) -> (r: Option<u128>)
    ensures
        micros_of_reading(reading, r),
{
    match reading {
        Some((s, n)) => Some(micros_from_parts(s, n)),
        None => None,
    }
}

/// The milliseconds of a clock reading: `None` for no reading, otherwise the
/// whole milliseconds of its seconds and nanoseconds.
pub fn millis_since_epoch(reading: Option<(u64, u32)>) -> (r: Option<u128>)
    ensures
        millis_of_reading(reading, r),
{
    match reading {
        Some((s, n)) => Some(millis_from_parts(s, n)),
        None => None,
    }
}

/// Microseconds since the Unix epoch by the system clock, or `None` when the
/// clock reads a time before the epoch: `micros_since_epoch` of one reading
/// of the clock.
pub fn time_now_mcs() -> (r: Option<u128>)
    ensures
        exists|reading: Option<(u64, u32)>|
            valid_reading(reading) && #[trigger] micros_of_reading(reading, r),
{
    micros_since_epoch(epoch_reading())
}

/// Milliseconds since the Unix epoch by the system clock, or `None` when the
/// clock reads a time before the epoch: `millis_since_epoch` of one reading
/// of the clock.
pub fn time_now_ms() -> (r: Option<u128>)
    ensures
        exists|reading: Option<(u64, u32)>|
            valid_reading(reading) && #[trigger] millis_of_reading(reading, r),
{
    millis_since_epoch(epoch_reading())
}

/// The counts are the whole micro- and milliseconds of the duration's total
/// nanoseconds, rounded down.
pub proof fn lemma_counts_are_whole_units(secs: nat, nanos: nat)
    ensures
        micros_of(secs, nanos) == (secs * 1_000_000_000 + nanos) / 1_000,
        millis_of(secs, nanos) == (secs * 1_000_000_000 + nanos) / 1_000_000,
{
    assert((secs * 1_000_000_000 + nanos) / 1_000 == secs * 1_000_000 + nanos / 1_000)
        by (nonlinear_arith);
    assert((secs * 1_000_000_000 + nanos) / 1_000_000 == secs * 1_000 + nanos / 1_000_000)
        by (nonlinear_arith);
}

/// For one reading of the clock, the millisecond count is the microsecond
/// count divided by a thousand, rounded down.
pub proof fn lemma_millis_are_micros_over_thousand(secs: nat, nanos: nat)
    ensures
        millis_of(secs, nanos) == micros_of(secs, nanos) / 1_000,
{
    assert((secs * 1_000_000 + nanos / 1_000) / 1_000 == secs * 1_000 + (nanos / 1_000) / 1_000)
        by (nonlinear_arith);
    assert((nanos / 1_000) / 1_000 == nanos / 1_000_000) by (nonlinear_arith);
}

} // verus!

verus! {

/// The lower-case hexadecimal digit of a value below 16.
pub open spec fn hex_digit(n: nat) -> char {
    if n < 10 {
        (48 + n) as char
    } else {
        (87 + n) as char
    }
}

/// Each byte as two lower-case hexadecimal digits, high nibble first, as the
/// `{:02x}` format writes a byte.
pub open spec fn lower_hex(bytes: Seq<u8>) -> Seq<char>
    decreases bytes.len(),
{
    if bytes.len() == 0 {
        Seq::<char>::empty()
    } else {
        lower_hex(bytes.drop_last()) + seq![
            hex_digit(bytes.last() as nat / 16),
            hex_digit(bytes.last() as nat % 16),
        ]
    }
}

fn hex_digit_char(n: u8) -> (c: char)
    requires
        n < 16,
    ensures
        c == hex_digit(n as nat),
{
    if n < 10 {
        (48 + n) as char
    } else {
        (87 + n) as char
    }
}

/// Writes bytes in lower-case hexadecimal, two digits per byte.
pub fn lower_hex_string(bytes: &[u8]) -> (s: String)
    ensures
        s@ == lower_hex(bytes@),
{
    let mut s = String::new();
    let mut i: usize = 0;
    while i < bytes.len()
        invariant
            i <= bytes@.len(),
            s@ == lower_hex(bytes@.take(i as int)),
        decreases bytes@.len() - i,
    {
        let b = bytes[i];
        push_char(&mut s, hex_digit_char(b / 16));
        push_char(&mut s, hex_digit_char(b % 16));
        assert(bytes@.take(i + 1).drop_last() =~= bytes@.take(i as int));
        i = i + 1;
        assert(s@ =~= lower_hex(bytes@.take(i as int)));
    }
    assert(bytes@.take(bytes@.len() as int) =~= bytes@);
    s
}

/// The hexadecimal text has two digits per byte, each of `0`-`9` or `a`-`f`.
pub proof fn lemma_lower_hex_shape(bytes: Seq<u8>)
    ensures
        lower_hex(bytes).len() == 2 * bytes.len(),
        forall|i: int|
            0 <= i < lower_hex(bytes).len() ==> {
                let c = #[trigger] lower_hex(bytes)[i];
                ('0' <= c <= '9') || ('a' <= c <= 'f')
            },
    decreases bytes.len(),
{
    if bytes.len() > 0 {
        lemma_lower_hex_shape(bytes.drop_last());
    }
}

/// A value below 16 is written as its digit among `0123456789abcdef`.
proof fn lemma_hex_digit_table(n: nat)
    requires
        n < 16,
    ensures
        hex_digit(n) == "0123456789abcdef"@[n as int],
{
    reveal_strlit("0123456789abcdef");
    assert("0123456789abcdef"@[0] == '0');
    assert("0123456789abcdef"@[10] == 'a');
    if n < 10 {
        assert(hex_digit(n) == "0123456789abcdef"@[n as int]) by {
            assert("0123456789abcdef"@[n as int] == (48 + n) as char);
        }
    } else {
        assert(hex_digit(n) == "0123456789abcdef"@[n as int]) by {
            assert("0123456789abcdef"@[n as int] == (87 + n) as char);
        }
    }
}

/// Every byte of the input, whatever its position and value, is written as
/// two characters at positions `2i` and `2i + 1`: first the digit of its high
/// nibble, then the digit of its low nibble, both among `0123456789abcdef`.
pub proof fn lemma_lower_hex_digits(bytes: Seq<u8>, i: int)
    requires
        0 <= i < bytes.len(),
    ensures
        lower_hex(bytes).len() == 2 * bytes.len(),
        lower_hex(bytes)[2 * i] == "0123456789abcdef"@[(bytes[i] / 16) as int],
        lower_hex(bytes)[2 * i + 1] == "0123456789abcdef"@[(bytes[i] % 16) as int],
    decreases bytes.len(),
{
    lemma_lower_hex_shape(bytes);
    let last = (bytes.len() - 1) as int;
    if i == last {
        lemma_hex_digit_table(bytes[i] as nat / 16);
        lemma_hex_digit_table(bytes[i] as nat % 16);
        lemma_lower_hex_shape(bytes.drop_last());
    } else {
        lemma_lower_hex_digits(bytes.drop_last(), i);
        lemma_lower_hex_shape(bytes.drop_last());
    }
}

/// The MD5 digest of a byte string, as `md5::compute` returns it.
pub uninterp spec fn md5_digest(data: Seq<u8>) -> Seq<u8>;

/// `md5::compute`: the 16-byte MD5 digest of the data. The digest is named
/// `md5_digest`, a function of the bytes alone; the algorithm is not restated.
#[verifier::external_body]
fn md5_compute(data: &[u8]) -> (d: [u8; 16])
    ensures
        d@ == md5_digest(data@),
{
    md5::compute(data).0
}

/// The identifier of an arbitrage opportunity described by `data`: the MD5
/// digest of its UTF-8 bytes in lower-case hexadecimal, 32 characters long.
pub fn arb_id_from_text(data: &str) -> (id: String)
    ensures
        id@ == lower_hex(md5_digest(vstd::utf8::encode_utf8(data@))),
        id@.len() == 32,
{
    let digest = md5_compute(data.as_bytes());
    let id = lower_hex_string(&digest);
    proof {
        lemma_lower_hex_shape(digest@);
    }
    id
}

} // verus!
