//! Texts of error messages and summaries, built with `format!`.
use std::fmt::Write;
use vstd::prelude::*;

verus! {

/// The lower-case hexadecimal digit of `d` (below 16).
pub open spec fn hex_digit(d: nat) -> char {
    if d < 10 {
        (48 + d) as char
    } else {
        (87 + d) as char
    }
}

/// The lower-case hexadecimal digits of `n`, without leading zeros ("0" for zero).
pub open spec fn hex_digits(n: nat) -> Seq<char>
    decreases n,
{
    if n < 16 {
        seq![hex_digit(n)]
    } else {
        hex_digits(n / 16).push(hex_digit(n % 16))
    }
}

/// The decimal digits of `n`, without leading zeros ("0" for zero).
pub open spec fn dec_digits(n: nat) -> Seq<char>
    decreases n,
{
    if n < 10 {
        seq![(48 + n) as char]
    } else {
        dec_digits(n / 10).push((48 + n % 10) as char)
    }
}

/// The message of a frame whose end marker is wrong.
pub open spec fn end_marker_text(marker: u16) -> Seq<char> {
    "Invalid end marker: 0x"@ + hex_digits(marker as nat)
}

/// The message of a buffer in which no start marker was found.
pub open spec fn no_magic_text() -> Seq<char> {
    "No magic number found within max frame size"@
}

/// The summary line of a message with the given service id and data length.
pub open spec fn summary_text(service_id: u16, data_len: usize) -> Seq<char> {
    "ProtocolA[service_id="@ + dec_digits(service_id as nat) + ", data_len="@ + dec_digits(
        data_len as nat,
    ) + "]"@
}

/// `format!("Invalid end marker: {:#x}", marker)`: the `#x` format writes `0x`
/// and the lower-case hexadecimal digits of the number, without leading zeros.
#[verifier::external_body]
pub(crate) fn format_end_marker(marker: u16) -> (r: String)
    ensures
        r@ == end_marker_text(marker),
{
    format!("Invalid end marker: {:#x}", marker)
}

/// `format!("ProtocolA[service_id={}, data_len={}]", ..)`: `{}` writes an
/// unsigned integer as its decimal digits, without leading zeros.
#[verifier::external_body]
pub(crate) fn format_summary(service_id: u16, data_len: usize) -> (r: String)
    ensures
        r@ == summary_text(service_id, data_len),
{
    format!("ProtocolA[service_id={}, data_len={}]", service_id, data_len)
}

/// `write!(text, "{:?}", value)` into a new `String`: the `Debug` form of a
/// value, of which nothing is stated here. Writing into a `String` never fails;
/// a `Debug` impl that reports an error leaves what it wrote before, where
/// `format!` would panic.
#[verifier::external_body]
pub(crate) fn format_debug<T: std::fmt::Debug + ?Sized>(value: &T) -> String {
    let mut text = String::new();
    let _ = write!(text, "{:?}", value);
    text
}

} // verus!
