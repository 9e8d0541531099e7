//! Text handling for the relay and the device proxy: conversions between
//! raw packet bytes and text, and verified decimal formatting for the
//! synthetic device addresses.
//!
//! Inbound packets are decoded leniently (a malformed sequence is replaced,
//! never an error), outgoing write-command payloads strictly (a malformed
//! payload is rejected). Both conversions are stated against vstd's UTF-8
//! model.

use vstd::prelude::*;
use vstd::utf8::{valid_utf8, decode_utf8};

verus! {

/// What std's lenient UTF-8 conversion returns for a byte sequence: the
/// result depends on the bytes alone. On well-formed input it agrees with
/// `decode_utf8`; on malformed input each rejected sequence is replaced,
/// which this library does not spell out further.
pub uninterp spec fn lossy_decode_of(bytes: Seq<u8>) -> Seq<char>;

/// Relies on std's `String::from_utf8_lossy`: well-formed UTF-8 input is
/// decoded exactly; any input yields the same text on every call.
#[verifier::external_body]
pub(crate) fn utf8_lossy(bytes: &Vec<u8>) -> (r: String)
    ensures
        r@ == lossy_decode_of(bytes@),
        valid_utf8(bytes@) ==> r@ == decode_utf8(bytes@),
{
    String::from_utf8_lossy(bytes).into_owned()
}

/// Relies on std's `str::from_utf8`: it succeeds exactly on well-formed
/// UTF-8 and then returns the decoded text.
#[verifier::external_body]
pub(crate) fn utf8_strict(bytes: &Vec<u8>) -> (r: Option<String>)
    ensures
        r is Some <==> valid_utf8(bytes@),
        r matches Some(s) ==> s@ == decode_utf8(bytes@),
{
    match std::str::from_utf8(bytes) {
        Ok(s) => Some(s.to_owned()),
        Err(_) => None,
    }
}

/// The character for one decimal digit.
pub open spec fn dec_digit_char(d: nat) -> char {
    if d == 0 {
        '0'
    } else if d == 1 {
        '1'
    } else if d == 2 {
        '2'
    } else if d == 3 {
        '3'
    } else if d == 4 {
        '4'
    } else if d == 5 {
        '5'
    } else if d == 6 {
        '6'
    } else if d == 7 {
        '7'
    } else if d == 8 {
        '8'
    } else {
        '9'
    }
}

/// The decimal digits of `n`, most significant first, without leading
/// zeros (and a single `'0'` for zero itself).
pub open spec fn dec_digits(n: nat) -> Seq<char>
    decreases n,
{
    if n < 10 {
        seq![dec_digit_char(n)]
    } else {
        dec_digits(n / 10).push(dec_digit_char(n % 10))
    }
}

/// The characters of the low decimal digits in `digits`, in reverse order.
pub open spec fn rev_digit_chars(digits: Seq<u8>) -> Seq<char> {
    Seq::new(digits.len(), |i: int| dec_digit_char(digits[digits.len() - 1 - i] as nat))
}

fn digit_str(d: u8) -> (r: &'static str)
    requires
        d < 10,
    ensures
        r@ =~= seq![dec_digit_char(d as nat)],
{
    proof {
        reveal_strlit("0");
        reveal_strlit("1");
        reveal_strlit("2");
        reveal_strlit("3");
        reveal_strlit("4");
        reveal_strlit("5");
        reveal_strlit("6");
        reveal_strlit("7");
        reveal_strlit("8");
        reveal_strlit("9");
    }
    match d {
        0 => "0",
        1 => "1",
        2 => "2",
        3 => "3",
        4 => "4",
        5 => "5",
        6 => "6",
        7 => "7",
        8 => "8",
        _ => "9",
    }
}

/// The decimal rendering of `n`, used for synthetic device addresses.
pub fn format_u32(n: u32) -> (r: String)
    ensures
        r@ == dec_digits(n as nat),
{
    let mut digits: Vec<u8> = Vec::new();
    let mut m: u32 = n;
    while m >= 10
        invariant
            dec_digits(n as nat) =~= dec_digits(m as nat) + rev_digit_chars(digits@),
            forall|i: int| 0 <= i < digits@.len() ==> digits@[i] < 10,
        decreases m,
    {
        let d: u8 = (m % 10) as u8;
        proof {
            assert(rev_digit_chars(digits@.push(d)) =~= seq![
                dec_digit_char(d as nat),
            ] + rev_digit_chars(digits@));
            assert(dec_digits(m as nat) =~= dec_digits((m / 10) as nat).push(
                dec_digit_char((m % 10) as nat),
            ));
            assert(dec_digits((m / 10) as nat) + (seq![dec_digit_char(d as nat)] + rev_digit_chars(
                digits@,
            )) =~= dec_digits(m as nat) + rev_digit_chars(digits@));
        }
        digits.push(d);
        m = m / 10;
    }
    let mut out: String = String::from_str(digit_str(m as u8));
    assert(out@ =~= dec_digits(m as nat));
    let mut i: usize = digits.len();
    while i > 0
        invariant
            i <= digits@.len(),
            forall|j: int| 0 <= j < digits@.len() ==> digits@[j] < 10,
            dec_digits(n as nat) =~= dec_digits(m as nat) + rev_digit_chars(digits@),
            out@ =~= dec_digits(m as nat) + rev_digit_chars(digits@.subrange(
                i as int,
                digits@.len() as int,
            )),
        decreases i,
    {
        i = i - 1;
        let d: u8 = digits[i];
        out.append(digit_str(d));
        proof {
            assert(rev_digit_chars(digits@.subrange(i as int, digits@.len() as int))
                =~= rev_digit_chars(digits@.subrange(i as int + 1, digits@.len() as int)).push(
                dec_digit_char(d as nat),
            ));
        }
    }
    proof {
        assert(digits@.subrange(0, digits@.len() as int) =~= digits@);
    }
    out
}

} // verus!
