//! Percentages measured in floating point, held by their bit patterns.

use crate::style::Color;
use vstd::prelude::*;

verus! {

/// A percentage: the bit pattern of its double-precision value, by which it is
/// ordered and judged, and the text that shows it.
#[derive(Debug, PartialEq, Eq)]
pub struct Percent {
    pub bits: u64,
    pub text: String,
}

/// The sign bit: the bit pattern of negative zero.
pub const SIGN: u64 = 0x8000_0000_0000_0000;

/// The bit pattern of positive infinity; behind it stand the values that are no number.
pub const INFINITY: u64 = 0x7ff0_0000_0000_0000;

/// The bit pattern of 80.
pub const EIGHTY: u64 = 0x4054_0000_0000_0000;

/// The bit pattern of 50.
pub const FIFTY: u64 = 0x4049_0000_0000_0000;

/// The bit pattern without its sign.
pub open spec fn magnitude(bits: u64) -> int {
    if bits < SIGN {
        bits as int
    } else {
        bits - SIGN
    }
}

/// The value is a number, possibly infinite.
pub open spec fn is_number(bits: u64) -> bool {
    magnitude(bits) <= INFINITY
}

/// Where a number stands among the others: numbers compare as these integers do.
pub open spec fn rank(bits: u64) -> int {
    if bits < SIGN {
        magnitude(bits)
    } else {
        -magnitude(bits)
    }
}

/// `bits` is a number that is not smaller than `bound`.
pub open spec fn at_least(bits: u64, bound: u64) -> bool {
    is_number(bits) && rank(bits) >= rank(bound)
}

/// Whether the value is a number.
pub fn check_number(bits: u64) -> (r: bool)
    ensures
        r == is_number(bits),
{
    if bits < SIGN {
        bits <= INFINITY
    } else {
        bits - SIGN <= INFINITY
    }
}

/// Whether the number `a` is smaller than the number `b`.
pub fn smaller(a: u64, b: u64) -> (r: bool)
    ensures
        r == (rank(a) < rank(b)),
{
    if a < SIGN {
        b < SIGN && a < b
    } else if b < SIGN {
        a > SIGN || b > 0
    } else {
        b < a
    }
}

/// The colour that tells how serious a load is.
pub open spec fn severity(bits: u64) -> Color {
    if at_least(bits, EIGHTY) {
        Color::Red
    } else if at_least(bits, FIFTY) {
        Color::Yellow
    } else {
        Color::Green
    }
}

/// Red from 80 percent on, yellow from 50 percent on, else green.
pub fn severity_color(bits: u64) -> (r: Color)
    ensures
        r == severity(bits),
{
    if !check_number(bits) {
        Color::Green
    } else if !smaller(bits, EIGHTY) {
        Color::Red
    } else if !smaller(bits, FIFTY) {
        Color::Yellow
    } else {
        Color::Green
    }
}

} // verus!
