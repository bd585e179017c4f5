//! Scalar model: every angle, speed and coordinate of the camera is an IEEE 754
//! single-precision value, carried as its 32-bit pattern (`u32`).
//!
//! Equality with zero and the ordering of such patterns are stated exactly as
//! spec functions. The results of the arithmetic operations are named, and
//! each name is tied to the real operation by one trusted wrapper — but only
//! up to NaN-ness: the language determines every non-NaN result, while the
//! sign and payload of a produced NaN are left open (see `matches_ideal`).
//! The library therefore funnels every arithmetic result through `canon`,
//! which replaces any NaN by the one quiet pattern `QUIET_NAN_BITS`, and the
//! camera's contracts speak of the canonicalized operations `add_c`, `sub_c`,
//! `mul_c` and `div_c`, which are full functions of the operand patterns.
//! The wrapper bodies move between a pattern and its value with byteorder's
//! `read_f32` and `write_f32`, which are the type's own `from_bits` and
//! `to_bits` over little-endian bytes.

use vstd::prelude::*;
use byteorder::ByteOrder;

verus! {

/// Bit pattern of positive zero.
pub const POS_ZERO: u32 = 0;
/// Bit pattern of negative zero.
pub const NEG_ZERO: u32 = 0x8000_0000;
/// Bit pattern of 1.0.
pub const ONE_BITS: u32 = 0x3F80_0000;
/// Bit pattern of -1.0.
pub const NEG_ONE_BITS: u32 = 0xBF80_0000;
/// The one NaN pattern the library keeps: the positive quiet NaN with an
/// empty payload. Arithmetic may produce a NaN with any sign and payload, so
/// every kept result goes through `canon` first.
pub const QUIET_NAN_BITS: u32 = 0x7FC0_0000;

/// A pattern stands for a value equal to zero exactly when it is one of the
/// two zeros; in particular a NaN pattern does not.
pub open spec fn is_zero_bits(b: u32) -> bool {
    b == POS_ZERO || b == NEG_ZERO
}

/// A pattern stands for a NaN exactly when its exponent field is all ones and
/// its fraction field is not all zeros: the patterns strictly between
/// positive infinity and negative zero, and those strictly above negative
/// infinity.
pub open spec fn is_nan_bits(b: u32) -> bool {
    (0x7F80_0000 < b && b < 0x8000_0000) || 0xFF80_0000 < b
}

/// A pattern stands for a value strictly greater than zero exactly when it is
/// positive-signed and neither a zero nor a NaN: its pattern lies between the
/// positive zero and positive infinity, infinity included.
pub open spec fn f32_gt_zero(b: u32) -> bool {
    0 < b <= 0x7F80_0000
}

/// The ordering of the values two patterns stand for, read off the patterns:
/// for same-signed values the magnitude bits order them (reversed under a
/// negative sign), values of opposite sign order by sign, and the two zeros
/// are equal. Meaningful only when neither pattern is a NaN.
pub open spec fn f32_le_bits(a: u32, b: u32) -> bool {
    if a >= 0x8000_0000 && b >= 0x8000_0000 {
        a >= b
    } else if a < 0x8000_0000 && b < 0x8000_0000 {
        a <= b
    } else if a >= 0x8000_0000 {
        true
    } else {
        a == POS_ZERO && b == NEG_ZERO
    }
}

/// The pattern with any NaN replaced by the library's quiet NaN pattern;
/// every other pattern passes through unchanged.
pub open spec fn canon_bits(b: u32) -> u32 {
    if is_nan_bits(b) {
        QUIET_NAN_BITS
    } else {
        b
    }
}

/// How a pattern the machine returned relates to the ideally computed one:
/// they are the same pattern, unless the ideal result is a NaN — then only
/// its NaN-ness carries over, since the language leaves a produced NaN's sign
/// and payload open.
pub open spec fn matches_ideal(r: u32, ideal: u32) -> bool {
    if is_nan_bits(ideal) {
        is_nan_bits(r)
    } else {
        r == ideal
    }
}

/// The pattern of the sum of the values that `a` and `b` stand for (a NaN
/// result stands for the whole NaN class: see `matches_ideal`).
pub uninterp spec fn add_bits(a: u32, b: u32) -> u32;

/// The pattern of the difference of the values that `a` and `b` stand for.
pub uninterp spec fn sub_bits(a: u32, b: u32) -> u32;

/// The pattern of the product of the values that `a` and `b` stand for.
pub uninterp spec fn mul_bits(a: u32, b: u32) -> u32;

/// The pattern of the quotient of the values that `a` and `b` stand for.
pub uninterp spec fn div_bits(a: u32, b: u32) -> u32;

/// The canonicalized sum: what the library keeps after an addition.
pub open spec fn add_c(a: u32, b: u32) -> u32 {
    canon_bits(add_bits(a, b))
}

/// The canonicalized difference.
pub open spec fn sub_c(a: u32, b: u32) -> u32 {
    canon_bits(sub_bits(a, b))
}

/// The canonicalized product.
pub open spec fn mul_c(a: u32, b: u32) -> u32 {
    canon_bits(mul_bits(a, b))
}

/// The canonicalized quotient.
pub open spec fn div_c(a: u32, b: u32) -> u32 {
    canon_bits(div_bits(a, b))
}

/// Replace any NaN pattern by the library's quiet NaN pattern.
pub(crate) fn canon(b: u32) -> (r: u32)
    ensures
        r == canon_bits(b),
{
    if (0x7F80_0000 < b && b < 0x8000_0000) || 0xFF80_0000 < b {
        QUIET_NAN_BITS
    } else {
        b
    }
}

/// Relies on the `+` operator of the single-precision type: every non-NaN
/// result is determined by the two operands alone (round to nearest even); a
/// NaN result is guaranteed only to be a NaN.
#[verifier::external_body]
fn f32_add_raw(a: u32, b: u32) -> (r: u32)
    ensures
        matches_ideal(r, add_bits(a, b)),
{
    let x = byteorder::LittleEndian::read_f32(&a.to_le_bytes());
    let y = byteorder::LittleEndian::read_f32(&b.to_le_bytes());
    (x + y).to_bits()
}

/// Relies on the `-` operator of the single-precision type: every non-NaN
/// result is determined by the two operands alone; a NaN result is guaranteed
/// only to be a NaN.
#[verifier::external_body]
fn f32_sub_raw(a: u32, b: u32) -> (r: u32)
    ensures
        matches_ideal(r, sub_bits(a, b)),
{
    let x = byteorder::LittleEndian::read_f32(&a.to_le_bytes());
    let y = byteorder::LittleEndian::read_f32(&b.to_le_bytes());
    (x - y).to_bits()
}

/// Relies on the `*` operator of the single-precision type: every non-NaN
/// result is determined by the two operands alone; a NaN result is guaranteed
/// only to be a NaN.
#[verifier::external_body]
fn f32_mul_raw(a: u32, b: u32) -> (r: u32)
    ensures
        matches_ideal(r, mul_bits(a, b)),
{
    let x = byteorder::LittleEndian::read_f32(&a.to_le_bytes());
    let y = byteorder::LittleEndian::read_f32(&b.to_le_bytes());
    (x * y).to_bits()
}

/// Relies on the `/` operator of the single-precision type: every non-NaN
/// result is determined by the two operands alone, a NaN result is guaranteed
/// only to be a NaN, and the operation never panics (a zero divisor gives an
/// infinity or a NaN). For operands whose values both lie in [1, 2^22] the
/// quotient lies in [2^-22, 2^22], a range of normal positive values whose
/// patterns the second clause bounds.
#[verifier::external_body]
fn f32_div_raw(a: u32, b: u32) -> (r: u32)
    ensures
        matches_ideal(r, div_bits(a, b)),
        ONE_BITS <= a && a <= 0x4A80_0000 && ONE_BITS <= b && b <= 0x4A80_0000
            ==> 0x3480_0000 <= r && r <= 0x4A80_0000,
{
    let x = byteorder::LittleEndian::read_f32(&a.to_le_bytes());
    let y = byteorder::LittleEndian::read_f32(&b.to_le_bytes());
    (x / y).to_bits()
}

/// The canonicalized addition the library computes with.
pub(crate) fn f32_add(a: u32, b: u32) -> (r: u32)
    ensures
        r == add_c(a, b),
{
    canon(f32_add_raw(a, b))
}

/// The canonicalized subtraction.
pub(crate) fn f32_sub(a: u32, b: u32) -> (r: u32)
    ensures
        r == sub_c(a, b),
{
    canon(f32_sub_raw(a, b))
}

/// The canonicalized multiplication.
pub(crate) fn f32_mul(a: u32, b: u32) -> (r: u32)
    ensures
        r == mul_c(a, b),
{
    canon(f32_mul_raw(a, b))
}

/// The canonicalized division. For operands whose values both lie in
/// [1, 2^22] the quotient's pattern keeps the raw operation's bounds: such a
/// quotient is a normal positive value, never a NaN.
pub(crate) fn f32_div(a: u32, b: u32) -> (r: u32)
    ensures
        r == div_c(a, b),
        ONE_BITS <= a && a <= 0x4A80_0000 && ONE_BITS <= b && b <= 0x4A80_0000
            ==> 0x3480_0000 <= r && r <= 0x4A80_0000,
{
    canon(f32_div_raw(a, b))
}

/// Relies on `max` of the single-precision type: it returns the greater of
/// the two values (either operand's pattern when they are equal, as the two
/// zeros are), the other operand where exactly one is a NaN, and some NaN
/// where both are.
#[verifier::external_body]
pub(crate) fn f32_max(a: u32, b: u32) -> (r: u32)
    ensures
        is_nan_bits(a) && !is_nan_bits(b) ==> r == b,
        is_nan_bits(b) && !is_nan_bits(a) ==> r == a,
        is_nan_bits(a) && is_nan_bits(b) ==> is_nan_bits(r),
        !is_nan_bits(a) && !is_nan_bits(b) ==> (r == a || r == b) && f32_le_bits(a, r)
            && f32_le_bits(b, r),
{
    let x = byteorder::LittleEndian::read_f32(&a.to_le_bytes());
    let y = byteorder::LittleEndian::read_f32(&b.to_le_bytes());
    x.max(y).to_bits()
}

/// The pattern of the value an `i32` converts to, rounding to nearest.
pub uninterp spec fn f32_of_i32(v: int) -> u32;

/// The pattern of the value an `i64` converts to, rounding to nearest.
pub uninterp spec fn f32_of_i64(v: int) -> u32;

/// Relies on the `as` cast from `i32` to single precision: it rounds to the
/// nearest representable value (never a NaN) and depends on the integer
/// alone. Integers of magnitude at most 2^24 convert exactly, so for
/// `1 <= v <= 2^22` the result is a value in [1, 2^22], whose patterns the
/// second clause bounds.
#[verifier::external_body]
pub(crate) fn i32_to_f32(v: i32) -> (r: u32)
    ensures
        r == f32_of_i32(v as int),
        1 <= v && v <= 0x40_0000 ==> ONE_BITS <= r && r <= 0x4A80_0000,
{
    let mut out = [0u8; 4];
    byteorder::LittleEndian::write_f32(&mut out, v as _);
    u32::from_le_bytes(out)
}

/// Relies on the `as` cast from `i64` to single precision: it rounds to the
/// nearest representable value (never a NaN) and depends on the integer
/// alone.
#[verifier::external_body]
pub(crate) fn i64_to_f32(v: i64) -> (r: u32)
    ensures
        r == f32_of_i64(v as int),
{
    let mut out = [0u8; 4];
    byteorder::LittleEndian::write_f32(&mut out, v as _);
    u32::from_le_bytes(out)
}

/// Whether the pattern stands for a value strictly greater than zero, as
/// comparing the value against zero would report it: false for the zeros,
/// for every negative pattern and for NaNs, true up to and including
/// positive infinity.
pub(crate) fn f32_is_pos(b: u32) -> (r: bool)
    ensures
        r == f32_gt_zero(b),
{
    0 < b && b <= 0x7F80_0000
}

/// Whether the pattern stands for a value equal to zero, as comparing the
/// value against zero would report it: true exactly for the two zero
/// patterns, false for every other pattern, NaNs included.
pub(crate) fn f32_eq_zero(b: u32) -> (r: bool)
    ensures
        r == is_zero_bits(b),
{
    b == POS_ZERO || b == NEG_ZERO
}

} // verus!
