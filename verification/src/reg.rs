//! Bit-field arithmetic on cached register values.
//!
//! A register value of width 32 or 64 carries named sub-fields, each a
//! contiguous bit range `[shift, shift + sz)`. The functions here read and
//! rewrite one field without disturbing any bit outside it; the spec
//! functions give the mathematical meaning that every register contract in
//! the crate is stated over.

use vstd::arithmetic::power2::pow2;
use vstd::bits::{
    lemma_u32_low_bits_mask_is_mod, lemma_u32_pow2_no_overflow, lemma_u32_shl_is_mul,
    lemma_u64_low_bits_mask_is_mod, lemma_u64_pow2_no_overflow, lemma_u64_shl_is_mul,
    low_bits_mask,
};
use vstd::prelude::*;

verus! {

/// The fatal configuration errors that register access detects: both are
/// programming errors and the caller is expected to terminate on them.
#[derive(Clone, Copy, Debug, PartialEq, Eq, Structural)]
pub enum RegError {
    /// A packed-array element index at or above the hardware pin count.
    IndexOutOfRange,
    /// A field value with bits set outside the field's declared width.
    ValueTooWide,
}

/// Mask with the low `sz` bits set, as a 32-bit value.
pub open spec fn mask32(sz: u8) -> u32 {
    if sz >= 32 {
        0xffff_ffffu32
    } else {
        ((1u32 << (sz as u32)) - 1) as u32
    }
}

/// Mask with the low `sz` bits set, as a 64-bit value.
pub open spec fn mask64(sz: u8) -> u64 {
    if sz >= 64 {
        0xffff_ffff_ffff_ffffu64
    } else {
        ((1u64 << (sz as u64)) - 1) as u64
    }
}

/// Whether `val` fits in `sz` bits: no bit outside the low `sz` is set.
pub open spec fn fits32(val: u32, sz: u8) -> bool {
    val & !mask32(sz) == 0
}

/// Whether `val` fits in `sz` bits: no bit outside the low `sz` is set.
pub open spec fn fits64(val: u64, sz: u8) -> bool {
    val & !mask64(sz) == 0
}

/// The field of `x` spanning bits `[shift, shift + sz)`, right-aligned.
pub open spec fn field32(x: u32, shift: u8, sz: u8) -> u32 {
    (x >> (shift as u32)) & mask32(sz)
}

/// The field of `x` spanning bits `[shift, shift + sz)`, right-aligned.
pub open spec fn field64(x: u64, shift: u8, sz: u8) -> u64 {
    (x >> (shift as u64)) & mask64(sz)
}

/// `x` with the field at `[shift, shift + sz)` replaced by `val`.
pub open spec fn with_field32(x: u32, shift: u8, sz: u8, val: u32) -> u32 {
    (x & !(mask32(sz) << (shift as u32))) | (val << (shift as u32))
}

/// `x` with the field at `[shift, shift + sz)` replaced by `val`.
pub open spec fn with_field64(x: u64, shift: u8, sz: u8, val: u64) -> u64 {
    (x & !(mask64(sz) << (shift as u64))) | (val << (shift as u64))
}

/// Bit `i` of `x`.
pub open spec fn bit32(x: u32, i: u8) -> bool {
    field32(x, i, 1) == 1u32
}

/// Bit `i` of `x`.
pub open spec fn bit64(x: u64, i: u8) -> bool {
    field64(x, i, 1) == 1u64
}

/// Law: writing a field and reading it back returns the written value, and
/// every field disjoint from the written range reads exactly as before.
pub proof fn lemma_with_field32(x: u32, shift: u8, sz: u8, val: u32)
    by (bit_vector)
    requires
        shift + sz <= 32,
        fits32(val, sz),
    ensures
        field32(with_field32(x, shift, sz, val), shift, sz) == val,
        forall|lo: u8, w: u8|
            lo + w <= 32 && (lo + w <= shift || shift + sz <= lo) ==> #[trigger] field32(
                with_field32(x, shift, sz, val),
                lo,
                w,
            ) == field32(x, lo, w),
{
}

/// Law: writing a field and reading it back returns the written value, and
/// every field disjoint from the written range reads exactly as before.
pub proof fn lemma_with_field64(x: u64, shift: u8, sz: u8, val: u64)
    by (bit_vector)
    requires
        shift + sz <= 64,
        fits64(val, sz),
    ensures
        field64(with_field64(x, shift, sz, val), shift, sz) == val,
        forall|lo: u8, w: u8|
            lo + w <= 64 && (lo + w <= shift || shift + sz <= lo) ==> #[trigger] field64(
                with_field64(x, shift, sz, val),
                lo,
                w,
            ) == field64(x, lo, w),
{
}

/// An extracted field always fits in the width it was read with.
pub proof fn lemma_field32_fits(x: u32, shift: u8, sz: u8)
    by (bit_vector)
    ensures
        fits32(field32(x, shift, sz), sz),
        field32(x, shift, sz) <= mask32(sz),
{
}

/// Fitting in `sz` bits is the same as being below two to the `sz`.
pub proof fn lemma_fits32_is_bound(val: u32, sz: u8)
    requires
        sz <= 32,
    ensures
        fits32(val, sz) <==> (val as nat) < pow2(sz as nat),
{
    assert(fits32(val, sz) <==> val & mask32(sz) == val) by (bit_vector);
    if sz == 32 {
        assert(val & mask32(32) == val) by (bit_vector);
        vstd::arithmetic::power2::lemma2_to64();
    } else {
        lemma_u32_pow2_no_overflow(sz as nat);
        lemma_u32_shl_is_mul(1u32, sz as u32);
        assert(mask32(sz) == low_bits_mask(sz as nat));
        lemma_u32_low_bits_mask_is_mod(val, sz as nat);
        vstd::arithmetic::power2::lemma_pow2_pos(sz as nat);
        if (val as nat) < pow2(sz as nat) {
            vstd::arithmetic::div_mod::lemma_small_mod(val as nat, pow2(sz as nat));
        }
        if val & mask32(sz) == val {
            vstd::arithmetic::div_mod::lemma_mod_bound(val as int, pow2(sz as nat) as int);
        }
    }
}

/// Fitting in `sz` bits is the same as being below two to the `sz`.
pub proof fn lemma_fits64_is_bound(val: u64, sz: u8)
    requires
        sz <= 64,
    ensures
        fits64(val, sz) <==> (val as nat) < pow2(sz as nat),
{
    assert(fits64(val, sz) <==> val & mask64(sz) == val) by (bit_vector);
    if sz == 64 {
        assert(val & mask64(64) == val) by (bit_vector);
        vstd::arithmetic::power2::lemma2_to64();
    } else {
        lemma_u64_pow2_no_overflow(sz as nat);
        lemma_u64_shl_is_mul(1u64, sz as u64);
        assert(mask64(sz) == low_bits_mask(sz as nat));
        lemma_u64_low_bits_mask_is_mod(val, sz as nat);
        vstd::arithmetic::power2::lemma_pow2_pos(sz as nat);
        if (val as nat) < pow2(sz as nat) {
            vstd::arithmetic::div_mod::lemma_small_mod(val as nat, pow2(sz as nat));
        }
        if val & mask64(sz) == val {
            vstd::arithmetic::div_mod::lemma_mod_bound(val as int, pow2(sz as nat) as int);
        }
    }
}

/// Computes the mask with the low `sz` bits set.
pub fn make_mask32(sz: u8) -> (r: u32)
    ensures
        r == mask32(sz),
{
    if sz >= 32 {
        0xffff_ffffu32
    } else {
        proof {
            assert(1u32 << (sz as u32) >= 1) by (bit_vector)
                requires
                    sz < 32,
            ;
        }
        (1u32 << (sz as u32)) - 1
    }
}

/// Computes the mask with the low `sz` bits set.
pub fn make_mask64(sz: u8) -> (r: u64)
    ensures
        r == mask64(sz),
{
    if sz >= 64 {
        0xffff_ffff_ffff_ffffu64
    } else {
        proof {
            assert(1u64 << (sz as u64) >= 1) by (bit_vector)
                requires
                    sz < 64,
            ;
        }
        (1u64 << (sz as u64)) - 1
    }
}

/// Tests whether `val` has any bit set outside the low `sz` bits.
pub fn value_too_wide32(val: u32, sz: u8) -> (r: bool)
    ensures
        r == !fits32(val, sz),
{
    let mask = make_mask32(sz);
    val & !mask != 0
}

/// Reads the field `[shift, shift + sz)` out of `x`.
pub fn read_field32(x: u32, shift: u8, sz: u8) -> (r: u32)
    requires
        shift < 32,
        shift + sz <= 32,
    ensures
        r == field32(x, shift, sz),
{
    let mask = make_mask32(sz);
    (x >> (shift as u32)) & mask
}

/// Reads the field `[shift, shift + sz)` out of `x`.
pub fn read_field64(x: u64, shift: u8, sz: u8) -> (r: u64)
    requires
        shift < 64,
        shift + sz <= 64,
    ensures
        r == field64(x, shift, sz),
{
    let mask = make_mask64(sz);
    (x >> (shift as u64)) & mask
}

/// Replaces the field `[shift, shift + sz)` of `x` by `val`, leaving all
/// bits outside the range untouched.
pub fn write_field32(x: u32, shift: u8, sz: u8, val: u32) -> (r: u32)
    requires
        shift < 32,
        shift + sz <= 32,
        fits32(val, sz),
    ensures
        r == with_field32(x, shift, sz, val),
{
    let mask = make_mask32(sz);
    (x & !(mask << (shift as u32))) | (val << (shift as u32))
}

/// Replaces the field `[shift, shift + sz)` of `x` by `val`, leaving all
/// bits outside the range untouched.
pub fn write_field64(x: u64, shift: u8, sz: u8, val: u64) -> (r: u64)
    requires
        shift < 64,
        shift + sz <= 64,
        fits64(val, sz),
    ensures
        r == with_field64(x, shift, sz, val),
{
    let mask = make_mask64(sz);
    (x & !(mask << (shift as u64))) | (val << (shift as u64))
}

} // verus!
