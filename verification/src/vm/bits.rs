//! Bit-level primitives of the instruction codec: reading and replacing a
//! bit range of a 16-bit word, and sign extension of a narrow field.
//!
//! A field is named by the offset of its lowest bit and by its width. The
//! definitions are stated with shifts and masks, which the bit-vector solver
//! decides; `lemma_field_is_quotient_modulo` and `lemma_with_field_is_exchange`
//! say what they mean as numbers.

use vstd::arithmetic::power2::{lemma2_to64, pow2};
use vstd::bits::{
    lemma_u16_low_bits_mask_is_mod, lemma_u16_shr_is_div, lemma_u32_pow2_no_overflow,
    lemma_u32_shl_is_mul, low_bits_mask,
};
use vstd::prelude::*;

verus! {

/// The word whose `width` low bits are set and whose other bits are clear.
pub open spec fn low_mask(width: u16) -> u16 {
    0xFFFFu16 >> ((16 - width) as u16)
}

/// Whether bit `index` of `word` is set.
pub open spec fn bit(word: u16, index: u16) -> bool {
    (word >> index) & 1 == 1
}

/// The value held in the `width` bits of `word` that start at bit `offset`.
pub open spec fn spec_field(word: u16, offset: u16, width: u16) -> u16 {
    (word >> offset) & low_mask(width)
}

/// `word` with the `width` bits that start at bit `offset` replaced by the
/// low `width` bits of `value`.
pub open spec fn spec_with_field(word: u16, offset: u16, width: u16, value: u16) -> u16 {
    (word & !(low_mask(width) << offset)) | ((value & low_mask(width)) << offset)
}

/// The two's-complement sign extension of the `width` low bits of `value` to
/// 16 bits: bits `width..16` all repeat bit `width - 1`.
pub open spec fn sign_extended(value: u16, width: u16) -> u16 {
    if bit(value, (width - 1) as u16) {
        value | !low_mask(width)
    } else {
        value & low_mask(width)
    }
}

/// The integer that a `width`-bit field stands for when it is read as a
/// two's-complement number.
pub open spec fn signed_value(value: u16, width: u16) -> int {
    if bit(value, (width - 1) as u16) {
        value - (low_mask(width) + 1)
    } else {
        value as int
    }
}

/// The sum of two words modulo 65536.
pub open spec fn wrapping_sum(a: u16, b: u16) -> u16 {
    ((a + b) % 0x10000) as u16
}

/// Reads the field of `width` bits at `offset`.
#[verifier::when_used_as_spec(spec_field)]
pub fn field(word: u16, offset: u16, width: u16) -> (value: u16)
    requires
        1 <= width,
        offset + width <= 16,
    ensures
        value == spec_field(word, offset, width),
        value <= low_mask(width),
{
    proof {
        lemma_field_bound(word, offset, width);
    }
    let mask: u16 = u16::MAX >> (16 - width);
    (word >> offset) & mask
}

/// Replaces the field of `width` bits at `offset` by `value`, which must fit
/// in the field.
#[verifier::when_used_as_spec(spec_with_field)]
pub fn with_field(word: u16, offset: u16, width: u16, value: u16) -> (out: u16)
    requires
        1 <= width,
        offset + width <= 16,
        value <= low_mask(width),
    ensures
        out == spec_with_field(word, offset, width, value),
        spec_field(out, offset, width) == value,
{
    proof {
        lemma_field_of_with_field(word, offset, width, value);
    }
    let mask: u16 = u16::MAX >> (16 - width);
    (word & !(mask << offset)) | ((value & mask) << offset)
}

/// The mask of each width between 1 and 16, as a number.
pub broadcast proof fn lemma_low_mask_values(width: u16)
    ensures
        #![trigger low_mask(width)]
        width == 1 ==> low_mask(width) == 0x1,
        width == 2 ==> low_mask(width) == 0x3,
        width == 3 ==> low_mask(width) == 0x7,
        width == 4 ==> low_mask(width) == 0xF,
        width == 5 ==> low_mask(width) == 0x1F,
        width == 6 ==> low_mask(width) == 0x3F,
        width == 7 ==> low_mask(width) == 0x7F,
        width == 8 ==> low_mask(width) == 0xFF,
        width == 9 ==> low_mask(width) == 0x1FF,
        width == 10 ==> low_mask(width) == 0x3FF,
        width == 11 ==> low_mask(width) == 0x7FF,
        width == 12 ==> low_mask(width) == 0xFFF,
        width == 13 ==> low_mask(width) == 0x1FFF,
        width == 14 ==> low_mask(width) == 0x3FFF,
        width == 15 ==> low_mask(width) == 0x7FFF,
        width == 16 ==> low_mask(width) == 0xFFFF,
{
    assert((width == 1 ==> low_mask(width) == 0x1) && (width == 2 ==> low_mask(width) == 0x3) && (
    width == 3 ==> low_mask(width) == 0x7) && (width == 4 ==> low_mask(width) == 0xF) && (width
        == 5 ==> low_mask(width) == 0x1F) && (width == 6 ==> low_mask(width) == 0x3F) && (width
        == 7 ==> low_mask(width) == 0x7F) && (width == 8 ==> low_mask(width) == 0xFF) && (width
        == 9 ==> low_mask(width) == 0x1FF) && (width == 10 ==> low_mask(width) == 0x3FF) && (
    width == 11 ==> low_mask(width) == 0x7FF) && (width == 12 ==> low_mask(width) == 0xFFF) && (
    width == 13 ==> low_mask(width) == 0x1FFF) && (width == 14 ==> low_mask(width) == 0x3FFF)
        && (width == 15 ==> low_mask(width) == 0x7FFF) && (width == 16 ==> low_mask(width)
        == 0xFFFF)) by (bit_vector);
}

/// The mask of `width` bits is two to the power `width`, less one.
pub proof fn lemma_low_mask_is_pow2(width: u16)
    requires
        1 <= width <= 16,
    ensures
        low_mask(width) + 1 == pow2(width as nat),
{
    let shift = width as u32;
    assert(low_mask(width) as u32 + 1 == 1u32 << shift) by (bit_vector)
        requires
            1 <= width <= 16,
            shift == width as u32,
    ;
    lemma_u32_pow2_no_overflow(width as nat);
    lemma_u32_shl_is_mul(1, shift);
}

/// A field holds no more than its width allows.
pub proof fn lemma_field_bound(word: u16, offset: u16, width: u16)
    ensures
        spec_field(word, offset, width) <= low_mask(width),
{
    assert(spec_field(word, offset, width) <= low_mask(width)) by (bit_vector);
}

/// Reading a field that was just written gives back the low `width` bits of
/// what was written.
pub proof fn lemma_field_of_with_field(word: u16, offset: u16, width: u16, value: u16)
    requires
        1 <= width,
        offset + width <= 16,
    ensures
        spec_field(spec_with_field(word, offset, width, value), offset, width) == value & low_mask(
            width,
        ),
        value <= low_mask(width) ==> value & low_mask(width) == value,
{
    assert(spec_field(spec_with_field(word, offset, width, value), offset, width) == value
        & low_mask(width) && (value <= low_mask(width) ==> value & low_mask(width) == value))
        by (bit_vector)
        requires
            1 <= width,
            offset + width <= 16,
    ;
}

/// Writing a field leaves every field that does not overlap it as it was.
pub proof fn lemma_field_untouched(
    word: u16,
    offset: u16,
    width: u16,
    value: u16,
    other_offset: u16,
    other_width: u16,
)
    requires
        1 <= width,
        offset + width <= 16,
        1 <= other_width,
        other_offset + other_width <= 16,
        offset + width <= other_offset || other_offset + other_width <= offset,
    ensures
        spec_field(spec_with_field(word, offset, width, value), other_offset, other_width)
            == spec_field(word, other_offset, other_width),
{
    assert(spec_field(spec_with_field(word, offset, width, value), other_offset, other_width)
        == spec_field(word, other_offset, other_width)) by (bit_vector)
        requires
            1 <= width,
            offset + width <= 16,
            1 <= other_width,
            other_offset + other_width <= 16,
            offset + width <= other_offset || other_offset + other_width <= offset,
    ;
}

/// Writing back what a field holds changes nothing.
pub proof fn lemma_with_field_of_field(word: u16, offset: u16, width: u16)
    requires
        1 <= width,
        offset + width <= 16,
    ensures
        spec_with_field(word, offset, width, spec_field(word, offset, width)) == word,
{
    assert(spec_with_field(word, offset, width, spec_field(word, offset, width)) == word)
        by (bit_vector)
        requires
            1 <= width,
            offset + width <= 16,
    ;
}

/// As a number, a field is the word divided by two to the power `offset`,
/// modulo two to the power `width`.
pub proof fn lemma_field_is_quotient_modulo(word: u16, offset: u16, width: u16)
    requires
        1 <= width,
        offset + width <= 16,
    ensures
        spec_field(word, offset, width) == (word as nat / pow2(offset as nat)) % pow2(
            width as nat,
        ),
{
    let shifted = word >> offset;
    lemma_low_mask_values(width);
    lemma_low_mask_is_pow2(width);
    lemma_u16_shr_is_div(word, offset);
    if width < 16 {
        lemma_u16_low_bits_mask_is_mod(shifted, width as nat);
        assert(low_bits_mask(width as nat) as u16 == low_mask(width));
    } else {
        lemma2_to64();
        assert(shifted & 0xFFFF == shifted) by (bit_vector);
    }
}

/// As a number, writing a field takes what the field held, scaled by two to
/// the power `offset`, out of the word and puts the new value, scaled
/// alike, in its place.
pub proof fn lemma_with_field_is_exchange(word: u16, offset: u16, width: u16, value: u16)
    requires
        1 <= width,
        offset + width <= 16,
        value <= low_mask(width),
    ensures
        spec_with_field(word, offset, width, value) == word - spec_field(word, offset, width)
            * pow2(offset as nat) + value * pow2(offset as nat),
{
    let shift = offset as u32;
    let held = spec_field(word, offset, width) as u32;
    let given = value as u32;
    assert(spec_with_field(word, offset, width, value) == word - (held << shift) + (given
        << shift) && (held << shift) <= word) by (bit_vector)
        requires
            1 <= width,
            offset + width <= 16,
            value <= low_mask(width),
            shift == offset as u32,
            held == spec_field(word, offset, width) as u32,
            given == value as u32,
    ;
    if offset == 0 {
        lemma2_to64();
    } else {
        lemma_low_mask_is_pow2(offset);
    }
    assert(held * pow2(offset as nat) <= u32::MAX && given * pow2(offset as nat) <= u32::MAX)
        by (nonlinear_arith)
        requires
            held <= 0xFFFF,
            given <= 0xFFFF,
            pow2(offset as nat) <= 0x10000,
    ;
    lemma_u32_shl_is_mul(held, shift);
    lemma_u32_shl_is_mul(given, shift);
}

/// Sign extension sets or clears the bits above the field, as the sign bit
/// says.
pub proof fn lemma_sign_extended_by_masks(value: u16, width: u16)
    requires
        1 <= width < 16,
    ensures
        sign_extended(value, width) == if (value >> ((width - 1) as u16)) & 1 == 1 {
            value | (0xFFFFu16 << width)
        } else {
            value & !(0xFFFFu16 << width)
        },
{
    assert(sign_extended(value, width) == if (value >> ((width - 1) as u16)) & 1 == 1 {
        value | (0xFFFFu16 << width)
    } else {
        value & !(0xFFFFu16 << width)
    }) by (bit_vector)
        requires
            1 <= width < 16,
    ;
}

/// Sign extension keeps the `width` low bits of its input.
pub proof fn lemma_sign_extended_low_bits(value: u16, width: u16)
    requires
        1 <= width < 16,
    ensures
        spec_field(sign_extended(value, width), 0, width) == spec_field(value, 0, width),
        value <= low_mask(width) ==> spec_field(sign_extended(value, width), 0, width) == value,
{
    assert(spec_field(sign_extended(value, width), 0, width) == spec_field(value, 0, width) && (
    value <= low_mask(width) ==> spec_field(sign_extended(value, width), 0, width) == value))
        by (bit_vector)
        requires
            1 <= width < 16,
    ;
}

/// Sign extension sets every bit from `width` upwards to the sign bit of its
/// input, bit `width - 1`.
pub proof fn lemma_sign_extended_high_bit(value: u16, width: u16, index: u16)
    requires
        1 <= width < 16,
        width <= index < 16,
    ensures
        bit(sign_extended(value, width), index) == bit(value, (width - 1) as u16),
{
    assert(bit(sign_extended(value, width), index) == bit(value, (width - 1) as u16))
        by (bit_vector)
        requires
            1 <= width < 16,
            width <= index < 16,
    ;
}

/// Adding a sign-extended field to a word, modulo 65536, moves the word by
/// the signed number that the field stands for.
pub proof fn lemma_sign_extended_displacement(base: u16, value: u16, width: u16)
    requires
        1 <= width < 16,
        value <= low_mask(width),
    ensures
        -(low_mask(width) + 1) <= 2 * signed_value(value, width) < low_mask(width) + 1,
        wrapping_sum(base, sign_extended(value, width)) == (base + signed_value(value, width))
            % 0x10000,
{
    let extended = sign_extended(value, width);
    let negative = bit(value, (width - 1) as u16);
    let mask = low_mask(width);
    assert((negative ==> extended == value + 0xFFFF - mask && 2 * value > mask) && (!negative
        ==> extended == value && 2 * value <= mask)) by (bit_vector)
        requires
            1 <= width < 16,
            value <= mask,
            mask == low_mask(width),
            extended == sign_extended(value, width),
            negative == bit(value, (width - 1) as u16),
    ;
}

} // verus!
