use vstd::prelude::*;

verus! {

/// Bit-level model of a 32-bit register word.
///
/// Every accessor the crate generates is specified against these
/// functions: a getter returns `bit_of`/`field_of` of the raw word, a
/// masked setter produces `with_bit`/`with_field` of it, an unmasked
/// setter produces `bit_word`/`field_word`.

/// Whether bit `b` of `v` is set.
pub open spec fn bit_of(v: u32, b: u32) -> bool {
    (v >> b) & 1 == 1
}

/// A word that is zero everywhere except bit `b`, which holds `on`.
pub open spec fn bit_word(b: u32, on: bool) -> u32 {
    if on {
        1u32 << b
    } else {
        0u32
    }
}

/// `v` with bit `b` replaced by `on` and every other bit kept.
pub open spec fn with_bit(v: u32, b: u32, on: bool) -> u32 {
    if on {
        v | (1u32 << b)
    } else {
        v & !(1u32 << b)
    }
}

/// The mask that covers the inclusive bit span `[high:low]`.
pub open spec fn span_mask(low: u32, high: u32) -> u32 {
    (((1u64 << ((high - low + 1) as u64)) - 1) as u32) << low
}

/// The value of the field `[high:low]` of `v`, shifted down to bit 0.
pub open spec fn field_of(v: u32, low: u32, high: u32) -> u32 {
    (v & span_mask(low, high)) >> low
}

/// A word holding `x` in the field `[high:low]` and zero elsewhere.
pub open spec fn field_word(low: u32, high: u32, x: u32) -> u32 {
    (x << low) & span_mask(low, high)
}

/// `v` with the field `[high:low]` replaced by `x` (truncated to the
/// field width) and every other bit kept.
pub open spec fn with_field(v: u32, low: u32, high: u32, x: u32) -> u32 {
    (v & !span_mask(low, high)) | field_word(low, high, x)
}

/// Reads bit `b` of `v`.
pub fn get_bit32(v: u32, b: u32) -> (r: bool)
    requires
        b < 32,
    ensures
        r == bit_of(v, b),
{
    (v >> b) & 1 == 1
}

/// Returns `v` with bit `b` set to `on`, all other bits kept.
pub fn set_bit32(v: u32, b: u32, on: bool) -> (r: u32)
    requires
        b < 32,
    ensures
        r == with_bit(v, b, on),
{
    if on {
        v | (1u32 << b)
    } else {
        v & !(1u32 << b)
    }
}

/// Computes the mask of the bit span `[high:low]`.
pub fn mask32(low: u32, high: u32) -> (r: u32)
    requires
        low <= high < 32,
    ensures
        r == span_mask(low, high),
{
    let amt: u64 = (high - low + 1) as u64;
    proof {
        assert(1u64 << amt >= 1 && (1u64 << amt) - 1 <= 0xffff_ffff) by (bit_vector)
            requires
                1 <= amt <= 32,
        ;
        assert(span_mask(low, high) == ((((1u64 << amt) - 1) as u32) << low)) by (bit_vector)
            requires
                low <= high < 32 && amt == (high - low + 1) as u64,
        ;
    }
    let ones: u64 = (1u64 << amt) - 1;
    (ones as u32) << low
}

/// Extracts the field `[high:low]` of `v`.
pub fn get_field32(v: u32, low: u32, high: u32) -> (r: u32)
    requires
        low <= high < 32,
    ensures
        r == field_of(v, low, high),
{
    (v & mask32(low, high)) >> low
}

/// Builds a word holding `x` in the field `[high:low]` and zero
/// elsewhere.
pub fn make_field_word32(low: u32, high: u32, x: u32) -> (r: u32)
    requires
        low <= high < 32,
    ensures
        r == field_word(low, high, x),
{
    (x << low) & mask32(low, high)
}

/// Returns `v` with the field `[high:low]` replaced by `x`.
pub fn set_field32(v: u32, low: u32, high: u32, x: u32) -> (r: u32)
    requires
        low <= high < 32,
    ensures
        r == with_field(v, low, high, x),
{
    (v & !mask32(low, high)) | make_field_word32(low, high, x)
}

/// The mask that covers the inclusive bit span `[high:low]` of a
/// 128-bit word, the widest storage the generator emits.
pub open spec fn span_mask128(low: usize, high: usize) -> u128 {
    if high - low + 1 == 128 {
        u128::MAX
    } else {
        (((1u128 << ((high - low + 1) as u128)) - 1) as u128) << low
    }
}

/// A 128-bit word with the field `[high:low]` replaced by `x`
/// (truncated to the field width) and every other bit kept.
pub open spec fn with_field128(v: u128, low: usize, high: usize, x: u128) -> u128 {
    (v & !span_mask128(low, high)) | ((x << low) & span_mask128(low, high))
}

/// Computes the mask of the bit span `[high:low]` of a 128-bit word.
pub fn mask128(low: usize, high: usize) -> (r: u128)
    requires
        low <= high < 128,
    ensures
        r == span_mask128(low, high),
{
    let amt: usize = high - low + 1;
    if amt == 128 {
        u128::MAX
    } else {
        proof {
            assert(1u128 << (amt as u128) >= 1) by (bit_vector)
                requires
                    1 <= amt < 128,
            ;
        }
        let ones: u128 = (1u128 << (amt as u128)) - 1;
        ones << (low as u128)
    }
}

/// Returns `v` with the field `[high:low]` replaced by `x`.
pub fn set_field128(v: u128, low: usize, high: usize, x: u128) -> (r: u128)
    requires
        low <= high < 128,
    ensures
        r == with_field128(v, low, high, x),
{
    let m = mask128(low, high);
    (v & !m) | ((x << (low as u128)) & m)
}

/// A masked single-bit write stores the bit it names and keeps every
/// other bit of the word.
pub proof fn lemma_with_bit(v: u32, b: u32, on: bool)
    requires
        b < 32,
    ensures
        bit_of(with_bit(v, b, on), b) == on,
        forall|i: u32| i < 32 && i != b ==> bit_of(with_bit(v, b, on), i) == bit_of(v, i),
{
    assert(bit_of(with_bit(v, b, on), b) == on && forall|i: u32|
        i < 32 && i != b ==> bit_of(with_bit(v, b, on), i) == bit_of(v, i)) by (bit_vector)
        requires
            b < 32,
    ;
}

/// An unmasked single-bit write stores the bit it names and zeroes the
/// rest of the word.
pub proof fn lemma_bit_word(b: u32, on: bool)
    requires
        b < 32,
    ensures
        bit_of(bit_word(b, on), b) == on,
        forall|i: u32| i < 32 && i != b ==> !bit_of(bit_word(b, on), i),
{
    assert(bit_of(bit_word(b, on), b) == on && forall|i: u32|
        i < 32 && i != b ==> !bit_of(bit_word(b, on), i)) by (bit_vector)
        requires
            b < 32,
    ;
}

/// A masked field write stores the field value (truncated to the field
/// width) and keeps every bit outside the span.
pub proof fn lemma_with_field(v: u32, low: u32, high: u32, x: u32)
    requires
        low <= high < 32,
    ensures
        x < (1u64 << ((high - low + 1) as u64)) ==> field_of(
            with_field(v, low, high, x),
            low,
            high,
        ) == x,
        forall|i: u32|
            i < 32 && !(low <= i <= high) ==> bit_of(with_field(v, low, high, x), i) == bit_of(
                v,
                i,
            ),
{
    assert((x < (1u64 << ((high - low + 1) as u64)) ==> field_of(
        with_field(v, low, high, x),
        low,
        high,
    ) == x) && forall|i: u32|
        i < 32 && !(low <= i <= high) ==> bit_of(with_field(v, low, high, x), i) == bit_of(
            v,
            i,
        )) by (bit_vector)
        requires
            low <= high < 32,
    ;
}

/// An unmasked field write stores the field value and zeroes every bit
/// outside the span.
pub proof fn lemma_field_word(low: u32, high: u32, x: u32)
    requires
        low <= high < 32,
    ensures
        x < (1u64 << ((high - low + 1) as u64)) ==> field_of(field_word(low, high, x), low, high)
            == x,
        forall|i: u32| i < 32 && !(low <= i <= high) ==> !bit_of(field_word(low, high, x), i),
{
    assert((x < (1u64 << ((high - low + 1) as u64)) ==> field_of(
        field_word(low, high, x),
        low,
        high,
    ) == x) && forall|i: u32|
        i < 32 && !(low <= i <= high) ==> !bit_of(field_word(low, high, x), i)) by (bit_vector)
        requires
            low <= high < 32,
    ;
}

/// A field read never exceeds the capacity of the field's span.
pub proof fn lemma_field_of_bound(v: u32, low: u32, high: u32)
    requires
        low <= high < 32,
    ensures
        field_of(v, low, high) < (1u64 << ((high - low + 1) as u64)),
{
    assert(field_of(v, low, high) < (1u64 << ((high - low + 1) as u64))) by (bit_vector)
        requires
            low <= high < 32,
    ;
}

/// The all-zero word has no bit set and every field zero.
pub proof fn lemma_zero_word(low: u32, high: u32, b: u32)
    requires
        low <= high < 32,
        b < 32,
    ensures
        !bit_of(0, b),
        field_of(0, low, high) == 0,
{
    assert(!bit_of(0, b) && field_of(0, low, high) == 0) by (bit_vector)
        requires
            low <= high < 32 && b < 32,
    ;
}

} // verus!
