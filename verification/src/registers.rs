//! Typed, bounds-checked register field arithmetic.
//!
//! Peripheral configuration packs small fields into thirty-two-bit register
//! words. Updating a field by hand with masks and shifts is easy to get
//! wrong by one bit, so the updates are done here, once, with a proof that
//! the named field receives exactly the requested value and every bit
//! outside it keeps its old value. Pin configuration (mode, output type,
//! alternate function) is phrased on top of the same primitive.

use vstd::prelude::*;

verus! {

/// Mask of a field `width` bits wide, right-aligned.
pub open spec fn field_mask(width: u32) -> u32
    recommends
        1 <= width <= 31,
{
    ((1u32 << width) - 1) as u32
}

/// The bit of `word` at position `index`.
pub open spec fn bit_get(word: u32, index: u32) -> u32 {
    (word >> index) & 1
}

/// The field of `word` that is `width` bits wide and starts at bit
/// `offset`.
pub open spec fn field_get(word: u32, offset: u32, width: u32) -> u32
    recommends
        1 <= width <= 31,
        offset + width <= 32,
{
    (word >> offset) & field_mask(width)
}

/// Replaces the `width`-bit field of `word` at bit `offset` with `value`.
/// The named field receives exactly `value`; every bit outside it is
/// untouched.
pub fn field_set(word: u32, offset: u32, width: u32, value: u32) -> (r: u32)
    requires
        1 <= width <= 31,
        offset + width <= 32,
        value < (1u32 << width),
    ensures
        field_get(r, offset, width) == value,
        forall|i: u32|
            i < 32 && (i < offset || offset + width <= i) ==> bit_get(r, i) == bit_get(word, i),
{
    let mask = (1u32 << width) - 1;
    let r = (word & !(mask << offset)) | (value << offset);
    proof {
        assert((r >> offset) & (((1u32 << width) - 1) as u32) == value && forall|i: u32|
            i < 32 && (i < offset || offset + width <= i) ==> ((r >> i) & 1) == ((word >> i)
                & 1)) by (bit_vector)
            requires
                r == (word & !((((1u32 << width) - 1) as u32) << offset)) | (value << offset),
                1 <= width <= 31,
                offset + width <= 32,
                value < (1u32 << width),
        ;
    }
    r
}

/// Reads the `width`-bit field of `word` at bit `offset`.
pub fn field_read(word: u32, offset: u32, width: u32) -> (r: u32)
    requires
        1 <= width <= 31,
        offset + width <= 32,
    ensures
        r == field_get(word, offset, width),
{
    proof {
        assert(width <= 31 ==> (1u32 << width) >= 1) by (bit_vector);
    }
    (word >> offset) & ((1u32 << width) - 1)
}

/// Pin mode code selecting the alternate-function path of a pin.
pub const PIN_MODE_ALTERNATE: u32 = 2;

/// New port mode register word with `pin` switched to alternate-function
/// mode: its two-bit mode field (at bit `2 * pin`) becomes the
/// alternate-function code, all other pins keep their mode.
pub fn pin_mode_alternate(moder: u32, pin: u32) -> (r: u32)
    requires
        pin < 16,
    ensures
        field_get(r, (2 * pin) as u32, 2) == PIN_MODE_ALTERNATE,
        forall|i: u32|
            i < 32 && (i < 2 * pin || 2 * pin + 2 <= i) ==> bit_get(r, i) == bit_get(moder, i),
{
    proof {
        assert(PIN_MODE_ALTERNATE < (1u32 << 2)) by (bit_vector);
    }
    field_set(moder, 2 * pin, 2, PIN_MODE_ALTERNATE)
}

/// New output type register word with `pin` set to push-pull: its type bit
/// (at bit `pin`) is cleared, all other pins keep their type.
pub fn pin_push_pull(otyper: u32, pin: u32) -> (r: u32)
    requires
        pin < 16,
    ensures
        field_get(r, pin, 1) == 0,
        forall|i: u32| i < 32 && (i < pin || pin + 1 <= i) ==> bit_get(r, i) == bit_get(otyper, i),
{
    proof {
        assert(0 < (1u32 << 1)) by (bit_vector);
    }
    field_set(otyper, pin, 1, 0)
}

/// New alternate-function register word with the four-bit selector of
/// `pin_in_half` (a pin index within one half-port register, at bit
/// `4 * pin_in_half`) set to `af_code`, all other selectors kept.
pub fn pin_alternate_function(afr: u32, pin_in_half: u32, af_code: u32) -> (r: u32)
    requires
        pin_in_half < 8,
        af_code < 16,
    ensures
        field_get(r, (4 * pin_in_half) as u32, 4) == af_code,
        forall|i: u32|
            i < 32 && (i < 4 * pin_in_half || 4 * pin_in_half + 4 <= i) ==> bit_get(r, i)
                == bit_get(afr, i),
{
    proof {
        assert(af_code < 16 ==> af_code < (1u32 << 4)) by (bit_vector);
    }
    field_set(afr, 4 * pin_in_half, 4, af_code)
}

} // verus!
