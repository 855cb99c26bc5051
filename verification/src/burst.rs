//! Burst descriptor: the destination register window of a timer-paced DMA
//! transfer.
//!
//! One DMA request writes `burst_length` contiguous registers starting
//! `base_offset` registers into the peripheral's register map, through the
//! peripheral's burst-access register. Offsets and lengths are expressed in
//! the peripheral's native register-count units; both fields of the burst
//! control word are five bits wide, which bounds the window.

use vstd::prelude::*;

verus! {

use crate::errors::ConfigError;

/// Number of register slots the burst control word can address: both its
/// offset and its length field are five bits wide.
pub const BURST_WINDOW_SLOTS: u32 = 32;

/// Static description of the destination register window inside a
/// peripheral: where the window starts, how many contiguous registers one
/// trigger touches, and how wide each transferred word is.
#[derive(Clone, Copy, Debug, PartialEq, Eq, Structural)]
pub struct BurstDescriptor {
    /// Register offset of the first register of the window, in the
    /// peripheral's register-count units.
    pub base_offset: u32,
    /// Count of contiguous registers written per trigger.
    pub burst_length: u32,
    /// Bits per transferred word on the peripheral side.
    pub item_width_bits: u32,
}

impl BurstDescriptor {
    /// Well-formedness: a nonempty window that fits the five-bit offset and
    /// length fields, with one of the word widths the bus supports.
    pub open spec fn wf(self) -> bool {
        &&& 1 <= self.burst_length
        &&& self.base_offset + self.burst_length <= BURST_WINDOW_SLOTS
        &&& (self.item_width_bits == 8 || self.item_width_bits == 16 || self.item_width_bits
            == 32)
    }

    /// Validates and builds a descriptor; the invariant is established here
    /// and every descriptor in circulation satisfies it.
    pub fn new(base_offset: u32, burst_length: u32, item_width_bits: u32) -> (r: Result<
        Self,
        ConfigError,
    >)
        ensures
            ({
                let d = BurstDescriptor { base_offset, burst_length, item_width_bits };
                if d.wf() {
                    r == Ok::<Self, ConfigError>(d)
                } else {
                    r == Err::<Self, ConfigError>(ConfigError::InvalidBurstWindow)
                }
            }),
    {
        if burst_length < 1 || base_offset > BURST_WINDOW_SLOTS
            || burst_length > BURST_WINDOW_SLOTS - base_offset {
            return Err(ConfigError::InvalidBurstWindow);
        }
        if item_width_bits != 8 && item_width_bits != 16 && item_width_bits != 32 {
            return Err(ConfigError::InvalidBurstWindow);
        }
        Ok(BurstDescriptor { base_offset, burst_length, item_width_bits })
    }

    /// Burst control word: the length field (one less than the register
    /// count per trigger) in bits twelve down to eight, the offset field in
    /// bits four down to zero.
    pub open spec fn dcr_word_spec(self) -> int
        recommends
            self.wf(),
    {
        (self.burst_length - 1) * 256 + self.base_offset
    }

    /// Computes the burst control word for this window.
    pub fn dcr_word(&self) -> (r: u32)
        requires
            self.wf(),
        ensures
            r == self.dcr_word_spec(),
    {
        (self.burst_length - 1) * 256 + self.base_offset
    }

    /// Items one trigger moves: the window's register count.
    pub fn items_per_trigger(&self) -> (r: u32)
        ensures
            r == self.burst_length,
    {
        self.burst_length
    }
}

} // verus!
