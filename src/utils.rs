//! Bit helpers on bytes.

use vstd::prelude::*;

verus! {

/// The state of one bit: [`BitState::Zero`] or [`BitState::One`].
#[derive(Clone, Copy, Debug, PartialEq, Eq, Structural)]
pub enum BitState {
    /// The bit is 0.
    Zero,
    /// The bit is 1.
    One,
}

/// Whether bit `pos` (0 is the least significant) of `byte` is 1.
pub open spec fn bit_is_set(byte: u8, pos: u8) -> bool {
    (byte >> pos) & 1u8 == 1u8
}

/// `byte` with bit `pos` set to 1.
pub fn set_bit(byte: u8, pos: u8) -> (r: u8)
    requires
        pos <= 7,
    ensures
        r == byte | (1u8 << pos),
{
    byte | (1u8 << pos)
}

/// `byte` with bit `pos` cleared to 0.
pub fn clear_bit(byte: u8, pos: u8) -> (r: u8)
    requires
        pos <= 7,
    ensures
        r == byte & !(1u8 << pos),
{
    byte & !(1u8 << pos)
}

/// The state of bit `pos` of `byte`.
pub fn check_bit(byte: u8, pos: u8) -> (r: BitState)
    requires
        pos <= 7,
    ensures
        (r == BitState::One) == bit_is_set(byte, pos),
{
    if (byte >> pos) & 1u8 == 1u8 {
        BitState::One
    } else {
        BitState::Zero
    }
}

} // verus!
