//! Bit positions of the processor status flags and the small modular
//! arithmetic that the register file uses: the program counter wraps at
//! sixteen bits and the stack pointer wraps at eight.

use vstd::prelude::*;

verus! {

/// Bit position of the carry flag in the status byte.
pub const CARRY_FLAG_POS: u8 = 0;

/// Bit position of the zero flag in the status byte.
pub const ZERO_FLAG_POS: u8 = 1;

/// Bit position of the interrupt-disable flag in the status byte.
pub const IRQ_DISABLE_FLAG_POS: u8 = 2;

/// Bit position of the decimal-mode flag in the status byte.
pub const DECIMAL_FLAG_POS: u8 = 3;

/// Bit position of the break flag in the status byte.
pub const BREAK_FLAG_POS: u8 = 4;

/// Bit position of the always-set "unused" bit in the status byte.
pub const UNUSED_BIT_POS: u8 = 5;

/// Bit position of the overflow flag in the status byte.
pub const OVERFLOW_FLAG_POS: u8 = 6;

/// Bit position of the negative flag in the status byte.
pub const NEGATIVE_FLAG_POS: u8 = 7;

/// The program counter after an increment: wraps from `0xFFFF` to `0x0000`
/// without any error condition.
pub open spec fn wrap_inc16(pc: u16) -> u16 {
    if pc == 0xFFFF {
        0
    } else {
        (pc + 1) as u16
    }
}

/// An 8-bit register after a decrement: wraps from `0x00` to `0xFF`.
pub open spec fn dec8(b: u8) -> u8 {
    if b == 0 {
        255
    } else {
        (b - 1) as u8
    }
}

/// An 8-bit register after an increment: wraps from `0xFF` to `0x00`.
pub open spec fn inc8(b: u8) -> u8 {
    if b == 255 {
        0
    } else {
        (b + 1) as u8
    }
}

/// Law: incrementing the program counter is addition modulo 65536, so in
/// particular incrementing at `0xFFFF` yields `0x0000`.
pub proof fn lemma_pc_wrap(pc: u16)
    ensures
        wrap_inc16(pc) == (pc + 1) % 0x10000,
        pc == 0xFFFF ==> wrap_inc16(pc) == 0,
{
}

/// Law: the 8-bit wrap-around increment and decrement are addition and
/// subtraction modulo 256.
pub proof fn lemma_wrap8(b: u8)
    ensures
        dec8(b) == (b + 255) % 256,
        inc8(b) == (b + 1) % 256,
{
}

} // verus!
