//! The register file and its control plane: the stack pointer with its
//! page-confined wrap-around arithmetic, and the processor state that the
//! tick state machine drives.

use vstd::prelude::*;

use crate::operations::{nop_instruction, nop_micro, Instruction};
use crate::shared::{dec8, inc8, IRQ_DISABLE_FLAG_POS, UNUSED_BIT_POS};

verus! {

/// The effective address of an 8-bit stack pointer: the stack lives in the
/// fixed page `0x0100..=0x01FF`, so the high byte is always `0x01`.
pub open spec fn sp_address(sp: u8) -> u16 {
    (0x0100 + sp) as u16
}

/// An 8-bit offset into the fixed stack page `0x0100..=0x01FF`.  Increment
/// and decrement wrap at the 8-bit boundary and never carry into the high
/// byte of the address.
pub struct StackPointer(pub u8);

impl StackPointer {
    /// The full 16-bit stack address: low byte is the pointer, high byte is
    /// fixed at `0x01`.
    pub fn to_word(&self) -> (r: u16)
        ensures
            r == sp_address(self.0),
            r == 0x0100 + self.0,
    {
        0x0100 + (self.0 as u16)
    }

    /// Steps the pointer down one byte, wrapping from `0x00` to `0xFF`
    /// within the stack page.
    pub fn decrement(&mut self)
        ensures
            final(self).0 == dec8(old(self).0),
    {
        self.0 = self.0.wrapping_sub(1);
    }

    /// Steps the pointer up one byte, wrapping from `0xFF` to `0x00` within
    /// the stack page.
    pub fn increment(&mut self)
        ensures
            final(self).0 == inc8(old(self).0),
    {
        self.0 = self.0.wrapping_add(1);
    }
}

/// Law: for every pointer value the stack address is `0x0100 + sp`, which
/// stays inside the stack page; decrementing at `0x00` wraps to `0xFF`, so
/// the address becomes `0x01FF` and never leaves the page.
pub proof fn lemma_stack_address_law(sp: u8)
    ensures
        sp_address(sp) == 0x0100 + sp,
        0x0100 <= sp_address(sp) <= 0x01FF,
        dec8(0) == 0xFF,
        sp_address(dec8(0)) == 0x01FF,
{
}

/// The processor state: the register file (program counter, stack pointer,
/// accumulator, index registers, status byte) plus the control-plane fields
/// that make multi-cycle execution possible (current opcode, scratch
/// registers for effective-address computation, the instruction being
/// executed, the step index into its micro-operation sequence, and the
/// fetch-readiness flag).
pub struct CPU {
    /// Program counter; wraps modulo 65536.
    pub pc: u16,
    /// Stack pointer into the fixed stack page.
    pub sp: StackPointer,
    /// Accumulator.
    pub a: u8,
    /// Index register X.
    pub x: u8,
    /// Index register Y.
    pub y: u8,
    /// Status byte; the canonical flag representation.
    pub flags: u8,
    /// Instruction register: the opcode currently executing.
    pub ir: u8,
    /// 8-bit scratch register for in-progress addressing computations.
    pub tmp8: u8,
    /// 16-bit scratch register for in-progress addressing computations.
    pub tmp16: u16,
    /// Effective-address register.
    pub eff: u16,
    /// Set when an addressing computation crossed a page boundary.
    pub crossed: bool,
    /// The instruction currently executing.
    pub instr: Instruction,
    /// Index of the next micro-operation within `instr`.
    pub step: usize,
    /// True exactly when the processor is between instructions and the next
    /// tick will fetch.
    pub ready: bool,
}

/// The state of a freshly constructed processor: every register zero except
/// the status byte, which starts with the interrupt-disable flag and the
/// always-set bit 5; the current instruction is the no-op placeholder and
/// the processor is ready to fetch.
pub open spec fn is_initial_cpu(c: CPU) -> bool {
    &&& c.pc == 0
    &&& c.sp.0 == 0
    &&& c.a == 0
    &&& c.x == 0
    &&& c.y == 0
    &&& c.flags == (1u8 << IRQ_DISABLE_FLAG_POS) | (1u8 << UNUSED_BIT_POS)
    &&& c.ir == 0
    &&& c.tmp8 == 0
    &&& c.tmp16 == 0
    &&& c.eff == 0
    &&& !c.crossed
    &&& c.instr.micro@ == nop_micro()
    &&& c.step == 0
    &&& c.ready
}

/// Every field of the register file and control plane except the status
/// byte agrees between the two states.
pub open spec fn same_but_flags(pre: CPU, post: CPU) -> bool {
    &&& post.pc == pre.pc
    &&& post.sp == pre.sp
    &&& post.a == pre.a
    &&& post.x == pre.x
    &&& post.y == pre.y
    &&& post.ir == pre.ir
    &&& post.tmp8 == pre.tmp8
    &&& post.tmp16 == pre.tmp16
    &&& post.eff == pre.eff
    &&& post.crossed == pre.crossed
    &&& post.instr == pre.instr
    &&& post.step == pre.step
    &&& post.ready == pre.ready
}

impl CPU {
    /// Constructs the processor in its initial state.
    pub fn new() -> (r: CPU)
        ensures
            is_initial_cpu(r),
    {
        CPU {
            pc: 0,
            sp: StackPointer(0),
            a: 0,
            x: 0,
            y: 0,
            flags: (1u8 << IRQ_DISABLE_FLAG_POS) | (1u8 << UNUSED_BIT_POS),
            ir: 0,
            tmp8: 0,
            tmp16: 0,
            eff: 0,
            crossed: false,
            instr: nop_instruction(),
            step: 0,
            ready: true,
        }
    }

    /// Sets bit `pos` of the status byte; every other bit keeps its value.
    pub fn set_flag_bit(&mut self, pos: u8)
        requires
            pos < 8,
        ensures
            final(self).flags == old(self).flags | (1u8 << pos),
            same_but_flags(*old(self), *final(self)),
    {
        self.flags = self.flags | (1u8 << pos);
    }

    /// Clears bit `pos` of the status byte by masking with the complement
    /// of that bit; every other bit keeps its value.
    pub fn clear_flag_bit(&mut self, pos: u8)
        requires
            pos < 8,
        ensures
            final(self).flags == old(self).flags & !(1u8 << pos),
            same_but_flags(*old(self), *final(self)),
    {
        self.flags = self.flags & !(1u8 << pos);
    }

    /// The decomposed named-flag view of the status byte, derived on demand
    /// from the canonical byte.
    pub fn status(&self) -> (r: crate::status::StatusRegister)
        ensures
            r == crate::status::unpack(self.flags),
    {
        crate::status::StatusRegister::from_byte(self.flags)
    }
}

} // verus!
