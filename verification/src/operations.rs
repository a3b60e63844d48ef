//! Instructions as microcode: an instruction is an ordered sequence of
//! micro-operations, one bus cycle each.  A micro-operation performs its
//! bus transaction and register effects and reports a step-control
//! directive that tells the tick state machine how to move through the
//! sequence.  The exact effect of every micro-operation is given by the
//! spec functions [`op_cpu`] and [`op_ctl`], and the tick machinery in
//! [`crate::emulator`] is proved against them.

use vstd::prelude::*;

use crate::cpu::{CPU, StackPointer};
use crate::shared::{dec8, wrap_inc16, DECIMAL_FLAG_POS, IRQ_DISABLE_FLAG_POS, UNUSED_BIT_POS};

verus! {

/// What the tick state machine does after a micro-operation ran: advance to
/// the next micro-operation, end the instruction and return to fetch, or
/// jump to micro-operation index `n` (used for conditional extra cycles
/// such as taken branches or page-crossing penalties).
#[derive(Clone, Copy, Debug, PartialEq, Eq)]
pub enum StepCtl {
    /// Move to the next micro-operation on the next tick.
    Next,
    /// This was the final cycle; the next tick fetches.
    End,
    /// Continue at micro-operation index `n`, forward or backward.
    Jump(usize),
}

/// One clock cycle's worth of work: a bus transaction plus register
/// effects.  These are the micro-operations the core's own microcode is
/// built from; [`op_cpu`] gives the register effect of each and [`op_ctl`]
/// its step-control directive.
#[derive(Clone, Copy, Debug, PartialEq, Eq)]
pub enum MicroOp {
    /// First RESET cycle: force the stack pointer and instruction register
    /// to zero, set the interrupt-disable flag and bit 5, clear the decimal
    /// flag, and issue a discarded read at `0x00FF`.
    ResetBegin,
    /// A discarded read at `0x00FF`; no register effect.
    DummyRead,
    /// A discarded read at the current stack address, then a stack-pointer
    /// decrement: models a suppressed stack push during RESET.
    StackProbe,
    /// Read the low byte of the reset vector at `0xFFFC` into the 8-bit
    /// scratch register.
    VectorLow,
    /// Read the high byte of the reset vector at `0xFFFD` and load the
    /// program counter from the two vector bytes.
    VectorHigh,
    /// Read the opcode at the program counter into the instruction
    /// register, increment the program counter, and mark the processor
    /// ready to fetch.
    OpcodeFetch,
    /// No bus transaction and no register effect; ends the instruction.
    Done,
    /// No bus transaction and no register effect; directs execution to
    /// micro-operation index `n` of the same instruction.
    JumpTo(usize),
}

/// An instruction: a diagnostic name and the ordered micro-operation
/// sequence whose length equals the instruction's cycle count.
pub struct Instruction {
    /// Diagnostic name; never read by the execution engine.
    pub name: &'static str,
    /// The micro-operation per cycle, in execution order.
    pub micro: Vec<MicroOp>,
}

/// The micro-operation sequence of the default no-op instruction: a single
/// cycle that ends the instruction.
pub open spec fn nop_micro() -> Seq<MicroOp> {
    seq![MicroOp::Done]
}

/// The nine-cycle RESET micro-operation sequence: one initialization cycle,
/// two dummy reads, three suppressed stack pushes, the two reset-vector
/// reads, and the first opcode fetch.
pub open spec fn reset_micro() -> Seq<MicroOp> {
    seq![
        MicroOp::ResetBegin,
        MicroOp::DummyRead,
        MicroOp::DummyRead,
        MicroOp::StackProbe,
        MicroOp::StackProbe,
        MicroOp::StackProbe,
        MicroOp::VectorLow,
        MicroOp::VectorHigh,
        MicroOp::OpcodeFetch,
    ]
}

/// The default no-op instruction that fills unpopulated dispatch slots.
pub fn nop_instruction() -> (r: Instruction)
    ensures
        r.micro@ == nop_micro(),
{
    let mut micro: Vec<MicroOp> = Vec::new();
    micro.push(MicroOp::Done);
    proof {
        assert(micro@ =~= nop_micro());
    }
    Instruction { name: "NOP", micro }
}

/// The RESET instruction, reproducing the real part's reset bus activity
/// cycle for cycle.
pub fn reset_instruction() -> (r: Instruction)
    ensures
        r.micro@ == reset_micro(),
{
    let mut micro: Vec<MicroOp> = Vec::new();
    micro.push(MicroOp::ResetBegin);
    micro.push(MicroOp::DummyRead);
    micro.push(MicroOp::DummyRead);
    micro.push(MicroOp::StackProbe);
    micro.push(MicroOp::StackProbe);
    micro.push(MicroOp::StackProbe);
    micro.push(MicroOp::VectorLow);
    micro.push(MicroOp::VectorHigh);
    micro.push(MicroOp::OpcodeFetch);
    proof {
        assert(micro@ =~= reset_micro());
    }
    Instruction { name: "RESET", micro }
}

/// Copies a micro-operation sequence element for element.
pub fn copy_micro(src: &Vec<MicroOp>) -> (r: Vec<MicroOp>)
    ensures
        r@ == src@,
{
    let mut r: Vec<MicroOp> = Vec::new();
    let mut i: usize = 0;
    while i < src.len()
        invariant
            i <= src@.len(),
            r@ == src@.subrange(0, i as int),
        decreases src@.len() - i,
    {
        r.push(src[i]);
        proof {
            assert(r@ =~= src@.subrange(0, i + 1 as int));
        }
        i = i + 1;
    }
    proof {
        assert(r@ =~= src@);
    }
    r
}

/// The status byte after the first RESET cycle: interrupt-disable and bit 5
/// set, decimal cleared, every other flag kept.
pub open spec fn reset_status(f: u8) -> u8 {
    ((f | (1u8 << IRQ_DISABLE_FLAG_POS)) | (1u8 << UNUSED_BIT_POS)) & !(1u8 << DECIMAL_FLAG_POS)
}

/// Law: after the first RESET cycle the interrupt-disable flag and bit 5
/// are set and the decimal flag is clear, whatever the status byte held.
pub proof fn lemma_reset_status(f: u8)
    ensures
        reset_status(f) & (1u8 << IRQ_DISABLE_FLAG_POS) != 0,
        reset_status(f) & (1u8 << UNUSED_BIT_POS) != 0,
        reset_status(f) & (1u8 << DECIMAL_FLAG_POS) == 0,
{
    assert(((f | (1u8 << 2)) | (1u8 << 5)) & !(1u8 << 3) & (1u8 << 2) != 0) by (bit_vector);
    assert(((f | (1u8 << 2)) | (1u8 << 5)) & !(1u8 << 3) & (1u8 << 5) != 0) by (bit_vector);
    assert(((f | (1u8 << 2)) | (1u8 << 5)) & !(1u8 << 3) & (1u8 << 3) == 0) by (bit_vector);
}

/// The register effect of one micro-operation: the processor state after
/// the operation runs from state `c` over a bus holding `bus`, before the
/// step-control directive is applied.  No micro-operation of the core
/// writes the bus.
pub open spec fn op_cpu(op: MicroOp, c: CPU, bus: Seq<u8>) -> CPU {
    match op {
        MicroOp::ResetBegin => CPU {
            sp: StackPointer(0),
            ir: 0,
            flags: reset_status(c.flags),
            ..c
        },
        MicroOp::DummyRead => c,
        MicroOp::StackProbe => CPU { sp: StackPointer(dec8(c.sp.0)), ..c },
        MicroOp::VectorLow => CPU { tmp8: bus[0xFFFC], ..c },
        MicroOp::VectorHigh => CPU {
            pc: ((bus[0xFFFD] as u16) << 8) | (c.tmp8 as u16),
            ..c
        },
        MicroOp::OpcodeFetch => CPU {
            ir: bus[c.pc as int],
            pc: wrap_inc16(c.pc),
            ready: true,
            ..c
        },
        MicroOp::Done => c,
        MicroOp::JumpTo(_) => c,
    }
}

/// The step-control directive each micro-operation reports.
pub open spec fn op_ctl(op: MicroOp) -> StepCtl {
    match op {
        MicroOp::ResetBegin => StepCtl::Next,
        MicroOp::DummyRead => StepCtl::Next,
        MicroOp::StackProbe => StepCtl::Next,
        MicroOp::VectorLow => StepCtl::Next,
        MicroOp::VectorHigh => StepCtl::Next,
        MicroOp::OpcodeFetch => StepCtl::End,
        MicroOp::Done => StepCtl::End,
        MicroOp::JumpTo(n) => StepCtl::Jump(n),
    }
}

/// The control-plane change a directive asks for, followed by the
/// defensive clamp: advance, end, or jump, and then force readiness if the
/// step index has left the micro-operation sequence.
pub open spec fn apply_ctl(ctl: StepCtl, c: CPU) -> CPU {
    let stepped = match ctl {
        StepCtl::Next => CPU { step: (c.step + 1) as usize, ..c },
        StepCtl::End => CPU { ready: true, ..c },
        StepCtl::Jump(n) => CPU { step: n, ..c },
    };
    if stepped.step >= stepped.instr.micro@.len() {
        CPU { ready: true, ..stepped }
    } else {
        stepped
    }
}

/// Law: a single-cycle instruction whose only micro-operation reports
/// `End` returns the processor to the fetch state after exactly one
/// execute tick, whatever register effect the operation had.
pub proof fn lemma_single_step_completes(c: CPU, b: Seq<u8>)
    requires
        !c.ready,
        c.step == 0,
        c.instr.micro@.len() == 1,
        op_ctl(c.instr.micro@[0]) == StepCtl::End,
    ensures
        apply_ctl(op_ctl(c.instr.micro@[0]), op_cpu(c.instr.micro@[0], c, b)).ready,
{
}

/// Law: a jump directive is honored over advancing: a micro-operation that
/// reports `Jump(n)` with `n` inside the sequence makes `n` the next step
/// index, the instruction stays selected, and the processor stays in the
/// execute state, so the micro-operation at `n` runs again on the next
/// tick even when `n` lies before the current step.
pub proof fn lemma_jump_directive(c: CPU, b: Seq<u8>, n: usize)
    requires
        !c.ready,
        c.step < c.instr.micro@.len(),
        c.instr.micro@[c.step as int] == MicroOp::JumpTo(n),
        n < c.instr.micro@.len(),
    ensures
        ({
            let post = apply_ctl(
                op_ctl(c.instr.micro@[c.step as int]),
                op_cpu(c.instr.micro@[c.step as int], c, b),
            );
            &&& post.step == n
            &&& !post.ready
            &&& post.instr == c.instr
        }),
{
}

} // verus!
