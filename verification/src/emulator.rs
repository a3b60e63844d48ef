//! The emulator: the processor state, the memory bus, and the 256-entry
//! opcode dispatch table, driven by a two-state machine.  `tick` advances
//! exactly one clock cycle: in the fetch state it reads the opcode at the
//! program counter and selects that opcode's instruction; in the execute
//! state it runs the next micro-operation of the current instruction and
//! applies the directive the operation reports.  `reset_cpu` runs the
//! nine-cycle RESET microcode to completion.

use vstd::prelude::*;

use crate::bus::MemoryBus;
use crate::cpu::{is_initial_cpu, StackPointer, CPU};
use crate::operations::{
    apply_ctl, copy_micro, nop_instruction, nop_micro, op_cpu, op_ctl, reset_instruction,
    reset_micro, reset_status, Instruction, MicroOp, StepCtl,
};
use crate::shared::{wrap_inc16, DECIMAL_FLAG_POS, IRQ_DISABLE_FLAG_POS, UNUSED_BIT_POS};

verus! {

/// The 16-bit address stored little-endian at `0xFFFC`/`0xFFFD`, which the
/// RESET sequence loads into the program counter.
pub open spec fn reset_vector(bus: Seq<u8>) -> u16 {
    ((bus[0xFFFD] as u16) << 8) | (bus[0xFFFC] as u16)
}

/// The whole machine: register file, bus, and the fixed opcode dispatch
/// table.
pub struct Emulator {
    /// The processor state.
    pub cpu: CPU,
    /// The byte-addressed memory.
    pub bus: MemoryBus,
    /// One instruction per opcode value; slots the host has not populated
    /// hold the default no-op instruction.
    pub instr_table: Vec<Instruction>,
}

/// The fetch transition: the byte at the program counter becomes the
/// current opcode, the program counter steps past it (wrapping modulo
/// 65536), the dispatch-table row for that opcode becomes the current
/// instruction, the step index returns to zero, and the processor leaves
/// the ready state.  Every other register keeps its value.
pub open spec fn fetch_post(pre: CPU, post: CPU, table: Seq<Instruction>, bus: Seq<u8>) -> bool {
    let opcode = bus[pre.pc as int];
    &&& post.ir == opcode
    &&& post.pc == wrap_inc16(pre.pc)
    &&& post.instr.name == table[opcode as int].name
    &&& post.instr.micro@ == table[opcode as int].micro@
    &&& post.step == 0
    &&& !post.ready
    &&& post.sp == pre.sp
    &&& post.a == pre.a
    &&& post.x == pre.x
    &&& post.y == pre.y
    &&& post.flags == pre.flags
    &&& post.tmp8 == pre.tmp8
    &&& post.tmp16 == pre.tmp16
    &&& post.eff == pre.eff
    &&& post.crossed == pre.crossed
}

/// How far through the nine RESET micro-operations the processor has come:
/// `c0` is the state on entry to the loop (step zero, not ready, RESET
/// microcode selected) and `b` the bus contents, which the sequence only
/// reads.  Registers the sequence never touches keep their entry values
/// throughout.
pub open spec fn reset_progress(c0: CPU, c: CPU, b: Seq<u8>) -> bool {
    &&& c.a == c0.a
    &&& c.x == c0.x
    &&& c.y == c0.y
    &&& c.tmp16 == c0.tmp16
    &&& c.eff == c0.eff
    &&& c.crossed == c0.crossed
    &&& c.instr == c0.instr
    &&& if c.ready {
        // The sequence has completed.
        &&& c.step == 8
        &&& c.sp.0 == 0xFD
        &&& c.flags == reset_status(c0.flags)
        &&& c.tmp8 == b[0xFFFC]
        &&& c.pc == wrap_inc16(reset_vector(b))
        &&& c.ir == b[reset_vector(b) as int]
    } else if c.step == 0 {
        // Nothing has run yet.
        &&& c.sp == c0.sp
        &&& c.flags == c0.flags
        &&& c.ir == c0.ir
        &&& c.tmp8 == c0.tmp8
        &&& c.pc == c0.pc
    } else if 1 <= c.step <= 3 {
        // Initialization done; dummy reads in progress.
        &&& c.sp.0 == 0
        &&& c.flags == reset_status(c0.flags)
        &&& c.ir == 0
        &&& c.tmp8 == c0.tmp8
        &&& c.pc == c0.pc
    } else if 4 <= c.step <= 6 {
        // Suppressed stack pushes: one decrement per completed probe.
        &&& c.sp.0 == 256 - (c.step - 3)
        &&& c.flags == reset_status(c0.flags)
        &&& c.ir == 0
        &&& c.tmp8 == c0.tmp8
        &&& c.pc == c0.pc
    } else if c.step == 7 {
        // Low vector byte captured in the scratch register.
        &&& c.sp.0 == 0xFD
        &&& c.flags == reset_status(c0.flags)
        &&& c.ir == 0
        &&& c.tmp8 == b[0xFFFC]
        &&& c.pc == c0.pc
    } else if c.step == 8 {
        // Program counter loaded from the reset vector.
        &&& c.sp.0 == 0xFD
        &&& c.flags == reset_status(c0.flags)
        &&& c.ir == 0
        &&& c.tmp8 == b[0xFFFC]
        &&& c.pc == reset_vector(b)
    } else {
        false
    }
}

/// Clock cycles the RESET sequence still needs; the loop measure of
/// `reset_cpu`.
pub open spec fn reset_ticks_left(c: CPU) -> int {
    if c.ready {
        0
    } else {
        9 - c.step
    }
}

impl Emulator {
    /// The bus covers the whole address space and the dispatch table has
    /// one row per opcode value.
    pub open spec fn wf(&self) -> bool {
        &&& self.bus.wf()
        &&& self.instr_table@.len() == 256
    }

    /// Constructs the machine: processor in its initial state, memory
    /// zeroed, and every dispatch slot holding the default no-op
    /// instruction.
    pub fn new() -> (r: Emulator)
        ensures
            r.wf(),
            is_initial_cpu(r.cpu),
            forall|i: int| 0 <= i < 256 ==> r.instr_table@[i].micro@ == nop_micro(),
            forall|i: int| 0 <= i < 0x10000 ==> r.bus@[i] == 0,
    {
        let mut instr_table: Vec<Instruction> = Vec::new();
        while instr_table.len() < 256
            invariant
                instr_table@.len() <= 256,
                forall|i: int| 0 <= i < instr_table@.len() ==> instr_table@[i].micro@
                    == nop_micro(),
            decreases 256 - instr_table@.len(),
        {
            instr_table.push(nop_instruction());
        }
        Emulator { cpu: CPU::new(), bus: MemoryBus::new(), instr_table }
    }

    /// Replaces the dispatch-table row for `opcode`; the processor state,
    /// the bus, and every other row keep their values.
    pub fn install(&mut self, opcode: u8, instr: Instruction)
        requires
            old(self).wf(),
        ensures
            final(self).wf(),
            final(self).instr_table@ == old(self).instr_table@.update(opcode as int, instr),
            final(self).cpu == old(self).cpu,
            final(self).bus@ == old(self).bus@,
    {
        self.instr_table[opcode as usize] = instr;
    }

    /// Runs one micro-operation: the bus transaction and register effects
    /// of `op`, returning the directive `op` reports.  The register effect
    /// is exactly `op_cpu`; the bus and the dispatch table are unchanged.
    fn exec_op(&mut self, op: MicroOp) -> (ctl: StepCtl)
        requires
            old(self).wf(),
        ensures
            final(self).wf(),
            final(self).bus@ == old(self).bus@,
            final(self).instr_table@ == old(self).instr_table@,
            final(self).cpu == op_cpu(op, old(self).cpu, old(self).bus@),
            ctl == op_ctl(op),
    {
        match op {
            MicroOp::ResetBegin => {
                self.cpu.sp = StackPointer(0);
                self.cpu.ir = 0;
                self.cpu.set_flag_bit(IRQ_DISABLE_FLAG_POS);
                self.cpu.set_flag_bit(UNUSED_BIT_POS);
                self.cpu.clear_flag_bit(DECIMAL_FLAG_POS);
                let _ = self.bus.read(0x00FF);
                StepCtl::Next
            },
            MicroOp::DummyRead => {
                let _ = self.bus.read(0x00FF);
                StepCtl::Next
            },
            MicroOp::StackProbe => {
                let addr = self.cpu.sp.to_word();
                let _ = self.bus.read(addr);
                self.cpu.sp.decrement();
                StepCtl::Next
            },
            MicroOp::VectorLow => {
                self.cpu.tmp8 = self.bus.read(0xFFFC);
                StepCtl::Next
            },
            MicroOp::VectorHigh => {
                let hi = self.bus.read(0xFFFD);
                self.cpu.pc = ((hi as u16) << 8) | (self.cpu.tmp8 as u16);
                StepCtl::Next
            },
            MicroOp::OpcodeFetch => {
                let opcode = self.bus.read(self.cpu.pc);
                self.cpu.ir = opcode;
                self.cpu.pc = self.cpu.pc.wrapping_add(1);
                self.cpu.ready = true;
                StepCtl::End
            },
            MicroOp::Done => StepCtl::End,
            MicroOp::JumpTo(n) => StepCtl::Jump(n),
        }
    }

    /// Advances the machine exactly one clock cycle.  In the ready state
    /// this is the fetch transition (`fetch_post`); otherwise, with the
    /// step index inside the current micro-operation sequence, it runs
    /// that micro-operation and applies its directive, forcing readiness
    /// if the step index leaves the sequence.  A step index already past
    /// the sequence leaves the machine unchanged.
    pub fn tick(&mut self)
        requires
            old(self).wf(),
        ensures
            final(self).wf(),
            final(self).bus@ == old(self).bus@,
            final(self).instr_table@ == old(self).instr_table@,
            old(self).cpu.ready ==> fetch_post(
                old(self).cpu,
                final(self).cpu,
                old(self).instr_table@,
                old(self).bus@,
            ),
            !old(self).cpu.ready && old(self).cpu.step < old(self).cpu.instr.micro@.len()
                ==> final(self).cpu == apply_ctl(
                op_ctl(old(self).cpu.instr.micro@[old(self).cpu.step as int]),
                op_cpu(
                    old(self).cpu.instr.micro@[old(self).cpu.step as int],
                    old(self).cpu,
                    old(self).bus@,
                ),
            ),
            !old(self).cpu.ready && old(self).cpu.step >= old(self).cpu.instr.micro@.len()
                ==> final(self).cpu == old(self).cpu,
    {
        if self.cpu.ready {
            let opcode = self.bus.read(self.cpu.pc);
            self.cpu.pc = self.cpu.pc.wrapping_add(1);
            self.cpu.ir = opcode;
            let name = self.instr_table[opcode as usize].name;
            let micro = copy_micro(&self.instr_table[opcode as usize].micro);
            self.cpu.instr = Instruction { name, micro };
            self.cpu.step = 0;
            self.cpu.ready = false;
            return ;
        }
        if self.cpu.step < self.cpu.instr.micro.len() {
            let op = self.cpu.instr.micro[self.cpu.step];
            let ctl = self.exec_op(op);
            match ctl {
                StepCtl::Next => {
                    self.cpu.step = self.cpu.step + 1;
                },
                StepCtl::End => {
                    self.cpu.ready = true;
                },
                StepCtl::Jump(n) => {
                    self.cpu.step = n;
                },
            }
            if self.cpu.step >= self.cpu.instr.micro.len() {
                self.cpu.ready = true;
            }
        }
    }

    /// Selects the RESET microcode and ticks until it completes.  The loop
    /// is bounded by the fixed nine-cycle length of the sequence, so the
    /// call always returns, leaving the processor ready to fetch with the
    /// program counter loaded from the reset vector and stepped past the
    /// prefetched opcode, the stack pointer at `0xFD` after its three
    /// decrements from zero, the interrupt-disable flag and bit 5 set, and
    /// the decimal flag clear.
    pub fn reset_cpu(&mut self)
        requires
            old(self).wf(),
        ensures
            final(self).wf(),
            final(self).bus@ == old(self).bus@,
            final(self).instr_table@ == old(self).instr_table@,
            final(self).cpu.ready,
            final(self).cpu.step == 8,
            final(self).cpu.sp.0 == 0xFD,
            final(self).cpu.flags == reset_status(old(self).cpu.flags),
            final(self).cpu.tmp8 == old(self).bus@[0xFFFC],
            final(self).cpu.pc == wrap_inc16(reset_vector(old(self).bus@)),
            final(self).cpu.ir == old(self).bus@[reset_vector(old(self).bus@) as int],
            final(self).cpu.instr.micro@ == reset_micro(),
            final(self).cpu.a == old(self).cpu.a,
            final(self).cpu.x == old(self).cpu.x,
            final(self).cpu.y == old(self).cpu.y,
            final(self).cpu.tmp16 == old(self).cpu.tmp16,
            final(self).cpu.eff == old(self).cpu.eff,
            final(self).cpu.crossed == old(self).cpu.crossed,
    {
        self.cpu.instr = reset_instruction();
        self.cpu.step = 0;
        self.cpu.ready = false;
        let ghost b0 = self.bus@;
        let ghost t0 = self.instr_table@;
        let ghost c0 = self.cpu;
        while !self.cpu.ready
            invariant
                self.wf(),
                self.bus@ == b0,
                self.instr_table@ == t0,
                c0.instr.micro@ == reset_micro(),
                reset_progress(c0, self.cpu, b0),
            decreases reset_ticks_left(self.cpu),
        {
            self.tick();
        }
    }
}

} // verus!
