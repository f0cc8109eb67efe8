//! The machine: loading a program, executing one instruction, resetting.

use vstd::prelude::*;
use crate::memory::{
    data_byte, text_slot, with_data_byte, zeroed_memory, Memory, DATA_SIZE, MEM_SIZE, TEXT_SIZE,
    TEXT_SLOTS,
};
use crate::op::{data_offset, DecodeError, Op, OP_SIZE};
use crate::reg::{zeroed_registers, Reg, Register, Registers, REG_COUNT};

verus! {

/// A program that does not fit into the text segment.
#[derive(Clone, Copy, Debug, PartialEq, Eq, Structural)]
pub enum LoadError {
    /// The program's encoding takes `size_of_loaded_program` bytes, more
    /// than the text segment holds.
    Size { size_of_loaded_program: usize },
}

/// Why the machine cannot execute its next instruction.
#[derive(Clone, Copy, Debug, PartialEq, Eq, Structural)]
pub enum StepError {
    /// The instruction pointer names no slot of the text segment.
    InstructionPointerOutOfText { ip: u8 },
    /// The bytes in the slot are not an instruction.
    Undecodable { error: DecodeError },
    /// The instruction's memory operand lies beyond the data segment.
    DataOffsetOutOfRange { offset: u16 },
    /// The instruction pointer cannot be incremented within a byte.
    InstructionPointerOverflow,
}

/// What a machine holds: the five register values, each at its register's
/// number, and the bytes of the memory.
pub struct State {
    pub regs: Seq<u8>,
    pub mem: Seq<u8>,
}

/// The memory `mem` after a program was written into its first text slots:
/// byte `i` of the program's encoding is byte `i % 4` of instruction `i / 4`.
pub open spec fn with_program(mem: Seq<u8>, ops: Seq<Op>) -> Seq<u8> {
    Seq::new(
        mem.len(),
        |i: int|
            if 0 <= i < ops.len() * OP_SIZE {
                ops[i / (OP_SIZE as int)].encoding()[i % (OP_SIZE as int)]
            } else {
                mem[i]
            },
    )
}

/// Whether a program of `len` instructions fits into the text segment.
pub open spec fn fits(len: nat) -> bool {
    len * OP_SIZE <= TEXT_SIZE
}

impl State {
    /// A state has five registers and a full-sized memory.
    pub open spec fn wf(self) -> bool {
        self.regs.len() == REG_COUNT && self.mem.len() == MEM_SIZE
    }

    /// The state of a new machine: every register and every byte zero.
    pub open spec fn zeroed() -> State {
        State { regs: zeroed_registers(), mem: zeroed_memory() }
    }

    /// The value of a register.
    pub open spec fn reg(self, reg: Reg) -> u8 {
        self.regs[reg.index()]
    }

    /// The instruction pointer.
    pub open spec fn ip(self) -> u8 {
        self.reg(Reg::IP)
    }

    /// The state with `value` in `reg`.
    pub open spec fn with_reg(self, reg: Reg, value: u8) -> State {
        State { regs: self.regs.update(reg.index(), value), mem: self.mem }
    }

    /// The state after loading `ops`: unchanged where the program does not
    /// fit, else with the program in the first text slots and all else as
    /// it was.
    pub open spec fn loaded(self, ops: Seq<Op>) -> State {
        if fits(ops.len()) {
            State { regs: self.regs, mem: with_program(self.mem, ops) }
        } else {
            self
        }
    }

    /// What decoding the slot under the instruction pointer gives.
    pub open spec fn current(self) -> Result<Op, DecodeError> {
        Op::decoding(text_slot(self.mem, self.ip() as int))
    }

    /// The state after the effect of `op`, before the instruction pointer
    /// advances.
    pub open spec fn effect(self, op: Op) -> State {
        match op {
            Op::Nop => self,
            Op::MoveRegImm { dst, imm } => self.with_reg(dst, imm),
            Op::MoveRegReg { dst, src } => self.with_reg(dst, self.reg(src)),
            Op::MoveMemImm { imm, .. } => State {
                regs: self.regs,
                mem: with_data_byte(self.mem, op.memory_offset().unwrap(), imm),
            },
            Op::MoveMemReg { src, .. } => State {
                regs: self.regs,
                mem: with_data_byte(self.mem, op.memory_offset().unwrap(), self.reg(src)),
            },
            Op::MoveRegMem { dst, .. } => self.with_reg(
                dst,
                data_byte(self.mem, op.memory_offset().unwrap()),
            ),
            Op::Halt => self,
        }
    }

    /// Why the next instruction cannot be executed, if it cannot: the first
    /// that holds of an instruction pointer outside the text segment, a slot
    /// that does not decode, a memory operand beyond the data segment, and
    /// an instruction pointer that stands at 255 when it is to advance.
    pub open spec fn fault(self) -> Option<StepError> {
        if self.ip() >= TEXT_SLOTS {
            Some(StepError::InstructionPointerOutOfText { ip: self.ip() })
        } else {
            match self.current() {
                Err(error) => Some(StepError::Undecodable { error }),
                Ok(op) => {
                    if op.memory_offset().is_some() && op.memory_offset().unwrap() >= DATA_SIZE {
                        Some(
                            StepError::DataOffsetOutOfRange {
                                offset: op.memory_offset().unwrap() as u16,
                            },
                        )
                    } else if op != Op::Halt && self.effect(op).ip() == u8::MAX {
                        Some(StepError::InstructionPointerOverflow)
                    } else {
                        None
                    }
                },
            }
        }
    }

    /// The state after one step: that of the current instruction's effect
    /// with the instruction pointer one further, or, at a `Halt`, the state
    /// itself.
    pub open spec fn after_step(self) -> State
        recommends
            self.fault().is_none(),
    {
        let op = self.current().unwrap();
        if op == Op::Halt {
            self
        } else {
            let s = self.effect(op);
            s.with_reg(Reg::IP, (s.ip() + 1) as u8)
        }
    }
}

impl State {
    /// The state after `n` steps.
    pub open spec fn after_steps(self, n: nat) -> State
        decreases n,
    {
        if n == 0 {
            self
        } else {
            self.after_step().after_steps((n - 1) as nat)
        }
    }

    /// A program fits exactly when it has no more instructions than the
    /// text segment has slots: one that fills every slot fits, one
    /// instruction more does not.
    pub proof fn lemma_fits_iff_within_slots(len: nat)
        ensures
            fits(len) <==> len <= TEXT_SLOTS,
            fits(TEXT_SLOTS as nat),
            !fits((TEXT_SLOTS + 1) as nat),
    {
    }

    /// Loading keeps a state well formed.
    pub proof fn lemma_loaded_wf(self, ops: Seq<Op>)
        requires
            self.wf(),
        ensures
            self.loaded(ops).wf(),
    {
    }

    /// After a load, slot `k` holds the encoding of instruction `k` where
    /// the program has one, and what it held before where it has none.
    pub proof fn lemma_loaded_slot(self, ops: Seq<Op>, k: int)
        requires
            self.wf(),
            fits(ops.len()),
            0 <= k < TEXT_SLOTS,
        ensures
            k < ops.len() ==> text_slot(self.loaded(ops).mem, k) == ops[k].encoding(),
            k >= ops.len() ==> text_slot(self.loaded(ops).mem, k) == text_slot(self.mem, k),
    {
        if k < ops.len() {
            ops[k].lemma_encoding_shape();
            assert(text_slot(self.loaded(ops).mem, k) =~= ops[k].encoding());
        } else {
            assert(text_slot(self.loaded(ops).mem, k) =~= text_slot(self.mem, k));
        }
    }

    /// After a load, slot `k` decodes to instruction `k` of the program.
    pub proof fn lemma_loaded_decodes(self, ops: Seq<Op>, k: int)
        requires
            self.wf(),
            fits(ops.len()),
            0 <= k < ops.len(),
        ensures
            Op::decoding(text_slot(self.loaded(ops).mem, k)) == Ok::<Op, DecodeError>(ops[k]),
    {
        self.lemma_loaded_slot(ops, k);
        ops[k].lemma_decode_encode();
    }

    /// A load, which writes to the text segment alone, is not seen by any
    /// read of the data segment.
    pub proof fn lemma_load_keeps_data(self, ops: Seq<Op>, offset: int)
        requires
            self.wf(),
            0 <= offset < DATA_SIZE,
        ensures
            data_byte(self.loaded(ops).mem, offset) == data_byte(self.mem, offset),
    {
    }

    /// A step keeps a state well formed.
    pub proof fn lemma_step_wf(self)
        requires
            self.wf(),
            self.fault().is_none(),
        ensures
            self.after_step().wf(),
    {
    }

    /// A step, which writes to the data segment alone, is not seen by any
    /// read of the text segment: the program is never changed by running it.
    pub proof fn lemma_step_keeps_text(self, k: int)
        requires
            self.wf(),
            self.fault().is_none(),
            0 <= k < TEXT_SLOTS,
        ensures
            text_slot(self.after_step().mem, k) == text_slot(self.mem, k),
    {
        assert(text_slot(self.after_step().mem, k) =~= text_slot(self.mem, k));
    }

    /// After any instruction but `Halt`, the instruction pointer is one
    /// more than the instruction's effect left it; where the instruction
    /// does not write to the instruction pointer, that is one more than it
    /// was before the step.
    pub proof fn lemma_step_advances(self)
        requires
            self.wf(),
            self.fault().is_none(),
            self.current() != Ok::<Op, DecodeError>(Op::Halt),
        ensures
            self.after_step().ip() == self.effect(self.current().unwrap()).ip() + 1,
            self.current().unwrap().destination() != Some(Reg::IP) ==> self.after_step().ip()
                == self.ip() + 1,
    {
    }

    /// At a `Halt` a step changes nothing, so any number of further steps
    /// can be taken, leaves the state where it is, and finds the same `Halt`.
    pub proof fn lemma_halt_repeats(self, n: nat)
        requires
            self.wf(),
            self.fault().is_none(),
            self.current() == Ok::<Op, DecodeError>(Op::Halt),
        ensures
            self.after_step() == self,
            self.after_steps(n) == self,
            self.after_steps(n).fault().is_none(),
            self.after_steps(n).current() == Ok::<Op, DecodeError>(Op::Halt),
        decreases n,
    {
        if n > 0 {
            self.lemma_halt_repeats((n - 1) as nat);
        }
    }
}

/// The virtual CPU: a register file and a memory, owned by the machine alone.
#[derive(Debug)]
pub struct Kpu {
    reg: Registers,
    mem: Memory,
}

impl View for Kpu {
    type V = State;

    closed spec fn view(&self) -> State {
        State { regs: self.reg@, mem: self.mem@ }
    }
}

impl Default for Kpu {
    fn default() -> (kpu: Self)
        ensures
            kpu@ == State::zeroed(),
    {
        Kpu { reg: Registers::default(), mem: Memory::default() }
    }
}

impl Kpu {
    /// The state of every machine is well formed.
    pub proof fn lemma_view_wf(&self)
        ensures
            self@.wf(),
    {
    }

    /// A machine with every register and every byte of memory zero.
    pub fn new() -> (kpu: Self)
        ensures
            kpu@ == State::zeroed(),
    {
        Kpu { reg: Registers::default(), mem: Memory::default() }
    }

    /// Zeroes the registers, the instruction pointer among them, and the
    /// whole memory: the machine is then as `new` makes it.
    pub fn reset(&mut self)
        ensures
            final(self)@ == State::zeroed(),
    {
        self.reg.reset();
        self.mem.clear();
    }

    /// The register file.
    pub fn registers(&self) -> (r: &Registers)
        ensures
            r@ == self@.regs,
    {
        &self.reg
    }

    /// The memory.
    pub fn memory(&self) -> (m: &Memory)
        ensures
            m@ == self@.mem,
    {
        &self.mem
    }

    /// The memory, to write to: what the caller leaves in it is the
    /// machine's new memory, and the registers stay as they were.
    pub fn memory_mut(&mut self) -> (m: &mut Memory)
        ensures
            m@ == old(self)@.mem,
            final(self)@.mem == final(m)@,
            final(self)@.regs == old(self)@.regs,
    {
        &mut self.mem
    }

    /// The cell of `reg`.
    pub fn reg(&self, reg: Reg) -> (r: &Register)
        ensures
            r.full == self@.reg(reg),
    {
        match reg {
            Reg::R0 => &self.reg.r0,
            Reg::R1 => &self.reg.r1,
            Reg::R2 => &self.reg.r2,
            Reg::R3 => &self.reg.r3,
            Reg::IP => &self.reg.ip,
        }
    }

    /// The cell of `reg`, to write to: what the caller leaves in it is the
    /// register's new value, and nothing else changes.
    pub fn reg_mut(&mut self, reg: Reg) -> (r: &mut Register)
        ensures
            r.full == old(self)@.reg(reg),
            final(self)@.regs =~= old(self)@.regs.update(reg.index(), final(r).full),
            final(self)@.mem == old(self)@.mem,
    {
        match reg {
            Reg::R0 => &mut self.reg.r0,
            Reg::R1 => &mut self.reg.r1,
            Reg::R2 => &mut self.reg.r2,
            Reg::R3 => &mut self.reg.r3,
            Reg::IP => &mut self.reg.ip,
        }
    }

    /// Writes the program's encoding into the text segment, instruction `k`
    /// into slot `k`. Slots behind the program, the data segment and the
    /// registers stay as they were. A program larger than the text segment
    /// is refused with its size in bytes, and nothing is written.
    pub fn load(&mut self, ops: &[Op]) -> (r: Result<(), LoadError>)
        requires
            ops@.len() * OP_SIZE <= usize::MAX,
        ensures
            fits(ops@.len()) ==> r == Ok::<(), LoadError>(()),
            !fits(ops@.len()) ==> r == Err::<(), LoadError>(
                LoadError::Size { size_of_loaded_program: (ops@.len() * OP_SIZE) as usize },
            ),
            final(self)@ == old(self)@.loaded(ops@),
    {
        let program_size: usize = ops.len() * OP_SIZE;
        if program_size > TEXT_SIZE {
            return Err(LoadError::Size { size_of_loaded_program: program_size });
        }
        let ghost before = self.mem@;
        assert(self.mem@ =~= with_program(before, ops@.take(0)));
        let mut i: usize = 0;
        while i < ops.len()
            invariant
                i <= ops.len(),
                ops.len() * OP_SIZE <= TEXT_SIZE,
                before.len() == MEM_SIZE,
                self.reg == old(self).reg,
                self.mem@ == with_program(before, ops@.take(i as int)),
            decreases ops.len() - i,
        {
            let slot = ops[i].bytes();
            self.mem.write_instruction_slot(i, slot);
            assert(self.mem@ =~= with_program(before, ops@.take(i + 1)));
            i += 1;
        }
        assert(ops@.take(ops.len() as int) =~= ops@);
        Ok(())
    }

    /// The instruction pointer after the effect of `op`, before it advances.
    fn ip_after_effect(&self, op: Op) -> (ip: u8)
        requires
            op.memory_offset().is_some() ==> op.memory_offset().unwrap() < DATA_SIZE,
        ensures
            ip == self@.effect(op).ip(),
    {
        match op {
            Op::MoveRegImm { dst: Reg::IP, imm } => imm,
            Op::MoveRegReg { dst: Reg::IP, src } => self.reg.get(src),
            Op::MoveRegMem { dst: Reg::IP, mem_high, mem_low } => self.mem.read_data_byte(
                data_offset(mem_high, mem_low),
            ),
            _ => self.reg.ip.full,
        }
    }

    /// Why `step` cannot be called, if it cannot.
    pub fn fault(&self) -> (f: Option<StepError>)
        ensures
            f == self@.fault(),
    {
        let ip: u8 = self.reg.ip.full;
        if ip as usize >= TEXT_SLOTS {
            return Some(StepError::InstructionPointerOutOfText { ip });
        }
        let op = match Op::decode(self.mem.read_instruction_slot(ip as usize)) {
            Ok(op) => op,
            Err(error) => {
                return Some(StepError::Undecodable { error });
            },
        };
        match op {
            Op::MoveMemImm { mem_high, mem_low, .. }
            | Op::MoveMemReg { mem_high, mem_low, .. }
            | Op::MoveRegMem { mem_high, mem_low, .. } => {
                let offset: u16 = data_offset(mem_high, mem_low);
                if offset as usize >= DATA_SIZE {
                    return Some(StepError::DataOffsetOutOfRange { offset });
                }
            },
            Op::Halt => {
                return None;
            },
            _ => {},
        }
        if self.ip_after_effect(op) == u8::MAX {
            Some(StepError::InstructionPointerOverflow)
        } else {
            None
        }
    }

    /// Executes the instruction under the instruction pointer and returns
    /// it. Unless it is a `Halt`, the instruction pointer then advances by
    /// one; at a `Halt` nothing changes, so that every further step finds
    /// the same `Halt`.
    pub fn step(&mut self) -> (op: Op)
        requires
            old(self)@.fault().is_none(),
        ensures
            old(self)@.current() == Ok::<Op, DecodeError>(op),
            final(self)@ == old(self)@.after_step(),
    {
        let ip: u8 = self.reg.ip.full;
        let op = Op::decode(self.mem.read_instruction_slot(ip as usize)).unwrap();
        match op {
            Op::MoveMemImm { mem_high, mem_low, imm } => {
                self.mem.write_data_byte(data_offset(mem_high, mem_low), imm);
            },
            Op::MoveMemReg { mem_high, mem_low, src } => {
                let value: u8 = self.reg.get(src);
                self.mem.write_data_byte(data_offset(mem_high, mem_low), value);
            },
            Op::MoveRegImm { dst, imm } => {
                self.reg.set(dst, imm);
            },
            Op::MoveRegReg { dst, src } => {
                let value: u8 = self.reg.get(src);
                self.reg.set(dst, value);
            },
            Op::MoveRegMem { dst, mem_high, mem_low } => {
                let value: u8 = self.mem.read_data_byte(data_offset(mem_high, mem_low));
                self.reg.set(dst, value);
            },
            Op::Halt => {
                return Op::Halt;
            },
            Op::Nop => {},
        }
        assert(self@ == old(self)@.effect(op));
        let next: u8 = self.reg.ip.full + 1;
        self.reg.set(Reg::IP, next);
        op
    }

    /// Executes one instruction if the machine can, as `step` does; else
    /// says why not and changes nothing.
    pub fn try_step(&mut self) -> (r: Result<Op, StepError>)
        ensures
            match old(self)@.fault() {
                Some(e) => r == Err::<Op, StepError>(e) && final(self)@ == old(self)@,
                None => r.is_ok() && old(self)@.current() == Ok::<Op, DecodeError>(r.unwrap())
                    && final(self)@ == old(self)@.after_step(),
            },
    {
        match self.fault() {
            Some(e) => Err(e),
            None => Ok(self.step()),
        }
    }
}

} // verus!
