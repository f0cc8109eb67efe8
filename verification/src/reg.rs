//! Registers: the byte-wide cells, their names, and the register file.

use vstd::prelude::*;

verus! {

/// Number of registers in the register file.
pub const REG_COUNT: usize = 5;

/// One byte of storage.
#[derive(Clone, Copy, Debug, PartialEq, Eq, Structural)]
pub struct Register {
    pub full: u8,
}

impl Default for Register {
    fn default() -> (r: Self)
        ensures
            r.full == 0,
    {
        Register { full: 0 }
    }
}

/// The closed set of register names.
#[derive(Clone, Copy, Debug, PartialEq, Eq, Structural)]
pub enum Reg {
    R0,
    R1,
    R2,
    R3,
    IP,
}

impl Reg {
    /// The number under which a register is written into an instruction.
    pub open spec fn index(self) -> int {
        match self {
            Reg::R0 => 0,
            Reg::R1 => 1,
            Reg::R2 => 2,
            Reg::R3 => 3,
            Reg::IP => 4,
        }
    }

    /// The register that a number below `REG_COUNT` stands for.
    pub open spec fn of_index(i: int) -> Reg {
        if i == 0 {
            Reg::R0
        } else if i == 1 {
            Reg::R1
        } else if i == 2 {
            Reg::R2
        } else if i == 3 {
            Reg::R3
        } else {
            Reg::IP
        }
    }

    /// The register's number as an operand byte.
    pub fn code(self) -> (c: u8)
        ensures
            c == self.index(),
    {
        match self {
            Reg::R0 => 0,
            Reg::R1 => 1,
            Reg::R2 => 2,
            Reg::R3 => 3,
            Reg::IP => 4,
        }
    }

    /// The register with the given number, if there is one.
    pub fn from_code(c: u8) -> (r: Option<Reg>)
        ensures
            c < REG_COUNT ==> r == Some(Reg::of_index(c as int)),
            c >= REG_COUNT ==> r.is_none(),
    {
        if c == 0 {
            Some(Reg::R0)
        } else if c == 1 {
            Some(Reg::R1)
        } else if c == 2 {
            Some(Reg::R2)
        } else if c == 3 {
            Some(Reg::R3)
        } else if c == 4 {
            Some(Reg::IP)
        } else {
            None
        }
    }

    /// Every register's number is below `REG_COUNT`, and the number names
    /// the register again.
    pub proof fn lemma_index_roundtrip(self)
        ensures
            0 <= self.index() < REG_COUNT,
            Reg::of_index(self.index()) == self,
    {
    }
}

/// The register file: four general registers and the instruction pointer.
#[derive(Clone, Copy, Debug)]
pub struct Registers {
    pub r0: Register,
    pub r1: Register,
    pub r2: Register,
    pub r3: Register,
    pub ip: Register,
}

impl View for Registers {
    type V = Seq<u8>;

    /// The five register values, each at its register's number.
    open spec fn view(&self) -> Seq<u8> {
        seq![self.r0.full, self.r1.full, self.r2.full, self.r3.full, self.ip.full]
    }
}

impl Default for Registers {
    fn default() -> (r: Self)
        ensures
            r@ == zeroed_registers(),
    {
        let z = Register { full: 0 };
        let r = Registers { r0: z, r1: z, r2: z, r3: z, ip: z };
        assert(r@ =~= zeroed_registers());
        r
    }
}

/// The register file in which every register holds zero.
pub open spec fn zeroed_registers() -> Seq<u8> {
    Seq::new(REG_COUNT as nat, |i: int| 0u8)
}

impl Registers {
    /// The value held by `reg`.
    pub fn get(&self, reg: Reg) -> (v: u8)
        ensures
            v == self@[reg.index()],
    {
        match reg {
            Reg::R0 => self.r0.full,
            Reg::R1 => self.r1.full,
            Reg::R2 => self.r2.full,
            Reg::R3 => self.r3.full,
            Reg::IP => self.ip.full,
        }
    }

    /// Stores `v` in `reg` and leaves the other registers as they were.
    pub fn set(&mut self, reg: Reg, v: u8)
        ensures
            final(self)@ == old(self)@.update(reg.index(), v),
    {
        match reg {
            Reg::R0 => self.r0.full = v,
            Reg::R1 => self.r1.full = v,
            Reg::R2 => self.r2.full = v,
            Reg::R3 => self.r3.full = v,
            Reg::IP => self.ip.full = v,
        }
        assert(self@ =~= old(self)@.update(reg.index(), v));
    }

    /// Zeroes all five registers.
    pub fn reset(&mut self)
        ensures
            final(self)@ == zeroed_registers(),
    {
        self.r0.full = 0;
        self.r1.full = 0;
        self.r2.full = 0;
        self.r3.full = 0;
        self.ip.full = 0;
        assert(self@ =~= zeroed_registers());
    }
}

} // verus!
