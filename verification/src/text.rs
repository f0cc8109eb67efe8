//! The textual forms of registers, instructions and errors: assembly-like
//! text to show to a reader. Nothing parses it.

use vstd::prelude::*;
use vstd::string::*;
use crate::machine::LoadError;
use crate::memory::TEXT_SIZE;
use crate::op::{data_offset, offset_of, Op};
use crate::reg::Reg;

verus! {

/// The character of a decimal digit.
pub open spec fn digit_char(d: int) -> char {
    if d == 0 {
        '0'
    } else if d == 1 {
        '1'
    } else if d == 2 {
        '2'
    } else if d == 3 {
        '3'
    } else if d == 4 {
        '4'
    } else if d == 5 {
        '5'
    } else if d == 6 {
        '6'
    } else if d == 7 {
        '7'
    } else if d == 8 {
        '8'
    } else {
        '9'
    }
}

/// The decimal numeral of `n`, without leading zeros.
pub open spec fn decimal(n: nat) -> Seq<char>
    decreases n,
{
    if n < 10 {
        seq![digit_char(n as int)]
    } else {
        decimal(n / 10) + seq![digit_char((n % 10) as int)]
    }
}

fn digit_str(d: usize) -> (s: &'static str)
    requires
        d < 10,
    ensures
        s@ == seq![digit_char(d as int)],
{
    proof {
        reveal_strlit("0");
        reveal_strlit("1");
        reveal_strlit("2");
        reveal_strlit("3");
        reveal_strlit("4");
        reveal_strlit("5");
        reveal_strlit("6");
        reveal_strlit("7");
        reveal_strlit("8");
        reveal_strlit("9");
    }
    let s = if d == 0 {
        "0"
    } else if d == 1 {
        "1"
    } else if d == 2 {
        "2"
    } else if d == 3 {
        "3"
    } else if d == 4 {
        "4"
    } else if d == 5 {
        "5"
    } else if d == 6 {
        "6"
    } else if d == 7 {
        "7"
    } else if d == 8 {
        "8"
    } else {
        "9"
    };
    assert(s@ =~= seq![digit_char(d as int)]);
    s
}

/// Appends the decimal numeral of `n` to `out`.
pub fn push_decimal(out: &mut String, n: usize)
    ensures
        final(out)@ == old(out)@ + decimal(n as nat),
    decreases n,
{
    if n >= 10 {
        push_decimal(out, n / 10);
    }
    out.append(digit_str(n % 10));
    assert(out@ =~= old(out)@ + decimal(n as nat));
}

impl Reg {
    /// The register's name as text.
    pub open spec fn name_text(self) -> Seq<char> {
        match self {
            Reg::R0 => "r0"@,
            Reg::R1 => "r1"@,
            Reg::R2 => "r2"@,
            Reg::R3 => "r3"@,
            Reg::IP => "ip"@,
        }
    }

    /// The register's name: `r0` to `r3`, or `ip`.
    pub fn name(self) -> (s: &'static str)
        ensures
            s@ == self.name_text(),
    {
        match self {
            Reg::R0 => "r0",
            Reg::R1 => "r1",
            Reg::R2 => "r2",
            Reg::R3 => "r3",
            Reg::IP => "ip",
        }
    }
}

impl Op {
    /// The instruction as text: `nop`, `halt`, or `move` with the
    /// destination before the source, a register by its name, an immediate
    /// as a decimal numeral and a memory operand as its decimal offset in
    /// square brackets.
    pub open spec fn text_of(self) -> Seq<char> {
        match self {
            Op::Nop => "nop"@,
            Op::Halt => "halt"@,
            Op::MoveRegImm { dst, imm } => "move "@ + dst.name_text() + ", "@ + decimal(
                imm as nat,
            ),
            Op::MoveRegReg { dst, src } => "move "@ + dst.name_text() + ", "@ + src.name_text(),
            Op::MoveMemImm { mem_high, mem_low, imm } => "move ["@ + decimal(
                offset_of(mem_high, mem_low) as nat,
            ) + "], "@ + decimal(imm as nat),
            Op::MoveMemReg { mem_high, mem_low, src } => "move ["@ + decimal(
                offset_of(mem_high, mem_low) as nat,
            ) + "], "@ + src.name_text(),
            Op::MoveRegMem { dst, mem_high, mem_low } => "move "@ + dst.name_text() + ", ["@
                + decimal(offset_of(mem_high, mem_low) as nat) + "]"@,
        }
    }

    /// The instruction in its textual form, such as `move r0, 19`,
    /// `move [19], r0` or `halt`.
    pub fn text(&self) -> (s: String)
        ensures
            s@ == self.text_of(),
    {
        match *self {
            Op::Nop => String::from_str("nop"),
            Op::Halt => String::from_str("halt"),
            Op::MoveRegImm { dst, imm } => {
                let mut s = String::from_str("move ");
                s.append(dst.name());
                s.append(", ");
                push_decimal(&mut s, imm as usize);
                s
            },
            Op::MoveRegReg { dst, src } => {
                let mut s = String::from_str("move ");
                s.append(dst.name());
                s.append(", ");
                s.append(src.name());
                s
            },
            Op::MoveMemImm { mem_high, mem_low, imm } => {
                let mut s = String::from_str("move [");
                push_decimal(&mut s, data_offset(mem_high, mem_low) as usize);
                s.append("], ");
                push_decimal(&mut s, imm as usize);
                s
            },
            Op::MoveMemReg { mem_high, mem_low, src } => {
                let mut s = String::from_str("move [");
                push_decimal(&mut s, data_offset(mem_high, mem_low) as usize);
                s.append("], ");
                s.append(src.name());
                s
            },
            Op::MoveRegMem { dst, mem_high, mem_low } => {
                let mut s = String::from_str("move ");
                s.append(dst.name());
                s.append(", [");
                push_decimal(&mut s, data_offset(mem_high, mem_low) as usize);
                s.append("]");
                s
            },
        }
    }
}

impl LoadError {
    /// The error as a sentence.
    pub open spec fn message_of(self) -> Seq<char> {
        match self {
            LoadError::Size { size_of_loaded_program } => "size of loaded program ("@ + decimal(
                size_of_loaded_program as nat,
            ) + " bytes) exceedes the .text section size of "@ + decimal(TEXT_SIZE as nat)
                + " bytes"@,
        }
    }

    /// The error as a sentence that gives the program's size and the text
    /// segment's, both in bytes.
    pub fn message(&self) -> (s: String)
        ensures
            s@ == self.message_of(),
    {
        match *self {
            LoadError::Size { size_of_loaded_program } => {
                let mut s = String::from_str("size of loaded program (");
                push_decimal(&mut s, size_of_loaded_program);
                s.append(" bytes) exceedes the .text section size of ");
                push_decimal(&mut s, TEXT_SIZE);
                s.append(" bytes");
                s
            },
        }
    }
}

} // verus!
