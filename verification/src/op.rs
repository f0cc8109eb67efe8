//! Instructions and their four-byte encoding.

use vstd::prelude::*;
use crate::reg::{Reg, REG_COUNT};

verus! {

/// Width of an encoded instruction in bytes.
pub const OP_SIZE: usize = 4;

pub const TAG_NOP: u8 = 0x00;
pub const TAG_MOVE_REG_IMM: u8 = 0x10;
pub const TAG_MOVE_REG_REG: u8 = 0x11;
pub const TAG_MOVE_MEM_IMM: u8 = 0x20;
pub const TAG_MOVE_MEM_REG: u8 = 0x21;
pub const TAG_MOVE_REG_MEM: u8 = 0x22;
pub const TAG_HALT: u8 = 0xFF;

/// The instructions of the machine.
///
/// A memory operand is a 16-bit offset into the data segment, held as its
/// high and low byte.
#[derive(Clone, Copy, Debug, PartialEq, Eq, Structural)]
pub enum Op {
    /// Does nothing.
    Nop,
    /// Stores an immediate in a register.
    MoveRegImm { dst: Reg, imm: u8 },
    /// Copies one register into another.
    MoveRegReg { dst: Reg, src: Reg },
    /// Stores an immediate at a data offset.
    MoveMemImm { mem_high: u8, mem_low: u8, imm: u8 },
    /// Stores a register at a data offset.
    MoveMemReg { mem_high: u8, mem_low: u8, src: Reg },
    /// Loads a register from a data offset.
    MoveRegMem { dst: Reg, mem_high: u8, mem_low: u8 },
    /// Stops the machine: the instruction pointer no longer advances.
    Halt,
}

/// Why four bytes are not an instruction.
#[derive(Clone, Copy, Debug, PartialEq, Eq, Structural)]
pub enum DecodeError {
    /// The first byte is none of the seven opcode tags.
    UnknownOpcode { tag: u8 },
    /// The low nibble of a register operand names no register.
    UnknownRegister { code: u8 },
}

/// The data offset whose big-endian bytes are `high` and `low`.
pub open spec fn offset_of(high: u8, low: u8) -> int {
    high as int * 256 + low as int
}

/// The low four bits of an operand byte, where a register's number is held.
pub open spec fn low_nibble(b: u8) -> u8 {
    (b % 16) as u8
}

/// The register operand held in `b`: its low nibble's register, or the
/// nibble itself where it names none.
pub open spec fn reg_operand(b: u8) -> Result<Reg, DecodeError> {
    if low_nibble(b) < REG_COUNT {
        Ok(Reg::of_index(low_nibble(b) as int))
    } else {
        Err(DecodeError::UnknownRegister { code: low_nibble(b) })
    }
}

/// The 16-bit big-endian offset made of a high and a low byte.
pub fn data_offset(high: u8, low: u8) -> (off: u16)
    ensures
        off == offset_of(high, low),
{
    (high as u16) * 256 + (low as u16)
}

fn decode_reg(b: u8) -> (r: Result<Reg, DecodeError>)
    ensures
        r == reg_operand(b),
{
    let code: u8 = b & 0x0F;
    assert(b & 0x0F == b % 16) by (bit_vector);
    match Reg::from_code(code) {
        Some(reg) => Ok(reg),
        None => Err(DecodeError::UnknownRegister { code }),
    }
}

impl Op {
    /// The opcode tag: the first byte of the encoding.
    pub open spec fn tag(self) -> u8 {
        match self {
            Op::Nop => TAG_NOP,
            Op::MoveRegImm { .. } => TAG_MOVE_REG_IMM,
            Op::MoveRegReg { .. } => TAG_MOVE_REG_REG,
            Op::MoveMemImm { .. } => TAG_MOVE_MEM_IMM,
            Op::MoveMemReg { .. } => TAG_MOVE_MEM_REG,
            Op::MoveRegMem { .. } => TAG_MOVE_REG_MEM,
            Op::Halt => TAG_HALT,
        }
    }

    /// The four bytes that stand for the instruction: the tag, then the
    /// operands in the order of the variant's layout. Bytes that carry no
    /// operand are zero.
    pub open spec fn encoding(self) -> Seq<u8> {
        match self {
            Op::Nop => seq![TAG_NOP, 0u8, 0u8, 0u8],
            Op::MoveRegImm { dst, imm } => seq![TAG_MOVE_REG_IMM, dst.index() as u8, imm, 0u8],
            Op::MoveRegReg { dst, src } => seq![
                TAG_MOVE_REG_REG,
                dst.index() as u8,
                src.index() as u8,
                0u8,
            ],
            Op::MoveMemImm { mem_high, mem_low, imm } => seq![
                TAG_MOVE_MEM_IMM,
                mem_high,
                mem_low,
                imm,
            ],
            Op::MoveMemReg { mem_high, mem_low, src } => seq![
                TAG_MOVE_MEM_REG,
                mem_high,
                mem_low,
                src.index() as u8,
            ],
            Op::MoveRegMem { dst, mem_high, mem_low } => seq![
                TAG_MOVE_REG_MEM,
                dst.index() as u8,
                mem_high,
                mem_low,
            ],
            Op::Halt => seq![TAG_HALT, 0u8, 0u8, 0u8],
        }
    }

    /// The instruction that four bytes stand for. The tag selects the
    /// variant; of a register operand only the low nibble is read; bytes that
    /// carry no operand are not read at all. An unknown tag is an error, and
    /// so is a register nibble that names no register (the destination is
    /// looked at before the source).
    pub open spec fn decoding(b: Seq<u8>) -> Result<Op, DecodeError>
        recommends
            b.len() == OP_SIZE,
    {
        if b[0] == TAG_NOP {
            Ok(Op::Nop)
        } else if b[0] == TAG_MOVE_REG_IMM {
            match reg_operand(b[1]) {
                Ok(dst) => Ok(Op::MoveRegImm { dst, imm: b[2] }),
                Err(e) => Err(e),
            }
        } else if b[0] == TAG_MOVE_REG_REG {
            match (reg_operand(b[1]), reg_operand(b[2])) {
                (Ok(dst), Ok(src)) => Ok(Op::MoveRegReg { dst, src }),
                (Err(e), _) => Err(e),
                (_, Err(e)) => Err(e),
            }
        } else if b[0] == TAG_MOVE_MEM_IMM {
            Ok(Op::MoveMemImm { mem_high: b[1], mem_low: b[2], imm: b[3] })
        } else if b[0] == TAG_MOVE_MEM_REG {
            match reg_operand(b[3]) {
                Ok(src) => Ok(Op::MoveMemReg { mem_high: b[1], mem_low: b[2], src }),
                Err(e) => Err(e),
            }
        } else if b[0] == TAG_MOVE_REG_MEM {
            match reg_operand(b[1]) {
                Ok(dst) => Ok(Op::MoveRegMem { dst, mem_high: b[2], mem_low: b[3] }),
                Err(e) => Err(e),
            }
        } else if b[0] == TAG_HALT {
            Ok(Op::Halt)
        } else {
            Err(DecodeError::UnknownOpcode { tag: b[0] })
        }
    }

    /// The data offset that the instruction reads or writes, if it has one.
    pub open spec fn memory_offset(self) -> Option<int> {
        match self {
            Op::MoveMemImm { mem_high, mem_low, .. } => Some(offset_of(mem_high, mem_low)),
            Op::MoveMemReg { mem_high, mem_low, .. } => Some(offset_of(mem_high, mem_low)),
            Op::MoveRegMem { mem_high, mem_low, .. } => Some(offset_of(mem_high, mem_low)),
            _ => None,
        }
    }

    /// The register that the instruction writes, if it writes one.
    pub open spec fn destination(self) -> Option<Reg> {
        match self {
            Op::MoveRegImm { dst, .. } => Some(dst),
            Op::MoveRegReg { dst, .. } => Some(dst),
            Op::MoveRegMem { dst, .. } => Some(dst),
            _ => None,
        }
    }

    /// Encodes the instruction.
    pub fn bytes(self) -> (b: [u8; OP_SIZE])
        ensures
            b@ == self.encoding(),
    {
        let b: [u8; OP_SIZE] = match self {
            Op::Nop => [TAG_NOP, 0, 0, 0],
            Op::MoveRegImm { dst, imm } => [TAG_MOVE_REG_IMM, dst.code(), imm, 0],
            Op::MoveRegReg { dst, src } => [TAG_MOVE_REG_REG, dst.code(), src.code(), 0],
            Op::MoveMemImm { mem_high, mem_low, imm } => [TAG_MOVE_MEM_IMM, mem_high, mem_low, imm],
            Op::MoveMemReg { mem_high, mem_low, src } => [
                TAG_MOVE_MEM_REG,
                mem_high,
                mem_low,
                src.code(),
            ],
            Op::MoveRegMem { dst, mem_high, mem_low } => [
                TAG_MOVE_REG_MEM,
                dst.code(),
                mem_high,
                mem_low,
            ],
            Op::Halt => [TAG_HALT, 0, 0, 0],
        };
        assert(b@ =~= self.encoding());
        b
    }

    /// Decodes four bytes.
    pub fn decode(bytes: [u8; OP_SIZE]) -> (r: Result<Op, DecodeError>)
        ensures
            r == Op::decoding(bytes@),
    {
        let tag: u8 = bytes[0];
        if tag == TAG_NOP {
            Ok(Op::Nop)
        } else if tag == TAG_MOVE_REG_IMM {
            match decode_reg(bytes[1]) {
                Ok(dst) => Ok(Op::MoveRegImm { dst, imm: bytes[2] }),
                Err(e) => Err(e),
            }
        } else if tag == TAG_MOVE_REG_REG {
            match decode_reg(bytes[1]) {
                Ok(dst) => match decode_reg(bytes[2]) {
                    Ok(src) => Ok(Op::MoveRegReg { dst, src }),
                    Err(e) => Err(e),
                },
                Err(e) => Err(e),
            }
        } else if tag == TAG_MOVE_MEM_IMM {
            Ok(Op::MoveMemImm { mem_high: bytes[1], mem_low: bytes[2], imm: bytes[3] })
        } else if tag == TAG_MOVE_MEM_REG {
            match decode_reg(bytes[3]) {
                Ok(src) => Ok(Op::MoveMemReg { mem_high: bytes[1], mem_low: bytes[2], src }),
                Err(e) => Err(e),
            }
        } else if tag == TAG_MOVE_REG_MEM {
            match decode_reg(bytes[1]) {
                Ok(dst) => Ok(Op::MoveRegMem { dst, mem_high: bytes[2], mem_low: bytes[3] }),
                Err(e) => Err(e),
            }
        } else if tag == TAG_HALT {
            Ok(Op::Halt)
        } else {
            Err(DecodeError::UnknownOpcode { tag })
        }
    }

    /// An encoding is four bytes long and starts with the instruction's tag.
    pub proof fn lemma_encoding_shape(self)
        ensures
            self.encoding().len() == OP_SIZE,
            self.encoding()[0] == self.tag(),
    {
    }

    /// Decoding an instruction's encoding gives the instruction back, with
    /// every field as it was.
    pub proof fn lemma_decode_encode(self)
        ensures
            Op::decoding(self.encoding()) == Ok::<Op, DecodeError>(self),
    {
        match self {
            Op::MoveRegImm { dst, .. } => {
                dst.lemma_index_roundtrip();
            },
            Op::MoveRegReg { dst, src } => {
                dst.lemma_index_roundtrip();
                src.lemma_index_roundtrip();
            },
            Op::MoveMemReg { src, .. } => {
                src.lemma_index_roundtrip();
            },
            Op::MoveRegMem { dst, .. } => {
                dst.lemma_index_roundtrip();
            },
            _ => {},
        }
    }

    /// Two instructions with the same encoding are the same instruction.
    pub proof fn lemma_encoding_injective(self, other: Op)
        requires
            self.encoding() == other.encoding(),
        ensures
            self == other,
    {
        self.lemma_decode_encode();
        other.lemma_decode_encode();
    }
}

} // verus!
