use kpu::op::data_offset;
use kpu::{DecodeError, Op, Reg};

fn every_variant() -> Vec<Op> {
    vec![
        Op::Nop,
        Op::MoveRegImm { dst: Reg::R2, imm: 200 },
        Op::MoveRegReg { dst: Reg::R1, src: Reg::R3 },
        Op::MoveMemImm { mem_high: 1, mem_low: 19, imm: 42 },
        Op::MoveMemReg { mem_high: 2, mem_low: 7, src: Reg::R0 },
        Op::MoveRegMem { dst: Reg::IP, mem_high: 0, mem_low: 255 },
        Op::Halt,
    ]
}

#[test]
fn encodes_each_variant_by_its_layout() {
    assert_eq!(Op::Nop.bytes(), [0x00, 0, 0, 0]);
    assert_eq!(Op::MoveRegImm { dst: Reg::R2, imm: 200 }.bytes(), [0x10, 2, 200, 0]);
    assert_eq!(Op::MoveRegReg { dst: Reg::R1, src: Reg::R3 }.bytes(), [0x11, 1, 3, 0]);
    assert_eq!(Op::MoveMemImm { mem_high: 1, mem_low: 19, imm: 42 }.bytes(), [0x20, 1, 19, 42]);
    assert_eq!(Op::MoveMemReg { mem_high: 2, mem_low: 7, src: Reg::R0 }.bytes(), [0x21, 2, 7, 0]);
    assert_eq!(Op::MoveRegMem { dst: Reg::IP, mem_high: 0, mem_low: 255 }.bytes(), [0x22, 4, 0, 255]);
    assert_eq!(Op::Halt.bytes(), [0xFF, 0, 0, 0]);
}

#[test]
fn decode_of_encode_is_identity() {
    for op in every_variant() {
        assert_eq!(Op::decode(op.bytes()), Ok(op));
    }
}

#[test]
fn decode_of_encode_is_identity_for_every_register_pair() {
    let regs = [Reg::R0, Reg::R1, Reg::R2, Reg::R3, Reg::IP];
    for dst in regs {
        for src in regs {
            let op = Op::MoveRegReg { dst, src };
            assert_eq!(Op::decode(op.bytes()), Ok(op));
        }
    }
}

#[test]
fn decode_ignores_bytes_without_operand() {
    assert_eq!(Op::decode([0x00, 9, 8, 7]), Ok(Op::Nop));
    assert_eq!(Op::decode([0xFF, 1, 2, 3]), Ok(Op::Halt));
    assert_eq!(Op::decode([0x10, 1, 5, 77]), Ok(Op::MoveRegImm { dst: Reg::R1, imm: 5 }));
    assert_eq!(Op::decode([0x11, 0, 3, 77]), Ok(Op::MoveRegReg { dst: Reg::R0, src: Reg::R3 }));
}

#[test]
fn decode_reads_low_nibble_of_register() {
    assert_eq!(Op::decode([0x10, 0xA3, 5, 0]), Ok(Op::MoveRegImm { dst: Reg::R3, imm: 5 }));
    assert_eq!(
        Op::decode([0x21, 1, 2, 0xF4]),
        Ok(Op::MoveMemReg { mem_high: 1, mem_low: 2, src: Reg::IP })
    );
    assert_eq!(
        Op::decode([0x22, 0x32, 1, 2]),
        Ok(Op::MoveRegMem { dst: Reg::R2, mem_high: 1, mem_low: 2 })
    );
}

#[test]
fn decode_refuses_unknown_opcode() {
    assert_eq!(Op::decode([0x01, 0, 0, 0]), Err(DecodeError::UnknownOpcode { tag: 0x01 }));
    assert_eq!(Op::decode([0x23, 0, 0, 0]), Err(DecodeError::UnknownOpcode { tag: 0x23 }));
    assert_eq!(Op::decode([0xFE, 0, 0, 0]), Err(DecodeError::UnknownOpcode { tag: 0xFE }));
}

#[test]
fn decode_refuses_unknown_register() {
    assert_eq!(Op::decode([0x10, 5, 0, 0]), Err(DecodeError::UnknownRegister { code: 5 }));
    assert_eq!(Op::decode([0x10, 0x1F, 0, 0]), Err(DecodeError::UnknownRegister { code: 15 }));
    assert_eq!(Op::decode([0x21, 0, 0, 9]), Err(DecodeError::UnknownRegister { code: 9 }));
    assert_eq!(Op::decode([0x22, 7, 0, 0]), Err(DecodeError::UnknownRegister { code: 7 }));
}

#[test]
fn decode_looks_at_destination_before_source() {
    assert_eq!(Op::decode([0x11, 6, 7, 0]), Err(DecodeError::UnknownRegister { code: 6 }));
    assert_eq!(Op::decode([0x11, 1, 7, 0]), Err(DecodeError::UnknownRegister { code: 7 }));
}

#[test]
fn register_codes() {
    assert_eq!(Reg::R0.code(), 0);
    assert_eq!(Reg::R1.code(), 1);
    assert_eq!(Reg::R2.code(), 2);
    assert_eq!(Reg::R3.code(), 3);
    assert_eq!(Reg::IP.code(), 4);
    assert_eq!(Reg::from_code(0), Some(Reg::R0));
    assert_eq!(Reg::from_code(4), Some(Reg::IP));
    assert_eq!(Reg::from_code(5), None);
    assert_eq!(Reg::from_code(255), None);
}

#[test]
fn data_offset_is_big_endian() {
    assert_eq!(data_offset(0, 19), 19);
    assert_eq!(data_offset(1, 19), 275);
    assert_eq!(data_offset(2, 255), 767);
    assert_eq!(data_offset(255, 255), 65535);
}
