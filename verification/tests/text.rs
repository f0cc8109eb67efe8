use kpu::text::push_decimal;
use kpu::{LoadError, Op, Reg};

#[test]
fn register_names() {
    assert_eq!(Reg::R0.name(), "r0");
    assert_eq!(Reg::R1.name(), "r1");
    assert_eq!(Reg::R2.name(), "r2");
    assert_eq!(Reg::R3.name(), "r3");
    assert_eq!(Reg::IP.name(), "ip");
}

#[test]
fn instruction_text() {
    assert_eq!(Op::Nop.text(), "nop");
    assert_eq!(Op::Halt.text(), "halt");
    assert_eq!(Op::MoveRegImm { dst: Reg::R0, imm: 19 }.text(), "move r0, 19");
    assert_eq!(Op::MoveRegReg { dst: Reg::R1, src: Reg::R2 }.text(), "move r1, r2");
    assert_eq!(Op::MoveMemImm { mem_high: 0, mem_low: 19, imm: 42 }.text(), "move [19], 42");
    assert_eq!(Op::MoveMemReg { mem_high: 0, mem_low: 19, src: Reg::R0 }.text(), "move [19], r0");
    assert_eq!(Op::MoveRegMem { dst: Reg::R0, mem_high: 0, mem_low: 19 }.text(), "move r0, [19]");
}

#[test]
fn instruction_text_of_large_operands() {
    assert_eq!(Op::MoveRegImm { dst: Reg::IP, imm: 255 }.text(), "move ip, 255");
    assert_eq!(Op::MoveRegImm { dst: Reg::R3, imm: 0 }.text(), "move r3, 0");
    assert_eq!(
        Op::MoveMemImm { mem_high: 255, mem_low: 255, imm: 100 }.text(),
        "move [65535], 100"
    );
    assert_eq!(Op::MoveRegMem { dst: Reg::R2, mem_high: 1, mem_low: 0 }.text(), "move r2, [256]");
}

#[test]
fn decimal_numerals() {
    for n in [0usize, 1, 9, 10, 11, 99, 100, 101, 255, 256, 1000, 65535, 1234567890] {
        let mut s = String::from("x");
        push_decimal(&mut s, n);
        assert_eq!(s, format!("x{}", n));
    }
    let mut s = String::new();
    push_decimal(&mut s, usize::MAX);
    assert_eq!(s, format!("{}", usize::MAX));
}

#[test]
fn load_error_message() {
    let e = LoadError::Size { size_of_loaded_program: 260 };
    assert_eq!(
        e.message(),
        "size of loaded program (260 bytes) exceedes the .text section size of 256 bytes"
    );
}
