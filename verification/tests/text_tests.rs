use emulator::emulator::{frame_delay, Emulator, TIME_PER_FRAME_MS};
use emulator::emulator_state::SharedState;
use emulator::machine::Fault;
use emulator::memory::Memory;
use emulator::opcodes;
use emulator::opcodes::{init_opcodes, Opcode};
use emulator::state::{Cpu, Psw};
use emulator::text::{push_blanks, push_decimal, push_flag, push_hex2, push_hex4, push_padded};

#[test]
fn hexadecimal_numbers_have_fixed_width() {
    let mut text = String::from("x");
    push_hex2(&mut text, 0x00);
    push_hex2(&mut text, 0x0a);
    push_hex2(&mut text, 0xff);
    push_hex2(&mut text, 0x9c);
    assert_eq!(text, "x000aff9c");
    let mut text = String::new();
    push_hex4(&mut text, 0);
    push_hex4(&mut text, 0x1a2b);
    push_hex4(&mut text, 0xffff);
    push_hex4(&mut text, 0x00f0);
    assert_eq!(text, "00001a2bffff00f0");
}

#[test]
fn decimal_numbers_have_no_leading_zeros() {
    let mut text = String::new();
    for value in [0u8, 7, 10, 42, 99, 100, 105, 255] {
        push_decimal(&mut text, value);
        text.push(' ');
    }
    assert_eq!(text, "0 7 10 42 99 100 105 255 ");
    for value in 0..=255u8 {
        let mut text = String::new();
        push_decimal(&mut text, value);
        assert_eq!(text, format!("{}", value));
    }
}

#[test]
fn hexadecimal_numbers_match_the_formatter() {
    for value in 0..=255u8 {
        let mut text = String::new();
        push_hex2(&mut text, value);
        assert_eq!(text, format!("{:02x}", value));
    }
    for value in [0usize, 1, 0x10, 0x100, 0x1000, 0xabcd, 0xffff, 0x0fff] {
        let mut text = String::new();
        push_hex4(&mut text, value);
        assert_eq!(text, format!("{:04x}", value));
    }
}

#[test]
fn columns_are_filled_with_blanks() {
    let mut text = String::from("[");
    push_padded(&mut text, "NOP", 6);
    text.push(']');
    assert_eq!(text, "[NOP   ]");
    let mut text = String::from("[");
    push_padded(&mut text, "LD (HL),A", 4);
    text.push(']');
    assert_eq!(text, "[LD (HL),A]");
    let mut text = String::new();
    push_padded(&mut text, "", 3);
    push_blanks(&mut text, 2);
    push_blanks(&mut text, 0);
    assert_eq!(text, "     ");
    let mut text = String::new();
    push_flag(&mut text, true);
    push_flag(&mut text, false);
    assert_eq!(text, "10");
}

#[test]
fn opcodes_display_by_length() {
    let table = init_opcodes();
    let nop = table.get(&opcodes::NOP).unwrap();
    assert_eq!(nop.display1(), "00         NOP           ");
    assert_eq!(nop.display1(), format!("{:02x}         {:14}", 0, "NOP"));
    let mvi = table.get(&opcodes::MVI_B).unwrap();
    assert_eq!(mvi.display2(0x12), "06 12      LD B, 12      ");
    let jmp = table.get(&opcodes::JMP).unwrap();
    assert_eq!(jmp.display3(0x34, 0x12), "c3 34 12   JMP 1234      ");
    let long = Opcode::new(0xab, 3, "A LONG MNEMONIC");
    assert_eq!(long.display1(), "ab         A LONG MNEMONIC");
    assert_eq!(long.display3(0xff, 0x00), "ab ff 00   A LONG MNEMONIC 00ff");
}

#[test]
fn memory_disassembles_an_instruction() {
    let mut memory = Memory::new();
    memory.load(&[0xc3, 0x34, 0x12, 0x3e, 0x07, 0x00], 0x100);
    let table = init_opcodes();
    let (line, size) = memory.disassemble(table.get(&0xc3).unwrap(), 0x100);
    assert_eq!(line, "0100: c3 34 12   JMP 1234      ");
    assert_eq!(size, 3);
    let (line, size) = memory.disassemble(table.get(&0x3e).unwrap(), 0x103);
    assert_eq!(line, "0103: 3e 07      LD A, 07      ");
    assert_eq!(size, 2);
    let (line, size) = memory.disassemble(table.get(&0x00).unwrap(), 0x105);
    assert_eq!(line, "0105: 00         NOP           ");
    assert_eq!(size, 1);
}

#[test]
fn disassembly_reads_round_the_end_of_memory() {
    let mut memory = Memory::new();
    memory.write(0xffff, 0xc3);
    memory.write(0x0000, 0x78);
    memory.write(0x0001, 0x56);
    let table = init_opcodes();
    let (line, _) = memory.disassemble(table.get(&0xc3).unwrap(), 0xffff);
    assert_eq!(line, "ffff: c3 78 56   JMP 5678      ");
}

#[test]
fn flags_disassemble() {
    let mut psw = Psw::default();
    assert_eq!(psw.disassemble(), "[C=0 P=0 S=0 Z=0]");
    psw.carry = true;
    psw.zero = true;
    assert_eq!(psw.disassemble(), "[C=1 P=0 S=0 Z=1]");
    psw.parity = true;
    psw.sign = true;
    psw.carry = false;
    assert_eq!(psw.disassemble(), "[C=0 P=1 S=1 Z=1]");
}

#[test]
fn registers_disassemble() {
    let mut cpu = Cpu::new(0x100);
    assert_eq!(
        cpu.disassemble(),
        "a:00 b:00 c:00 d:00 e:00 lh:0000 pc:0100 sp:0000 [C=0 P=0 S=0 Z=0]"
    );
    cpu.psw.a = 0x1f;
    cpu.b = 0x02;
    cpu.c = 0x03;
    cpu.d = 0x04;
    cpu.e = 0xe5;
    cpu.h = 0x24;
    cpu.l = 0x0a;
    cpu.sp = 0x23fe;
    cpu.psw.sign = true;
    assert_eq!(
        cpu.disassemble(),
        "a:1f b:02 c:03 d:04 e:e5 lh:240a pc:0100 sp:23fe [C=0 P=0 S=1 Z=0]"
    );
}

#[test]
fn emulator_disassembles_its_next_step() {
    let mut memory = Memory::new();
    memory.load(&[0x3e, 0x42, 0xc3, 0x00, 0x01], 0x100);
    let mut emulator = Emulator::new(Box::new(memory), 0x100);
    let mut shared = SharedState::new();
    assert_eq!(
        emulator.disassemble(),
        "0100: 3e 42      LD A, 42          a:00 b:00 c:00 d:00 e:00 lh:0000 pc:0100 sp:0000 [C=0 P=0 S=0 Z=0]"
    );
    emulator.step(&mut shared, true);
    assert_eq!(
        emulator.disassemble(),
        "0102: c3 00 01   JMP 0100          a:42 b:00 c:00 d:00 e:00 lh:0000 pc:0102 sp:0000 [C=0 P=0 S=0 Z=0]"
    );
}

#[test]
fn faults_have_messages() {
    assert_eq!(
        Fault::UnknownOpcode { opcode: 0x76, pc: 0x0104 }.message(),
        "Couldn't find opcode 76 at pc 0104"
    );
    assert_eq!(
        Fault::UnknownOpcode { opcode: 0x08, pc: 0xffff }.message(),
        "Couldn't find opcode 08 at pc ffff"
    );
    assert_eq!(
        Fault::AddressOutOfRange { opcode: 0x22, pc: 0x1a2b }.message(),
        "Address out of range: opcode 22 at pc 1a2b"
    );
    assert_eq!(Fault::UnsupportedPort { port: 7 }.message(), "Unsupported IN port: 7");
    assert_eq!(Fault::UnsupportedPort { port: 255 }.message(), "Unsupported IN port: 255");
    assert_eq!(Fault::UnsupportedPort { port: 0 }.message(), "Unsupported IN port: 0");
}

#[test]
fn frames_are_sixteen_milliseconds_apart() {
    assert_eq!(TIME_PER_FRAME_MS, 16);
    assert_eq!(frame_delay(0), 16);
    assert_eq!(frame_delay(5), 11);
    assert_eq!(frame_delay(15), 1);
    assert_eq!(frame_delay(16), 0);
    assert_eq!(frame_delay(17), 0);
    assert_eq!(frame_delay(1000), 0);
    assert_eq!(frame_delay(u128::MAX), 0);
}
