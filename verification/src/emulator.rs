//! The interpreter: one step at a time, and a video frame's worth of steps
//! with its two interrupts.

use std::collections::HashMap;
use vstd::prelude::*;
use crate::emulator_state::SharedState;
use crate::machine::{
    lemma_cycles_of_instruction, shift_result, Fault, FrameAction, FramePhase, FrameProgress,
    Machine, Signal, CYCLES_PER_FRAME, SELF_TEST_FAILURE, SELF_TEST_SUCCESS,
};
use crate::memory::{
    high_byte, low_byte, word_of, wrap16, Memory, GRAPHIC_MEMORY_SIZE, GRAPHIC_MEMORY_START,
    MEMORY_SIZE,
};
use crate::opcodes;
use crate::opcodes::{descriptor, init_opcodes, is_opcode_table, is_supported, Opcode};
use crate::state::{address_after, address_before, pair_decremented, pair_incremented, Cpu, Psw};
use crate::text::{blanks, hex4, push_blanks, push_hex4};

verus! {

/// Width of the screen in pixels.
pub const WIDTH: u16 = 224;

/// Height of the screen in pixels.
pub const HEIGHT: u16 = 256;

/// The time from the start of one frame to the start of the next, in
/// milliseconds.
pub const TIME_PER_FRAME_MS: u64 = 16;

/// How long to wait after a frame that took `elapsed_ms` milliseconds, so
/// that frames start `TIME_PER_FRAME_MS` apart. A frame that took that long
/// or longer is not waited for, and nothing is made up for it later.
pub fn frame_delay(elapsed_ms: u128) -> (delay_ms: u64)
    ensures
        elapsed_ms < TIME_PER_FRAME_MS ==> delay_ms == TIME_PER_FRAME_MS - elapsed_ms,
        elapsed_ms >= TIME_PER_FRAME_MS ==> delay_ms == 0,
{
    if elapsed_ms < TIME_PER_FRAME_MS as u128 {
        TIME_PER_FRAME_MS - elapsed_ms as u64
    } else {
        0
    }
}

/// What a step tells its caller.
#[derive(Debug, PartialEq)]
pub enum StepStatus {
    /// An instruction was executed.
    Continue,
    /// The machine is paused; nothing was done.
    Paused,
    /// A diagnostic program reports that its checks passed.
    Success(String),
    /// A diagnostic program reports a failed check.
    Failure(String),
}

/// The status of a step and the cycles that it took.
pub struct StepResult {
    pub status: StepStatus,
    pub cycles: u8,
}

/// The message of a diagnostic program whose check failed in the call at
/// `pc`.
pub open spec fn failure_text(pc: int) -> Seq<char> {
    "Failure at pc "@ + hex4(pc)
}

impl StepStatus {
    /// Whether this status is the one that goes with `signal`, message
    /// included.
    pub open spec fn reports(self, signal: Signal) -> bool {
        match signal {
            Signal::Continue => self is Continue,
            Signal::Paused => self is Paused,
            Signal::Success => self matches StepStatus::Success(text) && text@ == "Success"@,
            Signal::Failure(pc) => self matches StepStatus::Failure(text) && text@ == failure_text(
                pc,
            ),
        }
    }

    /// Whether an instruction was executed.
    pub fn is_continue(&self) -> (yes: bool)
        ensures
            yes == (self is Continue),
    {
        match self {
            StepStatus::Continue => true,
            _ => false,
        }
    }
}

/// What a diagnostic program reports when its checks passed.
fn success_message() -> (message: String)
    ensures
        message@ == "Success"@,
{
    String::from_str("Success")
}

/// What a diagnostic program reports when the check before `pc` failed.
fn failure_message(pc: usize) -> (message: String)
    requires
        pc < MEMORY_SIZE,
    ensures
        message@ == failure_text(pc as int),
{
    let mut message: String = String::from_str("Failure at pc ");
    push_hex4(&mut message, pc);
    message
}

/// Shifting a 16-bit value right by one to eight bits divides it by a power
/// of two.
proof fn lemma_shift_right(value: u16)
    by (bit_vector)
    ensures
        value >> 8u16 == value / 256,
        value >> 7u16 == value / 128,
        value >> 6u16 == value / 64,
        value >> 5u16 == value / 32,
        value >> 4u16 == value / 16,
        value >> 3u16 == value / 8,
        value >> 2u16 == value / 4,
        value >> 1u16 == value / 2,
{
}

/// The 8080 with the shift register of the arcade board.
pub struct Emulator {
    memory: Memory,
    cpu: Cpu,
    shift_register: u16,
    shift_register_offset: u8,
    self_test: bool,
    opcodes: HashMap<u8, Opcode>,
}

impl View for Emulator {
    type V = Machine;

    closed spec fn view(&self) -> Machine {
        Machine {
            cpu: self.cpu,
            memory: self.memory@,
            shift_register: self.shift_register,
            shift_register_offset: self.shift_register_offset,
            self_test: self.self_test,
        }
    }
}

impl Emulator {
    /// Whether the emulator holds the opcode table.
    pub closed spec fn table_built(&self) -> bool {
        is_opcode_table(self.opcodes@)
    }

    /// The machine is well formed and the opcode table is in place.
    pub open spec fn wf(&self) -> bool {
        self@.wf() && self.table_built()
    }

    /// An emulator that runs the program in `memory` from address `pc` on.
    pub fn new(memory: Box<Memory>, pc: usize) -> (emulator: Emulator)
        requires
            memory.wf(),
            pc < MEMORY_SIZE,
        ensures
            emulator.wf(),
            emulator@ == (Machine {
                cpu: Cpu::reset(pc),
                memory: memory@,
                shift_register: 0,
                shift_register_offset: 0,
                self_test: false,
            }),
    {
        Emulator {
            memory: *memory,
            cpu: Cpu::new(pc),
            shift_register: 0,
            shift_register_offset: 0,
            self_test: false,
            opcodes: init_opcodes(),
        }
    }

    /// Says whether the program is a diagnostic program, whose `CALL 5`
    /// with C = 9 reports its result.
    pub fn set_self_test(&mut self, self_test: bool)
        ensures
            final(self)@ == (Machine { self_test, ..old(self)@ }),
            final(self).table_built() == old(self).table_built(),
    {
        self.self_test = self_test;
    }

    /// The registers and flags.
    pub fn cpu(&self) -> (cpu: Cpu)
        ensures
            cpu == self@.cpu,
    {
        self.cpu
    }

    /// The memory.
    pub fn memory(&self) -> (memory: &Memory)
        ensures
            memory@ == self@.memory,
    {
        &self.memory
    }

    /// The video window of the memory.
    pub fn graphic_memory(&self) -> (window: Vec<u8>)
        requires
            self.wf(),
        ensures
            window@ == self@.memory.subrange(
                GRAPHIC_MEMORY_START as int,
                GRAPHIC_MEMORY_START + GRAPHIC_MEMORY_SIZE,
            ),
    {
        self.memory.graphic_memory()
    }

    /// The line of a trace for the next step: the disassembly of the
    /// instruction at the program counter, then the registers and flags.
    pub fn disassemble(&self) -> (line: String)
        requires
            self.wf(),
            is_supported(self@.opcode()),
        ensures
            line@ == descriptor(self@.opcode()).disassembled(
                self@.memory,
                self@.cpu.pc as int,
            ) + blanks(4) + self@.cpu.disassembled(),
    {
        let op: u8 = self.memory.read(self.cpu.pc);
        let mut line: String = match self.opcodes.get(&op) {
            Some(opcode) => self.memory.disassemble(opcode, self.cpu.pc).0,
            None => vstd::pervasive::unreached(),
        };
        push_blanks(&mut line, 4);
        let registers: String = self.cpu.disassemble();
        line.append(registers.as_str());
        line
    }

    /// The byte that HL points to.
    fn read_m(&self) -> (value: u8)
        requires
            self.wf(),
        ensures
            value == self@.operand(6),
    {
        self.memory.read(self.cpu.m())
    }

    /// Stores `value` where HL points to.
    fn write_m(&mut self, value: u8)
        requires
            old(self).wf(),
        ensures
            final(self).wf(),
            final(self)@ == old(self)@.with_operand(6, value),
    {
        self.memory.write(self.cpu.m(), value);
    }

    /// Pushes two bytes on the stack: the high byte, then the low byte.
    fn push(&mut self, high: u8, low: u8)
        requires
            old(self).wf(),
        ensures
            final(self).wf(),
            final(self)@ == old(self)@.pushed(high, low),
    {
        self.memory.write(address_before(self.cpu.sp, 1), high);
        self.memory.write(address_before(self.cpu.sp, 2), low);
        self.cpu.sp = address_before(self.cpu.sp, 2);
    }

    /// Pops two bytes off the stack: the low byte, then the high byte.
    fn pop(&mut self) -> (bytes: (u8, u8))
        requires
            old(self).wf(),
        ensures
            final(self).wf(),
            bytes.0 == old(self)@.byte_at(old(self)@.cpu.sp as int),
            bytes.1 == old(self)@.byte_at(wrap16(old(self)@.cpu.sp + 1)),
            final(self)@ == old(self)@.with_cpu(
                Cpu { sp: wrap16(old(self)@.cpu.sp + 2) as usize, ..old(self)@.cpu },
            ),
    {
        let low: u8 = self.memory.read(self.cpu.sp);
        let high: u8 = self.memory.read(address_after(self.cpu.sp, 1));
        self.cpu.sp = address_after(self.cpu.sp, 2);
        (low, high)
    }

    /// The flags packed into a byte, as `PUSH PSW` stores them.
    fn flags_byte(&self) -> (flags: u8)
        ensures
            flags == self@.cpu.psw.flags_byte(),
    {
        proof {
            reveal(low_byte);
        }
        (self.cpu.psw.value() % 256) as u8
    }

    /// What port 3 reads from the shift register.
    fn read_shift_register(&self) -> (value: u8)
        requires
            self.wf(),
        ensures
            value == shift_result(self@.shift_register, self@.shift_register_offset),
    {
        proof {
            reveal(shift_result);
            lemma_shift_right(self.shift_register);
        }
        let shift_amount: u8 = 8 - self.shift_register_offset;
        ((self.shift_register >> shift_amount) % 256) as u8
    }

    /// The address of the call by which a diagnostic program reports a
    /// failure: six bytes before the return address that lies two entries
    /// down the stack.
    fn failing_call(&self) -> (pc: usize)
        requires
            self.wf(),
        ensures
            pc == self@.failing_call(),
            pc < MEMORY_SIZE,
    {
        let low: u8 = self.memory.read(address_after(self.cpu.sp, 4));
        let high: u8 = self.memory.read(address_after(self.cpu.sp, 5));
        address_before(Memory::to_word(low, high), 6)
    }

    /// Why the next step cannot be taken, if it cannot.
    pub fn fault(&self, shared: &SharedState) -> (fault: Option<Fault>)
        requires
            self.wf(),
        ensures
            fault == self@.fault(shared@),
            fault is None <==> self@.can_step(shared@),
    {
        if shared.is_paused() {
            return None;
        }
        let op: u8 = self.memory.read(self.cpu.pc);
        if !self.opcodes.contains_key(&op) {
            return Some(Fault::UnknownOpcode { opcode: op, pc: self.cpu.pc });
        }
        let byte1: u8 = self.memory.read(address_after(self.cpu.pc, 1));
        let byte2: u8 = self.memory.read(address_after(self.cpu.pc, 2));
        if op == opcodes::IN && !(1 <= byte1 && byte1 <= 3) {
            return Some(Fault::UnsupportedPort { port: byte1 });
        }
        if (op == opcodes::SHLD || op == opcodes::LHLD) && Memory::to_word(byte1, byte2) == 0xffff {
            return Some(Fault::AddressOutOfRange { opcode: op, pc: self.cpu.pc });
        }
        None
    }

    /// Raises interrupt `interrupt_number`. Nothing happens while
    /// interrupts are disabled. Otherwise they are disabled until the
    /// program enables them again, the program counter is pushed as by a
    /// call, and the program goes on at `interrupt_number * 8`.
    pub fn interrupt(&mut self, interrupt_number: u8)
        requires
            old(self).wf(),
        ensures
            final(self).wf(),
            final(self)@ == old(self)@.interrupted(interrupt_number),
    {
        proof {
            reveal(high_byte);
            reveal(low_byte);
        }
        if self.cpu.enable_interrupts {
            self.cpu.enable_interrupts = false;
            let pc: usize = self.cpu.pc;
            self.memory.write(address_before(self.cpu.sp, 1), (pc / 256) as u8);
            self.memory.write(address_before(self.cpu.sp, 2), (pc % 256) as u8);
            self.cpu.sp = address_before(self.cpu.sp, 2);
            self.cpu.pc = (interrupt_number as usize) * 8;
        }
    }

    /// Executes one of the opcodes 0x00 to 0x3f: loads and stores, 16-bit
    /// arithmetic, increment and decrement, rotates and the flag
    /// instructions. Returns the cycles it took.
    #[verifier::rlimit(50)]
    fn step_transfer(&mut self, op: u8, byte1: u8, byte2: u8) -> (cycles: u8)
        requires
            old(self).wf(),
            op < 0x40,
            is_supported(op),
            op == opcodes::SHLD || op == opcodes::LHLD ==> word_of(byte1, byte2) != 0xffff,
        ensures
            final(self).wf(),
            final(self)@ == old(self)@.execute_transfer(op, byte1, byte2).machine,
            cycles == old(self)@.execute_transfer(op, byte1, byte2).cycles,
            4 <= cycles <= 18,
    {
        let word: usize = Memory::to_word(byte1, byte2);
        match op {
            opcodes::NOP => 4,
            opcodes::LXI_B => {
                self.cpu.c = byte1;
                self.cpu.b = byte2;
                10
            },
            opcodes::STAX_B => {
                self.memory.write_word(self.cpu.c, self.cpu.b, self.cpu.psw.a);
                7
            },
            opcodes::INX_B => {
                let (high, low): (u8, u8) = pair_incremented(self.cpu.b, self.cpu.c);
                self.cpu.b = high;
                self.cpu.c = low;
                5
            },
            opcodes::INR_B => {
                let n: u8 = self.cpu.b;
                let value: u8 = self.cpu.inr(n);
                self.cpu.b = value;
                5
            },
            opcodes::DCR_B => {
                let n: u8 = self.cpu.b;
                let value: u8 = self.cpu.dec(n);
                self.cpu.b = value;
                5
            },
            opcodes::MVI_B => {
                self.cpu.b = byte1;
                7
            },
            opcodes::RLC => {
                self.cpu.rlc();
                4
            },
            opcodes::DAD_B => {
                let low: u8 = self.cpu.c;
                let high: u8 = self.cpu.b;
                self.cpu.add_hl(low, high);
                10
            },
            opcodes::LDAX_B => {
                self.cpu.psw.a = self.memory.read_word(self.cpu.c, self.cpu.b);
                7
            },
            opcodes::DCX_B => {
                let (high, low): (u8, u8) = pair_decremented(self.cpu.b, self.cpu.c);
                self.cpu.b = high;
                self.cpu.c = low;
                5
            },
            opcodes::INR_C => {
                let n: u8 = self.cpu.c;
                let value: u8 = self.cpu.inr(n);
                self.cpu.c = value;
                5
            },
            opcodes::DCR_C => {
                let n: u8 = self.cpu.c;
                let value: u8 = self.cpu.dec(n);
                self.cpu.c = value;
                5
            },
            opcodes::MVI_C => {
                self.cpu.c = byte1;
                7
            },
            opcodes::RRC => {
                self.cpu.rrc();
                4
            },
            opcodes::LXI_D => {
                self.cpu.e = byte1;
                self.cpu.d = byte2;
                10
            },
            opcodes::STAX_D => {
                self.memory.write_word(self.cpu.e, self.cpu.d, self.cpu.psw.a);
                7
            },
            opcodes::INX_D => {
                let (high, low): (u8, u8) = pair_incremented(self.cpu.d, self.cpu.e);
                self.cpu.d = high;
                self.cpu.e = low;
                5
            },
            opcodes::INR_D => {
                let n: u8 = self.cpu.d;
                let value: u8 = self.cpu.inr(n);
                self.cpu.d = value;
                5
            },
            opcodes::DCR_D => {
                let n: u8 = self.cpu.d;
                let value: u8 = self.cpu.dec(n);
                self.cpu.d = value;
                5
            },
            opcodes::MVI_D => {
                self.cpu.d = byte1;
                7
            },
            opcodes::RAL => {
                self.cpu.ral();
                4
            },
            opcodes::DAD_D => {
                let low: u8 = self.cpu.e;
                let high: u8 = self.cpu.d;
                self.cpu.add_hl(low, high);
                10
            },
            opcodes::LDAX_D => {
                self.cpu.psw.a = self.memory.read_word(self.cpu.e, self.cpu.d);
                7
            },
            opcodes::DCX_D => {
                let (high, low): (u8, u8) = pair_decremented(self.cpu.d, self.cpu.e);
                self.cpu.d = high;
                self.cpu.e = low;
                5
            },
            opcodes::INR_E => {
                let n: u8 = self.cpu.e;
                let value: u8 = self.cpu.inr(n);
                self.cpu.e = value;
                5
            },
            opcodes::DCR_E => {
                let n: u8 = self.cpu.e;
                let value: u8 = self.cpu.dec(n);
                self.cpu.e = value;
                5
            },
            opcodes::MVI_E => {
                self.cpu.e = byte1;
                7
            },
            opcodes::RAR => {
                self.cpu.rar();
                4
            },
            opcodes::LXI_H => {
                self.cpu.l = byte1;
                self.cpu.h = byte2;
                10
            },
            opcodes::SHLD => {
                self.memory.write(word, self.cpu.l);
                self.memory.write(word + 1, self.cpu.h);
                16
            },
            opcodes::INX_H => {
                let (high, low): (u8, u8) = pair_incremented(self.cpu.h, self.cpu.l);
                self.cpu.h = high;
                self.cpu.l = low;
                5
            },
            opcodes::INR_H => {
                let n: u8 = self.cpu.h;
                let value: u8 = self.cpu.inr(n);
                self.cpu.h = value;
                5
            },
            opcodes::DCR_H => {
                let n: u8 = self.cpu.h;
                let value: u8 = self.cpu.dec(n);
                self.cpu.h = value;
                5
            },
            opcodes::MVI_H => {
                self.cpu.h = byte1;
                7
            },
            opcodes::DAA => {
                self.cpu.daa();
                4
            },
            opcodes::DAD_H => {
                let low: u8 = self.cpu.l;
                let high: u8 = self.cpu.h;
                self.cpu.add_hl(low, high);
                10
            },
            opcodes::LHLD => {
                self.cpu.l = self.memory.read(word);
                self.cpu.h = self.memory.read(word + 1);
                16
            },
            opcodes::DCX_H => {
                let (high, low): (u8, u8) = pair_decremented(self.cpu.h, self.cpu.l);
                self.cpu.h = high;
                self.cpu.l = low;
                5
            },
            opcodes::INR_L => {
                let n: u8 = self.cpu.l;
                let value: u8 = self.cpu.inr(n);
                self.cpu.l = value;
                5
            },
            opcodes::DCR_L => {
                let n: u8 = self.cpu.l;
                let value: u8 = self.cpu.dec(n);
                self.cpu.l = value;
                5
            },
            opcodes::MVI_L => {
                self.cpu.l = byte1;
                7
            },
            opcodes::CMA => {
                self.cpu.psw.a = !self.cpu.psw.a;
                4
            },
            opcodes::LXI_SP => {
                self.cpu.sp = word;
                10
            },
            opcodes::STA => {
                self.memory.write(word, self.cpu.psw.a);
                13
            },
            opcodes::INX_SP => {
                self.cpu.sp = address_after(self.cpu.sp, 1);
                5
            },
            opcodes::INR_M => {
                let n: u8 = self.read_m();
                let value: u8 = self.cpu.inr(n);
                self.write_m(value);
                10
            },
            opcodes::DCR_M => {
                let n: u8 = self.read_m();
                let value: u8 = self.cpu.dec(n);
                self.write_m(value);
                10
            },
            opcodes::MVI_M => {
                self.write_m(byte1);
                10
            },
            opcodes::STC => {
                self.cpu.psw.carry = true;
                4
            },
            opcodes::DAD_SP => {
                let bytes: (u8, u8) = self.cpu.sp_bytes();
                self.cpu.add_hl(bytes.0, bytes.1);
                10
            },
            opcodes::LDA => {
                self.cpu.psw.a = self.memory.read(word);
                13
            },
            opcodes::DCX_SP => {
                self.cpu.sp = address_before(self.cpu.sp, 1);
                5
            },
            opcodes::INR_A => {
                let n: u8 = self.cpu.psw.a;
                let value: u8 = self.cpu.inr(n);
                self.cpu.psw.a = value;
                5
            },
            opcodes::DCR_A => {
                let n: u8 = self.cpu.psw.a;
                let value: u8 = self.cpu.dec(n);
                self.cpu.psw.a = value;
                5
            },
            opcodes::MVI_A => {
                self.cpu.psw.a = byte1;
                7
            },
            opcodes::CMC => {
                self.cpu.psw.carry = !self.cpu.psw.carry;
                4
            },
            _ => vstd::pervasive::unreached(),
        }
    }

    /// Executes one of the opcodes 0x40 to 0x7f, the moves. Returns the
    /// cycles it took.
    #[verifier::rlimit(50)]
    fn step_move(&mut self, op: u8) -> (cycles: u8)
        requires
            old(self).wf(),
            0x40 <= op < 0x80,
            is_supported(op),
        ensures
            final(self).wf(),
            final(self)@ == old(self)@.execute_move(op).machine,
            cycles == old(self)@.execute_move(op).cycles,
            4 <= cycles <= 18,
    {
        match op {
            opcodes::MOV_B_C => {
                self.cpu.b = self.cpu.c;
                5
            },
            opcodes::MOV_B_D => {
                self.cpu.b = self.cpu.d;
                5
            },
            opcodes::MOV_B_E => {
                self.cpu.b = self.cpu.e;
                5
            },
            opcodes::MOV_B_H => {
                self.cpu.b = self.cpu.h;
                5
            },
            opcodes::MOV_B_L => {
                self.cpu.b = self.cpu.l;
                5
            },
            opcodes::MOV_B_M => {
                self.cpu.b = self.read_m();
                7
            },
            opcodes::MOV_B_A => {
                self.cpu.b = self.cpu.psw.a;
                5
            },
            opcodes::MOV_C_B => {
                self.cpu.c = self.cpu.b;
                5
            },
            opcodes::MOV_C_C => 5,
            opcodes::MOV_C_D => {
                self.cpu.c = self.cpu.d;
                5
            },
            opcodes::MOV_C_E => {
                self.cpu.c = self.cpu.e;
                5
            },
            opcodes::MOV_C_H => {
                self.cpu.c = self.cpu.h;
                5
            },
            opcodes::MOV_C_L => {
                self.cpu.c = self.cpu.l;
                5
            },
            opcodes::MOV_C_M => {
                self.cpu.c = self.read_m();
                7
            },
            opcodes::MOV_C_A => {
                self.cpu.c = self.cpu.psw.a;
                5
            },
            opcodes::MOV_D_B => {
                self.cpu.d = self.cpu.b;
                5
            },
            opcodes::MOV_D_C => {
                self.cpu.d = self.cpu.c;
                5
            },
            opcodes::MOV_D_D => 5,
            opcodes::MOV_D_E => {
                self.cpu.d = self.cpu.e;
                5
            },
            opcodes::MOV_D_H => {
                self.cpu.d = self.cpu.h;
                5
            },
            opcodes::MOV_D_L => {
                self.cpu.d = self.cpu.l;
                5
            },
            opcodes::MOV_D_M => {
                self.cpu.d = self.read_m();
                7
            },
            opcodes::MOV_D_A => {
                self.cpu.d = self.cpu.psw.a;
                5
            },
            opcodes::MOV_E_B => {
                self.cpu.e = self.cpu.b;
                5
            },
            opcodes::MOV_E_C => {
                self.cpu.e = self.cpu.c;
                5
            },
            opcodes::MOV_E_D => {
                self.cpu.e = self.cpu.d;
                5
            },
            opcodes::MOV_E_E => 5,
            opcodes::MOV_E_H => {
                self.cpu.e = self.cpu.h;
                5
            },
            opcodes::MOV_E_L => {
                self.cpu.e = self.cpu.l;
                5
            },
            opcodes::MOV_E_M => {
                self.cpu.e = self.read_m();
                7
            },
            opcodes::MOV_E_A => {
                self.cpu.e = self.cpu.psw.a;
                5
            },
            opcodes::MOV_H_B => {
                self.cpu.h = self.cpu.b;
                5
            },
            opcodes::MOV_H_C => {
                self.cpu.h = self.cpu.c;
                5
            },
            opcodes::MOV_H_D => {
                self.cpu.h = self.cpu.d;
                5
            },
            opcodes::MOV_H_E => {
                self.cpu.h = self.cpu.e;
                5
            },
            opcodes::MOV_H_H => 5,
            opcodes::MOV_H_L => {
                self.cpu.h = self.cpu.l;
                5
            },
            opcodes::MOV_H_M => {
                self.cpu.h = self.read_m();
                7
            },
            opcodes::MOV_H_A => {
                self.cpu.h = self.cpu.psw.a;
                5
            },
            opcodes::MOV_L_B => {
                self.cpu.l = self.cpu.b;
                5
            },
            opcodes::MOV_L_C => {
                self.cpu.l = self.cpu.c;
                5
            },
            opcodes::MOV_L_D => {
                self.cpu.l = self.cpu.d;
                5
            },
            opcodes::MOV_L_E => {
                self.cpu.l = self.cpu.e;
                5
            },
            opcodes::MOV_L_H => {
                self.cpu.l = self.cpu.h;
                5
            },
            opcodes::MOV_L_L => 5,
            opcodes::MOV_L_M => {
                self.cpu.l = self.read_m();
                7
            },
            opcodes::MOV_L_A => {
                self.cpu.l = self.cpu.psw.a;
                5
            },
            opcodes::MOV_M_B => {
                let value: u8 = self.cpu.b;
                self.write_m(value);
                7
            },
            opcodes::MOV_M_C => {
                let value: u8 = self.cpu.c;
                self.write_m(value);
                7
            },
            opcodes::MOV_M_D => {
                let value: u8 = self.cpu.d;
                self.write_m(value);
                7
            },
            opcodes::MOV_M_E => {
                let value: u8 = self.cpu.e;
                self.write_m(value);
                7
            },
            opcodes::MOV_M_H => {
                let value: u8 = self.cpu.h;
                self.write_m(value);
                7
            },
            opcodes::MOV_M_L => {
                let value: u8 = self.cpu.l;
                self.write_m(value);
                7
            },
            opcodes::MOV_M_A => {
                let value: u8 = self.cpu.psw.a;
                self.write_m(value);
                7
            },
            opcodes::MOV_A_B => {
                self.cpu.psw.a = self.cpu.b;
                5
            },
            opcodes::MOV_A_C => {
                self.cpu.psw.a = self.cpu.c;
                5
            },
            opcodes::MOV_A_D => {
                self.cpu.psw.a = self.cpu.d;
                5
            },
            opcodes::MOV_A_E => {
                self.cpu.psw.a = self.cpu.e;
                5
            },
            opcodes::MOV_A_H => {
                self.cpu.psw.a = self.cpu.h;
                5
            },
            opcodes::MOV_A_L => {
                self.cpu.psw.a = self.cpu.l;
                5
            },
            opcodes::MOV_A_M => {
                self.cpu.psw.a = self.read_m();
                7
            },
            _ => vstd::pervasive::unreached(),
        }
    }

    /// Executes one of the opcodes 0x80 to 0x9f: the additions to and the
    /// subtractions from the accumulator of a register or a memory byte.
    /// Returns the cycles it took.
    #[verifier::rlimit(50)]
    fn step_arithmetic(&mut self, op: u8) -> (cycles: u8)
        requires
            old(self).wf(),
            0x80 <= op < 0xa0,
        ensures
            final(self).wf(),
            final(self)@ == old(self)@.execute_alu(op).machine,
            cycles == old(self)@.execute_alu(op).cycles,
            4 <= cycles <= 18,
    {
        match op {
            opcodes::ADD_B => {
                let value: u8 = self.cpu.b;
                self.cpu.add(value, 0);
                4
            },
            opcodes::ADD_C => {
                let value: u8 = self.cpu.c;
                self.cpu.add(value, 0);
                4
            },
            opcodes::ADD_D => {
                let value: u8 = self.cpu.d;
                self.cpu.add(value, 0);
                4
            },
            opcodes::ADD_E => {
                let value: u8 = self.cpu.e;
                self.cpu.add(value, 0);
                4
            },
            opcodes::ADD_H => {
                let value: u8 = self.cpu.h;
                self.cpu.add(value, 0);
                4
            },
            opcodes::ADD_L => {
                let value: u8 = self.cpu.l;
                self.cpu.add(value, 0);
                4
            },
            opcodes::ADD_M => {
                let value: u8 = self.read_m();
                self.cpu.add(value, 0);
                7
            },
            opcodes::ADD_A => {
                let value: u8 = self.cpu.psw.a;
                self.cpu.add(value, 0);
                4
            },
            opcodes::ADC_B => {
                let value: u8 = self.cpu.b;
                let carry: u16 = Psw::to_u8(self.cpu.psw.carry);
                self.cpu.add(value, carry);
                4
            },
            opcodes::ADC_C => {
                let value: u8 = self.cpu.c;
                let carry: u16 = Psw::to_u8(self.cpu.psw.carry);
                self.cpu.add(value, carry);
                4
            },
            opcodes::ADC_D => {
                let value: u8 = self.cpu.d;
                let carry: u16 = Psw::to_u8(self.cpu.psw.carry);
                self.cpu.add(value, carry);
                4
            },
            opcodes::ADC_E => {
                let value: u8 = self.cpu.e;
                let carry: u16 = Psw::to_u8(self.cpu.psw.carry);
                self.cpu.add(value, carry);
                4
            },
            opcodes::ADC_H => {
                let value: u8 = self.cpu.h;
                let carry: u16 = Psw::to_u8(self.cpu.psw.carry);
                self.cpu.add(value, carry);
                4
            },
            opcodes::ADC_L => {
                let value: u8 = self.cpu.l;
                let carry: u16 = Psw::to_u8(self.cpu.psw.carry);
                self.cpu.add(value, carry);
                4
            },
            opcodes::ADC_M => {
                let value: u8 = self.read_m();
                let carry: u16 = Psw::to_u8(self.cpu.psw.carry);
                self.cpu.add(value, carry);
                7
            },
            opcodes::ADC_A => {
                let value: u8 = self.cpu.psw.a;
                let carry: u16 = Psw::to_u8(self.cpu.psw.carry);
                self.cpu.add(value, carry);
                4
            },
            opcodes::SUB_B => {
                let value: u8 = self.cpu.b;
                self.cpu.sub(value, 0);
                4
            },
            opcodes::SUB_C => {
                let value: u8 = self.cpu.c;
                self.cpu.sub(value, 0);
                4
            },
            opcodes::SUB_D => {
                let value: u8 = self.cpu.d;
                self.cpu.sub(value, 0);
                4
            },
            opcodes::SUB_E => {
                let value: u8 = self.cpu.e;
                self.cpu.sub(value, 0);
                4
            },
            opcodes::SUB_H => {
                let value: u8 = self.cpu.h;
                self.cpu.sub(value, 0);
                4
            },
            opcodes::SUB_L => {
                let value: u8 = self.cpu.l;
                self.cpu.sub(value, 0);
                4
            },
            opcodes::SUB_M => {
                let value: u8 = self.read_m();
                self.cpu.sub(value, 0);
                7
            },
            opcodes::SUB_A => {
                let value: u8 = self.cpu.psw.a;
                self.cpu.sub(value, 0);
                4
            },
            opcodes::SBB_B => {
                let value: u8 = self.cpu.b;
                let carry: u16 = Psw::to_u8(self.cpu.psw.carry);
                self.cpu.sub(value, carry);
                4
            },
            opcodes::SBB_C => {
                let value: u8 = self.cpu.c;
                let carry: u16 = Psw::to_u8(self.cpu.psw.carry);
                self.cpu.sub(value, carry);
                4
            },
            opcodes::SBB_D => {
                let value: u8 = self.cpu.d;
                let carry: u16 = Psw::to_u8(self.cpu.psw.carry);
                self.cpu.sub(value, carry);
                4
            },
            opcodes::SBB_E => {
                let value: u8 = self.cpu.e;
                let carry: u16 = Psw::to_u8(self.cpu.psw.carry);
                self.cpu.sub(value, carry);
                4
            },
            opcodes::SBB_H => {
                let value: u8 = self.cpu.h;
                let carry: u16 = Psw::to_u8(self.cpu.psw.carry);
                self.cpu.sub(value, carry);
                4
            },
            opcodes::SBB_L => {
                let value: u8 = self.cpu.l;
                let carry: u16 = Psw::to_u8(self.cpu.psw.carry);
                self.cpu.sub(value, carry);
                4
            },
            opcodes::SBB_M => {
                let value: u8 = self.read_m();
                let carry: u16 = Psw::to_u8(self.cpu.psw.carry);
                self.cpu.sub(value, carry);
                7
            },
            opcodes::SBB_A => {
                let value: u8 = self.cpu.psw.a;
                let carry: u16 = Psw::to_u8(self.cpu.psw.carry);
                self.cpu.sub(value, carry);
                4
            },
            _ => vstd::pervasive::unreached(),
        }
    }

    /// Executes one of the opcodes 0xa0 to 0xbf: and, xor, or and the
    /// comparison of the accumulator with a register or a memory byte.
    /// Returns the cycles it took.
    #[verifier::rlimit(50)]
    fn step_logic(&mut self, op: u8) -> (cycles: u8)
        requires
            old(self).wf(),
            0xa0 <= op < 0xc0,
        ensures
            final(self).wf(),
            final(self)@ == old(self)@.execute_alu(op).machine,
            cycles == old(self)@.execute_alu(op).cycles,
            4 <= cycles <= 18,
    {
        match op {
            opcodes::ANA_B => {
                let value: u8 = self.cpu.b;
                self.cpu.psw.a = self.cpu.and(value);
                4
            },
            opcodes::ANA_C => {
                let value: u8 = self.cpu.c;
                self.cpu.psw.a = self.cpu.and(value);
                4
            },
            opcodes::ANA_D => {
                let value: u8 = self.cpu.d;
                self.cpu.psw.a = self.cpu.and(value);
                4
            },
            opcodes::ANA_E => {
                let value: u8 = self.cpu.e;
                self.cpu.psw.a = self.cpu.and(value);
                4
            },
            opcodes::ANA_H => {
                let value: u8 = self.cpu.h;
                self.cpu.psw.a = self.cpu.and(value);
                4
            },
            opcodes::ANA_L => {
                let value: u8 = self.cpu.l;
                self.cpu.psw.a = self.cpu.and(value);
                4
            },
            opcodes::ANA_M => {
                let value: u8 = self.read_m();
                self.cpu.psw.a = self.cpu.and(value);
                7
            },
            opcodes::ANA_A => {
                let value: u8 = self.cpu.psw.a;
                self.cpu.psw.a = self.cpu.and(value);
                4
            },
            opcodes::XRA_B => {
                let value: u8 = self.cpu.b;
                self.cpu.psw.a = self.cpu.xra(value);
                4
            },
            opcodes::XRA_C => {
                let value: u8 = self.cpu.c;
                self.cpu.psw.a = self.cpu.xra(value);
                4
            },
            opcodes::XRA_D => {
                let value: u8 = self.cpu.d;
                self.cpu.psw.a = self.cpu.xra(value);
                4
            },
            opcodes::XRA_E => {
                let value: u8 = self.cpu.e;
                self.cpu.psw.a = self.cpu.xra(value);
                4
            },
            opcodes::XRA_H => {
                let value: u8 = self.cpu.h;
                self.cpu.psw.a = self.cpu.xra(value);
                4
            },
            opcodes::XRA_L => {
                let value: u8 = self.cpu.l;
                self.cpu.psw.a = self.cpu.xra(value);
                4
            },
            opcodes::XRA_M => {
                let value: u8 = self.read_m();
                self.cpu.psw.a = self.cpu.xra(value);
                7
            },
            opcodes::XRA_A => {
                let value: u8 = self.cpu.psw.a;
                self.cpu.psw.a = self.cpu.xra(value);
                4
            },
            opcodes::ORA_B => {
                let value: u8 = self.cpu.b;
                self.cpu.psw.a = self.cpu.or(value);
                4
            },
            opcodes::ORA_C => {
                let value: u8 = self.cpu.c;
                self.cpu.psw.a = self.cpu.or(value);
                4
            },
            opcodes::ORA_D => {
                let value: u8 = self.cpu.d;
                self.cpu.psw.a = self.cpu.or(value);
                4
            },
            opcodes::ORA_E => {
                let value: u8 = self.cpu.e;
                self.cpu.psw.a = self.cpu.or(value);
                4
            },
            opcodes::ORA_H => {
                let value: u8 = self.cpu.h;
                self.cpu.psw.a = self.cpu.or(value);
                4
            },
            opcodes::ORA_L => {
                let value: u8 = self.cpu.l;
                self.cpu.psw.a = self.cpu.or(value);
                4
            },
            opcodes::ORA_M => {
                let value: u8 = self.read_m();
                self.cpu.psw.a = self.cpu.or(value);
                7
            },
            opcodes::ORA_A => {
                let value: u8 = self.cpu.psw.a;
                self.cpu.psw.a = self.cpu.or(value);
                4
            },
            opcodes::CMP_B => {
                let value: u8 = self.cpu.b;
                self.cpu.cmp(value);
                4
            },
            opcodes::CMP_C => {
                let value: u8 = self.cpu.c;
                self.cpu.cmp(value);
                4
            },
            opcodes::CMP_D => {
                let value: u8 = self.cpu.d;
                self.cpu.cmp(value);
                4
            },
            opcodes::CMP_E => {
                let value: u8 = self.cpu.e;
                self.cpu.cmp(value);
                4
            },
            opcodes::CMP_H => {
                let value: u8 = self.cpu.h;
                self.cpu.cmp(value);
                4
            },
            opcodes::CMP_L => {
                let value: u8 = self.cpu.l;
                self.cpu.cmp(value);
                4
            },
            opcodes::CMP_M => {
                let value: u8 = self.read_m();
                self.cpu.cmp(value);
                7
            },
            opcodes::CMP_A => {
                let value: u8 = self.cpu.psw.a;
                self.cpu.cmp(value);
                4
            },
            _ => vstd::pervasive::unreached(),
        }
    }

    /// Executes one of the opcodes 0xc0 to 0xdf: the jumps, calls and
    /// returns on zero and carry, `POP` and `PUSH` of BC and DE, the
    /// additions and subtractions of an immediate byte, `IN` and `OUT`.
    /// Returns whether it set the program counter, the cycles it took and
    /// what it reports.
    #[verifier::rlimit(50)]
    fn step_control_low(
        &mut self,
        shared: &mut SharedState,
        op: u8,
        byte1: u8,
        byte2: u8,
    ) -> (outcome: (bool, u8, StepStatus))
        requires
            old(self).wf(),
            0xc0 <= op < 0xe0,
            is_supported(op),
            op == opcodes::IN ==> 1 <= byte1 <= 3,
        ensures
            final(self).wf(),
            final(self)@ == old(self)@.execute_control(old(shared)@, op, byte1, byte2).machine,
            final(shared)@ == old(self)@.execute_control(old(shared)@, op, byte1, byte2).ports,
            outcome.0 == old(self)@.execute_control(old(shared)@, op, byte1, byte2).jumped,
            outcome.1 == old(self)@.execute_control(old(shared)@, op, byte1, byte2).cycles,
            outcome.2.reports(old(self)@.execute_control(old(shared)@, op, byte1, byte2).signal),
            4 <= outcome.1 <= 18,
    {
        let word: usize = Memory::to_word(byte1, byte2);
        let mut pc_was_assigned: bool = false;
        let mut status: StepStatus = StepStatus::Continue;
        match op {
            opcodes::RNZ => {
                let flag: bool = !self.cpu.psw.zero;
                pc_was_assigned = self.cpu.ret(&self.memory, flag);
                let cycles: u8 = if pc_was_assigned {
                    11
                } else {
                    5
                };
                (pc_was_assigned, cycles, status)
            },
            opcodes::POP_B => {
                let (low, high): (u8, u8) = self.pop();
                self.cpu.c = low;
                self.cpu.b = high;
                (pc_was_assigned, 10, status)
            },
            opcodes::JNZ => {
                let flag: bool = !self.cpu.psw.zero;
                pc_was_assigned = self.cpu.jump_if_flag(word, flag);
                (pc_was_assigned, 10, status)
            },
            opcodes::JMP => {
                self.cpu.pc = word;
                pc_was_assigned = true;
                (pc_was_assigned, 10, status)
            },
            opcodes::CNZ => {
                if !self.cpu.psw.zero {
                    self.cpu.call(&mut self.memory, word);
                    pc_was_assigned = true;
                }
                let cycles: u8 = if pc_was_assigned {
                    17
                } else {
                    11
                };
                (pc_was_assigned, cycles, status)
            },
            opcodes::PUSH_B => {
                self.push(self.cpu.b, self.cpu.c);
                (pc_was_assigned, 11, status)
            },
            opcodes::ADI => {
                self.cpu.add(byte1, 0);
                (pc_was_assigned, 7, status)
            },
            opcodes::RZ => {
                let flag: bool = self.cpu.psw.zero;
                pc_was_assigned = self.cpu.ret(&self.memory, flag);
                let cycles: u8 = if pc_was_assigned {
                    11
                } else {
                    5
                };
                (pc_was_assigned, cycles, status)
            },
            opcodes::RET => {
                pc_was_assigned = self.cpu.ret(&self.memory, true);
                (pc_was_assigned, 10, status)
            },
            opcodes::JZ => {
                let flag: bool = self.cpu.psw.zero;
                pc_was_assigned = self.cpu.jump_if_flag(word, flag);
                (pc_was_assigned, 10, status)
            },
            opcodes::CZ => {
                if self.cpu.psw.zero {
                    self.cpu.call(&mut self.memory, word);
                    pc_was_assigned = true;
                }
                let cycles: u8 = if pc_was_assigned {
                    17
                } else {
                    11
                };
                (pc_was_assigned, cycles, status)
            },
            opcodes::CALL => {
                let message: usize = Memory::to_word(self.cpu.e, self.cpu.d);
                let reports: bool = self.self_test && word == 5 && self.cpu.c == 9;
                if reports && message == SELF_TEST_SUCCESS {
                    status = StepStatus::Success(success_message());
                } else if reports && message == SELF_TEST_FAILURE {
                    status = StepStatus::Failure(failure_message(self.failing_call()));
                } else {
                    self.cpu.call(&mut self.memory, word);
                    pc_was_assigned = true;
                }
                (pc_was_assigned, 17, status)
            },
            opcodes::ACI => {
                let carry: u16 = Psw::to_u8(self.cpu.psw.carry);
                self.cpu.add(byte1, carry);
                (pc_was_assigned, 7, status)
            },
            opcodes::RST_1 => {
                self.cpu.call_from(&mut self.memory, 8, 2);
                pc_was_assigned = true;
                (pc_was_assigned, 11, status)
            },
            opcodes::RNC => {
                let flag: bool = !self.cpu.psw.carry;
                pc_was_assigned = self.cpu.ret(&self.memory, flag);
                let cycles: u8 = if pc_was_assigned {
                    11
                } else {
                    5
                };
                (pc_was_assigned, cycles, status)
            },
            opcodes::POP_D => {
                let (low, high): (u8, u8) = self.pop();
                self.cpu.e = low;
                self.cpu.d = high;
                (pc_was_assigned, 10, status)
            },
            opcodes::JNC => {
                let flag: bool = !self.cpu.psw.carry;
                pc_was_assigned = self.cpu.jump_if_flag(word, flag);
                (pc_was_assigned, 10, status)
            },
            opcodes::OUT => {
                let a: u8 = self.cpu.psw.a;
                match byte1 {
                    2 => {
                        self.shift_register_offset = a % 8;
                    },
                    3 => {
                        shared.set_out_3(a);
                    },
                    4 => {
                        self.shift_register = u16::from(a) * 256 + self.shift_register / 256;
                    },
                    5 => {
                        shared.set_out_5(a);
                    },
                    _ => {
                        // port 6 is the watchdog; nothing listens on the others
                    },
                }
                (pc_was_assigned, 10, status)
            },
            opcodes::CNC => {
                if !self.cpu.psw.carry {
                    self.cpu.call(&mut self.memory, word);
                    pc_was_assigned = true;
                }
                let cycles: u8 = if pc_was_assigned {
                    17
                } else {
                    11
                };
                (pc_was_assigned, cycles, status)
            },
            opcodes::PUSH_D => {
                self.push(self.cpu.d, self.cpu.e);
                (pc_was_assigned, 11, status)
            },
            opcodes::SUI => {
                self.cpu.sub(byte1, 0);
                (pc_was_assigned, 7, status)
            },
            opcodes::RST_2 => {
                self.cpu.call_from(&mut self.memory, 16, 2);
                pc_was_assigned = true;
                (pc_was_assigned, 11, status)
            },
            opcodes::RC => {
                let flag: bool = self.cpu.psw.carry;
                pc_was_assigned = self.cpu.ret(&self.memory, flag);
                let cycles: u8 = if pc_was_assigned {
                    11
                } else {
                    5
                };
                (pc_was_assigned, cycles, status)
            },
            opcodes::JC => {
                let flag: bool = self.cpu.psw.carry;
                pc_was_assigned = self.cpu.jump_if_flag(word, flag);
                (pc_was_assigned, 10, status)
            },
            opcodes::IN => {
                match byte1 {
                    1 => {
                        self.cpu.psw.a = shared.get_in_1();
                    },
                    2 => {
                        self.cpu.psw.a = shared.get_in_2();
                    },
                    _ => {
                        self.cpu.psw.a = self.read_shift_register();
                    },
                }
                (pc_was_assigned, 10, status)
            },
            opcodes::CC => {
                if self.cpu.psw.carry {
                    self.cpu.call(&mut self.memory, word);
                    pc_was_assigned = true;
                }
                let cycles: u8 = if pc_was_assigned {
                    17
                } else {
                    11
                };
                (pc_was_assigned, cycles, status)
            },
            opcodes::SBI => {
                let carry: u16 = Psw::to_u8(self.cpu.psw.carry);
                self.cpu.sub(byte1, carry);
                (pc_was_assigned, 7, status)
            },
            _ => vstd::pervasive::unreached(),
        }
    }

    /// Executes one of the opcodes 0xe0 to 0xff: the jumps, calls and
    /// returns on parity and sign, `POP` and `PUSH` of HL and of the
    /// accumulator with the flags, the logic operations and the comparison
    /// with an immediate byte, the exchanges, and the interrupt switch.
    /// Returns whether it set the program counter and the cycles it took.
    #[verifier::rlimit(50)]
    fn step_control_high(
        &mut self,
        shared: &SharedState,
        op: u8,
        byte1: u8,
        byte2: u8,
    ) -> (outcome: (bool, u8))
        requires
            old(self).wf(),
            0xe0 <= op,
            is_supported(op),
        ensures
            final(self).wf(),
            final(self)@ == old(self)@.execute_control(shared@, op, byte1, byte2).machine,
            shared@ == old(self)@.execute_control(shared@, op, byte1, byte2).ports,
            outcome.0 == old(self)@.execute_control(shared@, op, byte1, byte2).jumped,
            outcome.1 == old(self)@.execute_control(shared@, op, byte1, byte2).cycles,
            old(self)@.execute_control(shared@, op, byte1, byte2).signal is Continue,
            4 <= outcome.1 <= 18,
    {
        let word: usize = Memory::to_word(byte1, byte2);
        let mut pc_was_assigned: bool = false;
        match op {
            opcodes::RPO => {
                let flag: bool = !self.cpu.psw.parity;
                pc_was_assigned = self.cpu.ret(&self.memory, flag);
                let cycles: u8 = if pc_was_assigned {
                    11
                } else {
                    5
                };
                (pc_was_assigned, cycles)
            },
            opcodes::POP_H => {
                let (low, high): (u8, u8) = self.pop();
                self.cpu.l = low;
                self.cpu.h = high;
                (pc_was_assigned, 10)
            },
            opcodes::JPO => {
                let flag: bool = !self.cpu.psw.parity;
                pc_was_assigned = self.cpu.jump_if_flag(word, flag);
                (pc_was_assigned, 10)
            },
            opcodes::XTHL => {
                let low: u8 = self.memory.read(self.cpu.sp);
                let high: u8 = self.memory.read(address_after(self.cpu.sp, 1));
                self.memory.write(self.cpu.sp, self.cpu.l);
                self.memory.write(address_after(self.cpu.sp, 1), self.cpu.h);
                self.cpu.l = low;
                self.cpu.h = high;
                (pc_was_assigned, 18)
            },
            opcodes::CPO => {
                if !self.cpu.psw.parity {
                    self.cpu.call(&mut self.memory, word);
                    pc_was_assigned = true;
                }
                let cycles: u8 = if pc_was_assigned {
                    17
                } else {
                    11
                };
                (pc_was_assigned, cycles)
            },
            opcodes::PUSH_H => {
                self.push(self.cpu.h, self.cpu.l);
                (pc_was_assigned, 11)
            },
            opcodes::ANI => {
                self.cpu.psw.a = self.cpu.and(byte1);
                (pc_was_assigned, 7)
            },
            opcodes::RPE => {
                let flag: bool = self.cpu.psw.parity;
                pc_was_assigned = self.cpu.ret(&self.memory, flag);
                let cycles: u8 = if pc_was_assigned {
                    11
                } else {
                    5
                };
                (pc_was_assigned, cycles)
            },
            opcodes::PCHL => {
                self.cpu.pc = self.cpu.m();
                pc_was_assigned = true;
                (pc_was_assigned, 5)
            },
            opcodes::JPE => {
                let flag: bool = self.cpu.psw.parity;
                pc_was_assigned = self.cpu.jump_if_flag(word, flag);
                (pc_was_assigned, 10)
            },
            opcodes::XCHG => {
                let h: u8 = self.cpu.h;
                self.cpu.h = self.cpu.d;
                self.cpu.d = h;
                let l: u8 = self.cpu.l;
                self.cpu.l = self.cpu.e;
                self.cpu.e = l;
                (pc_was_assigned, 4)
            },
            opcodes::CPE => {
                if self.cpu.psw.parity {
                    self.cpu.call(&mut self.memory, word);
                    pc_was_assigned = true;
                }
                let cycles: u8 = if pc_was_assigned {
                    17
                } else {
                    11
                };
                (pc_was_assigned, cycles)
            },
            opcodes::XRI => {
                self.cpu.psw.a = self.cpu.xra(byte1);
                (pc_was_assigned, 7)
            },
            opcodes::RP => {
                let flag: bool = !self.cpu.psw.sign;
                pc_was_assigned = self.cpu.ret(&self.memory, flag);
                let cycles: u8 = if pc_was_assigned {
                    11
                } else {
                    5
                };
                (pc_was_assigned, cycles)
            },
            opcodes::POP_PSW => {
                let (low, high): (u8, u8) = self.pop();
                self.cpu.psw.set_flags(low);
                self.cpu.psw.a = high;
                (pc_was_assigned, 10)
            },
            opcodes::JP => {
                let flag: bool = !self.cpu.psw.sign;
                pc_was_assigned = self.cpu.jump_if_flag(word, flag);
                (pc_was_assigned, 10)
            },
            opcodes::DI => {
                self.cpu.enable_interrupts = false;
                (pc_was_assigned, 4)
            },
            opcodes::CP => {
                if !self.cpu.psw.sign {
                    self.cpu.call(&mut self.memory, word);
                    pc_was_assigned = true;
                }
                let cycles: u8 = if pc_was_assigned {
                    17
                } else {
                    11
                };
                (pc_was_assigned, cycles)
            },
            opcodes::PUSH_PSW => {
                let flags: u8 = self.flags_byte();
                self.push(self.cpu.psw.a, flags);
                (pc_was_assigned, 11)
            },
            opcodes::ORI => {
                self.cpu.psw.a = self.cpu.or(byte1);
                (pc_was_assigned, 7)
            },
            opcodes::RM => {
                let flag: bool = self.cpu.psw.sign;
                pc_was_assigned = self.cpu.ret(&self.memory, flag);
                let cycles: u8 = if pc_was_assigned {
                    11
                } else {
                    5
                };
                (pc_was_assigned, cycles)
            },
            opcodes::SPHL => {
                self.cpu.sp = self.cpu.m();
                (pc_was_assigned, 5)
            },
            opcodes::JM => {
                let flag: bool = self.cpu.psw.sign;
                pc_was_assigned = self.cpu.jump_if_flag(word, flag);
                (pc_was_assigned, 10)
            },
            opcodes::EI => {
                self.cpu.enable_interrupts = true;
                (pc_was_assigned, 4)
            },
            opcodes::CM => {
                if self.cpu.psw.sign {
                    self.cpu.call(&mut self.memory, word);
                    pc_was_assigned = true;
                }
                let cycles: u8 = if pc_was_assigned {
                    17
                } else {
                    11
                };
                (pc_was_assigned, cycles)
            },
            opcodes::CPI => {
                self.cpu.cmp(byte1);
                (pc_was_assigned, 7)
            },
            opcodes::RST_7 => {
                self.cpu.call_from(&mut self.memory, 56, 2);
                pc_was_assigned = true;
                (pc_was_assigned, 11)
            },
            _ => vstd::pervasive::unreached(),
        }
    }

    /// Executes the instruction at the program counter, unless the machine
    /// is paused, and says how many cycles it took.
    ///
    /// The step has to be one that can be taken: `fault` tells. The last
    /// argument is there for a front end that traces, which gets its lines
    /// from `disassemble`; it does not change what the step does.
    pub fn step(&mut self, shared: &mut SharedState, _verbose: bool) -> (result: StepResult)
        requires
            old(self).wf(),
            old(self)@.can_step(old(shared)@),
        ensures
            final(self).wf(),
            final(self)@ == old(self)@.step(old(shared)@).machine,
            final(shared)@ == old(self)@.step(old(shared)@).ports,
            result.cycles == old(self)@.step(old(shared)@).cycles,
            result.status.reports(old(self)@.step(old(shared)@).signal),
            !(result.status is Paused) ==> 4 <= result.cycles <= 18,
    {
        if shared.is_paused() {
            return StepResult { status: StepStatus::Paused, cycles: 0 };
        }
        let op: u8 = self.memory.read(self.cpu.pc);
        let size: usize = match self.opcodes.get(&op) {
            Some(opcode) => opcode.size,
            None => vstd::pervasive::unreached(),
        };
        let byte1: u8 = self.memory.read(address_after(self.cpu.pc, 1));
        let byte2: u8 = self.memory.read(address_after(self.cpu.pc, 2));
        proof {
            reveal(Machine::execute);
        }
        let (pc_was_assigned, cycles, status): (bool, u8, StepStatus) = if op < 0x40 {
            (false, self.step_transfer(op, byte1, byte2), StepStatus::Continue)
        } else if op < 0x80 {
            (false, self.step_move(op), StepStatus::Continue)
        } else if op < 0xa0 {
            (false, self.step_arithmetic(op), StepStatus::Continue)
        } else if op < 0xc0 {
            (false, self.step_logic(op), StepStatus::Continue)
        } else if op < 0xe0 {
            self.step_control_low(shared, op, byte1, byte2)
        } else {
            let (jumped, cycles): (bool, u8) = self.step_control_high(shared, op, byte1, byte2);
            (jumped, cycles, StepStatus::Continue)
        };
        if !pc_was_assigned {
            self.cpu.pc = address_after(self.cpu.pc, size);
        }
        StepResult { status, cycles }
    }

    /// Steps until `budget` cycles are counted, starting the count at
    /// `cycles`. Stops before a step that cannot be taken and says why.
    fn run_until(
        &mut self,
        shared: &mut SharedState,
        verbose: bool,
        cycles: u64,
        budget: u64,
    ) -> (result: Result<u64, Fault>)
        requires
            old(self).wf(),
            !old(shared)@.paused,
            cycles <= budget + 18,
            budget <= CYCLES_PER_FRAME,
        ensures
            final(self).wf(),
            final(self)@ == old(self)@.run_until(
                old(shared)@,
                cycles as int,
                budget as int,
            ).machine,
            final(shared)@ == old(self)@.run_until(
                old(shared)@,
                cycles as int,
                budget as int,
            ).ports,
            !final(shared)@.paused,
            match result {
                Ok(total) => {
                    &&& total == old(self)@.run_until(
                        old(shared)@,
                        cycles as int,
                        budget as int,
                    ).cycles
                    &&& budget <= total <= budget + 18
                },
                Err(fault) => {
                    &&& old(self)@.run_until(old(shared)@, cycles as int, budget as int).cycles
                        < budget
                    &&& final(self)@.fault(final(shared)@) == Some(fault)
                },
            },
    {
        let mut total: u64 = cycles;
        while total < budget
            invariant
                self.wf(),
                !shared@.paused,
                total <= budget + 18,
                budget <= CYCLES_PER_FRAME,
                self@.run_until(shared@, total as int, budget as int) == old(self)@.run_until(
                    old(shared)@,
                    cycles as int,
                    budget as int,
                ),
            decreases budget + 18 - total,
        {
            match self.fault(shared) {
                Some(fault) => {
                    return Err(fault);
                },
                None => {},
            }
            proof {
                lemma_cycles_of_instruction(self@, shared@);
            }
            let result: StepResult = self.step(shared, verbose);
            total += result.cycles as u64;
        }
        Ok(total)
    }

    /// Runs the program for one video frame: steps up to half the budget of
    /// `CYCLES_PER_FRAME` cycles, raises interrupt 1, steps up to the whole
    /// budget, raises interrupt 2. Returns the cycles that the frame took,
    /// which pass the budget by less than the cycles of one instruction.
    ///
    /// A frame that meets a step that cannot be taken stops there and hands
    /// back the reason. The machine must not be paused: a paused machine
    /// counts no cycles, and the frame would not end. Where the pause switch
    /// may be flipped while a frame runs, `advance_frame` runs the frame
    /// action by action.
    pub fn try_run_one_frame(&mut self, shared: &mut SharedState, verbose: bool) -> (result: Result<
        u64,
        Fault,
    >)
        requires
            old(self).wf(),
            !old(shared)@.paused,
        ensures
            final(self).wf(),
            final(self)@ == old(self)@.frame(old(shared)@).machine,
            final(shared)@ == old(self)@.frame(old(shared)@).ports,
            !final(shared)@.paused,
            match result {
                Ok(cycles) => {
                    &&& old(self)@.frame(old(shared)@).completed
                    &&& cycles == old(self)@.frame(old(shared)@).cycles
                    &&& CYCLES_PER_FRAME <= cycles <= CYCLES_PER_FRAME + 18
                },
                Err(fault) => {
                    &&& !old(self)@.frame(old(shared)@).completed
                    &&& final(self)@.fault(final(shared)@) == Some(fault)
                },
            },
    {
        let half: u64 = match self.run_until(shared, verbose, 0, CYCLES_PER_FRAME / 2) {
            Ok(cycles) => cycles,
            Err(fault) => {
                return Err(fault);
            },
        };
        self.interrupt(1);
        let whole: u64 = match self.run_until(shared, verbose, half, CYCLES_PER_FRAME) {
            Ok(cycles) => cycles,
            Err(fault) => {
                return Err(fault);
            },
        };
        self.interrupt(2);
        Ok(whole)
    }

    /// Runs the program for one video frame and returns the cycles that it
    /// took: at least `CYCLES_PER_FRAME`, and more by less than the cycles of
    /// one instruction.
    ///
    /// Every step of the frame has to be one that can be taken; where that
    /// is not known beforehand, `try_run_one_frame` runs the frame as far
    /// as it goes.
    pub fn run_one_frame(&mut self, shared: &mut SharedState, verbose: bool) -> (cycles: u64)
        requires
            old(self).wf(),
            !old(shared)@.paused,
            old(self)@.frame(old(shared)@).completed,
        ensures
            final(self).wf(),
            final(self)@ == old(self)@.frame(old(shared)@).machine,
            final(shared)@ == old(self)@.frame(old(shared)@).ports,
            cycles == old(self)@.frame(old(shared)@).cycles,
            CYCLES_PER_FRAME <= cycles <= CYCLES_PER_FRAME + 18,
    {
        match self.try_run_one_frame(shared, verbose) {
            Ok(cycles) => cycles,
            Err(_) => vstd::pervasive::unreached(),
        }
    }

    /// Takes the next action of a frame: a step of the interpreter, one of
    /// the two interrupts, or nothing once the frame is over. Returns the
    /// action that it took, or why the step that was due cannot be taken;
    /// then nothing has changed.
    ///
    /// A frame is run by calling this from `FrameProgress::new()` on until
    /// it hands back `Done`. A step of a paused machine counts no cycles:
    /// the frame waits until the pause switch is flipped, which the caller
    /// may do between any two actions.
    pub fn advance_frame(
        &mut self,
        shared: &mut SharedState,
        progress: &mut FrameProgress,
        verbose: bool,
    ) -> (result: Result<FrameAction, Fault>)
        requires
            old(self).wf(),
            old(progress).wf(),
        ensures
            final(self).wf(),
            final(progress).wf(),
            final(self)@ == old(self)@.frame_step(old(shared)@, *old(progress)).machine,
            final(shared)@ == old(self)@.frame_step(old(shared)@, *old(progress)).ports,
            *final(progress) == old(self)@.frame_step(old(shared)@, *old(progress)).progress,
            match result {
                Ok(action) => {
                    &&& action == old(progress).action()
                    &&& action is Step ==> old(self)@.can_step(old(shared)@)
                },
                Err(fault) => {
                    &&& old(progress).action() is Step
                    &&& old(self)@.fault(old(shared)@) == Some(fault)
                },
            },
    {
        let action: FrameAction = progress.next_action();
        match action {
            FrameAction::Step => {
                match self.fault(shared) {
                    Some(fault) => {
                        return Err(fault);
                    },
                    None => {},
                }
                proof {
                    if !shared@.paused {
                        lemma_cycles_of_instruction(self@, shared@);
                    }
                }
                let result: StepResult = self.step(shared, verbose);
                progress.cycles = progress.cycles + result.cycles as u64;
            },
            FrameAction::Interrupt(number) => {
                self.interrupt(number);
                progress.phase = match progress.phase {
                    FramePhase::FirstHalf => FramePhase::SecondHalf,
                    _ => FramePhase::Done,
                };
            },
            FrameAction::Done => {},
        }
        Ok(action)
    }
}

} // verus!
