//! The machine as a mathematical object, and what one instruction does to it.
//!
//! Instructions are described by the bit fields of their opcode, as the
//! processor's manual groups them: a register code in bits 3 to 5 or 0 to 2,
//! a register pair in bits 4 and 5, a condition in bits 3 to 5.

use vstd::prelude::*;
use crate::emulator_state::Ports;
use crate::memory::{high_byte, low_byte, word_of, wrap16, MEMORY_SIZE};
use crate::opcodes::{instruction_length, is_supported};
use crate::state::{flag_bit, Cpu, Psw};
use crate::text::{decimal, hex2, hex4, push_decimal, push_hex2, push_hex4};

verus! {

/// Everything that the interpreter owns.
pub struct Machine {
    pub cpu: Cpu,
    pub memory: Seq<u8>,
    /// The 16-bit shift register behind ports 2, 3 and 4.
    pub shift_register: u16,
    /// How far port 3 reads into the shift register: 0 to 7.
    pub shift_register_offset: u8,
    /// Whether `CALL 5` with C = 9 is taken as a message from a diagnostic
    /// program.
    pub self_test: bool,
}

/// What a step tells its caller besides the cycles it took.
pub enum Signal {
    Continue,
    Paused,
    /// A diagnostic program reports that all its checks passed.
    Success,
    /// A diagnostic program reports a failed check; the value is the
    /// address of the call that reported it.
    Failure(int),
}

/// What an instruction leads to that neither jumps nor touches a port.
pub struct Change {
    pub machine: Machine,
    pub cycles: int,
}

/// What executing one instruction leads to.
pub struct Effect {
    pub machine: Machine,
    pub ports: Ports,
    /// Whether the instruction set the program counter itself.
    pub jumped: bool,
    pub cycles: int,
    pub signal: Signal,
}

/// What one step leads to.
pub struct Outcome {
    pub machine: Machine,
    pub ports: Ports,
    pub signal: Signal,
    pub cycles: int,
}

/// Where a run of steps ended.
pub struct Run {
    pub machine: Machine,
    pub ports: Ports,
    /// The cycles counted so far.
    pub cycles: int,
}

/// What one frame leads to.
pub struct Frame {
    pub machine: Machine,
    pub ports: Ports,
    /// The cycles that the frame took.
    pub cycles: int,
    /// Whether the interrupt in the middle of the frame was taken.
    pub first_interrupt: bool,
    /// Whether the interrupt at the end of the frame was taken.
    pub second_interrupt: bool,
    /// Whether the frame ran to its end. If not, `machine` stands before
    /// the step that it could not take.
    pub completed: bool,
}

/// Where a frame stands.
#[derive(Clone, Copy, Debug, PartialEq, Eq, Structural)]
pub enum FramePhase {
    /// Before the interrupt in the middle of the frame.
    FirstHalf,
    /// Between the two interrupts.
    SecondHalf,
    /// Behind the interrupt at the end of the frame.
    Done,
}

/// What the frame scheduler does next.
#[derive(Clone, Copy, Debug, PartialEq, Eq, Structural)]
pub enum FrameAction {
    /// The interpreter takes a step.
    Step,
    /// The interrupt with this number is raised.
    Interrupt(u8),
    /// The frame is over.
    Done,
}

/// How far a frame has come: its phase and the cycles counted so far.
#[derive(Clone, Copy, Debug, PartialEq, Eq, Structural)]
pub struct FrameProgress {
    pub phase: FramePhase,
    pub cycles: u64,
}

/// What one action of the frame scheduler leads to.
pub struct FrameStep {
    pub machine: Machine,
    pub ports: Ports,
    pub progress: FrameProgress,
}

/// Why the machine cannot take its next step.
#[derive(Clone, Copy, Debug, PartialEq, Eq, Structural)]
pub enum Fault {
    /// The opcode at `pc` is not in the opcode table.
    UnknownOpcode { opcode: u8, pc: usize },
    /// An `IN` instruction names a port that nothing is connected to.
    UnsupportedPort { port: u8 },
    /// The instruction `opcode` at `pc` loads or stores two bytes at the
    /// last address, so that the second byte would lie outside the memory.
    AddressOutOfRange { opcode: u8, pc: usize },
}

impl Fault {
    /// The message that goes with the fault: the opcode and where it stands,
    /// or the port.
    pub open spec fn text(self) -> Seq<char> {
        match self {
            Fault::UnknownOpcode { opcode, pc } => "Couldn't find opcode "@ + hex2(opcode as int)
                + " at pc "@ + hex4(pc as int),
            Fault::UnsupportedPort { port } => "Unsupported IN port: "@ + decimal(port),
            Fault::AddressOutOfRange { opcode, pc } => "Address out of range: opcode "@ + hex2(
                opcode as int,
            ) + " at pc "@ + hex4(pc as int),
        }
    }

    /// The message that goes with the fault.
    pub fn message(&self) -> (message: String)
        requires
            self matches Fault::UnknownOpcode { pc, .. } ==> pc < 0x10000,
            self matches Fault::AddressOutOfRange { pc, .. } ==> pc < 0x10000,
        ensures
            message@ == self.text(),
    {
        match self {
            Fault::UnknownOpcode { opcode, pc } => {
                let mut message: String = String::from_str("Couldn't find opcode ");
                push_hex2(&mut message, *opcode);
                message.append(" at pc ");
                push_hex4(&mut message, *pc);
                message
            },
            Fault::UnsupportedPort { port } => {
                let mut message: String = String::from_str("Unsupported IN port: ");
                push_decimal(&mut message, *port);
                message
            },
            Fault::AddressOutOfRange { opcode, pc } => {
                let mut message: String = String::from_str("Address out of range: opcode ");
                push_hex2(&mut message, *opcode);
                message.append(" at pc ");
                push_hex4(&mut message, *pc);
                message
            },
        }
    }
}

/// The cycles that the processor runs through in one frame: a clock of 2 MHz
/// at 60 frames per second.
pub const CYCLES_PER_FRAME: u64 = 2_000_000 / 60;

impl FrameProgress {
    /// The count has not run away: it passes the budget by less than the
    /// cycles of one instruction.
    pub open spec fn wf(self) -> bool {
        self.cycles <= CYCLES_PER_FRAME + 18
    }

    /// What to do next: steps up to half the budget, interrupt 1, steps up
    /// to the whole budget, interrupt 2, and then nothing more.
    pub open spec fn action(self) -> FrameAction {
        match self.phase {
            FramePhase::FirstHalf => if self.cycles < CYCLES_PER_FRAME / 2 {
                FrameAction::Step
            } else {
                FrameAction::Interrupt(1)
            },
            FramePhase::SecondHalf => if self.cycles < CYCLES_PER_FRAME {
                FrameAction::Step
            } else {
                FrameAction::Interrupt(2)
            },
            FramePhase::Done => FrameAction::Done,
        }
    }

    /// The progress behind an interrupt: the next phase, the count as it
    /// was.
    pub open spec fn after_interrupt(self) -> FrameProgress {
        match self.phase {
            FramePhase::FirstHalf => FrameProgress { phase: FramePhase::SecondHalf, ..self },
            _ => FrameProgress { phase: FramePhase::Done, ..self },
        }
    }

    /// The start of a frame.
    pub fn new() -> (progress: FrameProgress)
        ensures
            progress == (FrameProgress { phase: FramePhase::FirstHalf, cycles: 0 }),
            progress.wf(),
    {
        FrameProgress { phase: FramePhase::FirstHalf, cycles: 0 }
    }

    /// What to do next.
    pub fn next_action(&self) -> (action: FrameAction)
        ensures
            action == self.action(),
    {
        match self.phase {
            FramePhase::FirstHalf => if self.cycles < CYCLES_PER_FRAME / 2 {
                FrameAction::Step
            } else {
                FrameAction::Interrupt(1)
            },
            FramePhase::SecondHalf => if self.cycles < CYCLES_PER_FRAME {
                FrameAction::Step
            } else {
                FrameAction::Interrupt(2)
            },
            FramePhase::Done => FrameAction::Done,
        }
    }
}

/// The address that a diagnostic program points DE at to report success.
pub const SELF_TEST_SUCCESS: usize = 0x174;

/// The address that a diagnostic program points DE at to report failure.
pub const SELF_TEST_FAILURE: usize = 0x18b;

/// What port 3 reads: the eight bits of the shift register that start
/// `offset` bits below its top.
#[verifier::opaque]
pub open spec fn shift_result(shift_register: u16, offset: u8) -> int
    recommends
        offset < 8,
{
    let divisor: int = if offset == 0 {
        256
    } else if offset == 1 {
        128
    } else if offset == 2 {
        64
    } else if offset == 3 {
        32
    } else if offset == 4 {
        16
    } else if offset == 5 {
        8
    } else if offset == 6 {
        4
    } else {
        2
    };
    (shift_register as int / divisor) % 256
}

/// The result of one of the eight accumulator operations on an operand: add,
/// add with carry, subtract, subtract with borrow, and, xor, or, compare,
/// numbered as in bits 3 to 5 of the opcode.
pub open spec fn alu(cpu: Cpu, operation: int, value: u8) -> Cpu {
    if operation == 0 {
        cpu.after_add(value, 0)
    } else if operation == 1 {
        cpu.after_add(value, flag_bit(cpu.psw.carry))
    } else if operation == 2 {
        cpu.after_sub(value, 0)
    } else if operation == 3 {
        cpu.after_sub(value, flag_bit(cpu.psw.carry))
    } else if operation == 4 {
        let result = cpu.psw.a & value;
        let flagged = cpu.with_flags_of(result);
        Cpu { psw: Psw { a: result, ..flagged.psw }, ..flagged }
    } else if operation == 5 {
        let result = cpu.psw.a ^ value;
        let flagged = cpu.with_flags_of(result);
        Cpu { psw: Psw { a: result, ..flagged.psw }, ..flagged }
    } else if operation == 6 {
        let result = cpu.psw.a | value;
        let flagged = cpu.with_flags_of(result);
        Cpu { psw: Psw { a: result, ..flagged.psw }, ..flagged }
    } else {
        cpu.after_compare(value)
    }
}

/// Cycles of a move: 7 where memory is read or written, 5 between
/// registers.
pub open spec fn move_cycles(destination: int, source: int) -> int {
    if destination == 6 || source == 6 {
        7
    } else {
        5
    }
}

impl Machine {
    /// The byte at `address`.
    pub open spec fn byte_at(self, address: int) -> u8 {
        self.memory[address]
    }

    /// This machine with `value` stored at `address`.
    pub open spec fn store(self, address: int, value: u8) -> Machine {
        Machine { memory: self.memory.update(address, value), ..self }
    }

    /// This machine with another processor state.
    pub open spec fn with_cpu(self, cpu: Cpu) -> Machine {
        Machine { cpu, ..self }
    }

    /// The 8-bit operand with code `r`: B, C, D, E, H, L, the memory byte
    /// that HL points to, A.
    pub open spec fn operand(self, r: int) -> u8 {
        if r == 0 {
            self.cpu.b
        } else if r == 1 {
            self.cpu.c
        } else if r == 2 {
            self.cpu.d
        } else if r == 3 {
            self.cpu.e
        } else if r == 4 {
            self.cpu.h
        } else if r == 5 {
            self.cpu.l
        } else if r == 6 {
            self.memory[self.cpu.hl()]
        } else {
            self.cpu.psw.a
        }
    }

    /// This machine with `value` in the 8-bit operand with code `r`.
    pub open spec fn with_operand(self, r: int, value: u8) -> Machine {
        if r == 0 {
            self.with_cpu(Cpu { b: value, ..self.cpu })
        } else if r == 1 {
            self.with_cpu(Cpu { c: value, ..self.cpu })
        } else if r == 2 {
            self.with_cpu(Cpu { d: value, ..self.cpu })
        } else if r == 3 {
            self.with_cpu(Cpu { e: value, ..self.cpu })
        } else if r == 4 {
            self.with_cpu(Cpu { h: value, ..self.cpu })
        } else if r == 5 {
            self.with_cpu(Cpu { l: value, ..self.cpu })
        } else if r == 6 {
            Machine { memory: self.memory.update(self.cpu.hl(), value), ..self }
        } else {
            self.with_cpu(Cpu { psw: Psw { a: value, ..self.cpu.psw }, ..self.cpu })
        }
    }

    /// The register pair with code `rp`: BC, DE, HL, SP.
    pub open spec fn pair(self, rp: int) -> int {
        if rp == 0 {
            word_of(self.cpu.c, self.cpu.b)
        } else if rp == 1 {
            word_of(self.cpu.e, self.cpu.d)
        } else if rp == 2 {
            word_of(self.cpu.l, self.cpu.h)
        } else {
            self.cpu.sp as int
        }
    }

    /// This machine with the bytes `high` and `low` in the register pair
    /// with code `rp`.
    pub open spec fn with_pair_bytes(self, rp: int, high: u8, low: u8) -> Machine {
        if rp == 0 {
            self.with_cpu(Cpu { b: high, c: low, ..self.cpu })
        } else if rp == 1 {
            self.with_cpu(Cpu { d: high, e: low, ..self.cpu })
        } else if rp == 2 {
            self.with_cpu(Cpu { h: high, l: low, ..self.cpu })
        } else {
            self.with_cpu(Cpu { sp: word_of(low, high) as usize, ..self.cpu })
        }
    }

    /// This machine with the 16-bit `value` in the register pair with code
    /// `rp`.
    pub open spec fn with_pair(self, rp: int, value: int) -> Machine {
        if rp == 3 {
            self.with_cpu(Cpu { sp: value as usize, ..self.cpu })
        } else {
            self.with_pair_bytes(rp, high_byte(value) as u8, low_byte(value) as u8)
        }
    }

    /// Whether the condition with code `cc` holds: not zero, zero, no carry,
    /// carry, parity odd, parity even, plus, minus.
    pub open spec fn condition(self, cc: int) -> bool {
        if cc == 0 {
            !self.cpu.psw.zero
        } else if cc == 1 {
            self.cpu.psw.zero
        } else if cc == 2 {
            !self.cpu.psw.carry
        } else if cc == 3 {
            self.cpu.psw.carry
        } else if cc == 4 {
            !self.cpu.psw.parity
        } else if cc == 5 {
            self.cpu.psw.parity
        } else if cc == 6 {
            !self.cpu.psw.sign
        } else {
            self.cpu.psw.sign
        }
    }

    /// This machine after the bytes `high` and `low` were pushed on the
    /// stack.
    pub open spec fn pushed(self, high: u8, low: u8) -> Machine {
        Machine {
            memory: self.memory.update(wrap16(self.cpu.sp - 1), high).update(
                wrap16(self.cpu.sp - 2),
                low,
            ),
            cpu: Cpu { sp: wrap16(self.cpu.sp - 2) as usize, ..self.cpu },
            ..self
        }
    }

    /// This machine after a call to `target` by an instruction of `length`
    /// bytes: the address of the instruction behind it is pushed and the
    /// program counter is at `target`.
    pub open spec fn called(self, target: int, length: int) -> Machine {
        Machine {
            memory: self.cpu.pushed(self.memory, self.cpu.return_address(length)),
            cpu: Cpu { sp: wrap16(self.cpu.sp - 2) as usize, pc: target as usize, ..self.cpu },
            ..self
        }
    }

    /// This machine after a return: the program counter is popped off the
    /// stack.
    pub open spec fn returned(self) -> Machine {
        self.with_cpu(
            Cpu {
                pc: self.cpu.stack_top(self.memory) as usize,
                sp: wrap16(self.cpu.sp + 2) as usize,
                ..self.cpu
            },
        )
    }

    /// This machine after interrupt `number` was raised. Nothing happens
    /// while interrupts are disabled. Otherwise they are disabled, the
    /// program counter is pushed, and the program goes on at `number * 8`.
    pub open spec fn interrupted(self, number: u8) -> Machine {
        if self.cpu.enable_interrupts {
            Machine {
                memory: self.cpu.pushed(self.memory, self.cpu.pc as int),
                cpu: Cpu {
                    sp: wrap16(self.cpu.sp - 2) as usize,
                    pc: (number * 8) as usize,
                    enable_interrupts: false,
                    ..self.cpu
                },
                ..self
            }
        } else {
            self
        }
    }

    /// An instruction that changed the machine and took `cycles`.
    pub open spec fn taking(self, cycles: int) -> Change {
        Change { machine: self, cycles }
    }

    /// An instruction that changed the machine, did not jump and took
    /// `cycles`.
    pub open spec fn done(self, ports: Ports, cycles: int) -> Effect {
        Effect { machine: self, ports, jumped: false, cycles, signal: Signal::Continue }
    }

    /// An instruction that set the program counter and took `cycles`.
    pub open spec fn jumped(self, ports: Ports, cycles: int) -> Effect {
        Effect { machine: self, ports, jumped: true, cycles, signal: Signal::Continue }
    }

    /// Opcodes 0x00 to 0x3f: loads and stores, 16-bit arithmetic, increment
    /// and decrement, rotates and the flag instructions. `SHLD` and `LHLD`
    /// move two bytes at the address `word` and the one behind it.
    pub open spec fn execute_transfer(self, op: u8, byte1: u8, byte2: u8) -> Change {
        let word = word_of(byte1, byte2);
        let rp = op as int / 16;
        let r = op as int / 8;
        let a = self.cpu.psw.a;
        let psw = self.cpu.psw;
        if op % 16 == 1 {
            // LXI
            self.with_pair_bytes(rp, byte2, byte1).taking(10)
        } else if op == 0x02 || op == 0x12 {
            // STAX
            self.store(self.pair(rp), a).taking(7)
        } else if op == 0x22 {
            // SHLD
            self.store(word, self.cpu.l).store(word + 1, self.cpu.h).taking(16)
        } else if op == 0x32 {
            // STA
            self.store(word, a).taking(13)
        } else if op % 16 == 3 {
            // INX
            self.with_pair(rp, wrap16(self.pair(rp) + 1)).taking(5)
        } else if op % 8 == 4 {
            // INR
            let n = self.operand(r);
            self.with_cpu(self.cpu.after_inr(n)).with_operand(r, low_byte(n + 1) as u8).taking(
                if r == 6 {
                    10
                } else {
                    5
                },
            )
        } else if op % 8 == 5 {
            // DCR
            let n = self.operand(r);
            self.with_cpu(self.cpu.after_dec(n)).with_operand(r, low_byte(n - 1) as u8).taking(
                if r == 6 {
                    10
                } else {
                    5
                },
            )
        } else if op % 8 == 6 {
            // MVI
            self.with_operand(r, byte1).taking(
                if r == 6 {
                    10
                } else {
                    7
                },
            )
        } else if op == 0x07 {
            // RLC
            self.with_cpu(self.cpu.after_rlc()).taking(4)
        } else if op == 0x0f {
            // RRC
            self.with_cpu(self.cpu.after_rrc()).taking(4)
        } else if op == 0x17 {
            // RAL
            self.with_cpu(self.cpu.after_ral()).taking(4)
        } else if op == 0x1f {
            // RAR
            self.with_cpu(self.cpu.after_rar()).taking(4)
        } else if op == 0x27 {
            // DAA
            self.with_cpu(self.cpu.after_daa()).taking(4)
        } else if op == 0x2f {
            // CMA
            self.with_cpu(Cpu { psw: Psw { a: !a, ..psw }, ..self.cpu }).taking(4)
        } else if op == 0x37 {
            // STC
            self.with_cpu(Cpu { psw: Psw { carry: true, ..psw }, ..self.cpu }).taking(4)
        } else if op == 0x3f {
            // CMC
            self.with_cpu(Cpu { psw: Psw { carry: !psw.carry, ..psw }, ..self.cpu }).taking(4)
        } else if op % 16 == 9 {
            // DAD
            self.with_cpu(self.cpu.after_add_hl(self.pair(rp))).taking(10)
        } else if op == 0x0a || op == 0x1a {
            // LDAX
            self.with_operand(7, self.memory[self.pair(rp)]).taking(7)
        } else if op == 0x2a {
            // LHLD
            self.with_pair_bytes(2, self.byte_at(word + 1), self.byte_at(word)).taking(16)
        } else if op == 0x3a {
            // LDA
            self.with_operand(7, self.byte_at(word)).taking(13)
        } else if op % 16 == 0x0b {
            // DCX
            self.with_pair(rp, wrap16(self.pair(rp) - 1)).taking(5)
        } else {
            // NOP
            self.taking(4)
        }
    }

    /// Opcodes 0x40 to 0x7f: the moves between registers and memory.
    pub open spec fn execute_move(self, op: u8) -> Change {
        let destination = (op as int / 8) % 8;
        let source = op as int % 8;
        self.with_operand(destination, self.operand(source)).taking(
            move_cycles(destination, source),
        )
    }

    /// Opcodes 0x80 to 0xbf: the accumulator operations on a register or a
    /// memory byte.
    pub open spec fn execute_alu(self, op: u8) -> Change {
        let source = op as int % 8;
        self.with_cpu(alu(self.cpu, (op as int / 8) % 8, self.operand(source))).taking(
            if source == 6 {
                7
            } else {
                4
            },
        )
    }

    /// The address of the call by which a diagnostic program reports a
    /// failure: six bytes before the return address that lies two entries
    /// down the stack.
    pub open spec fn failing_call(self) -> int {
        wrap16(
            word_of(
                self.byte_at(wrap16(self.cpu.sp + 4)),
                self.byte_at(wrap16(self.cpu.sp + 5)),
            ) - 6,
        )
    }

    /// `CALL`: a call to `word`, unless a diagnostic program reports its
    /// result by `CALL 5` with C = 9 and DE at one of the two message
    /// addresses while the machine runs a self test.
    pub open spec fn execute_call(self, ports: Ports, word: int) -> Effect {
        let message = word_of(self.cpu.e, self.cpu.d);
        if self.self_test && word == 5 && self.cpu.c == 9 && message == SELF_TEST_SUCCESS {
            Effect { signal: Signal::Success, ..self.done(ports, 17) }
        } else if self.self_test && word == 5 && self.cpu.c == 9 && message == SELF_TEST_FAILURE {
            Effect {
                signal: Signal::Failure(self.failing_call()),
                ..self.done(ports, 17)
            }
        } else {
            self.called(word, 3).jumped(ports, 17)
        }
    }

    /// `OUT`: the accumulator goes to port `port`. Port 2 sets the offset of
    /// the shift register, port 4 shifts a byte into it from the top, ports
    /// 3 and 5 are handed on to the sound hardware, any other port does
    /// nothing.
    pub open spec fn execute_out(self, ports: Ports, port: u8) -> Effect {
        let a = self.cpu.psw.a;
        if port == 2 {
            Machine { shift_register_offset: a % 8, ..self }.done(ports, 10)
        } else if port == 3 {
            self.done(Ports { out_3: a, ..ports }, 10)
        } else if port == 4 {
            Machine { shift_register: (a * 256 + self.shift_register / 256) as u16, ..self }.done(
                ports,
                10,
            )
        } else if port == 5 {
            self.done(Ports { out_5: a, ..ports }, 10)
        } else {
            self.done(ports, 10)
        }
    }

    /// `IN`: the accumulator is read from port `port`: input port 1 or 2, or
    /// the shift register on port 3.
    pub open spec fn execute_in(self, ports: Ports, port: u8) -> Effect
        recommends
            1 <= port <= 3,
    {
        let value: int = if port == 1 {
            ports.in_1 as int
        } else if port == 2 {
            ports.in_2 as int
        } else {
            shift_result(self.shift_register, self.shift_register_offset)
        };
        self.with_operand(7, value as u8).done(ports, 10)
    }

    /// Opcodes 0xc0 to 0xff: jumps, calls and returns, the stack, the
    /// accumulator operations on an immediate byte, input and output.
    pub open spec fn execute_control(self, ports: Ports, op: u8, byte1: u8, byte2: u8) -> Effect {
        let word = word_of(byte1, byte2);
        let cc = (op as int / 8) % 8;
        let rp = (op as int / 16) % 4;
        let cpu = self.cpu;
        if op == 0xc3 {
            // JMP
            self.with_cpu(Cpu { pc: word as usize, ..cpu }).jumped(ports, 10)
        } else if op == 0xc9 {
            // RET
            self.returned().jumped(ports, 10)
        } else if op == 0xcd {
            self.execute_call(ports, word)
        } else if op == 0xd3 {
            self.execute_out(ports, byte1)
        } else if op == 0xdb {
            self.execute_in(ports, byte1)
        } else if op == 0xe3 {
            // XTHL
            self.store(cpu.sp as int, cpu.l).store(wrap16(cpu.sp + 1), cpu.h).with_cpu(
                Cpu { l: self.byte_at(cpu.sp as int), h: self.byte_at(wrap16(cpu.sp + 1)), ..cpu },
            ).done(ports, 18)
        } else if op == 0xe9 {
            // PCHL
            self.with_cpu(Cpu { pc: cpu.hl() as usize, ..cpu }).jumped(ports, 5)
        } else if op == 0xeb {
            // XCHG
            self.with_cpu(Cpu { h: cpu.d, l: cpu.e, d: cpu.h, e: cpu.l, ..cpu }).done(ports, 4)
        } else if op == 0xf3 {
            // DI
            self.with_cpu(Cpu { enable_interrupts: false, ..cpu }).done(ports, 4)
        } else if op == 0xf9 {
            // SPHL
            self.with_cpu(Cpu { sp: cpu.hl() as usize, ..cpu }).done(ports, 5)
        } else if op == 0xfb {
            // EI
            self.with_cpu(Cpu { enable_interrupts: true, ..cpu }).done(ports, 4)
        } else if op % 8 == 0 {
            // conditional return
            if self.condition(cc) {
                self.returned().jumped(ports, 11)
            } else {
                self.done(ports, 5)
            }
        } else if op % 16 == 1 {
            // POP
            let low = self.byte_at(cpu.sp as int);
            let high = self.byte_at(wrap16(cpu.sp + 1));
            let popped = self.with_cpu(Cpu { sp: wrap16(cpu.sp + 2) as usize, ..cpu });
            if rp == 3 {
                popped.with_cpu(
                    Cpu { psw: Psw { a: high, ..cpu.psw.with_flags(low) }, ..popped.cpu },
                ).done(ports, 10)
            } else {
                popped.with_pair_bytes(rp, high, low).done(ports, 10)
            }
        } else if op % 8 == 2 {
            // conditional jump
            if self.condition(cc) {
                self.with_cpu(Cpu { pc: word as usize, ..cpu }).jumped(ports, 10)
            } else {
                self.done(ports, 10)
            }
        } else if op % 8 == 4 {
            // conditional call
            if self.condition(cc) {
                self.called(word, 3).jumped(ports, 17)
            } else {
                self.done(ports, 11)
            }
        } else if op % 16 == 5 {
            // PUSH
            if rp == 0 {
                self.pushed(cpu.b, cpu.c).done(ports, 11)
            } else if rp == 1 {
                self.pushed(cpu.d, cpu.e).done(ports, 11)
            } else if rp == 2 {
                self.pushed(cpu.h, cpu.l).done(ports, 11)
            } else {
                self.pushed(cpu.psw.a, cpu.psw.flags_byte() as u8).done(ports, 11)
            }
        } else if op % 8 == 6 {
            // accumulator operation on the next byte
            self.with_cpu(alu(cpu, cc, byte1)).done(ports, 7)
        } else {
            // RST: a call to eight times its number
            self.called(cc * 8, instruction_length(op) as int).jumped(ports, 11)
        }
    }

    /// What the instruction with opcode `op` and the two bytes behind it
    /// does.
    #[verifier::opaque]
    pub open spec fn execute(self, ports: Ports, op: u8, byte1: u8, byte2: u8) -> Effect {
        if op < 0x40 {
            let change = self.execute_transfer(op, byte1, byte2);
            change.machine.done(ports, change.cycles)
        } else if op < 0x80 {
            let change = self.execute_move(op);
            change.machine.done(ports, change.cycles)
        } else if op < 0xc0 {
            let change = self.execute_alu(op);
            change.machine.done(ports, change.cycles)
        } else {
            self.execute_control(ports, op, byte1, byte2)
        }
    }

    /// The opcode at the program counter.
    pub open spec fn opcode(self) -> u8 {
        self.memory[self.cpu.pc as int]
    }

    /// Why the machine cannot take its next step, if it cannot: the opcode
    /// at the program counter is not in the opcode table, or it is `IN` with
    /// a port other than 1, 2 or 3, or it is `SHLD` or `LHLD` with the last
    /// address of the memory, behind which there is no second byte. A
    /// paused machine can always step: it does nothing.
    pub open spec fn fault(self, ports: Ports) -> Option<Fault> {
        let op = self.opcode();
        let byte1 = self.byte_at(wrap16(self.cpu.pc + 1));
        let byte2 = self.byte_at(wrap16(self.cpu.pc + 2));
        if ports.paused {
            None
        } else if !is_supported(op) {
            Some(Fault::UnknownOpcode { opcode: op, pc: self.cpu.pc })
        } else if op == 0xdb && !(1 <= byte1 <= 3) {
            Some(Fault::UnsupportedPort { port: byte1 })
        } else if (op == 0x22 || op == 0x2a) && word_of(byte1, byte2) == 0xffff {
            Some(Fault::AddressOutOfRange { opcode: op, pc: self.cpu.pc })
        } else {
            None
        }
    }

    /// Whether the machine can take its next step.
    pub open spec fn can_step(self, ports: Ports) -> bool {
        self.fault(ports) is None
    }

    /// One step: nothing while paused; otherwise the instruction at the
    /// program counter is executed, and the program counter moves behind
    /// it unless the instruction set it.
    pub open spec fn step(self, ports: Ports) -> Outcome {
        if ports.paused {
            Outcome { machine: self, ports, signal: Signal::Paused, cycles: 0 }
        } else {
            let op = self.opcode();
            let effect = self.execute(
                ports,
                op,
                self.byte_at(wrap16(self.cpu.pc + 1)),
                self.byte_at(wrap16(self.cpu.pc + 2)),
            );
            let cpu = effect.machine.cpu;
            Outcome {
                machine: if effect.jumped {
                    effect.machine
                } else {
                    effect.machine.with_cpu(
                        Cpu { pc: wrap16(cpu.pc + instruction_length(op)) as usize, ..cpu },
                    )
                },
                ports: effect.ports,
                signal: effect.signal,
                cycles: effect.cycles,
            }
        }
    }

    /// The program counter, the stack pointer and the shift offset are in
    /// range and every address is backed by a byte.
    pub open spec fn wf(self) -> bool {
        &&& self.cpu.wf()
        &&& self.memory.len() == MEMORY_SIZE
        &&& self.shift_register_offset < 8
    }

    /// Whether the next step executes an instruction and counts its cycles:
    /// the machine is not paused and can step.
    pub open spec fn advances(self, ports: Ports) -> bool {
        !ports.paused && self.can_step(ports)
    }

    /// Where stepping ends that goes on while fewer than `budget` cycles are
    /// counted and the machine advances. The count starts at `cycles`.
    pub open spec fn run_until(self, ports: Ports, cycles: int, budget: int) -> Run
        decreases budget + 18 - cycles,
        via Self::run_until_decreases
    {
        if cycles < budget && self.advances(ports) {
            let next = self.step(ports);
            next.machine.run_until(next.ports, cycles + next.cycles, budget)
        } else {
            Run { machine: self, ports, cycles }
        }
    }

    #[via_fn]
    proof fn run_until_decreases(self, ports: Ports, cycles: int, budget: int) {
        if cycles < budget && self.advances(ports) {
            lemma_cycles_of_instruction(self, ports);
        }
    }

    /// One frame: steps up to half the budget of cycles, the first
    /// interrupt, steps up to the whole budget, the second interrupt. A step
    /// that cannot be taken ends the frame where it stands.
    pub open spec fn frame(self, ports: Ports) -> Frame {
        let half = self.run_until(ports, 0, CYCLES_PER_FRAME as int / 2);
        let whole = half.machine.interrupted(1).run_until(
            half.ports,
            half.cycles,
            CYCLES_PER_FRAME as int,
        );
        if half.cycles < CYCLES_PER_FRAME / 2 {
            Frame {
                machine: half.machine,
                ports: half.ports,
                cycles: half.cycles,
                first_interrupt: false,
                second_interrupt: false,
                completed: false,
            }
        } else if whole.cycles < CYCLES_PER_FRAME {
            Frame {
                machine: whole.machine,
                ports: whole.ports,
                cycles: whole.cycles,
                first_interrupt: half.machine.cpu.enable_interrupts,
                second_interrupt: false,
                completed: false,
            }
        } else {
            Frame {
                machine: whole.machine.interrupted(2),
                ports: whole.ports,
                cycles: whole.cycles,
                first_interrupt: half.machine.cpu.enable_interrupts,
                second_interrupt: whole.machine.cpu.enable_interrupts,
                completed: true,
            }
        }
    }

    /// What one action of the frame scheduler leads to. A step that cannot
    /// be taken changes nothing; a step of a paused machine counts nothing,
    /// so that the frame waits where it stands.
    pub open spec fn frame_step(self, ports: Ports, progress: FrameProgress) -> FrameStep {
        match progress.action() {
            FrameAction::Step => if self.can_step(ports) {
                let next = self.step(ports);
                FrameStep {
                    machine: next.machine,
                    ports: next.ports,
                    progress: FrameProgress {
                        cycles: (progress.cycles + next.cycles) as u64,
                        ..progress
                    },
                }
            } else {
                FrameStep { machine: self, ports, progress }
            },
            FrameAction::Interrupt(number) => FrameStep {
                machine: self.interrupted(number),
                ports,
                progress: progress.after_interrupt(),
            },
            FrameAction::Done => FrameStep { machine: self, ports, progress },
        }
    }
}

/// An instruction that is executed takes between 4 and 18 cycles and leaves
/// the pause switch and the mode of the machine alone.
pub proof fn lemma_cycles_of_instruction(machine: Machine, ports: Ports)
    requires
        machine.advances(ports),
    ensures
        4 <= machine.step(ports).cycles <= 18,
        !machine.step(ports).ports.paused,
        machine.step(ports).machine.self_test == machine.self_test,
{
    reveal(Machine::execute);
}

/// A register pair hands back the two bytes that were loaded into it, and
/// the operand `M` is the byte at the address that H and L make up, H being
/// the high byte.
pub proof fn lemma_pairs_compose(machine: Machine, rp: int, high: u8, low: u8, value: u8)
    requires
        0 <= rp <= 3,
        machine.wf(),
    ensures
        machine.with_pair_bytes(rp, high, low).pair(rp) == high * 256 + low,
        rp == 0 ==> machine.with_pair_bytes(rp, high, low).cpu.b == high
            && machine.with_pair_bytes(rp, high, low).cpu.c == low,
        rp == 1 ==> machine.with_pair_bytes(rp, high, low).cpu.d == high
            && machine.with_pair_bytes(rp, high, low).cpu.e == low,
        rp == 2 ==> machine.with_pair_bytes(rp, high, low).cpu.h == high
            && machine.with_pair_bytes(rp, high, low).cpu.l == low,
        machine.execute_transfer((rp * 16 + 1) as u8, low, high).machine
            == machine.with_pair_bytes(rp, high, low),
        machine.with_operand(4, high).with_operand(5, low).operand(6) == machine.memory[high * 256
            + low],
        machine.with_operand(4, high).with_operand(5, low).with_operand(6, value).memory[high
            * 256 + low] == value,
{
    reveal(word_of);
}

/// A call followed by a return is back behind the calling instruction, with
/// the stack pointer where it was: the call lowers the stack pointer by two,
/// the return raises it by two, both going round at the ends of the address
/// space.
pub proof fn lemma_call_then_return(machine: Machine, target: int, length: int)
    requires
        machine.wf(),
        0 <= length <= 3,
    ensures
        machine.called(target, length).cpu.sp == wrap16(machine.cpu.sp - 2),
        machine.cpu.sp >= 2 ==> machine.called(target, length).cpu.sp == machine.cpu.sp - 2,
        machine.called(target, length).returned().cpu.pc == wrap16(machine.cpu.pc + length),
        machine.cpu.pc + length < 0x10000 ==> machine.called(target, length).returned().cpu.pc
            == machine.cpu.pc + length,
        machine.called(target, length).returned().cpu.sp == machine.cpu.sp,
        machine.called(target, length).returned().cpu.sp == wrap16(
            machine.called(target, length).cpu.sp + 2,
        ),
{
    reveal(wrap16);
    reveal(word_of);
    reveal(low_byte);
    reveal(high_byte);
}

/// A run that starts with the pause switch off ends either with the budget
/// used up, by less than the cycles of one instruction, or before a step
/// that cannot be taken.
pub proof fn lemma_run_ends(machine: Machine, ports: Ports, cycles: int, budget: int)
    requires
        !ports.paused,
    ensures
        ({
            let run = machine.run_until(ports, cycles, budget);
            &&& run.cycles >= cycles
            &&& cycles <= budget + 18 ==> run.cycles <= budget + 18
            &&& !run.ports.paused
            &&& run.machine.self_test == machine.self_test
            &&& run.cycles >= budget || run.machine.fault(run.ports) is Some
        }),
    decreases budget + 18 - cycles,
{
    if cycles < budget && machine.advances(ports) {
        lemma_cycles_of_instruction(machine, ports);
        let next = machine.step(ports);
        lemma_run_ends(next.machine, next.ports, cycles + next.cycles, budget);
    }
}

/// A frame that starts with the pause switch off runs to its end unless it
/// comes to a step that cannot be taken.
pub proof fn lemma_frame_completes(machine: Machine, ports: Ports)
    requires
        !ports.paused,
    ensures
        machine.frame(ports).completed || machine.frame(ports).machine.fault(
            machine.frame(ports).ports,
        ) is Some,
        machine.frame(ports).cycles <= CYCLES_PER_FRAME + 18,
{
    let half = machine.run_until(ports, 0, CYCLES_PER_FRAME as int / 2);
    lemma_run_ends(machine, ports, 0, CYCLES_PER_FRAME as int / 2);
    lemma_run_ends(
        half.machine.interrupted(1),
        half.ports,
        half.cycles,
        CYCLES_PER_FRAME as int,
    );
}

/// The frame scheduler walks the path of the frame: while the machine
/// advances, a step of the scheduler in the first half of the frame leaves
/// the end of the run to half the budget where it was, and one in the second
/// half the end of the run to the whole budget; between the two it raises
/// interrupt 1, and at the end interrupt 2.
pub proof fn lemma_scheduler_follows_frame(machine: Machine, ports: Ports, progress: FrameProgress)
    requires
        progress.wf(),
    ensures
        ({
            let next = machine.frame_step(ports, progress);
            let half = CYCLES_PER_FRAME as int / 2;
            let whole = CYCLES_PER_FRAME as int;
            &&& next.progress.wf()
            &&& progress.action() is Step && machine.advances(ports) ==> {
                &&& progress.phase is FirstHalf ==> next.machine.run_until(
                    next.ports,
                    next.progress.cycles as int,
                    half,
                ) == machine.run_until(ports, progress.cycles as int, half)
                &&& progress.phase is SecondHalf ==> next.machine.run_until(
                    next.ports,
                    next.progress.cycles as int,
                    whole,
                ) == machine.run_until(ports, progress.cycles as int, whole)
            }
            &&& progress.action() is Step && ports.paused ==> next == (FrameStep {
                machine,
                ports,
                progress,
            })
            &&& progress.action() == FrameAction::Interrupt(1) ==> {
                &&& progress.phase is FirstHalf
                &&& progress.cycles >= half
                &&& next.machine == machine.interrupted(1)
                &&& next.progress.phase is SecondHalf
            }
            &&& progress.action() == FrameAction::Interrupt(2) ==> {
                &&& progress.phase is SecondHalf
                &&& progress.cycles >= whole
                &&& next.machine == machine.interrupted(2)
                &&& next.progress.phase is Done
            }
        }),
{
    reveal(Machine::execute);
    if progress.action() is Step && machine.advances(ports) {
        lemma_cycles_of_instruction(machine, ports);
    }
}

/// A frame that runs to its end takes at least the budget of cycles, and
/// raises two interrupts if the program has interrupts enabled both in the
/// middle and at the end of the frame: the first sends it to address 8, the
/// second to address 16, and each disables further interrupts.
pub proof fn lemma_frame_interrupts(machine: Machine, ports: Ports)
    requires
        machine.frame(ports).completed,
    ensures
        machine.frame(ports).cycles >= CYCLES_PER_FRAME,
        ({
            let half = machine.run_until(ports, 0, CYCLES_PER_FRAME as int / 2);
            let whole = half.machine.interrupted(1).run_until(
                half.ports,
                half.cycles,
                CYCLES_PER_FRAME as int,
            );
            &&& half.machine.cpu.enable_interrupts ==> {
                &&& machine.frame(ports).first_interrupt
                &&& half.machine.interrupted(1).cpu.pc == 8
                &&& !half.machine.interrupted(1).cpu.enable_interrupts
            }
            &&& whole.machine.cpu.enable_interrupts ==> {
                &&& machine.frame(ports).second_interrupt
                &&& machine.frame(ports).machine.cpu.pc == 16
                &&& !machine.frame(ports).machine.cpu.enable_interrupts
            }
        }),
{
}

} // verus!
