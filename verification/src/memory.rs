//! The flat 64 KiB address space of the machine.

use vstd::prelude::*;
use crate::opcodes::Opcode;
use crate::text::push_hex4;

verus! {

/// Number of addressable bytes.
pub const MEMORY_SIZE: usize = 0x10000;

/// Bytes per screen column (256 pixels, eight to a byte).
pub const SCREEN_WIDTH: usize = 0x20;

/// Number of screen columns.
pub const SCREEN_HEIGHT: usize = 0xe0;

/// Length of the video window in bytes.
pub const GRAPHIC_MEMORY_SIZE: usize = SCREEN_WIDTH * SCREEN_HEIGHT;

/// Address of the first byte of the video window.
pub const GRAPHIC_MEMORY_START: usize = 0x2400;

/// The 16-bit value whose low byte is `low` and whose high byte is `high`.
#[verifier::opaque]
pub open spec fn word_of(low: u8, high: u8) -> int {
    high * 256 + low
}

/// `value` reduced to the 16-bit address range.
#[verifier::opaque]
pub open spec fn wrap16(value: int) -> int {
    value % 0x10000
}

/// The low eight bits of `value`; for a negative value, those of its two's
/// complement.
#[verifier::opaque]
pub open spec fn low_byte(value: int) -> int {
    value % 256
}

/// Bits 8 to 15 of `value`.
#[verifier::opaque]
pub open spec fn high_byte(value: int) -> int {
    (value / 256) % 256
}

/// `memory` with `bytes` copied over it from address `start` on.
pub open spec fn loaded(memory: Seq<u8>, bytes: Seq<u8>, start: int) -> Seq<u8> {
    Seq::new(
        memory.len(),
        |i: int|
            if start <= i < start + bytes.len() {
                bytes[i - start]
            } else {
                memory[i]
            },
    )
}

/// A display that a front end may plug in.
pub trait GraphicRenderer: Send {
    fn draw(&mut self, x: u8, y: u8, value: u8);

    fn color(&self, x: u8, y: u8) -> u8;

    fn display(&self);
}

/// The machine's memory: 65536 bytes, addressed from 0.
pub struct Memory {
    bytes: Vec<u8>,
}

impl View for Memory {
    type V = Seq<u8>;

    closed spec fn view(&self) -> Seq<u8> {
        self.bytes@
    }
}

impl Memory {
    /// Every address from 0 to 0xffff is backed by a byte, and no other.
    pub open spec fn wf(&self) -> bool {
        self@.len() == MEMORY_SIZE
    }

    /// A memory filled with zero bytes.
    pub fn new() -> (memory: Memory)
        ensures
            memory.wf(),
            forall|i: int| 0 <= i < MEMORY_SIZE ==> memory@[i] == 0,
    {
        Memory { bytes: vec![0u8; MEMORY_SIZE] }
    }

    /// The byte at `address`.
    pub fn read(&self, address: usize) -> (value: u8)
        requires
            self.wf(),
            address < MEMORY_SIZE,
        ensures
            value == self@[address as int],
    {
        self.bytes[address]
    }

    /// Stores `value` at `address`; every other byte keeps its value.
    pub fn write(&mut self, address: usize, value: u8)
        requires
            old(self).wf(),
            address < MEMORY_SIZE,
        ensures
            final(self).wf(),
            final(self)@ == old(self)@.update(address as int, value),
    {
        self.bytes[address] = value;
    }

    /// The byte at the address whose low byte is `b0` and whose high byte is
    /// `b1`.
    pub fn read_word(&self, b0: u8, b1: u8) -> (value: u8)
        requires
            self.wf(),
        ensures
            value == self@[word_of(b0, b1)],
            value == self@[b1 * 256 + b0],
    {
        proof {
            reveal(word_of);
        }
        self.bytes[Memory::to_word(b0, b1)]
    }

    /// Stores `value` at the address whose low byte is `b0` and whose high
    /// byte is `b1`.
    pub fn write_word(&mut self, b0: u8, b1: u8, value: u8)
        requires
            old(self).wf(),
        ensures
            final(self).wf(),
            final(self)@ == old(self)@.update(word_of(b0, b1), value),
            final(self)@ == old(self)@.update(b1 * 256 + b0, value),
    {
        proof {
            reveal(word_of);
        }
        let address: usize = Memory::to_word(b0, b1);
        self.bytes[address] = value;
    }

    /// The disassembly of the instruction at `pc`, whose table entry is
    /// `opcode`, and the length of the instruction. The operand bytes are
    /// read behind `pc`, going round at the end of the address space.
    pub fn disassemble(&self, opcode: &Opcode, pc: usize) -> (line: (String, usize))
        requires
            self.wf(),
            pc < MEMORY_SIZE,
        ensures
            line.0@ == opcode@.disassembled(self@, pc as int),
            line.1 == opcode.size,
    {
        let byte1: u8 = self.bytes[(pc + 1) % MEMORY_SIZE];
        let byte2: u8 = self.bytes[(pc + 2) % MEMORY_SIZE];
        let formatted_opcode: String = if opcode.size == 1 {
            opcode.display1()
        } else if opcode.size == 2 {
            opcode.display2(byte1)
        } else {
            opcode.display3(byte1, byte2)
        };
        let mut result: String = String::new();
        push_hex4(&mut result, pc);
        result.append(": ");
        result.append(formatted_opcode.as_str());
        (result, opcode.size)
    }

    /// Composes two bytes into a 16-bit address, `b1` being the low byte and
    /// `b2` the high byte.
    pub fn to_word(b1: u8, b2: u8) -> (word: usize)
        ensures
            word == word_of(b1, b2),
            word == b2 * 256 + b1,
            word < MEMORY_SIZE,
    {
        proof {
            reveal(word_of);
        }
        let high: usize = b2 as usize;
        let low: usize = b1 as usize;
        high * 256 + low
    }

    /// Copies a program image into memory as it is, its first byte going to
    /// `start`. The image has to fit below the end of the address space.
    pub fn load(&mut self, bytes: &[u8], start: usize)
        requires
            old(self).wf(),
            start + bytes@.len() <= MEMORY_SIZE,
        ensures
            final(self).wf(),
            final(self)@ == loaded(old(self)@, bytes@, start as int),
    {
        let mut i: usize = 0;
        while i < bytes.len()
            invariant
                self.wf(),
                i <= bytes@.len(),
                start + bytes@.len() <= MEMORY_SIZE,
                self@ == loaded(old(self)@, bytes@.take(i as int), start as int),
            decreases bytes@.len() - i,
        {
            self.bytes[start + i] = bytes[i];
            i += 1;
        }
    }

    /// The video window: the `GRAPHIC_MEMORY_SIZE` bytes from
    /// `GRAPHIC_MEMORY_START` on.
    pub fn graphic_memory(&self) -> (window: Vec<u8>)
        requires
            self.wf(),
        ensures
            window@ == self@.subrange(
                GRAPHIC_MEMORY_START as int,
                GRAPHIC_MEMORY_START + GRAPHIC_MEMORY_SIZE,
            ),
    {
        let mut window: Vec<u8> = Vec::with_capacity(GRAPHIC_MEMORY_SIZE);
        let mut i: usize = 0;
        while i < GRAPHIC_MEMORY_SIZE
            invariant
                self.wf(),
                i <= GRAPHIC_MEMORY_SIZE,
                window@ == self@.subrange(
                    GRAPHIC_MEMORY_START as int,
                    GRAPHIC_MEMORY_START + i,
                ),
            decreases GRAPHIC_MEMORY_SIZE - i,
        {
            window.push(self.bytes[GRAPHIC_MEMORY_START + i]);
            i += 1;
        }
        window
    }
}

} // verus!
