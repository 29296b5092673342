//! Registers and condition flags, and the arithmetic that updates them.

use vstd::prelude::*;
use crate::memory::{high_byte, low_byte, word_of, wrap16, Memory, MEMORY_SIZE};
use crate::text::{flag_digit, hex2, hex4, push_flag, push_hex2, push_hex4};

verus! {

/// Number of one bits among the low eight bits of `byte`.
pub open spec fn ones(byte: int) -> int {
    byte % 2 + (byte / 2) % 2 + (byte / 4) % 2 + (byte / 8) % 2 + (byte / 16) % 2 + (byte / 32) % 2
        + (byte / 64) % 2 + (byte / 128) % 2
}

/// Whether an even number of the low eight bits of `byte` are set.
pub open spec fn even_parity(byte: int) -> bool {
    ones(byte) % 2 == 0
}

/// Whether `value` lies outside what eight bits hold: a carry out of bit 7,
/// or a borrow.
pub open spec fn overflows_byte(value: int) -> bool {
    value < 0 || value > 0xff
}

/// Whether `value`, the sum or the difference of two low digits, lies outside
/// what four bits hold: a carry out of bit 3, or a borrow into it.
pub open spec fn overflows_digit(value: int) -> bool {
    value < 0 || value > 0x0f
}

/// 1 for a flag that is set, 0 for one that is clear.
pub open spec fn flag_bit(flag: bool) -> int {
    if flag {
        1
    } else {
        0
    }
}

/// Whether bit `bit` of `value` is set, bit 0 being the lowest.
pub open spec fn bit_of(value: u8, bit: int) -> bool
    recommends
        0 <= bit < 8,
{
    if bit == 0 {
        value % 2 == 1
    } else if bit == 1 {
        (value / 2) % 2 == 1
    } else if bit == 2 {
        (value / 4) % 2 == 1
    } else if bit == 3 {
        (value / 8) % 2 == 1
    } else if bit == 4 {
        (value / 16) % 2 == 1
    } else if bit == 5 {
        (value / 32) % 2 == 1
    } else if bit == 6 {
        (value / 64) % 2 == 1
    } else {
        (value / 128) % 2 == 1
    }
}

/// The flags that follow from an arithmetic result, taken before it is cut
/// down to eight bits. The auxiliary carry stays: it follows from the
/// operands, not from the result.
#[verifier::opaque]
pub open spec fn arithmetic_flags(psw: Psw, value: int) -> Psw {
    Psw {
        a: psw.a,
        sign: low_byte(value) >= 0x80,
        zero: low_byte(value) == 0,
        auxiliary_carry: psw.auxiliary_carry,
        parity: even_parity(low_byte(value)),
        carry: overflows_byte(value),
    }
}

/// The flags that follow from a logic result: the carry is cleared and the
/// auxiliary carry stays.
#[verifier::opaque]
pub open spec fn logic_flags(psw: Psw, value: int) -> Psw {
    Psw {
        a: psw.a,
        sign: low_byte(value) >= 0x80,
        zero: low_byte(value) == 0,
        auxiliary_carry: psw.auxiliary_carry,
        parity: even_parity(low_byte(value)),
        carry: false,
    }
}

/// Sign, zero and parity after an 8-bit increment or decrement hands back
/// `value`; the two carries stay.
#[verifier::opaque]
pub open spec fn counting_flags(psw: Psw, value: u8) -> Psw {
    Psw {
        a: psw.a,
        sign: value >= 0x80,
        zero: value == 0,
        auxiliary_carry: psw.auxiliary_carry,
        parity: even_parity(value as int),
        carry: psw.carry,
    }
}

/// The accumulator after a decimal adjust, before it is cut down to eight
/// bits: six is added if the low digit is above nine or the auxiliary carry
/// is set, and then 0x60 if the high digit of that sum is above nine or the
/// carry is set.
#[verifier::opaque]
pub open spec fn decimal_adjusted(a: u8, auxiliary_carry: bool, carry: bool) -> int {
    let low_corrected = if a % 16 > 9 || auxiliary_carry {
        a + 6
    } else {
        a as int
    };
    if (low_corrected / 16) % 16 > 9 || carry {
        low_corrected + 0x60
    } else {
        low_corrected
    }
}

/// The accumulator and the five condition flags.
///
/// Pushed and popped as one 16-bit word: the accumulator is the high byte,
/// the flags are the low byte, laid out as
///
/// ```text
/// Bit:  7 6 5 4  3 2 1 0
/// Flag: S Z 0 AC 0 P 1 C
/// ```
#[derive(Clone, Copy, Debug, PartialEq, Eq, Structural)]
pub struct Psw {
    pub a: u8,
    pub sign: bool,
    pub zero: bool,
    pub auxiliary_carry: bool,
    pub parity: bool,
    pub carry: bool,
}

impl Default for Psw {
    fn default() -> (psw: Psw)
        ensures
            psw == Psw::zeroed(),
    {
        Psw {
            a: 0,
            sign: false,
            zero: false,
            auxiliary_carry: false,
            parity: false,
            carry: false,
        }
    }
}

impl Psw {
    /// A cleared accumulator with every flag clear.
    pub open spec fn zeroed() -> Psw {
        Psw {
            a: 0,
            sign: false,
            zero: false,
            auxiliary_carry: false,
            parity: false,
            carry: false,
        }
    }

    /// The flags packed into one byte; bit 1 is always set, bits 3 and 5 never.
    pub open spec fn flags_byte(self) -> int {
        flag_bit(self.sign) * 128 + flag_bit(self.zero) * 64 + flag_bit(self.auxiliary_carry) * 16
            + flag_bit(self.parity) * 4 + 2 + flag_bit(self.carry)
    }

    /// This word with its flags taken from the bits of `value`; the
    /// accumulator stays.
    #[verifier::opaque]
    pub open spec fn with_flags(self, value: u8) -> Psw {
        Psw {
            a: self.a,
            sign: bit_of(value, 7),
            zero: bit_of(value, 6),
            auxiliary_carry: bit_of(value, 4),
            parity: bit_of(value, 2),
            carry: bit_of(value, 0),
        }
    }

    /// The flags as a disassembly shows them: carry, parity, sign, zero.
    pub open spec fn disassembled(self) -> Seq<char> {
        "[C="@ + flag_digit(self.carry) + " P="@ + flag_digit(self.parity) + " S="@ + flag_digit(
            self.sign,
        ) + " Z="@ + flag_digit(self.zero) + "]"@
    }

    /// A flag as a number: 1 if set, 0 if clear.
    pub fn to_u8(f: bool) -> (bit: u16)
        ensures
            bit == flag_bit(f),
    {
        if f {
            1
        } else {
            0
        }
    }

    /// A masked bit as a flag: set unless `v` is zero.
    pub fn to_bool(v: u8) -> (flag: bool)
        ensures
            flag == (v != 0),
    {
        v != 0
    }

    /// Sets the five flags from a packed flag byte.
    pub fn set_flags(&mut self, value: u8)
        ensures
            *final(self) == old(self).with_flags(value),
    {
        proof {
            reveal(Psw::with_flags);
            lemma_masked_bits(value);
        }
        self.sign = Psw::to_bool(value & 0x80);
        self.zero = Psw::to_bool(value & 0x40);
        self.auxiliary_carry = Psw::to_bool(value & 0x10);
        self.parity = Psw::to_bool(value & 0x04);
        self.carry = Psw::to_bool(value & 0x01);
    }

    /// The whole word: accumulator high, packed flags low.
    pub fn value(&self) -> (word: u16)
        ensures
            word == self.a * 256 + self.flags_byte(),
            low_byte(word as int) == self.flags_byte(),
            high_byte(word as int) == self.a,
    {
        proof {
            reveal(low_byte);
            reveal(high_byte);
        }
        let a: u16 = self.a as u16;
        a * 256 + Psw::to_u8(self.sign) * 128 + Psw::to_u8(self.zero) * 64 + Psw::to_u8(
            self.auxiliary_carry,
        ) * 16 + Psw::to_u8(self.parity) * 4 + 2 + Psw::to_u8(self.carry)
    }
}

impl Psw {
    /// The flags as text, in the form `[C=0 P=1 S=0 Z=1]`.
    pub fn disassemble(&self) -> (text: String)
        ensures
            text@ == self.disassembled(),
    {
        let mut text: String = String::from_str("[C=");
        push_flag(&mut text, self.carry);
        text.append(" P=");
        push_flag(&mut text, self.parity);
        text.append(" S=");
        push_flag(&mut text, self.sign);
        text.append(" Z=");
        push_flag(&mut text, self.zero);
        text.append("]");
        text
    }
}

/// Whether bit `bit` of `value` is set, bit 0 being the lowest.
pub fn test_bit(value: u8, bit: u8) -> (set: bool)
    requires
        bit < 8,
    ensures
        set == bit_of(value, bit as int),
{
    proof {
        lemma_shifted_bit(value, bit);
    }
    (value >> bit) & 1 == 1
}

/// Shifting a bit down to the lowest place tells whether it is set.
proof fn lemma_shifted_bit(value: u8, bit: u8)
    by (bit_vector)
    requires
        bit < 8,
    ensures
        bit == 0 ==> ((value >> bit) & 1 == 1) == (value % 2 == 1),
        bit == 1 ==> ((value >> bit) & 1 == 1) == ((value / 2) % 2 == 1),
        bit == 2 ==> ((value >> bit) & 1 == 1) == ((value / 4) % 2 == 1),
        bit == 3 ==> ((value >> bit) & 1 == 1) == ((value / 8) % 2 == 1),
        bit == 4 ==> ((value >> bit) & 1 == 1) == ((value / 16) % 2 == 1),
        bit == 5 ==> ((value >> bit) & 1 == 1) == ((value / 32) % 2 == 1),
        bit == 6 ==> ((value >> bit) & 1 == 1) == ((value / 64) % 2 == 1),
        bit == 7 ==> ((value >> bit) & 1 == 1) == ((value / 128) % 2 == 1),
{
}

/// Testing a byte against a one-bit mask tells whether that bit is set.
proof fn lemma_masked_bits(value: u8)
    by (bit_vector)
    ensures
        (value & 0x80 != 0) == ((value / 128) % 2 == 1),
        (value & 0x40 != 0) == ((value / 64) % 2 == 1),
        (value & 0x20 != 0) == ((value / 32) % 2 == 1),
        (value & 0x10 != 0) == ((value / 16) % 2 == 1),
        (value & 0x08 != 0) == ((value / 8) % 2 == 1),
        (value & 0x04 != 0) == ((value / 4) % 2 == 1),
        (value & 0x02 != 0) == ((value / 2) % 2 == 1),
        (value & 0x01 != 0) == (value % 2 == 1),
{
}

/// Packing the flags into a byte and setting them from that byte again
/// changes nothing.
pub proof fn lemma_flags_round_trip(psw: Psw)
    ensures
        0 <= psw.flags_byte() < 256,
        psw.with_flags(psw.flags_byte() as u8) == psw,
{
    reveal(Psw::with_flags);
}

/// What a decimal adjust adds to the accumulator, worked out by hand: six if
/// the low digit is above nine or the auxiliary carry is set, and then 0x60 if
/// the high digit is above nine or the carry is set.
pub open spec fn decimal_correction(a: u8, auxiliary_carry: bool, carry: bool) -> int {
    let low: int = if a % 16 > 9 || auxiliary_carry {
        6
    } else {
        0
    };
    let high: int = if ((a + low) / 16) % 16 > 9 || carry {
        0x60
    } else {
        0
    };
    low + high
}

/// The decimal adjust gives what the correction by hand gives: the
/// accumulator is the low byte of the corrected value, the carry is set if
/// the corrected value passes 0xff, and the auxiliary carry is the carry of
/// the low correction out of bit 3.
pub proof fn lemma_decimal_adjust(cpu: Cpu)
    ensures
        decimal_adjusted(cpu.psw.a, cpu.psw.auxiliary_carry, cpu.psw.carry) == cpu.psw.a
            + decimal_correction(cpu.psw.a, cpu.psw.auxiliary_carry, cpu.psw.carry),
        cpu.after_daa().psw.a == (cpu.psw.a + decimal_correction(
            cpu.psw.a,
            cpu.psw.auxiliary_carry,
            cpu.psw.carry,
        )) % 256,
        cpu.after_daa().psw.carry <==> cpu.psw.a + decimal_correction(
            cpu.psw.a,
            cpu.psw.auxiliary_carry,
            cpu.psw.carry,
        ) > 0xff,
        cpu.after_daa().psw.auxiliary_carry <==> cpu.psw.a % 16 > 9,
{
    reveal(decimal_adjusted);
    reveal(arithmetic_flags);
    reveal(low_byte);
}

/// What an addition leaves in the accumulator and in the two carries.
pub proof fn lemma_add_carries(cpu: Cpu, value: u8, carry: int)
    requires
        0 <= carry <= 1,
    ensures
        cpu.after_add(value, carry).psw.a == (cpu.psw.a + value + carry) % 256,
        cpu.after_add(value, carry).psw.carry <==> cpu.psw.a + value + carry > 0xff,
        cpu.after_add(value, carry).psw.auxiliary_carry <==> cpu.psw.a % 16 + value % 16 + carry
            > 0x0f,
{
    reveal(arithmetic_flags);
    reveal(low_byte);
}

/// Adding two decimal digits and adjusting the sum gives their sum as a
/// packed decimal number, the tens in the high digit: the auxiliary carry of
/// the addition takes the carry out of the low digit to the adjust.
pub proof fn lemma_decimal_digits_add(cpu: Cpu, value: u8, carry: int)
    requires
        cpu.psw.a <= 9,
        value <= 9,
        0 <= carry <= 1,
    ensures
        cpu.psw.a + value + carry <= 9 ==> cpu.after_add(value, carry).after_daa().psw.a
            == cpu.psw.a + value + carry,
        cpu.psw.a + value + carry > 9 ==> cpu.after_add(value, carry).after_daa().psw.a == 0x10
            + (cpu.psw.a + value + carry - 10),
{
    let sum = cpu.psw.a + value + carry;
    let added = cpu.after_add(value, carry);
    lemma_add_carries(cpu, value, carry);
    lemma_decimal_adjust(added);
    assert(added.psw.a == sum);
    assert(added.psw.auxiliary_carry == (sum > 15));
    assert(decimal_correction(added.psw.a, added.psw.auxiliary_carry, added.psw.carry) == if sum
        > 9 {
        6int
    } else {
        0int
    });
}

/// The programmer-visible state of the processor.
///
/// B and C, D and E, H and L pair up to 16-bit registers, the first named
/// being the high byte. The program counter and the stack pointer are 16-bit
/// values held in a wider integer.
#[derive(Clone, Copy, Debug, PartialEq, Eq, Structural)]
pub struct Cpu {
    pub b: u8,
    pub c: u8,
    pub d: u8,
    pub e: u8,
    pub h: u8,
    pub l: u8,
    pub psw: Psw,
    pub pc: usize,
    pub sp: usize,
    pub enable_interrupts: bool,
}

impl Default for Cpu {
    fn default() -> (cpu: Cpu)
        ensures
            cpu == Cpu::reset(0),
    {
        Cpu::new(0)
    }
}

/// The 8-bit value that `value` stands for.
fn low_byte_of(value: i16) -> (low: u8)
    ensures
        low == low_byte(value as int),
{
    proof {
        reveal(low_byte);
    }
    let shifted: u32 = (value as i32 + 0x8000) as u32;
    (shifted % 256) as u8
}

/// Whether `byte` has an even number of bits set.
fn has_even_parity(byte: u8) -> (even: bool)
    ensures
        even == even_parity(byte as int),
{
    let count: u8 = byte % 2 + (byte / 2) % 2 + (byte / 4) % 2 + (byte / 8) % 2 + (byte / 16) % 2
        + (byte / 32) % 2 + (byte / 64) % 2 + (byte / 128) % 2;
    count % 2 == 0
}

/// `a - b - borrow`, not cut down.
fn difference(a: u8, b: u8, borrow: u16) -> (value: i16)
    requires
        borrow <= 1,
    ensures
        value == a - b - borrow,
{
    a as i16 - b as i16 - borrow as i16
}

/// The address `offset` bytes behind `address`, going round at the end of the
/// address space.
pub fn address_after(address: usize, offset: usize) -> (next: usize)
    requires
        address < MEMORY_SIZE,
        offset < MEMORY_SIZE,
    ensures
        next == wrap16(address + offset),
        next == (address + offset) % 0x10000,
        next < MEMORY_SIZE,
{
    proof {
        reveal(wrap16);
    }
    (address + offset) % MEMORY_SIZE
}

/// The address `offset` bytes before `address`, going round at address 0.
pub fn address_before(address: usize, offset: usize) -> (previous: usize)
    requires
        address < MEMORY_SIZE,
        offset < MEMORY_SIZE,
    ensures
        previous == wrap16(address - offset),
        previous == (address - offset) % 0x10000,
        previous < MEMORY_SIZE,
{
    proof {
        reveal(wrap16);
    }
    (address + MEMORY_SIZE - offset) % MEMORY_SIZE
}

/// The register pair with high byte `high` and low byte `low` with one
/// added, 0xffff going to 0. Returns the high byte, then the low byte.
pub fn pair_incremented(high: u8, low: u8) -> (pair: (u8, u8))
    ensures
        pair.0 == high_byte(wrap16(word_of(low, high) + 1)),
        pair.1 == low_byte(wrap16(word_of(low, high) + 1)),
        pair.0 * 256 + pair.1 == (high * 256 + low + 1) % 0x10000,
{
    proof {
        reveal(wrap16);
        reveal(word_of);
        reveal(high_byte);
        reveal(low_byte);
    }
    let word: u16 = high as u16 * 256 + low as u16;
    let next: u16 = if word == 0xffff {
        0
    } else {
        word + 1
    };
    ((next / 256) as u8, (next % 256) as u8)
}

/// The register pair with high byte `high` and low byte `low` with one
/// taken off, 0 going to 0xffff. Returns the high byte, then the low byte.
pub fn pair_decremented(high: u8, low: u8) -> (pair: (u8, u8))
    ensures
        pair.0 == high_byte(wrap16(word_of(low, high) - 1)),
        pair.1 == low_byte(wrap16(word_of(low, high) - 1)),
        pair.0 * 256 + pair.1 == (high * 256 + low - 1) % 0x10000,
{
    proof {
        reveal(wrap16);
        reveal(word_of);
        reveal(high_byte);
        reveal(low_byte);
    }
    let word: u16 = high as u16 * 256 + low as u16;
    let next: u16 = if word == 0 {
        0xffff
    } else {
        word - 1
    };
    ((next / 256) as u8, (next % 256) as u8)
}

impl Cpu {
    /// The program counter and the stack pointer are 16-bit values.
    pub open spec fn wf(&self) -> bool {
        self.pc < MEMORY_SIZE && self.sp < MEMORY_SIZE
    }

    /// The state at power-up with the program counter at `pc`.
    pub open spec fn reset(pc: usize) -> Cpu {
        Cpu {
            b: 0,
            c: 0,
            d: 0,
            e: 0,
            h: 0,
            l: 0,
            psw: Psw::zeroed(),
            pc,
            sp: 0,
            enable_interrupts: false,
        }
    }

    /// The registers as a disassembly shows them: 8-bit registers as two
    /// hexadecimal digits, HL, the program counter and the stack pointer as
    /// four, then the flags.
    pub open spec fn disassembled(self) -> Seq<char> {
        "a:"@ + hex2(self.psw.a as int) + " b:"@ + hex2(self.b as int) + " c:"@ + hex2(
            self.c as int,
        ) + " d:"@ + hex2(self.d as int) + " e:"@ + hex2(self.e as int) + " lh:"@ + hex4(
            self.hl(),
        ) + " pc:"@ + hex4(self.pc as int) + " sp:"@ + hex4(self.sp as int) + " "@
            + self.psw.disassembled()
    }

    /// The address in HL, which the operand `M` stands for.
    pub open spec fn hl(self) -> int {
        word_of(self.l, self.h)
    }

    /// The state with the flags of the 8-bit `result` of a logic operation:
    /// sign, zero and parity of the result, the carry cleared.
    pub open spec fn with_flags_of(self, result: u8) -> Cpu {
        Cpu { psw: logic_flags(self.psw, result as int), ..self }
    }

    /// The state after `value` and a carry were added to the accumulator.
    pub open spec fn after_add(self, value: u8, carry: int) -> Cpu {
        let sum = self.psw.a + value + carry;
        Cpu {
            psw: Psw {
                a: low_byte(sum) as u8,
                auxiliary_carry: overflows_digit(self.psw.a % 16 + value % 16 + carry),
                ..arithmetic_flags(self.psw, sum)
            },
            ..self
        }
    }

    /// The state after `value` and a borrow were taken from the accumulator.
    pub open spec fn after_sub(self, value: u8, borrow: int) -> Cpu {
        let difference = self.psw.a - value - borrow;
        Cpu {
            psw: Psw {
                a: low_byte(difference) as u8,
                auxiliary_carry: overflows_digit(self.psw.a % 16 - value % 16 - borrow),
                ..arithmetic_flags(self.psw, difference)
            },
            ..self
        }
    }

    /// The state after the accumulator was compared with `value`: the flags
    /// of the difference, the accumulator as it was.
    pub open spec fn after_compare(self, value: u8) -> Cpu {
        Cpu {
            psw: Psw {
                auxiliary_carry: overflows_digit(self.psw.a % 16 - value % 16),
                ..arithmetic_flags(self.psw, self.psw.a - value)
            },
            ..self
        }
    }

    /// The state after an 8-bit register went from `n` to `n + 1`. The
    /// auxiliary carry is the carry out of the low digit; the carry stays.
    pub open spec fn after_inr(self, n: u8) -> Cpu {
        Cpu {
            psw: Psw {
                auxiliary_carry: overflows_digit(n % 16 + 1),
                ..counting_flags(self.psw, low_byte(n + 1) as u8)
            },
            ..self
        }
    }

    /// The state after an 8-bit register went from `n` to `n - 1`. The
    /// auxiliary carry is the borrow into the low digit; going below zero
    /// sets the carry too.
    pub open spec fn after_dec(self, n: u8) -> Cpu {
        let flags = counting_flags(self.psw, low_byte(n - 1) as u8);
        Cpu {
            psw: Psw {
                auxiliary_carry: overflows_digit(n % 16 - 1),
                carry: n == 0 || self.psw.carry,
                ..flags
            },
            ..self
        }
    }

    /// The state after the 16-bit value `value` was added to HL.
    pub open spec fn after_add_hl(self, value: int) -> Cpu {
        let sum = self.hl() + value;
        Cpu {
            h: high_byte(sum) as u8,
            l: low_byte(sum) as u8,
            psw: Psw { carry: sum > 0xffff, ..self.psw },
            ..self
        }
    }

    /// The state after the accumulator was rotated left by one bit, bit 7
    /// going to bit 0 and to the carry.
    pub open spec fn after_rlc(self) -> Cpu {
        let a = self.psw.a;
        Cpu {
            psw: Psw { a: ((a * 2) % 256 + a / 128) as u8, carry: a >= 0x80, ..self.psw },
            ..self
        }
    }

    /// The state after the accumulator was rotated right by one bit, bit 0
    /// going to bit 7 and to the carry.
    pub open spec fn after_rrc(self) -> Cpu {
        let a = self.psw.a;
        Cpu {
            psw: Psw { a: (a / 2 + (a % 2) * 128) as u8, carry: a % 2 == 1, ..self.psw },
            ..self
        }
    }

    /// The state after the accumulator was rotated left through the carry:
    /// the carry goes to bit 0, bit 7 to the carry.
    pub open spec fn after_ral(self) -> Cpu {
        let a = self.psw.a;
        Cpu {
            psw: Psw {
                a: ((a * 2) % 256 + flag_bit(self.psw.carry)) as u8,
                carry: a >= 0x80,
                ..self.psw
            },
            ..self
        }
    }

    /// The state after the accumulator was rotated right through the carry:
    /// the carry goes to bit 7, bit 0 to the carry.
    pub open spec fn after_rar(self) -> Cpu {
        let a = self.psw.a;
        Cpu {
            psw: Psw {
                a: (a / 2 + flag_bit(self.psw.carry) * 128) as u8,
                carry: a % 2 == 1,
                ..self.psw
            },
            ..self
        }
    }

    /// The state after a decimal adjust of the accumulator.
    pub open spec fn after_daa(self) -> Cpu {
        let adjusted = decimal_adjusted(self.psw.a, self.psw.auxiliary_carry, self.psw.carry);
        Cpu {
            psw: Psw {
                a: low_byte(adjusted) as u8,
                auxiliary_carry: (self.psw.a % 16 > 9 || self.psw.auxiliary_carry)
                    && overflows_digit(self.psw.a % 16 + 6),
                ..arithmetic_flags(self.psw, adjusted)
            },
            ..self
        }
    }

    /// The address that a calling instruction of `length` bytes at the
    /// current program counter returns to.
    pub open spec fn return_address(self, length: int) -> int {
        wrap16(self.pc + length)
    }

    /// The memory after the 16-bit value `word` was pushed on the stack: the
    /// high byte just below the stack pointer, the low byte below that.
    pub open spec fn pushed(self, memory: Seq<u8>, word: int) -> Seq<u8> {
        memory.update(wrap16(self.sp - 1), high_byte(word) as u8).update(
            wrap16(self.sp - 2),
            low_byte(word) as u8,
        )
    }

    /// The 16-bit value on top of the stack.
    pub open spec fn stack_top(self, memory: Seq<u8>) -> int {
        word_of(memory[self.sp as int], memory[wrap16(self.sp + 1)])
    }

    /// A processor at power-up with the program counter at `pc`.
    pub fn new(pc: usize) -> (cpu: Cpu)
        ensures
            cpu == Cpu::reset(pc),
    {
        Cpu {
            b: 0,
            c: 0,
            d: 0,
            e: 0,
            h: 0,
            l: 0,
            psw: Psw {
                a: 0,
                sign: false,
                zero: false,
                auxiliary_carry: false,
                parity: false,
                carry: false,
            },
            pc,
            sp: 0,
            enable_interrupts: false,
        }
    }

    /// The address in HL: H is the high byte, L the low byte.
    pub fn m(&self) -> (address: usize)
        ensures
            address == self.hl(),
            address == self.h * 256 + self.l,
            address < MEMORY_SIZE,
    {
        proof {
            reveal(word_of);
        }
        Memory::to_word(self.l, self.h)
    }

    /// The registers and flags as text, in the form
    /// `a:00 b:00 c:00 d:00 e:00 lh:0000 pc:0000 sp:0000 [C=0 P=0 S=0 Z=0]`.
    pub fn disassemble(&self) -> (text: String)
        requires
            self.wf(),
        ensures
            text@ == self.disassembled(),
    {
        let mut text: String = String::from_str("a:");
        push_hex2(&mut text, self.psw.a);
        text.append(" b:");
        push_hex2(&mut text, self.b);
        text.append(" c:");
        push_hex2(&mut text, self.c);
        text.append(" d:");
        push_hex2(&mut text, self.d);
        text.append(" e:");
        push_hex2(&mut text, self.e);
        text.append(" lh:");
        push_hex4(&mut text, self.m());
        text.append(" pc:");
        push_hex4(&mut text, self.pc);
        text.append(" sp:");
        push_hex4(&mut text, self.sp);
        text.append(" ");
        let flags: String = self.psw.disassemble();
        text.append(flags.as_str());
        text
    }

    /// Sets sign, zero and parity from the low byte of `value` and clears
    /// the carry.
    pub fn set_logic_flags(&mut self, value: i16)
        ensures
            *final(self) == (Cpu { psw: logic_flags(old(self).psw, value as int), ..*old(self) }),
            final(self).psw.zero <==> value as int % 256 == 0,
            final(self).psw.sign <==> value as int % 256 >= 0x80,
            final(self).psw.parity <==> even_parity(value as int % 256),
            !final(self).psw.carry,
            final(self).psw.auxiliary_carry == old(self).psw.auxiliary_carry,
    {
        proof {
            reveal(logic_flags);
            reveal(low_byte);
        }
        let low: u8 = low_byte_of(value);
        self.psw.zero = low == 0;
        self.psw.sign = low >= 0x80;
        self.psw.parity = has_even_parity(low);
        self.psw.carry = false;
    }

    /// Sets sign, zero and parity from the low byte of `value`, and the carry
    /// if `value` does not fit in eight bits. The auxiliary carry stays.
    pub fn set_arithmetic_flags(&mut self, value: i16)
        ensures
            *final(self) == (Cpu {
                psw: arithmetic_flags(old(self).psw, value as int),
                ..*old(self)
            }),
            final(self).psw.zero <==> value as int % 256 == 0,
            final(self).psw.sign <==> value as int % 256 >= 0x80,
            final(self).psw.parity <==> even_parity(value as int % 256),
            final(self).psw.carry <==> value < 0 || value > 0xff,
            final(self).psw.auxiliary_carry == old(self).psw.auxiliary_carry,
    {
        proof {
            reveal(arithmetic_flags);
            reveal(low_byte);
        }
        let low: u8 = low_byte_of(value);
        self.psw.zero = low == 0;
        self.psw.sign = low >= 0x80;
        self.psw.parity = has_even_parity(low);
        self.psw.carry = value < 0 || value > 0xff;
    }

    /// Jumps to `word` if `flag` holds, and says whether it did.
    pub fn jump_if_flag(&mut self, word: usize, flag: bool) -> (jumped: bool)
        ensures
            jumped == flag,
            flag ==> *final(self) == (Cpu { pc: word, ..*old(self) }),
            !flag ==> *final(self) == *old(self),
    {
        if flag {
            self.pc = word;
            true
        } else {
            false
        }
    }

    /// Calls the subroutine at `target_pc`: pushes the address of the
    /// instruction behind a three-byte call, high byte at `sp - 1`, low byte
    /// at `sp - 2`, lowers the stack pointer by two and jumps.
    pub fn call(&mut self, memory: &mut Memory, target_pc: usize)
        requires
            old(self).wf(),
            old(memory).wf(),
        ensures
            final(memory).wf(),
            final(memory)@ == old(self).pushed(old(memory)@, old(self).return_address(3)),
            *final(self) == (Cpu {
                sp: wrap16(old(self).sp - 2) as usize,
                pc: target_pc,
                ..*old(self)
            }),
            final(self).sp == (old(self).sp - 2) % 0x10000,
            old(self).sp >= 2 ==> final(self).sp == old(self).sp - 2,
            old(self).sp >= 2 && old(self).pc + 3 < MEMORY_SIZE ==> {
                &&& final(memory)@[old(self).sp - 1] == (old(self).pc + 3) / 256
                &&& final(memory)@[old(self).sp - 2] == (old(self).pc + 3) % 256
            },
            final(self).sp < MEMORY_SIZE,
    {
        self.call_from(memory, target_pc, 3);
    }

    /// Calls the subroutine at `target_pc` from an instruction of `length`
    /// bytes: pushes the address of the instruction behind it, lowers the
    /// stack pointer by two and jumps. An interrupt is such a call of
    /// length 0.
    pub fn call_from(&mut self, memory: &mut Memory, target_pc: usize, length: usize)
        requires
            old(self).wf(),
            old(memory).wf(),
            length <= 3,
        ensures
            final(memory).wf(),
            final(memory)@ == old(self).pushed(
                old(memory)@,
                old(self).return_address(length as int),
            ),
            *final(self) == (Cpu {
                sp: wrap16(old(self).sp - 2) as usize,
                pc: target_pc,
                ..*old(self)
            }),
            final(self).sp == (old(self).sp - 2) % 0x10000,
            old(self).sp >= 2 ==> final(self).sp == old(self).sp - 2,
            old(self).sp >= 2 && old(self).pc + length < MEMORY_SIZE ==> {
                &&& final(memory)@[old(self).sp - 1] == (old(self).pc + length) / 256
                &&& final(memory)@[old(self).sp - 2] == (old(self).pc + length) % 256
            },
            final(self).sp < MEMORY_SIZE,
    {
        proof {
            reveal(wrap16);
            reveal(high_byte);
            reveal(low_byte);
        }
        let ret: usize = address_after(self.pc, length);
        memory.write(address_before(self.sp, 1), (ret / 256) as u8);
        memory.write(address_before(self.sp, 2), (ret % 256) as u8);
        self.sp = address_before(self.sp, 2);
        self.pc = target_pc;
    }

    /// Returns from a subroutine if `flag` holds: pops the program counter,
    /// low byte first, and raises the stack pointer by two. Says whether it
    /// did.
    pub fn ret(&mut self, memory: &Memory, flag: bool) -> (returned: bool)
        requires
            old(self).wf(),
            memory.wf(),
        ensures
            returned == flag,
            flag ==> *final(self) == (Cpu {
                pc: old(self).stack_top(memory@) as usize,
                sp: wrap16(old(self).sp + 2) as usize,
                ..*old(self)
            }),
            flag ==> final(self).sp == (old(self).sp + 2) % 0x10000,
            flag && old(self).sp + 2 < MEMORY_SIZE ==> {
                &&& final(self).sp == old(self).sp + 2
                &&& final(self).pc == memory@[old(self).sp + 1] * 256 + memory@[old(self).sp as int]
            },
            !flag ==> *final(self) == *old(self),
            final(self).wf(),
    {
        proof {
            reveal(word_of);
            reveal(wrap16);
        }
        if flag {
            let low: u8 = memory.read(self.sp);
            let high: u8 = memory.read(address_after(self.sp, 1));
            self.pc = Memory::to_word(low, high);
            self.sp = address_after(self.sp, 2);
        }
        flag
    }

    /// Decrements an 8-bit value, 0 going to 0xff. Sets sign, zero and
    /// parity from the result and the auxiliary carry if the low digit
    /// borrows. The carry is left alone, but for the step from 0 to 0xff,
    /// which sets it.
    pub fn dec(&mut self, n: u8) -> (value: u8)
        ensures
            value == (n - 1) % 256,
            value == low_byte(n - 1),
            *final(self) == old(self).after_dec(n),
            final(self).psw.auxiliary_carry <==> n % 16 == 0,
            n == 0 ==> value == 0xff && final(self).psw.carry && final(self).psw.auxiliary_carry,
            n != 0 ==> value == n - 1 && final(self).psw.carry == old(self).psw.carry,
    {
        proof {
            reveal(low_byte);
            reveal(counting_flags);
        }
        let value: u8 = if n == 0 {
            0xff
        } else {
            n - 1
        };
        self.psw.zero = value == 0;
        self.psw.sign = value >= 0x80;
        self.psw.parity = has_even_parity(value);
        self.psw.auxiliary_carry = n % 16 == 0;
        if n == 0 {
            self.psw.carry = true;
        }
        value
    }

    /// The accumulator XOR `value`, with sign, zero and parity of the result
    /// and the carry cleared; the accumulator itself is left to the caller.
    pub fn xra(&mut self, value: u8) -> (result: u8)
        ensures
            result == old(self).psw.a ^ value,
            *final(self) == old(self).with_flags_of(result),
            !final(self).psw.carry,
            final(self).psw.zero <==> result == 0,
            final(self).psw.sign <==> result >= 0x80,
            final(self).psw.parity <==> even_parity(result as int),
            final(self).psw.auxiliary_carry == old(self).psw.auxiliary_carry,
    {
        proof {
            reveal(logic_flags);
            reveal(low_byte);
        }
        let result: u8 = self.psw.a ^ value;
        self.set_flags_of_byte(result);
        result
    }

    /// The accumulator AND `value`, with sign, zero and parity of the result
    /// and the carry cleared; the accumulator itself is left to the caller.
    pub fn and(&mut self, value: u8) -> (result: u8)
        ensures
            result == old(self).psw.a & value,
            *final(self) == old(self).with_flags_of(result),
            !final(self).psw.carry,
            final(self).psw.zero <==> result == 0,
            final(self).psw.sign <==> result >= 0x80,
            final(self).psw.parity <==> even_parity(result as int),
            final(self).psw.auxiliary_carry == old(self).psw.auxiliary_carry,
    {
        proof {
            reveal(logic_flags);
            reveal(low_byte);
        }
        let result: u8 = self.psw.a & value;
        self.set_flags_of_byte(result);
        result
    }

    /// The accumulator OR `value`, with sign, zero and parity of the result
    /// and the carry cleared; the accumulator itself is left to the caller.
    pub fn or(&mut self, value: u8) -> (result: u8)
        ensures
            result == old(self).psw.a | value,
            *final(self) == old(self).with_flags_of(result),
            !final(self).psw.carry,
            final(self).psw.zero <==> result == 0,
            final(self).psw.sign <==> result >= 0x80,
            final(self).psw.parity <==> even_parity(result as int),
            final(self).psw.auxiliary_carry == old(self).psw.auxiliary_carry,
    {
        proof {
            reveal(logic_flags);
            reveal(low_byte);
        }
        let result: u8 = self.psw.a | value;
        self.set_flags_of_byte(result);
        result
    }

    /// Adds `value` and the incoming carry to the accumulator. Sign, zero,
    /// parity and carry follow from the sum before it is cut down to eight
    /// bits; the auxiliary carry is the carry out of bit 3.
    pub fn add(&mut self, value: u8, carry: u16)
        requires
            carry <= 1,
        ensures
            *final(self) == old(self).after_add(value, carry as int),
            final(self).psw.a == (old(self).psw.a + value + carry) % 256,
            final(self).psw.zero <==> (old(self).psw.a + value + carry) % 256 == 0,
            final(self).psw.sign <==> (old(self).psw.a + value + carry) % 256 >= 0x80,
            final(self).psw.parity <==> even_parity((old(self).psw.a + value + carry) % 256),
            final(self).psw.carry <==> old(self).psw.a + value + carry > 0xff,
            final(self).psw.auxiliary_carry <==> old(self).psw.a % 16 + value % 16 + carry > 0x0f,
    {
        proof {
            reveal(arithmetic_flags);
            reveal(low_byte);
        }
        let sum: u16 = self.psw.a as u16 + value as u16 + carry;
        let low_digits: u16 = (self.psw.a % 16) as u16 + (value % 16) as u16 + carry;
        self.set_arithmetic_flags(sum as i16);
        self.psw.auxiliary_carry = low_digits > 0x0f;
        self.psw.a = (sum % 256) as u8;
    }

    /// Subtracts `value` and the incoming borrow from the accumulator. Sign,
    /// zero, parity and carry follow from the difference before it is cut
    /// down to eight bits; the auxiliary carry is the borrow into bit 3.
    pub fn sub(&mut self, value: u8, carry: u16)
        requires
            carry <= 1,
        ensures
            *final(self) == old(self).after_sub(value, carry as int),
            final(self).psw.a == (old(self).psw.a - value - carry) % 256,
            final(self).psw.zero <==> (old(self).psw.a - value - carry) % 256 == 0,
            final(self).psw.sign <==> (old(self).psw.a - value - carry) % 256 >= 0x80,
            final(self).psw.parity <==> even_parity((old(self).psw.a - value - carry) % 256),
            final(self).psw.carry <==> old(self).psw.a - value - carry < 0,
            final(self).psw.auxiliary_carry <==> old(self).psw.a % 16 - value % 16 - carry < 0,
    {
        proof {
            reveal(arithmetic_flags);
            reveal(low_byte);
        }
        let low_digits: i16 = difference(self.psw.a % 16, value % 16, carry);
        let value: i16 = difference(self.psw.a, value, carry);
        self.set_arithmetic_flags(value);
        self.psw.auxiliary_carry = low_digits < 0;
        self.psw.a = low_byte_of(value);
    }

    /// Compares the accumulator with `n`: the flags of `a - n`, the
    /// accumulator unchanged.
    pub fn cmp(&mut self, n: u8)
        ensures
            *final(self) == old(self).after_compare(n),
            final(self).psw.a == old(self).psw.a,
            final(self).psw.zero <==> old(self).psw.a == n,
            final(self).psw.carry <==> old(self).psw.a < n,
            final(self).psw.auxiliary_carry <==> old(self).psw.a % 16 < n % 16,
    {
        proof {
            reveal(arithmetic_flags);
            reveal(low_byte);
        }
        let value: i16 = difference(self.psw.a, n, 0);
        self.set_arithmetic_flags(value);
        self.psw.auxiliary_carry = self.psw.a % 16 < n % 16;
    }

    /// Increments an 8-bit value, 0xff going to 0. Sets sign, zero and
    /// parity from the result and the auxiliary carry if the low digit
    /// carries, and leaves the carry alone.
    pub fn inr(&mut self, n: u8) -> (value: u8)
        ensures
            value == (n + 1) % 256,
            value == low_byte(n + 1),
            *final(self) == old(self).after_inr(n),
            n == 0xff ==> value == 0 && final(self).psw.zero,
            n != 0xff ==> value == n + 1 && !final(self).psw.zero,
            final(self).psw.auxiliary_carry <==> n % 16 == 0x0f,
            final(self).psw.carry == old(self).psw.carry,
    {
        proof {
            reveal(low_byte);
            reveal(counting_flags);
        }
        let value: u8 = if n == 0xff {
            0
        } else {
            n + 1
        };
        self.psw.zero = value == 0;
        self.psw.sign = value >= 0x80;
        self.psw.parity = has_even_parity(value);
        self.psw.auxiliary_carry = n % 16 == 0x0f;
        value
    }

    /// Adds the register pair with low byte `b0` and high byte `b1` to HL.
    /// Only the carry flag is touched: it is set if the sum passes 0xffff.
    pub fn add_hl(&mut self, b0: u8, b1: u8)
        ensures
            *final(self) == old(self).after_add_hl(word_of(b0, b1)),
            final(self).h * 256 + final(self).l == (old(self).h * 256 + old(self).l + b1 * 256 + b0)
                % 0x10000,
            final(self).psw.carry <==> old(self).h * 256 + old(self).l + b1 * 256 + b0 > 0xffff,
    {
        proof {
            reveal(wrap16);
            reveal(word_of);
            reveal(high_byte);
            reveal(low_byte);
        }
        let hl: usize = Memory::to_word(self.l, self.h);
        let v: usize = Memory::to_word(b0, b1);
        let result: usize = hl + v;
        self.psw.carry = result > 0xffff;
        self.h = ((result / 256) % 256) as u8;
        self.l = (result % 256) as u8;
    }

    /// Rotates the accumulator left: bit 7 goes to bit 0 and to the carry.
    pub fn rlc(&mut self)
        ensures
            *final(self) == old(self).after_rlc(),
    {
        let a: u8 = self.psw.a;
        self.psw.carry = a >= 0x80;
        self.psw.a = (a % 0x80) * 2 + a / 0x80;
    }

    /// Rotates the accumulator right: bit 0 goes to bit 7 and to the carry.
    pub fn rrc(&mut self)
        ensures
            *final(self) == old(self).after_rrc(),
    {
        let a: u8 = self.psw.a;
        self.psw.carry = a % 2 == 1;
        self.psw.a = a / 2 + (a % 2) * 0x80;
    }

    /// Rotates the accumulator left through the carry.
    pub fn ral(&mut self)
        ensures
            *final(self) == old(self).after_ral(),
    {
        let a: u8 = self.psw.a;
        let carry: u8 = if self.psw.carry {
            1
        } else {
            0
        };
        self.psw.carry = a >= 0x80;
        self.psw.a = (a % 0x80) * 2 + carry;
    }

    /// Rotates the accumulator right through the carry.
    pub fn rar(&mut self)
        ensures
            *final(self) == old(self).after_rar(),
    {
        let a: u8 = self.psw.a;
        let carry: u8 = if self.psw.carry {
            1
        } else {
            0
        };
        self.psw.carry = a % 2 == 1;
        self.psw.a = a / 2 + carry * 0x80;
    }

    /// Adjusts the accumulator to two decimal digits after an addition of
    /// packed decimal numbers: adds six if the low digit is above nine or
    /// the auxiliary carry is set, then 0x60 if the high digit is above nine
    /// or the carry is set. Sign, zero, parity and carry follow from the
    /// adjusted value; the auxiliary carry is the carry of the low
    /// correction out of bit 3.
    pub fn daa(&mut self)
        ensures
            *final(self) == old(self).after_daa(),
    {
        proof {
            reveal(decimal_adjusted);
            reveal(low_byte);
        }
        let a: u16 = self.psw.a as u16;
        let corrects_low: bool = a % 16 > 9 || self.psw.auxiliary_carry;
        let low_corrected: u16 = if corrects_low {
            a + 6
        } else {
            a
        };
        let adjusted: u16 = if (low_corrected / 16) % 16 > 9 || self.psw.carry {
            low_corrected + 0x60
        } else {
            low_corrected
        };
        self.set_arithmetic_flags(adjusted as i16);
        self.psw.auxiliary_carry = corrects_low && a % 16 + 6 > 0x0f;
        self.psw.a = (adjusted % 256) as u8;
    }

    /// The stack pointer as two bytes, low byte first.
    pub fn sp_bytes(&self) -> (bytes: (u8, u8))
        requires
            self.wf(),
        ensures
            bytes.0 == low_byte(self.sp as int),
            bytes.1 == high_byte(self.sp as int),
            word_of(bytes.0, bytes.1) == self.sp,
    {
        proof {
            reveal(word_of);
            reveal(high_byte);
            reveal(low_byte);
        }
        ((self.sp % 256) as u8, (self.sp / 256) as u8)
    }

    /// Sets the flags of the result of a logic operation.
    fn set_flags_of_byte(&mut self, result: u8)
        ensures
            *final(self) == old(self).with_flags_of(result),
            !final(self).psw.carry,
            final(self).psw.zero <==> result == 0,
            final(self).psw.sign <==> result >= 0x80,
            final(self).psw.parity <==> even_parity(result as int),
            final(self).psw.auxiliary_carry == old(self).psw.auxiliary_carry,
    {
        proof {
            reveal(low_byte);
        }
        self.set_logic_flags(result as i16);
    }
}

} // verus!
