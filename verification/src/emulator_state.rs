//! The state that the interpreter shares with the front end: the two input
//! ports that the keyboard feeds, the two output ports that trigger sounds,
//! and the pause switch.

use vstd::prelude::*;
use crate::memory::{Memory, GRAPHIC_MEMORY_SIZE, GRAPHIC_MEMORY_START};
use crate::state::bit_of;

verus! {

/// The bit of input port 1 that the board ties to 1.
pub const IN_1_WIRED: u8 = 0x08;

/// What the shared state holds, as plain values.
pub struct Ports {
    /// Input port 1: bit 0 coin, bit 1 two players, bit 2 one player, bit 3
    /// always 1, bit 4 fire, bit 5 left, bit 6 right.
    pub in_1: u8,
    /// Input port 2: bit 2 tilt, bit 4 fire, bit 5 left, bit 6 right, all of
    /// player 2.
    pub in_2: u8,
    /// Output port 3: bit 0 UFO, bit 1 shot, bit 2 player dies, bit 3 invader
    /// dies.
    pub out_3: u8,
    /// Output port 5: bits 0 to 3 fleet movement, bit 4 UFO hit.
    pub out_5: u8,
    pub paused: bool,
}

/// `byte` with bit `bit` set if `on` holds, cleared if not.
pub open spec fn with_bit(byte: u8, bit: u8, on: bool) -> u8 {
    if on {
        byte | (1u8 << bit)
    } else {
        byte & !(1u8 << bit)
    }
}

/// Setting or clearing one bit of a byte gives that bit its new value and
/// leaves the seven others as they were.
pub proof fn lemma_with_bit(byte: u8, bit: u8, on: bool)
    requires
        bit < 8,
    ensures
        forall|other: int|
            0 <= other < 8 ==> #[trigger] bit_of(with_bit(byte, bit, on), other) == (if other
                == bit {
                on
            } else {
                bit_of(byte, other)
            }),
{
    lemma_bit_set(byte, bit);
    lemma_bit_cleared(byte, bit);
}

/// What setting one bit does to each of the eight bits.
proof fn lemma_bit_set(byte: u8, bit: u8)
    by (bit_vector)
    requires
        bit < 8,
    ensures
        ((byte | (1u8 << bit)) % 2 == 1) == (bit == 0 || byte % 2 == 1),
        (((byte | (1u8 << bit)) / 2) % 2 == 1) == (bit == 1 || (byte / 2) % 2 == 1),
        (((byte | (1u8 << bit)) / 4) % 2 == 1) == (bit == 2 || (byte / 4) % 2 == 1),
        (((byte | (1u8 << bit)) / 8) % 2 == 1) == (bit == 3 || (byte / 8) % 2 == 1),
        (((byte | (1u8 << bit)) / 16) % 2 == 1) == (bit == 4 || (byte / 16) % 2 == 1),
        (((byte | (1u8 << bit)) / 32) % 2 == 1) == (bit == 5 || (byte / 32) % 2 == 1),
        (((byte | (1u8 << bit)) / 64) % 2 == 1) == (bit == 6 || (byte / 64) % 2 == 1),
        (((byte | (1u8 << bit)) / 128) % 2 == 1) == (bit == 7 || (byte / 128) % 2 == 1),
{
}

/// What clearing one bit does to each of the eight bits.
proof fn lemma_bit_cleared(byte: u8, bit: u8)
    by (bit_vector)
    requires
        bit < 8,
    ensures
        ((byte & !(1u8 << bit)) % 2 == 1) == (bit != 0 && byte % 2 == 1),
        (((byte & !(1u8 << bit)) / 2) % 2 == 1) == (bit != 1 && (byte / 2) % 2 == 1),
        (((byte & !(1u8 << bit)) / 4) % 2 == 1) == (bit != 2 && (byte / 4) % 2 == 1),
        (((byte & !(1u8 << bit)) / 8) % 2 == 1) == (bit != 3 && (byte / 8) % 2 == 1),
        (((byte & !(1u8 << bit)) / 16) % 2 == 1) == (bit != 4 && (byte / 16) % 2 == 1),
        (((byte & !(1u8 << bit)) / 32) % 2 == 1) == (bit != 5 && (byte / 32) % 2 == 1),
        (((byte & !(1u8 << bit)) / 64) % 2 == 1) == (bit != 6 && (byte / 64) % 2 == 1),
        (((byte & !(1u8 << bit)) / 128) % 2 == 1) == (bit != 7 && (byte / 128) % 2 == 1),
{
}

/// Setting bit 3 leaves the seven other bits as they were.
proof fn lemma_wired_bit(byte: u8)
    by (bit_vector)
    ensures
        ((byte | 0x08u8) % 2 == 1) == (byte % 2 == 1),
        (((byte | 0x08u8) / 2) % 2 == 1) == ((byte / 2) % 2 == 1),
        (((byte | 0x08u8) / 4) % 2 == 1) == ((byte / 4) % 2 == 1),
        ((byte | 0x08u8) / 8) % 2 == 1,
        (((byte | 0x08u8) / 16) % 2 == 1) == ((byte / 16) % 2 == 1),
        (((byte | 0x08u8) / 32) % 2 == 1) == ((byte / 32) % 2 == 1),
        (((byte | 0x08u8) / 64) % 2 == 1) == ((byte / 64) % 2 == 1),
        (((byte | 0x08u8) / 128) % 2 == 1) == ((byte / 128) % 2 == 1),
        (byte / 8) % 2 == 1 ==> byte | 0x08u8 == byte,
{
}

/// The ports and the pause switch. The interpreter reads the input ports and
/// writes the output ports; the front end does the reverse.
pub struct SharedState {
    in_1: u8,
    in_2: u8,
    out_3: u8,
    out_5: u8,
    is_paused: bool,
}

impl View for SharedState {
    type V = Ports;

    closed spec fn view(&self) -> Ports {
        Ports {
            in_1: self.in_1,
            in_2: self.in_2,
            out_3: self.out_3,
            out_5: self.out_5,
            paused: self.is_paused,
        }
    }
}

impl SharedState {
    /// Bit 3 of input port 1 is wired to 1.
    #[verifier::type_invariant]
    spec fn wired(&self) -> bool {
        bit_of(self.in_1, 3)
    }

    /// The state at power-up: nothing pressed, nothing sounding, running.
    pub fn new() -> (state: SharedState)
        ensures
            state@ == (Ports { in_1: IN_1_WIRED, in_2: 0, out_3: 0, out_5: 0, paused: false }),
    {
        SharedState { in_1: IN_1_WIRED, in_2: 0, out_3: 0, out_5: 0, is_paused: false }
    }

    /// The video window of `memory`, for the front end to draw.
    pub fn graphic_memory(&self, memory: &Memory) -> (window: Vec<u8>)
        requires
            memory.wf(),
        ensures
            window@ == memory@.subrange(
                GRAPHIC_MEMORY_START as int,
                GRAPHIC_MEMORY_START + GRAPHIC_MEMORY_SIZE,
            ),
    {
        memory.graphic_memory()
    }

    /// Records what the program wrote to output port 3.
    pub fn set_out_3(&mut self, number: u8)
        ensures
            final(self)@ == (Ports { out_3: number, ..old(self)@ }),
    {
        proof {
            use_type_invariant(&*self);
        }
        self.out_3 = number;
    }

    /// Records what the program wrote to output port 5.
    pub fn set_out_5(&mut self, number: u8)
        ensures
            final(self)@ == (Ports { out_5: number, ..old(self)@ }),
    {
        proof {
            use_type_invariant(&*self);
        }
        self.out_5 = number;
    }

    /// The byte last written to output port 3.
    pub fn get_out_3(&self) -> (value: u8)
        ensures
            value == self@.out_3,
    {
        self.out_3
    }

    /// The byte last written to output port 5.
    pub fn get_out_5(&self) -> (value: u8)
        ensures
            value == self@.out_5,
    {
        self.out_5
    }

    /// Sets or clears one bit of input port 1 and leaves the other bits of
    /// the port, and everything else, as they were. Bit 3 is wired to 1 and
    /// stays set whatever is asked of it.
    pub fn set_bit_in_1(&mut self, bit: u8, value: bool)
        requires
            bit < 8,
        ensures
            final(self)@ == (Ports {
                in_1: with_bit(old(self)@.in_1, bit, value) | IN_1_WIRED,
                ..old(self)@
            }),
            forall|other: int|
                0 <= other < 8 ==> #[trigger] bit_of(final(self)@.in_1, other) == (if other == 3 {
                    true
                } else if other == bit {
                    value
                } else {
                    bit_of(old(self)@.in_1, other)
                }),
    {
        proof {
            use_type_invariant(&*self);
        }
        let mask: u8 = 1u8 << bit;
        let updated: u8 = if value {
            self.in_1 | mask
        } else {
            self.in_1 & !mask
        };
        proof {
            lemma_wired_bit(updated);
        }
        self.in_1 = updated | IN_1_WIRED;
        proof {
            assert(updated == with_bit(old(self)@.in_1, bit, value));
            lemma_with_bit(old(self)@.in_1, bit, value);
            assert forall|other: int| 0 <= other < 8 implies #[trigger] bit_of(self.in_1, other)
                == (if other == 3 {
                true
            } else if other == bit {
                value
            } else {
                bit_of(old(self)@.in_1, other)
            }) by {
                assert(bit_of(updated, other) == (if other == bit {
                    value
                } else {
                    bit_of(old(self)@.in_1, other)
                }));
            }
        }
    }

    /// What the program reads from input port 1; bit 3 is always set.
    pub fn get_in_1(&self) -> (value: u8)
        ensures
            value == self@.in_1,
            bit_of(value, 3),
    {
        proof {
            use_type_invariant(self);
        }
        self.in_1
    }

    /// Sets or clears one bit of input port 2 and leaves the other bits of
    /// the port, and everything else, as they were.
    pub fn set_bit_in_2(&mut self, bit: u8, value: bool)
        requires
            bit < 8,
        ensures
            final(self)@ == (Ports { in_2: with_bit(old(self)@.in_2, bit, value), ..old(self)@ }),
            forall|other: int|
                0 <= other < 8 ==> #[trigger] bit_of(final(self)@.in_2, other) == (if other
                    == bit {
                    value
                } else {
                    bit_of(old(self)@.in_2, other)
                }),
    {
        proof {
            use_type_invariant(&*self);
            lemma_with_bit(self.in_2, bit, value);
        }
        let mask: u8 = 1u8 << bit;
        if value {
            self.in_2 |= mask;
        } else {
            self.in_2 &= !mask;
        }
    }

    /// What the program reads from input port 2.
    pub fn get_in_2(&self) -> (value: u8)
        ensures
            value == self@.in_2,
    {
        self.in_2
    }

    /// Whether the interpreter is held.
    pub fn is_paused(&self) -> (paused: bool)
        ensures
            paused == self@.paused,
    {
        self.is_paused
    }

    /// Holds the interpreter from its next step on.
    pub fn pause(&mut self)
        ensures
            final(self)@ == (Ports { paused: true, ..old(self)@ }),
    {
        proof {
            use_type_invariant(&*self);
        }
        self.is_paused = true;
    }

    /// Lets the interpreter go on with its next step.
    pub fn unpause(&mut self)
        ensures
            final(self)@ == (Ports { paused: false, ..old(self)@ }),
    {
        proof {
            use_type_invariant(&*self);
        }
        self.is_paused = false;
    }
}

/// Two bits of one port do not disturb each other: a bit that was set stays
/// set while another is set, and a bit that is cleared leaves the other as it
/// was.
pub proof fn lemma_port_bits_isolated(port: u8, first: u8, second: u8)
    requires
        first < 8,
        second < 8,
        first != second,
    ensures
        bit_of(with_bit(with_bit(port, first, true), second, true), first as int),
        bit_of(with_bit(with_bit(port, first, true), second, true), second as int),
        bit_of(
            with_bit(with_bit(with_bit(port, first, true), second, true), first, false),
            second as int,
        ),
        !bit_of(
            with_bit(with_bit(with_bit(port, first, true), second, true), first, false),
            first as int,
        ),
{
    let one = with_bit(port, first, true);
    let two = with_bit(one, second, true);
    lemma_with_bit(port, first, true);
    lemma_with_bit(one, second, true);
    lemma_with_bit(two, first, false);
}

} // verus!
