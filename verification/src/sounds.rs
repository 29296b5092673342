//! The sounds of the game and the port bits that switch them on and off.

use vstd::prelude::*;
use crate::state::{bit_of, test_bit};

verus! {

/// A sound that the game can play.
#[derive(Clone, Copy, Debug, PartialEq, Eq, Hash, Structural)]
pub enum SoundType {
    Fire,
    InvaderDies,
    PlayerDies,
    Ufo,
    Invader1,
    Invader2,
    Invader3,
    Invader4,
    UfoHit,
}

/// Tells the player of sounds to switch a sound on or off.
#[derive(Clone, Copy, Debug, PartialEq, Eq, Structural)]
pub struct Message {
    pub sound_type: SoundType,
    pub on: bool,
}

/// A bit of an input or output port.
#[derive(Clone, Copy, Debug, PartialEq, Eq, Structural)]
pub struct ChannelBit {
    /// The number of the port.
    pub channel: u8,
    /// The number of the bit, 0 being the lowest.
    pub bit: u8,
}

/// A sound, the file that holds it and the bit of an output port that
/// triggers it.
pub struct SoundInfo {
    pub sound_type: SoundType,
    pub path: String,
    pub channel_bit: ChannelBit,
}

/// What a `SoundInfo` holds, as plain values.
pub struct SoundEntry {
    pub sound_type: SoundType,
    pub path: Seq<char>,
    pub channel: u8,
    pub bit: u8,
}

impl View for SoundInfo {
    type V = SoundEntry;

    open spec fn view(&self) -> SoundEntry {
        SoundEntry {
            sound_type: self.sound_type,
            path: self.path@,
            channel: self.channel_bit.channel,
            bit: self.channel_bit.bit,
        }
    }
}

/// Number of sounds.
pub const SOUND_COUNT: usize = 9;

/// The sounds of the game: bits 0 to 3 of port 3 trigger the UFO, the
/// shot, the player's death and an invader's death; bits 0 to 4 of port 5
/// the four steps of the fleet and the hit on the UFO.
pub open spec fn sound_entry(index: int) -> SoundEntry {
    if index == 0 {
        SoundEntry {
            sound_type: SoundType::Ufo,
            path: "sounds/ufo_lowpitch.wav"@,
            channel: 3,
            bit: 0,
        }
    } else if index == 1 {
        SoundEntry { sound_type: SoundType::Fire, path: "sounds/shoot.wav"@, channel: 3, bit: 1 }
    } else if index == 2 {
        SoundEntry {
            sound_type: SoundType::PlayerDies,
            path: "sounds/explosion.wav"@,
            channel: 3,
            bit: 2,
        }
    } else if index == 3 {
        SoundEntry {
            sound_type: SoundType::InvaderDies,
            path: "sounds/invaderkilled.wav"@,
            channel: 3,
            bit: 3,
        }
    } else if index == 4 {
        SoundEntry {
            sound_type: SoundType::Invader1,
            path: "sounds/fastinvader1.wav"@,
            channel: 5,
            bit: 0,
        }
    } else if index == 5 {
        SoundEntry {
            sound_type: SoundType::Invader2,
            path: "sounds/fastinvader2.wav"@,
            channel: 5,
            bit: 1,
        }
    } else if index == 6 {
        SoundEntry {
            sound_type: SoundType::Invader3,
            path: "sounds/fastinvader3.wav"@,
            channel: 5,
            bit: 2,
        }
    } else if index == 7 {
        SoundEntry {
            sound_type: SoundType::Invader4,
            path: "sounds/fastinvader4.wav"@,
            channel: 5,
            bit: 3,
        }
    } else {
        SoundEntry {
            sound_type: SoundType::UfoHit,
            path: "sounds/explosion.wav"@,
            channel: 5,
            bit: 4,
        }
    }
}

impl ChannelBit {
    /// Bit `bit` of port `channel`.
    pub fn new(channel: u8, bit: u8) -> (channel_bit: ChannelBit)
        ensures
            channel_bit == (ChannelBit { channel, bit }),
    {
        ChannelBit { channel, bit }
    }

    /// Whether this bit is set in `value`, the byte on its port.
    pub fn is_set(&self, value: u8) -> (set: bool)
        requires
            self.bit < 8,
        ensures
            set == bit_of(value, self.bit as int),
    {
        test_bit(value, self.bit)
    }
}

impl SoundInfo {
    /// The sound `sound_type`, held in the file at `path` and triggered by
    /// bit `bit` of port `channel`.
    pub fn new(sound_type: SoundType, path: &str, channel: u8, bit: u8) -> (info: SoundInfo)
        ensures
            info@ == (SoundEntry { sound_type, path: path@, channel, bit }),
    {
        SoundInfo {
            sound_type,
            path: String::from_str(path),
            channel_bit: ChannelBit::new(channel, bit),
        }
    }

    /// What to tell the player of sounds when the byte on this sound's port
    /// goes from `previous` to `current`: to switch the sound on or off if
    /// its bit changed, nothing if it did not.
    pub fn message(&self, previous: u8, current: u8) -> (message: Option<Message>)
        requires
            self@.bit < 8,
        ensures
            message == (if bit_of(previous, self@.bit as int) != bit_of(
                current,
                self@.bit as int,
            ) {
                Some(
                    Message { sound_type: self@.sound_type, on: bit_of(current, self@.bit as int) },
                )
            } else {
                None
            }),
    {
        let was_on: bool = self.channel_bit.is_set(previous);
        let on: bool = self.channel_bit.is_set(current);
        if on != was_on {
            Some(Message { sound_type: self.sound_type, on })
        } else {
            None
        }
    }
}

/// The table of all sounds.
pub fn all_sounds() -> (sounds: Vec<SoundInfo>)
    ensures
        sounds@.len() == SOUND_COUNT,
        forall|i: int| 0 <= i < SOUND_COUNT ==> (#[trigger] sounds@[i])@ == sound_entry(i),
{
    let mut result: Vec<SoundInfo> = Vec::new();
    result.push(SoundInfo::new(SoundType::Ufo, "sounds/ufo_lowpitch.wav", 3, 0));
    result.push(SoundInfo::new(SoundType::Fire, "sounds/shoot.wav", 3, 1));
    result.push(SoundInfo::new(SoundType::PlayerDies, "sounds/explosion.wav", 3, 2));
    result.push(SoundInfo::new(SoundType::InvaderDies, "sounds/invaderkilled.wav", 3, 3));
    result.push(SoundInfo::new(SoundType::Invader1, "sounds/fastinvader1.wav", 5, 0));
    result.push(SoundInfo::new(SoundType::Invader2, "sounds/fastinvader2.wav", 5, 1));
    result.push(SoundInfo::new(SoundType::Invader3, "sounds/fastinvader3.wav", 5, 2));
    result.push(SoundInfo::new(SoundType::Invader4, "sounds/fastinvader4.wav", 5, 3));
    result.push(SoundInfo::new(SoundType::UfoHit, "sounds/explosion.wav", 5, 4));
    result
}

} // verus!
