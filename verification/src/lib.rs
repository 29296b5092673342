//! An Intel 8080 interpreter with the input/output hardware of the Space
//! Invaders arcade board: registers and flags, memory, the opcode table, the
//! instruction interpreter and the frame scheduler that drives it, and what
//! a front end needs to show the screen and to play the sounds.

pub mod emulator;
pub mod emulator_state;
pub mod machine;
pub mod memory;
pub mod opcodes;
pub mod screen;
pub mod sounds;
pub mod state;
pub mod text;
