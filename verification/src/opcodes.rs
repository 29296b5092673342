//! The opcode table: for each opcode byte that the interpreter knows, the
//! length of the instruction and the text that a disassembly shows for it.

use std::collections::HashMap;
use vstd::prelude::*;
use crate::memory::{word_of, Memory};
use crate::text::{blanks, hex2, hex4, padded, push_blanks, push_hex2, push_hex4, push_padded};

verus! {

pub const NOP: u8 = 0x00;
pub const LXI_B: u8 = 0x01;
pub const STAX_B: u8 = 0x02;
pub const INX_B: u8 = 0x03;
pub const INR_B: u8 = 0x04;
pub const DCR_B: u8 = 0x05;
pub const MVI_B: u8 = 0x06;
pub const RLC: u8 = 0x07;
pub const DAD_B: u8 = 0x09;
pub const LDAX_B: u8 = 0x0a;
pub const DCX_B: u8 = 0x0b;
pub const RRC: u8 = 0x0f;
pub const LXI_D: u8 = 0x11;
pub const STAX_D: u8 = 0x12;
pub const INX_D: u8 = 0x13;
pub const INR_C: u8 = 0x0c;
pub const DCR_C: u8 = 0x0d;
pub const MVI_C: u8 = 0x0e;
pub const INR_D: u8 = 0x14;
pub const DCR_D: u8 = 0x15;
pub const MVI_D: u8 = 0x16;
pub const RAL: u8 = 0x17;
pub const DAD_D: u8 = 0x19;
pub const LDAX_D: u8 = 0x1a;
pub const DCX_D: u8 = 0x1b;
pub const INR_E: u8 = 0x1c;
pub const DCR_E: u8 = 0x1d;
pub const MVI_E: u8 = 0x1e;
pub const RAR: u8 = 0x1f;
pub const LXI_H: u8 = 0x21;
pub const SHLD: u8 = 0x22;
pub const INX_H: u8 = 0x23;
pub const INR_H: u8 = 0x24;
pub const DCR_H: u8 = 0x25;
pub const MVI_H: u8 = 0x26;
pub const DAA: u8 = 0x27;
pub const DAD_H: u8 = 0x29;
pub const LHLD: u8 = 0x2a;
pub const DCX_H: u8 = 0x2b;
pub const INR_L: u8 = 0x2c;
pub const DCR_L: u8 = 0x2d;
pub const MVI_L: u8 = 0x2e;
pub const CMA: u8 = 0x2f;
pub const LXI_SP: u8 = 0x31;
pub const STA: u8 = 0x32;
pub const INX_SP: u8 = 0x33;
pub const INR_M: u8 = 0x34;
pub const DCR_M: u8 = 0x35;
pub const MVI_M: u8 = 0x36;
pub const STC: u8 = 0x37;
pub const DAD_SP: u8 = 0x39;
pub const LDA: u8 = 0x3a;
pub const DCX_SP: u8 = 0x3b;
pub const INR_A: u8 = 0x3c;
pub const DCR_A: u8 = 0x3d;
pub const MVI_A: u8 = 0x3e;
pub const CMC: u8 = 0x3f;

pub const MOV_B_B: u8 = 0x40;
pub const MOV_B_C: u8 = 0x41;
pub const MOV_B_D: u8 = 0x42;
pub const MOV_B_E: u8 = 0x43;
pub const MOV_B_H: u8 = 0x44;
pub const MOV_B_L: u8 = 0x45;
pub const MOV_B_M: u8 = 0x46;
pub const MOV_B_A: u8 = 0x47;

pub const MOV_C_B: u8 = 0x48;
pub const MOV_C_C: u8 = 0x49;
pub const MOV_C_D: u8 = 0x4a;
pub const MOV_C_E: u8 = 0x4b;
pub const MOV_C_H: u8 = 0x4c;
pub const MOV_C_L: u8 = 0x4d;
pub const MOV_C_M: u8 = 0x4e;
pub const MOV_C_A: u8 = 0x4f;

pub const MOV_D_B: u8 = 0x50;
pub const MOV_D_C: u8 = 0x51;
pub const MOV_D_D: u8 = 0x52;
pub const MOV_D_E: u8 = 0x53;
pub const MOV_D_H: u8 = 0x54;
pub const MOV_D_L: u8 = 0x55;
pub const MOV_D_M: u8 = 0x56;
pub const MOV_D_A: u8 = 0x57;

pub const MOV_E_B: u8 = 0x58;
pub const MOV_E_C: u8 = 0x59;
pub const MOV_E_D: u8 = 0x5a;
pub const MOV_E_E: u8 = 0x5b;
pub const MOV_E_H: u8 = 0x5c;
pub const MOV_E_L: u8 = 0x5d;
pub const MOV_E_M: u8 = 0x5e;
pub const MOV_E_A: u8 = 0x5f;

pub const MOV_H_B: u8 = 0x60;
pub const MOV_H_C: u8 = 0x61;
pub const MOV_H_D: u8 = 0x62;
pub const MOV_H_E: u8 = 0x63;
pub const MOV_H_H: u8 = 0x64;
pub const MOV_H_L: u8 = 0x65;
pub const MOV_H_M: u8 = 0x66;
pub const MOV_H_A: u8 = 0x67;

pub const MOV_L_B: u8 = 0x68;
pub const MOV_L_C: u8 = 0x69;
pub const MOV_L_D: u8 = 0x6a;
pub const MOV_L_E: u8 = 0x6b;
pub const MOV_L_H: u8 = 0x6c;
pub const MOV_L_L: u8 = 0x6d;
pub const MOV_L_M: u8 = 0x6e;
pub const MOV_L_A: u8 = 0x6f;

pub const MOV_M_B: u8 = 0x70;
pub const MOV_M_C: u8 = 0x71;
pub const MOV_M_D: u8 = 0x72;
pub const MOV_M_E: u8 = 0x73;
pub const MOV_M_H: u8 = 0x74;
pub const MOV_M_L: u8 = 0x75;
pub const MOV_M_A: u8 = 0x77;

pub const MOV_A_B: u8 = 0x78;
pub const MOV_A_C: u8 = 0x79;
pub const MOV_A_D: u8 = 0x7a;
pub const MOV_A_E: u8 = 0x7b;
pub const MOV_A_H: u8 = 0x7c;
pub const MOV_A_L: u8 = 0x7d;
pub const MOV_A_M: u8 = 0x7e;

pub const ADD_B: u8 = 0x80;
pub const ADD_C: u8 = 0x81;
pub const ADD_D: u8 = 0x82;
pub const ADD_E: u8 = 0x83;
pub const ADD_H: u8 = 0x84;
pub const ADD_L: u8 = 0x85;
pub const ADD_M: u8 = 0x86;
pub const ADD_A: u8 = 0x87;

pub const ADC_B: u8 = 0x88;
pub const ADC_C: u8 = 0x89;
pub const ADC_D: u8 = 0x8a;
pub const ADC_E: u8 = 0x8b;
pub const ADC_H: u8 = 0x8c;
pub const ADC_L: u8 = 0x8d;
pub const ADC_M: u8 = 0x8e;
pub const ADC_A: u8 = 0x8f;

pub const SUB_B: u8 = 0x90;
pub const SUB_C: u8 = 0x91;
pub const SUB_D: u8 = 0x92;
pub const SUB_E: u8 = 0x93;
pub const SUB_H: u8 = 0x94;
pub const SUB_L: u8 = 0x95;
pub const SUB_M: u8 = 0x96;
pub const SUB_A: u8 = 0x97;

pub const SBB_B: u8 = 0x98;
pub const SBB_C: u8 = 0x99;
pub const SBB_D: u8 = 0x9a;
pub const SBB_E: u8 = 0x9b;
pub const SBB_H: u8 = 0x9c;
pub const SBB_L: u8 = 0x9d;
pub const SBB_M: u8 = 0x9e;
pub const SBB_A: u8 = 0x9f;

pub const ORA_B: u8 = 0xb0;
pub const ORA_C: u8 = 0xb1;
pub const ORA_D: u8 = 0xb2;
pub const ORA_E: u8 = 0xb3;
pub const ORA_H: u8 = 0xb4;
pub const ORA_L: u8 = 0xb5;
pub const ORA_M: u8 = 0xb6;
pub const ORA_A: u8 = 0xb7;

pub const CMP_B: u8 = 0xb8;
pub const CMP_C: u8 = 0xb9;
pub const CMP_D: u8 = 0xba;
pub const CMP_E: u8 = 0xbb;
pub const CMP_H: u8 = 0xbc;
pub const CMP_L: u8 = 0xbd;
pub const CMP_M: u8 = 0xbe;
pub const CMP_A: u8 = 0xbf;

pub const ANA_B: u8 = 0xa0;
pub const ANA_C: u8 = 0xa1;
pub const ANA_D: u8 = 0xa2;
pub const ANA_E: u8 = 0xa3;
pub const ANA_H: u8 = 0xa4;
pub const ANA_L: u8 = 0xa5;
pub const ANA_M: u8 = 0xa6;
pub const ANA_A: u8 = 0xa7;

pub const XRA_B: u8 = 0xa8;
pub const XRA_C: u8 = 0xa9;
pub const XRA_D: u8 = 0xaa;
pub const XRA_E: u8 = 0xab;
pub const XRA_H: u8 = 0xac;
pub const XRA_L: u8 = 0xad;
pub const XRA_M: u8 = 0xae;
pub const XRA_A: u8 = 0xaf;

pub const RNZ: u8 = 0xc0;
pub const POP_B: u8 = 0xc1;
pub const JNZ: u8 = 0xc2;
pub const JMP: u8 = 0xc3;
pub const CNZ: u8 = 0xc4;
pub const PUSH_B: u8 = 0xc5;
pub const ADI: u8 = 0xc6;
pub const RZ: u8 = 0xc8;
pub const RET: u8 = 0xc9;
pub const JZ: u8 = 0xca;
pub const CZ: u8 = 0xcc;
pub const CALL: u8 = 0xcd;
pub const ACI: u8 = 0xce;
pub const RST_1: u8 = 0xcf;
pub const RNC: u8 = 0xd0;
pub const POP_D: u8 = 0xd1;
pub const JNC: u8 = 0xd2;
pub const OUT: u8 = 0xd3;
pub const CNC: u8 = 0xd4;
pub const PUSH_D: u8 = 0xd5;
pub const SUI: u8 = 0xd6;
pub const RST_2: u8 = 0xd7;
pub const RC: u8 = 0xd8;
pub const JC: u8 = 0xda;
pub const IN: u8 = 0xdb;
pub const CC: u8 = 0xdc;
pub const SBI: u8 = 0xde;
pub const RPO: u8 = 0xe0;
pub const POP_H: u8 = 0xe1;
pub const JPO: u8 = 0xe2;
pub const XTHL: u8 = 0xe3;
pub const CPO: u8 = 0xe4;
pub const PUSH_H: u8 = 0xe5;
pub const ANI: u8 = 0xe6;
pub const RPE: u8 = 0xe8;
pub const PCHL: u8 = 0xe9;
pub const JPE: u8 = 0xea;
pub const XCHG: u8 = 0xeb;
pub const CPE: u8 = 0xec;
pub const XRI: u8 = 0xee;
pub const RP: u8 = 0xf0;
pub const POP_PSW: u8 = 0xf1;
pub const JP: u8 = 0xf2;
pub const DI: u8 = 0xf3;
pub const CP: u8 = 0xf4;
pub const PUSH_PSW: u8 = 0xf5;
pub const ORI: u8 = 0xf6;
pub const RM: u8 = 0xf8;
pub const SPHL: u8 = 0xf9;
pub const JM: u8 = 0xfa;
pub const EI: u8 = 0xfb;
pub const CM: u8 = 0xfc;
pub const CPI: u8 = 0xfe;
pub const RST_7: u8 = 0xff;

/// What the table says of one opcode, as plain values.
pub struct Descriptor {
    pub opcode: u8,
    /// Length of the whole instruction in bytes: 1, 2 or 3.
    pub size: nat,
    /// The text that a disassembly shows for the opcode.
    pub name: Seq<char>,
}

impl Descriptor {
    /// The disassembly of a one-byte instruction: the opcode in
    /// hexadecimal, then the text in a column of 14 characters.
    pub open spec fn display1(self) -> Seq<char> {
        hex2(self.opcode as int) + blanks(9) + padded(self.name, 14)
    }

    /// The disassembly of a two-byte instruction: opcode and operand in
    /// hexadecimal, then the text with the operand.
    pub open spec fn display2(self, byte1: u8) -> Seq<char> {
        hex2(self.opcode as int) + " "@ + hex2(byte1 as int) + blanks(6) + padded(
            self.name + " "@ + hex2(byte1 as int),
            14,
        )
    }

    /// The disassembly of a three-byte instruction: opcode and both operand
    /// bytes in hexadecimal, then the text with the 16-bit operand, whose low
    /// byte comes first in memory.
    pub open spec fn display3(self, byte1: u8, byte2: u8) -> Seq<char> {
        hex2(self.opcode as int) + " "@ + hex2(byte1 as int) + " "@ + hex2(byte2 as int) + blanks(
            3,
        ) + padded(self.name + " "@ + hex4(word_of(byte1, byte2)), 14)
    }

    /// The disassembly of the instruction of this entry that stands at
    /// `pc` in `memory`: the address, then the instruction by its length.
    pub open spec fn disassembled(self, memory: Seq<u8>, pc: int) -> Seq<char> {
        let byte1 = memory[(pc + 1) % 0x10000];
        let byte2 = memory[(pc + 2) % 0x10000];
        hex4(pc) + ": "@ + (if self.size == 1 {
            self.display1()
        } else if self.size == 2 {
            self.display2(byte1)
        } else {
            self.display3(byte1, byte2)
        })
    }
}

/// One entry of the opcode table.
pub struct Opcode {
    pub opcode: u8,
    pub size: usize,
    pub name: &'static str,
}

impl View for Opcode {
    type V = Descriptor;

    open spec fn view(&self) -> Descriptor {
        Descriptor { opcode: self.opcode, size: self.size as nat, name: self.name@ }
    }
}

/// Whether the table has an entry for `op`. It has none for HLT, for the
/// restarts 0, 3, 4, 5 and 6, for `MOV B,B` and `MOV A,A`, and for the twelve
/// codes that the processor's manual leaves undefined.
pub open spec fn is_supported(op: u8) -> bool {
    &&& !(op < 0x40 && op % 8 == 0 && op != NOP)
    &&& op != 0x40 && op != 0x76 && op != 0x7f
    &&& op != 0xc7 && op != 0xdf && op != 0xe7 && op != 0xef && op != 0xf7
    &&& op != 0xcb && op != 0xd9 && op != 0xdd && op != 0xed && op != 0xfd
}

/// The length in bytes of the instruction that starts with `op`, as the table
/// has it.
///
/// Three bytes: the 16-bit loads `LXI`, the four instructions with a direct
/// address, and every jump and call. Two bytes: the instructions with an
/// 8-bit operand, `IN` and `OUT`, and, in this table, the restarts. One byte:
/// all others.
pub open spec fn instruction_length(op: u8) -> nat {
    if op < 0x40 {
        if op % 16 == 1 || op == SHLD || op == LHLD || op == STA || op == LDA {
            3
        } else if op % 8 == 6 {
            2
        } else {
            1
        }
    } else if op < 0xc0 {
        1
    } else if op % 8 == 2 || op % 8 == 4 || op == JMP || op == CALL {
        3
    } else if op % 8 == 6 || op % 8 == 7 || op == OUT || op == IN {
        2
    } else {
        1
    }
}

/// The text that a disassembly shows for `op`; empty where the table has no
/// entry.
pub open spec fn mnemonic(op: u8) -> Seq<char> {
    match op {
        0x00 => "NOP"@,
        0x01 => "LD BC,"@,
        0x02 => "STA (BC)"@,
        0x03 => "INC (BC)"@,
        0x04 => "INR B"@,
        0x05 => "DEC B"@,
        0x06 => "LD B,"@,
        0x07 => "RLC"@,
        0x09 => "ADD HL,BC"@,
        0x0a => "LD A,(BC)"@,
        0x0b => "DEC (BC)"@,
        0x0c => "INR C"@,
        0x0d => "DEC C"@,
        0x0e => "LD C,"@,
        0x0f => "RRC"@,
        0x11 => "LD DE,"@,
        0x12 => "STA (DE)"@,
        0x13 => "INC (DE)"@,
        0x14 => "INR D"@,
        0x15 => "DEC D"@,
        0x16 => "LD D,"@,
        0x17 => "RAL"@,
        0x19 => "ADD HL,DE"@,
        0x1a => "LD A,(DE)"@,
        0x1b => "DC (DE)"@,
        0x1c => "INR E"@,
        0x1d => "DEC E"@,
        0x1e => "LD E,"@,
        0x1f => "RAR"@,
        0x21 => "LD HL,"@,
        0x22 => "SHLD"@,
        0x23 => "INC (HL)"@,
        0x24 => "INR H"@,
        0x25 => "DEC HL"@,
        0x26 => "MOV H,"@,
        0x27 => "DAA"@,
        0x29 => "ADD HL,HL"@,
        0x2a => "LHLD"@,
        0x2b => "DEC (HL)"@,
        0x2c => "INR L"@,
        0x2d => "DEC L"@,
        0x2e => "LD L,"@,
        0x2f => "CMA"@,
        0x31 => "LD SP,"@,
        0x32 => "STA"@,
        0x33 => "INC (SP)"@,
        0x34 => "INC (HL)"@,
        0x35 => "DEC (HL)"@,
        0x36 => "MV (HL),"@,
        0x37 => "STC"@,
        0x39 => "ADD HL,SP"@,
        0x3a => "LDA"@,
        0x3b => "DEC (SP)"@,
        0x3c => "INR A"@,
        0x3d => "DEC A"@,
        0x3e => "LD A,"@,
        0x3f => "CMC"@,
        0x41 => "MOV B,C"@,
        0x42 => "MOV B,D"@,
        0x43 => "MOV B,E"@,
        0x44 => "MOV B,H"@,
        0x45 => "MOV B,L"@,
        0x46 => "MOV B,M"@,
        0x47 => "MOV B,A"@,
        0x48 => "MOV C,B"@,
        0x49 => "MOV C,C"@,
        0x4a => "MOV C,D"@,
        0x4b => "MOV C,E"@,
        0x4c => "MOV C,H"@,
        0x4d => "MOV C,L"@,
        0x4e => "MOV C,M"@,
        0x4f => "MOV C,A"@,
        0x50 => "MOV D,B"@,
        0x51 => "MOV D,C"@,
        0x52 => "MOV D,D"@,
        0x53 => "MOV D,E"@,
        0x54 => "MOV D,H"@,
        0x55 => "MOV D,L"@,
        0x56 => "MOV D,M"@,
        0x57 => "MOV D,A"@,
        0x58 => "MOV E,B"@,
        0x59 => "MOV E,C"@,
        0x5a => "MOV E,D"@,
        0x5b => "MOV E,E"@,
        0x5c => "MOV E,H"@,
        0x5d => "MOV E,L"@,
        0x5e => "MOV E,M"@,
        0x5f => "MOV E,A"@,
        0x60 => "MOV H,B"@,
        0x61 => "MOV H,C"@,
        0x62 => "MOV H,D"@,
        0x63 => "MOV H,E"@,
        0x64 => "MOV H,H"@,
        0x65 => "MOV H,L"@,
        0x66 => "MOV H,M"@,
        0x67 => "MOV H,A"@,
        0x68 => "MOV L,B"@,
        0x69 => "MOV L,C"@,
        0x6a => "MOV L,D"@,
        0x6b => "MOV L,E"@,
        0x6c => "MOV L,H"@,
        0x6d => "MOV L,L"@,
        0x6e => "MOV L,M"@,
        0x6f => "MOV L,A"@,
        0x70 => "LD (HL),B"@,
        0x71 => "LD (HL),C"@,
        0x72 => "LD (HL),D"@,
        0x73 => "LD (HL),E"@,
        0x74 => "LD (HL),H"@,
        0x75 => "LD (HL),L"@,
        0x77 => "LD (HL),A"@,
        0x78 => "MOV A,B"@,
        0x79 => "MOV A,C"@,
        0x7a => "MOV A,D"@,
        0x7b => "MOV A,E"@,
        0x7c => "MOV A,H"@,
        0x7d => "MOV A,L"@,
        0x7e => "MOV A,(HL)"@,
        0x80 => "ADD B"@,
        0x81 => "ADD C"@,
        0x82 => "ADD D"@,
        0x83 => "ADD E"@,
        0x84 => "ADD H"@,
        0x85 => "ADD L"@,
        0x86 => "ADD M"@,
        0x87 => "ADD A"@,
        0x88 => "ADC B"@,
        0x89 => "ADC C"@,
        0x8a => "ADC D"@,
        0x8b => "ADC E"@,
        0x8c => "ADC H"@,
        0x8d => "ADC L"@,
        0x8e => "ADC M"@,
        0x8f => "ADC A"@,
        0x90 => "SUB B"@,
        0x91 => "SUB C"@,
        0x92 => "SUB D"@,
        0x93 => "SUB E"@,
        0x94 => "SUB H"@,
        0x95 => "SUB L"@,
        0x96 => "SUB M"@,
        0x97 => "SUB A"@,
        0x98 => "SBB B"@,
        0x99 => "SBB C"@,
        0x9a => "SBB D"@,
        0x9b => "SBB E"@,
        0x9c => "SBB H"@,
        0x9d => "SBB L"@,
        0x9e => "SBB M"@,
        0x9f => "SBB A"@,
        0xa0 => "AND B"@,
        0xa1 => "AND C"@,
        0xa2 => "AND D"@,
        0xa3 => "AND E"@,
        0xa4 => "AND H"@,
        0xa5 => "AND L"@,
        0xa6 => "AND M"@,
        0xa7 => "AND A"@,
        0xb0 => "ORA B"@,
        0xb1 => "ORA C"@,
        0xb2 => "ORA D"@,
        0xb3 => "ORA E"@,
        0xb4 => "ORA H"@,
        0xb5 => "ORA L"@,
        0xb6 => "ORA M"@,
        0xb7 => "ORA A"@,
        0xb8 => "CMP B"@,
        0xb9 => "CMP C"@,
        0xba => "CMP D"@,
        0xbb => "CMP E"@,
        0xbc => "CMP H"@,
        0xbd => "CMP L"@,
        0xbe => "CMP M"@,
        0xbf => "CMP A"@,
        0xa8 => "XRA B"@,
        0xa9 => "XRA C"@,
        0xaa => "XRA D"@,
        0xab => "XRA E"@,
        0xac => "XRA H"@,
        0xad => "XRA L"@,
        0xae => "XRA M"@,
        0xaf => "XRA A"@,
        0xc0 => "RNZ"@,
        0xc1 => "POP BC"@,
        0xc2 => "JNZ"@,
        0xc3 => "JMP"@,
        0xc4 => "CNZ"@,
        0xc5 => "PUSH BC"@,
        0xc6 => "ADI"@,
        0xc8 => "RZ"@,
        0xc9 => "RET"@,
        0xca => "JZ"@,
        0xcc => "CZ"@,
        0xcd => "CALL"@,
        0xce => "ACI"@,
        0xd0 => "RNC"@,
        0xd1 => "POP DE"@,
        0xd2 => "JNC"@,
        0xd3 => "OUT"@,
        0xd4 => "CNC"@,
        0xd5 => "PUSH DE"@,
        0xd6 => "SUI"@,
        0xd8 => "RC"@,
        0xda => "JC"@,
        0xdb => "IN"@,
        0xdc => "CC"@,
        0xde => "SBI"@,
        0xe0 => "RPO"@,
        0xe1 => "POP HL"@,
        0xe2 => "JPO"@,
        0xe3 => "XTHL"@,
        0xe4 => "CPO"@,
        0xe5 => "PUSH HL"@,
        0xe6 => "ANI"@,
        0xe8 => "RPE"@,
        0xe9 => "PCHL"@,
        0xea => "JPE"@,
        0xeb => "EX DE,HL"@,
        0xec => "CPE"@,
        0xee => "XRI"@,
        0xf0 => "RP"@,
        0xf1 => "POP PSW"@,
        0xf2 => "JP"@,
        0xf4 => "CP"@,
        0xf5 => "PUSH PSW"@,
        0xf6 => "ORI"@,
        0xf8 => "RM"@,
        0xf9 => "SPHL"@,
        0xfa => "JM"@,
        0xfc => "CM"@,
        0xfb => "EI"@,
        0xf3 => "DI"@,
        0xfe => "CPI"@,
        0xcf => "RST 1"@,
        0xd7 => "RST 2"@,
        0xff => "RST 7"@,
        _ => Seq::empty(),
    }
}

/// The table's entry for `op`.
pub open spec fn descriptor(op: u8) -> Descriptor {
    Descriptor { opcode: op, size: instruction_length(op), name: mnemonic(op) }
}

impl Opcode {
    /// An entry for `opcode` with the given length and text.
    pub fn new(opcode: u8, size: usize, name: &'static str) -> (entry: Opcode)
        ensures
            entry@ == (Descriptor { opcode, size: size as nat, name: name@ }),
    {
        Opcode { opcode, size, name }
    }

    /// The disassembly of this one-byte instruction.
    pub fn display1(&self) -> (text: String)
        ensures
            text@ == self@.display1(),
    {
        let mut text: String = String::new();
        push_hex2(&mut text, self.opcode);
        push_blanks(&mut text, 9);
        push_padded(&mut text, self.name, 14);
        text
    }

    /// The disassembly of this two-byte instruction with its operand.
    pub fn display2(&self, byte1: u8) -> (text: String)
        ensures
            text@ == self@.display2(byte1),
    {
        let mut operand: String = String::from_str(self.name);
        operand.append(" ");
        push_hex2(&mut operand, byte1);
        let mut text: String = String::new();
        push_hex2(&mut text, self.opcode);
        text.append(" ");
        push_hex2(&mut text, byte1);
        push_blanks(&mut text, 6);
        push_padded(&mut text, operand.as_str(), 14);
        text
    }

    /// The disassembly of this three-byte instruction with its operand.
    pub fn display3(&self, byte1: u8, byte2: u8) -> (text: String)
        ensures
            text@ == self@.display3(byte1, byte2),
    {
        let mut operand: String = String::from_str(self.name);
        operand.append(" ");
        push_hex4(&mut operand, Memory::to_word(byte1, byte2));
        let mut text: String = String::new();
        push_hex2(&mut text, self.opcode);
        text.append(" ");
        push_hex2(&mut text, byte1);
        text.append(" ");
        push_hex2(&mut text, byte2);
        push_blanks(&mut text, 3);
        push_padded(&mut text, operand.as_str(), 14);
        text
    }

    /// The entry of the table for `op`, if it has one.
    pub fn lookup(op: u8) -> (entry: Option<Opcode>)
        ensures
            entry is Some <==> is_supported(op),
            entry matches Some(found) ==> found@ == descriptor(op),
    {
        match op {
            NOP => Some(Opcode::new(NOP, 1, "NOP")),
            LXI_B => Some(Opcode::new(LXI_B, 3, "LD BC,")),
            STAX_B => Some(Opcode::new(STAX_B, 1, "STA (BC)")),
            INX_B => Some(Opcode::new(INX_B, 1, "INC (BC)")),
            INR_B => Some(Opcode::new(INR_B, 1, "INR B")),
            DCR_B => Some(Opcode::new(DCR_B, 1, "DEC B")),
            MVI_B => Some(Opcode::new(MVI_B, 2, "LD B,")),
            RLC => Some(Opcode::new(RLC, 1, "RLC")),
            DAD_B => Some(Opcode::new(DAD_B, 1, "ADD HL,BC")),
            LDAX_B => Some(Opcode::new(LDAX_B, 1, "LD A,(BC)")),
            DCX_B => Some(Opcode::new(DCX_B, 1, "DEC (BC)")),
            INR_C => Some(Opcode::new(INR_C, 1, "INR C")),
            DCR_C => Some(Opcode::new(DCR_C, 1, "DEC C")),
            MVI_C => Some(Opcode::new(MVI_C, 2, "LD C,")),
            RRC => Some(Opcode::new(RRC, 1, "RRC")),
            LXI_D => Some(Opcode::new(LXI_D, 3, "LD DE,")),
            STAX_D => Some(Opcode::new(STAX_D, 1, "STA (DE)")),
            INX_D => Some(Opcode::new(INX_D, 1, "INC (DE)")),
            INR_D => Some(Opcode::new(INR_D, 1, "INR D")),
            DCR_D => Some(Opcode::new(DCR_D, 1, "DEC D")),
            MVI_D => Some(Opcode::new(MVI_D, 2, "LD D,")),
            RAL => Some(Opcode::new(RAL, 1, "RAL")),
            DAD_D => Some(Opcode::new(DAD_D, 1, "ADD HL,DE")),
            LDAX_D => Some(Opcode::new(LDAX_D, 1, "LD A,(DE)")),
            DCX_D => Some(Opcode::new(DCX_D, 1, "DC (DE)")),
            INR_E => Some(Opcode::new(INR_E, 1, "INR E")),
            DCR_E => Some(Opcode::new(DCR_E, 1, "DEC E")),
            MVI_E => Some(Opcode::new(MVI_E, 2, "LD E,")),
            RAR => Some(Opcode::new(RAR, 1, "RAR")),
            LXI_H => Some(Opcode::new(LXI_H, 3, "LD HL,")),
            SHLD => Some(Opcode::new(SHLD, 3, "SHLD")),
            INX_H => Some(Opcode::new(INX_H, 1, "INC (HL)")),
            INR_H => Some(Opcode::new(INR_H, 1, "INR H")),
            DCR_H => Some(Opcode::new(DCR_H, 1, "DEC HL")),
            MVI_H => Some(Opcode::new(MVI_H, 2, "MOV H,")),
            DAA => Some(Opcode::new(DAA, 1, "DAA")),
            DAD_H => Some(Opcode::new(DAD_H, 1, "ADD HL,HL")),
            LHLD => Some(Opcode::new(LHLD, 3, "LHLD")),
            DCX_H => Some(Opcode::new(DCX_H, 1, "DEC (HL)")),
            INR_L => Some(Opcode::new(INR_L, 1, "INR L")),
            DCR_L => Some(Opcode::new(DCR_L, 1, "DEC L")),
            MVI_L => Some(Opcode::new(MVI_L, 2, "LD L,")),
            CMA => Some(Opcode::new(CMA, 1, "CMA")),
            LXI_SP => Some(Opcode::new(LXI_SP, 3, "LD SP,")),
            STA => Some(Opcode::new(STA, 3, "STA")),
            INX_SP => Some(Opcode::new(INX_SP, 1, "INC (SP)")),
            INR_M => Some(Opcode::new(INR_M, 1, "INC (HL)")),
            DCR_M => Some(Opcode::new(DCR_M, 1, "DEC (HL)")),
            MVI_M => Some(Opcode::new(MVI_M, 2, "MV (HL),")),
            STC => Some(Opcode::new(STC, 1, "STC")),
            DAD_SP => Some(Opcode::new(DAD_SP, 1, "ADD HL,SP")),
            LDA => Some(Opcode::new(LDA, 3, "LDA")),
            DCX_SP => Some(Opcode::new(DCX_SP, 1, "DEC (SP)")),
            INR_A => Some(Opcode::new(INR_A, 1, "INR A")),
            DCR_A => Some(Opcode::new(DCR_A, 1, "DEC A")),
            MVI_A => Some(Opcode::new(MVI_A, 2, "LD A,")),
            CMC => Some(Opcode::new(CMC, 1, "CMC")),
            MOV_B_C => Some(Opcode::new(MOV_B_C, 1, "MOV B,C")),
            MOV_B_D => Some(Opcode::new(MOV_B_D, 1, "MOV B,D")),
            MOV_B_E => Some(Opcode::new(MOV_B_E, 1, "MOV B,E")),
            MOV_B_H => Some(Opcode::new(MOV_B_H, 1, "MOV B,H")),
            MOV_B_L => Some(Opcode::new(MOV_B_L, 1, "MOV B,L")),
            MOV_B_M => Some(Opcode::new(MOV_B_M, 1, "MOV B,M")),
            MOV_B_A => Some(Opcode::new(MOV_B_A, 1, "MOV B,A")),
            MOV_C_B => Some(Opcode::new(MOV_C_B, 1, "MOV C,B")),
            MOV_C_C => Some(Opcode::new(MOV_C_C, 1, "MOV C,C")),
            MOV_C_D => Some(Opcode::new(MOV_C_D, 1, "MOV C,D")),
            MOV_C_E => Some(Opcode::new(MOV_C_E, 1, "MOV C,E")),
            MOV_C_H => Some(Opcode::new(MOV_C_H, 1, "MOV C,H")),
            MOV_C_L => Some(Opcode::new(MOV_C_L, 1, "MOV C,L")),
            MOV_C_M => Some(Opcode::new(MOV_C_M, 1, "MOV C,M")),
            MOV_C_A => Some(Opcode::new(MOV_C_A, 1, "MOV C,A")),
            MOV_D_B => Some(Opcode::new(MOV_D_B, 1, "MOV D,B")),
            MOV_D_C => Some(Opcode::new(MOV_D_C, 1, "MOV D,C")),
            MOV_D_D => Some(Opcode::new(MOV_D_D, 1, "MOV D,D")),
            MOV_D_E => Some(Opcode::new(MOV_D_E, 1, "MOV D,E")),
            MOV_D_H => Some(Opcode::new(MOV_D_H, 1, "MOV D,H")),
            MOV_D_L => Some(Opcode::new(MOV_D_L, 1, "MOV D,L")),
            MOV_D_M => Some(Opcode::new(MOV_D_M, 1, "MOV D,M")),
            MOV_D_A => Some(Opcode::new(MOV_D_A, 1, "MOV D,A")),
            MOV_E_B => Some(Opcode::new(MOV_E_B, 1, "MOV E,B")),
            MOV_E_C => Some(Opcode::new(MOV_E_C, 1, "MOV E,C")),
            MOV_E_D => Some(Opcode::new(MOV_E_D, 1, "MOV E,D")),
            MOV_E_E => Some(Opcode::new(MOV_E_E, 1, "MOV E,E")),
            MOV_E_H => Some(Opcode::new(MOV_E_H, 1, "MOV E,H")),
            MOV_E_L => Some(Opcode::new(MOV_E_L, 1, "MOV E,L")),
            MOV_E_M => Some(Opcode::new(MOV_E_M, 1, "MOV E,M")),
            MOV_E_A => Some(Opcode::new(MOV_E_A, 1, "MOV E,A")),
            MOV_H_B => Some(Opcode::new(MOV_H_B, 1, "MOV H,B")),
            MOV_H_C => Some(Opcode::new(MOV_H_C, 1, "MOV H,C")),
            MOV_H_D => Some(Opcode::new(MOV_H_D, 1, "MOV H,D")),
            MOV_H_E => Some(Opcode::new(MOV_H_E, 1, "MOV H,E")),
            MOV_H_H => Some(Opcode::new(MOV_H_H, 1, "MOV H,H")),
            MOV_H_L => Some(Opcode::new(MOV_H_L, 1, "MOV H,L")),
            MOV_H_M => Some(Opcode::new(MOV_H_M, 1, "MOV H,M")),
            MOV_H_A => Some(Opcode::new(MOV_H_A, 1, "MOV H,A")),
            MOV_L_B => Some(Opcode::new(MOV_L_B, 1, "MOV L,B")),
            MOV_L_C => Some(Opcode::new(MOV_L_C, 1, "MOV L,C")),
            MOV_L_D => Some(Opcode::new(MOV_L_D, 1, "MOV L,D")),
            MOV_L_E => Some(Opcode::new(MOV_L_E, 1, "MOV L,E")),
            MOV_L_H => Some(Opcode::new(MOV_L_H, 1, "MOV L,H")),
            MOV_L_L => Some(Opcode::new(MOV_L_L, 1, "MOV L,L")),
            MOV_L_M => Some(Opcode::new(MOV_L_M, 1, "MOV L,M")),
            MOV_L_A => Some(Opcode::new(MOV_L_A, 1, "MOV L,A")),
            MOV_M_B => Some(Opcode::new(MOV_M_B, 1, "LD (HL),B")),
            MOV_M_C => Some(Opcode::new(MOV_M_C, 1, "LD (HL),C")),
            MOV_M_D => Some(Opcode::new(MOV_M_D, 1, "LD (HL),D")),
            MOV_M_E => Some(Opcode::new(MOV_M_E, 1, "LD (HL),E")),
            MOV_M_H => Some(Opcode::new(MOV_M_H, 1, "LD (HL),H")),
            MOV_M_L => Some(Opcode::new(MOV_M_L, 1, "LD (HL),L")),
            MOV_M_A => Some(Opcode::new(MOV_M_A, 1, "LD (HL),A")),
            MOV_A_B => Some(Opcode::new(MOV_A_B, 1, "MOV A,B")),
            MOV_A_C => Some(Opcode::new(MOV_A_C, 1, "MOV A,C")),
            MOV_A_D => Some(Opcode::new(MOV_A_D, 1, "MOV A,D")),
            MOV_A_E => Some(Opcode::new(MOV_A_E, 1, "MOV A,E")),
            MOV_A_H => Some(Opcode::new(MOV_A_H, 1, "MOV A,H")),
            MOV_A_L => Some(Opcode::new(MOV_A_L, 1, "MOV A,L")),
            MOV_A_M => Some(Opcode::new(MOV_A_M, 1, "MOV A,(HL)")),
            ADD_B => Some(Opcode::new(ADD_B, 1, "ADD B")),
            ADD_C => Some(Opcode::new(ADD_C, 1, "ADD C")),
            ADD_D => Some(Opcode::new(ADD_D, 1, "ADD D")),
            ADD_E => Some(Opcode::new(ADD_E, 1, "ADD E")),
            ADD_H => Some(Opcode::new(ADD_H, 1, "ADD H")),
            ADD_L => Some(Opcode::new(ADD_L, 1, "ADD L")),
            ADD_M => Some(Opcode::new(ADD_M, 1, "ADD M")),
            ADD_A => Some(Opcode::new(ADD_A, 1, "ADD A")),
            ADC_B => Some(Opcode::new(ADC_B, 1, "ADC B")),
            ADC_C => Some(Opcode::new(ADC_C, 1, "ADC C")),
            ADC_D => Some(Opcode::new(ADC_D, 1, "ADC D")),
            ADC_E => Some(Opcode::new(ADC_E, 1, "ADC E")),
            ADC_H => Some(Opcode::new(ADC_H, 1, "ADC H")),
            ADC_L => Some(Opcode::new(ADC_L, 1, "ADC L")),
            ADC_M => Some(Opcode::new(ADC_M, 1, "ADC M")),
            ADC_A => Some(Opcode::new(ADC_A, 1, "ADC A")),
            SUB_B => Some(Opcode::new(SUB_B, 1, "SUB B")),
            SUB_C => Some(Opcode::new(SUB_C, 1, "SUB C")),
            SUB_D => Some(Opcode::new(SUB_D, 1, "SUB D")),
            SUB_E => Some(Opcode::new(SUB_E, 1, "SUB E")),
            SUB_H => Some(Opcode::new(SUB_H, 1, "SUB H")),
            SUB_L => Some(Opcode::new(SUB_L, 1, "SUB L")),
            SUB_M => Some(Opcode::new(SUB_M, 1, "SUB M")),
            SUB_A => Some(Opcode::new(SUB_A, 1, "SUB A")),
            SBB_B => Some(Opcode::new(SBB_B, 1, "SBB B")),
            SBB_C => Some(Opcode::new(SBB_C, 1, "SBB C")),
            SBB_D => Some(Opcode::new(SBB_D, 1, "SBB D")),
            SBB_E => Some(Opcode::new(SBB_E, 1, "SBB E")),
            SBB_H => Some(Opcode::new(SBB_H, 1, "SBB H")),
            SBB_L => Some(Opcode::new(SBB_L, 1, "SBB L")),
            SBB_M => Some(Opcode::new(SBB_M, 1, "SBB M")),
            SBB_A => Some(Opcode::new(SBB_A, 1, "SBB A")),
            ANA_B => Some(Opcode::new(ANA_B, 1, "AND B")),
            ANA_C => Some(Opcode::new(ANA_C, 1, "AND C")),
            ANA_D => Some(Opcode::new(ANA_D, 1, "AND D")),
            ANA_E => Some(Opcode::new(ANA_E, 1, "AND E")),
            ANA_H => Some(Opcode::new(ANA_H, 1, "AND H")),
            ANA_L => Some(Opcode::new(ANA_L, 1, "AND L")),
            ANA_M => Some(Opcode::new(ANA_M, 1, "AND M")),
            ANA_A => Some(Opcode::new(ANA_A, 1, "AND A")),
            ORA_B => Some(Opcode::new(ORA_B, 1, "ORA B")),
            ORA_C => Some(Opcode::new(ORA_C, 1, "ORA C")),
            ORA_D => Some(Opcode::new(ORA_D, 1, "ORA D")),
            ORA_E => Some(Opcode::new(ORA_E, 1, "ORA E")),
            ORA_H => Some(Opcode::new(ORA_H, 1, "ORA H")),
            ORA_L => Some(Opcode::new(ORA_L, 1, "ORA L")),
            ORA_M => Some(Opcode::new(ORA_M, 1, "ORA M")),
            ORA_A => Some(Opcode::new(ORA_A, 1, "ORA A")),
            CMP_B => Some(Opcode::new(CMP_B, 1, "CMP B")),
            CMP_C => Some(Opcode::new(CMP_C, 1, "CMP C")),
            CMP_D => Some(Opcode::new(CMP_D, 1, "CMP D")),
            CMP_E => Some(Opcode::new(CMP_E, 1, "CMP E")),
            CMP_H => Some(Opcode::new(CMP_H, 1, "CMP H")),
            CMP_L => Some(Opcode::new(CMP_L, 1, "CMP L")),
            CMP_M => Some(Opcode::new(CMP_M, 1, "CMP M")),
            CMP_A => Some(Opcode::new(CMP_A, 1, "CMP A")),
            XRA_B => Some(Opcode::new(XRA_B, 1, "XRA B")),
            XRA_C => Some(Opcode::new(XRA_C, 1, "XRA C")),
            XRA_D => Some(Opcode::new(XRA_D, 1, "XRA D")),
            XRA_E => Some(Opcode::new(XRA_E, 1, "XRA E")),
            XRA_H => Some(Opcode::new(XRA_H, 1, "XRA H")),
            XRA_L => Some(Opcode::new(XRA_L, 1, "XRA L")),
            XRA_M => Some(Opcode::new(XRA_M, 1, "XRA M")),
            XRA_A => Some(Opcode::new(XRA_A, 1, "XRA A")),
            RNZ => Some(Opcode::new(RNZ, 1, "RNZ")),
            POP_B => Some(Opcode::new(POP_B, 1, "POP BC")),
            JNZ => Some(Opcode::new(JNZ, 3, "JNZ")),
            JMP => Some(Opcode::new(JMP, 3, "JMP")),
            CNZ => Some(Opcode::new(CNZ, 3, "CNZ")),
            PUSH_B => Some(Opcode::new(PUSH_B, 1, "PUSH BC")),
            ADI => Some(Opcode::new(ADI, 2, "ADI")),
            RZ => Some(Opcode::new(RZ, 1, "RZ")),
            RET => Some(Opcode::new(RET, 1, "RET")),
            JZ => Some(Opcode::new(JZ, 3, "JZ")),
            CZ => Some(Opcode::new(CZ, 3, "CZ")),
            CALL => Some(Opcode::new(CALL, 3, "CALL")),
            ACI => Some(Opcode::new(ACI, 2, "ACI")),
            RNC => Some(Opcode::new(RNC, 1, "RNC")),
            POP_D => Some(Opcode::new(POP_D, 1, "POP DE")),
            JNC => Some(Opcode::new(JNC, 3, "JNC")),
            OUT => Some(Opcode::new(OUT, 2, "OUT")),
            CNC => Some(Opcode::new(CNC, 3, "CNC")),
            PUSH_D => Some(Opcode::new(PUSH_D, 1, "PUSH DE")),
            SUI => Some(Opcode::new(SUI, 2, "SUI")),
            RC => Some(Opcode::new(RC, 1, "RC")),
            JC => Some(Opcode::new(JC, 3, "JC")),
            IN => Some(Opcode::new(IN, 2, "IN")),
            CC => Some(Opcode::new(CC, 3, "CC")),
            SBI => Some(Opcode::new(SBI, 2, "SBI")),
            RPO => Some(Opcode::new(RPO, 1, "RPO")),
            POP_H => Some(Opcode::new(POP_H, 1, "POP HL")),
            JPO => Some(Opcode::new(JPO, 3, "JPO")),
            XTHL => Some(Opcode::new(XTHL, 1, "XTHL")),
            CPO => Some(Opcode::new(CPO, 3, "CPO")),
            PUSH_H => Some(Opcode::new(PUSH_H, 1, "PUSH HL")),
            ANI => Some(Opcode::new(ANI, 2, "ANI")),
            RPE => Some(Opcode::new(RPE, 1, "RPE")),
            PCHL => Some(Opcode::new(PCHL, 1, "PCHL")),
            JPE => Some(Opcode::new(JPE, 3, "JPE")),
            XCHG => Some(Opcode::new(XCHG, 1, "EX DE,HL")),
            CPE => Some(Opcode::new(CPE, 3, "CPE")),
            XRI => Some(Opcode::new(XRI, 2, "XRI")),
            RP => Some(Opcode::new(RP, 1, "RP")),
            POP_PSW => Some(Opcode::new(POP_PSW, 1, "POP PSW")),
            JP => Some(Opcode::new(JP, 3, "JP")),
            CP => Some(Opcode::new(CP, 3, "CP")),
            PUSH_PSW => Some(Opcode::new(PUSH_PSW, 1, "PUSH PSW")),
            ORI => Some(Opcode::new(ORI, 2, "ORI")),
            RM => Some(Opcode::new(RM, 1, "RM")),
            SPHL => Some(Opcode::new(SPHL, 1, "SPHL")),
            JM => Some(Opcode::new(JM, 3, "JM")),
            CM => Some(Opcode::new(CM, 3, "CM")),
            EI => Some(Opcode::new(EI, 1, "EI")),
            DI => Some(Opcode::new(DI, 1, "DI")),
            CPI => Some(Opcode::new(CPI, 2, "CPI")),
            RST_1 => Some(Opcode::new(RST_1, 2, "RST 1")),
            RST_2 => Some(Opcode::new(RST_2, 2, "RST 2")),
            RST_7 => Some(Opcode::new(RST_7, 2, "RST 7")),
            _ => None,
        }
    }
}

/// Whether `table` holds exactly the entries of the opcode table.
pub open spec fn is_opcode_table(table: Map<u8, Opcode>) -> bool {
    &&& forall|op: u8| table.contains_key(op) <==> is_supported(op)
    &&& forall|op: u8| is_supported(op) ==> (#[trigger] table[op])@ == descriptor(op)
}

/// Builds the opcode table, keyed by opcode byte.
pub fn init_opcodes() -> (table: HashMap<u8, Opcode>)
    ensures
        is_opcode_table(table@),
{
    let mut table: HashMap<u8, Opcode> = HashMap::new();
    let mut next: u16 = 0;
    while next < 256
        invariant
            next <= 256,
            forall|op: u8| op < next ==> (table@.contains_key(op) <==> is_supported(op)),
            forall|op: u8| op >= next ==> !table@.contains_key(op),
            forall|op: u8|
                op < next && is_supported(op) ==> (#[trigger] table@[op])@ == descriptor(op),
        decreases 256 - next,
    {
        let op: u8 = next as u8;
        match Opcode::lookup(op) {
            Some(entry) => {
                table.insert(op, entry);
            },
            None => {},
        }
        next += 1;
    }
    table
}

} // verus!
