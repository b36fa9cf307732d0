//! The general-purpose processor: an 8-bit accumulator machine with two
//! index registers, a wrapping one-page stack, and a sparse opcode matrix in
//! which the bit pattern of the opcode byte selects both the operation and
//! the addressing mode. Decoding preserves that bit-level structure: the
//! legal opcodes are a structured subset of the 256 possibilities and the
//! same bit groups the hardware used decide which combinations fault.

use vstd::prelude::*;

use crate::fault::Fault;
use crate::memory::{Memory, MemSnapshot, masked, lemma_masked_low, spec_read, spec_write};
use crate::nums::{
    add16, hi_byte, join_word, lemma_word_roundtrip, lo_byte, split_hi, split_lo, sub16, word,
    wrapping_add16, wrapping_sub16,
};

verus! {

/// The documented operations, plus an explicit invalid marker that decoding
/// uses internally and never lets escape: an opcode that resolves to it is
/// reported as a decode fault, never executed.
#[allow(non_camel_case_types)]
#[derive(Copy, Clone, Debug, PartialEq, Eq, Structural)]
pub enum Instruction {
    ADC,
    AND,
    ASL,
    BCC,
    BCS,
    BEQ,
    BIT,
    BMI,
    BNE,
    BPL,
    BRK,
    BVC,
    BVS,
    CLC,
    CLD,
    CLI,
    CLV,
    CMP,
    CPX,
    CPY,
    DEC,
    DEX,
    DEY,
    EOR,
    INC,
    INX,
    INY,
    JMP,
    JSR,
    LDA,
    LDX,
    LDY,
    LSR,
    NOP,
    ORA,
    PHA,
    PHP,
    PLA,
    PLP,
    ROL,
    ROR,
    RTI,
    RTS,
    SBC,
    SEC,
    SED,
    SEI,
    STA,
    STX,
    STY,
    TAX,
    TAY,
    TSX,
    TXA,
    TXS,
    TYA,
    INVALID,
}

/// How an instruction locates its operand. Relative branches borrow the
/// immediate fetch path and reinterpret the byte as a signed displacement.
#[derive(Copy, Clone, Debug, PartialEq, Eq, Structural)]
pub enum AddressingMode {
    Immediate,
    ZeroPage,
    ZeroPageOffsetX,
    ZeroPageOffsetY,
    Absolute,
    AbsoluteOffsetX,
    AbsoluteOffsetY,
    Accumulator,
    OffsetXIndirect,
    IndirectOffsetY,
    IndirectLocation,
    AbsoluteLocation,
    NA,
}

/// The transient product of one fetch: where the opcode sat, what it names,
/// and the raw operand bytes as fetched, before any resolution. Never kept
/// past the execute step that consumes it.
#[derive(Copy, Clone, Debug, PartialEq, Eq, Structural)]
pub struct DecodedInstruction {
    pub address: u16,
    pub instruction: Instruction,
    pub addressing_mode: AddressingMode,
    pub operand: Option<u16>,
}

/// Fixed bit positions of the status register flags.
pub const FLAG_CARRY: u8 = 0x01;

pub const FLAG_ZERO: u8 = 0x02;

pub const FLAG_IRQ_DISABLE: u8 = 0x04;

pub const FLAG_DECIMAL: u8 = 0x08;

pub const FLAG_BREAK: u8 = 0x10;

pub const FLAG_OVERFLOW: u8 = 0x40;

pub const FLAG_NEGATIVE: u8 = 0x80;

// ---------------------------------------------------------------------------
// Decode: the opcode byte's own bit groups select instruction and mode.
// ---------------------------------------------------------------------------

/// The eight relative branches, selected by the top three opcode bits.
pub open spec fn spec_branch_instr(op: u8) -> Instruction {
    let sel = (op & 0b11100000) >> 5;
    if sel == 0b000 {
        Instruction::BPL
    } else if sel == 0b001 {
        Instruction::BMI
    } else if sel == 0b010 {
        Instruction::BVC
    } else if sel == 0b011 {
        Instruction::BVS
    } else if sel == 0b100 {
        Instruction::BCC
    } else if sel == 0b101 {
        Instruction::BCS
    } else if sel == 0b110 {
        Instruction::BNE
    } else if sel == 0b111 {
        Instruction::BEQ
    } else {
        Instruction::INVALID
    }
}

/// Group with low bits `01`: the ALU-class operations.
pub open spec fn spec_group_a_instr(op: u8) -> Instruction {
    let sel = (op & 0b11100000) >> 5;
    if sel == 0b000 {
        Instruction::ORA
    } else if sel == 0b001 {
        Instruction::AND
    } else if sel == 0b010 {
        Instruction::EOR
    } else if sel == 0b011 {
        Instruction::ADC
    } else if sel == 0b100 {
        Instruction::STA
    } else if sel == 0b101 {
        Instruction::LDA
    } else if sel == 0b110 {
        Instruction::CMP
    } else if sel == 0b111 {
        Instruction::SBC
    } else {
        Instruction::INVALID
    }
}

pub open spec fn spec_group_a_mode(op: u8) -> AddressingMode {
    let sel = (op & 0b11100) >> 2;
    if sel == 0b000 {
        AddressingMode::OffsetXIndirect
    } else if sel == 0b001 {
        AddressingMode::ZeroPage
    } else if sel == 0b010 {
        AddressingMode::Immediate
    } else if sel == 0b011 {
        AddressingMode::Absolute
    } else if sel == 0b100 {
        AddressingMode::IndirectOffsetY
    } else if sel == 0b101 {
        AddressingMode::ZeroPageOffsetX
    } else if sel == 0b110 {
        AddressingMode::AbsoluteOffsetY
    } else if sel == 0b111 {
        AddressingMode::AbsoluteOffsetX
    } else {
        AddressingMode::NA
    }
}

/// Group with low bits `10`: shifts, rotates, increments and the X-register
/// moves.
pub open spec fn spec_group_b_instr(op: u8) -> Instruction {
    let sel = (op & 0b11100000) >> 5;
    if sel == 0b000 {
        Instruction::ASL
    } else if sel == 0b001 {
        Instruction::ROL
    } else if sel == 0b010 {
        Instruction::LSR
    } else if sel == 0b011 {
        Instruction::ROR
    } else if sel == 0b100 {
        Instruction::STX
    } else if sel == 0b101 {
        Instruction::LDX
    } else if sel == 0b110 {
        Instruction::DEC
    } else if sel == 0b111 {
        Instruction::INC
    } else {
        Instruction::INVALID
    }
}

/// Group `10` modes; the X-register moves swap in the Y-indexed forms where
/// the hardware wired the index registers the other way around.
pub open spec fn spec_group_b_mode(op: u8, instr: Instruction) -> AddressingMode {
    let sel = (op & 0b11100) >> 2;
    if sel == 0b000 {
        AddressingMode::Immediate
    } else if sel == 0b001 {
        AddressingMode::ZeroPage
    } else if sel == 0b010 {
        AddressingMode::Accumulator
    } else if sel == 0b011 {
        AddressingMode::Absolute
    } else if sel == 0b101 {
        if instr == Instruction::LDX || instr == Instruction::STX {
            AddressingMode::ZeroPageOffsetY
        } else {
            AddressingMode::ZeroPageOffsetX
        }
    } else if sel == 0b111 {
        if instr == Instruction::LDX {
            AddressingMode::AbsoluteOffsetY
        } else {
            AddressingMode::AbsoluteOffsetX
        }
    } else {
        AddressingMode::NA
    }
}

/// The instruction/mode pairs of group `10` the hardware never wired up.
pub open spec fn spec_group_b_bad(instr: Instruction, mode: AddressingMode) -> bool {
    match mode {
        AddressingMode::NA => true,
        AddressingMode::Immediate => match instr {
            Instruction::LDX => false,
            _ => true,
        },
        AddressingMode::Accumulator => match instr {
            Instruction::STX => true,
            Instruction::LDX => true,
            Instruction::DEC => true,
            Instruction::INC => true,
            _ => false,
        },
        AddressingMode::AbsoluteOffsetX => match instr {
            Instruction::STX => true,
            _ => false,
        },
        _ => false,
    }
}

/// Group with low bits `00`: bit test, jumps, the Y-register moves and the
/// index compares.
pub open spec fn spec_group_c_instr(op: u8) -> Instruction {
    let sel = (op & 0b11100000) >> 5;
    if sel == 0b001 {
        Instruction::BIT
    } else if sel == 0b010 || sel == 0b011 {
        Instruction::JMP
    } else if sel == 0b100 {
        Instruction::STY
    } else if sel == 0b101 {
        Instruction::LDY
    } else if sel == 0b110 {
        Instruction::CPY
    } else if sel == 0b111 {
        Instruction::CPX
    } else {
        Instruction::INVALID
    }
}

/// Group `00` modes; one specific bit pattern in the absolute row is the
/// indirect jump and another the direct jump.
pub open spec fn spec_group_c_mode(op: u8) -> AddressingMode {
    let sel = (op & 0b11100) >> 2;
    let isel = (op & 0b11100000) >> 5;
    if sel == 0b000 {
        AddressingMode::Immediate
    } else if sel == 0b001 {
        AddressingMode::ZeroPage
    } else if sel == 0b011 {
        if isel == 0b011 {
            AddressingMode::IndirectLocation
        } else if isel == 0b010 {
            AddressingMode::AbsoluteLocation
        } else {
            AddressingMode::Absolute
        }
    } else if sel == 0b101 {
        AddressingMode::ZeroPageOffsetX
    } else if sel == 0b111 {
        AddressingMode::AbsoluteOffsetX
    } else {
        AddressingMode::NA
    }
}

/// The instruction/mode pairs of group `00` the hardware never wired up.
pub open spec fn spec_group_c_bad(instr: Instruction, mode: AddressingMode) -> bool {
    match mode {
        AddressingMode::NA => true,
        AddressingMode::Immediate => match instr {
            Instruction::LDY => false,
            Instruction::CPY => false,
            Instruction::CPX => false,
            _ => true,
        },
        AddressingMode::ZeroPage => match instr {
            Instruction::JMP => true,
            _ => false,
        },
        AddressingMode::ZeroPageOffsetX => match instr {
            Instruction::STY => false,
            Instruction::LDY => false,
            _ => true,
        },
        AddressingMode::AbsoluteOffsetX => match instr {
            Instruction::LDY => false,
            _ => true,
        },
        _ => false,
    }
}

/// The whole decode matrix: `Some` names the instruction and addressing
/// mode of a legal opcode, `None` marks the opcode as a fault. Total over
/// all 256 byte values.
pub open spec fn spec_decode(op: u8) -> Option<(Instruction, AddressingMode)> {
    if op == 0x00 {
        Some((Instruction::BRK, AddressingMode::NA))
    } else if op == 0x20 {
        Some((Instruction::JSR, AddressingMode::AbsoluteLocation))
    } else if op == 0x40 {
        Some((Instruction::RTI, AddressingMode::NA))
    } else if op == 0x60 {
        Some((Instruction::RTS, AddressingMode::NA))
    } else if op == 0x08 {
        Some((Instruction::PHP, AddressingMode::NA))
    } else if op == 0x28 {
        Some((Instruction::PLP, AddressingMode::NA))
    } else if op == 0x48 {
        Some((Instruction::PHA, AddressingMode::NA))
    } else if op == 0x68 {
        Some((Instruction::PLA, AddressingMode::NA))
    } else if op == 0x88 {
        Some((Instruction::DEY, AddressingMode::NA))
    } else if op == 0xA8 {
        Some((Instruction::TAY, AddressingMode::NA))
    } else if op == 0xC8 {
        Some((Instruction::INY, AddressingMode::NA))
    } else if op == 0xE8 {
        Some((Instruction::INX, AddressingMode::NA))
    } else if op == 0x18 {
        Some((Instruction::CLC, AddressingMode::NA))
    } else if op == 0x38 {
        Some((Instruction::SEC, AddressingMode::NA))
    } else if op == 0x58 {
        Some((Instruction::CLI, AddressingMode::NA))
    } else if op == 0x78 {
        Some((Instruction::SEI, AddressingMode::NA))
    } else if op == 0x98 {
        Some((Instruction::TYA, AddressingMode::NA))
    } else if op == 0xB8 {
        Some((Instruction::CLV, AddressingMode::NA))
    } else if op == 0xD8 {
        Some((Instruction::CLD, AddressingMode::NA))
    } else if op == 0xF8 {
        Some((Instruction::SED, AddressingMode::NA))
    } else if op == 0x8A {
        Some((Instruction::TXA, AddressingMode::NA))
    } else if op == 0x9A {
        Some((Instruction::TXS, AddressingMode::NA))
    } else if op == 0xAA {
        Some((Instruction::TAX, AddressingMode::NA))
    } else if op == 0xBA {
        Some((Instruction::TSX, AddressingMode::NA))
    } else if op == 0xCA {
        Some((Instruction::DEX, AddressingMode::NA))
    } else if op == 0xEA {
        Some((Instruction::NOP, AddressingMode::NA))
    } else if op & 0b11111 == 0b10000 {
        let instr = spec_branch_instr(op);
        if instr == Instruction::INVALID {
            None
        } else {
            Some((instr, AddressingMode::Immediate))
        }
    } else if op & 0b11 == 0b01 {
        let instr = spec_group_a_instr(op);
        let mode = spec_group_a_mode(op);
        if instr == Instruction::INVALID || mode == AddressingMode::NA {
            None
        } else if instr == Instruction::STA && mode == AddressingMode::Immediate {
            // the one bad combination here: a store with nowhere to store to
            None
        } else {
            Some((instr, mode))
        }
    } else if op & 0b11 == 0b10 {
        let instr = spec_group_b_instr(op);
        let mode = spec_group_b_mode(op, instr);
        if instr == Instruction::INVALID || spec_group_b_bad(instr, mode) {
            None
        } else {
            Some((instr, mode))
        }
    } else if op & 0b11 == 0b00 {
        let instr = spec_group_c_instr(op);
        let mode = spec_group_c_mode(op);
        if instr == Instruction::INVALID || spec_group_c_bad(instr, mode) {
            None
        } else {
            Some((instr, mode))
        }
    } else {
        None
    }
}

/// The invalid marker is a decode-time signal only: no opcode the matrix
/// accepts ever carries it, so execution never sees it.
pub proof fn lemma_decode_never_invalid(op: u8)
    ensures
        spec_decode(op) matches Some(t) ==> t.0 != Instruction::INVALID,
{
}

fn branch_instr(op: u8) -> (r: Instruction)
    ensures
        r == spec_branch_instr(op),
{
    let sel = (op & 0b11100000) >> 5;
    if sel == 0b000 {
        Instruction::BPL
    } else if sel == 0b001 {
        Instruction::BMI
    } else if sel == 0b010 {
        Instruction::BVC
    } else if sel == 0b011 {
        Instruction::BVS
    } else if sel == 0b100 {
        Instruction::BCC
    } else if sel == 0b101 {
        Instruction::BCS
    } else if sel == 0b110 {
        Instruction::BNE
    } else if sel == 0b111 {
        Instruction::BEQ
    } else {
        Instruction::INVALID
    }
}

fn group_a_instr(op: u8) -> (r: Instruction)
    ensures
        r == spec_group_a_instr(op),
{
    let sel = (op & 0b11100000) >> 5;
    if sel == 0b000 {
        Instruction::ORA
    } else if sel == 0b001 {
        Instruction::AND
    } else if sel == 0b010 {
        Instruction::EOR
    } else if sel == 0b011 {
        Instruction::ADC
    } else if sel == 0b100 {
        Instruction::STA
    } else if sel == 0b101 {
        Instruction::LDA
    } else if sel == 0b110 {
        Instruction::CMP
    } else if sel == 0b111 {
        Instruction::SBC
    } else {
        Instruction::INVALID
    }
}

fn group_a_mode(op: u8) -> (r: AddressingMode)
    ensures
        r == spec_group_a_mode(op),
{
    let sel = (op & 0b11100) >> 2;
    if sel == 0b000 {
        AddressingMode::OffsetXIndirect
    } else if sel == 0b001 {
        AddressingMode::ZeroPage
    } else if sel == 0b010 {
        AddressingMode::Immediate
    } else if sel == 0b011 {
        AddressingMode::Absolute
    } else if sel == 0b100 {
        AddressingMode::IndirectOffsetY
    } else if sel == 0b101 {
        AddressingMode::ZeroPageOffsetX
    } else if sel == 0b110 {
        AddressingMode::AbsoluteOffsetY
    } else if sel == 0b111 {
        AddressingMode::AbsoluteOffsetX
    } else {
        AddressingMode::NA
    }
}

fn group_b_instr(op: u8) -> (r: Instruction)
    ensures
        r == spec_group_b_instr(op),
{
    let sel = (op & 0b11100000) >> 5;
    if sel == 0b000 {
        Instruction::ASL
    } else if sel == 0b001 {
        Instruction::ROL
    } else if sel == 0b010 {
        Instruction::LSR
    } else if sel == 0b011 {
        Instruction::ROR
    } else if sel == 0b100 {
        Instruction::STX
    } else if sel == 0b101 {
        Instruction::LDX
    } else if sel == 0b110 {
        Instruction::DEC
    } else if sel == 0b111 {
        Instruction::INC
    } else {
        Instruction::INVALID
    }
}

fn group_b_mode(op: u8, instr: Instruction) -> (r: AddressingMode)
    ensures
        r == spec_group_b_mode(op, instr),
{
    let sel = (op & 0b11100) >> 2;
    if sel == 0b000 {
        AddressingMode::Immediate
    } else if sel == 0b001 {
        AddressingMode::ZeroPage
    } else if sel == 0b010 {
        AddressingMode::Accumulator
    } else if sel == 0b011 {
        AddressingMode::Absolute
    } else if sel == 0b101 {
        if instr == Instruction::LDX || instr == Instruction::STX {
            AddressingMode::ZeroPageOffsetY
        } else {
            AddressingMode::ZeroPageOffsetX
        }
    } else if sel == 0b111 {
        if instr == Instruction::LDX {
            AddressingMode::AbsoluteOffsetY
        } else {
            AddressingMode::AbsoluteOffsetX
        }
    } else {
        AddressingMode::NA
    }
}

fn group_b_bad(instr: Instruction, mode: AddressingMode) -> (r: bool)
    ensures
        r == spec_group_b_bad(instr, mode),
{
    match mode {
        AddressingMode::NA => true,
        AddressingMode::Immediate => match instr {
            Instruction::LDX => false,
            _ => true,
        },
        AddressingMode::Accumulator => match instr {
            Instruction::STX => true,
            Instruction::LDX => true,
            Instruction::DEC => true,
            Instruction::INC => true,
            _ => false,
        },
        AddressingMode::AbsoluteOffsetX => match instr {
            Instruction::STX => true,
            _ => false,
        },
        _ => false,
    }
}

fn group_c_instr(op: u8) -> (r: Instruction)
    ensures
        r == spec_group_c_instr(op),
{
    let sel = (op & 0b11100000) >> 5;
    if sel == 0b001 {
        Instruction::BIT
    } else if sel == 0b010 || sel == 0b011 {
        Instruction::JMP
    } else if sel == 0b100 {
        Instruction::STY
    } else if sel == 0b101 {
        Instruction::LDY
    } else if sel == 0b110 {
        Instruction::CPY
    } else if sel == 0b111 {
        Instruction::CPX
    } else {
        Instruction::INVALID
    }
}

fn group_c_mode(op: u8) -> (r: AddressingMode)
    ensures
        r == spec_group_c_mode(op),
{
    let sel = (op & 0b11100) >> 2;
    let isel = (op & 0b11100000) >> 5;
    if sel == 0b000 {
        AddressingMode::Immediate
    } else if sel == 0b001 {
        AddressingMode::ZeroPage
    } else if sel == 0b011 {
        if isel == 0b011 {
            AddressingMode::IndirectLocation
        } else if isel == 0b010 {
            AddressingMode::AbsoluteLocation
        } else {
            AddressingMode::Absolute
        }
    } else if sel == 0b101 {
        AddressingMode::ZeroPageOffsetX
    } else if sel == 0b111 {
        AddressingMode::AbsoluteOffsetX
    } else {
        AddressingMode::NA
    }
}

fn group_c_bad(instr: Instruction, mode: AddressingMode) -> (r: bool)
    ensures
        r == spec_group_c_bad(instr, mode),
{
    match mode {
        AddressingMode::NA => true,
        AddressingMode::Immediate => match instr {
            Instruction::LDY => false,
            Instruction::CPY => false,
            Instruction::CPX => false,
            _ => true,
        },
        AddressingMode::ZeroPage => match instr {
            Instruction::JMP => true,
            _ => false,
        },
        AddressingMode::ZeroPageOffsetX => match instr {
            Instruction::STY => false,
            Instruction::LDY => false,
            _ => true,
        },
        AddressingMode::AbsoluteOffsetX => match instr {
            Instruction::LDY => false,
            _ => true,
        },
        _ => false,
    }
}

/// Decodes one opcode byte against the legal matrix; total, and rejects
/// exactly the combinations `spec_decode` marks illegal.
pub fn decode_opcode(op: u8) -> (r: Option<(Instruction, AddressingMode)>)
    ensures
        r == spec_decode(op),
{
    if op == 0x00 {
        Some((Instruction::BRK, AddressingMode::NA))
    } else if op == 0x20 {
        Some((Instruction::JSR, AddressingMode::AbsoluteLocation))
    } else if op == 0x40 {
        Some((Instruction::RTI, AddressingMode::NA))
    } else if op == 0x60 {
        Some((Instruction::RTS, AddressingMode::NA))
    } else if op == 0x08 {
        Some((Instruction::PHP, AddressingMode::NA))
    } else if op == 0x28 {
        Some((Instruction::PLP, AddressingMode::NA))
    } else if op == 0x48 {
        Some((Instruction::PHA, AddressingMode::NA))
    } else if op == 0x68 {
        Some((Instruction::PLA, AddressingMode::NA))
    } else if op == 0x88 {
        Some((Instruction::DEY, AddressingMode::NA))
    } else if op == 0xA8 {
        Some((Instruction::TAY, AddressingMode::NA))
    } else if op == 0xC8 {
        Some((Instruction::INY, AddressingMode::NA))
    } else if op == 0xE8 {
        Some((Instruction::INX, AddressingMode::NA))
    } else if op == 0x18 {
        Some((Instruction::CLC, AddressingMode::NA))
    } else if op == 0x38 {
        Some((Instruction::SEC, AddressingMode::NA))
    } else if op == 0x58 {
        Some((Instruction::CLI, AddressingMode::NA))
    } else if op == 0x78 {
        Some((Instruction::SEI, AddressingMode::NA))
    } else if op == 0x98 {
        Some((Instruction::TYA, AddressingMode::NA))
    } else if op == 0xB8 {
        Some((Instruction::CLV, AddressingMode::NA))
    } else if op == 0xD8 {
        Some((Instruction::CLD, AddressingMode::NA))
    } else if op == 0xF8 {
        Some((Instruction::SED, AddressingMode::NA))
    } else if op == 0x8A {
        Some((Instruction::TXA, AddressingMode::NA))
    } else if op == 0x9A {
        Some((Instruction::TXS, AddressingMode::NA))
    } else if op == 0xAA {
        Some((Instruction::TAX, AddressingMode::NA))
    } else if op == 0xBA {
        Some((Instruction::TSX, AddressingMode::NA))
    } else if op == 0xCA {
        Some((Instruction::DEX, AddressingMode::NA))
    } else if op == 0xEA {
        Some((Instruction::NOP, AddressingMode::NA))
    } else if op & 0b11111 == 0b10000 {
        let instr = branch_instr(op);
        if instr == Instruction::INVALID {
            None
        } else {
            Some((instr, AddressingMode::Immediate))
        }
    } else if op & 0b11 == 0b01 {
        let instr = group_a_instr(op);
        let mode = group_a_mode(op);
        if instr == Instruction::INVALID || mode == AddressingMode::NA {
            None
        } else if instr == Instruction::STA && mode == AddressingMode::Immediate {
            None
        } else {
            Some((instr, mode))
        }
    } else if op & 0b11 == 0b10 {
        let instr = group_b_instr(op);
        let mode = group_b_mode(op, instr);
        if instr == Instruction::INVALID || group_b_bad(instr, mode) {
            None
        } else {
            Some((instr, mode))
        }
    } else if op & 0b11 == 0b00 {
        let instr = group_c_instr(op);
        let mode = group_c_mode(op);
        if instr == Instruction::INVALID || group_c_bad(instr, mode) {
            None
        } else {
            Some((instr, mode))
        }
    } else {
        None
    }
}

// ---------------------------------------------------------------------------
// Registers and the helpers every instruction is built from.
// ---------------------------------------------------------------------------

/// The processor's whole register file. The cycle counter only ever grows;
/// `previous_pc` remembers where the last instruction started, which branch
/// cycle accounting needs.
#[derive(Copy, Clone, Debug, PartialEq, Eq, Structural)]
pub struct Cpu {
    pub a: u8,
    pub x: u8,
    pub y: u8,
    pub pc: u16,
    pub previous_pc: u16,
    pub s: u8,
    pub p: u8,
    pub cycle: u64,
}

pub open spec fn spec_flag_set(p: u8, mask: u8) -> bool {
    p & mask == mask
}

pub open spec fn spec_set_flag(p: u8, mask: u8, on: bool) -> u8 {
    if on {
        p | mask
    } else {
        p & !mask
    }
}

/// A little-endian word read over the bus, the second byte from the
/// following (wrapping) address.
pub open spec fn spec_read_word(m: MemSnapshot, addr: u16) -> u16 {
    word(spec_read(m, addr), spec_read(m, add16(addr, 1)))
}

/// The stack pointer after a push: down one, wrapping within the page.
pub open spec fn dec_sp(s: u8) -> u8 {
    if s == 0 {
        0xFF
    } else {
        (s - 1) as u8
    }
}

/// The stack pointer after a pop: up one, wrapping within the page.
pub open spec fn inc_sp(s: u8) -> u8 {
    if s == 0xFF {
        0
    } else {
        (s + 1) as u8
    }
}

/// A pushed byte lands at `0x100 + s`; the pointer then steps down.
pub open spec fn spec_push_byte(cpu: Cpu, m: MemSnapshot, b: u8) -> (Cpu, MemSnapshot) {
    (
        Cpu { s: dec_sp(cpu.s), ..cpu },
        spec_write(m, (0x100 + cpu.s) as u16, b),
    )
}

/// A pop steps the pointer up first and reads from `0x100 + s`.
pub open spec fn spec_pop_byte(cpu: Cpu, m: MemSnapshot) -> (Cpu, u8) {
    let s2 = inc_sp(cpu.s);
    (Cpu { s: s2, ..cpu }, spec_read(m, (0x100 + s2) as u16))
}

/// Words are pushed high byte first, so they pop low byte first.
pub open spec fn spec_push_word(cpu: Cpu, m: MemSnapshot, w: u16) -> (Cpu, MemSnapshot) {
    let (c1, m1) = spec_push_byte(cpu, m, hi_byte(w));
    spec_push_byte(c1, m1, lo_byte(w))
}

pub open spec fn spec_pop_word(cpu: Cpu, m: MemSnapshot) -> (Cpu, u16) {
    let (c1, lo) = spec_pop_byte(cpu, m);
    let (c2, hi) = spec_pop_byte(c1, m);
    (c2, word(lo, hi))
}

/// Where a relative branch lands: the displacement byte is reinterpreted as
/// signed, and the program counter wraps at the ends of the address space.
pub open spec fn spec_branch_target(pc: u16, op: u16) -> u16 {
    if op >= 0x80 {
        sub16(pc, (0x100 - op) as u16)
    } else {
        add16(pc, op)
    }
}

/// A byte stepped down with wrap-around.
pub open spec fn spec_decrement(b: u8) -> u8 {
    if b == 0 {
        0xFF
    } else {
        (b - 1) as u8
    }
}

/// A byte stepped up with wrap-around.
pub open spec fn spec_increment(b: u8) -> u8 {
    if b == 0xFF {
        0
    } else {
        (b + 1) as u8
    }
}

/// The status register after a compare: carry says no borrow was needed,
/// zero says the values were equal, negative is bit 7 of the difference.
pub open spec fn spec_compare(p: u8, reg: u8, byte: u8) -> u8 {
    let p1 = spec_set_flag(p, FLAG_CARRY, reg >= byte);
    let p2 = spec_set_flag(p1, FLAG_ZERO, reg == byte);
    spec_set_flag(p2, FLAG_NEGATIVE, (((reg + 0x100 - byte) % 0x100) as u8) & 0x80 == 0x80)
}

/// The value an instruction consumes, given its addressing mode and raw
/// operand. Zero-page indexing wraps within the zero page; absolute
/// indexing carries across pages (wrapping only at the top of the address
/// space); the indirect forms dereference a little-endian word first.
pub open spec fn spec_realise(
    cpu: Cpu,
    m: MemSnapshot,
    mode: AddressingMode,
    operand: Option<u16>,
) -> u16 {
    let op = match operand {
        Some(v) => v,
        None => 0,
    };
    match mode {
        AddressingMode::Immediate => op,
        AddressingMode::ZeroPage => spec_read(m, op) as u16,
        AddressingMode::ZeroPageOffsetX => spec_read(m, ((op + cpu.x) % 0x100) as u16) as u16,
        AddressingMode::ZeroPageOffsetY => spec_read(m, ((op + cpu.y) % 0x100) as u16) as u16,
        AddressingMode::Absolute => spec_read(m, op) as u16,
        AddressingMode::AbsoluteOffsetX => spec_read(m, add16(op, cpu.x as u16)) as u16,
        AddressingMode::AbsoluteOffsetY => spec_read(m, add16(op, cpu.y as u16)) as u16,
        AddressingMode::Accumulator => cpu.a as u16,
        AddressingMode::OffsetXIndirect => spec_read(
            m,
            spec_read_word(m, ((op + cpu.x) % 0x100) as u16),
        ) as u16,
        AddressingMode::IndirectOffsetY => spec_read(
            m,
            add16(spec_read_word(m, op), cpu.y as u16),
        ) as u16,
        AddressingMode::IndirectLocation => spec_read_word(m, op),
        AddressingMode::AbsoluteLocation => op,
        AddressingMode::NA => 0,
    }
}

/// Where a result byte lands for each addressing mode; modes that name no
/// store target leave processor and bus untouched.
pub open spec fn spec_store(
    cpu: Cpu,
    m: MemSnapshot,
    mode: AddressingMode,
    operand: Option<u16>,
    v: u8,
) -> (Cpu, MemSnapshot) {
    let op = match operand {
        Some(x) => x,
        None => 0,
    };
    match mode {
        AddressingMode::ZeroPage => (cpu, spec_write(m, op, v)),
        AddressingMode::ZeroPageOffsetX => (cpu, spec_write(m, ((op + cpu.x) % 0x100) as u16, v)),
        AddressingMode::ZeroPageOffsetY => (cpu, spec_write(m, ((op + cpu.y) % 0x100) as u16, v)),
        AddressingMode::Absolute => (cpu, spec_write(m, op, v)),
        AddressingMode::AbsoluteOffsetX => (cpu, spec_write(m, add16(op, cpu.x as u16), v)),
        AddressingMode::AbsoluteOffsetY => (cpu, spec_write(m, add16(op, cpu.y as u16), v)),
        AddressingMode::Accumulator => (Cpu { a: v, ..cpu }, m),
        AddressingMode::OffsetXIndirect => (
            cpu,
            spec_write(m, spec_read_word(m, ((op + cpu.x) % 0x100) as u16), v),
        ),
        AddressingMode::IndirectOffsetY => (
            cpu,
            spec_write(m, add16(spec_read_word(m, op), cpu.y as u16), v),
        ),
        _ => (cpu, m),
    }
}

/// The hardware interrupt entry: return address then status pushed,
/// interrupts disabled, the program counter loaded from the interrupt
/// vector, and a fixed seven cycles on the counter.
pub open spec fn spec_nmi(cpu: Cpu, m: MemSnapshot) -> (Cpu, MemSnapshot) {
    let (c1, m1) = spec_push_word(cpu, m, cpu.pc);
    let (c2, m2) = spec_push_byte(c1, m1, cpu.p);
    let c3 = Cpu { p: spec_set_flag(c2.p, FLAG_IRQ_DISABLE, true), ..c2 };
    (Cpu { pc: spec_read_word(m2, 0xFFFA), cycle: (c3.cycle + 7) as u64, ..c3 }, m2)
}

/// The full effect of one decoded instruction on registers and bus, given
/// the resolved operand value `op`. `cpu` is the state after the fetch: the
/// program counter already points past the instruction. Flag updates follow
/// the fixed rules: zero when the result byte is zero, negative from bit 7,
/// carry and overflow per operation. Decimal-mode arithmetic works nibble
/// by nibble with inter-nibble carry or borrow; its negative, zero and
/// overflow flags follow the same byte-level rules as binary mode.
pub open spec fn spec_apply(
    d: DecodedInstruction,
    op: u16,
    cpu: Cpu,
    m: MemSnapshot,
) -> (Cpu, MemSnapshot) {
    let opb: u8 = (op % 0x100) as u8;
    match d.instruction {
        Instruction::ADC => {
            let c: int = if spec_flag_set(cpu.p, FLAG_CARRY) {
                1
            } else {
                0
            };
            let (carry, sum): (bool, int) = if spec_flag_set(cpu.p, FLAG_DECIMAL) {
                let rhs = cpu.a % 16 + opb % 16 + c;
                let carry1: int = if rhs > 9 {
                    1
                } else {
                    0
                };
                let lhs = cpu.a / 16 + opb / 16 + carry1;
                (lhs > 9, (lhs % 10) * 16 + rhs % 10)
            } else {
                let result = cpu.a + opb + c;
                (result > 0xFF, result % 0x100)
            };
            let p1 = spec_set_flag(cpu.p, FLAG_CARRY, carry);
            let p2 = spec_set_flag(p1, FLAG_NEGATIVE, (sum as u8) & 0x80 == 0x80);
            let p3 = spec_set_flag(p2, FLAG_ZERO, sum == 0);
            let overflow = (cpu.a < 128 && sum > 127) || (cpu.a > 127 && sum < 128);
            let p4 = spec_set_flag(p3, FLAG_OVERFLOW, overflow);
            (Cpu { a: sum as u8, p: p4, ..cpu }, m)
        },
        Instruction::AND => {
            let result = cpu.a & opb;
            let p1 = spec_set_flag(cpu.p, FLAG_ZERO, result == 0);
            let p2 = spec_set_flag(p1, FLAG_NEGATIVE, result & 0x80 == 0x80);
            (Cpu { a: result, p: p2, ..cpu }, m)
        },
        Instruction::ASL => {
            let result: u16 = op << 1u16;
            let p1 = spec_set_flag(cpu.p, FLAG_CARRY, result & 0x100 == 0x100);
            let p2 = spec_set_flag(p1, FLAG_NEGATIVE, ((result % 0x100) as u8) & 0x80 == 0x80);
            let p3 = spec_set_flag(p2, FLAG_ZERO, result % 0x100 == 0);
            spec_store(
                Cpu { p: p3, ..cpu },
                m,
                d.addressing_mode,
                d.operand,
                (result % 0x100) as u8,
            )
        },
        Instruction::BCC => {
            if !spec_flag_set(cpu.p, FLAG_CARRY) {
                (Cpu { pc: spec_branch_target(cpu.pc, (op % 0x100) as u16), ..cpu }, m)
            } else {
                (cpu, m)
            }
        },
        Instruction::BCS => {
            if spec_flag_set(cpu.p, FLAG_CARRY) {
                (Cpu { pc: spec_branch_target(cpu.pc, (op % 0x100) as u16), ..cpu }, m)
            } else {
                (cpu, m)
            }
        },
        Instruction::BEQ => {
            if spec_flag_set(cpu.p, FLAG_ZERO) {
                (Cpu { pc: spec_branch_target(cpu.pc, (op % 0x100) as u16), ..cpu }, m)
            } else {
                (cpu, m)
            }
        },
        Instruction::BIT => {
            let result = cpu.a & opb;
            let p1 = spec_set_flag(cpu.p, FLAG_ZERO, result == 0);
            let p2 = spec_set_flag(p1, FLAG_OVERFLOW, op & 0x40 == 0x40);
            let p3 = spec_set_flag(p2, FLAG_NEGATIVE, opb & 0x80 == 0x80);
            (Cpu { p: p3, ..cpu }, m)
        },
        Instruction::BMI => {
            if spec_flag_set(cpu.p, FLAG_NEGATIVE) {
                (Cpu { pc: spec_branch_target(cpu.pc, (op % 0x100) as u16), ..cpu }, m)
            } else {
                (cpu, m)
            }
        },
        Instruction::BNE => {
            if !spec_flag_set(cpu.p, FLAG_ZERO) {
                (Cpu { pc: spec_branch_target(cpu.pc, (op % 0x100) as u16), ..cpu }, m)
            } else {
                (cpu, m)
            }
        },
        Instruction::BPL => {
            if !spec_flag_set(cpu.p, FLAG_NEGATIVE) {
                (Cpu { pc: spec_branch_target(cpu.pc, (op % 0x100) as u16), ..cpu }, m)
            } else {
                (cpu, m)
            }
        },
        Instruction::BRK => {
            // the software interrupt: break flag set before the status is
            // pushed, return address past the two-byte instruction, then
            // interrupts disabled and the software-interrupt vector taken
            let c0 = Cpu { p: spec_set_flag(cpu.p, FLAG_BREAK, true), ..cpu };
            let (c1, m1) = spec_push_word(c0, m, add16(c0.pc, 1));
            let (c2, m2) = spec_push_byte(c1, m1, c0.p);
            let c3 = Cpu { p: spec_set_flag(c2.p, FLAG_IRQ_DISABLE, true), ..c2 };
            (Cpu { pc: spec_read_word(m2, 0xFFFE), ..c3 }, m2)
        },
        Instruction::BVC => {
            if !spec_flag_set(cpu.p, FLAG_OVERFLOW) {
                (Cpu { pc: spec_branch_target(cpu.pc, (op % 0x100) as u16), ..cpu }, m)
            } else {
                (cpu, m)
            }
        },
        Instruction::BVS => {
            if spec_flag_set(cpu.p, FLAG_OVERFLOW) {
                (Cpu { pc: spec_branch_target(cpu.pc, (op % 0x100) as u16), ..cpu }, m)
            } else {
                (cpu, m)
            }
        },
        Instruction::CLC => (Cpu { p: spec_set_flag(cpu.p, FLAG_CARRY, false), ..cpu }, m),
        Instruction::CLD => (Cpu { p: spec_set_flag(cpu.p, FLAG_DECIMAL, false), ..cpu }, m),
        Instruction::CLI => (Cpu { p: spec_set_flag(cpu.p, FLAG_IRQ_DISABLE, false), ..cpu }, m),
        Instruction::CLV => (Cpu { p: spec_set_flag(cpu.p, FLAG_OVERFLOW, false), ..cpu }, m),
        Instruction::CMP => (Cpu { p: spec_compare(cpu.p, cpu.a, opb), ..cpu }, m),
        Instruction::CPX => (Cpu { p: spec_compare(cpu.p, cpu.x, opb), ..cpu }, m),
        Instruction::CPY => (Cpu { p: spec_compare(cpu.p, cpu.y, opb), ..cpu }, m),
        Instruction::DEC => {
            let result = spec_decrement(opb);
            let p1 = spec_set_flag(cpu.p, FLAG_ZERO, result == 0);
            let p2 = spec_set_flag(p1, FLAG_NEGATIVE, result & 0x80 == 0x80);
            spec_store(Cpu { p: p2, ..cpu }, m, d.addressing_mode, d.operand, result)
        },
        Instruction::DEX => {
            let result = spec_decrement(cpu.x);
            let p1 = spec_set_flag(cpu.p, FLAG_ZERO, result == 0);
            let p2 = spec_set_flag(p1, FLAG_NEGATIVE, result & 0x80 == 0x80);
            (Cpu { x: result, p: p2, ..cpu }, m)
        },
        Instruction::DEY => {
            let result = spec_decrement(cpu.y);
            let p1 = spec_set_flag(cpu.p, FLAG_ZERO, result == 0);
            let p2 = spec_set_flag(p1, FLAG_NEGATIVE, result & 0x80 == 0x80);
            (Cpu { y: result, p: p2, ..cpu }, m)
        },
        Instruction::EOR => {
            let result = cpu.a ^ opb;
            let p1 = spec_set_flag(cpu.p, FLAG_ZERO, result == 0);
            let p2 = spec_set_flag(p1, FLAG_NEGATIVE, result & 0x80 == 0x80);
            (Cpu { a: result, p: p2, ..cpu }, m)
        },
        Instruction::INC => {
            let result = spec_increment(opb);
            let p1 = spec_set_flag(cpu.p, FLAG_ZERO, result == 0);
            let p2 = spec_set_flag(p1, FLAG_NEGATIVE, result & 0x80 == 0x80);
            spec_store(Cpu { p: p2, ..cpu }, m, d.addressing_mode, d.operand, result)
        },
        Instruction::INX => {
            let result = spec_increment(cpu.x);
            let p1 = spec_set_flag(cpu.p, FLAG_ZERO, result == 0);
            let p2 = spec_set_flag(p1, FLAG_NEGATIVE, result & 0x80 == 0x80);
            (Cpu { x: result, p: p2, ..cpu }, m)
        },
        Instruction::INY => {
            let result = spec_increment(cpu.y);
            let p1 = spec_set_flag(cpu.p, FLAG_ZERO, result == 0);
            let p2 = spec_set_flag(p1, FLAG_NEGATIVE, result & 0x80 == 0x80);
            (Cpu { y: result, p: p2, ..cpu }, m)
        },
        Instruction::JMP => (Cpu { pc: op, ..cpu }, m),
        Instruction::JSR => {
            let (c1, m1) = spec_push_word(cpu, m, sub16(cpu.pc, 1));
            (Cpu { pc: op, ..c1 }, m1)
        },
        Instruction::LDA => {
            let p1 = spec_set_flag(cpu.p, FLAG_ZERO, op == 0);
            let p2 = spec_set_flag(p1, FLAG_NEGATIVE, opb & 0x80 == 0x80);
            (Cpu { a: opb, p: p2, ..cpu }, m)
        },
        Instruction::LDX => {
            let p1 = spec_set_flag(cpu.p, FLAG_ZERO, op == 0);
            let p2 = spec_set_flag(p1, FLAG_NEGATIVE, opb & 0x80 == 0x80);
            (Cpu { x: opb, p: p2, ..cpu }, m)
        },
        Instruction::LDY => {
            let p1 = spec_set_flag(cpu.p, FLAG_ZERO, op == 0);
            let p2 = spec_set_flag(p1, FLAG_NEGATIVE, opb & 0x80 == 0x80);
            (Cpu { y: opb, p: p2, ..cpu }, m)
        },
        Instruction::LSR => {
            let result: u16 = op >> 1u16;
            let p1 = spec_set_flag(cpu.p, FLAG_CARRY, op & 0x1 == 0x1);
            let p2 = spec_set_flag(p1, FLAG_ZERO, result == 0);
            let p3 = spec_set_flag(p2, FLAG_NEGATIVE, ((result % 0x100) as u8) & 0x80 == 0x80);
            spec_store(
                Cpu { p: p3, ..cpu },
                m,
                d.addressing_mode,
                d.operand,
                (result % 0x100) as u8,
            )
        },
        Instruction::NOP => (cpu, m),
        Instruction::ORA => {
            let result = cpu.a | opb;
            let p1 = spec_set_flag(cpu.p, FLAG_ZERO, result == 0);
            let p2 = spec_set_flag(p1, FLAG_NEGATIVE, result & 0x80 == 0x80);
            (Cpu { a: result, p: p2, ..cpu }, m)
        },
        Instruction::PHA => spec_push_byte(cpu, m, cpu.a),
        Instruction::PHP => spec_push_byte(cpu, m, cpu.p),
        Instruction::PLA => {
            let (c1, b) = spec_pop_byte(cpu, m);
            let p1 = spec_set_flag(c1.p, FLAG_ZERO, b == 0);
            let p2 = spec_set_flag(p1, FLAG_NEGATIVE, b & 0x80 == 0x80);
            (Cpu { a: b, p: p2, ..c1 }, m)
        },
        Instruction::PLP => {
            let (c1, b) = spec_pop_byte(cpu, m);
            (Cpu { p: b, ..c1 }, m)
        },
        Instruction::ROL => {
            let cbit: u16 = if spec_flag_set(cpu.p, FLAG_CARRY) {
                1
            } else {
                0
            };
            let result: u16 = op << 1u16 | cbit;
            let p1 = spec_set_flag(cpu.p, FLAG_CARRY, result & 0x100 == 0x100);
            let p2 = spec_set_flag(p1, FLAG_ZERO, result % 0x100 == 0);
            let p3 = spec_set_flag(p2, FLAG_NEGATIVE, ((result % 0x100) as u8) & 0x80 == 0x80);
            spec_store(
                Cpu { p: p3, ..cpu },
                m,
                d.addressing_mode,
                d.operand,
                (result % 0x100) as u8,
            )
        },
        Instruction::ROR => {
            let carry_out = op & 0x1 == 0x1;
            let cbit: u16 = if spec_flag_set(cpu.p, FLAG_CARRY) {
                0x80
            } else {
                0
            };
            let result: u16 = op >> 1u16 | cbit;
            let p1 = spec_set_flag(cpu.p, FLAG_CARRY, carry_out);
            let p2 = spec_set_flag(p1, FLAG_ZERO, result == 0);
            let p3 = spec_set_flag(p2, FLAG_NEGATIVE, ((result % 0x100) as u8) & 0x80 == 0x80);
            spec_store(
                Cpu { p: p3, ..cpu },
                m,
                d.addressing_mode,
                d.operand,
                (result % 0x100) as u8,
            )
        },
        Instruction::RTI => {
            let (c1, b) = spec_pop_byte(cpu, m);
            let c1p = Cpu { p: b, ..c1 };
            let (c2, w) = spec_pop_word(c1p, m);
            (Cpu { pc: w, ..c2 }, m)
        },
        Instruction::RTS => {
            let (c1, w) = spec_pop_word(cpu, m);
            (Cpu { pc: add16(w, 1), ..c1 }, m)
        },
        Instruction::SBC => {
            // The decimal-mode borrow path reproduces the historical logic
            // as documented; no known program image exercises it, and what
            // the hardware does with non-decimal digits is an open question
            // deliberately left as-is.
            let (carry, sub): (bool, u8) = if spec_flag_set(cpu.p, FLAG_DECIMAL) {
                let lhs_a = cpu.a / 16;
                let lhs_o = opb / 16;
                let rhs_a = cpu.a % 16;
                let rhs_o = opb % 16;
                let borrow1: int = if spec_flag_set(cpu.p, FLAG_CARRY) {
                    0
                } else {
                    1
                };
                let borrow2: int = if rhs_a >= rhs_o + borrow1 {
                    0
                } else {
                    1
                };
                let borrow3: int = if lhs_a >= lhs_o + borrow2 {
                    0
                } else {
                    1
                };
                let rhs = (rhs_a + borrow2 * 10 + 0x100 - rhs_o - borrow1) % 0x100;
                let lhs = (lhs_a + borrow3 * 10 + 0x100 - lhs_o - borrow2) % 0x100;
                (borrow3 == 0, ((lhs % 10) * 16 + rhs % 10) as u8)
            } else {
                let sub_tot = opb + if spec_flag_set(cpu.p, FLAG_CARRY) {
                    0int
                } else {
                    1int
                };
                (sub_tot <= cpu.a, ((cpu.a + 0x100 - sub_tot) % 0x100) as u8)
            };
            let p1 = spec_set_flag(cpu.p, FLAG_CARRY, carry);
            let p2 = spec_set_flag(p1, FLAG_NEGATIVE, sub & 0x80 == 0x80);
            let p3 = spec_set_flag(p2, FLAG_ZERO, sub == 0);
            let overflow = (cpu.a < 128 && sub > 127) || (cpu.a > 127 && sub < 128);
            let p4 = spec_set_flag(p3, FLAG_OVERFLOW, overflow);
            (Cpu { a: sub, p: p4, ..cpu }, m)
        },
        Instruction::SEC => (Cpu { p: spec_set_flag(cpu.p, FLAG_CARRY, true), ..cpu }, m),
        Instruction::SED => (Cpu { p: spec_set_flag(cpu.p, FLAG_DECIMAL, true), ..cpu }, m),
        Instruction::SEI => (Cpu { p: spec_set_flag(cpu.p, FLAG_IRQ_DISABLE, true), ..cpu }, m),
        Instruction::STA => spec_store(cpu, m, d.addressing_mode, d.operand, cpu.a),
        Instruction::STX => spec_store(cpu, m, d.addressing_mode, d.operand, cpu.x),
        Instruction::STY => spec_store(cpu, m, d.addressing_mode, d.operand, cpu.y),
        Instruction::TAX => {
            let p1 = spec_set_flag(cpu.p, FLAG_ZERO, cpu.a == 0);
            let p2 = spec_set_flag(p1, FLAG_NEGATIVE, cpu.a & 0x80 == 0x80);
            (Cpu { x: cpu.a, p: p2, ..cpu }, m)
        },
        Instruction::TAY => {
            let p1 = spec_set_flag(cpu.p, FLAG_ZERO, cpu.a == 0);
            let p2 = spec_set_flag(p1, FLAG_NEGATIVE, cpu.a & 0x80 == 0x80);
            (Cpu { y: cpu.a, p: p2, ..cpu }, m)
        },
        Instruction::TSX => {
            let p1 = spec_set_flag(cpu.p, FLAG_ZERO, cpu.s == 0);
            let p2 = spec_set_flag(p1, FLAG_NEGATIVE, cpu.s & 0x80 == 0x80);
            (Cpu { x: cpu.s, p: p2, ..cpu }, m)
        },
        Instruction::TXA => {
            let p1 = spec_set_flag(cpu.p, FLAG_ZERO, cpu.x == 0);
            let p2 = spec_set_flag(p1, FLAG_NEGATIVE, cpu.x & 0x80 == 0x80);
            (Cpu { a: cpu.x, p: p2, ..cpu }, m)
        },
        Instruction::TXS => (Cpu { s: cpu.x, ..cpu }, m),
        Instruction::TYA => {
            let p1 = spec_set_flag(cpu.p, FLAG_ZERO, cpu.y == 0);
            let p2 = spec_set_flag(p1, FLAG_NEGATIVE, cpu.y & 0x80 == 0x80);
            (Cpu { a: cpu.y, p: p2, ..cpu }, m)
        },
        Instruction::INVALID => (cpu, m),
    }
}

/// How many bytes an instruction occupies, opcode included, for each
/// addressing mode.
pub open spec fn spec_mode_size(mode: AddressingMode) -> u16 {
    match mode {
        AddressingMode::Immediate
        | AddressingMode::ZeroPage
        | AddressingMode::ZeroPageOffsetX
        | AddressingMode::ZeroPageOffsetY
        | AddressingMode::OffsetXIndirect
        | AddressingMode::IndirectOffsetY => 2,
        AddressingMode::Absolute
        | AddressingMode::AbsoluteOffsetX
        | AddressingMode::AbsoluteOffsetY
        | AddressingMode::IndirectLocation
        | AddressingMode::AbsoluteLocation => 3,
        AddressingMode::Accumulator | AddressingMode::NA => 1,
    }
}

/// The raw operand bytes a fetch at `cpu.pc` picks up for `mode`: one byte,
/// a little-endian word, or nothing.
pub open spec fn spec_operand(cpu: Cpu, m: MemSnapshot, mode: AddressingMode) -> Option<u16> {
    match mode {
        AddressingMode::Immediate
        | AddressingMode::ZeroPage
        | AddressingMode::ZeroPageOffsetX
        | AddressingMode::ZeroPageOffsetY
        | AddressingMode::OffsetXIndirect
        | AddressingMode::IndirectOffsetY => Some(spec_read(m, add16(cpu.pc, 1)) as u16),
        AddressingMode::Absolute
        | AddressingMode::AbsoluteOffsetX
        | AddressingMode::AbsoluteOffsetY
        | AddressingMode::IndirectLocation
        | AddressingMode::AbsoluteLocation => Some(
            word(spec_read(m, add16(cpu.pc, 1)), spec_read(m, add16(cpu.pc, 2))),
        ),
        AddressingMode::Accumulator | AddressingMode::NA => None,
    }
}

/// One extra cycle when indexing carries the effective address into a
/// different 256-byte page than its base.
pub open spec fn spec_page_cross(base: u16, offset: u8) -> u64 {
    if base / 0x100 == add16(base, offset as u16) / 0x100 {
        0
    } else {
        1
    }
}

/// The exact cycle cost of one instruction, from the fixed table: a base
/// cost per instruction class and addressing mode, one more when an indexed
/// read crosses a page, and for branches one more when taken plus another
/// when the target leaves the page of the instruction that follows the
/// branch. Evaluated on the post-execution state, whose `previous_pc` still
/// names the branch's own address.
pub open spec fn spec_cycles(d: DecodedInstruction, cpu: Cpu, m: MemSnapshot) -> u64 {
    match d.instruction {
        Instruction::ADC | Instruction::AND | Instruction::BIT | Instruction::CMP
        | Instruction::CPX | Instruction::CPY | Instruction::EOR | Instruction::LDA
        | Instruction::LDX | Instruction::LDY | Instruction::ORA | Instruction::SBC => {
            match d.addressing_mode {
                AddressingMode::Immediate => 2,
                AddressingMode::ZeroPage => 3,
                AddressingMode::ZeroPageOffsetX => 4,
                AddressingMode::ZeroPageOffsetY => 4,
                AddressingMode::Absolute => 4,
                AddressingMode::AbsoluteOffsetX => (4 + match d.operand {
                    Some(a) => spec_page_cross(a, cpu.x),
                    None => 0,
                }) as u64,
                AddressingMode::AbsoluteOffsetY => (4 + match d.operand {
                    Some(a) => spec_page_cross(a, cpu.y),
                    None => 0,
                }) as u64,
                AddressingMode::OffsetXIndirect => 6,
                AddressingMode::IndirectOffsetY => (5 + match d.operand {
                    Some(a) => spec_page_cross(spec_read_word(m, a), cpu.y),
                    None => 0,
                }) as u64,
                _ => 0,
            }
        },
        Instruction::ASL | Instruction::DEC | Instruction::INC | Instruction::LSR
        | Instruction::ROL | Instruction::ROR => match d.addressing_mode {
            AddressingMode::Accumulator => 2,
            AddressingMode::ZeroPage => 5,
            AddressingMode::ZeroPageOffsetX => 6,
            AddressingMode::Absolute => 6,
            AddressingMode::AbsoluteOffsetX => 7,
            _ => 0,
        },
        Instruction::BCC | Instruction::BCS | Instruction::BEQ | Instruction::BMI
        | Instruction::BNE | Instruction::BPL | Instruction::BVC | Instruction::BVS => {
            let fallthrough = add16(cpu.previous_pc, 2);
            (2 + if cpu.pc != fallthrough {
                if cpu.pc / 0x100 == fallthrough / 0x100 {
                    1int
                } else {
                    2int
                }
            } else {
                0int
            }) as u64
        },
        Instruction::BRK => 7,
        Instruction::CLC | Instruction::CLD | Instruction::CLI | Instruction::CLV
        | Instruction::DEX | Instruction::DEY | Instruction::INX | Instruction::INY
        | Instruction::NOP | Instruction::SEC | Instruction::SED | Instruction::SEI
        | Instruction::TAX | Instruction::TAY | Instruction::TSX | Instruction::TXS
        | Instruction::TXA | Instruction::TYA => 2,
        Instruction::JMP => match d.addressing_mode {
            AddressingMode::AbsoluteLocation => 3,
            AddressingMode::IndirectLocation => 5,
            _ => 0,
        },
        Instruction::JSR | Instruction::RTI | Instruction::RTS => 6,
        Instruction::PHA | Instruction::PHP => 3,
        Instruction::PLA | Instruction::PLP => 4,
        Instruction::STA | Instruction::STX | Instruction::STY => match d.addressing_mode {
            AddressingMode::ZeroPage => 3,
            AddressingMode::ZeroPageOffsetX => 4,
            AddressingMode::ZeroPageOffsetY => 4,
            AddressingMode::Absolute => 4,
            AddressingMode::AbsoluteOffsetX => 5,
            AddressingMode::AbsoluteOffsetY => 5,
            AddressingMode::OffsetXIndirect => 6,
            AddressingMode::IndirectOffsetY => 6,
            _ => 0,
        },
        Instruction::INVALID => 0,
    }
}

/// Every instruction/mode pair the decode matrix can produce costs between
/// 2 and 7 cycles: the counter always moves, and by a bounded amount.
#[verifier::rlimit(100)]
pub proof fn lemma_legal_cycle_bounds(opcode: u8, d: DecodedInstruction, cpu: Cpu, m: MemSnapshot)
    requires
        spec_decode(opcode) == Some((d.instruction, d.addressing_mode)),
    ensures
        2 <= spec_cycles(d, cpu, m) <= 7,
{
    match d.instruction {
        Instruction::ADC | Instruction::AND | Instruction::BIT | Instruction::CMP
        | Instruction::CPX | Instruction::CPY | Instruction::EOR | Instruction::LDA
        | Instruction::LDX | Instruction::LDY | Instruction::ORA | Instruction::SBC => {
            assert(d.addressing_mode != AddressingMode::Accumulator);
            assert(d.addressing_mode != AddressingMode::IndirectLocation);
            assert(d.addressing_mode != AddressingMode::AbsoluteLocation);
            assert(d.addressing_mode != AddressingMode::NA);
        },
        Instruction::ASL | Instruction::DEC | Instruction::INC | Instruction::LSR
        | Instruction::ROL | Instruction::ROR => {
            assert(d.addressing_mode != AddressingMode::Immediate);
            assert(d.addressing_mode != AddressingMode::ZeroPageOffsetY);
            assert(d.addressing_mode != AddressingMode::AbsoluteOffsetY);
            assert(d.addressing_mode != AddressingMode::OffsetXIndirect);
            assert(d.addressing_mode != AddressingMode::IndirectOffsetY);
            assert(d.addressing_mode != AddressingMode::IndirectLocation);
            assert(d.addressing_mode != AddressingMode::AbsoluteLocation);
            assert(d.addressing_mode != AddressingMode::NA);
        },
        Instruction::JMP => {
            assert(d.addressing_mode == AddressingMode::AbsoluteLocation
                || d.addressing_mode == AddressingMode::IndirectLocation);
        },
        Instruction::STA | Instruction::STX | Instruction::STY => {
            assert(d.addressing_mode != AddressingMode::Immediate);
            assert(d.addressing_mode != AddressingMode::Accumulator);
            assert(d.addressing_mode != AddressingMode::IndirectLocation);
            assert(d.addressing_mode != AddressingMode::AbsoluteLocation);
            assert(d.addressing_mode != AddressingMode::NA);
        },
        Instruction::INVALID => {
            assert(false);
        },
        _ => {},
    }
}

/// One whole fetch-decode-execute step: a decode fault on an illegal
/// opcode, otherwise the machine after the instruction's effect with its
/// cycle cost added to the counter.
#[verifier::opaque]
pub open spec fn spec_step(cpu: Cpu, m: MemSnapshot) -> Result<(Cpu, MemSnapshot), Fault> {
    let opcode = spec_read(m, cpu.pc);
    match spec_decode(opcode) {
        None => Err(Fault::Decode { address: cpu.pc, opcode }),
        Some((instruction, addressing_mode)) => {
            let d = spec_fetch(cpu, m);
            let cpu1 = Cpu {
                pc: add16(cpu.pc, spec_mode_size(addressing_mode)),
                previous_pc: cpu.pc,
                ..cpu
            };
            let op = spec_realise(cpu1, m, addressing_mode, d.operand);
            let applied = spec_apply(d, op, cpu1, m);
            let cycles = spec_cycles(d, applied.0, applied.1);
            Ok((Cpu { cycle: (applied.0.cycle + cycles) as u64, ..applied.0 }, applied.1))
        },
    }
}

/// What one legal fetch at `cpu.pc` decodes to.
#[verifier::opaque]
pub open spec fn spec_fetch(cpu: Cpu, m: MemSnapshot) -> DecodedInstruction {
    let opcode = spec_read(m, cpu.pc);
    match spec_decode(opcode) {
        Some((instruction, addressing_mode)) => DecodedInstruction {
            address: cpu.pc,
            instruction,
            addressing_mode,
            operand: spec_operand(cpu, m, addressing_mode),
        },
        None => DecodedInstruction {
            address: cpu.pc,
            instruction: Instruction::INVALID,
            addressing_mode: AddressingMode::NA,
            operand: None,
        },
    }
}

/// Pushing the status register and then pulling it back restores it bit
/// for bit — break and unused bits exactly as pushed — and returns the
/// stack pointer and every other register to where they were, seven cycles
/// later. Stated over two whole machine steps: a push-status instruction
/// followed immediately by a pull-status instruction. The pushed byte must
/// not land on the pull-status opcode itself.
pub proof fn lemma_push_pull_status(cpu: Cpu, m: MemSnapshot)
    requires
        m.wf(),
        spec_read(m, cpu.pc) == 0x08,
        spec_read(m, add16(cpu.pc, 1)) == 0x28,
        masked(add16(cpu.pc, 1)) != 0x100 + cpu.s,
        cpu.cycle + 7 <= u64::MAX,
    ensures
        spec_step(cpu, m) is Ok,
        spec_step(spec_step(cpu, m)->Ok_0.0, spec_step(cpu, m)->Ok_0.1) is Ok,
        ({
            let mid = spec_step(cpu, m)->Ok_0;
            let fin = spec_step(mid.0, mid.1)->Ok_0;
            &&& fin.0.p == cpu.p
            &&& fin.0.s == cpu.s
            &&& fin.0.a == cpu.a
            &&& fin.0.x == cpu.x
            &&& fin.0.y == cpu.y
            &&& fin.0.pc == add16(cpu.pc, 2)
            &&& fin.0.cycle == cpu.cycle + 7
        }),
{
    reveal(spec_step);
    reveal(spec_fetch);
    lemma_masked_low((0x100 + cpu.s) as u16);
    let mid = spec_step(cpu, m)->Ok_0;
    assert(mid.1.game_ram == m.game_ram.update(0x100 + cpu.s, cpu.p));
    assert(spec_read(mid.1, add16(cpu.pc, 1)) == 0x28);
    assert(inc_sp(dec_sp(cpu.s)) == cpu.s);
    assert(spec_read(mid.1, (0x100 + cpu.s) as u16) == cpu.p);
}

/// A software interrupt followed by a return-from-interrupt comes back to
/// the instruction after the two-byte interrupt instruction, with the
/// status register and every other register restored, thirteen cycles
/// later. The break flag is set in the pushed status copy, so the law asks
/// for it to be set already; the interrupt vector sits in ROM and survives
/// the pushes, but the handler's return opcode and the three pushed bytes
/// must not collide.
pub proof fn lemma_software_interrupt_return(cpu: Cpu, m: MemSnapshot)
    requires
        m.wf(),
        spec_read(m, cpu.pc) == 0x00,
        spec_flag_set(cpu.p, FLAG_BREAK),
        spec_read(m, spec_read_word(m, 0xFFFE)) == 0x40,
        masked(spec_read_word(m, 0xFFFE)) != 0x100 + cpu.s,
        masked(spec_read_word(m, 0xFFFE)) != 0x100 + dec_sp(cpu.s),
        masked(spec_read_word(m, 0xFFFE)) != 0x100 + dec_sp(dec_sp(cpu.s)),
        cpu.cycle + 13 <= u64::MAX,
    ensures
        spec_step(cpu, m) is Ok,
        spec_step(spec_step(cpu, m)->Ok_0.0, spec_step(cpu, m)->Ok_0.1) is Ok,
        ({
            let mid = spec_step(cpu, m)->Ok_0;
            let fin = spec_step(mid.0, mid.1)->Ok_0;
            &&& fin.0.p == cpu.p
            &&& fin.0.s == cpu.s
            &&& fin.0.a == cpu.a
            &&& fin.0.x == cpu.x
            &&& fin.0.y == cpu.y
            &&& fin.0.pc == add16(cpu.pc, 2)
            &&& fin.0.cycle == cpu.cycle + 13
        }),
{
    reveal(spec_step);
    reveal(spec_fetch);
    assert(0xFFFEu16 & 0x7FFF == 0x7FFE) by (bit_vector);
    assert(0xFFFFu16 & 0x7FFF == 0x7FFF) by (bit_vector);
    assert(forall|p: u8| p & 0x10 == 0x10 ==> p | 0x10 == p) by (bit_vector);
    lemma_masked_low((0x100 + cpu.s) as u16);
    lemma_masked_low((0x100 + dec_sp(cpu.s)) as u16);
    lemma_masked_low((0x100 + dec_sp(dec_sp(cpu.s))) as u16);
    let ret = add16(cpu.pc, 2);
    lemma_word_roundtrip(ret);
    let c0p = spec_set_flag(cpu.p, FLAG_BREAK, true);
    assert(c0p == cpu.p);
    let mid = spec_step(cpu, m)->Ok_0;
    let h = spec_read_word(m, 0xFFFE);
    assert(mid.1.game_ram == m.game_ram.update(0x100 + cpu.s, hi_byte(ret)).update(
        0x100 + dec_sp(cpu.s),
        lo_byte(ret),
    ).update(0x100 + dec_sp(dec_sp(cpu.s)), cpu.p));
    assert(spec_read_word(mid.1, 0xFFFE) == h);
    assert(mid.0.pc == h);
    assert(spec_read(mid.1, h) == 0x40);
    assert(inc_sp(dec_sp(dec_sp(dec_sp(cpu.s)))) == dec_sp(dec_sp(cpu.s)));
    assert(spec_read(mid.1, (0x100 + dec_sp(dec_sp(cpu.s))) as u16) == cpu.p);
    assert(spec_read(mid.1, (0x100 + dec_sp(cpu.s)) as u16) == lo_byte(ret));
    assert(spec_read(mid.1, (0x100 + cpu.s) as u16) == hi_byte(ret));
}

impl Cpu {
    /// A processor before its first reset: every register cleared.
    pub fn new() -> (cpu: Cpu)
        ensures
            cpu == (Cpu { a: 0, x: 0, y: 0, pc: 0, previous_pc: 0, s: 0, p: 0, cycle: 0 }),
    {
        Cpu { a: 0, x: 0, y: 0, pc: 0, previous_pc: 0, s: 0, p: 0, cycle: 0 }
    }

    fn get_word(addr: u16, memory: &Memory) -> (w: u16)
        requires
            memory.wf(),
        ensures
            w == spec_read_word(memory@, addr),
    {
        let lo = memory.get_byte(addr);
        let hi = memory.get_byte(wrapping_add16(addr, 1));
        join_word(lo, hi)
    }

    /// The hardware reset: registers cleared with interrupts disabled, the
    /// stack pointer at its power-up position, the program counter loaded
    /// from the reset vector, and the six cycles the hardware spends doing
    /// it on the counter.
    pub fn reset(&mut self, memory: &Memory)
        requires
            memory.wf(),
        ensures
            *final(self) == (Cpu {
                a: 0,
                x: 0,
                y: 0,
                p: 0b100,
                s: 0xFD,
                pc: spec_read_word(memory@, 0xFFFC),
                cycle: 6,
                previous_pc: old(self).previous_pc,
            }),
    {
        self.a = 0;
        self.x = 0;
        self.y = 0;
        self.p = 0b100;  // start with interrupts disabled
        self.s = 0xFD;
        self.pc = Cpu::get_word(0xFFFC, memory);
        self.cycle = 6;
    }

    fn load_byte_from_pc(&mut self, memory: &Memory) -> (b: u8)
        requires
            memory.wf(),
        ensures
            b == spec_read(memory@, old(self).pc),
            *final(self) == (Cpu { pc: add16(old(self).pc, 1), ..*old(self) }),
    {
        let byte = memory.get_byte(self.pc);
        self.pc = wrapping_add16(self.pc, 1);
        byte
    }

    fn load_word_from_pc(&mut self, memory: &Memory) -> (w: u16)
        requires
            memory.wf(),
        ensures
            w == word(
                spec_read(memory@, old(self).pc),
                spec_read(memory@, add16(old(self).pc, 1)),
            ),
            *final(self) == (Cpu { pc: add16(old(self).pc, 2), ..*old(self) }),
    {
        let lo = self.load_byte_from_pc(memory);
        let hi = self.load_byte_from_pc(memory);
        join_word(lo, hi)
    }

    fn fetch_operand(&mut self, memory: &Memory, addressing_mode: AddressingMode) -> (operand:
        Option<u16>)
        requires
            memory.wf(),
        ensures
            match addressing_mode {
                AddressingMode::Immediate
                | AddressingMode::ZeroPage
                | AddressingMode::ZeroPageOffsetX
                | AddressingMode::ZeroPageOffsetY
                | AddressingMode::OffsetXIndirect
                | AddressingMode::IndirectOffsetY => operand == Some(
                    spec_read(memory@, old(self).pc) as u16,
                ) && *final(self) == (Cpu { pc: add16(old(self).pc, 1), ..*old(self) }),
                AddressingMode::Absolute
                | AddressingMode::AbsoluteOffsetX
                | AddressingMode::AbsoluteOffsetY
                | AddressingMode::IndirectLocation
                | AddressingMode::AbsoluteLocation => operand == Some(
                    word(
                        spec_read(memory@, old(self).pc),
                        spec_read(memory@, add16(old(self).pc, 1)),
                    ),
                ) && *final(self) == (Cpu { pc: add16(old(self).pc, 2), ..*old(self) }),
                AddressingMode::Accumulator | AddressingMode::NA => operand == None::<u16>
                    && *final(self) == *old(self),
            },
    {
        match addressing_mode {
            AddressingMode::Immediate
            | AddressingMode::ZeroPage
            | AddressingMode::ZeroPageOffsetX
            | AddressingMode::ZeroPageOffsetY
            | AddressingMode::OffsetXIndirect
            | AddressingMode::IndirectOffsetY => Some(self.load_byte_from_pc(memory) as u16),
            AddressingMode::Absolute
            | AddressingMode::AbsoluteOffsetX
            | AddressingMode::AbsoluteOffsetY
            | AddressingMode::IndirectLocation
            | AddressingMode::AbsoluteLocation => Some(self.load_word_from_pc(memory)),
            _ => None,
        }
    }

    /// One fetch-and-decode at the program counter. A legal opcode yields
    /// the decoded instruction with the program counter past it; an illegal
    /// one yields the decode fault, with the faulting address and opcode
    /// and the processor untouched.
    fn fetch_instruction(&mut self, memory: &Memory) -> (r: Result<DecodedInstruction, Fault>)
        requires
            memory.wf(),
        ensures
            match spec_decode(spec_read(memory@, old(self).pc)) {
                None => r == Err::<DecodedInstruction, Fault>(
                    Fault::Decode {
                        address: old(self).pc,
                        opcode: spec_read(memory@, old(self).pc),
                    },
                ) && *final(self) == *old(self),
                Some((instruction, addressing_mode)) => r == Ok::<DecodedInstruction, Fault>(
                    spec_fetch(*old(self), memory@),
                ) && *final(self) == (Cpu {
                    pc: add16(old(self).pc, spec_mode_size(addressing_mode)),
                    ..*old(self)
                }),
            },
    {
        proof {
            reveal(spec_fetch);
        }
        let address = self.pc;
        let opcode = memory.get_byte(address);
        match decode_opcode(opcode) {
            None => Err(Fault::Decode { address, opcode }),
            Some((instruction, addressing_mode)) => {
                self.pc = wrapping_add16(self.pc, 1);
                let operand = self.fetch_operand(memory, addressing_mode);
                Ok(DecodedInstruction { address, instruction, addressing_mode, operand })
            },
        }
    }

    fn flag_set(&self, mask: u8) -> (r: bool)
        ensures
            r == spec_flag_set(self.p, mask),
    {
        (self.p & mask) == mask
    }

    fn carry_set(&self) -> (r: bool)
        ensures
            r == spec_flag_set(self.p, FLAG_CARRY),
    {
        self.flag_set(FLAG_CARRY)
    }

    fn zero_set(&self) -> (r: bool)
        ensures
            r == spec_flag_set(self.p, FLAG_ZERO),
    {
        self.flag_set(FLAG_ZERO)
    }

    fn decimal_set(&self) -> (r: bool)
        ensures
            r == spec_flag_set(self.p, FLAG_DECIMAL),
    {
        self.flag_set(FLAG_DECIMAL)
    }

    fn overflow_set(&self) -> (r: bool)
        ensures
            r == spec_flag_set(self.p, FLAG_OVERFLOW),
    {
        self.flag_set(FLAG_OVERFLOW)
    }

    fn negative_set(&self) -> (r: bool)
        ensures
            r == spec_flag_set(self.p, FLAG_NEGATIVE),
    {
        self.flag_set(FLAG_NEGATIVE)
    }

    fn update_flag(&mut self, set: bool, mask: u8)
        ensures
            *final(self) == (Cpu { p: spec_set_flag(old(self).p, mask, set), ..*old(self) }),
    {
        if set {
            self.p = self.p | mask;
        } else {
            self.p = self.p & (!mask);
        }
    }

    fn update_carry(&mut self, set: bool)
        ensures
            *final(self) == (Cpu { p: spec_set_flag(old(self).p, FLAG_CARRY, set), ..*old(self) }),
    {
        self.update_flag(set, FLAG_CARRY);
    }

    fn update_zero(&mut self, set: bool)
        ensures
            *final(self) == (Cpu { p: spec_set_flag(old(self).p, FLAG_ZERO, set), ..*old(self) }),
    {
        self.update_flag(set, FLAG_ZERO);
    }

    fn update_irq_disable(&mut self, set: bool)
        ensures
            *final(self) == (Cpu {
                p: spec_set_flag(old(self).p, FLAG_IRQ_DISABLE, set),
                ..*old(self)
            }),
    {
        self.update_flag(set, FLAG_IRQ_DISABLE);
    }

    fn update_decimal(&mut self, set: bool)
        ensures
            *final(self) == (Cpu {
                p: spec_set_flag(old(self).p, FLAG_DECIMAL, set),
                ..*old(self)
            }),
    {
        self.update_flag(set, FLAG_DECIMAL);
    }

    fn update_brk_command(&mut self, set: bool)
        ensures
            *final(self) == (Cpu { p: spec_set_flag(old(self).p, FLAG_BREAK, set), ..*old(self) }),
    {
        self.update_flag(set, FLAG_BREAK);
    }

    fn update_overflow(&mut self, set: bool)
        ensures
            *final(self) == (Cpu {
                p: spec_set_flag(old(self).p, FLAG_OVERFLOW, set),
                ..*old(self)
            }),
    {
        self.update_flag(set, FLAG_OVERFLOW);
    }

    fn update_negative_from_byte(&mut self, byte: u8)
        ensures
            *final(self) == (Cpu {
                p: spec_set_flag(old(self).p, FLAG_NEGATIVE, byte & 0x80 == 0x80),
                ..*old(self)
            }),
    {
        self.update_flag(byte & 0x80 == 0x80, FLAG_NEGATIVE);
    }

    fn branch(&mut self, op: u16)
        requires
            op < 0x100,
        ensures
            *final(self) == (Cpu { pc: spec_branch_target(old(self).pc, op), ..*old(self) }),
    {
        if op >= 0x80 {
            self.pc = wrapping_sub16(self.pc, 0x100 - op);
        } else {
            self.pc = wrapping_add16(self.pc, op);
        }
    }

    fn push_byte(&mut self, store: u8, memory: &mut Memory)
        requires
            old(memory).wf(),
        ensures
            final(memory).wf(),
            (*final(self), final(memory)@) == spec_push_byte(*old(self), old(memory)@, store),
    {
        memory.set_byte(0x100 + self.s as u16, store);
        if self.s == 0 {
            self.s = 0xFF;
        } else {
            self.s = self.s - 1;
        }
    }

    fn pop_byte(&mut self, memory: &Memory) -> (b: u8)
        requires
            memory.wf(),
        ensures
            (*final(self), b) == spec_pop_byte(*old(self), memory@),
    {
        if self.s == 0xFF {
            self.s = 0;
        } else {
            self.s = self.s + 1;
        }
        memory.get_byte(0x100 + self.s as u16)
    }

    fn push_word(&mut self, store: u16, memory: &mut Memory)
        requires
            old(memory).wf(),
        ensures
            final(memory).wf(),
            (*final(self), final(memory)@) == spec_push_word(*old(self), old(memory)@, store),
    {
        self.push_byte(split_hi(store), memory);
        self.push_byte(split_lo(store), memory);
    }

    fn pop_word(&mut self, memory: &Memory) -> (w: u16)
        requires
            memory.wf(),
        ensures
            (*final(self), w) == spec_pop_word(*old(self), memory@),
    {
        let lo = self.pop_byte(memory);
        let hi = self.pop_byte(memory);
        join_word(lo, hi)
    }

    fn decrement_byte(&mut self, byte: u8) -> (r: u8)
        ensures
            r == spec_decrement(byte),
            *final(self) == (Cpu {
                p: spec_set_flag(
                    spec_set_flag(old(self).p, FLAG_ZERO, spec_decrement(byte) == 0),
                    FLAG_NEGATIVE,
                    spec_decrement(byte) & 0x80 == 0x80,
                ),
                ..*old(self)
            }),
    {
        let result = if byte == 0 {
            0xFF
        } else {
            byte - 1
        };
        self.update_zero(result == 0);
        self.update_negative_from_byte(result);
        result
    }

    fn increment_byte(&mut self, byte: u8) -> (r: u8)
        ensures
            r == spec_increment(byte),
            *final(self) == (Cpu {
                p: spec_set_flag(
                    spec_set_flag(old(self).p, FLAG_ZERO, spec_increment(byte) == 0),
                    FLAG_NEGATIVE,
                    spec_increment(byte) & 0x80 == 0x80,
                ),
                ..*old(self)
            }),
    {
        let result = if byte == 0xFF {
            0
        } else {
            byte + 1
        };
        self.update_zero(result == 0);
        self.update_negative_from_byte(result);
        result
    }

    /// Resolves the fetched operand to the value the instruction consumes:
    /// the immediate byte itself, a byte loaded through one of the memory
    /// addressing schemes, the accumulator, or a jump target.
    fn realise_operand(&self, decoded_instruction: &DecodedInstruction, memory: &Memory) -> (r:
        u16)
        requires
            memory.wf(),
        ensures
            r == spec_realise(
                *self,
                memory@,
                decoded_instruction.addressing_mode,
                decoded_instruction.operand,
            ),
    {
        let op = if let Some(val) = decoded_instruction.operand {
            val
        } else {
            0
        };
        match decoded_instruction.addressing_mode {
            AddressingMode::Immediate => op,
            AddressingMode::ZeroPage => memory.get_byte(op) as u16,
            AddressingMode::ZeroPageOffsetX => memory.get_byte(
                ((op as u32 + self.x as u32) % 0x100) as u16,
            ) as u16,
            AddressingMode::ZeroPageOffsetY => memory.get_byte(
                ((op as u32 + self.y as u32) % 0x100) as u16,
            ) as u16,
            AddressingMode::Absolute => memory.get_byte(op) as u16,
            AddressingMode::AbsoluteOffsetX => memory.get_byte(
                wrapping_add16(op, self.x as u16),
            ) as u16,
            AddressingMode::AbsoluteOffsetY => memory.get_byte(
                wrapping_add16(op, self.y as u16),
            ) as u16,
            AddressingMode::Accumulator => self.a as u16,
            AddressingMode::OffsetXIndirect => {
                let addr = Cpu::get_word(((op as u32 + self.x as u32) % 0x100) as u16, memory);
                memory.get_byte(addr) as u16
            },
            AddressingMode::IndirectOffsetY => {
                let addr = wrapping_add16(Cpu::get_word(op, memory), self.y as u16);
                memory.get_byte(addr) as u16
            },
            AddressingMode::IndirectLocation => Cpu::get_word(op, memory),
            AddressingMode::AbsoluteLocation => op,
            _ => 0,
        }
    }

    /// Writes a result byte wherever the addressing mode points: a memory
    /// location or the accumulator. Modes with no store target absorb the
    /// write silently, as the hardware's missing wiring did.
    fn store_to_operand(
        &mut self,
        store: u8,
        decoded_instruction: &DecodedInstruction,
        memory: &mut Memory,
    )
        requires
            old(memory).wf(),
        ensures
            final(memory).wf(),
            (*final(self), final(memory)@) == spec_store(
                *old(self),
                old(memory)@,
                decoded_instruction.addressing_mode,
                decoded_instruction.operand,
                store,
            ),
    {
        let op = if let Some(val) = decoded_instruction.operand {
            val
        } else {
            0
        };
        match decoded_instruction.addressing_mode {
            AddressingMode::ZeroPage => {
                memory.set_byte(op, store);
            },
            AddressingMode::ZeroPageOffsetX => {
                memory.set_byte(((op as u32 + self.x as u32) % 0x100) as u16, store);
            },
            AddressingMode::ZeroPageOffsetY => {
                memory.set_byte(((op as u32 + self.y as u32) % 0x100) as u16, store);
            },
            AddressingMode::Absolute => {
                memory.set_byte(op, store);
            },
            AddressingMode::AbsoluteOffsetX => {
                memory.set_byte(wrapping_add16(op, self.x as u16), store);
            },
            AddressingMode::AbsoluteOffsetY => {
                memory.set_byte(wrapping_add16(op, self.y as u16), store);
            },
            AddressingMode::Accumulator => {
                self.a = store;
            },
            AddressingMode::OffsetXIndirect => {
                let addr = Cpu::get_word(((op as u32 + self.x as u32) % 0x100) as u16, memory);
                memory.set_byte(addr, store);
            },
            AddressingMode::IndirectOffsetY => {
                let addr = wrapping_add16(Cpu::get_word(op, memory), self.y as u16);
                memory.set_byte(addr, store);
            },
            _ => {},
        }
    }

    fn compare(&mut self, compare_to: u8, byte: u8)
        ensures
            *final(self) == (Cpu { p: spec_compare(old(self).p, compare_to, byte), ..*old(self) }),
    {
        self.update_carry(compare_to >= byte);
        self.update_zero(compare_to == byte);
        let diff = ((compare_to as u16 + 0x100 - byte as u16) % 0x100) as u8;
        self.update_negative_from_byte(diff);
    }

    /// Applies one decoded instruction's effect to registers and bus,
    /// exactly as `spec_apply` states it. The cycle counter is untouched
    /// here; `execute_instruction` adds the cost afterwards.
    fn apply_instruction(&mut self, d: &DecodedInstruction, op: u16, memory: &mut Memory)
        requires
            old(memory).wf(),
        ensures
            final(memory).wf(),
            (*final(self), final(memory)@) == spec_apply(*d, op, *old(self), old(memory)@),
    {
        let opb: u8 = (op % 0x100) as u8;
        match d.instruction {
            Instruction::ADC => {
                let c: u16 = if self.carry_set() {
                    1
                } else {
                    0
                };
                let (carry, sum): (bool, u16) = if self.decimal_set() {
                    let rhs: u16 = self.a as u16 % 16 + opb as u16 % 16 + c;
                    let carry1: u16 = if rhs > 9 {
                        1
                    } else {
                        0
                    };
                    let lhs: u16 = self.a as u16 / 16 + opb as u16 / 16 + carry1;
                    (lhs > 9, (lhs % 10) * 16 + rhs % 10)
                } else {
                    let result: u16 = self.a as u16 + opb as u16 + c;
                    (result > 0xFF, result % 0x100)
                };
                self.update_carry(carry);
                self.update_negative_from_byte(sum as u8);
                self.update_zero(sum == 0);
                let overflow = (self.a < 128 && sum > 127) || (self.a > 127 && sum < 128);
                self.update_overflow(overflow);
                self.a = sum as u8;
            },
            Instruction::AND => {
                let result = self.a & opb;
                self.update_zero(result == 0);
                self.update_negative_from_byte(result);
                self.a = result;
            },
            Instruction::ASL => {
                let result: u16 = op << 1u16;
                self.update_carry(result & 0x100 == 0x100);
                self.update_negative_from_byte((result % 0x100) as u8);
                self.update_zero(result % 0x100 == 0);
                self.store_to_operand((result % 0x100) as u8, d, memory);
            },
            Instruction::BCC => {
                if !self.carry_set() {
                    self.branch(op % 0x100);
                }
            },
            Instruction::BCS => {
                if self.carry_set() {
                    self.branch(op % 0x100);
                }
            },
            Instruction::BEQ => {
                if self.zero_set() {
                    self.branch(op % 0x100);
                }
            },
            Instruction::BIT => {
                let result = self.a & opb;
                self.update_zero(result == 0);
                self.update_overflow(op & 0x40 == 0x40);
                self.update_negative_from_byte(opb);
            },
            Instruction::BMI => {
                if self.negative_set() {
                    self.branch(op % 0x100);
                }
            },
            Instruction::BNE => {
                if !self.zero_set() {
                    self.branch(op % 0x100);
                }
            },
            Instruction::BPL => {
                if !self.negative_set() {
                    self.branch(op % 0x100);
                }
            },
            Instruction::BRK => {
                self.update_brk_command(true);
                let ret_addr = wrapping_add16(self.pc, 1);
                self.push_word(ret_addr, memory);
                let flags = self.p;
                self.push_byte(flags, memory);
                self.update_irq_disable(true);
                self.pc = Cpu::get_word(0xFFFE, memory);
            },
            Instruction::BVC => {
                if !self.overflow_set() {
                    self.branch(op % 0x100);
                }
            },
            Instruction::BVS => {
                if self.overflow_set() {
                    self.branch(op % 0x100);
                }
            },
            Instruction::CLC => {
                self.update_carry(false);
            },
            Instruction::CLD => {
                self.update_decimal(false);
            },
            Instruction::CLI => {
                self.update_irq_disable(false);
            },
            Instruction::CLV => {
                self.update_overflow(false);
            },
            Instruction::CMP => {
                let a = self.a;
                self.compare(a, opb);
            },
            Instruction::CPX => {
                let x = self.x;
                self.compare(x, opb);
            },
            Instruction::CPY => {
                let y = self.y;
                self.compare(y, opb);
            },
            Instruction::DEC => {
                let result = self.decrement_byte(opb);
                self.store_to_operand(result, d, memory);
            },
            Instruction::DEX => {
                let x = self.x;
                let result = self.decrement_byte(x);
                self.x = result;
            },
            Instruction::DEY => {
                let y = self.y;
                let result = self.decrement_byte(y);
                self.y = result;
            },
            Instruction::EOR => {
                let result = self.a ^ opb;
                self.update_zero(result == 0);
                self.update_negative_from_byte(result);
                self.a = result;
            },
            Instruction::INC => {
                let result = self.increment_byte(opb);
                self.store_to_operand(result, d, memory);
            },
            Instruction::INX => {
                let x = self.x;
                let result = self.increment_byte(x);
                self.x = result;
            },
            Instruction::INY => {
                let y = self.y;
                let result = self.increment_byte(y);
                self.y = result;
            },
            Instruction::JMP => {
                self.pc = op;
            },
            Instruction::JSR => {
                let ret_addr = wrapping_sub16(self.pc, 1);
                self.push_word(ret_addr, memory);
                self.pc = op;
            },
            Instruction::LDA => {
                self.update_zero(op == 0);
                self.update_negative_from_byte(opb);
                self.a = opb;
            },
            Instruction::LDX => {
                self.update_zero(op == 0);
                self.update_negative_from_byte(opb);
                self.x = opb;
            },
            Instruction::LDY => {
                self.update_zero(op == 0);
                self.update_negative_from_byte(opb);
                self.y = opb;
            },
            Instruction::LSR => {
                self.update_carry(op & 0x1 == 0x1);
                let result: u16 = op >> 1u16;
                self.update_zero(result == 0);
                self.update_negative_from_byte((result % 0x100) as u8);
                self.store_to_operand((result % 0x100) as u8, d, memory);
            },
            Instruction::NOP => {},
            Instruction::ORA => {
                let result = self.a | opb;
                self.update_zero(result == 0);
                self.update_negative_from_byte(result);
                self.a = result;
            },
            Instruction::PHA => {
                let push = self.a;
                self.push_byte(push, memory);
            },
            Instruction::PHP => {
                let push = self.p;
                self.push_byte(push, memory);
            },
            Instruction::PLA => {
                let result = self.pop_byte(memory);
                self.update_zero(result == 0);
                self.update_negative_from_byte(result);
                self.a = result;
            },
            Instruction::PLP => {
                let result = self.pop_byte(memory);
                self.p = result;
            },
            Instruction::ROL => {
                let cbit: u16 = if self.carry_set() {
                    1
                } else {
                    0
                };
                let result: u16 = op << 1u16 | cbit;
                self.update_carry(result & 0x100 == 0x100);
                self.update_zero(result % 0x100 == 0);
                self.update_negative_from_byte((result % 0x100) as u8);
                self.store_to_operand((result % 0x100) as u8, d, memory);
            },
            Instruction::ROR => {
                let carry_out = op & 0x1 == 0x1;
                let cbit: u16 = if self.carry_set() {
                    0x80
                } else {
                    0
                };
                let result: u16 = op >> 1u16 | cbit;
                self.update_carry(carry_out);
                self.update_zero(result == 0);
                self.update_negative_from_byte((result % 0x100) as u8);
                self.store_to_operand((result % 0x100) as u8, d, memory);
            },
            Instruction::RTI => {
                let flags = self.pop_byte(memory);
                self.p = flags;
                let ret = self.pop_word(memory);
                self.pc = ret;
            },
            Instruction::RTS => {
                let ret = self.pop_word(memory);
                self.pc = wrapping_add16(ret, 1);
            },
            Instruction::SBC => {
                // The decimal-mode borrow path is preserved exactly as
                // documented; no known program image exercises it.
                let (carry, sub): (bool, u8) = if self.decimal_set() {
                    let lhs_a: u16 = self.a as u16 / 16;
                    let lhs_o: u16 = opb as u16 / 16;
                    let rhs_a: u16 = self.a as u16 % 16;
                    let rhs_o: u16 = opb as u16 % 16;
                    let borrow1: u16 = if self.carry_set() {
                        0
                    } else {
                        1
                    };
                    let borrow2: u16 = if rhs_a >= rhs_o + borrow1 {
                        0
                    } else {
                        1
                    };
                    let borrow3: u16 = if lhs_a >= lhs_o + borrow2 {
                        0
                    } else {
                        1
                    };
                    let rhs: u16 = (rhs_a + borrow2 * 10 + 0x100 - rhs_o - borrow1) % 0x100;
                    let lhs: u16 = (lhs_a + borrow3 * 10 + 0x100 - lhs_o - borrow2) % 0x100;
                    (borrow3 == 0, ((lhs % 10) * 16 + rhs % 10) as u8)
                } else {
                    let sub_tot: u16 = opb as u16 + if self.carry_set() {
                        0
                    } else {
                        1
                    };
                    (sub_tot <= self.a as u16, ((self.a as u16 + 0x100 - sub_tot) % 0x100) as u8)
                };
                self.update_carry(carry);
                self.update_negative_from_byte(sub);
                self.update_zero(sub == 0);
                let overflow = (self.a < 128 && sub > 127) || (self.a > 127 && sub < 128);
                self.update_overflow(overflow);
                self.a = sub;
            },
            Instruction::SEC => {
                self.update_carry(true);
            },
            Instruction::SED => {
                self.update_decimal(true);
            },
            Instruction::SEI => {
                self.update_irq_disable(true);
            },
            Instruction::STA => {
                let result = self.a;
                self.store_to_operand(result, d, memory);
            },
            Instruction::STX => {
                let result = self.x;
                self.store_to_operand(result, d, memory);
            },
            Instruction::STY => {
                let result = self.y;
                self.store_to_operand(result, d, memory);
            },
            Instruction::TAX => {
                let result = self.a;
                self.update_zero(result == 0);
                self.update_negative_from_byte(result);
                self.x = result;
            },
            Instruction::TAY => {
                let result = self.a;
                self.update_zero(result == 0);
                self.update_negative_from_byte(result);
                self.y = result;
            },
            Instruction::TSX => {
                let result = self.s;
                self.update_zero(result == 0);
                self.update_negative_from_byte(result);
                self.x = result;
            },
            Instruction::TXA => {
                let result = self.x;
                self.update_zero(result == 0);
                self.update_negative_from_byte(result);
                self.a = result;
            },
            Instruction::TXS => {
                self.s = self.x;
            },
            Instruction::TYA => {
                let result = self.y;
                self.update_zero(result == 0);
                self.update_negative_from_byte(result);
                self.a = result;
            },
            Instruction::INVALID => {},
        }
    }

    fn page_cross_penalty(addr: u16, offset: u8) -> (r: u64)
        ensures
            r == spec_page_cross(addr, offset),
    {
        if addr / 0x100 == wrapping_add16(addr, offset as u16) / 0x100 {
            0
        } else {
            1
        }
    }

    /// The cycle cost of the instruction just executed, per the fixed
    /// table; called on the post-execution state.
    fn instruction_cycles(&self, d: &DecodedInstruction, memory: &Memory) -> (r: u64)
        requires
            memory.wf(),
        ensures
            r == spec_cycles(*d, *self, memory@),
    {
        match d.instruction {
            Instruction::ADC | Instruction::AND | Instruction::BIT | Instruction::CMP
            | Instruction::CPX | Instruction::CPY | Instruction::EOR | Instruction::LDA
            | Instruction::LDX | Instruction::LDY | Instruction::ORA | Instruction::SBC => {
                match d.addressing_mode {
                    AddressingMode::Immediate => 2,
                    AddressingMode::ZeroPage => 3,
                    AddressingMode::ZeroPageOffsetX => 4,
                    AddressingMode::ZeroPageOffsetY => 4,
                    AddressingMode::Absolute => 4,
                    AddressingMode::AbsoluteOffsetX => 4 + if let Some(a) = d.operand {
                        Cpu::page_cross_penalty(a, self.x)
                    } else {
                        0
                    },
                    AddressingMode::AbsoluteOffsetY => 4 + if let Some(a) = d.operand {
                        Cpu::page_cross_penalty(a, self.y)
                    } else {
                        0
                    },
                    AddressingMode::OffsetXIndirect => 6,
                    AddressingMode::IndirectOffsetY => 5 + if let Some(a) = d.operand {
                        let addr = Cpu::get_word(a, memory);
                        Cpu::page_cross_penalty(addr, self.y)
                    } else {
                        0
                    },
                    _ => 0,
                }
            },
            Instruction::ASL | Instruction::DEC | Instruction::INC | Instruction::LSR
            | Instruction::ROL | Instruction::ROR => match d.addressing_mode {
                AddressingMode::Accumulator => 2,
                AddressingMode::ZeroPage => 5,
                AddressingMode::ZeroPageOffsetX => 6,
                AddressingMode::Absolute => 6,
                AddressingMode::AbsoluteOffsetX => 7,
                _ => 0,
            },
            Instruction::BCC | Instruction::BCS | Instruction::BEQ | Instruction::BMI
            | Instruction::BNE | Instruction::BPL | Instruction::BVC | Instruction::BVS => {
                let fallthrough = wrapping_add16(self.previous_pc, 2);
                2 + if self.pc != fallthrough {
                    if self.pc / 0x100 == fallthrough / 0x100 {
                        1
                    } else {
                        2
                    }
                } else {
                    0
                }
            },
            Instruction::BRK => 7,
            Instruction::CLC | Instruction::CLD | Instruction::CLI | Instruction::CLV
            | Instruction::DEX | Instruction::DEY | Instruction::INX | Instruction::INY
            | Instruction::NOP | Instruction::SEC | Instruction::SED | Instruction::SEI
            | Instruction::TAX | Instruction::TAY | Instruction::TSX | Instruction::TXS
            | Instruction::TXA | Instruction::TYA => 2,
            Instruction::JMP => match d.addressing_mode {
                AddressingMode::AbsoluteLocation => 3,
                AddressingMode::IndirectLocation => 5,
                _ => 0,
            },
            Instruction::JSR | Instruction::RTI | Instruction::RTS => 6,
            Instruction::PHA | Instruction::PHP => 3,
            Instruction::PLA | Instruction::PLP => 4,
            Instruction::STA | Instruction::STX | Instruction::STY => match d.addressing_mode {
                AddressingMode::ZeroPage => 3,
                AddressingMode::ZeroPageOffsetX => 4,
                AddressingMode::ZeroPageOffsetY => 4,
                AddressingMode::Absolute => 4,
                AddressingMode::AbsoluteOffsetX => 5,
                AddressingMode::AbsoluteOffsetY => 5,
                AddressingMode::OffsetXIndirect => 6,
                AddressingMode::IndirectOffsetY => 6,
                _ => 0,
            },
            Instruction::INVALID => 0,
        }
    }

    /// One whole fetch-decode-execute step, exactly `spec_step`. A legal
    /// instruction returns its decoded form (so a front end can trace it)
    /// with registers, bus and cycle counter advanced; an illegal opcode
    /// returns the decode fault and leaves the machine untouched. Every
    /// legal instruction costs between 2 and 7 cycles.
    pub fn execute_instruction(&mut self, memory: &mut Memory) -> (r: Result<
        DecodedInstruction,
        Fault,
    >)
        requires
            old(memory).wf(),
            old(self).cycle + 7 <= u64::MAX,
        ensures
            final(memory).wf(),
            match spec_step(*old(self), old(memory)@) {
                Err(f) => r == Err::<DecodedInstruction, Fault>(f) && *final(self) == *old(self)
                    && final(memory)@ == old(memory)@,
                Ok(next) => r == Ok::<DecodedInstruction, Fault>(
                    spec_fetch(*old(self), old(memory)@),
                ) && *final(self) == next.0 && final(memory)@ == next.1,
            },
            r is Ok ==> old(self).cycle + 2 <= final(self).cycle <= old(self).cycle + 7,
    {
        proof {
            reveal(spec_step);
            reveal(spec_fetch);
        }
        let ghost cpu0 = *self;
        let ghost m0 = memory@;
        let decoded_instruction = match self.fetch_instruction(memory) {
            Ok(d) => d,
            Err(f) => {
                return Err(f);
            },
        };
        self.previous_pc = decoded_instruction.address;
        let op = self.realise_operand(&decoded_instruction, memory);
        self.apply_instruction(&decoded_instruction, op, memory);
        let cycles = self.instruction_cycles(&decoded_instruction, memory);
        proof {
            lemma_legal_cycle_bounds(
                spec_read(m0, cpu0.pc),
                decoded_instruction,
                *self,
                memory@,
            );
        }
        self.cycle = self.cycle + cycles;
        Ok(decoded_instruction)
    }

    /// The periodic hardware interrupt, injected by the scheduler. The
    /// caller keeps seven cycles of headroom on the counter; the counter is
    /// a machine limit, not a hardware one.
    pub fn initiate_nmi(&mut self, memory: &mut Memory)
        requires
            old(memory).wf(),
            old(self).cycle + 7 <= u64::MAX,
        ensures
            final(memory).wf(),
            (*final(self), final(memory)@) == spec_nmi(*old(self), old(memory)@),
    {
        let pc = self.pc;
        let p = self.p;
        self.push_word(pc, memory);
        self.push_byte(p, memory);
        self.update_irq_disable(true);
        self.pc = Cpu::get_word(0xFFFA, memory);
        self.cycle = self.cycle + 7;
    }
}

} // verus!
