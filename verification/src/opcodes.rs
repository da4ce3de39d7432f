//! The fixed 6502 opcode table: every legal `(opcode, addressing mode)`
//! encoding, each with its opcode byte, its total size in bytes and its
//! cycle count.  [`spec_opcode_entry`] is the one source of truth; the
//! executable lookup and the materialized table are proved against it.

use crate::ast::AddressingMode;
use crate::ast::Opcode;
use vstd::prelude::*;

verus! {

/// One table entry: opcode byte, instruction size in bytes (opcode byte
/// included), and cycle count.
#[derive(Debug, Clone, Copy, PartialEq, Eq, Structural, Hash)]
pub struct OpcodeEntry {
    pub byte: u8,
    pub size: u8,
    pub cycles: u8,
}

impl OpcodeEntry {
    pub fn new(byte: u8, size: u8, cycles: u8) -> (r: Self)
        ensures
            r == (OpcodeEntry { byte, size, cycles }),
    {
        Self { byte, size, cycles }
    }
}

/// The encoding of `(op, mode)`, or `None` where the opcode does not
/// support the mode.  The illegal opcodes are tabulated for their
/// zero-page encoding only, and HCF has no encoding at all.
pub open spec fn spec_opcode_entry(op: Opcode, mode: AddressingMode) -> Option<OpcodeEntry> {
    match (op, mode) {
        (Opcode::LDA, AddressingMode::Immediate) => Some(OpcodeEntry { byte: 0xA9, size: 2, cycles: 2 }),
        (Opcode::LDA, AddressingMode::ZeroPage) => Some(OpcodeEntry { byte: 0xA5, size: 2, cycles: 3 }),
        (Opcode::LDA, AddressingMode::ZeroPageX) => Some(OpcodeEntry { byte: 0xB5, size: 2, cycles: 4 }),
        (Opcode::LDA, AddressingMode::Absolute) => Some(OpcodeEntry { byte: 0xAD, size: 3, cycles: 4 }),
        (Opcode::LDA, AddressingMode::AbsoluteX) => Some(OpcodeEntry { byte: 0xBD, size: 3, cycles: 4 }),
        (Opcode::LDA, AddressingMode::AbsoluteY) => Some(OpcodeEntry { byte: 0xB9, size: 3, cycles: 4 }),
        (Opcode::LDA, AddressingMode::IndexedIndirect) => Some(OpcodeEntry { byte: 0xA1, size: 2, cycles: 6 }),
        (Opcode::LDA, AddressingMode::IndirectIndexed) => Some(OpcodeEntry { byte: 0xB1, size: 2, cycles: 5 }),
        (Opcode::LDX, AddressingMode::Immediate) => Some(OpcodeEntry { byte: 0xA2, size: 2, cycles: 2 }),
        (Opcode::LDX, AddressingMode::ZeroPage) => Some(OpcodeEntry { byte: 0xA6, size: 2, cycles: 3 }),
        (Opcode::LDX, AddressingMode::ZeroPageY) => Some(OpcodeEntry { byte: 0xB6, size: 2, cycles: 4 }),
        (Opcode::LDX, AddressingMode::Absolute) => Some(OpcodeEntry { byte: 0xAE, size: 3, cycles: 4 }),
        (Opcode::LDX, AddressingMode::AbsoluteY) => Some(OpcodeEntry { byte: 0xBE, size: 3, cycles: 4 }),
        (Opcode::LDY, AddressingMode::Immediate) => Some(OpcodeEntry { byte: 0xA0, size: 2, cycles: 2 }),
        (Opcode::LDY, AddressingMode::ZeroPage) => Some(OpcodeEntry { byte: 0xA4, size: 2, cycles: 3 }),
        (Opcode::LDY, AddressingMode::ZeroPageX) => Some(OpcodeEntry { byte: 0xB4, size: 2, cycles: 4 }),
        (Opcode::LDY, AddressingMode::Absolute) => Some(OpcodeEntry { byte: 0xAC, size: 3, cycles: 4 }),
        (Opcode::LDY, AddressingMode::AbsoluteX) => Some(OpcodeEntry { byte: 0xBC, size: 3, cycles: 4 }),
        (Opcode::STA, AddressingMode::ZeroPage) => Some(OpcodeEntry { byte: 0x85, size: 2, cycles: 3 }),
        (Opcode::STA, AddressingMode::ZeroPageX) => Some(OpcodeEntry { byte: 0x95, size: 2, cycles: 4 }),
        (Opcode::STA, AddressingMode::Absolute) => Some(OpcodeEntry { byte: 0x8D, size: 3, cycles: 4 }),
        (Opcode::STA, AddressingMode::AbsoluteX) => Some(OpcodeEntry { byte: 0x9D, size: 3, cycles: 5 }),
        (Opcode::STA, AddressingMode::AbsoluteY) => Some(OpcodeEntry { byte: 0x99, size: 3, cycles: 5 }),
        (Opcode::STA, AddressingMode::IndexedIndirect) => Some(OpcodeEntry { byte: 0x81, size: 2, cycles: 6 }),
        (Opcode::STA, AddressingMode::IndirectIndexed) => Some(OpcodeEntry { byte: 0x91, size: 2, cycles: 6 }),
        (Opcode::STX, AddressingMode::ZeroPage) => Some(OpcodeEntry { byte: 0x86, size: 2, cycles: 3 }),
        (Opcode::STX, AddressingMode::ZeroPageY) => Some(OpcodeEntry { byte: 0x96, size: 2, cycles: 4 }),
        (Opcode::STX, AddressingMode::Absolute) => Some(OpcodeEntry { byte: 0x8E, size: 3, cycles: 4 }),
        (Opcode::STY, AddressingMode::ZeroPage) => Some(OpcodeEntry { byte: 0x84, size: 2, cycles: 3 }),
        (Opcode::STY, AddressingMode::ZeroPageX) => Some(OpcodeEntry { byte: 0x94, size: 2, cycles: 4 }),
        (Opcode::STY, AddressingMode::Absolute) => Some(OpcodeEntry { byte: 0x8C, size: 3, cycles: 4 }),
        (Opcode::TAX, AddressingMode::Implied) => Some(OpcodeEntry { byte: 0xAA, size: 1, cycles: 2 }),
        (Opcode::TAY, AddressingMode::Implied) => Some(OpcodeEntry { byte: 0xA8, size: 1, cycles: 2 }),
        (Opcode::TSX, AddressingMode::Implied) => Some(OpcodeEntry { byte: 0xBA, size: 1, cycles: 2 }),
        (Opcode::TXA, AddressingMode::Implied) => Some(OpcodeEntry { byte: 0x8A, size: 1, cycles: 2 }),
        (Opcode::TXS, AddressingMode::Implied) => Some(OpcodeEntry { byte: 0x9A, size: 1, cycles: 2 }),
        (Opcode::TYA, AddressingMode::Implied) => Some(OpcodeEntry { byte: 0x98, size: 1, cycles: 2 }),
        (Opcode::PHA, AddressingMode::Implied) => Some(OpcodeEntry { byte: 0x48, size: 1, cycles: 3 }),
        (Opcode::PHP, AddressingMode::Implied) => Some(OpcodeEntry { byte: 0x08, size: 1, cycles: 3 }),
        (Opcode::PLA, AddressingMode::Implied) => Some(OpcodeEntry { byte: 0x68, size: 1, cycles: 4 }),
        (Opcode::PLP, AddressingMode::Implied) => Some(OpcodeEntry { byte: 0x28, size: 1, cycles: 4 }),
        (Opcode::AND, AddressingMode::Immediate) => Some(OpcodeEntry { byte: 0x29, size: 2, cycles: 2 }),
        (Opcode::AND, AddressingMode::ZeroPage) => Some(OpcodeEntry { byte: 0x25, size: 2, cycles: 3 }),
        (Opcode::AND, AddressingMode::ZeroPageX) => Some(OpcodeEntry { byte: 0x35, size: 2, cycles: 4 }),
        (Opcode::AND, AddressingMode::Absolute) => Some(OpcodeEntry { byte: 0x2D, size: 3, cycles: 4 }),
        (Opcode::AND, AddressingMode::AbsoluteX) => Some(OpcodeEntry { byte: 0x3D, size: 3, cycles: 4 }),
        (Opcode::AND, AddressingMode::AbsoluteY) => Some(OpcodeEntry { byte: 0x39, size: 3, cycles: 4 }),
        (Opcode::AND, AddressingMode::IndexedIndirect) => Some(OpcodeEntry { byte: 0x21, size: 2, cycles: 6 }),
        (Opcode::AND, AddressingMode::IndirectIndexed) => Some(OpcodeEntry { byte: 0x31, size: 2, cycles: 5 }),
        (Opcode::EOR, AddressingMode::Immediate) => Some(OpcodeEntry { byte: 0x49, size: 2, cycles: 2 }),
        (Opcode::EOR, AddressingMode::ZeroPage) => Some(OpcodeEntry { byte: 0x45, size: 2, cycles: 3 }),
        (Opcode::EOR, AddressingMode::ZeroPageX) => Some(OpcodeEntry { byte: 0x55, size: 2, cycles: 4 }),
        (Opcode::EOR, AddressingMode::Absolute) => Some(OpcodeEntry { byte: 0x4D, size: 3, cycles: 4 }),
        (Opcode::EOR, AddressingMode::AbsoluteX) => Some(OpcodeEntry { byte: 0x5D, size: 3, cycles: 4 }),
        (Opcode::EOR, AddressingMode::AbsoluteY) => Some(OpcodeEntry { byte: 0x59, size: 3, cycles: 4 }),
        (Opcode::EOR, AddressingMode::IndexedIndirect) => Some(OpcodeEntry { byte: 0x41, size: 2, cycles: 6 }),
        (Opcode::EOR, AddressingMode::IndirectIndexed) => Some(OpcodeEntry { byte: 0x51, size: 2, cycles: 5 }),
        (Opcode::ORA, AddressingMode::Immediate) => Some(OpcodeEntry { byte: 0x09, size: 2, cycles: 2 }),
        (Opcode::ORA, AddressingMode::ZeroPage) => Some(OpcodeEntry { byte: 0x05, size: 2, cycles: 3 }),
        (Opcode::ORA, AddressingMode::ZeroPageX) => Some(OpcodeEntry { byte: 0x15, size: 2, cycles: 4 }),
        (Opcode::ORA, AddressingMode::Absolute) => Some(OpcodeEntry { byte: 0x0D, size: 3, cycles: 4 }),
        (Opcode::ORA, AddressingMode::AbsoluteX) => Some(OpcodeEntry { byte: 0x1D, size: 3, cycles: 4 }),
        (Opcode::ORA, AddressingMode::AbsoluteY) => Some(OpcodeEntry { byte: 0x19, size: 3, cycles: 4 }),
        (Opcode::ORA, AddressingMode::IndexedIndirect) => Some(OpcodeEntry { byte: 0x01, size: 2, cycles: 6 }),
        (Opcode::ORA, AddressingMode::IndirectIndexed) => Some(OpcodeEntry { byte: 0x11, size: 2, cycles: 5 }),
        (Opcode::BIT, AddressingMode::ZeroPage) => Some(OpcodeEntry { byte: 0x24, size: 2, cycles: 3 }),
        (Opcode::BIT, AddressingMode::Absolute) => Some(OpcodeEntry { byte: 0x2C, size: 3, cycles: 4 }),
        (Opcode::ADC, AddressingMode::Immediate) => Some(OpcodeEntry { byte: 0x69, size: 2, cycles: 2 }),
        (Opcode::ADC, AddressingMode::ZeroPage) => Some(OpcodeEntry { byte: 0x65, size: 2, cycles: 3 }),
        (Opcode::ADC, AddressingMode::ZeroPageX) => Some(OpcodeEntry { byte: 0x75, size: 2, cycles: 4 }),
        (Opcode::ADC, AddressingMode::Absolute) => Some(OpcodeEntry { byte: 0x6D, size: 3, cycles: 4 }),
        (Opcode::ADC, AddressingMode::AbsoluteX) => Some(OpcodeEntry { byte: 0x7D, size: 3, cycles: 4 }),
        (Opcode::ADC, AddressingMode::AbsoluteY) => Some(OpcodeEntry { byte: 0x79, size: 3, cycles: 4 }),
        (Opcode::ADC, AddressingMode::IndexedIndirect) => Some(OpcodeEntry { byte: 0x61, size: 2, cycles: 6 }),
        (Opcode::ADC, AddressingMode::IndirectIndexed) => Some(OpcodeEntry { byte: 0x71, size: 2, cycles: 5 }),
        (Opcode::SBC, AddressingMode::Immediate) => Some(OpcodeEntry { byte: 0xE9, size: 2, cycles: 2 }),
        (Opcode::SBC, AddressingMode::ZeroPage) => Some(OpcodeEntry { byte: 0xE5, size: 2, cycles: 3 }),
        (Opcode::SBC, AddressingMode::ZeroPageX) => Some(OpcodeEntry { byte: 0xF5, size: 2, cycles: 4 }),
        (Opcode::SBC, AddressingMode::Absolute) => Some(OpcodeEntry { byte: 0xED, size: 3, cycles: 4 }),
        (Opcode::SBC, AddressingMode::AbsoluteX) => Some(OpcodeEntry { byte: 0xFD, size: 3, cycles: 4 }),
        (Opcode::SBC, AddressingMode::AbsoluteY) => Some(OpcodeEntry { byte: 0xF9, size: 3, cycles: 4 }),
        (Opcode::SBC, AddressingMode::IndexedIndirect) => Some(OpcodeEntry { byte: 0xE1, size: 2, cycles: 6 }),
        (Opcode::SBC, AddressingMode::IndirectIndexed) => Some(OpcodeEntry { byte: 0xF1, size: 2, cycles: 5 }),
        (Opcode::CMP, AddressingMode::Immediate) => Some(OpcodeEntry { byte: 0xC9, size: 2, cycles: 2 }),
        (Opcode::CMP, AddressingMode::ZeroPage) => Some(OpcodeEntry { byte: 0xC5, size: 2, cycles: 3 }),
        (Opcode::CMP, AddressingMode::ZeroPageX) => Some(OpcodeEntry { byte: 0xD5, size: 2, cycles: 4 }),
        (Opcode::CMP, AddressingMode::Absolute) => Some(OpcodeEntry { byte: 0xCD, size: 3, cycles: 4 }),
        (Opcode::CMP, AddressingMode::AbsoluteX) => Some(OpcodeEntry { byte: 0xDD, size: 3, cycles: 4 }),
        (Opcode::CMP, AddressingMode::AbsoluteY) => Some(OpcodeEntry { byte: 0xD9, size: 3, cycles: 4 }),
        (Opcode::CMP, AddressingMode::IndexedIndirect) => Some(OpcodeEntry { byte: 0xC1, size: 2, cycles: 6 }),
        (Opcode::CMP, AddressingMode::IndirectIndexed) => Some(OpcodeEntry { byte: 0xD1, size: 2, cycles: 5 }),
        (Opcode::CPX, AddressingMode::Immediate) => Some(OpcodeEntry { byte: 0xE0, size: 2, cycles: 2 }),
        (Opcode::CPX, AddressingMode::ZeroPage) => Some(OpcodeEntry { byte: 0xE4, size: 2, cycles: 3 }),
        (Opcode::CPX, AddressingMode::Absolute) => Some(OpcodeEntry { byte: 0xEC, size: 3, cycles: 4 }),
        (Opcode::CPY, AddressingMode::Immediate) => Some(OpcodeEntry { byte: 0xC0, size: 2, cycles: 2 }),
        (Opcode::CPY, AddressingMode::ZeroPage) => Some(OpcodeEntry { byte: 0xC4, size: 2, cycles: 3 }),
        (Opcode::CPY, AddressingMode::Absolute) => Some(OpcodeEntry { byte: 0xCC, size: 3, cycles: 4 }),
        (Opcode::INC, AddressingMode::ZeroPage) => Some(OpcodeEntry { byte: 0xE6, size: 2, cycles: 5 }),
        (Opcode::INC, AddressingMode::ZeroPageX) => Some(OpcodeEntry { byte: 0xF6, size: 2, cycles: 6 }),
        (Opcode::INC, AddressingMode::Absolute) => Some(OpcodeEntry { byte: 0xEE, size: 3, cycles: 6 }),
        (Opcode::INC, AddressingMode::AbsoluteX) => Some(OpcodeEntry { byte: 0xFE, size: 3, cycles: 7 }),
        (Opcode::INX, AddressingMode::Implied) => Some(OpcodeEntry { byte: 0xE8, size: 1, cycles: 2 }),
        (Opcode::INY, AddressingMode::Implied) => Some(OpcodeEntry { byte: 0xC8, size: 1, cycles: 2 }),
        (Opcode::DEC, AddressingMode::ZeroPage) => Some(OpcodeEntry { byte: 0xC6, size: 2, cycles: 5 }),
        (Opcode::DEC, AddressingMode::ZeroPageX) => Some(OpcodeEntry { byte: 0xD6, size: 2, cycles: 6 }),
        (Opcode::DEC, AddressingMode::Absolute) => Some(OpcodeEntry { byte: 0xCE, size: 3, cycles: 6 }),
        (Opcode::DEC, AddressingMode::AbsoluteX) => Some(OpcodeEntry { byte: 0xDE, size: 3, cycles: 7 }),
        (Opcode::DEX, AddressingMode::Implied) => Some(OpcodeEntry { byte: 0xCA, size: 1, cycles: 2 }),
        (Opcode::DEY, AddressingMode::Implied) => Some(OpcodeEntry { byte: 0x88, size: 1, cycles: 2 }),
        (Opcode::ASL, AddressingMode::Accumulator) => Some(OpcodeEntry { byte: 0x0A, size: 1, cycles: 2 }),
        (Opcode::ASL, AddressingMode::ZeroPage) => Some(OpcodeEntry { byte: 0x06, size: 2, cycles: 5 }),
        (Opcode::ASL, AddressingMode::ZeroPageX) => Some(OpcodeEntry { byte: 0x16, size: 2, cycles: 6 }),
        (Opcode::ASL, AddressingMode::Absolute) => Some(OpcodeEntry { byte: 0x0E, size: 3, cycles: 6 }),
        (Opcode::ASL, AddressingMode::AbsoluteX) => Some(OpcodeEntry { byte: 0x1E, size: 3, cycles: 7 }),
        (Opcode::LSR, AddressingMode::Accumulator) => Some(OpcodeEntry { byte: 0x4A, size: 1, cycles: 2 }),
        (Opcode::LSR, AddressingMode::ZeroPage) => Some(OpcodeEntry { byte: 0x46, size: 2, cycles: 5 }),
        (Opcode::LSR, AddressingMode::ZeroPageX) => Some(OpcodeEntry { byte: 0x56, size: 2, cycles: 6 }),
        (Opcode::LSR, AddressingMode::Absolute) => Some(OpcodeEntry { byte: 0x4E, size: 3, cycles: 6 }),
        (Opcode::LSR, AddressingMode::AbsoluteX) => Some(OpcodeEntry { byte: 0x5E, size: 3, cycles: 7 }),
        (Opcode::ROL, AddressingMode::Accumulator) => Some(OpcodeEntry { byte: 0x2A, size: 1, cycles: 2 }),
        (Opcode::ROL, AddressingMode::ZeroPage) => Some(OpcodeEntry { byte: 0x26, size: 2, cycles: 5 }),
        (Opcode::ROL, AddressingMode::ZeroPageX) => Some(OpcodeEntry { byte: 0x36, size: 2, cycles: 6 }),
        (Opcode::ROL, AddressingMode::Absolute) => Some(OpcodeEntry { byte: 0x2E, size: 3, cycles: 6 }),
        (Opcode::ROL, AddressingMode::AbsoluteX) => Some(OpcodeEntry { byte: 0x3E, size: 3, cycles: 7 }),
        (Opcode::ROR, AddressingMode::Accumulator) => Some(OpcodeEntry { byte: 0x6A, size: 1, cycles: 2 }),
        (Opcode::ROR, AddressingMode::ZeroPage) => Some(OpcodeEntry { byte: 0x66, size: 2, cycles: 5 }),
        (Opcode::ROR, AddressingMode::ZeroPageX) => Some(OpcodeEntry { byte: 0x76, size: 2, cycles: 6 }),
        (Opcode::ROR, AddressingMode::Absolute) => Some(OpcodeEntry { byte: 0x6E, size: 3, cycles: 6 }),
        (Opcode::ROR, AddressingMode::AbsoluteX) => Some(OpcodeEntry { byte: 0x7E, size: 3, cycles: 7 }),
        (Opcode::JMP, AddressingMode::Absolute) => Some(OpcodeEntry { byte: 0x4C, size: 3, cycles: 3 }),
        (Opcode::JMP, AddressingMode::Indirect) => Some(OpcodeEntry { byte: 0x6C, size: 3, cycles: 5 }),
        (Opcode::JSR, AddressingMode::Absolute) => Some(OpcodeEntry { byte: 0x20, size: 3, cycles: 6 }),
        (Opcode::RTS, AddressingMode::Implied) => Some(OpcodeEntry { byte: 0x60, size: 1, cycles: 6 }),
        (Opcode::RTI, AddressingMode::Implied) => Some(OpcodeEntry { byte: 0x40, size: 1, cycles: 6 }),
        (Opcode::BCC, AddressingMode::Relative) => Some(OpcodeEntry { byte: 0x90, size: 2, cycles: 2 }),
        (Opcode::BCS, AddressingMode::Relative) => Some(OpcodeEntry { byte: 0xB0, size: 2, cycles: 2 }),
        (Opcode::BEQ, AddressingMode::Relative) => Some(OpcodeEntry { byte: 0xF0, size: 2, cycles: 2 }),
        (Opcode::BMI, AddressingMode::Relative) => Some(OpcodeEntry { byte: 0x30, size: 2, cycles: 2 }),
        (Opcode::BNE, AddressingMode::Relative) => Some(OpcodeEntry { byte: 0xD0, size: 2, cycles: 2 }),
        (Opcode::BPL, AddressingMode::Relative) => Some(OpcodeEntry { byte: 0x10, size: 2, cycles: 2 }),
        (Opcode::BVC, AddressingMode::Relative) => Some(OpcodeEntry { byte: 0x50, size: 2, cycles: 2 }),
        (Opcode::BVS, AddressingMode::Relative) => Some(OpcodeEntry { byte: 0x70, size: 2, cycles: 2 }),
        (Opcode::CLC, AddressingMode::Implied) => Some(OpcodeEntry { byte: 0x18, size: 1, cycles: 2 }),
        (Opcode::CLD, AddressingMode::Implied) => Some(OpcodeEntry { byte: 0xD8, size: 1, cycles: 2 }),
        (Opcode::CLI, AddressingMode::Implied) => Some(OpcodeEntry { byte: 0x58, size: 1, cycles: 2 }),
        (Opcode::CLV, AddressingMode::Implied) => Some(OpcodeEntry { byte: 0xB8, size: 1, cycles: 2 }),
        (Opcode::SEC, AddressingMode::Implied) => Some(OpcodeEntry { byte: 0x38, size: 1, cycles: 2 }),
        (Opcode::SED, AddressingMode::Implied) => Some(OpcodeEntry { byte: 0xF8, size: 1, cycles: 2 }),
        (Opcode::SEI, AddressingMode::Implied) => Some(OpcodeEntry { byte: 0x78, size: 1, cycles: 2 }),
        (Opcode::NOP, AddressingMode::Implied) => Some(OpcodeEntry { byte: 0xEA, size: 1, cycles: 2 }),
        (Opcode::SLO, AddressingMode::ZeroPage) => Some(OpcodeEntry { byte: 0x07, size: 2, cycles: 5 }),
        (Opcode::RLA, AddressingMode::ZeroPage) => Some(OpcodeEntry { byte: 0x27, size: 2, cycles: 5 }),
        (Opcode::SRE, AddressingMode::ZeroPage) => Some(OpcodeEntry { byte: 0x47, size: 2, cycles: 5 }),
        (Opcode::RRA, AddressingMode::ZeroPage) => Some(OpcodeEntry { byte: 0x67, size: 2, cycles: 5 }),
        (Opcode::SAX, AddressingMode::ZeroPage) => Some(OpcodeEntry { byte: 0x87, size: 2, cycles: 3 }),
        (Opcode::LAX, AddressingMode::ZeroPage) => Some(OpcodeEntry { byte: 0xA7, size: 2, cycles: 3 }),
        (Opcode::DCP, AddressingMode::ZeroPage) => Some(OpcodeEntry { byte: 0xC7, size: 2, cycles: 5 }),
        (Opcode::ISC, AddressingMode::ZeroPage) => Some(OpcodeEntry { byte: 0xE7, size: 2, cycles: 5 }),
        _ => None,
    }
}

/// Looks up `(op, mode)` in the opcode table.
pub fn lookup_opcode_entry(op: Opcode, mode: AddressingMode) -> (r: Option<OpcodeEntry>)
    ensures
        r == spec_opcode_entry(op, mode),
{
    match (op, mode) {
        (Opcode::LDA, AddressingMode::Immediate) => Some(OpcodeEntry { byte: 0xA9, size: 2, cycles: 2 }),
        (Opcode::LDA, AddressingMode::ZeroPage) => Some(OpcodeEntry { byte: 0xA5, size: 2, cycles: 3 }),
        (Opcode::LDA, AddressingMode::ZeroPageX) => Some(OpcodeEntry { byte: 0xB5, size: 2, cycles: 4 }),
        (Opcode::LDA, AddressingMode::Absolute) => Some(OpcodeEntry { byte: 0xAD, size: 3, cycles: 4 }),
        (Opcode::LDA, AddressingMode::AbsoluteX) => Some(OpcodeEntry { byte: 0xBD, size: 3, cycles: 4 }),
        (Opcode::LDA, AddressingMode::AbsoluteY) => Some(OpcodeEntry { byte: 0xB9, size: 3, cycles: 4 }),
        (Opcode::LDA, AddressingMode::IndexedIndirect) => Some(OpcodeEntry { byte: 0xA1, size: 2, cycles: 6 }),
        (Opcode::LDA, AddressingMode::IndirectIndexed) => Some(OpcodeEntry { byte: 0xB1, size: 2, cycles: 5 }),
        (Opcode::LDX, AddressingMode::Immediate) => Some(OpcodeEntry { byte: 0xA2, size: 2, cycles: 2 }),
        (Opcode::LDX, AddressingMode::ZeroPage) => Some(OpcodeEntry { byte: 0xA6, size: 2, cycles: 3 }),
        (Opcode::LDX, AddressingMode::ZeroPageY) => Some(OpcodeEntry { byte: 0xB6, size: 2, cycles: 4 }),
        (Opcode::LDX, AddressingMode::Absolute) => Some(OpcodeEntry { byte: 0xAE, size: 3, cycles: 4 }),
        (Opcode::LDX, AddressingMode::AbsoluteY) => Some(OpcodeEntry { byte: 0xBE, size: 3, cycles: 4 }),
        (Opcode::LDY, AddressingMode::Immediate) => Some(OpcodeEntry { byte: 0xA0, size: 2, cycles: 2 }),
        (Opcode::LDY, AddressingMode::ZeroPage) => Some(OpcodeEntry { byte: 0xA4, size: 2, cycles: 3 }),
        (Opcode::LDY, AddressingMode::ZeroPageX) => Some(OpcodeEntry { byte: 0xB4, size: 2, cycles: 4 }),
        (Opcode::LDY, AddressingMode::Absolute) => Some(OpcodeEntry { byte: 0xAC, size: 3, cycles: 4 }),
        (Opcode::LDY, AddressingMode::AbsoluteX) => Some(OpcodeEntry { byte: 0xBC, size: 3, cycles: 4 }),
        (Opcode::STA, AddressingMode::ZeroPage) => Some(OpcodeEntry { byte: 0x85, size: 2, cycles: 3 }),
        (Opcode::STA, AddressingMode::ZeroPageX) => Some(OpcodeEntry { byte: 0x95, size: 2, cycles: 4 }),
        (Opcode::STA, AddressingMode::Absolute) => Some(OpcodeEntry { byte: 0x8D, size: 3, cycles: 4 }),
        (Opcode::STA, AddressingMode::AbsoluteX) => Some(OpcodeEntry { byte: 0x9D, size: 3, cycles: 5 }),
        (Opcode::STA, AddressingMode::AbsoluteY) => Some(OpcodeEntry { byte: 0x99, size: 3, cycles: 5 }),
        (Opcode::STA, AddressingMode::IndexedIndirect) => Some(OpcodeEntry { byte: 0x81, size: 2, cycles: 6 }),
        (Opcode::STA, AddressingMode::IndirectIndexed) => Some(OpcodeEntry { byte: 0x91, size: 2, cycles: 6 }),
        (Opcode::STX, AddressingMode::ZeroPage) => Some(OpcodeEntry { byte: 0x86, size: 2, cycles: 3 }),
        (Opcode::STX, AddressingMode::ZeroPageY) => Some(OpcodeEntry { byte: 0x96, size: 2, cycles: 4 }),
        (Opcode::STX, AddressingMode::Absolute) => Some(OpcodeEntry { byte: 0x8E, size: 3, cycles: 4 }),
        (Opcode::STY, AddressingMode::ZeroPage) => Some(OpcodeEntry { byte: 0x84, size: 2, cycles: 3 }),
        (Opcode::STY, AddressingMode::ZeroPageX) => Some(OpcodeEntry { byte: 0x94, size: 2, cycles: 4 }),
        (Opcode::STY, AddressingMode::Absolute) => Some(OpcodeEntry { byte: 0x8C, size: 3, cycles: 4 }),
        (Opcode::TAX, AddressingMode::Implied) => Some(OpcodeEntry { byte: 0xAA, size: 1, cycles: 2 }),
        (Opcode::TAY, AddressingMode::Implied) => Some(OpcodeEntry { byte: 0xA8, size: 1, cycles: 2 }),
        (Opcode::TSX, AddressingMode::Implied) => Some(OpcodeEntry { byte: 0xBA, size: 1, cycles: 2 }),
        (Opcode::TXA, AddressingMode::Implied) => Some(OpcodeEntry { byte: 0x8A, size: 1, cycles: 2 }),
        (Opcode::TXS, AddressingMode::Implied) => Some(OpcodeEntry { byte: 0x9A, size: 1, cycles: 2 }),
        (Opcode::TYA, AddressingMode::Implied) => Some(OpcodeEntry { byte: 0x98, size: 1, cycles: 2 }),
        (Opcode::PHA, AddressingMode::Implied) => Some(OpcodeEntry { byte: 0x48, size: 1, cycles: 3 }),
        (Opcode::PHP, AddressingMode::Implied) => Some(OpcodeEntry { byte: 0x08, size: 1, cycles: 3 }),
        (Opcode::PLA, AddressingMode::Implied) => Some(OpcodeEntry { byte: 0x68, size: 1, cycles: 4 }),
        (Opcode::PLP, AddressingMode::Implied) => Some(OpcodeEntry { byte: 0x28, size: 1, cycles: 4 }),
        (Opcode::AND, AddressingMode::Immediate) => Some(OpcodeEntry { byte: 0x29, size: 2, cycles: 2 }),
        (Opcode::AND, AddressingMode::ZeroPage) => Some(OpcodeEntry { byte: 0x25, size: 2, cycles: 3 }),
        (Opcode::AND, AddressingMode::ZeroPageX) => Some(OpcodeEntry { byte: 0x35, size: 2, cycles: 4 }),
        (Opcode::AND, AddressingMode::Absolute) => Some(OpcodeEntry { byte: 0x2D, size: 3, cycles: 4 }),
        (Opcode::AND, AddressingMode::AbsoluteX) => Some(OpcodeEntry { byte: 0x3D, size: 3, cycles: 4 }),
        (Opcode::AND, AddressingMode::AbsoluteY) => Some(OpcodeEntry { byte: 0x39, size: 3, cycles: 4 }),
        (Opcode::AND, AddressingMode::IndexedIndirect) => Some(OpcodeEntry { byte: 0x21, size: 2, cycles: 6 }),
        (Opcode::AND, AddressingMode::IndirectIndexed) => Some(OpcodeEntry { byte: 0x31, size: 2, cycles: 5 }),
        (Opcode::EOR, AddressingMode::Immediate) => Some(OpcodeEntry { byte: 0x49, size: 2, cycles: 2 }),
        (Opcode::EOR, AddressingMode::ZeroPage) => Some(OpcodeEntry { byte: 0x45, size: 2, cycles: 3 }),
        (Opcode::EOR, AddressingMode::ZeroPageX) => Some(OpcodeEntry { byte: 0x55, size: 2, cycles: 4 }),
        (Opcode::EOR, AddressingMode::Absolute) => Some(OpcodeEntry { byte: 0x4D, size: 3, cycles: 4 }),
        (Opcode::EOR, AddressingMode::AbsoluteX) => Some(OpcodeEntry { byte: 0x5D, size: 3, cycles: 4 }),
        (Opcode::EOR, AddressingMode::AbsoluteY) => Some(OpcodeEntry { byte: 0x59, size: 3, cycles: 4 }),
        (Opcode::EOR, AddressingMode::IndexedIndirect) => Some(OpcodeEntry { byte: 0x41, size: 2, cycles: 6 }),
        (Opcode::EOR, AddressingMode::IndirectIndexed) => Some(OpcodeEntry { byte: 0x51, size: 2, cycles: 5 }),
        (Opcode::ORA, AddressingMode::Immediate) => Some(OpcodeEntry { byte: 0x09, size: 2, cycles: 2 }),
        (Opcode::ORA, AddressingMode::ZeroPage) => Some(OpcodeEntry { byte: 0x05, size: 2, cycles: 3 }),
        (Opcode::ORA, AddressingMode::ZeroPageX) => Some(OpcodeEntry { byte: 0x15, size: 2, cycles: 4 }),
        (Opcode::ORA, AddressingMode::Absolute) => Some(OpcodeEntry { byte: 0x0D, size: 3, cycles: 4 }),
        (Opcode::ORA, AddressingMode::AbsoluteX) => Some(OpcodeEntry { byte: 0x1D, size: 3, cycles: 4 }),
        (Opcode::ORA, AddressingMode::AbsoluteY) => Some(OpcodeEntry { byte: 0x19, size: 3, cycles: 4 }),
        (Opcode::ORA, AddressingMode::IndexedIndirect) => Some(OpcodeEntry { byte: 0x01, size: 2, cycles: 6 }),
        (Opcode::ORA, AddressingMode::IndirectIndexed) => Some(OpcodeEntry { byte: 0x11, size: 2, cycles: 5 }),
        (Opcode::BIT, AddressingMode::ZeroPage) => Some(OpcodeEntry { byte: 0x24, size: 2, cycles: 3 }),
        (Opcode::BIT, AddressingMode::Absolute) => Some(OpcodeEntry { byte: 0x2C, size: 3, cycles: 4 }),
        (Opcode::ADC, AddressingMode::Immediate) => Some(OpcodeEntry { byte: 0x69, size: 2, cycles: 2 }),
        (Opcode::ADC, AddressingMode::ZeroPage) => Some(OpcodeEntry { byte: 0x65, size: 2, cycles: 3 }),
        (Opcode::ADC, AddressingMode::ZeroPageX) => Some(OpcodeEntry { byte: 0x75, size: 2, cycles: 4 }),
        (Opcode::ADC, AddressingMode::Absolute) => Some(OpcodeEntry { byte: 0x6D, size: 3, cycles: 4 }),
        (Opcode::ADC, AddressingMode::AbsoluteX) => Some(OpcodeEntry { byte: 0x7D, size: 3, cycles: 4 }),
        (Opcode::ADC, AddressingMode::AbsoluteY) => Some(OpcodeEntry { byte: 0x79, size: 3, cycles: 4 }),
        (Opcode::ADC, AddressingMode::IndexedIndirect) => Some(OpcodeEntry { byte: 0x61, size: 2, cycles: 6 }),
        (Opcode::ADC, AddressingMode::IndirectIndexed) => Some(OpcodeEntry { byte: 0x71, size: 2, cycles: 5 }),
        (Opcode::SBC, AddressingMode::Immediate) => Some(OpcodeEntry { byte: 0xE9, size: 2, cycles: 2 }),
        (Opcode::SBC, AddressingMode::ZeroPage) => Some(OpcodeEntry { byte: 0xE5, size: 2, cycles: 3 }),
        (Opcode::SBC, AddressingMode::ZeroPageX) => Some(OpcodeEntry { byte: 0xF5, size: 2, cycles: 4 }),
        (Opcode::SBC, AddressingMode::Absolute) => Some(OpcodeEntry { byte: 0xED, size: 3, cycles: 4 }),
        (Opcode::SBC, AddressingMode::AbsoluteX) => Some(OpcodeEntry { byte: 0xFD, size: 3, cycles: 4 }),
        (Opcode::SBC, AddressingMode::AbsoluteY) => Some(OpcodeEntry { byte: 0xF9, size: 3, cycles: 4 }),
        (Opcode::SBC, AddressingMode::IndexedIndirect) => Some(OpcodeEntry { byte: 0xE1, size: 2, cycles: 6 }),
        (Opcode::SBC, AddressingMode::IndirectIndexed) => Some(OpcodeEntry { byte: 0xF1, size: 2, cycles: 5 }),
        (Opcode::CMP, AddressingMode::Immediate) => Some(OpcodeEntry { byte: 0xC9, size: 2, cycles: 2 }),
        (Opcode::CMP, AddressingMode::ZeroPage) => Some(OpcodeEntry { byte: 0xC5, size: 2, cycles: 3 }),
        (Opcode::CMP, AddressingMode::ZeroPageX) => Some(OpcodeEntry { byte: 0xD5, size: 2, cycles: 4 }),
        (Opcode::CMP, AddressingMode::Absolute) => Some(OpcodeEntry { byte: 0xCD, size: 3, cycles: 4 }),
        (Opcode::CMP, AddressingMode::AbsoluteX) => Some(OpcodeEntry { byte: 0xDD, size: 3, cycles: 4 }),
        (Opcode::CMP, AddressingMode::AbsoluteY) => Some(OpcodeEntry { byte: 0xD9, size: 3, cycles: 4 }),
        (Opcode::CMP, AddressingMode::IndexedIndirect) => Some(OpcodeEntry { byte: 0xC1, size: 2, cycles: 6 }),
        (Opcode::CMP, AddressingMode::IndirectIndexed) => Some(OpcodeEntry { byte: 0xD1, size: 2, cycles: 5 }),
        (Opcode::CPX, AddressingMode::Immediate) => Some(OpcodeEntry { byte: 0xE0, size: 2, cycles: 2 }),
        (Opcode::CPX, AddressingMode::ZeroPage) => Some(OpcodeEntry { byte: 0xE4, size: 2, cycles: 3 }),
        (Opcode::CPX, AddressingMode::Absolute) => Some(OpcodeEntry { byte: 0xEC, size: 3, cycles: 4 }),
        (Opcode::CPY, AddressingMode::Immediate) => Some(OpcodeEntry { byte: 0xC0, size: 2, cycles: 2 }),
        (Opcode::CPY, AddressingMode::ZeroPage) => Some(OpcodeEntry { byte: 0xC4, size: 2, cycles: 3 }),
        (Opcode::CPY, AddressingMode::Absolute) => Some(OpcodeEntry { byte: 0xCC, size: 3, cycles: 4 }),
        (Opcode::INC, AddressingMode::ZeroPage) => Some(OpcodeEntry { byte: 0xE6, size: 2, cycles: 5 }),
        (Opcode::INC, AddressingMode::ZeroPageX) => Some(OpcodeEntry { byte: 0xF6, size: 2, cycles: 6 }),
        (Opcode::INC, AddressingMode::Absolute) => Some(OpcodeEntry { byte: 0xEE, size: 3, cycles: 6 }),
        (Opcode::INC, AddressingMode::AbsoluteX) => Some(OpcodeEntry { byte: 0xFE, size: 3, cycles: 7 }),
        (Opcode::INX, AddressingMode::Implied) => Some(OpcodeEntry { byte: 0xE8, size: 1, cycles: 2 }),
        (Opcode::INY, AddressingMode::Implied) => Some(OpcodeEntry { byte: 0xC8, size: 1, cycles: 2 }),
        (Opcode::DEC, AddressingMode::ZeroPage) => Some(OpcodeEntry { byte: 0xC6, size: 2, cycles: 5 }),
        (Opcode::DEC, AddressingMode::ZeroPageX) => Some(OpcodeEntry { byte: 0xD6, size: 2, cycles: 6 }),
        (Opcode::DEC, AddressingMode::Absolute) => Some(OpcodeEntry { byte: 0xCE, size: 3, cycles: 6 }),
        (Opcode::DEC, AddressingMode::AbsoluteX) => Some(OpcodeEntry { byte: 0xDE, size: 3, cycles: 7 }),
        (Opcode::DEX, AddressingMode::Implied) => Some(OpcodeEntry { byte: 0xCA, size: 1, cycles: 2 }),
        (Opcode::DEY, AddressingMode::Implied) => Some(OpcodeEntry { byte: 0x88, size: 1, cycles: 2 }),
        (Opcode::ASL, AddressingMode::Accumulator) => Some(OpcodeEntry { byte: 0x0A, size: 1, cycles: 2 }),
        (Opcode::ASL, AddressingMode::ZeroPage) => Some(OpcodeEntry { byte: 0x06, size: 2, cycles: 5 }),
        (Opcode::ASL, AddressingMode::ZeroPageX) => Some(OpcodeEntry { byte: 0x16, size: 2, cycles: 6 }),
        (Opcode::ASL, AddressingMode::Absolute) => Some(OpcodeEntry { byte: 0x0E, size: 3, cycles: 6 }),
        (Opcode::ASL, AddressingMode::AbsoluteX) => Some(OpcodeEntry { byte: 0x1E, size: 3, cycles: 7 }),
        (Opcode::LSR, AddressingMode::Accumulator) => Some(OpcodeEntry { byte: 0x4A, size: 1, cycles: 2 }),
        (Opcode::LSR, AddressingMode::ZeroPage) => Some(OpcodeEntry { byte: 0x46, size: 2, cycles: 5 }),
        (Opcode::LSR, AddressingMode::ZeroPageX) => Some(OpcodeEntry { byte: 0x56, size: 2, cycles: 6 }),
        (Opcode::LSR, AddressingMode::Absolute) => Some(OpcodeEntry { byte: 0x4E, size: 3, cycles: 6 }),
        (Opcode::LSR, AddressingMode::AbsoluteX) => Some(OpcodeEntry { byte: 0x5E, size: 3, cycles: 7 }),
        (Opcode::ROL, AddressingMode::Accumulator) => Some(OpcodeEntry { byte: 0x2A, size: 1, cycles: 2 }),
        (Opcode::ROL, AddressingMode::ZeroPage) => Some(OpcodeEntry { byte: 0x26, size: 2, cycles: 5 }),
        (Opcode::ROL, AddressingMode::ZeroPageX) => Some(OpcodeEntry { byte: 0x36, size: 2, cycles: 6 }),
        (Opcode::ROL, AddressingMode::Absolute) => Some(OpcodeEntry { byte: 0x2E, size: 3, cycles: 6 }),
        (Opcode::ROL, AddressingMode::AbsoluteX) => Some(OpcodeEntry { byte: 0x3E, size: 3, cycles: 7 }),
        (Opcode::ROR, AddressingMode::Accumulator) => Some(OpcodeEntry { byte: 0x6A, size: 1, cycles: 2 }),
        (Opcode::ROR, AddressingMode::ZeroPage) => Some(OpcodeEntry { byte: 0x66, size: 2, cycles: 5 }),
        (Opcode::ROR, AddressingMode::ZeroPageX) => Some(OpcodeEntry { byte: 0x76, size: 2, cycles: 6 }),
        (Opcode::ROR, AddressingMode::Absolute) => Some(OpcodeEntry { byte: 0x6E, size: 3, cycles: 6 }),
        (Opcode::ROR, AddressingMode::AbsoluteX) => Some(OpcodeEntry { byte: 0x7E, size: 3, cycles: 7 }),
        (Opcode::JMP, AddressingMode::Absolute) => Some(OpcodeEntry { byte: 0x4C, size: 3, cycles: 3 }),
        (Opcode::JMP, AddressingMode::Indirect) => Some(OpcodeEntry { byte: 0x6C, size: 3, cycles: 5 }),
        (Opcode::JSR, AddressingMode::Absolute) => Some(OpcodeEntry { byte: 0x20, size: 3, cycles: 6 }),
        (Opcode::RTS, AddressingMode::Implied) => Some(OpcodeEntry { byte: 0x60, size: 1, cycles: 6 }),
        (Opcode::RTI, AddressingMode::Implied) => Some(OpcodeEntry { byte: 0x40, size: 1, cycles: 6 }),
        (Opcode::BCC, AddressingMode::Relative) => Some(OpcodeEntry { byte: 0x90, size: 2, cycles: 2 }),
        (Opcode::BCS, AddressingMode::Relative) => Some(OpcodeEntry { byte: 0xB0, size: 2, cycles: 2 }),
        (Opcode::BEQ, AddressingMode::Relative) => Some(OpcodeEntry { byte: 0xF0, size: 2, cycles: 2 }),
        (Opcode::BMI, AddressingMode::Relative) => Some(OpcodeEntry { byte: 0x30, size: 2, cycles: 2 }),
        (Opcode::BNE, AddressingMode::Relative) => Some(OpcodeEntry { byte: 0xD0, size: 2, cycles: 2 }),
        (Opcode::BPL, AddressingMode::Relative) => Some(OpcodeEntry { byte: 0x10, size: 2, cycles: 2 }),
        (Opcode::BVC, AddressingMode::Relative) => Some(OpcodeEntry { byte: 0x50, size: 2, cycles: 2 }),
        (Opcode::BVS, AddressingMode::Relative) => Some(OpcodeEntry { byte: 0x70, size: 2, cycles: 2 }),
        (Opcode::CLC, AddressingMode::Implied) => Some(OpcodeEntry { byte: 0x18, size: 1, cycles: 2 }),
        (Opcode::CLD, AddressingMode::Implied) => Some(OpcodeEntry { byte: 0xD8, size: 1, cycles: 2 }),
        (Opcode::CLI, AddressingMode::Implied) => Some(OpcodeEntry { byte: 0x58, size: 1, cycles: 2 }),
        (Opcode::CLV, AddressingMode::Implied) => Some(OpcodeEntry { byte: 0xB8, size: 1, cycles: 2 }),
        (Opcode::SEC, AddressingMode::Implied) => Some(OpcodeEntry { byte: 0x38, size: 1, cycles: 2 }),
        (Opcode::SED, AddressingMode::Implied) => Some(OpcodeEntry { byte: 0xF8, size: 1, cycles: 2 }),
        (Opcode::SEI, AddressingMode::Implied) => Some(OpcodeEntry { byte: 0x78, size: 1, cycles: 2 }),
        (Opcode::NOP, AddressingMode::Implied) => Some(OpcodeEntry { byte: 0xEA, size: 1, cycles: 2 }),
        (Opcode::SLO, AddressingMode::ZeroPage) => Some(OpcodeEntry { byte: 0x07, size: 2, cycles: 5 }),
        (Opcode::RLA, AddressingMode::ZeroPage) => Some(OpcodeEntry { byte: 0x27, size: 2, cycles: 5 }),
        (Opcode::SRE, AddressingMode::ZeroPage) => Some(OpcodeEntry { byte: 0x47, size: 2, cycles: 5 }),
        (Opcode::RRA, AddressingMode::ZeroPage) => Some(OpcodeEntry { byte: 0x67, size: 2, cycles: 5 }),
        (Opcode::SAX, AddressingMode::ZeroPage) => Some(OpcodeEntry { byte: 0x87, size: 2, cycles: 3 }),
        (Opcode::LAX, AddressingMode::ZeroPage) => Some(OpcodeEntry { byte: 0xA7, size: 2, cycles: 3 }),
        (Opcode::DCP, AddressingMode::ZeroPage) => Some(OpcodeEntry { byte: 0xC7, size: 2, cycles: 5 }),
        (Opcode::ISC, AddressingMode::ZeroPage) => Some(OpcodeEntry { byte: 0xE7, size: 2, cycles: 5 }),
        _ => None,
    }
}

/// The opcode at a position of the declaration order.
pub open spec fn spec_opcode_at(k: int) -> Opcode {
    if k == 0 {
        Opcode::LDA
    } else if k == 1 {
        Opcode::LDX
    } else if k == 2 {
        Opcode::LDY
    } else if k == 3 {
        Opcode::STA
    } else if k == 4 {
        Opcode::STX
    } else if k == 5 {
        Opcode::STY
    } else if k == 6 {
        Opcode::TAX
    } else if k == 7 {
        Opcode::TAY
    } else if k == 8 {
        Opcode::TSX
    } else if k == 9 {
        Opcode::TXA
    } else if k == 10 {
        Opcode::TXS
    } else if k == 11 {
        Opcode::TYA
    } else if k == 12 {
        Opcode::PHA
    } else if k == 13 {
        Opcode::PHP
    } else if k == 14 {
        Opcode::PLA
    } else if k == 15 {
        Opcode::PLP
    } else if k == 16 {
        Opcode::AND
    } else if k == 17 {
        Opcode::EOR
    } else if k == 18 {
        Opcode::ORA
    } else if k == 19 {
        Opcode::BIT
    } else if k == 20 {
        Opcode::ADC
    } else if k == 21 {
        Opcode::SBC
    } else if k == 22 {
        Opcode::CMP
    } else if k == 23 {
        Opcode::CPX
    } else if k == 24 {
        Opcode::CPY
    } else if k == 25 {
        Opcode::INC
    } else if k == 26 {
        Opcode::INX
    } else if k == 27 {
        Opcode::INY
    } else if k == 28 {
        Opcode::DEC
    } else if k == 29 {
        Opcode::DEX
    } else if k == 30 {
        Opcode::DEY
    } else if k == 31 {
        Opcode::ASL
    } else if k == 32 {
        Opcode::LSR
    } else if k == 33 {
        Opcode::ROL
    } else if k == 34 {
        Opcode::ROR
    } else if k == 35 {
        Opcode::JMP
    } else if k == 36 {
        Opcode::JSR
    } else if k == 37 {
        Opcode::RTS
    } else if k == 38 {
        Opcode::RTI
    } else if k == 39 {
        Opcode::BCC
    } else if k == 40 {
        Opcode::BCS
    } else if k == 41 {
        Opcode::BEQ
    } else if k == 42 {
        Opcode::BMI
    } else if k == 43 {
        Opcode::BNE
    } else if k == 44 {
        Opcode::BPL
    } else if k == 45 {
        Opcode::BVC
    } else if k == 46 {
        Opcode::BVS
    } else if k == 47 {
        Opcode::CLC
    } else if k == 48 {
        Opcode::CLD
    } else if k == 49 {
        Opcode::CLI
    } else if k == 50 {
        Opcode::CLV
    } else if k == 51 {
        Opcode::SEC
    } else if k == 52 {
        Opcode::SED
    } else if k == 53 {
        Opcode::SEI
    } else if k == 54 {
        Opcode::NOP
    } else if k == 55 {
        Opcode::SLO
    } else if k == 56 {
        Opcode::RLA
    } else if k == 57 {
        Opcode::SRE
    } else if k == 58 {
        Opcode::RRA
    } else if k == 59 {
        Opcode::SAX
    } else if k == 60 {
        Opcode::LAX
    } else if k == 61 {
        Opcode::DCP
    } else if k == 62 {
        Opcode::ISC
    } else {
        Opcode::HCF
    }
}

/// Exec twin of [`spec_opcode_at`].
pub fn opcode_at(k: usize) -> (r: Opcode)
    ensures
        r == spec_opcode_at(k as int),
{
    match k {
        0 => Opcode::LDA,
        1 => Opcode::LDX,
        2 => Opcode::LDY,
        3 => Opcode::STA,
        4 => Opcode::STX,
        5 => Opcode::STY,
        6 => Opcode::TAX,
        7 => Opcode::TAY,
        8 => Opcode::TSX,
        9 => Opcode::TXA,
        10 => Opcode::TXS,
        11 => Opcode::TYA,
        12 => Opcode::PHA,
        13 => Opcode::PHP,
        14 => Opcode::PLA,
        15 => Opcode::PLP,
        16 => Opcode::AND,
        17 => Opcode::EOR,
        18 => Opcode::ORA,
        19 => Opcode::BIT,
        20 => Opcode::ADC,
        21 => Opcode::SBC,
        22 => Opcode::CMP,
        23 => Opcode::CPX,
        24 => Opcode::CPY,
        25 => Opcode::INC,
        26 => Opcode::INX,
        27 => Opcode::INY,
        28 => Opcode::DEC,
        29 => Opcode::DEX,
        30 => Opcode::DEY,
        31 => Opcode::ASL,
        32 => Opcode::LSR,
        33 => Opcode::ROL,
        34 => Opcode::ROR,
        35 => Opcode::JMP,
        36 => Opcode::JSR,
        37 => Opcode::RTS,
        38 => Opcode::RTI,
        39 => Opcode::BCC,
        40 => Opcode::BCS,
        41 => Opcode::BEQ,
        42 => Opcode::BMI,
        43 => Opcode::BNE,
        44 => Opcode::BPL,
        45 => Opcode::BVC,
        46 => Opcode::BVS,
        47 => Opcode::CLC,
        48 => Opcode::CLD,
        49 => Opcode::CLI,
        50 => Opcode::CLV,
        51 => Opcode::SEC,
        52 => Opcode::SED,
        53 => Opcode::SEI,
        54 => Opcode::NOP,
        55 => Opcode::SLO,
        56 => Opcode::RLA,
        57 => Opcode::SRE,
        58 => Opcode::RRA,
        59 => Opcode::SAX,
        60 => Opcode::LAX,
        61 => Opcode::DCP,
        62 => Opcode::ISC,
        _ => Opcode::HCF,
    }
}

/// Every opcode stands somewhere in the first 64 positions.
pub proof fn lemma_opcode_at_complete(op: Opcode)
    ensures
        exists|k: int| 0 <= k < 64 && spec_opcode_at(k) == op,
{
    match op {
        Opcode::LDA => {
            assert(spec_opcode_at(0) == Opcode::LDA);
        },
        Opcode::LDX => {
            assert(spec_opcode_at(1) == Opcode::LDX);
        },
        Opcode::LDY => {
            assert(spec_opcode_at(2) == Opcode::LDY);
        },
        Opcode::STA => {
            assert(spec_opcode_at(3) == Opcode::STA);
        },
        Opcode::STX => {
            assert(spec_opcode_at(4) == Opcode::STX);
        },
        Opcode::STY => {
            assert(spec_opcode_at(5) == Opcode::STY);
        },
        Opcode::TAX => {
            assert(spec_opcode_at(6) == Opcode::TAX);
        },
        Opcode::TAY => {
            assert(spec_opcode_at(7) == Opcode::TAY);
        },
        Opcode::TSX => {
            assert(spec_opcode_at(8) == Opcode::TSX);
        },
        Opcode::TXA => {
            assert(spec_opcode_at(9) == Opcode::TXA);
        },
        Opcode::TXS => {
            assert(spec_opcode_at(10) == Opcode::TXS);
        },
        Opcode::TYA => {
            assert(spec_opcode_at(11) == Opcode::TYA);
        },
        Opcode::PHA => {
            assert(spec_opcode_at(12) == Opcode::PHA);
        },
        Opcode::PHP => {
            assert(spec_opcode_at(13) == Opcode::PHP);
        },
        Opcode::PLA => {
            assert(spec_opcode_at(14) == Opcode::PLA);
        },
        Opcode::PLP => {
            assert(spec_opcode_at(15) == Opcode::PLP);
        },
        Opcode::AND => {
            assert(spec_opcode_at(16) == Opcode::AND);
        },
        Opcode::EOR => {
            assert(spec_opcode_at(17) == Opcode::EOR);
        },
        Opcode::ORA => {
            assert(spec_opcode_at(18) == Opcode::ORA);
        },
        Opcode::BIT => {
            assert(spec_opcode_at(19) == Opcode::BIT);
        },
        Opcode::ADC => {
            assert(spec_opcode_at(20) == Opcode::ADC);
        },
        Opcode::SBC => {
            assert(spec_opcode_at(21) == Opcode::SBC);
        },
        Opcode::CMP => {
            assert(spec_opcode_at(22) == Opcode::CMP);
        },
        Opcode::CPX => {
            assert(spec_opcode_at(23) == Opcode::CPX);
        },
        Opcode::CPY => {
            assert(spec_opcode_at(24) == Opcode::CPY);
        },
        Opcode::INC => {
            assert(spec_opcode_at(25) == Opcode::INC);
        },
        Opcode::INX => {
            assert(spec_opcode_at(26) == Opcode::INX);
        },
        Opcode::INY => {
            assert(spec_opcode_at(27) == Opcode::INY);
        },
        Opcode::DEC => {
            assert(spec_opcode_at(28) == Opcode::DEC);
        },
        Opcode::DEX => {
            assert(spec_opcode_at(29) == Opcode::DEX);
        },
        Opcode::DEY => {
            assert(spec_opcode_at(30) == Opcode::DEY);
        },
        Opcode::ASL => {
            assert(spec_opcode_at(31) == Opcode::ASL);
        },
        Opcode::LSR => {
            assert(spec_opcode_at(32) == Opcode::LSR);
        },
        Opcode::ROL => {
            assert(spec_opcode_at(33) == Opcode::ROL);
        },
        Opcode::ROR => {
            assert(spec_opcode_at(34) == Opcode::ROR);
        },
        Opcode::JMP => {
            assert(spec_opcode_at(35) == Opcode::JMP);
        },
        Opcode::JSR => {
            assert(spec_opcode_at(36) == Opcode::JSR);
        },
        Opcode::RTS => {
            assert(spec_opcode_at(37) == Opcode::RTS);
        },
        Opcode::RTI => {
            assert(spec_opcode_at(38) == Opcode::RTI);
        },
        Opcode::BCC => {
            assert(spec_opcode_at(39) == Opcode::BCC);
        },
        Opcode::BCS => {
            assert(spec_opcode_at(40) == Opcode::BCS);
        },
        Opcode::BEQ => {
            assert(spec_opcode_at(41) == Opcode::BEQ);
        },
        Opcode::BMI => {
            assert(spec_opcode_at(42) == Opcode::BMI);
        },
        Opcode::BNE => {
            assert(spec_opcode_at(43) == Opcode::BNE);
        },
        Opcode::BPL => {
            assert(spec_opcode_at(44) == Opcode::BPL);
        },
        Opcode::BVC => {
            assert(spec_opcode_at(45) == Opcode::BVC);
        },
        Opcode::BVS => {
            assert(spec_opcode_at(46) == Opcode::BVS);
        },
        Opcode::CLC => {
            assert(spec_opcode_at(47) == Opcode::CLC);
        },
        Opcode::CLD => {
            assert(spec_opcode_at(48) == Opcode::CLD);
        },
        Opcode::CLI => {
            assert(spec_opcode_at(49) == Opcode::CLI);
        },
        Opcode::CLV => {
            assert(spec_opcode_at(50) == Opcode::CLV);
        },
        Opcode::SEC => {
            assert(spec_opcode_at(51) == Opcode::SEC);
        },
        Opcode::SED => {
            assert(spec_opcode_at(52) == Opcode::SED);
        },
        Opcode::SEI => {
            assert(spec_opcode_at(53) == Opcode::SEI);
        },
        Opcode::NOP => {
            assert(spec_opcode_at(54) == Opcode::NOP);
        },
        Opcode::SLO => {
            assert(spec_opcode_at(55) == Opcode::SLO);
        },
        Opcode::RLA => {
            assert(spec_opcode_at(56) == Opcode::RLA);
        },
        Opcode::SRE => {
            assert(spec_opcode_at(57) == Opcode::SRE);
        },
        Opcode::RRA => {
            assert(spec_opcode_at(58) == Opcode::RRA);
        },
        Opcode::SAX => {
            assert(spec_opcode_at(59) == Opcode::SAX);
        },
        Opcode::LAX => {
            assert(spec_opcode_at(60) == Opcode::LAX);
        },
        Opcode::DCP => {
            assert(spec_opcode_at(61) == Opcode::DCP);
        },
        Opcode::ISC => {
            assert(spec_opcode_at(62) == Opcode::ISC);
        },
        Opcode::HCF => {
            assert(spec_opcode_at(63) == Opcode::HCF);
        },
    }
}

/// The addressing mode at a position of the declaration order.
pub open spec fn spec_mode_at(k: int) -> AddressingMode {
    if k == 0 {
        AddressingMode::Implied
    } else if k == 1 {
        AddressingMode::Accumulator
    } else if k == 2 {
        AddressingMode::Immediate
    } else if k == 3 {
        AddressingMode::ZeroPage
    } else if k == 4 {
        AddressingMode::ZeroPageX
    } else if k == 5 {
        AddressingMode::ZeroPageY
    } else if k == 6 {
        AddressingMode::Absolute
    } else if k == 7 {
        AddressingMode::AbsoluteX
    } else if k == 8 {
        AddressingMode::AbsoluteY
    } else if k == 9 {
        AddressingMode::Indirect
    } else if k == 10 {
        AddressingMode::IndexedIndirect
    } else if k == 11 {
        AddressingMode::IndirectIndexed
    } else {
        AddressingMode::Relative
    }
}

/// Exec twin of [`spec_mode_at`].
pub fn mode_at(k: usize) -> (r: AddressingMode)
    ensures
        r == spec_mode_at(k as int),
{
    match k {
        0 => AddressingMode::Implied,
        1 => AddressingMode::Accumulator,
        2 => AddressingMode::Immediate,
        3 => AddressingMode::ZeroPage,
        4 => AddressingMode::ZeroPageX,
        5 => AddressingMode::ZeroPageY,
        6 => AddressingMode::Absolute,
        7 => AddressingMode::AbsoluteX,
        8 => AddressingMode::AbsoluteY,
        9 => AddressingMode::Indirect,
        10 => AddressingMode::IndexedIndirect,
        11 => AddressingMode::IndirectIndexed,
        _ => AddressingMode::Relative,
    }
}

/// Every addressing mode stands somewhere in the first 13 positions.
pub proof fn lemma_mode_at_complete(mode: AddressingMode)
    ensures
        exists|k: int| 0 <= k < 13 && spec_mode_at(k) == mode,
{
    match mode {
        AddressingMode::Implied => {
            assert(spec_mode_at(0) == AddressingMode::Implied);
        },
        AddressingMode::Accumulator => {
            assert(spec_mode_at(1) == AddressingMode::Accumulator);
        },
        AddressingMode::Immediate => {
            assert(spec_mode_at(2) == AddressingMode::Immediate);
        },
        AddressingMode::ZeroPage => {
            assert(spec_mode_at(3) == AddressingMode::ZeroPage);
        },
        AddressingMode::ZeroPageX => {
            assert(spec_mode_at(4) == AddressingMode::ZeroPageX);
        },
        AddressingMode::ZeroPageY => {
            assert(spec_mode_at(5) == AddressingMode::ZeroPageY);
        },
        AddressingMode::Absolute => {
            assert(spec_mode_at(6) == AddressingMode::Absolute);
        },
        AddressingMode::AbsoluteX => {
            assert(spec_mode_at(7) == AddressingMode::AbsoluteX);
        },
        AddressingMode::AbsoluteY => {
            assert(spec_mode_at(8) == AddressingMode::AbsoluteY);
        },
        AddressingMode::Indirect => {
            assert(spec_mode_at(9) == AddressingMode::Indirect);
        },
        AddressingMode::IndexedIndirect => {
            assert(spec_mode_at(10) == AddressingMode::IndexedIndirect);
        },
        AddressingMode::IndirectIndexed => {
            assert(spec_mode_at(11) == AddressingMode::IndirectIndexed);
        },
        AddressingMode::Relative => {
            assert(spec_mode_at(12) == AddressingMode::Relative);
        },
    }
}

/// Every opcode, in declaration order.
pub fn all_opcodes() -> (r: Vec<Opcode>)
    ensures
        r@.len() == 64,
        forall|k: int| 0 <= k < 64 ==> r@[k] == spec_opcode_at(k),
{
    let mut ops: Vec<Opcode> = Vec::new();
    let mut k: usize = 0;
    while k < 64
        invariant
            k <= 64,
            ops@.len() == k,
            forall|t: int| 0 <= t < k ==> ops@[t] == spec_opcode_at(t),
        decreases 64 - k,
    {
        ops.push(opcode_at(k));
        k = k + 1;
    }
    ops
}

/// Every addressing mode, in declaration order.
pub fn all_addressing_modes() -> (r: Vec<AddressingMode>)
    ensures
        r@.len() == 13,
        forall|k: int| 0 <= k < 13 ==> r@[k] == spec_mode_at(k),
{
    let mut modes: Vec<AddressingMode> = Vec::new();
    let mut k: usize = 0;
    while k < 13
        invariant
            k <= 13,
            modes@.len() == k,
            forall|t: int| 0 <= t < k ==> modes@[t] == spec_mode_at(t),
        decreases 13 - k,
    {
        modes.push(mode_at(k));
        k = k + 1;
    }
    modes
}

/// Whether the table holds a row for `(op, mode)`.
pub open spec fn spec_row_in(
    table: Seq<(Opcode, AddressingMode, OpcodeEntry)>,
    op: Opcode,
    mode: AddressingMode,
) -> bool {
    exists|t: int| 0 <= t < table.len() && table[t].0 == op && (#[trigger] table[t]).1 == mode
}

/// A row stays in the table when another row is pushed.
pub proof fn lemma_row_in_push(
    table: Seq<(Opcode, AddressingMode, OpcodeEntry)>,
    x: (Opcode, AddressingMode, OpcodeEntry),
    op: Opcode,
    mode: AddressingMode,
)
    requires
        spec_row_in(table, op, mode),
    ensures
        spec_row_in(table.push(x), op, mode),
{
    let t = choose|t: int|
        0 <= t < table.len() && table[t].0 == op && (#[trigger] table[t]).1 == mode;
    assert(table.push(x)[t] == table[t]);
}

/// Materializes the opcode table as rows `(opcode, mode, entry)`.  The
/// table is sound — every row agrees with [`spec_opcode_entry`] — and
/// complete: every `(opcode, mode)` the spec table encodes has its row.
pub fn build_opcode_table() -> (r: Vec<(Opcode, AddressingMode, OpcodeEntry)>)
    ensures
        forall|i: int|
            0 <= i < r@.len() ==> spec_opcode_entry(#[trigger] r@[i].0, r@[i].1) == Some(r@[i].2),
        forall|op: Opcode, mode: AddressingMode|
            #[trigger] spec_opcode_entry(op, mode) is Some ==> spec_row_in(r@, op, mode),
{
    let ops = all_opcodes();
    let modes = all_addressing_modes();
    let mut table: Vec<(Opcode, AddressingMode, OpcodeEntry)> = Vec::new();
    let mut i: usize = 0;
    while i < 64
        invariant
            i <= 64,
            ops@.len() == 64,
            forall|k: int| 0 <= k < 64 ==> ops@[k] == spec_opcode_at(k),
            modes@.len() == 13,
            forall|k: int| 0 <= k < 13 ==> modes@[k] == spec_mode_at(k),
            forall|k: int|
                0 <= k < table@.len() ==> spec_opcode_entry(#[trigger] table@[k].0, table@[k].1)
                    == Some(table@[k].2),
            forall|a: int, b: int|
                0 <= a < i && 0 <= b < 13 && #[trigger] spec_opcode_entry(
                    spec_opcode_at(a),
                    spec_mode_at(b),
                ) is Some ==> spec_row_in(table@, spec_opcode_at(a), spec_mode_at(b)),
        decreases 64 - i,
    {
        let mut j: usize = 0;
        while j < 13
            invariant
                i < 64,
                j <= 13,
                ops@.len() == 64,
                forall|k: int| 0 <= k < 64 ==> ops@[k] == spec_opcode_at(k),
                modes@.len() == 13,
                forall|k: int| 0 <= k < 13 ==> modes@[k] == spec_mode_at(k),
                forall|k: int|
                    0 <= k < table@.len() ==> spec_opcode_entry(
                        #[trigger] table@[k].0,
                        table@[k].1,
                    ) == Some(table@[k].2),
                forall|a: int, b: int|
                    0 <= a < i && 0 <= b < 13 && #[trigger] spec_opcode_entry(
                        spec_opcode_at(a),
                        spec_mode_at(b),
                    ) is Some ==> spec_row_in(table@, spec_opcode_at(a), spec_mode_at(b)),
                forall|b: int|
                    0 <= b < j && #[trigger] spec_opcode_entry(
                        spec_opcode_at(i as int),
                        spec_mode_at(b),
                    ) is Some ==> spec_row_in(table@, spec_opcode_at(i as int), spec_mode_at(b)),
            decreases 13 - j,
        {
            let ghost before = table@;
            match lookup_opcode_entry(ops[i], modes[j]) {
                Some(entry) => {
                    let row = (ops[i], modes[j], entry);
                    table.push(row);
                    proof {
                        assert forall|a: int, b: int|
                            0 <= a < i && 0 <= b < 13 && #[trigger] spec_opcode_entry(
                                spec_opcode_at(a),
                                spec_mode_at(b),
                            ) is Some implies spec_row_in(
                            table@,
                            spec_opcode_at(a),
                            spec_mode_at(b),
                        ) by {
                            lemma_row_in_push(before, row, spec_opcode_at(a), spec_mode_at(b));
                        }
                        assert forall|b: int|
                            0 <= b < j && #[trigger] spec_opcode_entry(
                                spec_opcode_at(i as int),
                                spec_mode_at(b),
                            ) is Some implies spec_row_in(
                            table@,
                            spec_opcode_at(i as int),
                            spec_mode_at(b),
                        ) by {
                            lemma_row_in_push(
                                before,
                                row,
                                spec_opcode_at(i as int),
                                spec_mode_at(b),
                            );
                        }
                        assert(table@[table@.len() - 1] == row);
                        assert(spec_row_in(table@, spec_opcode_at(i as int), spec_mode_at(j as int)));
                    }
                },
                None => {},
            }
            j = j + 1;
        }
        i = i + 1;
    }
    proof {
        assert forall|op: Opcode, mode: AddressingMode|
            #[trigger] spec_opcode_entry(op, mode) is Some implies spec_row_in(
            table@,
            op,
            mode,
        ) by {
            lemma_opcode_at_complete(op);
            lemma_mode_at_complete(mode);
            let a = choose|a: int| 0 <= a < 64 && spec_opcode_at(a) == op;
            let b = choose|b: int| 0 <= b < 13 && spec_mode_at(b) == mode;
            assert(spec_row_in(table@, spec_opcode_at(a), spec_mode_at(b)));
        }
    }
    table
}

/// The size in bytes of an instruction using the given mode: one for the
/// opcode byte, plus the mode's operand bytes.
pub open spec fn spec_mode_size(mode: AddressingMode) -> int {
    match mode {
        AddressingMode::Implied => 1,
        AddressingMode::Accumulator => 1,
        AddressingMode::Immediate => 2,
        AddressingMode::ZeroPage => 2,
        AddressingMode::ZeroPageX => 2,
        AddressingMode::ZeroPageY => 2,
        AddressingMode::Relative => 2,
        AddressingMode::IndexedIndirect => 2,
        AddressingMode::IndirectIndexed => 2,
        AddressingMode::Absolute => 3,
        AddressingMode::AbsoluteX => 3,
        AddressingMode::AbsoluteY => 3,
        AddressingMode::Indirect => 3,
    }
}

/// Exec twin of [`spec_mode_size`].
pub fn mode_size(mode: AddressingMode) -> (r: usize)
    ensures
        r as int == spec_mode_size(mode),
        1 <= r <= 3,
{
    match mode {
        AddressingMode::Implied => 1,
        AddressingMode::Accumulator => 1,
        AddressingMode::Immediate => 2,
        AddressingMode::ZeroPage => 2,
        AddressingMode::ZeroPageX => 2,
        AddressingMode::ZeroPageY => 2,
        AddressingMode::Relative => 2,
        AddressingMode::IndexedIndirect => 2,
        AddressingMode::IndirectIndexed => 2,
        AddressingMode::Absolute => 3,
        AddressingMode::AbsoluteX => 3,
        AddressingMode::AbsoluteY => 3,
        AddressingMode::Indirect => 3,
    }
}

/// Whether the opcode is one of the eight conditional branches, which
/// always use relative addressing.
pub open spec fn spec_is_branch(op: Opcode) -> bool {
    match op {
        Opcode::BCC | Opcode::BCS | Opcode::BEQ | Opcode::BMI | Opcode::BNE | Opcode::BPL
        | Opcode::BVC | Opcode::BVS => true,
        _ => false,
    }
}

/// Exec twin of [`spec_is_branch`].
pub fn is_branch(op: Opcode) -> (r: bool)
    ensures
        r == spec_is_branch(op),
{
    match op {
        Opcode::BCC | Opcode::BCS | Opcode::BEQ | Opcode::BMI | Opcode::BNE | Opcode::BPL
        | Opcode::BVC | Opcode::BVS => true,
        _ => false,
    }
}

/// Whether the opcode is a shift or rotate, for which a missing operand
/// (or an explicit `A`) names the accumulator.
pub open spec fn spec_is_shift(op: Opcode) -> bool {
    match op {
        Opcode::ASL | Opcode::LSR | Opcode::ROL | Opcode::ROR => true,
        _ => false,
    }
}

/// Exec twin of [`spec_is_shift`].
pub fn is_shift(op: Opcode) -> (r: bool)
    ensures
        r == spec_is_shift(op),
{
    match op {
        Opcode::ASL | Opcode::LSR | Opcode::ROL | Opcode::ROR => true,
        _ => false,
    }
}

} // verus!
