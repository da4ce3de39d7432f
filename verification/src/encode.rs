//! The addressing-mode classifier and the instruction encoder.
//!
//! The classifier picks the mode from the opcode and the operand's surface
//! form.  Between a zero-page and an absolute encoding it decides by value,
//! but only for operands that evaluate from literals alone
//! ([`crate::eval::spec_eval_closed`]): an operand that reads any symbol is
//! sized as absolute, the widest encoding, so sizes never depend on label
//! placement and never shrink between passes.  The encoder then emits the
//! opcode byte from the table and the operand bytes for the mode.

use crate::assembler::AssemblerError;
use crate::assembler::err_leaf;
use crate::assembler::ErrorLeaf;
use crate::ast::AddressingMode;
use crate::ast::Expr;
use crate::ast::Op;
use crate::ast::Opcode;
use crate::ast::Operand;
use crate::eval::eval_closed;
use crate::eval::eval_expr;
use crate::eval::lone_symbol;
use crate::eval::outcome_view;
use crate::eval::spec_eval;
use crate::eval::spec_eval_closed;
use crate::eval::spec_lone_symbol;
use crate::eval::EvalOutcome;
use crate::eval::EvalView;
use crate::opcodes::is_branch;
use crate::opcodes::is_shift;
use crate::opcodes::lookup_opcode_entry;
use crate::opcodes::spec_is_branch;
use crate::opcodes::spec_is_shift;
use crate::opcodes::spec_opcode_entry;
use vstd::prelude::*;
use vstd::string::StringExecFns;
use vstd::string::StrSliceExecFns;

verus! {

/// The mnemonic text of an opcode.
pub open spec fn spec_mnemonic(op: Opcode) -> Seq<char> {
    match op {
        Opcode::LDA => "LDA"@,
        Opcode::LDX => "LDX"@,
        Opcode::LDY => "LDY"@,
        Opcode::STA => "STA"@,
        Opcode::STX => "STX"@,
        Opcode::STY => "STY"@,
        Opcode::TAX => "TAX"@,
        Opcode::TAY => "TAY"@,
        Opcode::TSX => "TSX"@,
        Opcode::TXA => "TXA"@,
        Opcode::TXS => "TXS"@,
        Opcode::TYA => "TYA"@,
        Opcode::PHA => "PHA"@,
        Opcode::PHP => "PHP"@,
        Opcode::PLA => "PLA"@,
        Opcode::PLP => "PLP"@,
        Opcode::AND => "AND"@,
        Opcode::EOR => "EOR"@,
        Opcode::ORA => "ORA"@,
        Opcode::BIT => "BIT"@,
        Opcode::ADC => "ADC"@,
        Opcode::SBC => "SBC"@,
        Opcode::CMP => "CMP"@,
        Opcode::CPX => "CPX"@,
        Opcode::CPY => "CPY"@,
        Opcode::INC => "INC"@,
        Opcode::INX => "INX"@,
        Opcode::INY => "INY"@,
        Opcode::DEC => "DEC"@,
        Opcode::DEX => "DEX"@,
        Opcode::DEY => "DEY"@,
        Opcode::ASL => "ASL"@,
        Opcode::LSR => "LSR"@,
        Opcode::ROL => "ROL"@,
        Opcode::ROR => "ROR"@,
        Opcode::JMP => "JMP"@,
        Opcode::JSR => "JSR"@,
        Opcode::RTS => "RTS"@,
        Opcode::RTI => "RTI"@,
        Opcode::BCC => "BCC"@,
        Opcode::BCS => "BCS"@,
        Opcode::BEQ => "BEQ"@,
        Opcode::BMI => "BMI"@,
        Opcode::BNE => "BNE"@,
        Opcode::BPL => "BPL"@,
        Opcode::BVC => "BVC"@,
        Opcode::BVS => "BVS"@,
        Opcode::CLC => "CLC"@,
        Opcode::CLD => "CLD"@,
        Opcode::CLI => "CLI"@,
        Opcode::CLV => "CLV"@,
        Opcode::SEC => "SEC"@,
        Opcode::SED => "SED"@,
        Opcode::SEI => "SEI"@,
        Opcode::NOP => "NOP"@,
        Opcode::SLO => "SLO"@,
        Opcode::RLA => "RLA"@,
        Opcode::SRE => "SRE"@,
        Opcode::RRA => "RRA"@,
        Opcode::SAX => "SAX"@,
        Opcode::LAX => "LAX"@,
        Opcode::DCP => "DCP"@,
        Opcode::ISC => "ISC"@,
        Opcode::HCF => "HCF"@,
    }
}

/// Exec twin of [`spec_mnemonic`].
pub fn mnemonic(op: Opcode) -> (r: String)
    ensures
        r@ == spec_mnemonic(op),
{
    match op {
        Opcode::LDA => String::from_str("LDA"),
        Opcode::LDX => String::from_str("LDX"),
        Opcode::LDY => String::from_str("LDY"),
        Opcode::STA => String::from_str("STA"),
        Opcode::STX => String::from_str("STX"),
        Opcode::STY => String::from_str("STY"),
        Opcode::TAX => String::from_str("TAX"),
        Opcode::TAY => String::from_str("TAY"),
        Opcode::TSX => String::from_str("TSX"),
        Opcode::TXA => String::from_str("TXA"),
        Opcode::TXS => String::from_str("TXS"),
        Opcode::TYA => String::from_str("TYA"),
        Opcode::PHA => String::from_str("PHA"),
        Opcode::PHP => String::from_str("PHP"),
        Opcode::PLA => String::from_str("PLA"),
        Opcode::PLP => String::from_str("PLP"),
        Opcode::AND => String::from_str("AND"),
        Opcode::EOR => String::from_str("EOR"),
        Opcode::ORA => String::from_str("ORA"),
        Opcode::BIT => String::from_str("BIT"),
        Opcode::ADC => String::from_str("ADC"),
        Opcode::SBC => String::from_str("SBC"),
        Opcode::CMP => String::from_str("CMP"),
        Opcode::CPX => String::from_str("CPX"),
        Opcode::CPY => String::from_str("CPY"),
        Opcode::INC => String::from_str("INC"),
        Opcode::INX => String::from_str("INX"),
        Opcode::INY => String::from_str("INY"),
        Opcode::DEC => String::from_str("DEC"),
        Opcode::DEX => String::from_str("DEX"),
        Opcode::DEY => String::from_str("DEY"),
        Opcode::ASL => String::from_str("ASL"),
        Opcode::LSR => String::from_str("LSR"),
        Opcode::ROL => String::from_str("ROL"),
        Opcode::ROR => String::from_str("ROR"),
        Opcode::JMP => String::from_str("JMP"),
        Opcode::JSR => String::from_str("JSR"),
        Opcode::RTS => String::from_str("RTS"),
        Opcode::RTI => String::from_str("RTI"),
        Opcode::BCC => String::from_str("BCC"),
        Opcode::BCS => String::from_str("BCS"),
        Opcode::BEQ => String::from_str("BEQ"),
        Opcode::BMI => String::from_str("BMI"),
        Opcode::BNE => String::from_str("BNE"),
        Opcode::BPL => String::from_str("BPL"),
        Opcode::BVC => String::from_str("BVC"),
        Opcode::BVS => String::from_str("BVS"),
        Opcode::CLC => String::from_str("CLC"),
        Opcode::CLD => String::from_str("CLD"),
        Opcode::CLI => String::from_str("CLI"),
        Opcode::CLV => String::from_str("CLV"),
        Opcode::SEC => String::from_str("SEC"),
        Opcode::SED => String::from_str("SED"),
        Opcode::SEI => String::from_str("SEI"),
        Opcode::NOP => String::from_str("NOP"),
        Opcode::SLO => String::from_str("SLO"),
        Opcode::RLA => String::from_str("RLA"),
        Opcode::SRE => String::from_str("SRE"),
        Opcode::RRA => String::from_str("RRA"),
        Opcode::SAX => String::from_str("SAX"),
        Opcode::LAX => String::from_str("LAX"),
        Opcode::DCP => String::from_str("DCP"),
        Opcode::ISC => String::from_str("ISC"),
        Opcode::HCF => String::from_str("HCF"),
    }
}

/// Whether an operand is the explicit accumulator (`A`), accepted by the
/// shift and rotate mnemonics.
pub open spec fn spec_is_acc_operand(o: Operand) -> bool {
    o.0 is Absolute && match spec_lone_symbol(o.1) {
        Some(n) => n@.len() == 1 && (n@[0] == 'A' || n@[0] == 'a'),
        None => false,
    }
}

/// Exec twin of [`spec_is_acc_operand`].
pub fn is_acc_operand(o: &Operand) -> (r: bool)
    ensures
        r == spec_is_acc_operand(*o),
{
    match o.0 {
        AddressingMode::Absolute => match lone_symbol(&o.1) {
            Some(n) => {
                if n.as_str().unicode_len() == 1 {
                    let c = n.as_str().get_char(0);
                    c == 'A' || c == 'a'
                } else {
                    false
                }
            },
            None => false,
        },
        _ => false,
    }
}

/// Zero page when the operand's value is known from literals alone, fits
/// in one byte, and the opcode has the zero-page encoding; otherwise the
/// absolute fallback.
pub open spec fn spec_zp_or(op: Opcode, e: Expr, zp: AddressingMode, abs: AddressingMode) -> AddressingMode {
    match spec_eval_closed(e) {
        Some(v) => if v <= 0xFF && spec_opcode_entry(op, zp) is Some {
            zp
        } else {
            abs
        },
        None => abs,
    }
}

/// Exec twin of [`spec_zp_or`].
pub fn zp_or(op: Opcode, e: &Expr, zp: AddressingMode, abs: AddressingMode) -> (r: AddressingMode)
    ensures
        r == spec_zp_or(op, *e, zp, abs),
{
    match eval_closed(e) {
        Some(v) => {
            if v <= 0xFF && lookup_opcode_entry(op, zp).is_some() {
                zp
            } else {
                abs
            }
        },
        None => abs,
    }
}

/// The addressing mode of an instruction, chosen deterministically from
/// the opcode and the operand: branches are relative; a missing operand is
/// implied (accumulator for shifts); otherwise the operand's surface form
/// decides, with the zero-page refinement of [`spec_zp_or`].
pub open spec fn spec_classify(op: Opcode, operand: Option<Operand>) -> AddressingMode {
    match operand {
        None => if spec_is_shift(op) {
            AddressingMode::Accumulator
        } else {
            AddressingMode::Implied
        },
        Some(o) => if spec_is_branch(op) {
            AddressingMode::Relative
        } else if spec_is_shift(op) && spec_is_acc_operand(o) {
            AddressingMode::Accumulator
        } else {
            match o.0 {
                AddressingMode::Absolute => spec_zp_or(
                    op,
                    o.1,
                    AddressingMode::ZeroPage,
                    AddressingMode::Absolute,
                ),
                AddressingMode::AbsoluteX => spec_zp_or(
                    op,
                    o.1,
                    AddressingMode::ZeroPageX,
                    AddressingMode::AbsoluteX,
                ),
                AddressingMode::AbsoluteY => spec_zp_or(
                    op,
                    o.1,
                    AddressingMode::ZeroPageY,
                    AddressingMode::AbsoluteY,
                ),
                m => m,
            }
        },
    }
}

/// Exec twin of [`spec_classify`].
pub fn classify_mode(op: Opcode, operand: &Option<Operand>) -> (m: AddressingMode)
    ensures
        m == spec_classify(op, *operand),
{
    match operand {
        None => {
            if is_shift(op) {
                AddressingMode::Accumulator
            } else {
                AddressingMode::Implied
            }
        },
        Some(o) => {
            if is_branch(op) {
                AddressingMode::Relative
            } else if is_shift(op) && is_acc_operand(o) {
                AddressingMode::Accumulator
            } else {
                match o.0 {
                    AddressingMode::Absolute => zp_or(
                        op,
                        &o.1,
                        AddressingMode::ZeroPage,
                        AddressingMode::Absolute,
                    ),
                    AddressingMode::AbsoluteX => zp_or(
                        op,
                        &o.1,
                        AddressingMode::ZeroPageX,
                        AddressingMode::AbsoluteX,
                    ),
                    AddressingMode::AbsoluteY => zp_or(
                        op,
                        &o.1,
                        AddressingMode::ZeroPageY,
                        AddressingMode::AbsoluteY,
                    ),
                    m => m,
                }
            }
        },
    }
}

impl Operand {
    /// The addressing mode this operand selects under the given opcode.
    pub fn get_addressing_mode(&self, opcode: Opcode) -> (m: AddressingMode)
        ensures
            m == spec_classify(opcode, Some(*self)),
    {
        if is_branch(opcode) {
            AddressingMode::Relative
        } else if is_shift(opcode) && is_acc_operand(self) {
            AddressingMode::Accumulator
        } else {
            match self.0 {
                AddressingMode::Absolute => zp_or(
                    opcode,
                    &self.1,
                    AddressingMode::ZeroPage,
                    AddressingMode::Absolute,
                ),
                AddressingMode::AbsoluteX => zp_or(
                    opcode,
                    &self.1,
                    AddressingMode::ZeroPageX,
                    AddressingMode::AbsoluteX,
                ),
                AddressingMode::AbsoluteY => zp_or(
                    opcode,
                    &self.1,
                    AddressingMode::ZeroPageY,
                    AddressingMode::AbsoluteY,
                ),
                m => m,
            }
        }
    }
}

/// The kind of an unresolved reference: a one-byte absolute patch, a
/// little-endian two-byte absolute patch, or a signed relative branch
/// offset.
#[derive(Debug, Clone, Copy, PartialEq, Eq, Structural, Hash)]
pub enum RefKind {
    AbsByte,
    AbsWord,
    Rel,
}

/// The two's-complement byte of a branch offset.
pub open spec fn spec_rel_byte(delta: int) -> u8 {
    ((delta + 256) % 256) as u8
}

/// Exec twin of [`spec_rel_byte`].
pub fn rel_byte(delta: i32) -> (r: u8)
    requires
        -128 <= delta <= 127,
    ensures
        r == spec_rel_byte(delta as int),
{
    if delta >= 0 {
        delta as u8
    } else {
        (delta + 256) as u8
    }
}

/// What the encoder produces for one instruction: its bytes, and at most
/// one unresolved reference (the symbol's name and the patch kind) whose
/// placeholder sits at byte offset 1 of the instruction.
pub type EncodeResult = Result<(Seq<u8>, Option<(Seq<char>, RefKind)>), ErrorLeaf>;

/// Encodes one instruction under the given tables at the given program
/// counter.
///
/// The opcode byte comes from the table; a missing entry is an
/// InvalidAddressingMode error.  One-byte operand modes take the operand
/// value reduced below `0x100`, two-byte modes emit it little-endian.  A
/// relative branch to one bare symbol is emitted as a placeholder and an
/// unresolved reference; any other branch operand must evaluate here and
/// be within `-128..=127` of the byte after the instruction.  An operand
/// over an unbound symbol becomes an unresolved reference of the mode's
/// width; every other failure is fatal.
pub open spec fn spec_encode(
    op: Op,
    labels: Seq<(String, u16)>,
    consts: Seq<(String, Expr)>,
    pc: int,
    fuel: nat,
) -> EncodeResult {
    let mode = spec_classify(op.0, op.1);
    match spec_opcode_entry(op.0, mode) {
        None => Err(ErrorLeaf::InvalidAddressingMode(spec_mnemonic(op.0))),
        Some(entry) => match op.1 {
            None => Ok((seq![entry.byte], None)),
            Some(o) => match mode {
                AddressingMode::Implied | AddressingMode::Accumulator => Ok(
                    (seq![entry.byte], None),
                ),
                AddressingMode::Relative => match spec_lone_symbol(o.1) {
                    Some(n) => Ok((seq![entry.byte, 0u8], Some((n@, RefKind::Rel)))),
                    None => match spec_eval(o.1, labels, consts, pc, fuel) {
                        EvalView::Val(target) => {
                            let delta = target - (pc + 2);
                            if -128 <= delta <= 127 {
                                Ok((seq![entry.byte, spec_rel_byte(delta)], None))
                            } else {
                                Err(ErrorLeaf::ValueOutOfRange(spec_mnemonic(op.0)))
                            }
                        },
                        EvalView::Unknown(n) => Err(ErrorLeaf::UnknownLabel(n)),
                        EvalView::Fail(e) => Err(e),
                    },
                },
                AddressingMode::Immediate | AddressingMode::ZeroPage | AddressingMode::ZeroPageX
                | AddressingMode::ZeroPageY | AddressingMode::IndexedIndirect
                | AddressingMode::IndirectIndexed => match spec_eval(o.1, labels, consts, pc, fuel) {
                    EvalView::Val(v) => if v <= 0xFF {
                        Ok((seq![entry.byte, v as u8], None))
                    } else {
                        Err(ErrorLeaf::ValueOutOfRange(spec_mnemonic(op.0)))
                    },
                    EvalView::Unknown(n) => Ok(
                        (seq![entry.byte, 0u8], Some((n, RefKind::AbsByte))),
                    ),
                    EvalView::Fail(e) => Err(e),
                },
                AddressingMode::Absolute | AddressingMode::AbsoluteX | AddressingMode::AbsoluteY
                | AddressingMode::Indirect => match spec_eval(o.1, labels, consts, pc, fuel) {
                    EvalView::Val(v) => Ok(
                        (seq![entry.byte, (v % 256) as u8, ((v / 256) % 256) as u8], None),
                    ),
                    EvalView::Unknown(n) => Ok(
                        (seq![entry.byte, 0u8, 0u8], Some((n, RefKind::AbsWord))),
                    ),
                    EvalView::Fail(e) => Err(e),
                },
            },
        },
    }
}

/// Exec twin of [`spec_encode`].
pub fn encode_op(
    op: &Op,
    labels: &Vec<(String, u16)>,
    consts: &Vec<(String, Expr)>,
    pc: usize,
    fuel: usize,
) -> (r: Result<(Vec<u8>, Option<(String, RefKind)>), AssemblerError>)
    requires
        pc <= 0x10000,
    ensures
        match (r, spec_encode(*op, labels@, consts@, pc as int, fuel as nat)) {
            (Ok((bytes, pend)), Ok((sb, sp))) => bytes@ == sb && match (pend, sp) {
                (Some((n, k)), Some(spair)) => n@ == spair.0 && k == spair.1,
                (None, None) => true,
                _ => false,
            },
            (Err(e), Err(se)) => err_leaf(e) == se && !(e is SourceLineError),
            _ => false,
        },
{
    let mode = classify_mode(op.0, &op.1);
    let entry = match lookup_opcode_entry(op.0, mode) {
        None => {
            return Err(AssemblerError::InvalidAddressingMode(mnemonic(op.0)));
        },
        Some(entry) => entry,
    };
    let mut bytes: Vec<u8> = Vec::new();
    bytes.push(entry.byte);
    let o = match &op.1 {
        None => {
            return Ok((bytes, None));
        },
        Some(o) => o,
    };
    match mode {
        AddressingMode::Implied | AddressingMode::Accumulator => Ok((bytes, None)),
        AddressingMode::Relative => {
            match lone_symbol(&o.1) {
                Some(n) => {
                    bytes.push(0);
                    Ok((bytes, Some((n.clone(), RefKind::Rel))))
                },
                None => match eval_expr(&o.1, labels, consts, pc, fuel) {
                    EvalOutcome::Val(target) => {
                        let delta: i32 = target as i32 - (pc as i32 + 2);
                        if -128 <= delta && delta <= 127 {
                            bytes.push(rel_byte(delta));
                            Ok((bytes, None))
                        } else {
                            Err(AssemblerError::ValueOutOfRange(mnemonic(op.0)))
                        }
                    },
                    EvalOutcome::Unknown(n) => Err(AssemblerError::UnknownLabel(n)),
                    EvalOutcome::Fail(e) => Err(e),
                },
            }
        },
        AddressingMode::Immediate | AddressingMode::ZeroPage | AddressingMode::ZeroPageX
        | AddressingMode::ZeroPageY | AddressingMode::IndexedIndirect
        | AddressingMode::IndirectIndexed => {
            match eval_expr(&o.1, labels, consts, pc, fuel) {
                EvalOutcome::Val(v) => {
                    if v <= 0xFF {
                        bytes.push(v as u8);
                        Ok((bytes, None))
                    } else {
                        Err(AssemblerError::ValueOutOfRange(mnemonic(op.0)))
                    }
                },
                EvalOutcome::Unknown(n) => {
                    bytes.push(0);
                    Ok((bytes, Some((n, RefKind::AbsByte))))
                },
                EvalOutcome::Fail(e) => Err(e),
            }
        },
        AddressingMode::Absolute | AddressingMode::AbsoluteX | AddressingMode::AbsoluteY
        | AddressingMode::Indirect => {
            match eval_expr(&o.1, labels, consts, pc, fuel) {
                EvalOutcome::Val(v) => {
                    bytes.push((v % 256) as u8);
                    bytes.push((v / 256) as u8);
                    Ok((bytes, None))
                },
                EvalOutcome::Unknown(n) => {
                    bytes.push(0);
                    bytes.push(0);
                    Ok((bytes, Some((n, RefKind::AbsWord))))
                },
                EvalOutcome::Fail(e) => Err(e),
            }
        },
    }
}

} // verus!
