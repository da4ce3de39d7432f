//! The symbol resolver and layout engine: sizes instructions, places
//! labels, emits bytes and patches references, in passes over the program
//! lines.  Every pass is proved against a spec-level fold over the same
//! lines, so the whole assembly result is pinned by [`spec_assemble`].

use crate::ast::spec_constants_of;
use crate::ast::AddressingMode;
use crate::ast::Ast;
use crate::ast::Opcode;
use crate::ast::Directive;
use crate::ast::Expr;
use crate::ast::Instruction;
use crate::ast::Label;
use crate::ast::Line;
use crate::ast::Op;
use crate::encode::classify_mode;
use crate::encode::encode_op;
use crate::encode::rel_byte;
use crate::encode::mnemonic;
use crate::encode::spec_classify;
use crate::encode::spec_mnemonic;
use crate::encode::spec_encode;
use crate::encode::spec_rel_byte;
use crate::encode::RefKind;
use crate::eval::eval_expr;
use crate::eval::lookup;
use crate::eval::outcome_view;
use crate::eval::spec_eval;
use crate::eval::EvalOutcome;
use crate::eval::spec_lookup;
use crate::eval::EvalView;
use crate::opcodes::lookup_opcode_entry;
use crate::opcodes::mode_size;
use crate::opcodes::spec_mode_size;
use crate::opcodes::spec_opcode_entry;
use vstd::prelude::*;
use vstd::string::StringExecFns;
use vstd::string::StrSliceExecFns;

verus! {

/// A fatal assembly error.  `SourceLineError` wraps another error with
/// the source line (1-based) on which it arose during code generation.
#[derive(Debug, PartialEq, Eq)]
pub enum AssemblerError {
    UnknownOpcode(String),
    InvalidAddressingMode(String),
    UnknownLabel(String),
    UnknownDirective(String),
    ValueOutOfRange(String),
    Parse(String),
    SymbolResolution(String),
    ForwardReference(String),
    DuplicateLabel(String),
    InvalidExpression(String),
    SourceLineError { line: usize, cause: Box<AssemblerError> },
}

/// Spec-level image of an error without a line number.
pub enum ErrorLeaf {
    UnknownOpcode(Seq<char>),
    InvalidAddressingMode(Seq<char>),
    UnknownLabel(Seq<char>),
    UnknownDirective(Seq<char>),
    ValueOutOfRange(Seq<char>),
    Parse(Seq<char>),
    SymbolResolution(Seq<char>),
    ForwardReference(Seq<char>),
    DuplicateLabel(Seq<char>),
    InvalidExpression(Seq<char>),
}

/// Spec-level image of an [`AssemblerError`]: a bare error, or one wrapped
/// with the source line it arose on.
pub enum ErrorView {
    Leaf(ErrorLeaf),
    AtLine(int, ErrorLeaf),
}

/// The underlying error of `e`, with any line-number wrappers stripped.
pub open spec fn err_leaf(e: AssemblerError) -> ErrorLeaf
    decreases e,
{
    match e {
        AssemblerError::UnknownOpcode(s) => ErrorLeaf::UnknownOpcode(s@),
        AssemblerError::InvalidAddressingMode(s) => ErrorLeaf::InvalidAddressingMode(s@),
        AssemblerError::UnknownLabel(s) => ErrorLeaf::UnknownLabel(s@),
        AssemblerError::UnknownDirective(s) => ErrorLeaf::UnknownDirective(s@),
        AssemblerError::ValueOutOfRange(s) => ErrorLeaf::ValueOutOfRange(s@),
        AssemblerError::Parse(s) => ErrorLeaf::Parse(s@),
        AssemblerError::SymbolResolution(s) => ErrorLeaf::SymbolResolution(s@),
        AssemblerError::ForwardReference(s) => ErrorLeaf::ForwardReference(s@),
        AssemblerError::DuplicateLabel(s) => ErrorLeaf::DuplicateLabel(s@),
        AssemblerError::InvalidExpression(s) => ErrorLeaf::InvalidExpression(s@),
        AssemblerError::SourceLineError { line: _, cause } => err_leaf(*cause),
    }
}

/// Spec-level image of an [`AssemblerError`].
pub open spec fn err_view(e: AssemblerError) -> ErrorView {
    match e {
        AssemblerError::SourceLineError { line, cause } => ErrorView::AtLine(
            line as int,
            err_leaf(*cause),
        ),
        _ => ErrorView::Leaf(err_leaf(e)),
    }
}


// ---------------------------------------------------------------------------
// The spec-level model of assembly: three folds over the program lines.
// ---------------------------------------------------------------------------

/// Fuel for constant-chain evaluation: one table entry per link suffices
/// for every acyclic chain, so only circular constants run out.
pub open spec fn spec_fuel(consts: Seq<(String, Expr)>) -> nat {
    consts.len()
}

/// State of the sizing pass: the program counter, how many bytes the
/// program will emit, and the labels bound so far.
pub struct Pass1State {
    pub pc: int,
    pub emitted: int,
    pub labels: Seq<(String, u16)>,
}

pub open spec fn spec_pass1_init(origin: int) -> Pass1State {
    Pass1State { pc: origin, emitted: 0, labels: Seq::empty() }
}

/// An unresolved reference: the binary offset of its placeholder, the
/// address of the instruction it belongs to (for relative branches), the
/// symbol it waits for, and the patch kind.
pub struct PendRef {
    pub pos: int,
    pub addr: int,
    pub name: Seq<char>,
    pub kind: RefKind,
}

/// State of the emission pass: the program counter, the bytes emitted so
/// far, and the unresolved references registered so far.
pub struct Pass2State {
    pub pc: int,
    pub bin: Seq<u8>,
    pub pend: Seq<PendRef>,
}

pub open spec fn spec_pass2_init(origin: int) -> Pass2State {
    Pass2State { pc: origin, bin: Seq::empty(), pend: Seq::empty() }
}

/// The size in bytes of one instruction, by its addressing mode.
pub open spec fn spec_op_size(op: Op) -> int {
    spec_mode_size(spec_classify(op.0, op.1))
}

/// Binds a line's label, if any, to the current program counter.  A name
/// bound twice is a DuplicateLabel error; a label beyond the sixteen-bit
/// address space is out of range.
pub open spec fn spec_bind_label(label: Option<Label>, st: Pass1State) -> Result<
    Pass1State,
    ErrorLeaf,
> {
    match label {
        None => Ok(st),
        Some(lab) => {
            if spec_lookup(st.labels, lab.name@) is Some {
                Err(ErrorLeaf::DuplicateLabel(lab.name@))
            } else if st.pc > 0xFFFF {
                Err(ErrorLeaf::ValueOutOfRange(lab.name@))
            } else {
                Ok(
                    Pass1State {
                        labels: st.labels.push((lab.name, st.pc as u16)),
                        ..st
                    },
                )
            }
        },
    }
}

/// Advances the program counter by `size` emitted bytes; emission past the
/// end of the address space is out of range.
pub open spec fn spec_advance(st: Pass1State, size: int) -> Result<Pass1State, ErrorLeaf> {
    if st.pc + size > 0x10000 {
        Err(ErrorLeaf::ValueOutOfRange("program counter"@))
    } else {
        Ok(Pass1State { pc: st.pc + size, emitted: st.emitted + size, ..st })
    }
}

/// Sizes one directive in the sizing pass.  `.org` must evaluate under the
/// labels seen so far; once anything has been emitted it may not move the
/// program counter backwards.  `.const` takes no room; data directives
/// advance by their data length; an unrecognized directive is fatal.
pub open spec fn spec_dir1(d: Directive, consts: Seq<(String, Expr)>, st: Pass1State) -> Result<
    Pass1State,
    ErrorLeaf,
> {
    match d {
        Directive::Org(e) => match spec_eval(e, st.labels, consts, st.pc, spec_fuel(consts)) {
            EvalView::Val(v) => if st.emitted > 0 && v < st.pc {
                Err(ErrorLeaf::ValueOutOfRange("org"@))
            } else {
                Ok(Pass1State { pc: v, ..st })
            },
            EvalView::Unknown(n) => Err(ErrorLeaf::UnknownLabel(n)),
            EvalView::Fail(e) => Err(e),
        },
        Directive::Const(_, _) => Ok(st),
        Directive::Byte(v) => spec_advance(st, v@.len() as int),
        Directive::Word(v) => spec_advance(st, 2 * v@.len() as int),
        Directive::Text(s) => spec_advance(st, s@.len() as int),
        Directive::Unknown(name, _) => Err(ErrorLeaf::UnknownDirective(name@)),
    }
}

/// One line of the sizing pass: bind the label, then size the body.
pub open spec fn spec_pass1_step(
    line: Line,
    consts: Seq<(String, Expr)>,
    st: Pass1State,
) -> Result<Pass1State, ErrorLeaf> {
    match spec_bind_label(line.0, st) {
        Err(e) => Err(e),
        Ok(st1) => match line.1 {
            None => Ok(st1),
            Some(Instruction::Op(op)) => spec_advance(st1, spec_op_size(op)),
            Some(Instruction::Directive(d)) => spec_dir1(d, consts, st1),
        },
    }
}

/// The sizing pass over `lines[i..]`.
pub open spec fn spec_pass1_from(
    lines: Seq<Line>,
    i: int,
    consts: Seq<(String, Expr)>,
    st: Pass1State,
) -> Result<Pass1State, ErrorLeaf>
    decreases lines.len() - i,
{
    if i < 0 || i >= lines.len() {
        Ok(st)
    } else {
        match spec_pass1_step(lines[i], consts, st) {
            Err(e) => Err(e),
            Ok(st2) => spec_pass1_from(lines, i + 1, consts, st2),
        }
    }
}

/// Whether every character of a text payload fits in one byte.
pub open spec fn spec_text_fits(s: Seq<char>) -> bool {
    forall|i: int| 0 <= i < s.len() ==> (#[trigger] s[i] as u32) <= 0xFF
}

/// The bytes of a text payload.
pub open spec fn spec_text_bytes(s: Seq<char>) -> Seq<u8> {
    Seq::new(s.len(), |i: int| s[i] as u8)
}

/// Emits the comma-separated data of a `.byte` or `.word` directive, one
/// element of `width` bytes at a time, little-endian.  A known value must
/// fit the width for bytes (words cannot exceed an expression's range); an
/// unbound symbol leaves a placeholder and an unresolved reference of the
/// given kind; any evaluation failure is fatal.
pub open spec fn spec_data_fold(
    exprs: Seq<Expr>,
    j: int,
    width: int,
    kind: RefKind,
    labels: Seq<(String, u16)>,
    consts: Seq<(String, Expr)>,
    line_no: int,
    st: Pass2State,
) -> Result<Pass2State, ErrorView>
    decreases exprs.len() - j,
{
    if j < 0 || j >= exprs.len() {
        Ok(st)
    } else {
        match spec_eval(exprs[j], labels, consts, st.pc, spec_fuel(consts)) {
            EvalView::Val(v) => if width == 1 && v > 0xFF {
                Err(ErrorView::AtLine(line_no, ErrorLeaf::ValueOutOfRange("byte"@)))
            } else {
                let bytes = if width == 1 {
                    seq![v as u8]
                } else {
                    seq![(v % 256) as u8, ((v / 256) % 256) as u8]
                };
                spec_data_fold(
                    exprs,
                    j + 1,
                    width,
                    kind,
                    labels,
                    consts,
                    line_no,
                    Pass2State { pc: st.pc + width, bin: st.bin + bytes, ..st },
                )
            },
            EvalView::Unknown(n) => {
                let bytes = if width == 1 {
                    seq![0u8]
                } else {
                    seq![0u8, 0u8]
                };
                spec_data_fold(
                    exprs,
                    j + 1,
                    width,
                    kind,
                    labels,
                    consts,
                    line_no,
                    Pass2State {
                        pc: st.pc + width,
                        bin: st.bin + bytes,
                        pend: st.pend.push(
                            PendRef { pos: st.bin.len() as int, addr: st.pc, name: n, kind },
                        ),
                    },
                )
            },
            EvalView::Fail(e) => Err(ErrorView::AtLine(line_no, e)),
        }
    }
}

/// Emits one directive in the emission pass, under the full label table.
pub open spec fn spec_dir2(
    d: Directive,
    line_no: int,
    consts: Seq<(String, Expr)>,
    labels: Seq<(String, u16)>,
    st: Pass2State,
) -> Result<Pass2State, ErrorView> {
    match d {
        Directive::Org(e) => match spec_eval(e, labels, consts, st.pc, spec_fuel(consts)) {
            EvalView::Val(v) => if st.bin.len() > 0 && v < st.pc {
                Err(ErrorView::AtLine(line_no, ErrorLeaf::ValueOutOfRange("org"@)))
            } else {
                Ok(Pass2State { pc: v, ..st })
            },
            EvalView::Unknown(n) => Err(ErrorView::AtLine(line_no, ErrorLeaf::UnknownLabel(n))),
            EvalView::Fail(e) => Err(ErrorView::AtLine(line_no, e)),
        },
        Directive::Const(_, _) => Ok(st),
        Directive::Byte(v) => if st.pc + v@.len() > 0x10000 {
            Err(ErrorView::AtLine(line_no, ErrorLeaf::ValueOutOfRange("program counter"@)))
        } else {
            spec_data_fold(v@, 0, 1, RefKind::AbsByte, labels, consts, line_no, st)
        },
        Directive::Word(v) => if st.pc + 2 * v@.len() > 0x10000 {
            Err(ErrorView::AtLine(line_no, ErrorLeaf::ValueOutOfRange("program counter"@)))
        } else {
            spec_data_fold(v@, 0, 2, RefKind::AbsWord, labels, consts, line_no, st)
        },
        Directive::Text(s) => if !spec_text_fits(s@) {
            Err(ErrorView::AtLine(line_no, ErrorLeaf::Parse(s@)))
        } else if st.pc + s@.len() > 0x10000 {
            Err(ErrorView::AtLine(line_no, ErrorLeaf::ValueOutOfRange("program counter"@)))
        } else {
            Ok(
                Pass2State {
                    pc: st.pc + s@.len() as int,
                    bin: st.bin + spec_text_bytes(s@),
                    ..st
                },
            )
        },
        Directive::Unknown(name, _) => Err(
            ErrorView::AtLine(line_no, ErrorLeaf::UnknownDirective(name@)),
        ),
    }
}

/// One line of the emission pass: a label takes no room; an instruction is
/// encoded and appended, registering at most one unresolved reference at
/// byte offset 1 of the instruction; a directive is processed.  Every
/// error carries the line number.
pub open spec fn spec_pass2_step(
    line: Line,
    line_no: int,
    consts: Seq<(String, Expr)>,
    labels: Seq<(String, u16)>,
    st: Pass2State,
) -> Result<Pass2State, ErrorView> {
    match line.1 {
        None => Ok(st),
        Some(Instruction::Op(op)) => match spec_encode(op, labels, consts, st.pc, spec_fuel(consts)) {
            Err(e) => Err(ErrorView::AtLine(line_no, e)),
            Ok((bytes, pendopt)) => if st.pc + bytes.len() > 0x10000 {
                Err(ErrorView::AtLine(line_no, ErrorLeaf::ValueOutOfRange("program counter"@)))
            } else {
                Ok(
                    Pass2State {
                        pc: st.pc + bytes.len() as int,
                        bin: st.bin + bytes,
                        pend: match pendopt {
                            Some((n, k)) => st.pend.push(
                                PendRef {
                                    pos: st.bin.len() as int + 1,
                                    addr: st.pc,
                                    name: n,
                                    kind: k,
                                },
                            ),
                            None => st.pend,
                        },
                    },
                )
            },
        },
        Some(Instruction::Directive(d)) => spec_dir2(d, line_no, consts, labels, st),
    }
}

/// The emission pass over `lines[i..]`; line numbers are 1-based.
pub open spec fn spec_pass2_from(
    lines: Seq<Line>,
    i: int,
    consts: Seq<(String, Expr)>,
    labels: Seq<(String, u16)>,
    st: Pass2State,
) -> Result<Pass2State, ErrorView>
    decreases lines.len() - i,
{
    if i < 0 || i >= lines.len() {
        Ok(st)
    } else {
        match spec_pass2_step(lines[i], i + 1, consts, labels, st) {
            Err(e) => Err(e),
            Ok(st2) => spec_pass2_from(lines, i + 1, consts, labels, st2),
        }
    }
}

/// Patches one unresolved reference, if its symbol is bound: a one-byte
/// absolute patch writes the value's low byte; a two-byte patch writes it
/// little-endian; a relative patch writes the signed offset from the byte
/// after the branch instruction and fails when the branch is farther than
/// `-128..=127`.  A reference whose placeholder lies outside the binary is
/// dropped without writing.  The flag says whether the reference is done.
pub open spec fn spec_patch_one(
    p: PendRef,
    bin: Seq<u8>,
    labels: Seq<(String, u16)>,
) -> Result<(Seq<u8>, bool), ErrorLeaf> {
    match spec_lookup(labels, p.name) {
        None => Ok((bin, false)),
        Some(target) => match p.kind {
            RefKind::AbsByte => if 0 <= p.pos < bin.len() {
                Ok((bin.update(p.pos, (target as int % 256) as u8), true))
            } else {
                Ok((bin, true))
            },
            RefKind::AbsWord => if 0 <= p.pos && p.pos + 1 < bin.len() {
                Ok(
                    (
                        bin.update(p.pos, (target as int % 256) as u8).update(
                            p.pos + 1,
                            (target as int / 256) as u8,
                        ),
                        true,
                    ),
                )
            } else {
                Ok((bin, true))
            },
            RefKind::Rel => {
                let delta = target - (p.addr + 2);
                if !(-128 <= delta <= 127) {
                    Err(ErrorLeaf::ValueOutOfRange(p.name))
                } else if 0 <= p.pos < bin.len() {
                    Ok((bin.update(p.pos, spec_rel_byte(delta)), true))
                } else {
                    Ok((bin, true))
                }
            },
        },
    }
}

/// The patch pass over `pend[j..]`, carrying the references that stay
/// unresolved.
pub open spec fn spec_patch_from(
    pend: Seq<PendRef>,
    j: int,
    bin: Seq<u8>,
    labels: Seq<(String, u16)>,
    rem: Seq<PendRef>,
) -> Result<(Seq<u8>, Seq<PendRef>), ErrorLeaf>
    decreases pend.len() - j,
{
    if j < 0 || j >= pend.len() {
        Ok((bin, rem))
    } else {
        match spec_patch_one(pend[j], bin, labels) {
            Err(e) => Err(e),
            Ok((bin2, resolved)) => spec_patch_from(
                pend,
                j + 1,
                bin2,
                labels,
                if resolved {
                    rem
                } else {
                    rem.push(pend[j])
                },
            ),
        }
    }
}

/// The whole assembly of a program, starting at `origin`: collect the
/// constants, size and place (pass one), emit (pass two), patch; a
/// reference that is still unresolved then names an unbound label.
pub open spec fn spec_assemble(lines: Seq<Line>, origin: int) -> Result<Seq<u8>, ErrorView> {
    let consts = spec_constants_of(lines);
    match spec_pass1_from(lines, 0, consts, spec_pass1_init(origin)) {
        Err(e) => Err(ErrorView::Leaf(e)),
        Ok(st1) => match spec_pass2_from(lines, 0, consts, st1.labels, spec_pass2_init(origin)) {
            Err(ev) => Err(ev),
            Ok(st2) => match spec_patch_from(st2.pend, 0, st2.bin, st1.labels, Seq::empty()) {
                Err(e) => Err(ErrorView::Leaf(e)),
                Ok((bin, rem)) => if rem.len() > 0 {
                    Err(ErrorView::Leaf(ErrorLeaf::UnknownLabel(rem[0].name)))
                } else {
                    Ok(bin)
                },
            },
        },
    }
}


// ---------------------------------------------------------------------------
// The executable assembler, proved against the spec-level model.
// ---------------------------------------------------------------------------

/// An unresolved reference kept by the assembler: the binary offset of its
/// placeholder, the address of its instruction, the symbol and the kind.
#[derive(Debug, PartialEq, Eq)]
pub struct UnresolvedRef {
    pub pos: usize,
    pub addr: usize,
    pub name: String,
    pub kind: RefKind,
}

pub open spec fn pend_view(u: UnresolvedRef) -> PendRef {
    PendRef { pos: u.pos as int, addr: u.addr as int, name: u.name@, kind: u.kind }
}

pub open spec fn pends_view(s: Seq<UnresolvedRef>) -> Seq<PendRef> {
    s.map_values(|u: UnresolvedRef| pend_view(u))
}

pub proof fn lemma_pends_view_push(s: Seq<UnresolvedRef>, u: UnresolvedRef)
    ensures
        pends_view(s.push(u)) == pends_view(s).push(pend_view(u)),
{
    assert(pends_view(s.push(u)) =~= pends_view(s).push(pend_view(u)));
}

/// Converts an assembly program into binary.  The fields are the running
/// state of the passes; `origin` is where layout starts unless an `.org`
/// directive moves it, and `verbose` is kept for callers that report
/// progress.
#[derive(Debug)]
pub struct Assembler {
    /// The current program counter (at most `0x10000`).
    pub pc: usize,
    /// The binary emitted so far.
    pub binary: Vec<u8>,
    /// Labels bound to addresses, in binding order.
    pub labels: Vec<(String, u16)>,
    /// References waiting for a symbol.
    pub unresolved_refs: Vec<UnresolvedRef>,
    /// Constant bindings, in source order.
    pub constants: Vec<(String, Expr)>,
    /// The address where layout starts.  The contracts state that assembly
    /// leaves this field unchanged: both passes begin here and replay every
    /// `.org` in line order, so the origin/program-counter component that
    /// an `.org` sets is the fold state's `pc`, not this field.  The first
    /// `.org` of the usual program shape thereby plays the origin's role,
    /// exactly as if it had been stored here.
    pub origin: usize,
    /// The source line being generated, for error reporting.
    pub line_number: usize,
    /// Whether to narrate progress.
    pub verbose: bool,
}

impl Assembler {
    pub fn new() -> (r: Self)
        ensures
            r.pc == 0,
            r.binary@ =~= Seq::<u8>::empty(),
            r.labels@ =~= Seq::<(String, u16)>::empty(),
            r.unresolved_refs@ =~= Seq::<UnresolvedRef>::empty(),
            r.constants@ =~= Seq::<(String, Expr)>::empty(),
            r.origin == 0x1000,
            r.line_number == 0,
            r.verbose == false,
    {
        Self {
            pc: 0,
            binary: Vec::new(),
            labels: Vec::new(),
            unresolved_refs: Vec::new(),
            constants: Vec::new(),
            origin: 0x1000,
            line_number: 0,
            verbose: false,
        }
    }

    /// Sets verbose mode and hands the assembler back.
    pub fn verbose(self, verbose: bool) -> (r: Self)
        ensures
            r.verbose == verbose,
            r.pc == self.pc && r.binary == self.binary && r.labels == self.labels
                && r.unresolved_refs == self.unresolved_refs && r.constants == self.constants
                && r.origin == self.origin && r.line_number == self.line_number,
    {
        Self { verbose, ..self }
    }

    /// Sets the current source line for error reporting.
    pub fn set_line_number(&mut self, line: usize)
        ensures
            final(self).line_number == line,
            final(self).pc == old(self).pc,
            final(self).binary == old(self).binary,
            final(self).labels == old(self).labels,
            final(self).unresolved_refs == old(self).unresolved_refs,
            final(self).constants == old(self).constants,
            final(self).origin == old(self).origin,
            final(self).verbose == old(self).verbose,
    {
        self.line_number = line;
    }

    /// Wraps an error with the current source line.
    pub fn line_error(&self, cause: AssemblerError) -> (r: AssemblerError)
        ensures
            err_view(r) == ErrorView::AtLine(self.line_number as int, err_leaf(cause)),
    {
        AssemblerError::SourceLineError { line: self.line_number, cause: Box::new(cause) }
    }

    /// Evaluates an expression under the assembler's current tables and
    /// program counter.
    pub fn evaluate_expression(&self, expr: &Expr) -> (r: EvalOutcome)
        ensures
            outcome_view(r) == spec_eval(
                *expr,
                self.labels@,
                self.constants@,
                self.pc as int,
                spec_fuel(self.constants@),
            ),
            (r matches EvalOutcome::Fail(e) ==> !(e is SourceLineError)),
    {
        eval_expr(expr, &self.labels, &self.constants, self.pc, self.constants.len())
    }

    /// The size in bytes of an instruction, from its addressing mode.
    pub fn instruction_size(&self, instruction: &Op) -> (r: Result<usize, AssemblerError>)
        ensures
            r matches Ok(size) && size as int == spec_op_size(*instruction),
    {
        Ok(mode_size(classify_mode(instruction.0, &instruction.1)))
    }

    /// The opcode byte of `(opcode, addr_mode)`, or InvalidAddressingMode
    /// where the table has no such encoding.
    pub fn get_opcode_byte(&self, opcode: Opcode, addr_mode: AddressingMode) -> (r: Result<
        u8,
        AssemblerError,
    >)
        ensures
            match r {
                Ok(b) => spec_opcode_entry(opcode, addr_mode) matches Some(e) && e.byte == b,
                Err(e) => spec_opcode_entry(opcode, addr_mode) is None && err_view(e)
                    == ErrorView::Leaf(ErrorLeaf::InvalidAddressingMode(spec_mnemonic(opcode))),
            },
    {
        match lookup_opcode_entry(opcode, addr_mode) {
            Some(entry) => Ok(entry.byte),
            None => Err(AssemblerError::InvalidAddressingMode(mnemonic(opcode))),
        }
    }

    /// First pass: walks the lines, binding each label to the current
    /// program counter and advancing it by every instruction's and data
    /// directive's size, per [`spec_pass1_from`].
    pub fn resolve_labels(&mut self, ast: &Ast) -> (r: Result<(), AssemblerError>)
        requires
            old(self).origin <= 0xFFFF,
        ensures
            final(self).constants == old(self).constants,
            final(self).origin == old(self).origin,
            final(self).verbose == old(self).verbose,
            final(self).binary == old(self).binary,
            final(self).unresolved_refs == old(self).unresolved_refs,
            final(self).line_number == old(self).line_number,
            match (
                r,
                spec_pass1_from(
                    ast.lines@,
                    0,
                    old(self).constants@,
                    spec_pass1_init(old(self).origin as int),
                ),
            ) {
                (Ok(()), Ok(st)) => final(self).labels@ == st.labels && final(self).pc as int
                    == st.pc && final(self).pc <= 0x10000,
                (Err(e), Err(se)) => err_view(e) == ErrorView::Leaf(se),
                _ => false,
            },
    {
        self.pc = self.origin;
        self.labels = Vec::new();
        let ghost consts = self.constants@;
        let ghost lines = ast.lines@;
        let mut emitted_any: bool = false;
        let ghost mut emitted: int = 0;
        let mut i: usize = 0;
        while i < ast.lines.len()
            invariant
                i <= lines.len(),
                lines == ast.lines@,
                consts == self.constants@,
                self.constants == old(self).constants,
                self.origin == old(self).origin,
                self.verbose == old(self).verbose,
                self.binary == old(self).binary,
                self.unresolved_refs == old(self).unresolved_refs,
                self.line_number == old(self).line_number,
                self.pc <= 0x10000,
                emitted >= 0,
                emitted_any == (emitted > 0),
                spec_pass1_from(lines, 0, consts, spec_pass1_init(old(self).origin as int))
                    == spec_pass1_from(
                    lines,
                    i as int,
                    consts,
                    Pass1State { pc: self.pc as int, emitted, labels: self.labels@ },
                ),
            decreases lines.len() - i,
        {
            let ghost prev = Pass1State { pc: self.pc as int, emitted, labels: self.labels@ };
            let line = &ast.lines[i];
            // bind the label, if any
            match &line.0 {
                None => {},
                Some(lab) => {
                    match lookup(&self.labels, &lab.name) {
                        Some(_) => {
                            return Err(AssemblerError::DuplicateLabel(lab.name.clone()));
                        },
                        None => {},
                    }
                    if self.pc > 0xFFFF {
                        return Err(AssemblerError::ValueOutOfRange(lab.name.clone()));
                    }
                    self.labels.push((lab.name.clone(), self.pc as u16));
                },
            }
            let ghost bound = Pass1State { pc: self.pc as int, emitted, labels: self.labels@ };
            proof {
                assert(spec_bind_label(lines[i as int].0, prev) == Ok::<Pass1State, ErrorLeaf>(
                    bound,
                ));
            }
            // size the body
            match &line.1 {
                None => {},
                Some(Instruction::Op(op)) => {
                    let size = mode_size(classify_mode(op.0, &op.1));
                    if size > 0x10000 - self.pc {
                        return Err(
                            AssemblerError::ValueOutOfRange(String::from_str("program counter")),
                        );
                    }
                    self.pc = self.pc + size;
                    proof {
                        emitted = emitted + size as int;
                    }
                    emitted_any = true;
                },
                Some(Instruction::Directive(d)) => {
                    match d {
                        Directive::Org(e) => {
                            match eval_expr(
                                e,
                                &self.labels,
                                &self.constants,
                                self.pc,
                                self.constants.len(),
                            ) {
                                EvalOutcome::Val(v) => {
                                    if emitted_any && (v as usize) < self.pc {
                                        return Err(
                                            AssemblerError::ValueOutOfRange(
                                                String::from_str("org"),
                                            ),
                                        );
                                    }
                                    self.pc = v as usize;
                                },
                                EvalOutcome::Unknown(n) => {
                                    return Err(AssemblerError::UnknownLabel(n));
                                },
                                EvalOutcome::Fail(e) => {
                                    return Err(e);
                                },
                            }
                        },
                        Directive::Const(_, _) => {},
                        Directive::Byte(v) => {
                            if v.len() > 0x10000 - self.pc {
                                return Err(
                                    AssemblerError::ValueOutOfRange(
                                        String::from_str("program counter"),
                                    ),
                                );
                            }
                            self.pc = self.pc + v.len();
                            proof {
                                emitted = emitted + v@.len() as int;
                            }
                            if v.len() > 0 {
                                emitted_any = true;
                            }
                        },
                        Directive::Word(v) => {
                            if v.len() > 0x8000 {
                                return Err(
                                    AssemblerError::ValueOutOfRange(
                                        String::from_str("program counter"),
                                    ),
                                );
                            }
                            if 2 * v.len() > 0x10000 - self.pc {
                                return Err(
                                    AssemblerError::ValueOutOfRange(
                                        String::from_str("program counter"),
                                    ),
                                );
                            }
                            self.pc = self.pc + 2 * v.len();
                            proof {
                                emitted = emitted + 2 * v@.len() as int;
                            }
                            if v.len() > 0 {
                                emitted_any = true;
                            }
                        },
                        Directive::Text(s) => {
                            let len = s.as_str().unicode_len();
                            if len > 0x10000 - self.pc {
                                return Err(
                                    AssemblerError::ValueOutOfRange(
                                        String::from_str("program counter"),
                                    ),
                                );
                            }
                            self.pc = self.pc + len;
                            proof {
                                emitted = emitted + s@.len() as int;
                            }
                            if len > 0 {
                                emitted_any = true;
                            }
                        },
                        Directive::Unknown(name, _) => {
                            return Err(AssemblerError::UnknownDirective(name.clone()));
                        },
                    }
                },
            }
            proof {
                let cur = Pass1State { pc: self.pc as int, emitted, labels: self.labels@ };
                assert(spec_pass1_step(lines[i as int], consts, prev) == Ok::<
                    Pass1State,
                    ErrorLeaf,
                >(cur));
            }
            i = i + 1;
        }
        Ok(())
    }

    /// Emits the element list of a `.byte` (width 1) or `.word` (width 2)
    /// directive, per [`spec_data_fold`].  The bytes and references are
    /// built aside and committed only when every element is good, so a bad
    /// element leaves the assembler exactly as it was.
    fn emit_data(&mut self, exprs: &Vec<Expr>, width: usize) -> (r: Result<(), AssemblerError>)
        requires
            width == 1 || width == 2,
            old(self).pc + width * exprs@.len() <= 0x10000,
            old(self).binary@.len() <= 0x10000,
        ensures
            final(self).constants == old(self).constants,
            final(self).labels == old(self).labels,
            final(self).origin == old(self).origin,
            final(self).verbose == old(self).verbose,
            final(self).line_number == old(self).line_number,
            r is Err ==> final(self).binary == old(self).binary && final(self).pc == old(self).pc
                && final(self).unresolved_refs == old(self).unresolved_refs,
            match (
                r,
                spec_data_fold(
                    exprs@,
                    0,
                    width as int,
                    if width == 1 {
                        RefKind::AbsByte
                    } else {
                        RefKind::AbsWord
                    },
                    old(self).labels@,
                    old(self).constants@,
                    old(self).line_number as int,
                    Pass2State {
                        pc: old(self).pc as int,
                        bin: old(self).binary@,
                        pend: pends_view(old(self).unresolved_refs@),
                    },
                ),
            ) {
                (Ok(()), Ok(st)) => final(self).binary@ == st.bin && pends_view(
                    final(self).unresolved_refs@,
                ) == st.pend && final(self).pc as int == st.pc && final(self).pc <= 0x10000
                    && (old(self).binary@.len() <= old(self).pc ==> final(self).binary@.len()
                    <= final(self).pc),
                (Err(e), Err(ev)) => err_view(e) == ev,
                _ => false,
            },
    {
        let ghost kind = if width == 1 {
            RefKind::AbsByte
        } else {
            RefKind::AbsWord
        };
        let ghost labels0 = self.labels@;
        let ghost consts0 = self.constants@;
        let ghost line0 = self.line_number as int;
        let ghost init = Pass2State {
            pc: self.pc as int,
            bin: self.binary@,
            pend: pends_view(self.unresolved_refs@),
        };
        let mut out: Vec<u8> = Vec::new();
        let mut pends: Vec<UnresolvedRef> = Vec::new();
        let mut pc_local: usize = self.pc;
        let mut j: usize = 0;
        while j < exprs.len()
            invariant
                j <= exprs@.len(),
                width == 1 || width == 2,
                kind == (if width == 1 {
                    RefKind::AbsByte
                } else {
                    RefKind::AbsWord
                }),
                self == old(self),
                old(self).binary@.len() <= 0x10000,
                labels0 == self.labels@,
                consts0 == self.constants@,
                line0 == self.line_number as int,
                init == (Pass2State {
                    pc: old(self).pc as int,
                    bin: old(self).binary@,
                    pend: pends_view(old(self).unresolved_refs@),
                }),
                pc_local as int == old(self).pc + width * j,
                pc_local as int + width * (exprs@.len() - j) <= 0x10000,
                out@.len() == width * j,
                spec_data_fold(exprs@, 0, width as int, kind, labels0, consts0, line0, init)
                    == spec_data_fold(
                    exprs@,
                    j as int,
                    width as int,
                    kind,
                    labels0,
                    consts0,
                    line0,
                    Pass2State {
                        pc: pc_local as int,
                        bin: old(self).binary@ + out@,
                        pend: pends_view(old(self).unresolved_refs@) + pends_view(pends@),
                    },
                ),
            decreases exprs@.len() - j,
        {
            let ghost prev = Pass2State {
                pc: pc_local as int,
                bin: old(self).binary@ + out@,
                pend: pends_view(old(self).unresolved_refs@) + pends_view(pends@),
            };
            let outcome = eval_expr(
                &exprs[j],
                &self.labels,
                &self.constants,
                pc_local,
                self.constants.len(),
            );
            proof {
                assert(outcome_view(outcome) == spec_eval(
                    exprs@[j as int],
                    labels0,
                    consts0,
                    prev.pc,
                    spec_fuel(consts0),
                ));
            }
            match outcome {
                EvalOutcome::Val(x) => {
                    if width == 1 {
                        if x > 0xFF {
                            proof {
                                assert(spec_data_fold(exprs@, j as int, width as int, kind,
                                    labels0, consts0, line0, prev) == Err::<Pass2State, ErrorView>(
                                    ErrorView::AtLine(line0, ErrorLeaf::ValueOutOfRange("byte"@))));
                            }
                            return Err(
                                self.line_error(
                                    AssemblerError::ValueOutOfRange(String::from_str("byte")),
                                ),
                            );
                        }
                        out.push(x as u8);
                        proof {
                            assert(old(self).binary@ + out@ =~= prev.bin + seq![x as u8]);
                        }
                    } else {
                        out.push((x % 256) as u8);
                        out.push((x / 256) as u8);
                        proof {
                            assert(old(self).binary@ + out@ =~= prev.bin + seq![
                                (x % 256) as u8,
                                (x / 256) as u8,
                            ]);
                        }
                    }
                    pc_local = pc_local + width;
                },
                EvalOutcome::Unknown(n) => {
                    let u = UnresolvedRef {
                        pos: self.binary.len() + out.len(),
                        addr: pc_local,
                        name: n,
                        kind: if width == 1 {
                            RefKind::AbsByte
                        } else {
                            RefKind::AbsWord
                        },
                    };
                    proof {
                        lemma_pends_view_push(pends@, u);
                        assert(pends_view(old(self).unresolved_refs@) + pends_view(pends@).push(
                            pend_view(u),
                        ) =~= prev.pend.push(pend_view(u)));
                    }
                    pends.push(u);
                    out.push(0);
                    if width == 2 {
                        out.push(0);
                        proof {
                            assert(old(self).binary@ + out@ =~= prev.bin + seq![0u8, 0u8]);
                        }
                    } else {
                        proof {
                            assert(old(self).binary@ + out@ =~= prev.bin + seq![0u8]);
                        }
                    }
                    pc_local = pc_local + width;
                },
                EvalOutcome::Fail(e) => {
                    proof {
                        assert(spec_data_fold(exprs@, j as int, width as int, kind, labels0,
                            consts0, line0, prev) == Err::<Pass2State, ErrorView>(
                            ErrorView::AtLine(line0, err_leaf(e))));
                    }
                    return Err(self.line_error(e));
                },
            }
            proof {
                let cur = Pass2State {
                    pc: pc_local as int,
                    bin: old(self).binary@ + out@,
                    pend: pends_view(old(self).unresolved_refs@) + pends_view(pends@),
                };
                assert(spec_data_fold(
                    exprs@,
                    j as int,
                    width as int,
                    kind,
                    labels0,
                    consts0,
                    line0,
                    prev,
                ) == spec_data_fold(
                    exprs@,
                    j + 1,
                    width as int,
                    kind,
                    labels0,
                    consts0,
                    line0,
                    cur,
                ));
            }
            j = j + 1;
        }
        let ghost built = pends@;
        push_all(&mut self.binary, &out);
        self.unresolved_refs.append(&mut pends);
        self.pc = pc_local;
        proof {
            assert(pends_view(self.unresolved_refs@) =~= pends_view(old(self).unresolved_refs@)
                + pends_view(built));
        }
        Ok(())
    }

    /// Emits one directive in the emission pass, per [`spec_dir2`]: `.org`
    /// moves the program counter (never backwards once bytes exist),
    /// `.const` takes no room, data directives append their bytes, and an
    /// unrecognized directive is fatal.  Errors carry the current line and
    /// leave the assembler exactly as it was.
    ///
    /// `.org` sets the program counter only: `origin` stays the fixed
    /// layout start, because the emission pass replays every `.org` itself
    /// instead of starting from the last one seen.
    pub fn process_directive(&mut self, directive: &Directive) -> (r: Result<(), AssemblerError>)
        requires
            old(self).pc <= 0x10000,
            old(self).binary@.len() <= 0x10000,
        ensures
            final(self).constants == old(self).constants,
            final(self).labels == old(self).labels,
            final(self).origin == old(self).origin,
            final(self).verbose == old(self).verbose,
            final(self).line_number == old(self).line_number,
            r is Err ==> final(self).binary == old(self).binary && final(self).pc == old(self).pc
                && final(self).unresolved_refs == old(self).unresolved_refs,
            match (
                r,
                spec_dir2(
                    *directive,
                    old(self).line_number as int,
                    old(self).constants@,
                    old(self).labels@,
                    Pass2State {
                        pc: old(self).pc as int,
                        bin: old(self).binary@,
                        pend: pends_view(old(self).unresolved_refs@),
                    },
                ),
            ) {
                (Ok(()), Ok(st)) => final(self).binary@ == st.bin && pends_view(
                    final(self).unresolved_refs@,
                ) == st.pend && final(self).pc as int == st.pc && final(self).pc <= 0x10000
                    && (old(self).binary@.len() <= old(self).pc ==> final(self).binary@.len()
                    <= final(self).pc),
                (Err(e), Err(ev)) => err_view(e) == ev,
                _ => false,
            },
    {
        match directive {
            Directive::Org(e) => {
                let outcome = eval_expr(
                    e,
                    &self.labels,
                    &self.constants,
                    self.pc,
                    self.constants.len(),
                );
                proof {
                    assert(outcome_view(outcome) == spec_eval(
                        *e,
                        old(self).labels@,
                        old(self).constants@,
                        old(self).pc as int,
                        spec_fuel(old(self).constants@),
                    ));
                }
                match outcome {
                    EvalOutcome::Val(v) => {
                        if self.binary.len() > 0 && (v as usize) < self.pc {
                            return Err(
                                self.line_error(
                                    AssemblerError::ValueOutOfRange(String::from_str("org")),
                                ),
                            );
                        }
                        self.pc = v as usize;
                        Ok(())
                    },
                    EvalOutcome::Unknown(n) => Err(
                        self.line_error(AssemblerError::UnknownLabel(n)),
                    ),
                    EvalOutcome::Fail(e) => Err(self.line_error(e)),
                }
            },
            Directive::Const(_, _) => Ok(()),
            Directive::Byte(v) => {
                if v.len() > 0x10000 - self.pc {
                    return Err(
                        self.line_error(
                            AssemblerError::ValueOutOfRange(String::from_str("program counter")),
                        ),
                    );
                }
                self.emit_data(v, 1)
            },
            Directive::Word(v) => {
                if v.len() > 0x8000 {
                    return Err(
                        self.line_error(
                            AssemblerError::ValueOutOfRange(String::from_str("program counter")),
                        ),
                    );
                }
                if 2 * v.len() > 0x10000 - self.pc {
                    return Err(
                        self.line_error(
                            AssemblerError::ValueOutOfRange(String::from_str("program counter")),
                        ),
                    );
                }
                self.emit_data(v, 2)
            },
            Directive::Text(s) => {
                if !text_fits(s) {
                    return Err(self.line_error(AssemblerError::Parse(s.clone())));
                }
                let len = s.as_str().unicode_len();
                if len > 0x10000 - self.pc {
                    return Err(
                        self.line_error(
                            AssemblerError::ValueOutOfRange(String::from_str("program counter")),
                        ),
                    );
                }
                push_text(&mut self.binary, s);
                self.pc = self.pc + len;
                Ok(())
            },
            Directive::Unknown(name, _) => Err(
                self.line_error(AssemblerError::UnknownDirective(name.clone())),
            ),
        }
    }

    /// Encodes one instruction under the assembler's tables at the current
    /// program counter, per [`spec_encode`], registering at most one
    /// unresolved reference whose placeholder will sit at offset 1 of the
    /// instruction once the caller appends the bytes.
    pub fn encode_instruction(&mut self, instruction: &Op) -> (r: Result<Vec<u8>, AssemblerError>)
        requires
            old(self).pc <= 0x10000,
            old(self).binary@.len() <= 0x10000,
        ensures
            final(self).constants == old(self).constants,
            final(self).labels == old(self).labels,
            final(self).origin == old(self).origin,
            final(self).verbose == old(self).verbose,
            final(self).line_number == old(self).line_number,
            final(self).binary == old(self).binary,
            final(self).pc == old(self).pc,
            match (
                r,
                spec_encode(
                    *instruction,
                    old(self).labels@,
                    old(self).constants@,
                    old(self).pc as int,
                    spec_fuel(old(self).constants@),
                ),
            ) {
                (Ok(bytes), Ok(enc)) => bytes@ == enc.0 && (match enc.1 {
                    Some(p) => pends_view(final(self).unresolved_refs@) == pends_view(
                        old(self).unresolved_refs@,
                    ).push(
                        PendRef {
                            pos: old(self).binary@.len() as int + 1,
                            addr: old(self).pc as int,
                            name: p.0,
                            kind: p.1,
                        },
                    ),
                    None => final(self).unresolved_refs == old(self).unresolved_refs,
                }),
                (Err(e), Err(se)) => err_view(e) == ErrorView::Leaf(se)
                    && final(self).unresolved_refs == old(self).unresolved_refs,
                _ => false,
            },
    {
        match encode_op(instruction, &self.labels, &self.constants, self.pc, self.constants.len())
        {
            Ok((bytes, pend)) => {
                match pend {
                    Some((n, k)) => {
                        let u = UnresolvedRef {
                            pos: self.binary.len() + 1,
                            addr: self.pc,
                            name: n,
                            kind: k,
                        };
                        proof {
                            lemma_pends_view_push(self.unresolved_refs@, u);
                        }
                        self.unresolved_refs.push(u);
                    },
                    None => {},
                }
                Ok(bytes)
            },
            Err(e) => Err(e),
        }
    }

    /// Second pass: resets the program counter to the origin and walks the
    /// lines, appending every instruction's and data directive's bytes,
    /// per [`spec_pass2_from`].  Errors carry their 1-based source line.
    pub fn generate_code(&mut self, ast: &Ast) -> (r: Result<(), AssemblerError>)
        requires
            old(self).origin <= 0xFFFF,
        ensures
            final(self).constants == old(self).constants,
            final(self).labels == old(self).labels,
            final(self).origin == old(self).origin,
            final(self).verbose == old(self).verbose,
            match (
                r,
                spec_pass2_from(
                    ast.lines@,
                    0,
                    old(self).constants@,
                    old(self).labels@,
                    spec_pass2_init(old(self).origin as int),
                ),
            ) {
                (Ok(()), Ok(st)) => final(self).binary@ == st.bin && pends_view(
                    final(self).unresolved_refs@,
                ) == st.pend && final(self).pc as int == st.pc,
                (Err(e), Err(ev)) => err_view(e) == ev,
                _ => false,
            },
    {
        self.pc = self.origin;
        self.binary = Vec::new();
        self.unresolved_refs = Vec::new();
        let ghost consts = self.constants@;
        let ghost labels0 = self.labels@;
        let ghost lines = ast.lines@;
        proof {
            assert(pends_view(self.unresolved_refs@) =~= Seq::<PendRef>::empty());
        }
        let mut i: usize = 0;
        while i < ast.lines.len()
            invariant
                i <= lines.len(),
                lines == ast.lines@,
                consts == self.constants@,
                labels0 == self.labels@,
                self.constants == old(self).constants,
                self.labels == old(self).labels,
                self.origin == old(self).origin,
                self.verbose == old(self).verbose,
                self.pc <= 0x10000,
                self.binary@.len() <= self.pc,
                spec_pass2_from(lines, 0, consts, labels0, spec_pass2_init(old(self).origin as int))
                    == spec_pass2_from(
                    lines,
                    i as int,
                    consts,
                    labels0,
                    Pass2State {
                        pc: self.pc as int,
                        bin: self.binary@,
                        pend: pends_view(self.unresolved_refs@),
                    },
                ),
            decreases lines.len() - i,
        {
            let ghost prev = Pass2State {
                pc: self.pc as int,
                bin: self.binary@,
                pend: pends_view(self.unresolved_refs@),
            };
            self.set_line_number(i + 1);
            let line = &ast.lines[i];
            match &line.1 {
                None => {},
                Some(Instruction::Op(op)) => {
                    let bytes = match self.encode_instruction(op) {
                        Err(e) => {
                            return Err(self.line_error(e));
                        },
                        Ok(b) => b,
                    };
                    if bytes.len() > 0x10000 - self.pc {
                        return Err(
                            self.line_error(
                                AssemblerError::ValueOutOfRange(
                                    String::from_str("program counter"),
                                ),
                            ),
                        );
                    }
                    push_all(&mut self.binary, &bytes);
                    self.pc = self.pc + bytes.len();
                },
                Some(Instruction::Directive(d)) => {
                    match self.process_directive(d) {
                        Ok(()) => {},
                        Err(e) => {
                            return Err(e);
                        },
                    }
                },
            }
            proof {
                let cur = Pass2State {
                    pc: self.pc as int,
                    bin: self.binary@,
                    pend: pends_view(self.unresolved_refs@),
                };
                assert(spec_pass2_step(lines[i as int], i + 1, consts, labels0, prev) == Ok::<
                    Pass2State,
                    ErrorView,
                >(cur));
            }
            i = i + 1;
        }
        Ok(())
    }

    /// Patch pass: writes every reference whose symbol is bound, per
    /// [`spec_patch_from`], and keeps the rest; a non-empty rest is an
    /// UnknownLabel error naming its first symbol.  A branch farther than
    /// `-128..=127` bytes is out of range.
    pub fn resolve_references(&mut self) -> (r: Result<(), AssemblerError>)
        ensures
            final(self).constants == old(self).constants,
            final(self).labels == old(self).labels,
            final(self).origin == old(self).origin,
            final(self).verbose == old(self).verbose,
            final(self).line_number == old(self).line_number,
            final(self).pc == old(self).pc,
            match spec_patch_from(
                pends_view(old(self).unresolved_refs@),
                0,
                old(self).binary@,
                old(self).labels@,
                Seq::empty(),
            ) {
                Err(se) => r matches Err(e) && err_view(e) == ErrorView::Leaf(se),
                Ok(done) => final(self).binary@ == done.0 && pends_view(
                    final(self).unresolved_refs@,
                ) == done.1 && (if done.1.len() == 0 {
                    r is Ok
                } else {
                    r matches Err(e) && err_view(e) == ErrorView::Leaf(
                        ErrorLeaf::UnknownLabel(done.1[0].name),
                    )
                }),
            },
    {
        let ghost pend0 = pends_view(old(self).unresolved_refs@);
        let ghost labels0 = self.labels@;
        let ghost bin0 = self.binary@;
        let mut remaining: Vec<UnresolvedRef> = Vec::new();
        proof {
            assert(pends_view(remaining@) =~= Seq::<PendRef>::empty());
        }
        let mut j: usize = 0;
        while j < self.unresolved_refs.len()
            invariant
                j <= self.unresolved_refs@.len(),
                self.unresolved_refs == old(self).unresolved_refs,
                self.labels == old(self).labels,
                self.constants == old(self).constants,
                self.origin == old(self).origin,
                self.verbose == old(self).verbose,
                self.line_number == old(self).line_number,
                self.pc == old(self).pc,
                pend0 == pends_view(self.unresolved_refs@),
                labels0 == self.labels@,
                bin0 == old(self).binary@,
                spec_patch_from(pend0, 0, bin0, labels0, Seq::empty()) == spec_patch_from(
                    pend0,
                    j as int,
                    self.binary@,
                    labels0,
                    pends_view(remaining@),
                ),
            decreases self.unresolved_refs@.len() - j,
        {
            proof {
                assert(pend0[j as int] == pend_view(self.unresolved_refs@[j as int]));
            }
            let ghost prev_bin = self.binary@;
            let ghost prev_rem = pends_view(remaining@);
            let pos = self.unresolved_refs[j].pos;
            let addr = self.unresolved_refs[j].addr;
            let kind = self.unresolved_refs[j].kind;
            match lookup(&self.labels, &self.unresolved_refs[j].name) {
                None => {
                    let u = UnresolvedRef {
                        pos,
                        addr,
                        name: self.unresolved_refs[j].name.clone(),
                        kind,
                    };
                    proof {
                        lemma_pends_view_push(remaining@, u);
                        assert(pend_view(u) == pend0[j as int]);
                    }
                    remaining.push(u);
                },
                Some(t) => {
                    let target = *t;
                    match kind {
                        RefKind::AbsByte => {
                            if pos < self.binary.len() {
                                self.binary[pos] = (target % 256) as u8;
                            }
                        },
                        RefKind::AbsWord => {
                            if pos < self.binary.len() && pos + 1 < self.binary.len() {
                                self.binary[pos] = (target % 256) as u8;
                                self.binary[pos + 1] = (target / 256) as u8;
                            }
                        },
                        RefKind::Rel => {
                            // the range test in wide arithmetic, so that any
                            // stored address is safe to compare
                            if (target as u128) + 128 < (addr as u128) + 2 || (target as u128)
                                > (addr as u128) + 129 {
                                return Err(
                                    AssemblerError::ValueOutOfRange(
                                        self.unresolved_refs[j].name.clone(),
                                    ),
                                );
                            }
                            proof {
                                assert(addr + 2 <= target + 128);
                            }
                            let delta: i32 = target as i32 - (addr as i32 + 2);
                            if pos < self.binary.len() {
                                self.binary[pos] = rel_byte(delta);
                            }
                        },
                    }
                },
            }
            proof {
                let cur_rem = pends_view(remaining@);
                assert(spec_patch_from(pend0, j as int, prev_bin, labels0, prev_rem)
                    == spec_patch_from(pend0, j + 1, self.binary@, labels0, cur_rem));
            }
            j = j + 1;
        }
        self.unresolved_refs = remaining;
        if self.unresolved_refs.len() > 0 {
            return Err(AssemblerError::UnknownLabel(self.unresolved_refs[0].name.clone()));
        }
        Ok(())
    }

    /// Assembles a program into its binary: collects the constants, sizes
    /// and places labels, emits the bytes, and patches references, per
    /// [`spec_assemble`] from this assembler's origin.
    ///
    /// One patch pass reaches the fixpoint: every label is bound before
    /// emission starts, so a reference still unresolved after patching
    /// names a label that exists nowhere and can never resolve.
    pub fn assemble(&mut self, ast: &Ast) -> (r: Result<Vec<u8>, AssemblerError>)
        requires
            old(self).origin <= 0xFFFF,
        ensures
            final(self).origin == old(self).origin,
            final(self).verbose == old(self).verbose,
            match (r, spec_assemble(ast.lines@, old(self).origin as int)) {
                (Ok(b), Ok(sb)) => b@ == sb && final(self).binary@ == sb,
                (Err(e), Err(ev)) => err_view(e) == ev,
                _ => false,
            },
    {
        self.constants = ast.constants();
        self.line_number = 0;
        self.binary = Vec::new();
        self.unresolved_refs = Vec::new();
        match self.resolve_labels(ast) {
            Err(e) => {
                return Err(e);
            },
            Ok(()) => {},
        }
        match self.generate_code(ast) {
            Err(e) => {
                return Err(e);
            },
            Ok(()) => {},
        }
        match self.resolve_references() {
            Err(e) => {
                return Err(e);
            },
            Ok(()) => {},
        }
        let mut out: Vec<u8> = Vec::new();
        push_all(&mut out, &self.binary);
        Ok(out)
    }
}

/// Whether every character of `s` fits in one byte.
fn text_fits(s: &String) -> (r: bool)
    ensures
        r == spec_text_fits(s@),
{
    let st = s.as_str();
    let len = st.unicode_len();
    let mut k: usize = 0;
    while k < len
        invariant
            k <= len,
            len == s@.len(),
            st@ == s@,
            forall|m: int| 0 <= m < k ==> (#[trigger] s@[m] as u32) <= 0xFF,
        decreases len - k,
    {
        let c = st.get_char(k);
        if c as u32 > 0xFF {
            proof {
                assert(s@[k as int] as u32 > 0xFF);
            }
            return false;
        }
        k = k + 1;
    }
    true
}

/// Appends the bytes of a text payload to `dst`.
fn push_text(dst: &mut Vec<u8>, s: &String)
    requires
        spec_text_fits(s@),
    ensures
        final(dst)@ == old(dst)@ + spec_text_bytes(s@),
{
    let st = s.as_str();
    let len = st.unicode_len();
    let mut k: usize = 0;
    while k < len
        invariant
            k <= len,
            len == s@.len(),
            st@ == s@,
            spec_text_fits(s@),
            dst@ == old(dst)@ + spec_text_bytes(s@).take(k as int),
        decreases len - k,
    {
        proof {
            assert(spec_text_bytes(s@).take(k + 1).drop_last() =~= spec_text_bytes(s@).take(
                k as int,
            ));
        }
        let c = st.get_char(k);
        dst.push(c as u8);
        proof {
            assert(dst@ =~= old(dst)@ + spec_text_bytes(s@).take(k + 1));
        }
        k = k + 1;
    }
    proof {
        assert(spec_text_bytes(s@).take(s@.len() as int) =~= spec_text_bytes(s@));
    }
}

/// Appends all of `src` to `dst`.
fn push_all(dst: &mut Vec<u8>, src: &Vec<u8>)
    ensures
        final(dst)@ == old(dst)@ + src@,
{
    let mut k: usize = 0;
    while k < src.len()
        invariant
            k <= src@.len(),
            dst@ == old(dst)@ + src@.take(k as int),
        decreases src@.len() - k,
    {
        proof {
            assert(src@.take(k + 1).drop_last() =~= src@.take(k as int));
        }
        dst.push(src[k]);
        proof {
            assert(dst@ =~= old(dst)@ + src@.take(k + 1));
        }
        k = k + 1;
    }
    proof {
        assert(src@.take(src@.len() as int) =~= src@);
        assert(dst@ =~= old(dst)@ + src@);
    }
}

/// Assembles a program with a fresh assembler at the default origin
/// `$1000`.
pub fn assemble(ast: &Ast) -> (r: Result<Vec<u8>, AssemblerError>)
    ensures
        match (r, spec_assemble(ast.lines@, 0x1000)) {
            (Ok(b), Ok(sb)) => b@ == sb,
            (Err(e), Err(ev)) => err_view(e) == ev,
            _ => false,
        },
{
    let mut assembler = Assembler::new();
    assembler.assemble(ast)
}

} // verus!
