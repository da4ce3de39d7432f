//! The intermediate representation of an assembly program.
//!
//! A program is an ordered sequence of [`Line`]s.  Each line holds an
//! optional [`Label`], an optional [`Instruction`] (a machine operation or a
//! directive), and an optional [`Comment`].  Operands carry a structured
//! expression tree ([`Expr`]) whose literals keep their source text; their
//! numeric value is given by the evaluator.

use vstd::prelude::*;
use vstd::string::StringExecFns;
use vstd::string::StrSliceExecFns;

verus! {

/// The 6502 instruction mnemonics: the documented set, eight "illegal"
/// instructions (SLO, RLA, SRE, RRA, SAX, LAX, DCP, ISC) and the synthetic
/// HCF — 64 in all.
#[derive(Debug, Clone, Copy, PartialEq, Eq, Structural, Hash)]
pub enum Opcode {
    LDA, LDX, LDY, STA, STX, STY,
    TAX, TAY, TSX, TXA, TXS, TYA,
    PHA, PHP, PLA, PLP,
    AND, EOR, ORA, BIT,
    ADC, SBC, CMP, CPX, CPY,
    INC, INX, INY, DEC, DEX, DEY,
    ASL, LSR, ROL, ROR,
    JMP, JSR, RTS, RTI,
    BCC, BCS, BEQ, BMI, BNE, BPL, BVC, BVS,
    CLC, CLD, CLI, CLV, SEC, SED, SEI,
    NOP,
    SLO, RLA, SRE, RRA, SAX, LAX, DCP, ISC,
    HCF,
}

/// The thirteen 6502 addressing modes.
#[derive(Debug, Clone, Copy, PartialEq, Eq, Structural, Hash)]
pub enum AddressingMode {
    Implied,
    Accumulator,
    Immediate,
    ZeroPage,
    ZeroPageX,
    ZeroPageY,
    Absolute,
    AbsoluteX,
    AbsoluteY,
    Indirect,
    IndexedIndirect,
    IndirectIndexed,
    Relative,
}

/// Uppercases an ASCII letter; leaves every other character alone.
pub open spec fn spec_upper(c: char) -> char {
    if 'a' <= c && c <= 'z' {
        ((c as u8) - 32) as char
    } else {
        c
    }
}

/// Exec twin of [`spec_upper`].
pub fn upper(c: char) -> (r: char)
    ensures
        r == spec_upper(c),
{
    if 'a' <= c && c <= 'z' {
        ((c as u8) - 32) as char
    } else {
        c
    }
}

/// The mnemonic table: three uppercase letters name an opcode.
pub open spec fn spec_opcode3(a: char, b: char, c: char) -> Option<Opcode> {
    match (a, b, c) {
        ('L', 'D', 'A') => Some(Opcode::LDA),
        ('L', 'D', 'X') => Some(Opcode::LDX),
        ('L', 'D', 'Y') => Some(Opcode::LDY),
        ('S', 'T', 'A') => Some(Opcode::STA),
        ('S', 'T', 'X') => Some(Opcode::STX),
        ('S', 'T', 'Y') => Some(Opcode::STY),
        ('T', 'A', 'X') => Some(Opcode::TAX),
        ('T', 'A', 'Y') => Some(Opcode::TAY),
        ('T', 'S', 'X') => Some(Opcode::TSX),
        ('T', 'X', 'A') => Some(Opcode::TXA),
        ('T', 'X', 'S') => Some(Opcode::TXS),
        ('T', 'Y', 'A') => Some(Opcode::TYA),
        ('P', 'H', 'A') => Some(Opcode::PHA),
        ('P', 'H', 'P') => Some(Opcode::PHP),
        ('P', 'L', 'A') => Some(Opcode::PLA),
        ('P', 'L', 'P') => Some(Opcode::PLP),
        ('A', 'N', 'D') => Some(Opcode::AND),
        ('E', 'O', 'R') => Some(Opcode::EOR),
        ('O', 'R', 'A') => Some(Opcode::ORA),
        ('B', 'I', 'T') => Some(Opcode::BIT),
        ('A', 'D', 'C') => Some(Opcode::ADC),
        ('S', 'B', 'C') => Some(Opcode::SBC),
        ('C', 'M', 'P') => Some(Opcode::CMP),
        ('C', 'P', 'X') => Some(Opcode::CPX),
        ('C', 'P', 'Y') => Some(Opcode::CPY),
        ('I', 'N', 'C') => Some(Opcode::INC),
        ('I', 'N', 'X') => Some(Opcode::INX),
        ('I', 'N', 'Y') => Some(Opcode::INY),
        ('D', 'E', 'C') => Some(Opcode::DEC),
        ('D', 'E', 'X') => Some(Opcode::DEX),
        ('D', 'E', 'Y') => Some(Opcode::DEY),
        ('A', 'S', 'L') => Some(Opcode::ASL),
        ('L', 'S', 'R') => Some(Opcode::LSR),
        ('R', 'O', 'L') => Some(Opcode::ROL),
        ('R', 'O', 'R') => Some(Opcode::ROR),
        ('J', 'M', 'P') => Some(Opcode::JMP),
        ('J', 'S', 'R') => Some(Opcode::JSR),
        ('R', 'T', 'S') => Some(Opcode::RTS),
        ('R', 'T', 'I') => Some(Opcode::RTI),
        ('B', 'C', 'C') => Some(Opcode::BCC),
        ('B', 'C', 'S') => Some(Opcode::BCS),
        ('B', 'E', 'Q') => Some(Opcode::BEQ),
        ('B', 'M', 'I') => Some(Opcode::BMI),
        ('B', 'N', 'E') => Some(Opcode::BNE),
        ('B', 'P', 'L') => Some(Opcode::BPL),
        ('B', 'V', 'C') => Some(Opcode::BVC),
        ('B', 'V', 'S') => Some(Opcode::BVS),
        ('C', 'L', 'C') => Some(Opcode::CLC),
        ('C', 'L', 'D') => Some(Opcode::CLD),
        ('C', 'L', 'I') => Some(Opcode::CLI),
        ('C', 'L', 'V') => Some(Opcode::CLV),
        ('S', 'E', 'C') => Some(Opcode::SEC),
        ('S', 'E', 'D') => Some(Opcode::SED),
        ('S', 'E', 'I') => Some(Opcode::SEI),
        ('N', 'O', 'P') => Some(Opcode::NOP),
        ('S', 'L', 'O') => Some(Opcode::SLO),
        ('R', 'L', 'A') => Some(Opcode::RLA),
        ('S', 'R', 'E') => Some(Opcode::SRE),
        ('R', 'R', 'A') => Some(Opcode::RRA),
        ('S', 'A', 'X') => Some(Opcode::SAX),
        ('L', 'A', 'X') => Some(Opcode::LAX),
        ('D', 'C', 'P') => Some(Opcode::DCP),
        ('I', 'S', 'C') => Some(Opcode::ISC),
        ('H', 'C', 'F') => Some(Opcode::HCF),
        _ => None,
    }
}

/// The opcode named by a mnemonic, read case-insensitively.
pub open spec fn spec_opcode_of(s: Seq<char>) -> Option<Opcode> {
    if s.len() == 3 {
        spec_opcode3(spec_upper(s[0]), spec_upper(s[1]), spec_upper(s[2]))
    } else {
        None
    }
}

impl Opcode {
    /// Parses a mnemonic, case-insensitively.  An unknown mnemonic is
    /// returned unchanged as the error.
    pub fn from_str(s: &str) -> (r: Result<Opcode, String>)
        ensures
            match r {
                Ok(op) => spec_opcode_of(s@) == Some(op),
                Err(m) => spec_opcode_of(s@) is None && m@ == s@,
            },
    {
        if s.unicode_len() != 3 {
            return Err(String::from_str(s));
        }
        let a = upper(s.get_char(0));
        let b = upper(s.get_char(1));
        let c = upper(s.get_char(2));
        match (a, b, c) {
            ('L', 'D', 'A') => Ok(Opcode::LDA),
            ('L', 'D', 'X') => Ok(Opcode::LDX),
            ('L', 'D', 'Y') => Ok(Opcode::LDY),
            ('S', 'T', 'A') => Ok(Opcode::STA),
            ('S', 'T', 'X') => Ok(Opcode::STX),
            ('S', 'T', 'Y') => Ok(Opcode::STY),
            ('T', 'A', 'X') => Ok(Opcode::TAX),
            ('T', 'A', 'Y') => Ok(Opcode::TAY),
            ('T', 'S', 'X') => Ok(Opcode::TSX),
            ('T', 'X', 'A') => Ok(Opcode::TXA),
            ('T', 'X', 'S') => Ok(Opcode::TXS),
            ('T', 'Y', 'A') => Ok(Opcode::TYA),
            ('P', 'H', 'A') => Ok(Opcode::PHA),
            ('P', 'H', 'P') => Ok(Opcode::PHP),
            ('P', 'L', 'A') => Ok(Opcode::PLA),
            ('P', 'L', 'P') => Ok(Opcode::PLP),
            ('A', 'N', 'D') => Ok(Opcode::AND),
            ('E', 'O', 'R') => Ok(Opcode::EOR),
            ('O', 'R', 'A') => Ok(Opcode::ORA),
            ('B', 'I', 'T') => Ok(Opcode::BIT),
            ('A', 'D', 'C') => Ok(Opcode::ADC),
            ('S', 'B', 'C') => Ok(Opcode::SBC),
            ('C', 'M', 'P') => Ok(Opcode::CMP),
            ('C', 'P', 'X') => Ok(Opcode::CPX),
            ('C', 'P', 'Y') => Ok(Opcode::CPY),
            ('I', 'N', 'C') => Ok(Opcode::INC),
            ('I', 'N', 'X') => Ok(Opcode::INX),
            ('I', 'N', 'Y') => Ok(Opcode::INY),
            ('D', 'E', 'C') => Ok(Opcode::DEC),
            ('D', 'E', 'X') => Ok(Opcode::DEX),
            ('D', 'E', 'Y') => Ok(Opcode::DEY),
            ('A', 'S', 'L') => Ok(Opcode::ASL),
            ('L', 'S', 'R') => Ok(Opcode::LSR),
            ('R', 'O', 'L') => Ok(Opcode::ROL),
            ('R', 'O', 'R') => Ok(Opcode::ROR),
            ('J', 'M', 'P') => Ok(Opcode::JMP),
            ('J', 'S', 'R') => Ok(Opcode::JSR),
            ('R', 'T', 'S') => Ok(Opcode::RTS),
            ('R', 'T', 'I') => Ok(Opcode::RTI),
            ('B', 'C', 'C') => Ok(Opcode::BCC),
            ('B', 'C', 'S') => Ok(Opcode::BCS),
            ('B', 'E', 'Q') => Ok(Opcode::BEQ),
            ('B', 'M', 'I') => Ok(Opcode::BMI),
            ('B', 'N', 'E') => Ok(Opcode::BNE),
            ('B', 'P', 'L') => Ok(Opcode::BPL),
            ('B', 'V', 'C') => Ok(Opcode::BVC),
            ('B', 'V', 'S') => Ok(Opcode::BVS),
            ('C', 'L', 'C') => Ok(Opcode::CLC),
            ('C', 'L', 'D') => Ok(Opcode::CLD),
            ('C', 'L', 'I') => Ok(Opcode::CLI),
            ('C', 'L', 'V') => Ok(Opcode::CLV),
            ('S', 'E', 'C') => Ok(Opcode::SEC),
            ('S', 'E', 'D') => Ok(Opcode::SED),
            ('S', 'E', 'I') => Ok(Opcode::SEI),
            ('N', 'O', 'P') => Ok(Opcode::NOP),
            ('S', 'L', 'O') => Ok(Opcode::SLO),
            ('R', 'L', 'A') => Ok(Opcode::RLA),
            ('S', 'R', 'E') => Ok(Opcode::SRE),
            ('R', 'R', 'A') => Ok(Opcode::RRA),
            ('S', 'A', 'X') => Ok(Opcode::SAX),
            ('L', 'A', 'X') => Ok(Opcode::LAX),
            ('D', 'C', 'P') => Ok(Opcode::DCP),
            ('I', 'S', 'C') => Ok(Opcode::ISC),
            ('H', 'C', 'F') => Ok(Opcode::HCF),
            _ => Err(String::from_str(s)),
        }
    }
}

/// A numeric literal, kept as its source text: hexadecimal (`$1F`),
/// binary (`%0101`) or decimal (`42`).
#[derive(Debug, PartialEq, Eq)]
pub enum NumberLiteral {
    HexLiteral(String),
    BinLiteral(String),
    DecLiteral(String),
}

/// A character literal, kept as its source text including the quotes
/// (`'c'`).
#[derive(Debug, PartialEq, Eq)]
pub struct CharLiteral(pub String);

/// A literal expression: a number or a character.
#[derive(Debug, PartialEq, Eq)]
pub enum LiteralExpr {
    NumberLiteral(NumberLiteral),
    CharLiteral(CharLiteral),
}

/// A reference to a named symbol, or the `*` token for the current
/// program counter.
#[derive(Debug, PartialEq, Eq)]
pub enum RefExpr {
    LabelRef(String),
    SymbolRef(String),
    Pc,
}

/// A parenthesized expression.
#[derive(Debug, PartialEq, Eq)]
pub struct ParenExpr(pub Box<Expr>);

/// The low byte of an expression (`<expr`).
#[derive(Debug, PartialEq, Eq)]
pub struct LowerExpr(pub Box<Expr>);

/// The high byte of an expression (`>expr`).
#[derive(Debug, PartialEq, Eq)]
pub struct UpperExpr(pub Box<Expr>);

/// A binary operator, kept as its source text (`+`, `-`, `*` or `/`).
#[derive(Debug, PartialEq, Eq)]
pub struct BinOp(pub String);

/// A binary expression: left operand, operator, right operand.
#[derive(Debug, PartialEq, Eq)]
pub struct BinaryExpr(pub Box<Expr>, pub BinOp, pub Box<Expr>);

/// A non-binary expression.
#[derive(Debug, PartialEq, Eq)]
pub enum LExpr {
    LiteralExpr(LiteralExpr),
    RefExpr(RefExpr),
    ParenExpr(ParenExpr),
    LowerExpr(LowerExpr),
    UpperExpr(UpperExpr),
}

/// An operand expression.
#[derive(Debug, PartialEq, Eq)]
pub enum Expr {
    Binary(BinaryExpr),
    L(LExpr),
}

/// Builds a [`BinaryExpr`] field by field.
#[derive(Debug, Default)]
pub struct BinaryExprBuilder {
    pub lhs: Option<Expr>,
    pub rhs: Option<Expr>,
    pub op: Option<BinOp>,
}

impl BinaryExprBuilder {
    pub fn lhs(self, lhs: Expr) -> (r: Self)
        ensures
            r.lhs == Some(lhs) && r.rhs == self.rhs && r.op == self.op,
    {
        Self { lhs: Some(lhs), rhs: self.rhs, op: self.op }
    }

    pub fn op(self, op: BinOp) -> (r: Self)
        ensures
            r.op == Some(op) && r.lhs == self.lhs && r.rhs == self.rhs,
    {
        Self { lhs: self.lhs, rhs: self.rhs, op: Some(op) }
    }

    pub fn rhs(self, rhs: Expr) -> (r: Self)
        ensures
            r.rhs == Some(rhs) && r.lhs == self.lhs && r.op == self.op,
    {
        Self { lhs: self.lhs, rhs: Some(rhs), op: self.op }
    }

    pub fn build(self) -> (r: BinaryExpr)
        requires
            self.lhs is Some,
            self.op is Some,
            self.rhs is Some,
        ensures
            r == (BinaryExpr(
                Box::new(self.lhs->Some_0),
                self.op->Some_0,
                Box::new(self.rhs->Some_0),
            )),
    {
        match (self.lhs, self.op, self.rhs) {
            (Some(lhs), Some(op), Some(rhs)) => BinaryExpr(Box::new(lhs), op, Box::new(rhs)),
            _ => vstd::pervasive::unreached(),
        }
    }
}

/// A source-level operand: the surface addressing family recorded by the
/// parser (zero-page forms are chosen later, by value) and the expression.
#[derive(Debug, PartialEq, Eq)]
pub struct Operand(pub AddressingMode, pub Expr);

/// Builds an [`Operand`] field by field.
#[derive(Debug, Default)]
pub struct OperandBuilder {
    pub addrmode: Option<AddressingMode>,
    pub expr: Option<Expr>,
}

impl OperandBuilder {
    pub fn addressing_mode(self, addrmode: AddressingMode) -> (r: Self)
        ensures
            r.addrmode == Some(addrmode) && r.expr == self.expr,
    {
        Self { addrmode: Some(addrmode), expr: self.expr }
    }

    pub fn expr(self, expr: Expr) -> (r: Self)
        ensures
            r.expr == Some(expr) && r.addrmode == self.addrmode,
    {
        Self { addrmode: self.addrmode, expr: Some(expr) }
    }

    pub fn build(self) -> (r: Operand)
        requires
            self.addrmode is Some,
            self.expr is Some,
        ensures
            r == (Operand(self.addrmode->Some_0, self.expr->Some_0)),
    {
        match (self.addrmode, self.expr) {
            (Some(m), Some(e)) => Operand(m, e),
            _ => vstd::pervasive::unreached(),
        }
    }
}

/// A machine operation: an opcode and its optional operand.
#[derive(Debug, PartialEq, Eq)]
pub struct Op(pub Opcode, pub Option<Operand>);

/// Builds an [`Op`] field by field.
#[derive(Debug, Default)]
pub struct OpBuilder {
    pub opcode: Option<Opcode>,
    pub operand: Option<Operand>,
}

impl OpBuilder {
    pub fn opcode(self, opcode: Opcode) -> (r: Self)
        ensures
            r.opcode == Some(opcode) && r.operand == self.operand,
    {
        Self { opcode: Some(opcode), operand: self.operand }
    }

    pub fn operand(self, operand: Operand) -> (r: Self)
        ensures
            r.operand == Some(operand) && r.opcode == self.opcode,
    {
        Self { opcode: self.opcode, operand: Some(operand) }
    }

    pub fn build(self) -> (r: Op)
        requires
            self.opcode is Some,
        ensures
            r == (Op(self.opcode->Some_0, self.operand)),
    {
        match self.opcode {
            Some(op) => Op(op, self.operand),
            None => vstd::pervasive::unreached(),
        }
    }
}

/// An assembler directive with structured arguments.  `.byte`/`.db` with a
/// quoted string argument and `.text`/`.ascii` both emit the raw ASCII
/// bytes of the string and are represented as `Text`.  A directive the
/// grammar does not know keeps its name and raw argument in `Unknown`.
#[derive(Debug, PartialEq, Eq)]
pub enum Directive {
    Org(Expr),
    Const(String, Expr),
    Byte(Vec<Expr>),
    Word(Vec<Expr>),
    Text(String),
    Unknown(String, Option<String>),
}

/// A line body: either a machine operation or a directive.
#[derive(Debug, PartialEq, Eq)]
pub enum Instruction {
    Directive(Directive),
    Op(Op),
}

impl Instruction {
    /// Wraps an opcode and operand as an instruction line body.
    pub fn new(opcode: Opcode, operand: Option<Operand>) -> (r: Instruction)
        ensures
            r == (Instruction::Op(Op(opcode, operand))),
    {
        Instruction::Op(Op(opcode, operand))
    }
}

/// A label definition.  Its address is assigned by the resolver and is
/// `None` until then.
#[derive(Debug, PartialEq, Eq)]
pub struct Label {
    pub name: String,
    pub position: Option<usize>,
}

impl Label {
    pub fn new(name: &str) -> (r: Label)
        ensures
            r.name@ == name@ && r.position is None,
    {
        Label { name: String::from_str(name), position: None }
    }

    pub fn with_position(name: &str, position: usize) -> (r: Label)
        ensures
            r.name@ == name@ && r.position == Some(position),
    {
        Label { name: String::from_str(name), position: Some(position) }
    }
}

/// A line comment, kept with its leading `;`.
#[derive(Debug, PartialEq, Eq)]
pub struct Comment(pub String);

/// One source line: an optional label, an optional instruction or
/// directive, and an optional comment.
#[derive(Debug, PartialEq, Eq)]
pub struct Line(pub Option<Label>, pub Option<Instruction>, pub Option<Comment>);

impl Line {
    pub fn label(&self) -> (r: &Option<Label>)
        ensures
            *r == self.0,
    {
        &self.0
    }

    pub fn instruction(&self) -> (r: &Option<Instruction>)
        ensures
            *r == self.1,
    {
        &self.1
    }

    pub fn comment(&self) -> (r: &Option<Comment>)
        ensures
            *r == self.2,
    {
        &self.2
    }
}

/// Builds a [`Line`] field by field.
#[derive(Debug, Default)]
pub struct LineBuilder {
    pub label: Option<Label>,
    pub instruction: Option<Instruction>,
    pub comment: Option<Comment>,
}

impl LineBuilder {
    pub fn label(self, label: Label) -> (r: Self)
        ensures
            r.label == Some(label) && r.instruction == self.instruction && r.comment
                == self.comment,
    {
        Self { label: Some(label), instruction: self.instruction, comment: self.comment }
    }

    pub fn instruction(self, instruction: Instruction) -> (r: Self)
        ensures
            r.instruction == Some(instruction) && r.label == self.label && r.comment
                == self.comment,
    {
        Self { label: self.label, instruction: Some(instruction), comment: self.comment }
    }

    pub fn comment(self, comment: Comment) -> (r: Self)
        ensures
            r.comment == Some(comment) && r.label == self.label && r.instruction
                == self.instruction,
    {
        Self { label: self.label, instruction: self.instruction, comment: Some(comment) }
    }

    pub fn build(self) -> (r: Line)
        ensures
            r == (Line(self.label, self.instruction, self.comment)),
    {
        Line(self.label, self.instruction, self.comment)
    }
}

/// The ops among a sequence of lines, in order.
pub open spec fn spec_ops_of(lines: Seq<Line>) -> Seq<Op>
    decreases lines.len(),
{
    if lines.len() == 0 {
        Seq::empty()
    } else {
        let rest = spec_ops_of(lines.drop_last());
        match lines.last().1 {
            Some(Instruction::Op(op)) => rest.push(op),
            _ => rest,
        }
    }
}

/// The label definitions among a sequence of lines, in order.
pub open spec fn spec_labels_of(lines: Seq<Line>) -> Seq<Label>
    decreases lines.len(),
{
    if lines.len() == 0 {
        Seq::empty()
    } else {
        let rest = spec_labels_of(lines.drop_last());
        match lines.last().0 {
            Some(lab) => rest.push(lab),
            None => rest,
        }
    }
}

/// The directives among a sequence of lines, in order.
pub open spec fn spec_directives_of(lines: Seq<Line>) -> Seq<Directive>
    decreases lines.len(),
{
    if lines.len() == 0 {
        Seq::empty()
    } else {
        let rest = spec_directives_of(lines.drop_last());
        match lines.last().1 {
            Some(Instruction::Directive(d)) => rest.push(d),
            _ => rest,
        }
    }
}

/// The constant bindings among a sequence of lines, in order.
pub open spec fn spec_constants_of(lines: Seq<Line>) -> Seq<(String, Expr)>
    decreases lines.len(),
{
    if lines.len() == 0 {
        Seq::empty()
    } else {
        let rest = spec_constants_of(lines.drop_last());
        match lines.last().1 {
            Some(Instruction::Directive(Directive::Const(name, e))) => rest.push((name, e)),
            _ => rest,
        }
    }
}

/// A complete program: an ordered list of lines.
#[derive(Debug, PartialEq, Eq)]
pub struct Ast {
    pub lines: Vec<Line>,
}

impl Ast {
    pub fn new() -> (r: Ast)
        ensures
            r.lines@ =~= Seq::<Line>::empty(),
    {
        Ast { lines: Vec::new() }
    }

    /// Appends a line, by value, and hands the program back.
    pub fn add_line(self, line: Line) -> (r: Ast)
        ensures
            r.lines@ == self.lines@.push(line),
    {
        let mut lines = self.lines;
        lines.push(line);
        Ast { lines }
    }

    /// Appends a line holding only the given instruction.
    pub fn add_instruction(&mut self, instruction: Instruction)
        ensures
            final(self).lines@ == old(self).lines@.push(Line(None, Some(instruction), None)),
    {
        self.lines.push(Line(None, Some(instruction), None));
    }

    /// Appends a line holding only the given label definition.
    pub fn add_label(&mut self, label: Label)
        ensures
            final(self).lines@ == old(self).lines@.push(Line(Some(label), None, None)),
    {
        self.lines.push(Line(Some(label), None, None));
    }

    /// Appends a `.const` binding as a directive line.
    pub fn add_constant(&mut self, name: String, value: Expr)
        ensures
            final(self).lines@ == old(self).lines@.push(
                Line(None, Some(Instruction::Directive(Directive::Const(name, value))), None),
            ),
    {
        self.lines.push(
            Line(None, Some(Instruction::Directive(Directive::Const(name, value))), None),
        );
    }

    /// Appends a line holding only the given directive.
    pub fn add_directive(&mut self, directive: Directive)
        ensures
            final(self).lines@ == old(self).lines@.push(
                Line(None, Some(Instruction::Directive(directive)), None),
            ),
    {
        self.lines.push(Line(None, Some(Instruction::Directive(directive)), None));
    }

    /// The machine operations of the program, in source order.
    pub fn instructions(&self) -> (r: Vec<Op>)
        ensures
            r@ == spec_ops_of(self.lines@),
    {
        let mut r: Vec<Op> = Vec::new();
        let mut i: usize = 0;
        while i < self.lines.len()
            invariant
                i <= self.lines@.len(),
                r@ == spec_ops_of(self.lines@.take(i as int)),
            decreases self.lines@.len() - i,
        {
            proof {
                assert(self.lines@.take(i + 1).drop_last() =~= self.lines@.take(i as int));
            }
            match &self.lines[i].1 {
                Some(Instruction::Op(op)) => r.push(op.clone()),
                _ => {},
            }
            i = i + 1;
        }
        proof {
            assert(self.lines@.take(self.lines@.len() as int) =~= self.lines@);
        }
        r
    }

    /// The label definitions of the program, in source order.
    pub fn labels(&self) -> (r: Vec<Label>)
        ensures
            r@ == spec_labels_of(self.lines@),
    {
        let mut r: Vec<Label> = Vec::new();
        let mut i: usize = 0;
        while i < self.lines.len()
            invariant
                i <= self.lines@.len(),
                r@ == spec_labels_of(self.lines@.take(i as int)),
            decreases self.lines@.len() - i,
        {
            proof {
                assert(self.lines@.take(i + 1).drop_last() =~= self.lines@.take(i as int));
            }
            match &self.lines[i].0 {
                Some(lab) => r.push(lab.clone()),
                None => {},
            }
            i = i + 1;
        }
        proof {
            assert(self.lines@.take(self.lines@.len() as int) =~= self.lines@);
        }
        r
    }

    /// The constant bindings of the program, in source order.
    pub fn constants(&self) -> (r: Vec<(String, Expr)>)
        ensures
            r@ == spec_constants_of(self.lines@),
    {
        let mut r: Vec<(String, Expr)> = Vec::new();
        let mut i: usize = 0;
        while i < self.lines.len()
            invariant
                i <= self.lines@.len(),
                r@ == spec_constants_of(self.lines@.take(i as int)),
            decreases self.lines@.len() - i,
        {
            proof {
                assert(self.lines@.take(i + 1).drop_last() =~= self.lines@.take(i as int));
            }
            match &self.lines[i].1 {
                Some(Instruction::Directive(Directive::Const(name, e))) => {
                    r.push((name.clone(), e.clone()));
                },
                _ => {},
            }
            i = i + 1;
        }
        proof {
            assert(self.lines@.take(self.lines@.len() as int) =~= self.lines@);
        }
        r
    }

    /// The directives of the program, in source order, element for
    /// element interchangeable (equal views) with [`spec_directives_of`].
    pub fn directives(&self) -> (r: Vec<Directive>)
        ensures
            r@.len() == spec_directives_of(self.lines@).len(),
            forall|i: int|
                0 <= i < r@.len() ==> dir_view(#[trigger] r@[i]) == dir_view(
                    spec_directives_of(self.lines@)[i],
                ),
    {
        let mut r: Vec<Directive> = Vec::new();
        let mut i: usize = 0;
        while i < self.lines.len()
            invariant
                i <= self.lines@.len(),
                r@.len() == spec_directives_of(self.lines@.take(i as int)).len(),
                forall|j: int|
                    0 <= j < r@.len() ==> dir_view(#[trigger] r@[j]) == dir_view(
                        spec_directives_of(self.lines@.take(i as int))[j],
                    ),
            decreases self.lines@.len() - i,
        {
            proof {
                assert(self.lines@.take(i + 1).drop_last() =~= self.lines@.take(i as int));
            }
            match &self.lines[i].1 {
                Some(Instruction::Directive(d)) => r.push(d.clone()),
                _ => {},
            }
            i = i + 1;
        }
        proof {
            assert(self.lines@.take(self.lines@.len() as int) =~= self.lines@);
        }
        r
    }
}



/// Spec-level image of a [`Directive`], with `Seq` in place of `Vec`.
/// Two directives with equal views are interchangeable for assembly:
/// every spec function of this crate reads a directive only through its
/// view.
pub enum DirectiveView {
    Org(Expr),
    Const(String, Expr),
    Byte(Seq<Expr>),
    Word(Seq<Expr>),
    Text(String),
    Unknown(String, Option<String>),
}

pub open spec fn dir_view(d: Directive) -> DirectiveView {
    match d {
        Directive::Org(e) => DirectiveView::Org(e),
        Directive::Const(n, e) => DirectiveView::Const(n, e),
        Directive::Byte(v) => DirectiveView::Byte(v@),
        Directive::Word(v) => DirectiveView::Word(v@),
        Directive::Text(s) => DirectiveView::Text(s),
        Directive::Unknown(n, a) => DirectiveView::Unknown(n, a),
    }
}

/// Spec-level image of an [`Instruction`].
pub enum InstructionView {
    Directive(DirectiveView),
    Op(Op),
}

pub open spec fn instr_view(i: Instruction) -> InstructionView {
    match i {
        Instruction::Directive(d) => InstructionView::Directive(dir_view(d)),
        Instruction::Op(op) => InstructionView::Op(op),
    }
}

/// Spec-level image of a [`Line`].
pub struct LineView {
    pub label: Option<Label>,
    pub instruction: Option<InstructionView>,
    pub comment: Option<Comment>,
}

pub open spec fn line_view(l: Line) -> LineView {
    LineView {
        label: l.0,
        instruction: match l.1 {
            Some(i) => Some(instr_view(i)),
            None => None,
        },
        comment: l.2,
    }
}

/// Deep copy of an expression tree; the copy equals the original.
pub fn clone_expr(e: &Expr) -> (r: Expr)
    ensures
        r == *e,
    decreases e,
{
    match e {
        Expr::Binary(b) => Expr::Binary(
            BinaryExpr(
                Box::new(clone_expr(&*b.0)),
                BinOp((b.1).0.clone()),
                Box::new(clone_expr(&*b.2)),
            ),
        ),
        Expr::L(l) => Expr::L(clone_lexpr(l)),
    }
}

/// Deep copy of a non-binary expression; the copy equals the original.
pub fn clone_lexpr(l: &LExpr) -> (r: LExpr)
    ensures
        r == *l,
    decreases l,
{
    match l {
        LExpr::LiteralExpr(lit) => LExpr::LiteralExpr(
            match lit {
                LiteralExpr::NumberLiteral(n) => LiteralExpr::NumberLiteral(
                    match n {
                        NumberLiteral::HexLiteral(s) => NumberLiteral::HexLiteral(s.clone()),
                        NumberLiteral::BinLiteral(s) => NumberLiteral::BinLiteral(s.clone()),
                        NumberLiteral::DecLiteral(s) => NumberLiteral::DecLiteral(s.clone()),
                    },
                ),
                LiteralExpr::CharLiteral(c) => LiteralExpr::CharLiteral(CharLiteral(c.0.clone())),
            },
        ),
        LExpr::RefExpr(r) => LExpr::RefExpr(
            match r {
                RefExpr::LabelRef(s) => RefExpr::LabelRef(s.clone()),
                RefExpr::SymbolRef(s) => RefExpr::SymbolRef(s.clone()),
                RefExpr::Pc => RefExpr::Pc,
            },
        ),
        LExpr::ParenExpr(p) => LExpr::ParenExpr(ParenExpr(Box::new(clone_expr(&*p.0)))),
        LExpr::LowerExpr(p) => LExpr::LowerExpr(LowerExpr(Box::new(clone_expr(&*p.0)))),
        LExpr::UpperExpr(p) => LExpr::UpperExpr(UpperExpr(Box::new(clone_expr(&*p.0)))),
    }
}

/// Deep copy of an expression list; the copy equals the original.
pub fn clone_exprs(v: &Vec<Expr>) -> (r: Vec<Expr>)
    ensures
        r@ == v@,
{
    let mut r: Vec<Expr> = Vec::new();
    let mut i: usize = 0;
    while i < v.len()
        invariant
            i <= v@.len(),
            r@ =~= v@.take(i as int),
        decreases v@.len() - i,
    {
        r.push(clone_expr(&v[i]));
        i = i + 1;
    }
    proof {
        assert(v@.take(v@.len() as int) =~= v@);
    }
    r
}

impl Clone for NumberLiteral {
    fn clone(&self) -> (r: Self)
        ensures
            r == *self,
    {
        match self {
            NumberLiteral::HexLiteral(s) => NumberLiteral::HexLiteral(s.clone()),
            NumberLiteral::BinLiteral(s) => NumberLiteral::BinLiteral(s.clone()),
            NumberLiteral::DecLiteral(s) => NumberLiteral::DecLiteral(s.clone()),
        }
    }
}

impl Clone for CharLiteral {
    fn clone(&self) -> (r: Self)
        ensures
            r == *self,
    {
        CharLiteral(self.0.clone())
    }
}

impl Clone for LiteralExpr {
    fn clone(&self) -> (r: Self)
        ensures
            r == *self,
    {
        match self {
            LiteralExpr::NumberLiteral(n) => LiteralExpr::NumberLiteral(n.clone()),
            LiteralExpr::CharLiteral(c) => LiteralExpr::CharLiteral(c.clone()),
        }
    }
}

impl Clone for RefExpr {
    fn clone(&self) -> (r: Self)
        ensures
            r == *self,
    {
        match self {
            RefExpr::LabelRef(s) => RefExpr::LabelRef(s.clone()),
            RefExpr::SymbolRef(s) => RefExpr::SymbolRef(s.clone()),
            RefExpr::Pc => RefExpr::Pc,
        }
    }
}

impl Clone for BinOp {
    fn clone(&self) -> (r: Self)
        ensures
            r == *self,
    {
        BinOp(self.0.clone())
    }
}

impl Clone for Expr {
    fn clone(&self) -> (r: Self)
        ensures
            r == *self,
    {
        clone_expr(self)
    }
}

impl Clone for LExpr {
    fn clone(&self) -> (r: Self)
        ensures
            r == *self,
    {
        clone_lexpr(self)
    }
}

impl Clone for BinaryExpr {
    fn clone(&self) -> (r: Self)
        ensures
            r == *self,
    {
        BinaryExpr(
            Box::new(clone_expr(&*self.0)),
            (self.1).clone(),
            Box::new(clone_expr(&*self.2)),
        )
    }
}

impl Clone for ParenExpr {
    fn clone(&self) -> (r: Self)
        ensures
            r == *self,
    {
        ParenExpr(Box::new(clone_expr(&*self.0)))
    }
}

impl Clone for LowerExpr {
    fn clone(&self) -> (r: Self)
        ensures
            r == *self,
    {
        LowerExpr(Box::new(clone_expr(&*self.0)))
    }
}

impl Clone for UpperExpr {
    fn clone(&self) -> (r: Self)
        ensures
            r == *self,
    {
        UpperExpr(Box::new(clone_expr(&*self.0)))
    }
}

impl Clone for Operand {
    fn clone(&self) -> (r: Self)
        ensures
            r == *self,
    {
        Operand(self.0, clone_expr(&self.1))
    }
}

impl Clone for Op {
    fn clone(&self) -> (r: Self)
        ensures
            r == *self,
    {
        Op(
            self.0,
            match &self.1 {
                Some(o) => Some(o.clone()),
                None => None,
            },
        )
    }
}

impl Clone for Directive {
    fn clone(&self) -> (r: Self)
        ensures
            dir_view(r) == dir_view(*self),
    {
        match self {
            Directive::Org(e) => Directive::Org(clone_expr(e)),
            Directive::Const(n, e) => Directive::Const(n.clone(), clone_expr(e)),
            Directive::Byte(v) => Directive::Byte(clone_exprs(v)),
            Directive::Word(v) => Directive::Word(clone_exprs(v)),
            Directive::Text(s) => Directive::Text(s.clone()),
            Directive::Unknown(n, a) => Directive::Unknown(
                n.clone(),
                match a {
                    Some(s) => Some(s.clone()),
                    None => None,
                },
            ),
        }
    }
}

impl Clone for Instruction {
    fn clone(&self) -> (r: Self)
        ensures
            instr_view(r) == instr_view(*self),
    {
        match self {
            Instruction::Directive(d) => Instruction::Directive(d.clone()),
            Instruction::Op(op) => Instruction::Op(op.clone()),
        }
    }
}

impl Clone for Label {
    fn clone(&self) -> (r: Self)
        ensures
            r == *self,
    {
        Label { name: self.name.clone(), position: self.position }
    }
}

impl Clone for Comment {
    fn clone(&self) -> (r: Self)
        ensures
            r == *self,
    {
        Comment(self.0.clone())
    }
}

impl Clone for Line {
    fn clone(&self) -> (r: Self)
        ensures
            line_view(r) == line_view(*self),
    {
        Line(
            match &self.0 {
                Some(l) => Some(l.clone()),
                None => None,
            },
            match &self.1 {
                Some(i) => Some(i.clone()),
                None => None,
            },
            match &self.2 {
                Some(c) => Some(c.clone()),
                None => None,
            },
        )
    }
}

impl Clone for Ast {
    fn clone(&self) -> (r: Self)
        ensures
            r.lines@.len() == self.lines@.len(),
            forall|i: int|
                0 <= i < self.lines@.len() ==> line_view(#[trigger] r.lines@[i]) == line_view(
                    self.lines@[i],
                ),
    {
        let mut lines: Vec<Line> = Vec::new();
        let mut i: usize = 0;
        while i < self.lines.len()
            invariant
                i <= self.lines@.len(),
                lines@.len() == i,
                forall|j: int|
                    0 <= j < i ==> line_view(#[trigger] lines@[j]) == line_view(self.lines@[j]),
            decreases self.lines@.len() - i,
        {
            lines.push(self.lines[i].clone());
            i = i + 1;
        }
        Ast { lines }
    }
}

} // verus!
