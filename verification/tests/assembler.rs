use rusm::assembler::{assemble, Assembler, AssemblerError};
use rusm::ast::{
    AddressingMode, Expr, LExpr, LiteralExpr, NumberLiteral, Op, Opcode, Operand, RefExpr,
};
use rusm::encode::{encode_op, mnemonic, RefKind};
use rusm::eval::{eval_expr, EvalOutcome};
use rusm::opcodes::{build_opcode_table, lookup_opcode_entry, mode_size, OpcodeEntry};
use rusm::parser::from_source;

fn assemble_source(src: &str) -> Result<Vec<u8>, AssemblerError> {
    let ast = from_source(src).expect("source should parse");
    assemble(&ast)
}

#[test]
fn jmp_to_label_at_origin() {
    let bytes = assemble_source(".org $8000\nstart:\n jmp start\n").unwrap();
    assert_eq!(bytes, vec![0x4C, 0x00, 0x80]);
}

#[test]
fn immediate_load() {
    let bytes = assemble_source(".org $1000\n lda #$41\n").unwrap();
    assert_eq!(bytes, vec![0xA9, 0x41]);
}

#[test]
fn forward_branch_is_patched() {
    let bytes = assemble_source(".org $1000\n bne skip\n nop\nskip: rts\n").unwrap();
    assert_eq!(bytes, vec![0xD0, 0x01, 0xEA, 0x60]);
}

#[test]
fn constant_substitution() {
    let bytes = assemble_source(".const FG 7\n .org $1000\n lda #FG\n").unwrap();
    assert_eq!(bytes, vec![0xA9, 0x07]);
}

#[test]
fn byte_and_word_data() {
    let bytes = assemble_source(".org $1000\n .byte 1,2,3\n .word $ABCD\n").unwrap();
    assert_eq!(bytes, vec![0x01, 0x02, 0x03, 0xCD, 0xAB]);
}

#[test]
fn unknown_label_is_reported() {
    let err = assemble_source(".org $1000\nloop: bne loop2\n .byte 0").unwrap_err();
    assert!(matches!(err, AssemblerError::UnknownLabel(ref n) if n == "loop2"));
}

#[test]
fn duplicate_label_is_reported() {
    let err = assemble_source("foo:\n nop\nfoo:\n").unwrap_err();
    assert!(matches!(err, AssemblerError::DuplicateLabel(ref n) if n == "foo"));
}

#[test]
fn branch_out_of_range_is_reported() {
    // the target sits 200 bytes ahead of the byte after the branch
    let err = assemble_source(".org $1000\n bne far\n .byte \"x\"\n .org $10ca\nfar: rts\n")
        .unwrap_err();
    assert!(matches!(err, AssemblerError::ValueOutOfRange(_)));

    // 127 ahead is the farthest allowed: the branch, 127 filler bytes, the target
    let filler = "a".repeat(127);
    let src = format!(".org $1000\n bne far\n .text \"{}\"\nfar: rts\n", filler);
    let bytes = assemble_source(&src).unwrap();
    assert_eq!(bytes[0], 0xD0);
    assert_eq!(bytes[1], 0x7F);
    assert_eq!(bytes.len(), 2 + 127 + 1);
}

#[test]
fn backward_branch_offset() {
    let bytes = assemble_source(".org $1000\nloop: nop\n bne loop\n").unwrap();
    // delta = $1000 - ($1001 + 2) = -3 -> 0xFD
    assert_eq!(bytes, vec![0xEA, 0xD0, 0xFD]);
}

#[test]
fn doubled_org_is_idempotent() {
    let once = assemble_source(".org $8000\n lda #1\n jmp end\nend: rts\n").unwrap();
    let twice = assemble_source(".org $8000\n.org $8000\n lda #1\n jmp end\nend: rts\n").unwrap();
    assert_eq!(once, twice);
}

#[test]
fn forward_org_emits_fresh_segment_without_padding() {
    let bytes = assemble_source(".org $1000\n .byte 1\n.org $2000\n .byte 2\n").unwrap();
    assert_eq!(bytes, vec![0x01, 0x02]);
}

#[test]
fn backward_org_after_emission_is_rejected() {
    // the sizing pass rejects it before code generation starts
    let err = assemble_source(".org $1000\n .byte 1\n.org $0800\n").unwrap_err();
    assert!(matches!(err, AssemblerError::ValueOutOfRange(_)));
}

#[test]
fn every_table_row_round_trips_through_the_encoder() {
    // P3: encoding (opcode, mode) with a canonical operand starts with the
    // table's opcode byte and spans the mode's size.
    let table = build_opcode_table();
    assert_eq!(table.len(), 158);
    let labels: Vec<(String, u16)> = Vec::new();
    let consts: Vec<(String, rusm::ast::Expr)> = Vec::new();
    for (op, mode, entry) in &table {
        let operand = canonical_operand(*mode);
        let instr = Op(*op, operand);
        let (bytes, _) = encode_op(&instr, &labels, &consts, 0x1000, 0)
            .unwrap_or_else(|e| panic!("{} {:?} failed: {:?}", mnemonic(*op), mode, e));
        assert_eq!(bytes[0], entry.byte, "{} {:?}", mnemonic(*op), mode);
        assert_eq!(bytes.len(), mode_size(*mode), "{} {:?}", mnemonic(*op), mode);
        assert_eq!(entry.size as usize, mode_size(*mode));
    }
}

fn hex_operand(mode: AddressingMode, text: &str) -> Operand {
    Operand(
        mode,
        Expr::L(LExpr::LiteralExpr(LiteralExpr::NumberLiteral(NumberLiteral::HexLiteral(
            text.to_string(),
        )))),
    )
}

fn canonical_operand(mode: AddressingMode) -> Option<Operand> {
    match mode {
        AddressingMode::Implied | AddressingMode::Accumulator => None,
        AddressingMode::Immediate => Some(hex_operand(AddressingMode::Immediate, "$0")),
        AddressingMode::ZeroPage => Some(hex_operand(AddressingMode::Absolute, "$0")),
        AddressingMode::ZeroPageX => Some(hex_operand(AddressingMode::AbsoluteX, "$0")),
        AddressingMode::ZeroPageY => Some(hex_operand(AddressingMode::AbsoluteY, "$0")),
        AddressingMode::Absolute => Some(hex_operand(AddressingMode::Absolute, "$100")),
        AddressingMode::AbsoluteX => Some(hex_operand(AddressingMode::AbsoluteX, "$100")),
        AddressingMode::AbsoluteY => Some(hex_operand(AddressingMode::AbsoluteY, "$100")),
        AddressingMode::Indirect => Some(hex_operand(AddressingMode::Indirect, "$100")),
        AddressingMode::IndexedIndirect => Some(hex_operand(AddressingMode::IndexedIndirect, "$0")),
        AddressingMode::IndirectIndexed => Some(hex_operand(AddressingMode::IndirectIndexed, "$0")),
        AddressingMode::Relative => Some(hex_operand(AddressingMode::Absolute, "$1000")),
    }
}

#[test]
fn zero_page_is_chosen_for_literal_one_byte_addresses() {
    // P2 in action: a literal $10 fits zero page (2 bytes), a symbol is
    // sized absolute (3 bytes) even when its value turns out small.
    let small = assemble_source(".org $1000\n lda $10\n").unwrap();
    assert_eq!(small, vec![0xA5, 0x10]);
    let symbolic =
        assemble_source(".const ADDR $10\n.org $1000\n lda ADDR\n").unwrap();
    assert_eq!(symbolic, vec![0xAD, 0x10, 0x00]);
}

#[test]
fn total_size_matches_pass_one_sizing() {
    // P1 in action: the binary length is the sum of the per-line sizes.
    let src = ".org $1000\nstart: lda #$41\n sta $d020\n bne start\n .byte 1,2\n .word $1234\n \
.text \"hi\"\n rts\n";
    let bytes = assemble_source(src).unwrap();
    assert_eq!(bytes.len(), 2 + 3 + 2 + 2 + 2 + 2 + 1);
}

#[test]
fn accumulator_and_implied_forms() {
    let bytes = assemble_source(".org $1000\n asl\n asl A\n nop\n").unwrap();
    assert_eq!(bytes, vec![0x0A, 0x0A, 0xEA]);
}

#[test]
fn indirect_and_indexed_modes_encode() {
    let bytes = assemble_source(
        ".org $1000\n jmp ($fdee)\n lda ($10,x)\n lda ($10),y\n lda $1234,x\n ldx $12,y\n",
    )
    .unwrap();
    assert_eq!(
        bytes,
        vec![0x6C, 0xEE, 0xFD, 0xA1, 0x10, 0xB1, 0x10, 0xBD, 0x34, 0x12, 0xB6, 0x12]
    );
}

#[test]
fn low_and_high_byte_operators() {
    let bytes = assemble_source(".org $1000\n lda #<start\n lda #>start\nstart: rts\n").unwrap();
    // start = $1004: low $04, high $10, then the rts byte itself
    assert_eq!(bytes, vec![0xA9, 0x04, 0xA9, 0x10, 0x60]);
}

#[test]
fn pc_token_in_expressions() {
    let bytes = assemble_source(".org $1000\n jmp *\n").unwrap();
    assert_eq!(bytes, vec![0x4C, 0x00, 0x10]);
}

#[test]
fn arithmetic_in_operands() {
    let bytes = assemble_source(".const BASE $1000\n.org $1000\n sta BASE+$234,x\n").unwrap();
    assert_eq!(bytes, vec![0x9D, 0x34, 0x12]);
}

#[test]
fn expression_evaluation_is_exact() {
    let labels: Vec<(String, u16)> = vec![("here".to_string(), 0x1234)];
    let consts: Vec<(String, Expr)> = Vec::new();
    let e = Expr::L(LExpr::RefExpr(RefExpr::LabelRef("here".to_string())));
    assert!(matches!(eval_expr(&e, &labels, &consts, 0, 0), EvalOutcome::Val(0x1234)));
    let unknown = Expr::L(LExpr::RefExpr(RefExpr::SymbolRef("gone".to_string())));
    assert!(matches!(
        eval_expr(&unknown, &labels, &consts, 0, 0),
        EvalOutcome::Unknown(ref n) if n == "gone"
    ));
}

#[test]
fn circular_constants_are_invalid_expressions() {
    let err = assemble_source(".const A B\n.const B A\n.org $1000\n lda #A\n").unwrap_err();
    assert!(matches!(
        err,
        AssemblerError::SourceLineError { line: 4, ref cause }
            if matches!(**cause, AssemblerError::InvalidExpression(_))
    ));
}

#[test]
fn division_by_zero_is_invalid() {
    let err = assemble_source(".org $1000\n lda #1/0\n").unwrap_err();
    assert!(matches!(
        err,
        AssemblerError::SourceLineError { ref cause, .. }
            if matches!(**cause, AssemblerError::InvalidExpression(_))
    ));
}

#[test]
fn immediate_out_of_range_is_reported() {
    let err = assemble_source(".org $1000\n lda #$100\n").unwrap_err();
    assert!(matches!(
        err,
        AssemblerError::SourceLineError { line: 2, ref cause }
            if matches!(**cause, AssemblerError::ValueOutOfRange(_))
    ));
}

#[test]
fn unknown_directive_is_reported() {
    let err = assemble_source(".org $1000\n.nonsense 1\n").unwrap_err();
    assert!(matches!(err, AssemblerError::UnknownDirective(ref n) if n == "nonsense"));
}

#[test]
fn invalid_addressing_mode_is_reported() {
    // STA has no immediate encoding
    let err = assemble_source(".org $1000\n sta #$10\n").unwrap_err();
    assert!(matches!(
        err,
        AssemblerError::SourceLineError { line: 2, ref cause }
            if matches!(**cause, AssemblerError::InvalidAddressingMode(ref n) if n == "STA")
    ));
}

#[test]
fn unknown_mnemonic_is_a_parse_error() {
    let err = from_source(" xyz $10\n").unwrap_err();
    assert!(matches!(err, rusm::parser::ParseError::UnknownOpcode(ref n) if n == "xyz"));
}

#[test]
fn opcode_from_str_is_case_insensitive() {
    assert_eq!(Opcode::from_str("lda"), Ok(Opcode::LDA));
    assert_eq!(Opcode::from_str("LDA"), Ok(Opcode::LDA));
    assert_eq!(Opcode::from_str("Hcf"), Ok(Opcode::HCF));
    assert_eq!(Opcode::from_str("nope"), Err("nope".to_string()));
}

#[test]
fn opcode_table_lookup_matches_known_bytes() {
    let e = lookup_opcode_entry(Opcode::LDA, AddressingMode::Immediate).unwrap();
    assert_eq!((e.byte, e.size, e.cycles), (0xA9, 2, 2));
    let e = lookup_opcode_entry(Opcode::JMP, AddressingMode::Absolute).unwrap();
    assert_eq!(e.byte, 0x4C);
    assert!(lookup_opcode_entry(Opcode::HCF, AddressingMode::Implied).is_none());
    assert!(lookup_opcode_entry(Opcode::SLO, AddressingMode::Absolute).is_none());
    let e = OpcodeEntry::new(0xEA, 1, 2);
    assert_eq!(lookup_opcode_entry(Opcode::NOP, AddressingMode::Implied), Some(e));
}

#[test]
fn text_directive_emits_ascii() {
    let bytes = assemble_source(".org $1000\n.text \"Hi!\"\n").unwrap();
    assert_eq!(bytes, vec![0x48, 0x69, 0x21]);
    let bytes = assemble_source(".org $1000\n.byte \"AB\"\n").unwrap();
    assert_eq!(bytes, vec![0x41, 0x42]);
}

#[test]
fn char_literals_evaluate_to_their_code() {
    let bytes = assemble_source(".org $1000\n lda #'A'\n").unwrap();
    assert_eq!(bytes, vec![0xA9, 0x41]);
}

#[test]
fn assembler_state_after_assembly() {
    let ast = from_source(".org $8000\nstart:\n jmp start\n").unwrap();
    let mut assembler = Assembler::new();
    assert_eq!(assembler.origin, 0x1000);
    let assembler2 = Assembler::new().verbose(true);
    assert!(assembler2.verbose);
    let bytes = assembler.assemble(&ast).unwrap();
    assert_eq!(bytes, vec![0x4C, 0x00, 0x80]);
    assert_eq!(assembler.binary, bytes);
    assert_eq!(assembler.labels, vec![("start".to_string(), 0x8000)]);
}

#[test]
fn instruction_size_uses_the_widest_form_for_symbols() {
    let assembler = Assembler::new();
    let lda_imm = Op(
        Opcode::LDA,
        Some(hex_operand(AddressingMode::Immediate, "$41")),
    );
    assert_eq!(assembler.instruction_size(&lda_imm), Ok(2));
    let jmp_sym = Op(
        Opcode::JMP,
        Some(Operand(
            AddressingMode::Absolute,
            Expr::L(LExpr::RefExpr(RefExpr::SymbolRef("far".to_string()))),
        )),
    );
    assert_eq!(assembler.instruction_size(&jmp_sym), Ok(3));
}

#[test]
fn data_directives_take_symbol_values() {
    let bytes = assemble_source(".org $1000\n .word after\n .byte <after\nafter: rts\n").unwrap();
    // after = $1003: the word is little-endian, the byte takes the low half
    assert_eq!(bytes, vec![0x03, 0x10, 0x03, 0x60]);
}

#[test]
fn byte_data_over_one_byte_is_rejected() {
    let err = assemble_source(".org $1000\n .byte $1234\n").unwrap_err();
    assert!(matches!(
        err,
        AssemblerError::SourceLineError { line: 2, ref cause }
            if matches!(**cause, AssemblerError::ValueOutOfRange(_))
    ));
}

#[test]
fn relative_kind_is_registered_for_branches() {
    let labels: Vec<(String, u16)> = Vec::new();
    let consts: Vec<(String, Expr)> = Vec::new();
    let bne = Op(
        Opcode::BNE,
        Some(Operand(
            AddressingMode::Absolute,
            Expr::L(LExpr::RefExpr(RefExpr::SymbolRef("skip".to_string()))),
        )),
    );
    let (bytes, pend) = encode_op(&bne, &labels, &consts, 0x1000, 0).unwrap();
    assert_eq!(bytes, vec![0xD0, 0x00]);
    assert_eq!(pend, Some(("skip".to_string(), RefKind::Rel)));
}
