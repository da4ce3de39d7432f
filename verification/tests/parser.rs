use rusm::ast::{
    AddressingMode, Ast, BinOp, BinaryExprBuilder, Expr, Instruction, LExpr, LineBuilder,
    LiteralExpr, NumberLiteral, OpBuilder, Opcode, OperandBuilder, RefExpr,
};
use rusm::parser::{from_source, parse_expr_text, parse_line, ParseError, RusmParser};

fn parse_str(source: &String) -> Result<Ast, ParseError> {
    let ast = from_source(source)?;
    println!("Parsed AST:");
    println!("{:#?}", ast);
    Ok(ast)
}

#[test]
fn parse_comments() {
    let source = r#"
        ; This is a comment

        ; Empty lines are ok.
        ;
        ; Empty comments, too.
;;;
    "#;
    let ast = parse_str(&source.to_string());
    println!("Parsed AST: {:#?}", ast);
    ast.expect("Failed to parse comments");
}

#[test]
fn parse_labels() {
    let source = r#"
    start:
    end: ; another label

fucker:
fucker2:
    "#;
    let ast = parse_str(&source.to_string());
    println!("Parsed AST: {:#?}", ast);
    ast.expect("Failed to parse labels");
}

#[test]
fn parse_simple_directives() {
    let source = r#"
        .const PI 3
        .const E 3048
        .const Z $d0cd
        .org $5001
        .for
        .const _MASK %00000000
    "#;
    let ast = parse_str(&source.to_string());
    println!("Parsed AST: {:#?}", ast);
    ast.expect("Failed to parse directives");
}

#[test]
fn parse_single_instructions() {
    for source in [
        "LDA $00\n",
        "sty #$00\n",
        "bne loop\n",
        "jmp (1000)\n",
        "nop\n",
        "stx ($10),y\n",
        "stx ($10,x)\n",
    ] {
        let ast = parse_str(&source.to_string());
        ast.expect("Failed to parse instructions");
    }
}

#[test]
fn parse_number_literals() {
    for source in [
        "12345",
        "$0",
        "$0000",
        "%00000000",
        "0",
        "%00",
        "$0",
        "$0000",
        "$00000000",
    ] {
        let parse_res = parse_expr_text(source, 0, source.len(), 1);
        println!("Parsed literal: {:#?}", parse_res);
        parse_res.expect("Failed to parse number literals");
    }
}

#[test]
fn parse_expr() {
    for source in ["(start)", "((((((x))))))", "($12f4)"] {
        let parse_res = parse_expr_text(source, 0, source.len(), 1);
        println!("Parsed expr: {:#?}", parse_res);
        parse_res.expect("Failed to parse primary");
    }
}

#[test]
fn parse_instruction() {
    for source in [
        "LDA $00",
        "sty #$00",
        "bne loop",
        "jmp (1000)",
        "nop",
        "stx ($10),y",
        "stx ($10,x)",
    ] {
        let parse_res = parse_line(source, 1);
        println!("Parsed instruction: {:#?}", parse_res);
        let line = parse_res.expect("Failed to parse instruction");
        println!("Parsed AST: {:#?}", line);
        assert!(line.instruction().is_some());
    }
}

#[test]
fn parse_instructions() {
    let source = r#"
        LDA #$00
        LDX $00
        STY $00
        STX $00
        sty #%001
        jmp label
        jmp ($0010)
        lda $00
        stx $00
        bne loop
        nop
    "#;
    let ast = parse_str(&source.to_string());
    println!("Parsed AST: {:#?}", ast);
    ast.expect("Failed to parse instructions");
}

#[test]
fn parse_minimal() {
    let source = r#"
        ; Minimal example program.
        .org $8000
    start:
        jmp start
        jmp *
    "#;
    let ast = parse_str(&source.to_string());
    println!("Parsed AST: {:#?}", ast);
    ast.expect("Failed to parse labels");
}

#[test]
fn simple_program() {
    let src = r#"
        ; Hello world!
        .org $8000
        .const BG 7
        .const FG 0
        .const COLOR_RAM $d800
        start:
        lda BG
        sta COLOR_RAM

        _loop:
        jmp _loop
        jmp *
        "#;
    let prg = RusmParser::from_source(src).expect("could not parse simple program");
    println!("AST = {:?}", prg);
}

#[test]
fn rule_op() {
    let tests = [
        "ldx",
        "ldx 1",
        "ldx $1",
        "ldx %1111",
        "lda #1",
        "lda #$1",
        "lda #%11010",
        "lda $fffe,y",
        "lda $fffe, y",
        "lda $fffe , y",
        "lda ($ff),y",
        "lda ($ff), y",
        "lda ( $ff ), y",
        "lda $fffe,x",
        "lda $fffe, x",
        "lda $fffe , ",
        "lda ($ff,x)",
        "lda ($ff, x)",
        "lda ( $ff , x)",
        "jmp ($fdee)",
        "jmp start",
        "sta SCREEN_BASE+$400,x",
        "sta SCREEN_BASE + $100, x",
    ];
    for t in tests {
        let line = parse_line(t, 1).unwrap();
        println!("<rule_op> op expr: {}", t);
        println!("<rule_op> {:?}", line);
        assert!(matches!(line.instruction(), Some(Instruction::Op(_))));
    }
}

#[test]
fn rule_op_expr() {
    let tests = [
        "ldx #<start",
        "ldy #>start",
        "ldy #<start + 1",
        "ldy #>start-1",
        "ldy start + (end - 1)",
        "ldy start/12, x",
    ];
    for t in tests {
        let line = parse_line(t, 1).unwrap();
        println!("<rule_op_expr> op expr: {}", t);
        println!("<rule_op_expr> {:?}", line);
        assert!(matches!(line.instruction(), Some(Instruction::Op(_))));
    }
}

#[test]
fn rule_directive() {
    let tests = [".const PI 3", ".org $6400", ".for i = 12, i < 100, i++"];
    for t in tests {
        let line = parse_line(t, 1).unwrap();
        println!("<rule_directive> op expr: {}", t);
        println!("<rule_directive> {:?}", line);
        assert!(matches!(line.instruction(), Some(Instruction::Directive(_))));
    }
}

#[test]
fn absolutex_with_binary_expr() {
    let src = r#"sta SCREEN_BASE+$400,x
        "#;
    let expected = Ast::new()
        .add_line(
            LineBuilder::default()
                .instruction(Instruction::Op(
                    OpBuilder::default()
                        .opcode(Opcode::STA)
                        .operand(
                            OperandBuilder::default()
                                .addressing_mode(AddressingMode::AbsoluteX)
                                .expr(Expr::Binary(
                                    BinaryExprBuilder::default()
                                        .lhs(Expr::L(LExpr::RefExpr(RefExpr::SymbolRef(
                                            "SCREEN_BASE".into(),
                                        ))))
                                        .op(BinOp("+".to_string()))
                                        .rhs(Expr::L(LExpr::LiteralExpr(
                                            LiteralExpr::NumberLiteral(NumberLiteral::HexLiteral(
                                                "$400".into(),
                                            )),
                                        )))
                                        .build(),
                                ))
                                .build(),
                        )
                        .build(),
                ))
                .build(),
        )
        .add_line(LineBuilder::default().build());
    let ast = from_source(src).unwrap();
    assert_eq!(ast, expected);
}
