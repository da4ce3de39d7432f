//! The assembler-wide laws, stated and proved over the spec-level model:
//! closed operands evaluate the same under every environment; sizing is
//! monotone; every opcode-table row round-trips through the encoder; a
//! relative branch patches exactly when its offset fits a signed byte;
//! assembly output length equals the sizing pass's byte count; a doubled
//! `.org` changes nothing; and a label bound twice always fails.

use crate::assembler::spec_assemble;
use crate::assembler::spec_bind_label;
use crate::assembler::spec_dir1;
use crate::assembler::spec_dir2;
use crate::assembler::spec_data_fold;
use crate::assembler::spec_fuel;
use crate::assembler::spec_pass1_from;
use crate::assembler::spec_pass1_init;
use crate::assembler::spec_pass1_step;
use crate::assembler::spec_pass2_from;
use crate::assembler::spec_pass2_init;
use crate::assembler::spec_pass2_step;
use crate::assembler::spec_patch_from;
use crate::assembler::spec_patch_one;
use crate::assembler::spec_op_size;
use crate::assembler::ErrorLeaf;
use crate::assembler::ErrorView;
use crate::assembler::Pass1State;
use crate::assembler::Pass2State;
use crate::assembler::PendRef;
use crate::ast::spec_constants_of;
use crate::ast::Directive;
use crate::ast::Expr;
use crate::ast::Instruction;
use crate::ast::LExpr;
use crate::ast::Line;
use crate::ast::Op;
use crate::ast::Opcode;
use crate::ast::Operand;
use crate::ast::AddressingMode;
use crate::encode::spec_classify;
use crate::encode::spec_encode;
use crate::encode::spec_is_acc_operand;
use crate::encode::RefKind;
use crate::eval::spec_eval;
use crate::eval::spec_eval_closed;
use crate::eval::spec_lone_symbol;
use crate::eval::spec_lookup;
use crate::eval::EvalView;
use crate::opcodes::spec_is_branch;
use crate::opcodes::spec_is_shift;
use crate::opcodes::spec_mode_size;
use crate::opcodes::spec_opcode_entry;
use vstd::prelude::*;

verus! {

// ---------------------------------------------------------------------------
// Closed expressions evaluate the same under every environment.
// ---------------------------------------------------------------------------

/// An operand built from literals alone has one value, whatever the label
/// table, constant table or program counter: the classifier may therefore
/// size by it without looking at symbols.
pub proof fn lemma_eval_closed_stable(
    e: Expr,
    labels: Seq<(String, u16)>,
    consts: Seq<(String, Expr)>,
    pc: int,
    fuel: nat,
)
    requires
        spec_eval_closed(e) is Some,
    ensures
        spec_eval(e, labels, consts, pc, fuel) == EvalView::Val(spec_eval_closed(e)->Some_0),
    decreases e,
{
    match e {
        Expr::L(l) => match l {
            LExpr::LiteralExpr(_) => {},
            LExpr::RefExpr(_) => {},
            LExpr::ParenExpr(p) => {
                lemma_eval_closed_stable(*p.0, labels, consts, pc, fuel);
            },
            LExpr::LowerExpr(p) => {
                lemma_eval_closed_stable(*p.0, labels, consts, pc, fuel);
            },
            LExpr::UpperExpr(p) => {
                lemma_eval_closed_stable(*p.0, labels, consts, pc, fuel);
            },
        },
        Expr::Binary(b) => {
            lemma_eval_closed_stable(*b.0, labels, consts, pc, fuel);
            lemma_eval_closed_stable(*b.2, labels, consts, pc, fuel);
        },
    }
}

// ---------------------------------------------------------------------------
// Monotone sizing.
// ---------------------------------------------------------------------------

/// The mode an instruction would get with every symbol resolved: the
/// zero-page form whenever the operand's full value fits one byte and the
/// opcode has that encoding.
pub open spec fn spec_classify_resolved(
    op: Opcode,
    operand: Option<Operand>,
    labels: Seq<(String, u16)>,
    consts: Seq<(String, Expr)>,
    pc: int,
    fuel: nat,
) -> AddressingMode {
    match operand {
        None => if spec_is_shift(op) {
            AddressingMode::Accumulator
        } else {
            AddressingMode::Implied
        },
        Some(o) => if spec_is_branch(op) {
            AddressingMode::Relative
        } else if spec_is_shift(op) && spec_is_acc_operand(o) {
            AddressingMode::Accumulator
        } else {
            match o.0 {
                AddressingMode::Absolute => spec_zp_or_resolved(
                    op,
                    o.1,
                    AddressingMode::ZeroPage,
                    AddressingMode::Absolute,
                    labels,
                    consts,
                    pc,
                    fuel,
                ),
                AddressingMode::AbsoluteX => spec_zp_or_resolved(
                    op,
                    o.1,
                    AddressingMode::ZeroPageX,
                    AddressingMode::AbsoluteX,
                    labels,
                    consts,
                    pc,
                    fuel,
                ),
                AddressingMode::AbsoluteY => spec_zp_or_resolved(
                    op,
                    o.1,
                    AddressingMode::ZeroPageY,
                    AddressingMode::AbsoluteY,
                    labels,
                    consts,
                    pc,
                    fuel,
                ),
                m => m,
            }
        },
    }
}

/// The zero-page choice with full knowledge of the symbol values.
pub open spec fn spec_zp_or_resolved(
    op: Opcode,
    e: Expr,
    zp: AddressingMode,
    abs: AddressingMode,
    labels: Seq<(String, u16)>,
    consts: Seq<(String, Expr)>,
    pc: int,
    fuel: nat,
) -> AddressingMode {
    match spec_eval(e, labels, consts, pc, fuel) {
        EvalView::Val(v) => if v <= 0xFF && spec_opcode_entry(op, zp) is Some {
            zp
        } else {
            abs
        },
        _ => abs,
    }
}

/// Monotone sizing: the size the sizing pass computes (symbols assumed
/// wide) is at least the size the instruction would have with every symbol
/// resolved, so sizes never shrink between passes.
pub proof fn lemma_monotone_sizing(
    op: Op,
    labels: Seq<(String, u16)>,
    consts: Seq<(String, Expr)>,
    pc: int,
    fuel: nat,
)
    ensures
        spec_op_size(op) >= spec_mode_size(
            spec_classify_resolved(op.0, op.1, labels, consts, pc, fuel),
        ),
{
    match op.1 {
        None => {},
        Some(o) => {
            if !spec_is_branch(op.0) && !(spec_is_shift(op.0) && spec_is_acc_operand(o)) {
                match o.0 {
                    AddressingMode::Absolute | AddressingMode::AbsoluteX
                    | AddressingMode::AbsoluteY => {
                        if spec_eval_closed(o.1) is Some {
                            lemma_eval_closed_stable(o.1, labels, consts, pc, fuel);
                        }
                    },
                    _ => {},
                }
            }
        },
    }
}

// ---------------------------------------------------------------------------
// Encoder round-trip.
// ---------------------------------------------------------------------------

/// Round-trip for encodable instructions: whatever the encoder emits for
/// an instruction opens with the table's opcode byte for the chosen mode
/// and spans exactly the mode's size.  (That every table row is reachable
/// is witnessed by running the encoder over the materialized table with a
/// canonical operand per mode, which the test suite does row by row.)
pub proof fn lemma_encoder_round_trip(
    instr: Op,
    labels: Seq<(String, u16)>,
    consts: Seq<(String, Expr)>,
    pc: int,
    fuel: nat,
)
    ensures
        match spec_encode(instr, labels, consts, pc, fuel) {
            Ok(enc) => {
                let mode = spec_classify(instr.0, instr.1);
                &&& spec_opcode_entry(instr.0, mode) is Some
                &&& enc.0.len() == spec_mode_size(mode)
                &&& enc.0[0] == spec_opcode_entry(instr.0, mode)->Some_0.byte
            },
            Err(_) => true,
        },
{
}

/// When encoding is owed to succeed: the table has an entry for the
/// chosen mode, and the operand, where the mode takes one, either
/// evaluates into the mode's range (one byte below `0x100`, two bytes
/// anywhere, a branch target within `-128..=127` of the following byte),
/// or reads an unbound symbol (leaving an unresolved reference; for a
/// branch, a bare symbol is deferred the same way).
pub proof fn lemma_encoder_success(
    instr: Op,
    labels: Seq<(String, u16)>,
    consts: Seq<(String, Expr)>,
    pc: int,
    fuel: nat,
)
    requires
        spec_opcode_entry(instr.0, spec_classify(instr.0, instr.1)) is Some,
        match instr.1 {
            None => true,
            Some(o) => {
                let mode = spec_classify(instr.0, instr.1);
                match mode {
                    AddressingMode::Implied | AddressingMode::Accumulator => true,
                    AddressingMode::Relative => spec_lone_symbol(o.1) is Some || (spec_eval(
                        o.1,
                        labels,
                        consts,
                        pc,
                        fuel,
                    ) matches EvalView::Val(t) && -128 <= t - (pc + 2) <= 127),
                    AddressingMode::Immediate | AddressingMode::ZeroPage
                    | AddressingMode::ZeroPageX | AddressingMode::ZeroPageY
                    | AddressingMode::IndexedIndirect | AddressingMode::IndirectIndexed => match
                        spec_eval(o.1, labels, consts, pc, fuel) {
                        EvalView::Val(v) => v <= 0xFF,
                        EvalView::Unknown(_) => true,
                        EvalView::Fail(_) => false,
                    },
                    _ => spec_eval(o.1, labels, consts, pc, fuel) is Val || spec_eval(
                        o.1,
                        labels,
                        consts,
                        pc,
                        fuel,
                    ) is Unknown,
                }
            },
        },
    ensures
        spec_encode(instr, labels, consts, pc, fuel) is Ok,
{
}

/// An instruction without an operand encodes exactly when the table has an
/// entry for its mode, and then to that entry's single opcode byte.
pub proof fn lemma_operand_free_encoding(
    op: Opcode,
    labels: Seq<(String, u16)>,
    consts: Seq<(String, Expr)>,
    pc: int,
    fuel: nat,
)
    ensures
        ({
            let mode = spec_classify(op, None);
            match spec_encode(Op(op, None), labels, consts, pc, fuel) {
                Ok(enc) => spec_opcode_entry(op, mode) matches Some(entry) && enc.0 =~= seq![
                    entry.byte,
                ] && enc.1 is None,
                Err(_) => spec_opcode_entry(op, mode) is None,
            }
        }),
{
}


// ---------------------------------------------------------------------------
// Relative-branch range.
// ---------------------------------------------------------------------------

/// A relative reference to a bound label patches successfully exactly when
/// the branch distance, measured from the byte after the two-byte branch
/// instruction, lies in `-128..=127`.
pub proof fn lemma_branch_range(p: PendRef, bin: Seq<u8>, labels: Seq<(String, u16)>, target: u16)
    requires
        p.kind == RefKind::Rel,
        spec_lookup(labels, p.name) == Some(target),
    ensures
        ({
            let delta = target - (p.addr + 2);
            &&& spec_patch_one(p, bin, labels) is Ok <==> -128 <= delta <= 127
            &&& (-128 <= delta <= 127 && 0 <= p.pos < bin.len() ==> spec_patch_one(
                p,
                bin,
                labels,
            ) == Ok::<(Seq<u8>, bool), ErrorLeaf>(
                (bin.update(p.pos, crate::encode::spec_rel_byte(delta)), true),
            ))
        }),
{
}

// ---------------------------------------------------------------------------
// Total size preservation.
// ---------------------------------------------------------------------------

/// Patching changes bytes in place, never the length.
pub proof fn lemma_patch_preserves_len(
    pend: Seq<PendRef>,
    j: int,
    bin: Seq<u8>,
    labels: Seq<(String, u16)>,
    rem: Seq<PendRef>,
)
    requires
        spec_patch_from(pend, j, bin, labels, rem) is Ok,
    ensures
        spec_patch_from(pend, j, bin, labels, rem)->Ok_0.0.len() == bin.len(),
    decreases pend.len() - j,
{
    if j < 0 || j >= pend.len() {
    } else {
        match spec_patch_one(pend[j], bin, labels) {
            Err(_) => {},
            Ok((bin2, resolved)) => {
                lemma_patch_preserves_len(
                    pend,
                    j + 1,
                    bin2,
                    labels,
                    if resolved {
                        rem
                    } else {
                        rem.push(pend[j])
                    },
                );
            },
        }
    }
}

/// Whatever the encoder emits spans exactly the chosen mode's size.
pub proof fn lemma_encode_len(
    instr: Op,
    labels: Seq<(String, u16)>,
    consts: Seq<(String, Expr)>,
    pc: int,
    fuel: nat,
)
    requires
        spec_encode(instr, labels, consts, pc, fuel) is Ok,
    ensures
        spec_encode(instr, labels, consts, pc, fuel)->Ok_0.0.len() == spec_op_size(instr),
{
}

/// A data directive's emission grows the binary by exactly its element
/// count times the element width, whatever the element values.
pub proof fn lemma_data_fold_growth(
    exprs: Seq<Expr>,
    j: int,
    width: int,
    kind: RefKind,
    labels: Seq<(String, u16)>,
    consts: Seq<(String, Expr)>,
    line_no: int,
    st: Pass2State,
)
    requires
        0 <= j <= exprs.len(),
        width == 1 || width == 2,
        spec_data_fold(exprs, j, width, kind, labels, consts, line_no, st) is Ok,
    ensures
        spec_data_fold(exprs, j, width, kind, labels, consts, line_no, st)->Ok_0.bin.len()
            == st.bin.len() + width * (exprs.len() - j),
    decreases exprs.len() - j,
{
    if j >= exprs.len() {
    } else {
        match spec_eval(exprs[j], labels, consts, st.pc, spec_fuel(consts)) {
            EvalView::Val(v) => {
                let bytes = if width == 1 {
                    seq![v as u8]
                } else {
                    seq![(v % 256) as u8, ((v / 256) % 256) as u8]
                };
                lemma_data_fold_growth(
                    exprs,
                    j + 1,
                    width,
                    kind,
                    labels,
                    consts,
                    line_no,
                    Pass2State { pc: st.pc + width, bin: st.bin + bytes, ..st },
                );
            },
            EvalView::Unknown(n) => {
                let bytes = if width == 1 {
                    seq![0u8]
                } else {
                    seq![0u8, 0u8]
                };
                lemma_data_fold_growth(
                    exprs,
                    j + 1,
                    width,
                    kind,
                    labels,
                    consts,
                    line_no,
                    Pass2State {
                        pc: st.pc + width,
                        bin: st.bin + bytes,
                        pend: st.pend.push(
                            PendRef { pos: st.bin.len() as int, addr: st.pc, name: n, kind },
                        ),
                    },
                );
            },
            EvalView::Fail(_) => {},
        }
    }
}

/// The emission pass emits, line for line, exactly as many bytes as the
/// sizing pass counted: an instruction's size depends only on its own
/// operand text, and a data directive's only on its element count, so the
/// two passes agree byte for byte even before any symbol is known.
pub proof fn lemma_passes_agree(
    lines: Seq<Line>,
    i: int,
    consts: Seq<(String, Expr)>,
    labels: Seq<(String, u16)>,
    st1: Pass1State,
    st2: Pass2State,
)
    requires
        spec_pass1_from(lines, i, consts, st1) is Ok,
        spec_pass2_from(lines, i, consts, labels, st2) is Ok,
    ensures
        spec_pass2_from(lines, i, consts, labels, st2)->Ok_0.bin.len() - st2.bin.len()
            == spec_pass1_from(lines, i, consts, st1)->Ok_0.emitted - st1.emitted,
    decreases lines.len() - i,
{
    if i < 0 || i >= lines.len() {
    } else {
        let st1b = spec_pass1_step(lines[i], consts, st1)->Ok_0;
        let st2b = spec_pass2_step(lines[i], i + 1, consts, labels, st2)->Ok_0;
        assert(st2b.bin.len() - st2.bin.len() == st1b.emitted - st1.emitted) by {
            let line = lines[i];
            match line.1 {
                None => {},
                Some(Instruction::Op(op)) => {
                    lemma_encode_len(op, labels, consts, st2.pc, spec_fuel(consts));
                },
                Some(Instruction::Directive(d)) => {
                    match d {
                        Directive::Byte(v) => {
                            lemma_data_fold_growth(
                                v@,
                                0,
                                1,
                                RefKind::AbsByte,
                                labels,
                                consts,
                                i + 1,
                                st2,
                            );
                        },
                        Directive::Word(v) => {
                            lemma_data_fold_growth(
                                v@,
                                0,
                                2,
                                RefKind::AbsWord,
                                labels,
                                consts,
                                i + 1,
                                st2,
                            );
                        },
                        _ => {},
                    }
                },
            }
        }
        lemma_passes_agree(lines, i + 1, consts, labels, st1b, st2b);
    }
}

/// Total size preservation: a successful assembly's binary length equals
/// the byte count the sizing pass computed, `.org` jumps included (they
/// move the program counter without emitting or padding).
pub proof fn lemma_total_size_preservation(lines: Seq<Line>, origin: int)
    requires
        spec_assemble(lines, origin) is Ok,
    ensures
        spec_pass1_from(
            lines,
            0,
            spec_constants_of(lines),
            spec_pass1_init(origin),
        ) matches Ok(sized) && spec_assemble(lines, origin)->Ok_0.len() == sized.emitted,
{
    let consts = spec_constants_of(lines);
    let st1 = spec_pass1_from(lines, 0, consts, spec_pass1_init(origin))->Ok_0;
    let st2 = spec_pass2_from(lines, 0, consts, st1.labels, spec_pass2_init(origin))->Ok_0;
    lemma_passes_agree(
        lines,
        0,
        consts,
        st1.labels,
        spec_pass1_init(origin),
        spec_pass2_init(origin),
    );
    lemma_patch_preserves_len(st2.pend, 0, st2.bin, st1.labels, Seq::empty());
}


// ---------------------------------------------------------------------------
// Label uniqueness.
// ---------------------------------------------------------------------------

/// The sizing pass factors through any cut: run the prefix, then the rest
/// from the prefix's state.
pub proof fn lemma_pass1_split(
    lines: Seq<Line>,
    i: int,
    k: int,
    consts: Seq<(String, Expr)>,
    st: Pass1State,
)
    requires
        0 <= i <= k <= lines.len(),
    ensures
        spec_pass1_from(lines, i, consts, st) == match spec_pass1_from(
            lines.take(k),
            i,
            consts,
            st,
        ) {
            Ok(m) => spec_pass1_from(lines, k, consts, m),
            Err(e) => Err(e),
        },
    decreases k - i,
{
    if i == k {
    } else {
        assert(lines.take(k)[i] == lines[i]);
        match spec_pass1_step(lines[i], consts, st) {
            Err(_) => {},
            Ok(st2) => {
                lemma_pass1_split(lines, i + 1, k, consts, st2);
            },
        }
    }
}

/// A label binding, once made, survives the rest of a successful sizing
/// pass unchanged: later lines may only bind fresh names.
pub proof fn lemma_pass1_keeps_binding(
    lines: Seq<Line>,
    i: int,
    consts: Seq<(String, Expr)>,
    st: Pass1State,
    name: Seq<char>,
)
    requires
        spec_pass1_from(lines, i, consts, st) is Ok,
        spec_lookup(st.labels, name) is Some,
    ensures
        spec_lookup(spec_pass1_from(lines, i, consts, st)->Ok_0.labels, name) == spec_lookup(
            st.labels,
            name,
        ),
    decreases lines.len() - i,
{
    if i < 0 || i >= lines.len() {
    } else {
        let st2 = spec_pass1_step(lines[i], consts, st)->Ok_0;
        assert(spec_lookup(st2.labels, name) == spec_lookup(st.labels, name)) by {
            match lines[i].0 {
                None => {},
                Some(lab) => {
                    assert(spec_lookup(st.labels, lab.name@) is None);
                    let pushed = st.labels.push((lab.name, st.pc as u16));
                    assert(pushed.drop_last() =~= st.labels);
                },
            }
        }
        lemma_pass1_keeps_binding(lines, i + 1, consts, st2, name);
    }
}

/// A successful sizing step on a line that defines a label leaves that
/// label bound.
pub proof fn lemma_step_binds_label(line: Line, consts: Seq<(String, Expr)>, st: Pass1State)
    requires
        spec_pass1_step(line, consts, st) is Ok,
        line.0 is Some,
    ensures
        spec_lookup(spec_pass1_step(line, consts, st)->Ok_0.labels, line.0->Some_0.name@)
            is Some,
{
    let lab = line.0->Some_0;
    let pushed = st.labels.push((lab.name, st.pc as u16));
    assert(spec_lookup(pushed, lab.name@) is Some);
}

/// Label uniqueness: a program that defines the same label name on two
/// lines never assembles; and when sizing reaches the second definition,
/// the error is exactly DuplicateLabel for that name.
pub proof fn lemma_label_uniqueness(lines: Seq<Line>, origin: int, i: int, j: int)
    requires
        0 <= i < j < lines.len(),
        lines[i].0 is Some,
        lines[j].0 is Some,
        lines[i].0->Some_0.name@ == lines[j].0->Some_0.name@,
    ensures
        spec_assemble(lines, origin) is Err,
        spec_pass1_from(
            lines.take(j),
            0,
            spec_constants_of(lines),
            spec_pass1_init(origin),
        ) is Ok ==> spec_assemble(lines, origin) == Err::<Seq<u8>, ErrorView>(
            ErrorView::Leaf(ErrorLeaf::DuplicateLabel(lines[j].0->Some_0.name@)),
        ),
{
    let consts = spec_constants_of(lines);
    let init = spec_pass1_init(origin);
    let nm = lines[i].0->Some_0.name@;
    lemma_pass1_split(lines, 0, j, consts, init);
    match spec_pass1_from(lines.take(j), 0, consts, init) {
        Err(_) => {},
        Ok(m) => {
            // within the prefix, cut again right after line i
            lemma_pass1_split(lines.take(j), 0, i + 1, consts, init);
            assert(lines.take(j).take(i + 1) =~= lines.take(i + 1));
            let m1 = spec_pass1_from(lines.take(i + 1), 0, consts, init)->Ok_0;
            // the run up to and including line i binds the name
            lemma_pass1_split(lines.take(i + 1), 0, i, consts, init);
            let m0 = spec_pass1_from(lines.take(i + 1).take(i), 0, consts, init)->Ok_0;
            assert(lines.take(i + 1)[i] == lines[i]);
            lemma_step_binds_label(lines[i], consts, m0);
            assert(spec_pass1_from(lines.take(i + 1), i, consts, m0) == spec_pass1_from(
                lines.take(i + 1),
                i + 1,
                consts,
                spec_pass1_step(lines[i], consts, m0)->Ok_0,
            ));
            assert(m1 == spec_pass1_step(lines[i], consts, m0)->Ok_0);
            assert(spec_lookup(m1.labels, nm) is Some);
            // and it stays bound to the end of the prefix
            lemma_pass1_keeps_binding(lines.take(j), i + 1, consts, m1, nm);
            assert(spec_lookup(m.labels, nm) is Some);
            // so sizing line j fails with DuplicateLabel
            assert(spec_pass1_step(lines[j], consts, m) == Err::<Pass1State, ErrorLeaf>(
                ErrorLeaf::DuplicateLabel(nm),
            ));
        },
    }
}


// ---------------------------------------------------------------------------
// Idempotent `.org`.
// ---------------------------------------------------------------------------

/// `lines2` is `lines1` with the line at `k` — an `.org` whose operand is
/// a closed expression, carrying no label — written twice in a row.
pub open spec fn spec_doubles_org(lines1: Seq<Line>, lines2: Seq<Line>, k: int) -> bool {
    &&& 0 <= k < lines1.len()
    &&& lines2.len() == lines1.len() + 1
    &&& (forall|m: int| 0 <= m <= k ==> lines2[m] == lines1[m])
    &&& lines2[k + 1] == lines1[k]
    &&& (forall|m: int| k + 1 <= m < lines1.len() ==> #[trigger] lines2[m + 1] == lines1[m])
    &&& lines1[k].0 is None
    &&& (lines1[k].1 matches Some(Instruction::Directive(Directive::Org(e)))
        && spec_eval_closed(e) is Some)
}

/// The sizing pass reads only the lines from its index on.
pub proof fn lemma_pass1_shift(
    l1: Seq<Line>,
    i1: int,
    l2: Seq<Line>,
    i2: int,
    consts: Seq<(String, Expr)>,
    st: Pass1State,
)
    requires
        0 <= i1 <= l1.len(),
        0 <= i2 <= l2.len(),
        l1.skip(i1) == l2.skip(i2),
    ensures
        spec_pass1_from(l1, i1, consts, st) == spec_pass1_from(l2, i2, consts, st),
    decreases l1.len() - i1,
{
    assert(l1.skip(i1).len() == l1.len() - i1);
    assert(l2.skip(i2).len() == l2.len() - i2);
    if i1 >= l1.len() {
    } else {
        assert(i2 < l2.len());
        assert(l1[i1] == l1.skip(i1)[0]);
        assert(l2[i2] == l2.skip(i2)[0]);
        match spec_pass1_step(l1[i1], consts, st) {
            Err(_) => {},
            Ok(st2) => {
                assert(l1.skip(i1 + 1) =~= l2.skip(i2 + 1)) by {
                    assert(forall|t: int|
                        0 <= t < l1.skip(i1 + 1).len() ==> #[trigger] l1.skip(i1 + 1)[t]
                            == l1.skip(i1)[t + 1] && l2.skip(i2 + 1)[t] == l2.skip(i2)[t + 1]);
                }
                lemma_pass1_shift(l1, i1 + 1, l2, i2 + 1, consts, st2);
            },
        }
    }
}

/// A data fold that succeeds is independent of the line number it would
/// have reported an error under.
pub proof fn lemma_fold_line_number(
    exprs: Seq<Expr>,
    j: int,
    width: int,
    kind: RefKind,
    labels: Seq<(String, u16)>,
    consts: Seq<(String, Expr)>,
    n1: int,
    n2: int,
    st: Pass2State,
)
    requires
        spec_data_fold(exprs, j, width, kind, labels, consts, n1, st) is Ok,
    ensures
        spec_data_fold(exprs, j, width, kind, labels, consts, n2, st) == spec_data_fold(
            exprs,
            j,
            width,
            kind,
            labels,
            consts,
            n1,
            st,
        ),
    decreases exprs.len() - j,
{
    if j < 0 || j >= exprs.len() {
    } else {
        match spec_eval(exprs[j], labels, consts, st.pc, spec_fuel(consts)) {
            EvalView::Val(v) => {
                let bytes = if width == 1 {
                    seq![v as u8]
                } else {
                    seq![(v % 256) as u8, ((v / 256) % 256) as u8]
                };
                lemma_fold_line_number(
                    exprs,
                    j + 1,
                    width,
                    kind,
                    labels,
                    consts,
                    n1,
                    n2,
                    Pass2State { pc: st.pc + width, bin: st.bin + bytes, ..st },
                );
            },
            EvalView::Unknown(n) => {
                let bytes = if width == 1 {
                    seq![0u8]
                } else {
                    seq![0u8, 0u8]
                };
                lemma_fold_line_number(
                    exprs,
                    j + 1,
                    width,
                    kind,
                    labels,
                    consts,
                    n1,
                    n2,
                    Pass2State {
                        pc: st.pc + width,
                        bin: st.bin + bytes,
                        pend: st.pend.push(
                            PendRef { pos: st.bin.len() as int, addr: st.pc, name: n, kind },
                        ),
                    },
                );
            },
            EvalView::Fail(_) => {},
        }
    }
}

/// An emission step that succeeds is independent of its line number, which
/// only error reports carry.
pub proof fn lemma_step_line_number(
    line: Line,
    n1: int,
    n2: int,
    consts: Seq<(String, Expr)>,
    labels: Seq<(String, u16)>,
    st: Pass2State,
)
    requires
        spec_pass2_step(line, n1, consts, labels, st) is Ok,
    ensures
        spec_pass2_step(line, n2, consts, labels, st) == spec_pass2_step(
            line,
            n1,
            consts,
            labels,
            st,
        ),
{
    match line.1 {
        None => {},
        Some(Instruction::Op(_)) => {},
        Some(Instruction::Directive(d)) => match d {
            Directive::Byte(v) => {
                lemma_fold_line_number(
                    v@,
                    0,
                    1,
                    RefKind::AbsByte,
                    labels,
                    consts,
                    n1,
                    n2,
                    st,
                );
            },
            Directive::Word(v) => {
                lemma_fold_line_number(
                    v@,
                    0,
                    2,
                    RefKind::AbsWord,
                    labels,
                    consts,
                    n1,
                    n2,
                    st,
                );
            },
            _ => {},
        },
    }
}

/// The emission pass reads only the lines from its index on, as long as it
/// succeeds (its line numbering shifts with the index, but only errors
/// carry line numbers).
pub proof fn lemma_pass2_shift(
    l1: Seq<Line>,
    i1: int,
    l2: Seq<Line>,
    i2: int,
    consts: Seq<(String, Expr)>,
    labels: Seq<(String, u16)>,
    st: Pass2State,
)
    requires
        0 <= i1 <= l1.len(),
        0 <= i2 <= l2.len(),
        l1.skip(i1) == l2.skip(i2),
        spec_pass2_from(l1, i1, consts, labels, st) is Ok,
    ensures
        spec_pass2_from(l2, i2, consts, labels, st) == spec_pass2_from(l1, i1, consts, labels, st),
    decreases l1.len() - i1,
{
    assert(l1.skip(i1).len() == l1.len() - i1);
    assert(l2.skip(i2).len() == l2.len() - i2);
    if i1 >= l1.len() {
    } else {
        assert(i2 < l2.len());
        assert(l1[i1] == l1.skip(i1)[0]);
        assert(l2[i2] == l2.skip(i2)[0]);
        let st2 = spec_pass2_step(l1[i1], i1 + 1, consts, labels, st)->Ok_0;
        lemma_step_line_number(l1[i1], i1 + 1, i2 + 1, consts, labels, st);
        assert(l1.skip(i1 + 1) =~= l2.skip(i2 + 1)) by {
            assert(forall|t: int|
                0 <= t < l1.skip(i1 + 1).len() ==> #[trigger] l1.skip(i1 + 1)[t] == l1.skip(i1)[t
                    + 1] && l2.skip(i2 + 1)[t] == l2.skip(i2)[t + 1]);
        }
        lemma_pass2_shift(l1, i1 + 1, l2, i2 + 1, consts, labels, st2);
    }
}

/// The constants of concatenated line sequences are the two collections,
/// concatenated.
pub proof fn lemma_constants_concat(a: Seq<Line>, b: Seq<Line>)
    ensures
        spec_constants_of(a + b) == spec_constants_of(a) + spec_constants_of(b),
    decreases b.len(),
{
    if b.len() == 0 {
        assert(a + b =~= a);
        assert(spec_constants_of(a) + spec_constants_of(b) =~= spec_constants_of(a));
    } else {
        assert((a + b).drop_last() =~= a + b.drop_last());
        assert((a + b).last() == b.last());
        lemma_constants_concat(a, b.drop_last());
        match b.last().1 {
            Some(Instruction::Directive(Directive::Const(name, e))) => {
                assert(spec_constants_of(b) == spec_constants_of(b.drop_last()).push((name, e)));
                assert(spec_constants_of(a) + spec_constants_of(b) =~= (spec_constants_of(a)
                    + spec_constants_of(b.drop_last())).push((name, e)));
            },
            _ => {},
        }
    }
}

/// Doubling the `.org` leaves the sizing pass's outcome unchanged from any
/// point at or before the doubled line.
#[verifier::rlimit(60)]
pub proof fn lemma_p5_pass1(
    lines1: Seq<Line>,
    lines2: Seq<Line>,
    k: int,
    m: int,
    consts: Seq<(String, Expr)>,
    st: Pass1State,
)
    requires
        spec_doubles_org(lines1, lines2, k),
        0 <= m <= k,
    ensures
        spec_pass1_from(lines2, m, consts, st) == spec_pass1_from(lines1, m, consts, st),
    decreases k - m,
{
    if m < k {
        assert(lines2[m] == lines1[m]);
        match spec_pass1_step(lines1[m], consts, st) {
            Err(_) => {},
            Ok(st2) => {
                lemma_p5_pass1(lines1, lines2, k, m + 1, consts, st2);
            },
        }
    } else {
        let line = lines1[k];
        assert(lines2[k] == line && lines2[k + 1] == line);
        let e = line.1->Some_0->Directive_0->Org_0;
        let v = spec_eval_closed(e)->Some_0;
        assert(line.1->Some_0->Directive_0 == Directive::Org(e));
        match spec_pass1_step(line, consts, st) {
            Err(_) => {},
            Ok(st2) => {
                lemma_eval_closed_stable(e, st.labels, consts, st.pc, spec_fuel(consts));
                assert(spec_eval(e, st.labels, consts, st.pc, spec_fuel(consts))
                    == EvalView::Val(v));
                assert(spec_bind_label(line.0, st) == Ok::<Pass1State, ErrorLeaf>(st));
                assert(spec_pass1_step(line, consts, st) == spec_dir1(
                    Directive::Org(e),
                    consts,
                    st,
                ));
                assert(st2 == (Pass1State { pc: v, ..st }));
                lemma_eval_closed_stable(e, st2.labels, consts, st2.pc, spec_fuel(consts));
                assert(spec_pass1_step(line, consts, st2) == Ok::<Pass1State, ErrorLeaf>(st2));
                assert(lines1.skip(k + 1).len() == lines1.len() - (k + 1));
                assert(lines2.skip(k + 2).len() == lines2.len() - (k + 2));
                assert forall|t: int| 0 <= t < lines1.skip(k + 1).len() implies #[trigger] lines1.skip(
                    k + 1,
                )[t] == lines2.skip(k + 2)[t] by {
                    let m = k + 1 + t;
                    assert(lines2[m + 1] == lines1[m]);
                    assert(lines1.skip(k + 1)[t] == lines1[k + 1 + t]);
                    assert(lines2.skip(k + 2)[t] == lines2[k + 2 + t]);
                }
                assert(lines1.skip(k + 1) =~= lines2.skip(k + 2));
                lemma_pass1_shift(lines1, k + 1, lines2, k + 2, consts, st2);
                assert(spec_pass1_from(lines1, k, consts, st) == spec_pass1_from(
                    lines1,
                    k + 1,
                    consts,
                    st2,
                ));
                assert(spec_pass1_from(lines2, k + 1, consts, st2) == spec_pass1_from(
                    lines2,
                    k + 2,
                    consts,
                    st2,
                ));
                assert(spec_pass1_from(lines2, k, consts, st) == spec_pass1_from(
                    lines2,
                    k + 1,
                    consts,
                    st2,
                ));
            },
        }
    }
}

/// Doubling the `.org` leaves a successful emission pass's outcome
/// unchanged from any point at or before the doubled line.
#[verifier::rlimit(60)]
pub proof fn lemma_p5_pass2(
    lines1: Seq<Line>,
    lines2: Seq<Line>,
    k: int,
    m: int,
    consts: Seq<(String, Expr)>,
    labels: Seq<(String, u16)>,
    st: Pass2State,
)
    requires
        spec_doubles_org(lines1, lines2, k),
        0 <= m <= k,
        spec_pass2_from(lines1, m, consts, labels, st) is Ok,
    ensures
        spec_pass2_from(lines2, m, consts, labels, st) == spec_pass2_from(
            lines1,
            m,
            consts,
            labels,
            st,
        ),
    decreases k - m,
{
    if m < k {
        assert(lines2[m] == lines1[m]);
        let st2 = spec_pass2_step(lines1[m], m + 1, consts, labels, st)->Ok_0;
        lemma_p5_pass2(lines1, lines2, k, m + 1, consts, labels, st2);
    } else {
        let line = lines1[k];
        assert(lines2[k] == line && lines2[k + 1] == line);
        let e = line.1->Some_0->Directive_0->Org_0;
        let v = spec_eval_closed(e)->Some_0;
        assert(line.1->Some_0->Directive_0 == Directive::Org(e));
        let st2 = spec_pass2_step(line, k + 1, consts, labels, st)->Ok_0;
        lemma_eval_closed_stable(e, labels, consts, st.pc, spec_fuel(consts));
        assert(spec_eval(e, labels, consts, st.pc, spec_fuel(consts)) == EvalView::Val(v));
        assert(spec_pass2_step(line, k + 1, consts, labels, st) == spec_dir2(
            Directive::Org(e),
            k + 1,
            consts,
            labels,
            st,
        ));
        assert(st2 == (Pass2State { pc: v, ..st }));
        lemma_eval_closed_stable(e, labels, consts, st2.pc, spec_fuel(consts));
        assert(spec_pass2_step(line, k + 2, consts, labels, st2) == Ok::<Pass2State, ErrorView>(
            st2,
        ));
        assert(lines1.skip(k + 1).len() == lines1.len() - (k + 1));
        assert(lines2.skip(k + 2).len() == lines2.len() - (k + 2));
        assert forall|t: int| 0 <= t < lines1.skip(k + 1).len() implies #[trigger] lines1.skip(
            k + 1,
        )[t] == lines2.skip(k + 2)[t] by {
            let m = k + 1 + t;
            assert(lines2[m + 1] == lines1[m]);
            assert(lines1.skip(k + 1)[t] == lines1[k + 1 + t]);
            assert(lines2.skip(k + 2)[t] == lines2[k + 2 + t]);
        }
        assert(lines1.skip(k + 1) =~= lines2.skip(k + 2));
        lemma_pass2_shift(lines1, k + 1, lines2, k + 2, consts, labels, st2);
        assert(spec_pass2_from(lines1, k, consts, labels, st) == spec_pass2_from(
            lines1,
            k + 1,
            consts,
            labels,
            st2,
        ));
        assert(spec_pass2_step(lines2[k + 1], k + 2, consts, labels, st2) == Ok::<
            Pass2State,
            ErrorView,
        >(st2));
        assert(spec_pass2_from(lines2, k + 1, consts, labels, st2) == spec_pass2_from(
            lines2,
            k + 2,
            consts,
            labels,
            st2,
        ));
        assert(spec_pass2_from(lines2, k, consts, labels, st) == spec_pass2_from(
            lines2,
            k + 1,
            consts,
            labels,
            st2,
        ));
    }
}

/// Idempotent `.org`: writing an `.org` twice in a row yields exactly the
/// assembly of writing it once.
///
/// The law asks that the `.org` operand be a closed expression — built
/// from literals and arithmetic alone, `.org $8000` being the usual shape.
/// That restriction is not a proof convenience: an operand that reads `*`
/// moves the program counter a second time (`.org *+1` twice lands two
/// bytes ahead), so the law would be false without it.  An operand over a
/// label keeps the law in fact (its value is fixed by the sizing pass) but
/// is left outside this statement.
pub proof fn lemma_org_idempotent(lines1: Seq<Line>, lines2: Seq<Line>, k: int, origin: int)
    requires
        spec_doubles_org(lines1, lines2, k),
        spec_assemble(lines1, origin) is Ok,
    ensures
        spec_assemble(lines2, origin) == spec_assemble(lines1, origin),
{
    let consts = spec_constants_of(lines1);
    // the doubled org line binds no constant, so both programs share one
    // constant table
    assert(spec_constants_of(lines2) == consts) by {
        let prefix = lines1.take(k + 1);
        let tail = lines1.skip(k + 1);
        let org = seq![lines1[k]];
        assert(prefix.len() == k + 1);
        assert(tail.len() == lines1.len() - (k + 1));
        assert(org.len() == 1);
        assert(lines1 =~= prefix + tail) by {
            assert(forall|t: int|
                0 <= t <= k ==> #[trigger] prefix[t] == lines1[t]);
            assert(forall|t: int|
                0 <= t < tail.len() ==> #[trigger] tail[t] == lines1[k + 1 + t]);
        }
        assert(org[0] == lines1[k]);
        assert forall|t: int| 0 <= t < lines2.len() implies #[trigger] lines2[t] == (prefix + (org
            + tail))[t] by {
            if t <= k {
                assert(prefix[t] == lines1[t]);
                assert((prefix + (org + tail))[t] == prefix[t]);
            } else if t == k + 1 {
                assert((prefix + (org + tail))[t] == (org + tail)[0]);
                assert((org + tail)[0] == org[0]);
            } else {
                let m = t - 1;
                assert(lines2[m + 1] == lines1[m]);
                assert((prefix + (org + tail))[t] == (org + tail)[t - (k + 1)]);
                assert((org + tail)[t - (k + 1)] == tail[t - (k + 2)]);
                assert(tail[t - (k + 2)] == lines1[k + 1 + (t - (k + 2))]);
            }
        }
        assert(lines2 =~= prefix + (org + tail));
        lemma_constants_concat(prefix, tail);
        lemma_constants_concat(prefix, org + tail);
        lemma_constants_concat(org, tail);
        assert(spec_constants_of(org) =~= Seq::<(String, Expr)>::empty()) by {
            assert(org.last() == lines1[k]);
            assert(org.drop_last() =~= Seq::<Line>::empty());
            assert(spec_constants_of(Seq::<Line>::empty()) =~= Seq::<(String, Expr)>::empty());
        }
        assert(spec_constants_of(prefix) + (spec_constants_of(org) + spec_constants_of(tail))
            =~= spec_constants_of(prefix) + spec_constants_of(tail));
    }
    lemma_p5_pass1(lines1, lines2, k, 0, consts, spec_pass1_init(origin));
    let st1 = spec_pass1_from(lines1, 0, consts, spec_pass1_init(origin))->Ok_0;
    lemma_p5_pass2(lines1, lines2, k, 0, consts, st1.labels, spec_pass2_init(origin));
}


// ---------------------------------------------------------------------------
// Unresolved references point into the binary.
// ---------------------------------------------------------------------------

/// Every reference's placeholder lies strictly inside the binary.
pub open spec fn spec_pends_in_bin(pend: Seq<PendRef>, bin: Seq<u8>) -> bool {
    forall|t: int| 0 <= t < pend.len() ==> 0 <= (#[trigger] pend[t]).pos < bin.len()
}

/// The encoder registers a reference only for instructions with at least
/// one operand byte.
pub proof fn lemma_encode_pend_width(
    instr: Op,
    labels: Seq<(String, u16)>,
    consts: Seq<(String, Expr)>,
    pc: int,
    fuel: nat,
)
    ensures
        match spec_encode(instr, labels, consts, pc, fuel) {
            Ok(enc) => enc.1 is Some ==> enc.0.len() >= 2,
            Err(_) => true,
        },
{
}

/// A data directive keeps every reference, old or new, inside the binary.
pub proof fn lemma_data_fold_pends(
    exprs: Seq<Expr>,
    j: int,
    width: int,
    kind: RefKind,
    labels: Seq<(String, u16)>,
    consts: Seq<(String, Expr)>,
    line_no: int,
    st: Pass2State,
)
    requires
        0 <= j <= exprs.len(),
        width == 1 || width == 2,
        spec_data_fold(exprs, j, width, kind, labels, consts, line_no, st) is Ok,
        spec_pends_in_bin(st.pend, st.bin),
    ensures
        ({
            let r = spec_data_fold(exprs, j, width, kind, labels, consts, line_no, st)->Ok_0;
            spec_pends_in_bin(r.pend, r.bin) && r.bin.len() >= st.bin.len()
        }),
    decreases exprs.len() - j,
{
    if j >= exprs.len() {
    } else {
        match spec_eval(exprs[j], labels, consts, st.pc, spec_fuel(consts)) {
            EvalView::Val(v) => {
                let bytes = if width == 1 {
                    seq![v as u8]
                } else {
                    seq![(v % 256) as u8, ((v / 256) % 256) as u8]
                };
                let st2 = Pass2State { pc: st.pc + width, bin: st.bin + bytes, ..st };
                assert(spec_pends_in_bin(st2.pend, st2.bin));
                lemma_data_fold_pends(exprs, j + 1, width, kind, labels, consts, line_no, st2);
            },
            EvalView::Unknown(n) => {
                let bytes = if width == 1 {
                    seq![0u8]
                } else {
                    seq![0u8, 0u8]
                };
                let st2 = Pass2State {
                    pc: st.pc + width,
                    bin: st.bin + bytes,
                    pend: st.pend.push(
                        PendRef { pos: st.bin.len() as int, addr: st.pc, name: n, kind },
                    ),
                };
                assert(spec_pends_in_bin(st2.pend, st2.bin));
                lemma_data_fold_pends(exprs, j + 1, width, kind, labels, consts, line_no, st2);
            },
            EvalView::Fail(_) => {},
        }
    }
}

/// After a successful emission pass, every unresolved reference points at
/// a placeholder strictly inside the binary, ready to be patched.
pub proof fn lemma_pends_in_binary(
    lines: Seq<Line>,
    i: int,
    consts: Seq<(String, Expr)>,
    labels: Seq<(String, u16)>,
    st: Pass2State,
)
    requires
        spec_pass2_from(lines, i, consts, labels, st) is Ok,
        spec_pends_in_bin(st.pend, st.bin),
    ensures
        ({
            let r = spec_pass2_from(lines, i, consts, labels, st)->Ok_0;
            spec_pends_in_bin(r.pend, r.bin)
        }),
    decreases lines.len() - i,
{
    if i < 0 || i >= lines.len() {
    } else {
        let st2 = spec_pass2_step(lines[i], i + 1, consts, labels, st)->Ok_0;
        assert(spec_pends_in_bin(st2.pend, st2.bin)) by {
            match lines[i].1 {
                None => {},
                Some(Instruction::Op(op)) => {
                    lemma_encode_pend_width(op, labels, consts, st.pc, spec_fuel(consts));
                },
                Some(Instruction::Directive(d)) => {
                    match d {
                        Directive::Byte(v) => {
                            lemma_data_fold_pends(
                                v@,
                                0,
                                1,
                                RefKind::AbsByte,
                                labels,
                                consts,
                                i + 1,
                                st,
                            );
                        },
                        Directive::Word(v) => {
                            lemma_data_fold_pends(
                                v@,
                                0,
                                2,
                                RefKind::AbsWord,
                                labels,
                                consts,
                                i + 1,
                                st,
                            );
                        },
                        _ => {},
                    }
                },
            }
        }
        lemma_pends_in_binary(lines, i + 1, consts, labels, st2);
    }
}

} // verus!
