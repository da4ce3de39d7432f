//! Expression evaluation.
//!
//! An expression evaluates to an unsigned integer in `0..=0xFFFF`, looked
//! up under a label table, a constant table and the current program
//! counter.  The result is one of: a value; `Unknown(name)` when the
//! expression reads a name bound nowhere (the seed of an unresolved
//! reference); or a fatal error (malformed literal, value out of range,
//! division by zero, circular constants).  Constant tables are consulted
//! with a fuel bound, so circular `.const` chains end in
//! `InvalidExpression` instead of looping.

use crate::assembler::err_leaf;
use crate::assembler::AssemblerError;
use crate::assembler::ErrorLeaf;
use crate::ast::BinOp;
use crate::ast::CharLiteral;
use crate::ast::Expr;
use crate::ast::LExpr;
use crate::ast::LiteralExpr;
use crate::ast::NumberLiteral;
use crate::ast::RefExpr;
use vstd::prelude::*;
use vstd::string::StringExecFns;
use vstd::string::StrSliceExecFns;

verus! {

/// The outcome of evaluating an expression.
#[derive(Debug, PartialEq, Eq)]
pub enum EvalOutcome {
    Val(u16),
    Unknown(String),
    Fail(AssemblerError),
}

/// Spec-level image of an [`EvalOutcome`].
pub enum EvalView {
    Val(int),
    Unknown(Seq<char>),
    Fail(ErrorLeaf),
}

pub open spec fn outcome_view(o: EvalOutcome) -> EvalView {
    match o {
        EvalOutcome::Val(v) => EvalView::Val(v as int),
        EvalOutcome::Unknown(s) => EvalView::Unknown(s@),
        EvalOutcome::Fail(e) => EvalView::Fail(err_leaf(e)),
    }
}

/// Last-match lookup in an association list: the most recent binding of
/// `name` wins.
pub open spec fn spec_lookup<T>(table: Seq<(String, T)>, name: Seq<char>) -> Option<T>
    decreases table.len(),
{
    if table.len() == 0 {
        None
    } else if table.last().0@ == name {
        Some(table.last().1)
    } else {
        spec_lookup(table.drop_last(), name)
    }
}

/// Exec twin of [`spec_lookup`].
pub fn lookup<'a, T>(table: &'a Vec<(String, T)>, name: &String) -> (r: Option<&'a T>)
    ensures
        match r {
            Some(t) => spec_lookup(table@, name@) == Some(*t),
            None => spec_lookup(table@, name@) is None,
        },
{
    let mut i: usize = table.len();
    proof {
        assert(table@.take(table@.len() as int) =~= table@);
    }
    while i > 0
        invariant
            i <= table@.len(),
            spec_lookup(table@, name@) == spec_lookup(table@.take(i as int), name@),
        decreases i,
    {
        let j = i - 1;
        proof {
            assert(table@.take(i as int).last() == table@[j as int]);
            assert(table@.take(i as int).drop_last() =~= table@.take(j as int));
        }
        if table[j].0 == *name {
            return Some(&table[j].1);
        }
        i = j;
    }
    None
}

/// The value of one digit under the given radix, if it is a valid digit.
pub open spec fn spec_digit_val(c: char, radix: int) -> Option<int> {
    let d: int = if '0' <= c && c <= '9' {
        c as u8 - 48
    } else if 'a' <= c && c <= 'f' {
        c as u8 - 97 + 10
    } else if 'A' <= c && c <= 'F' {
        c as u8 - 65 + 10
    } else {
        255
    };
    if d < radix {
        Some(d)
    } else {
        None
    }
}

/// Exec twin of [`spec_digit_val`].
pub fn digit_val(c: char, radix: u8) -> (r: Option<u8>)
    requires
        radix <= 16,
    ensures
        match r {
            Some(d) => spec_digit_val(c, radix as int) == Some(d as int),
            None => spec_digit_val(c, radix as int) is None,
        },
{
    let d: u8 = if '0' <= c && c <= '9' {
        c as u8 - 48
    } else if 'a' <= c && c <= 'f' {
        c as u8 - 97 + 10
    } else if 'A' <= c && c <= 'F' {
        c as u8 - 65 + 10
    } else {
        255
    };
    if d < radix {
        Some(d)
    } else {
        None
    }
}

/// The value of a digit string under the given radix, most significant
/// digit first; `None` if any character is not a valid digit.
pub open spec fn spec_digits_val(s: Seq<char>, radix: int) -> Option<int>
    decreases s.len(),
{
    if s.len() == 0 {
        Some(0)
    } else {
        match (spec_digits_val(s.drop_last(), radix), spec_digit_val(s.last(), radix)) {
            (Some(v), Some(d)) => Some(v * radix + d),
            _ => None,
        }
    }
}

/// One bad digit anywhere spoils the whole digit string.
pub proof fn lemma_digits_val_invalid(s: Seq<char>, radix: int, k: int)
    requires
        0 <= k < s.len(),
        spec_digit_val(s[k], radix) is None,
    ensures
        spec_digits_val(s, radix) is None,
    decreases s.len(),
{
    if k == s.len() - 1 {
    } else {
        lemma_digits_val_invalid(s.drop_last(), radix, k);
    }
}

/// The outcome of reading `t` as a radix literal whose first `p`
/// characters are the radix prefix: the digit value, a parse error on a
/// bad or missing digit, or a range error above `0xFFFF`.
pub open spec fn spec_radix_text(t: Seq<char>, p: int, radix: int) -> EvalView {
    if t.len() <= p {
        EvalView::Fail(ErrorLeaf::Parse(t))
    } else {
        match spec_digits_val(t.skip(p), radix) {
            None => EvalView::Fail(ErrorLeaf::Parse(t)),
            Some(v) => if v > 0xFFFF {
                EvalView::Fail(ErrorLeaf::ValueOutOfRange(t))
            } else {
                EvalView::Val(v)
            },
        }
    }
}

/// Exec twin of [`spec_radix_text`].  The accumulator saturates at
/// `0x10000`, which stands for every over-range value.
pub fn eval_radix(text: &String, prefix: bool, radix: u8) -> (r: EvalOutcome)
    requires
        radix == 2 || radix == 10 || radix == 16,
    ensures
        outcome_view(r) == spec_radix_text(text@, if prefix { 1int } else { 0int }, radix as int),
        (r matches EvalOutcome::Fail(e) ==> !(e is SourceLineError)),
{
    let n = text.as_str().unicode_len();
    let p: usize = if prefix { 1 } else { 0 };
    if n <= p {
        return EvalOutcome::Fail(AssemblerError::Parse(text.clone()));
    }
    let ghost digits = text@.skip(p as int);
    let mut acc: u32 = 0;
    let mut i: usize = p;
    while i < n
        invariant
            text@.len() == n,
            p <= i <= n,
            p == (if prefix { 1usize } else { 0usize }),
            p < n,
            radix == 2 || radix == 10 || radix == 16,
            digits == text@.skip(p as int),
            ({
                let v = spec_digits_val(digits.take(i - p), radix as int);
                v is Some && ((v->Some_0 <= 0xFFFF && acc == v->Some_0) || (v->Some_0 > 0xFFFF
                    && acc == 0x10000))
            }),
        decreases n - i,
    {
        let c = text.as_str().get_char(i);
        proof {
            assert(digits.take(i + 1 - p).drop_last() =~= digits.take(i - p));
            assert(digits.take(i + 1 - p).last() == digits[i - p]);
            assert(digits[i - p] == text@[i as int]);
        }
        match digit_val(c, radix) {
            None => {
                proof {
                    lemma_digits_val_invalid(digits, radix as int, i - p);
                }
                return EvalOutcome::Fail(AssemblerError::Parse(text.clone()));
            },
            Some(d) => {
                proof {
                    let v = spec_digits_val(digits.take(i - p), radix as int)->Some_0;
                    if v > 0xFFFF {
                        assert(v * radix >= v * 2 >= v + v) by (nonlinear_arith)
                            requires
                                radix >= 2,
                                v > 0,
                        ;
                    }
                }
                if acc <= 0xFFFF {
                    acc = acc * (radix as u32) + (d as u32);
                }
                if acc > 0xFFFF {
                    acc = 0x10000;
                }
            },
        }
        i = i + 1;
    }
    proof {
        assert(digits.take(n - p) =~= digits);
    }
    if acc > 0xFFFF {
        EvalOutcome::Fail(AssemblerError::ValueOutOfRange(text.clone()))
    } else {
        EvalOutcome::Val(acc as u16)
    }
}

/// The outcome of a number literal: its text read under its radix.
pub open spec fn spec_number_eval(n: NumberLiteral) -> EvalView {
    match n {
        NumberLiteral::HexLiteral(s) => if s@.len() >= 1 && s@[0] == '$' {
            spec_radix_text(s@, 1, 16)
        } else {
            EvalView::Fail(ErrorLeaf::Parse(s@))
        },
        NumberLiteral::BinLiteral(s) => if s@.len() >= 1 && s@[0] == '%' {
            spec_radix_text(s@, 1, 2)
        } else {
            EvalView::Fail(ErrorLeaf::Parse(s@))
        },
        NumberLiteral::DecLiteral(s) => spec_radix_text(s@, 0, 10),
    }
}

/// Exec twin of [`spec_number_eval`].
pub fn eval_number(n: &NumberLiteral) -> (r: EvalOutcome)
    ensures
        outcome_view(r) == spec_number_eval(*n),
        (r matches EvalOutcome::Fail(e) ==> !(e is SourceLineError)),
{
    match n {
        NumberLiteral::HexLiteral(s) => {
            if s.as_str().unicode_len() >= 1 && s.as_str().get_char(0) == '$' {
                eval_radix(s, true, 16)
            } else {
                EvalOutcome::Fail(AssemblerError::Parse(s.clone()))
            }
        },
        NumberLiteral::BinLiteral(s) => {
            if s.as_str().unicode_len() >= 1 && s.as_str().get_char(0) == '%' {
                eval_radix(s, true, 2)
            } else {
                EvalOutcome::Fail(AssemblerError::Parse(s.clone()))
            }
        },
        NumberLiteral::DecLiteral(s) => eval_radix(s, false, 10),
    }
}

/// The outcome of a character literal `'c'`: the code of `c`, which must
/// be an eight-bit character between the two quotes.
pub open spec fn spec_char_eval(c: CharLiteral) -> EvalView {
    let s = c.0@;
    if s.len() == 3 && s[0] == '\'' && s[2] == '\'' && (s[1] as u32) <= 0xFF {
        EvalView::Val(s[1] as u32 as int)
    } else {
        EvalView::Fail(ErrorLeaf::Parse(s))
    }
}

/// Exec twin of [`spec_char_eval`].
pub fn eval_char(c: &CharLiteral) -> (r: EvalOutcome)
    ensures
        outcome_view(r) == spec_char_eval(*c),
        (r matches EvalOutcome::Fail(e) ==> !(e is SourceLineError)),
{
    let s = c.0.as_str();
    if s.unicode_len() == 3 && s.get_char(0) == '\'' && s.get_char(2) == '\'' {
        let ch = s.get_char(1);
        let code = ch as u32;
        if code <= 0xFF {
            return EvalOutcome::Val(code as u16);
        }
    }
    EvalOutcome::Fail(AssemblerError::Parse(c.0.clone()))
}

/// The outcome of a literal expression.
pub open spec fn spec_literal_eval(l: LiteralExpr) -> EvalView {
    match l {
        LiteralExpr::NumberLiteral(n) => spec_number_eval(n),
        LiteralExpr::CharLiteral(c) => spec_char_eval(c),
    }
}

/// Exec twin of [`spec_literal_eval`].
pub fn eval_literal(l: &LiteralExpr) -> (r: EvalOutcome)
    ensures
        outcome_view(r) == spec_literal_eval(*l),
        (r matches EvalOutcome::Fail(e) ==> !(e is SourceLineError)),
{
    match l {
        LiteralExpr::NumberLiteral(n) => eval_number(n),
        LiteralExpr::CharLiteral(c) => eval_char(c),
    }
}

/// The outcome of applying a binary operator.  `+`, `-` and `*` must stay
/// within `0..=0xFFFF`; `/` is integer division and rejects a zero
/// divisor; any other operator text is an invalid expression.
pub open spec fn spec_binop_eval(op: BinOp, a: int, b: int) -> EvalView {
    if op.0@.len() == 1 {
        let c = op.0@[0];
        if c == '+' {
            if a + b <= 0xFFFF {
                EvalView::Val(a + b)
            } else {
                EvalView::Fail(ErrorLeaf::ValueOutOfRange(op.0@))
            }
        } else if c == '-' {
            if a - b >= 0 {
                EvalView::Val(a - b)
            } else {
                EvalView::Fail(ErrorLeaf::ValueOutOfRange(op.0@))
            }
        } else if c == '*' {
            if a * b <= 0xFFFF {
                EvalView::Val(a * b)
            } else {
                EvalView::Fail(ErrorLeaf::ValueOutOfRange(op.0@))
            }
        } else if c == '/' {
            if b != 0 {
                EvalView::Val(a / b)
            } else {
                EvalView::Fail(ErrorLeaf::InvalidExpression(op.0@))
            }
        } else {
            EvalView::Fail(ErrorLeaf::InvalidExpression(op.0@))
        }
    } else {
        EvalView::Fail(ErrorLeaf::InvalidExpression(op.0@))
    }
}

/// Exec twin of [`spec_binop_eval`].
pub fn apply_binop(op: &BinOp, a: u16, b: u16) -> (r: EvalOutcome)
    ensures
        outcome_view(r) == spec_binop_eval(*op, a as int, b as int),
        (r matches EvalOutcome::Fail(e) ==> !(e is SourceLineError)),
{
    let s = &op.0;
    if s.as_str().unicode_len() != 1 {
        return EvalOutcome::Fail(AssemblerError::InvalidExpression(s.clone()));
    }
    let c = s.as_str().get_char(0);
    if c == '+' {
        let v = a as u32 + b as u32;
        if v <= 0xFFFF {
            EvalOutcome::Val(v as u16)
        } else {
            EvalOutcome::Fail(AssemblerError::ValueOutOfRange(s.clone()))
        }
    } else if c == '-' {
        if a >= b {
            EvalOutcome::Val(a - b)
        } else {
            EvalOutcome::Fail(AssemblerError::ValueOutOfRange(s.clone()))
        }
    } else if c == '*' {
        proof {
            assert((a as int) * (b as int) <= 0xFFFF * 0xFFFF) by (nonlinear_arith)
                requires
                    a as int <= 0xFFFF,
                    b as int <= 0xFFFF,
            ;
        }
        let v = a as u32 * b as u32;
        if v <= 0xFFFF {
            EvalOutcome::Val(v as u16)
        } else {
            EvalOutcome::Fail(AssemblerError::ValueOutOfRange(s.clone()))
        }
    } else if c == '/' {
        if b != 0 {
            EvalOutcome::Val(a / b)
        } else {
            EvalOutcome::Fail(AssemblerError::InvalidExpression(s.clone()))
        }
    } else {
        EvalOutcome::Fail(AssemblerError::InvalidExpression(s.clone()))
    }
}

/// The outcome of an expression under a label table, a constant table,
/// the current program counter and a fuel bound on constant chains.
pub open spec fn spec_eval(
    e: Expr,
    labels: Seq<(String, u16)>,
    consts: Seq<(String, Expr)>,
    pc: int,
    fuel: nat,
) -> EvalView
    decreases fuel, e,
{
    match e {
        Expr::L(l) => match l {
            LExpr::LiteralExpr(lit) => spec_literal_eval(lit),
            LExpr::RefExpr(r) => match r {
                RefExpr::Pc => if 0 <= pc && pc <= 0xFFFF {
                    EvalView::Val(pc)
                } else {
                    EvalView::Fail(ErrorLeaf::ValueOutOfRange("*"@))
                },
                RefExpr::LabelRef(n) | RefExpr::SymbolRef(n) => match spec_lookup(labels, n@) {
                    Some(v) => EvalView::Val(v as int),
                    None => match spec_lookup(consts, n@) {
                        Some(e2) => if fuel == 0 {
                            EvalView::Fail(ErrorLeaf::InvalidExpression(n@))
                        } else {
                            spec_eval(e2, labels, consts, pc, (fuel - 1) as nat)
                        },
                        None => EvalView::Unknown(n@),
                    },
                },
            },
            LExpr::ParenExpr(p) => spec_eval(*p.0, labels, consts, pc, fuel),
            LExpr::LowerExpr(p) => match spec_eval(*p.0, labels, consts, pc, fuel) {
                EvalView::Val(v) => EvalView::Val(v % 256),
                o => o,
            },
            LExpr::UpperExpr(p) => match spec_eval(*p.0, labels, consts, pc, fuel) {
                EvalView::Val(v) => EvalView::Val(v / 256),
                o => o,
            },
        },
        Expr::Binary(b) => match spec_eval(*b.0, labels, consts, pc, fuel) {
            EvalView::Val(x) => match spec_eval(*b.2, labels, consts, pc, fuel) {
                EvalView::Val(y) => spec_binop_eval(b.1, x, y),
                o => o,
            },
            o => o,
        },
    }
}

/// Exec twin of [`spec_eval`].
pub fn eval_expr(
    e: &Expr,
    labels: &Vec<(String, u16)>,
    consts: &Vec<(String, Expr)>,
    pc: usize,
    fuel: usize,
) -> (r: EvalOutcome)
    ensures
        outcome_view(r) == spec_eval(*e, labels@, consts@, pc as int, fuel as nat),
        (r matches EvalOutcome::Fail(e) ==> !(e is SourceLineError)),
    decreases fuel, e,
{
    match e {
        Expr::L(LExpr::LiteralExpr(lit)) => eval_literal(lit),
        Expr::L(LExpr::RefExpr(RefExpr::Pc)) => {
            if pc <= 0xFFFF {
                EvalOutcome::Val(pc as u16)
            } else {
                EvalOutcome::Fail(AssemblerError::ValueOutOfRange(String::from_str("*")))
            }
        },
        Expr::L(LExpr::RefExpr(RefExpr::LabelRef(n)))
        | Expr::L(LExpr::RefExpr(RefExpr::SymbolRef(n))) => {
            match lookup(labels, n) {
                Some(v) => EvalOutcome::Val(*v),
                None => match lookup(consts, n) {
                    Some(e2) => {
                        if fuel == 0 {
                            EvalOutcome::Fail(AssemblerError::InvalidExpression(n.clone()))
                        } else {
                            eval_expr(e2, labels, consts, pc, fuel - 1)
                        }
                    },
                    None => EvalOutcome::Unknown(n.clone()),
                },
            }
        },
        Expr::L(LExpr::ParenExpr(p)) => eval_expr(&*p.0, labels, consts, pc, fuel),
        Expr::L(LExpr::LowerExpr(p)) => {
            match eval_expr(&*p.0, labels, consts, pc, fuel) {
                EvalOutcome::Val(v) => EvalOutcome::Val(v % 256),
                o => o,
            }
        },
        Expr::L(LExpr::UpperExpr(p)) => {
            match eval_expr(&*p.0, labels, consts, pc, fuel) {
                EvalOutcome::Val(v) => EvalOutcome::Val(v / 256),
                o => o,
            }
        },
        Expr::Binary(b) => {
            match eval_expr(&*b.0, labels, consts, pc, fuel) {
                EvalOutcome::Val(x) => {
                    match eval_expr(&*b.2, labels, consts, pc, fuel) {
                        EvalOutcome::Val(y) => apply_binop(&b.1, x, y),
                        o => o,
                    }
                },
                o => o,
            }
        },
    }
}

/// The value of an expression that uses literals and arithmetic alone:
/// any symbol reference or `*` makes it `None`, as does any evaluation
/// error.  This is what the addressing-mode classifier may look at, so
/// that an instruction's size never depends on label placement.
pub open spec fn spec_eval_closed(e: Expr) -> Option<int>
    decreases e,
{
    match e {
        Expr::L(l) => match l {
            LExpr::LiteralExpr(lit) => match spec_literal_eval(lit) {
                EvalView::Val(v) => Some(v),
                _ => None,
            },
            LExpr::RefExpr(_) => None,
            LExpr::ParenExpr(p) => spec_eval_closed(*p.0),
            LExpr::LowerExpr(p) => match spec_eval_closed(*p.0) {
                Some(v) => Some(v % 256),
                None => None,
            },
            LExpr::UpperExpr(p) => match spec_eval_closed(*p.0) {
                Some(v) => Some(v / 256),
                None => None,
            },
        },
        Expr::Binary(b) => match (spec_eval_closed(*b.0), spec_eval_closed(*b.2)) {
            (Some(x), Some(y)) => match spec_binop_eval(b.1, x, y) {
                EvalView::Val(v) => Some(v),
                _ => None,
            },
            _ => None,
        },
    }
}

/// Exec twin of [`spec_eval_closed`].
pub fn eval_closed(e: &Expr) -> (r: Option<u16>)
    ensures
        match r {
            Some(v) => spec_eval_closed(*e) == Some(v as int),
            None => spec_eval_closed(*e) is None,
        },
    decreases e,
{
    match e {
        Expr::L(LExpr::LiteralExpr(lit)) => {
            match eval_literal(lit) {
                EvalOutcome::Val(v) => Some(v),
                _ => None,
            }
        },
        Expr::L(LExpr::RefExpr(_)) => None,
        Expr::L(LExpr::ParenExpr(p)) => eval_closed(&*p.0),
        Expr::L(LExpr::LowerExpr(p)) => {
            match eval_closed(&*p.0) {
                Some(v) => Some(v % 256),
                None => None,
            }
        },
        Expr::L(LExpr::UpperExpr(p)) => {
            match eval_closed(&*p.0) {
                Some(v) => Some(v / 256),
                None => None,
            }
        },
        Expr::Binary(b) => {
            match (eval_closed(&*b.0), eval_closed(&*b.2)) {
                (Some(x), Some(y)) => match apply_binop(&b.1, x, y) {
                    EvalOutcome::Val(v) => Some(v),
                    _ => None,
                },
                _ => None,
            }
        },
    }
}

/// The name of an expression that is exactly one symbol reference.  A
/// branch operand of this shape is deferred to the patch pass as an
/// unresolved reference; any other branch operand must evaluate at
/// encoding time.
pub open spec fn spec_lone_symbol(e: Expr) -> Option<String> {
    match e {
        Expr::L(LExpr::RefExpr(RefExpr::LabelRef(n))) => Some(n),
        Expr::L(LExpr::RefExpr(RefExpr::SymbolRef(n))) => Some(n),
        _ => None,
    }
}

/// Exec twin of [`spec_lone_symbol`].
pub fn lone_symbol(e: &Expr) -> (r: Option<&String>)
    ensures
        match r {
            Some(n) => spec_lone_symbol(*e) == Some(*n),
            None => spec_lone_symbol(*e) is None,
        },
{
    match e {
        Expr::L(LExpr::RefExpr(RefExpr::LabelRef(n))) => Some(n),
        Expr::L(LExpr::RefExpr(RefExpr::SymbolRef(n))) => Some(n),
        _ => None,
    }
}


/// A valid digit string never has a negative value.
pub proof fn lemma_digits_val_nonneg(s: Seq<char>, radix: int)
    requires
        radix >= 2,
    ensures
        spec_digits_val(s, radix) matches Some(v) ==> v >= 0,
    decreases s.len(),
{
    if s.len() > 0 {
        lemma_digits_val_nonneg(s.drop_last(), radix);
        match (spec_digits_val(s.drop_last(), radix), spec_digit_val(s.last(), radix)) {
            (Some(v), Some(d)) => {
                assert(v * radix >= 0) by (nonlinear_arith)
                    requires
                        v >= 0,
                        radix >= 2,
                ;
            },
            _ => {},
        }
    }
}

/// A radix literal's value lies in `0..=0xFFFF`.
pub proof fn lemma_radix_in_range(t: Seq<char>, p: int, radix: int)
    requires
        radix >= 2,
    ensures
        spec_radix_text(t, p, radix) matches EvalView::Val(v) ==> 0 <= v <= 0xFFFF,
{
    if t.len() > p {
        lemma_digits_val_nonneg(t.skip(p), radix);
    }
}

/// A literal's value lies in `0..=0xFFFF`.
pub proof fn lemma_literal_in_range(l: LiteralExpr)
    ensures
        spec_literal_eval(l) matches EvalView::Val(v) ==> 0 <= v <= 0xFFFF,
{
    match l {
        LiteralExpr::NumberLiteral(n) => match n {
            NumberLiteral::HexLiteral(s) => lemma_radix_in_range(s@, 1, 16),
            NumberLiteral::BinLiteral(s) => lemma_radix_in_range(s@, 1, 2),
            NumberLiteral::DecLiteral(s) => lemma_radix_in_range(s@, 0, 10),
        },
        LiteralExpr::CharLiteral(_) => {},
    }
}

/// An operator applied to in-range values yields an in-range value.
pub proof fn lemma_binop_in_range(op: BinOp, a: int, b: int)
    requires
        0 <= a <= 0xFFFF,
        0 <= b <= 0xFFFF,
    ensures
        spec_binop_eval(op, a, b) matches EvalView::Val(v) ==> 0 <= v <= 0xFFFF,
{
    if op.0@.len() == 1 && op.0@[0] == '/' && b != 0 {
        assert(0 <= a / b <= a) by (nonlinear_arith)
            requires
                a >= 0,
                b >= 1,
        ;
    }
}

/// Every value an expression evaluates to is an unsigned integer in
/// `0..=0xFFFF`.
pub proof fn lemma_eval_in_range(
    e: Expr,
    labels: Seq<(String, u16)>,
    consts: Seq<(String, Expr)>,
    pc: int,
    fuel: nat,
)
    ensures
        spec_eval(e, labels, consts, pc, fuel) matches EvalView::Val(v) ==> 0 <= v <= 0xFFFF,
    decreases fuel, e,
{
    match e {
        Expr::L(l) => match l {
            LExpr::LiteralExpr(lit) => {
                lemma_literal_in_range(lit);
            },
            LExpr::RefExpr(r) => match r {
                RefExpr::Pc => {},
                RefExpr::LabelRef(n) | RefExpr::SymbolRef(n) => {
                    if spec_lookup(labels, n@) is None {
                        match spec_lookup(consts, n@) {
                            Some(e2) => {
                                if fuel != 0 {
                                    lemma_eval_in_range(
                                        e2,
                                        labels,
                                        consts,
                                        pc,
                                        (fuel - 1) as nat,
                                    );
                                }
                            },
                            None => {},
                        }
                    }
                },
            },
            LExpr::ParenExpr(p) => {
                lemma_eval_in_range(*p.0, labels, consts, pc, fuel);
            },
            LExpr::LowerExpr(p) => {
                lemma_eval_in_range(*p.0, labels, consts, pc, fuel);
            },
            LExpr::UpperExpr(p) => {
                lemma_eval_in_range(*p.0, labels, consts, pc, fuel);
            },
        },
        Expr::Binary(b) => {
            lemma_eval_in_range(*b.0, labels, consts, pc, fuel);
            lemma_eval_in_range(*b.2, labels, consts, pc, fuel);
            match (
                spec_eval(*b.0, labels, consts, pc, fuel),
                spec_eval(*b.2, labels, consts, pc, fuel),
            ) {
                (EvalView::Val(x), EvalView::Val(y)) => {
                    lemma_binop_in_range(b.1, x, y);
                },
                _ => {},
            }
        },
    }
}

} // verus!
