//! The parser: lifts ASCII assembly source into the structured program
//! representation.
//!
//! A program is a sequence of newline-separated lines, each
//! `[label:] [instruction | .directive] [; comment]`.  Mnemonics are read
//! case-insensitively; identifiers are case-sensitive.  Numeric literals
//! are `$hex`, `%binary`, decimal and `'c'`; expressions support `+ - * /`,
//! the low/high-byte prefixes `< >`, parentheses, and the bare `*` for the
//! current program counter.  Operand punctuation picks the surface
//! addressing family: `#expr`, `expr`, `expr,x`, `expr,y`, `(expr)`,
//! `(expr,x)` and `(expr),y`.
//!
//! The contracts pin the parser in both directions.  Every parsed line
//! carries exactly the label, body and comment its source line spells
//! ([`spec_line_accepted`]), operands take the family and expression their
//! punctuation selects ([`spec_operand_shape`]), and every expression node
//! records the very characters it was read from ([`spec_expr_from`]).
//! Success is owed wherever the grammar accepts: a program parses whenever
//! every line matches [`spec_line_ok`], and the expression, operand, list
//! and directive parsers succeed exactly on the text their acceptors
//! ([`spec_expr_ok`], [`spec_operand_ok`], [`spec_expr_list_ok`],
//! [`spec_directive_arg_ok`]) describe.

use crate::ast::AddressingMode;
use crate::ast::Ast;
use crate::ast::BinOp;
use crate::ast::BinaryExpr;
use crate::ast::CharLiteral;
use crate::ast::Comment;
use crate::ast::Directive;
use crate::ast::Expr;
use crate::ast::Instruction;
use crate::ast::LExpr;
use crate::ast::Label;
use crate::ast::Line;
use crate::ast::LiteralExpr;
use crate::ast::NumberLiteral;
use crate::ast::Op;
use crate::ast::spec_opcode_of;
use crate::ast::Opcode;
use crate::ast::Operand;
use crate::ast::ParenExpr;
use crate::ast::RefExpr;
use crate::ast::UpperExpr;
use crate::ast::LowerExpr;
use vstd::prelude::*;
use vstd::string::StringExecFns;
use vstd::string::StrSliceExecFns;

verus! {

/// A syntax error: the line it arose on (1-based; 0 for input that is not
/// a line) and what was expected there, or a mnemonic that names no
/// opcode.
#[derive(Debug, PartialEq, Eq)]
pub enum ParseError {
    InvalidSyntax { line: usize, expected: String },
    UnknownOpcode(String),
}

pub open spec fn spec_is_space(c: char) -> bool {
    c == ' ' || c == '\t' || c == '\r'
}

pub open spec fn spec_is_ident_start(c: char) -> bool {
    ('A' <= c && c <= 'Z') || ('a' <= c && c <= 'z') || c == '_'
}

pub open spec fn spec_is_ident_char(c: char) -> bool {
    spec_is_ident_start(c) || ('0' <= c && c <= '9')
}

/// Exec twin of [`spec_is_space`].
pub fn is_space(c: char) -> (r: bool)
    ensures
        r == spec_is_space(c),
{
    c == ' ' || c == '\t' || c == '\r'
}

/// Exec twin of [`spec_is_ident_start`].
pub fn is_ident_start(c: char) -> (r: bool)
    ensures
        r == spec_is_ident_start(c),
{
    ('A' <= c && c <= 'Z') || ('a' <= c && c <= 'z') || c == '_'
}

/// Exec twin of [`spec_is_ident_char`].
pub fn is_ident_char(c: char) -> (r: bool)
    ensures
        r == spec_is_ident_char(c),
{
    is_ident_start(c) || ('0' <= c && c <= '9')
}

/// The first position at or after `i` holding a non-blank character.
pub open spec fn spec_skip_ws(s: Seq<char>, i: int, hi: int) -> int
    decreases hi - i,
{
    if i < hi && spec_is_space(s[i]) {
        spec_skip_ws(s, i + 1, hi)
    } else {
        i
    }
}

/// Exec twin of [`spec_skip_ws`].
pub fn skip_ws(s: &str, i: usize, hi: usize) -> (r: usize)
    requires
        i <= hi <= s@.len(),
    ensures
        r == spec_skip_ws(s@, i as int, hi as int),
        i <= r <= hi,
        forall|m: int| i <= m < r ==> spec_is_space(#[trigger] s@[m]),
        r < hi ==> !spec_is_space(s@[r as int]),
{
    let mut j = i;
    while j < hi
        invariant
            i <= j <= hi,
            hi <= s@.len(),
            spec_skip_ws(s@, i as int, hi as int) == spec_skip_ws(s@, j as int, hi as int),
            forall|m: int| i <= m < j ==> spec_is_space(#[trigger] s@[m]),
        decreases hi - j,
    {
        if !is_space(s.get_char(j)) {
            return j;
        }
        j = j + 1;
    }
    j
}

/// The end of the maximal identifier run at or after `j`.
pub open spec fn spec_ident_end(s: Seq<char>, j: int, hi: int) -> int
    decreases hi - j,
{
    if j < hi && spec_is_ident_char(s[j]) {
        spec_ident_end(s, j + 1, hi)
    } else {
        j
    }
}

/// Exec twin of [`spec_ident_end`], starting after the identifier's first
/// character.
pub fn scan_ident(s: &str, i: usize, hi: usize) -> (r: usize)
    requires
        i < hi <= s@.len(),
        spec_is_ident_start(s@[i as int]),
    ensures
        r == spec_ident_end(s@, i + 1, hi as int),
        i < r <= hi,
        forall|m: int| i <= m < r ==> spec_is_ident_char(#[trigger] s@[m]),
        r < hi ==> !spec_is_ident_char(s@[r as int]),
{
    let mut j = i + 1;
    while j < hi
        invariant
            i < j <= hi,
            hi <= s@.len(),
            spec_ident_end(s@, i + 1, hi as int) == spec_ident_end(s@, j as int, hi as int),
            forall|m: int| i <= m < j ==> spec_is_ident_char(#[trigger] s@[m]),
        decreases hi - j,
    {
        if !is_ident_char(s.get_char(j)) {
            return j;
        }
        j = j + 1;
    }
    j
}

/// The position after the last non-blank character of `s[lo..j)`.
pub open spec fn spec_trim_end(s: Seq<char>, lo: int, j: int) -> int
    decreases j,
{
    if j > lo && j >= 1 && spec_is_space(s[j - 1]) {
        spec_trim_end(s, lo, j - 1)
    } else {
        j
    }
}

/// Exec twin of [`spec_trim_end`].
pub fn trim_right(s: &str, lo: usize, hi: usize) -> (r: usize)
    requires
        lo <= hi <= s@.len(),
    ensures
        r == spec_trim_end(s@, lo as int, hi as int),
        lo <= r <= hi,
{
    let mut j = hi;
    while j > lo
        invariant
            lo <= j <= hi,
            hi <= s@.len(),
            spec_trim_end(s@, lo as int, hi as int) == spec_trim_end(s@, lo as int, j as int),
        decreases j,
    {
        if !is_space(s.get_char(j - 1)) {
            return j;
        }
        j = j - 1;
    }
    j
}

/// The position of the parenthesis that closes depth `depth`, scanning
/// from `j`.
pub open spec fn spec_paren_end(s: Seq<char>, j: int, hi: int, depth: int) -> Option<int>
    decreases hi - j,
{
    if j >= hi {
        None
    } else if s[j] == '(' {
        spec_paren_end(s, j + 1, hi, depth + 1)
    } else if s[j] == ')' {
        if depth == 1 {
            Some(j)
        } else {
            spec_paren_end(s, j + 1, hi, depth - 1)
        }
    } else {
        spec_paren_end(s, j + 1, hi, depth)
    }
}

/// The matching `)` for the `(` at `i`, scanning to `hi`; exec twin of
/// [`spec_paren_end`] from the character after the `(`.
pub fn matching_paren(s: &str, i: usize, hi: usize) -> (r: Option<usize>)
    requires
        i < hi <= s@.len(),
        s@[i as int] == '(',
    ensures
        match r {
            Some(p) => spec_paren_end(s@, i + 1, hi as int, 1) == Some(p as int) && i < p < hi
                && s@[p as int] == ')',
            None => spec_paren_end(s@, i + 1, hi as int, 1) is None,
        },
{
    let mut depth: usize = 1;
    let mut j = i + 1;
    while j < hi
        invariant
            i < j <= hi,
            hi <= s@.len(),
            depth >= 1,
            depth <= j,
            spec_paren_end(s@, i + 1, hi as int, 1) == spec_paren_end(
                s@,
                j as int,
                hi as int,
                depth as int,
            ),
        decreases hi - j,
    {
        let c = s.get_char(j);
        if c == '(' {
            depth = depth + 1;
        } else if c == ')' {
            depth = depth - 1;
            if depth == 0 {
                return Some(j);
            }
        }
        j = j + 1;
    }
    None
}

/// The first `,` at parenthesis depth zero (relative to `depth`) at or
/// after `j`.
pub open spec fn spec_comma_at(s: Seq<char>, j: int, hi: int, depth: int) -> Option<int>
    decreases hi - j,
{
    if j >= hi {
        None
    } else if s[j] == '(' {
        spec_comma_at(s, j + 1, hi, depth + 1)
    } else if s[j] == ')' {
        spec_comma_at(
            s,
            j + 1,
            hi,
            if depth > 0 {
                depth - 1
            } else {
                0
            },
        )
    } else if s[j] == ',' && depth == 0 {
        Some(j)
    } else {
        spec_comma_at(s, j + 1, hi, depth)
    }
}

/// Exec twin of [`spec_comma_at`] from depth zero.
pub fn find_comma(s: &str, lo: usize, hi: usize) -> (r: Option<usize>)
    requires
        lo <= hi <= s@.len(),
    ensures
        match r {
            Some(p) => spec_comma_at(s@, lo as int, hi as int, 0) == Some(p as int) && lo <= p
                < hi && s@[p as int] == ',',
            None => spec_comma_at(s@, lo as int, hi as int, 0) is None,
        },
{
    let mut depth: usize = 0;
    let mut j = lo;
    while j < hi
        invariant
            lo <= j <= hi,
            hi <= s@.len(),
            depth <= j,
            spec_comma_at(s@, lo as int, hi as int, 0) == spec_comma_at(
                s@,
                j as int,
                hi as int,
                depth as int,
            ),
        decreases hi - j,
    {
        let c = s.get_char(j);
        if c == '(' {
            depth = depth + 1;
        } else if c == ')' {
            if depth > 0 {
                depth = depth - 1;
            }
        } else if c == ',' && depth == 0 {
            return Some(j);
        }
        j = j + 1;
    }
    None
}

/// A syntax error at `line_no` expecting `what`.
fn syntax_error(line_no: usize, what: &str) -> (r: ParseError)
    ensures
        r matches ParseError::InvalidSyntax { line, expected } && line == line_no && expected@
            == what@,
{
    ParseError::InvalidSyntax { line: line_no, expected: String::from_str(what) }
}

pub open spec fn spec_is_dec_char(c: char) -> bool {
    '0' <= c && c <= '9'
}

pub open spec fn spec_is_hex_char(c: char) -> bool {
    spec_is_dec_char(c) || ('a' <= c && c <= 'f') || ('A' <= c && c <= 'F')
}

/// Exec twin of [`spec_is_dec_char`].
fn is_digit(c: char) -> (r: bool)
    ensures
        r == spec_is_dec_char(c),
{
    '0' <= c && c <= '9'
}

/// Exec twin of [`spec_is_hex_char`].
fn is_hex_digit(c: char) -> (r: bool)
    ensures
        r == spec_is_hex_char(c),
{
    ('0' <= c && c <= '9') || ('a' <= c && c <= 'f') || ('A' <= c && c <= 'F')
}

/// The end of the maximal run at or after `j` of characters the radix
/// accepts.
pub open spec fn spec_digits_end(s: Seq<char>, j: int, hi: int, hex: bool) -> int
    decreases hi - j,
{
    if j < hi && (if hex {
        spec_is_hex_char(s[j])
    } else {
        spec_is_dec_char(s[j])
    }) {
        spec_digits_end(s, j + 1, hi, hex)
    } else {
        j
    }
}

/// Exec twin of [`spec_digits_end`].
fn scan_digits(s: &str, i: usize, hi: usize, hex: bool) -> (r: usize)
    requires
        i <= hi <= s@.len(),
    ensures
        r == spec_digits_end(s@, i as int, hi as int, hex),
        i <= r <= hi,
{
    let mut j = i;
    while j < hi
        invariant
            i <= j <= hi,
            hi <= s@.len(),
            spec_digits_end(s@, i as int, hi as int, hex) == spec_digits_end(
                s@,
                j as int,
                hi as int,
                hex,
            ),
        decreases hi - j,
    {
        let c = s.get_char(j);
        let ok = if hex {
            is_hex_digit(c)
        } else {
            is_digit(c)
        };
        if !ok {
            return j;
        }
        j = j + 1;
    }
    j
}

/// `spec_skip_ws` never moves left, and never past `hi` when it starts at
/// or before it.
pub proof fn lemma_skip_ws_bounds(s: Seq<char>, i: int, hi: int)
    ensures
        spec_skip_ws(s, i, hi) >= i,
        i <= hi ==> spec_skip_ws(s, i, hi) <= hi,
    decreases hi - i,
{
    if i < hi && spec_is_space(s[i]) {
        lemma_skip_ws_bounds(s, i + 1, hi);
    }
}

/// `spec_ident_end` never moves left, and never past `hi` when it starts
/// at or before it.
pub proof fn lemma_ident_end_bounds(s: Seq<char>, j: int, hi: int)
    ensures
        spec_ident_end(s, j, hi) >= j,
        j <= hi ==> spec_ident_end(s, j, hi) <= hi,
    decreases hi - j,
{
    if j < hi && spec_is_ident_char(s[j]) {
        lemma_ident_end_bounds(s, j + 1, hi);
    }
}

/// `spec_digits_end` never moves left, and never past `hi` when it starts
/// at or before it.
pub proof fn lemma_digits_end_bounds(s: Seq<char>, j: int, hi: int, hex: bool)
    ensures
        spec_digits_end(s, j, hi, hex) >= j,
        j <= hi ==> spec_digits_end(s, j, hi, hex) <= hi,
    decreases hi - j,
{
    if j < hi && (if hex {
        spec_is_hex_char(s[j])
    } else {
        spec_is_dec_char(s[j])
    }) {
        lemma_digits_end_bounds(s, j + 1, hi, hex);
    }
}

/// A closing parenthesis found by `spec_paren_end` lies in `[j, hi)`.
pub proof fn lemma_paren_end_bounds(s: Seq<char>, j: int, hi: int, depth: int)
    ensures
        spec_paren_end(s, j, hi, depth) matches Some(p) ==> j <= p < hi,
    decreases hi - j,
{
    if j < hi {
        if s[j] == '(' {
            lemma_paren_end_bounds(s, j + 1, hi, depth + 1);
        } else if s[j] == ')' {
            if depth != 1 {
                lemma_paren_end_bounds(s, j + 1, hi, depth - 1);
            }
        } else {
            lemma_paren_end_bounds(s, j + 1, hi, depth);
        }
    }
}

/// An atom ends strictly after it starts and within the text.
pub proof fn lemma_atom_end_bounds(s: Seq<char>, i: int, hi: int)
    ensures
        spec_atom_end(s, i, hi) matches Some(j) ==> i < j <= hi,
{
    if 0 <= i && i < hi && hi <= s.len() {
        if s[i] == '(' {
            lemma_paren_end_bounds(s, i + 1, hi, 1);
        } else if s[i] == '$' {
            lemma_digits_end_bounds(s, i + 1, hi, true);
        } else if s[i] == '%' {
            lemma_digits_end_bounds(s, i + 1, hi, false);
        } else if spec_is_dec_char(s[i]) {
            lemma_digits_end_bounds(s, i + 1, hi, false);
            assert(spec_digits_end(s, i, hi, false) == spec_digits_end(s, i + 1, hi, false));
        } else if spec_is_ident_start(s[i]) {
            lemma_ident_end_bounds(s, i + 1, hi);
        }
    }
}

/// Where the non-binary atom starting at `i` ends, or `None` when no atom
/// of the grammar starts there: a parenthesized expression, the `*` token,
/// a radix or character literal, or a name.
pub open spec fn spec_atom_end(s: Seq<char>, i: int, hi: int) -> Option<int>
    decreases hi - i, 0int,
    via spec_atom_end_decreases
{
    if i < 0 || i >= hi || hi > s.len() {
        None
    } else if s[i] == '(' {
        match spec_paren_end(s, i + 1, hi, 1) {
            Some(q) => if spec_expr_ok(s, i + 1, q) {
                Some(q + 1)
            } else {
                None
            },
            None => None,
        }
    } else if s[i] == '*' {
        Some(i + 1)
    } else if s[i] == '$' {
        if spec_digits_end(s, i + 1, hi, true) > i + 1 {
            Some(spec_digits_end(s, i + 1, hi, true))
        } else {
            None
        }
    } else if s[i] == '%' {
        if spec_digits_end(s, i + 1, hi, false) > i + 1 {
            Some(spec_digits_end(s, i + 1, hi, false))
        } else {
            None
        }
    } else if spec_is_dec_char(s[i]) {
        Some(spec_digits_end(s, i, hi, false))
    } else if s[i] == '\'' {
        if hi - i > 2 && s[i + 2] == '\'' {
            Some(i + 3)
        } else {
            None
        }
    } else if spec_is_ident_start(s[i]) {
        Some(spec_ident_end(s, i + 1, hi))
    } else {
        None
    }
}

/// Whether `s[lo..hi)` is an expression of the grammar: an optional `<` or
/// `>` prefix owning the rest, or an atom followed by nothing or by an
/// operator and another expression.
pub open spec fn spec_expr_ok(s: Seq<char>, lo: int, hi: int) -> bool
    decreases hi - lo, 1int,
    via spec_expr_ok_decreases
{
    let i = spec_skip_ws(s, lo, hi);
    if lo < 0 || i >= hi || hi > s.len() {
        false
    } else if s[i] == '<' || s[i] == '>' {
        spec_expr_ok(s, i + 1, hi)
    } else {
        match spec_atom_end(s, i, hi) {
            None => false,
            Some(j) => {
                let k = spec_skip_ws(s, j, hi);
                if k >= hi {
                    true
                } else if k <= i {
                    // an atom is never empty, so the scan cannot stall here
                    false
                } else if s[k] == '+' || s[k] == '-' || s[k] == '*' || s[k] == '/' {
                    spec_expr_ok(s, k + 1, hi)
                } else {
                    false
                }
            },
        }
    }
}

#[via_fn]
proof fn spec_atom_end_decreases(s: Seq<char>, i: int, hi: int) {
    if 0 <= i && i < hi && hi <= s.len() && s[i] == '(' {
        lemma_paren_end_bounds(s, i + 1, hi, 1);
    }
}

#[via_fn]
proof fn spec_expr_ok_decreases(s: Seq<char>, lo: int, hi: int) {
    lemma_skip_ws_bounds(s, lo, hi);
}

/// Where a non-binary atom read at `i` (its first character, blanks
/// skipped) ends: `None` when the atom's shape or recorded text does not
/// match the characters there.  A low/high-byte form never stands as an
/// atom (the grammar gives `<` and `>` the whole rest of the text), and
/// the expression grammar reads every bare name as a symbol reference.
pub open spec fn spec_lexpr_from(l: LExpr, s: Seq<char>, i: int, hi: int) -> Option<int>
    decreases l,
{
    if i < 0 || i >= hi || hi > s.len() {
        None
    } else {
        match l {
            LExpr::ParenExpr(p) => if s[i] == '(' {
                match spec_paren_end(s, i + 1, hi, 1) {
                    Some(q) => if spec_expr_from(*p.0, s, i + 1, q) {
                        Some(q + 1)
                    } else {
                        None
                    },
                    None => None,
                }
            } else {
                None
            },
            LExpr::RefExpr(RefExpr::Pc) => if s[i] == '*' {
                Some(i + 1)
            } else {
                None
            },
            LExpr::RefExpr(RefExpr::SymbolRef(nm)) => if spec_is_ident_start(s[i]) && nm@
                == s.subrange(i, spec_ident_end(s, i + 1, hi)) {
                Some(spec_ident_end(s, i + 1, hi))
            } else {
                None
            },
            LExpr::RefExpr(RefExpr::LabelRef(_)) => None,
            LExpr::LiteralExpr(LiteralExpr::NumberLiteral(NumberLiteral::HexLiteral(t))) => if s[i]
                == '$' && spec_digits_end(s, i + 1, hi, true) > i + 1 && t@ == s.subrange(
                i,
                spec_digits_end(s, i + 1, hi, true),
            ) {
                Some(spec_digits_end(s, i + 1, hi, true))
            } else {
                None
            },
            LExpr::LiteralExpr(LiteralExpr::NumberLiteral(NumberLiteral::BinLiteral(t))) => if s[i]
                == '%' && spec_digits_end(s, i + 1, hi, false) > i + 1 && t@ == s.subrange(
                i,
                spec_digits_end(s, i + 1, hi, false),
            ) {
                Some(spec_digits_end(s, i + 1, hi, false))
            } else {
                None
            },
            LExpr::LiteralExpr(LiteralExpr::NumberLiteral(NumberLiteral::DecLiteral(t))) => if
                spec_is_dec_char(s[i]) && t@ == s.subrange(i, spec_digits_end(s, i, hi, false)) {
                Some(spec_digits_end(s, i, hi, false))
            } else {
                None
            },
            LExpr::LiteralExpr(LiteralExpr::CharLiteral(c)) => if s[i] == '\'' && hi - i > 2
                && s[i + 2] == '\'' && c.0@ == s.subrange(i, i + 3) {
                Some(i + 3)
            } else {
                None
            },
            LExpr::LowerExpr(_) => None,
            LExpr::UpperExpr(_) => None,
        }
    }
}

/// How an expression relates to the text it was read from: a low/high-byte
/// prefix owns the whole rest; a lone atom fills the text to its end; a
/// binary expression is an atom, its one-character operator, and the rest
/// as the right operand (operators group to the right).
pub open spec fn spec_expr_from(e: Expr, s: Seq<char>, lo: int, hi: int) -> bool
    decreases e,
{
    let i = spec_skip_ws(s, lo, hi);
    match e {
        Expr::L(LExpr::LowerExpr(p)) => 0 <= i < hi && hi <= s.len() && s[i] == '<'
            && spec_expr_from(*p.0, s, i + 1, hi),
        Expr::L(LExpr::UpperExpr(p)) => 0 <= i < hi && hi <= s.len() && s[i] == '>'
            && spec_expr_from(*p.0, s, i + 1, hi),
        Expr::L(l) => spec_lexpr_from(l, s, i, hi) matches Some(j) && spec_skip_ws(s, j, hi)
            == hi,
        Expr::Binary(b) => *b.0 matches Expr::L(lex) && !(lex is LowerExpr) && !(lex is UpperExpr)
            && (spec_lexpr_from(lex, s, i, hi) matches Some(j) && {
            let k = spec_skip_ws(s, j, hi);
            &&& k < hi
            &&& (s[k] == '+' || s[k] == '-' || s[k] == '*' || s[k] == '/')
            &&& (b.1).0@ == s.subrange(k, k + 1)
            &&& spec_expr_from(*b.2, s, k + 1, hi)
        }),
    }
}

/// How a built directive relates to its name and raw argument text: kept
/// as `Unknown` exactly when the name is unrecognized, and otherwise
/// carrying the payload its argument spells.
pub open spec fn spec_directive_built(d: Directive, name: Seq<char>, value: Option<Seq<char>>) -> bool {
    &&& ((d is Unknown) <==> !spec_directive_name_known(name))
    &&& (spec_name_org(name) ==> match value {
        Some(v) => ({
            let m = v.len() as int;
            let lo = spec_skip_ws(v, 0, m);
            let hi = spec_trim_end(v, lo, m);
            d matches Directive::Org(e) && spec_expr_from(e, v, lo, hi)
        }),
        None => false,
    })
    &&& (spec_name_const(name) ==> match value {
        Some(v) => ({
            let m = v.len() as int;
            let lo = spec_skip_ws(v, 0, m);
            let hi = spec_trim_end(v, lo, m);
            let j = spec_ident_end(v, lo + 1, hi);
            d matches Directive::Const(cname, e) && cname@ == v.subrange(lo, j)
                && spec_expr_from(e, v, spec_skip_ws(v, j, hi), hi)
        }),
        None => false,
    })
    &&& (spec_name_byte(name) ==> match value {
        Some(v) => ({
            let m = v.len() as int;
            let lo = spec_skip_ws(v, 0, m);
            let hi = spec_trim_end(v, lo, m);
            if spec_arg_quoted(v, lo, hi) {
                d matches Directive::Text(t) && t@ == v.subrange(lo + 1, hi - 1)
            } else {
                d matches Directive::Byte(es) && spec_exprs_from(es@, v, lo, hi)
            }
        }),
        None => false,
    })
    &&& (spec_name_word(name) ==> match value {
        Some(v) => ({
            let m = v.len() as int;
            let lo = spec_skip_ws(v, 0, m);
            let hi = spec_trim_end(v, lo, m);
            d matches Directive::Word(es) && spec_exprs_from(es@, v, lo, hi)
        }),
        None => false,
    })
    &&& (spec_name_text(name) ==> match value {
        Some(v) => ({
            let m = v.len() as int;
            let lo = spec_skip_ws(v, 0, m);
            let hi = spec_trim_end(v, lo, m);
            d matches Directive::Text(t) && t@ == (if spec_arg_quoted(v, lo, hi) {
                v.subrange(lo + 1, hi - 1)
            } else {
                v.subrange(lo, hi)
            })
        }),
        None => false,
    })
}

/// Parses the expression in `s[lo..hi)`: an optional `< > (` prefix form
/// or a literal or reference, optionally followed by a binary operator and
/// the rest of the range as the right operand (operators group to the
/// right, as the grammar reads them).  What it returns is pinned to the
/// text by [`spec_expr_from`].
pub fn parse_expr_text(s: &str, lo: usize, hi: usize, line_no: usize) -> (r: Result<
    Expr,
    ParseError,
>)
    requires
        s.is_ascii(),
        lo <= hi <= s@.len(),
    ensures
        r matches Ok(e) ==> spec_expr_from(e, s@, lo as int, hi as int),
        r is Ok <==> spec_expr_ok(s@, lo as int, hi as int),
    decreases hi - lo,
{
    let i = skip_ws(s, lo, hi);
    if i >= hi {
        return Err(syntax_error(line_no, "an expression"));
    }
    let c = s.get_char(i);
    if c == '<' {
        let inner = parse_expr_text(s, i + 1, hi, line_no)?;
        return Ok(Expr::L(LExpr::LowerExpr(LowerExpr(Box::new(inner)))));
    }
    if c == '>' {
        let inner = parse_expr_text(s, i + 1, hi, line_no)?;
        return Ok(Expr::L(LExpr::UpperExpr(UpperExpr(Box::new(inner)))));
    }
    let (lexpr, after): (LExpr, usize) = if c == '(' {
        match matching_paren(s, i, hi) {
            None => {
                proof {
                    assert(spec_atom_end(s@, i as int, hi as int) is None);
                }
                return Err(syntax_error(line_no, "a closing parenthesis"));
            },
            Some(p) => {
                let inner = match parse_expr_text(s, i + 1, p, line_no) {
                    Ok(e) => e,
                    Err(er) => {
                        proof {
                            assert(spec_atom_end(s@, i as int, hi as int) is None);
                        }
                        return Err(er);
                    },
                };
                proof {
                    assert(spec_atom_end(s@, i as int, hi as int) == Some(p + 1));
                }
                (LExpr::ParenExpr(ParenExpr(Box::new(inner))), p + 1)
            },
        }
    } else if c == '*' {
        proof {
            assert(spec_atom_end(s@, i as int, hi as int) == Some(i + 1));
        }
        (LExpr::RefExpr(RefExpr::Pc), i + 1)
    } else if c == '$' {
        let j = scan_digits(s, i + 1, hi, true);
        if j == i + 1 {
            proof {
                assert(spec_atom_end(s@, i as int, hi as int) is None);
            }
            return Err(syntax_error(line_no, "hexadecimal digits"));
        }
        proof {
            assert(spec_atom_end(s@, i as int, hi as int) == Some(j as int));
        }
        (
            LExpr::LiteralExpr(
                LiteralExpr::NumberLiteral(
                    NumberLiteral::HexLiteral(String::from_str(s.substring_ascii(i, j))),
                ),
            ),
            j,
        )
    } else if c == '%' {
        let j = scan_digits(s, i + 1, hi, false);
        if j == i + 1 {
            proof {
                assert(spec_atom_end(s@, i as int, hi as int) is None);
            }
            return Err(syntax_error(line_no, "binary digits"));
        }
        proof {
            assert(spec_atom_end(s@, i as int, hi as int) == Some(j as int));
        }
        (
            LExpr::LiteralExpr(
                LiteralExpr::NumberLiteral(
                    NumberLiteral::BinLiteral(String::from_str(s.substring_ascii(i, j))),
                ),
            ),
            j,
        )
    } else if is_digit(c) {
        let j = scan_digits(s, i, hi, false);
        proof {
            assert(spec_atom_end(s@, i as int, hi as int) == Some(j as int));
        }
        (
            LExpr::LiteralExpr(
                LiteralExpr::NumberLiteral(
                    NumberLiteral::DecLiteral(String::from_str(s.substring_ascii(i, j))),
                ),
            ),
            j,
        )
    } else if c == '\'' {
        if hi - i > 2 && s.get_char(i + 2) == '\'' {
            proof {
                assert(spec_atom_end(s@, i as int, hi as int) == Some(i + 3));
            }
            (
                LExpr::LiteralExpr(
                    LiteralExpr::CharLiteral(
                        CharLiteral(String::from_str(s.substring_ascii(i, i + 3))),
                    ),
                ),
                i + 3,
            )
        } else {
            proof {
                assert(spec_atom_end(s@, i as int, hi as int) is None);
            }
            return Err(syntax_error(line_no, "a closing quote"));
        }
    } else if is_ident_start(c) {
        let j = scan_ident(s, i, hi);
        proof {
            assert(spec_atom_end(s@, i as int, hi as int) == Some(j as int));
        }
        (
            LExpr::RefExpr(RefExpr::SymbolRef(String::from_str(s.substring_ascii(i, j)))),
            j,
        )
    } else {
        proof {
            assert(spec_atom_end(s@, i as int, hi as int) is None);
        }
        return Err(syntax_error(line_no, "a literal, name or parenthesis"));
    };
    proof {
        assert(spec_lexpr_from(lexpr, s@, i as int, hi as int) == Some(after as int));
        lemma_atom_end_bounds(s@, i as int, hi as int);
    }
    let k = skip_ws(s, after, hi);
    if k >= hi {
        return Ok(Expr::L(lexpr));
    }
    let op = s.get_char(k);
    if op == '+' || op == '-' || op == '*' || op == '/' {
        let rhs = parse_expr_text(s, k + 1, hi, line_no)?;
        Ok(
            Expr::Binary(
                BinaryExpr(
                    Box::new(Expr::L(lexpr)),
                    BinOp(String::from_str(s.substring_ascii(k, k + 1))),
                    Box::new(rhs),
                ),
            ),
        )
    } else {
        Err(syntax_error(line_no, "an operator or the end of the expression"))
    }
}

/// The surface addressing families an operand's punctuation can select;
/// zero-page forms and the relative form are chosen later, by opcode and
/// value.
pub open spec fn spec_surface_mode(m: AddressingMode) -> bool {
    m is Immediate || m is Absolute || m is AbsoluteX || m is AbsoluteY || m is Indirect
        || m is IndexedIndirect || m is IndirectIndexed
}

/// The family and expression text selected by an indexed suffix or its
/// absence: `e`, `e,x`, `e,y`, or a tolerated trailing comma.
pub open spec fn spec_suffix_shape(s: Seq<char>, lo: int, hi: int) -> Option<
    (AddressingMode, int, int),
> {
    match spec_comma_at(s, lo, hi, 0) {
        None => Some((AddressingMode::Absolute, lo, hi)),
        Some(q) => if q == lo {
            None
        } else {
            let k = spec_skip_ws(s, q + 1, hi);
            if k == hi {
                Some((AddressingMode::Absolute, lo, q))
            } else if (s[k] == 'x' || s[k] == 'X') && spec_skip_ws(s, k + 1, hi) == hi {
                Some((AddressingMode::AbsoluteX, lo, q))
            } else if (s[k] == 'y' || s[k] == 'Y') && spec_skip_ws(s, k + 1, hi) == hi {
                Some((AddressingMode::AbsoluteY, lo, q))
            } else {
                None
            }
        },
    }
}

/// The surface family an operand's punctuation selects, with the bounds of
/// its expression text: `#e` is immediate; a parenthesis spanning the text
/// is `(e)`, `(e,x)` or `(e),y`; otherwise an indexed suffix or a plain
/// address.  `None` when the punctuation is malformed.
pub open spec fn spec_operand_shape(s: Seq<char>, lo: int, hi: int) -> Option<
    (AddressingMode, int, int),
> {
    if s[lo] == '#' {
        Some((AddressingMode::Immediate, lo + 1, hi))
    } else if s[lo] == '(' {
        match spec_paren_end(s, lo + 1, hi, 1) {
            None => None,
            Some(p) => match spec_comma_at(s, lo + 1, p, 0) {
                Some(q) => {
                    let k = spec_skip_ws(s, q + 1, p);
                    if k < p && (s[k] == 'x' || s[k] == 'X') && spec_skip_ws(s, k + 1, p) == p
                        && spec_skip_ws(s, p + 1, hi) == hi && q > lo + 1 {
                        Some((AddressingMode::IndexedIndirect, lo + 1, q))
                    } else {
                        spec_suffix_shape(s, lo, hi)
                    }
                },
                None => {
                    let k = spec_skip_ws(s, p + 1, hi);
                    if k == hi {
                        Some((AddressingMode::Indirect, lo + 1, p))
                    } else if s[k] == ',' {
                        let m = spec_skip_ws(s, k + 1, hi);
                        if m < hi && (s[m] == 'y' || s[m] == 'Y') && spec_skip_ws(s, m + 1, hi)
                            == hi {
                            Some((AddressingMode::IndirectIndexed, lo + 1, p))
                        } else {
                            spec_suffix_shape(s, lo, hi)
                        }
                    } else {
                        spec_suffix_shape(s, lo, hi)
                    }
                },
            },
        }
    } else {
        spec_suffix_shape(s, lo, hi)
    }
}

/// Whether `s[lo..hi)` is an operand of the grammar: its punctuation
/// selects a family and the text between is an expression.
pub open spec fn spec_operand_ok(s: Seq<char>, lo: int, hi: int) -> bool {
    match spec_operand_shape(s, lo, hi) {
        Some(t) => spec_expr_ok(s, t.1, t.2),
        None => false,
    }
}

/// Parses the operand text `s[lo..hi)` (no leading or trailing blanks) and
/// records its surface addressing family: `#` is immediate; a leading
/// parenthesis spanning the whole text is one of the indirect forms; a
/// `,x` or `,y` suffix is indexed; anything else is a plain address.  A
/// trailing comma with nothing after it is tolerated and ignored.
pub fn parse_operand_text(s: &str, lo: usize, hi: usize, line_no: usize) -> (r: Result<
    Operand,
    ParseError,
>)
    requires
        s.is_ascii(),
        lo < hi <= s@.len(),
    ensures
        r matches Ok(o) ==> spec_surface_mode(o.0) && (o.0 is Immediate <==> s@[lo as int]
            == '#'),
        r matches Ok(o) ==> (spec_operand_shape(s@, lo as int, hi as int) matches Some(t) && o.0
            == t.0 && spec_expr_from(o.1, s@, t.1, t.2)),
        r is Ok <==> spec_operand_ok(s@, lo as int, hi as int),
{
    let c = s.get_char(lo);
    if c == '#' {
        let e = parse_expr_text(s, lo + 1, hi, line_no)?;
        return Ok(Operand(AddressingMode::Immediate, e));
    }
    if c == '(' {
        match matching_paren(s, lo, hi) {
            None => {
                return Err(syntax_error(line_no, "a closing parenthesis"));
            },
            Some(p) => {
                // a comma inside the parentheses at depth one: `(e,x)`
                match find_comma(s, lo + 1, p) {
                    Some(q) => {
                        let k = skip_ws(s, q + 1, p);
                        if k < p && (s.get_char(k) == 'x' || s.get_char(k) == 'X') && skip_ws(
                            s,
                            k + 1,
                            p,
                        ) == p && skip_ws(s, p + 1, hi) == hi && q > lo + 1 {
                            let e = parse_expr_text(s, lo + 1, q, line_no)?;
                            return Ok(Operand(AddressingMode::IndexedIndirect, e));
                        }
                    },
                    None => {
                        // `(e),y` or a bare `(e)` covering the whole text
                        let k = skip_ws(s, p + 1, hi);
                        if k == hi {
                            let e = parse_expr_text(s, lo + 1, p, line_no)?;
                            return Ok(Operand(AddressingMode::Indirect, e));
                        }
                        if s.get_char(k) == ',' {
                            let m = skip_ws(s, k + 1, hi);
                            if m < hi && (s.get_char(m) == 'y' || s.get_char(m) == 'Y') && skip_ws(
                                s,
                                m + 1,
                                hi,
                            ) == hi {
                                let e = parse_expr_text(s, lo + 1, p, line_no)?;
                                return Ok(Operand(AddressingMode::IndirectIndexed, e));
                            }
                        }
                    },
                }
            },
        }
    }
    // an indexed suffix `,x` or `,y` at depth zero, or a plain address
    match find_comma(s, lo, hi) {
        None => {
            let e = parse_expr_text(s, lo, hi, line_no)?;
            Ok(Operand(AddressingMode::Absolute, e))
        },
        Some(q) => {
            if q == lo {
                return Err(syntax_error(line_no, "an address before the comma"));
            }
            let k = skip_ws(s, q + 1, hi);
            if k == hi {
                // tolerated trailing comma
                let e = parse_expr_text(s, lo, q, line_no)?;
                return Ok(Operand(AddressingMode::Absolute, e));
            }
            let idx = s.get_char(k);
            if (idx == 'x' || idx == 'X') && skip_ws(s, k + 1, hi) == hi {
                let e = parse_expr_text(s, lo, q, line_no)?;
                Ok(Operand(AddressingMode::AbsoluteX, e))
            } else if (idx == 'y' || idx == 'Y') && skip_ws(s, k + 1, hi) == hi {
                let e = parse_expr_text(s, lo, q, line_no)?;
                Ok(Operand(AddressingMode::AbsoluteY, e))
            } else {
                Err(syntax_error(line_no, "an x or y index register"))
            }
        },
    }
}

impl Operand {
    /// Parses one operand from its source text, blanks at either end
    /// ignored: the punctuation picks the family and the expression is
    /// read from the bounds [`spec_operand_shape`] gives.
    pub fn parse(s: &str) -> (r: Result<Operand, ParseError>)
        ensures
            r matches Ok(o) ==> spec_surface_mode(o.0),
            r matches Ok(o) ==> ({
                let n = s@.len() as int;
                let lo = spec_skip_ws(s@, 0, n);
                let hi = spec_trim_end(s@, lo, n);
                &&& spec_operand_shape(s@, lo, hi) matches Some(t) && o.0 == t.0
                    && spec_expr_from(o.1, s@, t.1, t.2)
            }),
            r is Ok <==> vstd::string::is_ascii(s) && ({
                let n = s@.len() as int;
                let lo = spec_skip_ws(s@, 0, n);
                let hi = spec_trim_end(s@, lo, n);
                lo < hi && spec_operand_ok(s@, lo, hi)
            }),
    {
        if !s.is_ascii() {
            return Err(syntax_error(0, "ASCII operand text"));
        }
        let n = s.unicode_len();
        let lo = skip_ws(s, 0, n);
        let hi = trim_right(s, lo, n);
        if lo >= hi {
            return Err(syntax_error(0, "an operand"));
        }
        parse_operand_text(s, lo, hi, 0)
    }
}

/// Whether `s[lo..hi)` is a comma-separated expression list of the
/// grammar: an expression before every depth-zero comma and after the
/// last.
pub open spec fn spec_expr_list_ok(s: Seq<char>, lo: int, hi: int) -> bool
    decreases hi - lo,
{
    match spec_comma_at(s, lo, hi, 0) {
        None => spec_expr_ok(s, lo, hi),
        Some(q) => if q < lo || q >= hi {
            // the comma scan never reports outside its range
            false
        } else {
            spec_expr_ok(s, lo, q) && spec_expr_list_ok(s, q + 1, hi)
        },
    }
}

/// The expressions of a comma-separated list: one per segment, each read
/// from its own text.
pub open spec fn spec_exprs_from(es: Seq<Expr>, s: Seq<char>, lo: int, hi: int) -> bool
    decreases hi - lo,
{
    match spec_comma_at(s, lo, hi, 0) {
        None => es.len() == 1 && spec_expr_from(es[0], s, lo, hi),
        Some(q) => if q < lo || q >= hi {
            false
        } else {
            es.len() >= 1 && spec_expr_from(es[0], s, lo, q) && spec_exprs_from(
                es.drop_first(),
                s,
                q + 1,
                hi,
            )
        },
    }
}

/// Splits `s[lo..hi)` at depth-zero commas and parses each piece as an
/// expression.
fn parse_expr_list(s: &str, lo: usize, hi: usize, line_no: usize) -> (r: Result<
    Vec<Expr>,
    ParseError,
>)
    requires
        s.is_ascii(),
        lo <= hi <= s@.len(),
    ensures
        r matches Ok(v) ==> spec_exprs_from(v@, s@, lo as int, hi as int),
        r is Ok <==> spec_expr_list_ok(s@, lo as int, hi as int),
    decreases hi - lo,
{
    match find_comma(s, lo, hi) {
        None => {
            let e = parse_expr_text(s, lo, hi, line_no)?;
            let mut v: Vec<Expr> = Vec::new();
            v.push(e);
            Ok(v)
        },
        Some(q) => {
            let e = parse_expr_text(s, lo, q, line_no)?;
            let mut rest = parse_expr_list(s, q + 1, hi, line_no)?;
            let ghost rest0 = rest@;
            let mut v: Vec<Expr> = Vec::new();
            v.push(e);
            v.append(&mut rest);
            proof {
                assert(v@.drop_first() =~= rest0);
            }
            Ok(v)
        },
    }
}

/// Lowercases an ASCII letter; leaves every other character alone.
pub open spec fn spec_lower(c: char) -> char {
    if 'A' <= c && c <= 'Z' {
        ((c as u8) + 32) as char
    } else {
        c
    }
}

/// Exec twin of [`spec_lower`].
fn lower(c: char) -> (r: char)
    ensures
        r == spec_lower(c),
{
    if 'A' <= c && c <= 'Z' {
        ((c as u8) + 32) as char
    } else {
        c
    }
}

/// Whether a name, read case-insensitively, is `org`.
pub open spec fn spec_name_org(s: Seq<char>) -> bool {
    s.len() == 3 && spec_lower(s[0]) == 'o' && spec_lower(s[1]) == 'r' && spec_lower(s[2]) == 'g'
}

/// Whether a name, read case-insensitively, is `const`.
pub open spec fn spec_name_const(s: Seq<char>) -> bool {
    s.len() == 5 && spec_lower(s[0]) == 'c' && spec_lower(s[1]) == 'o' && spec_lower(s[2]) == 'n'
        && spec_lower(s[3]) == 's' && spec_lower(s[4]) == 't'
}

/// Whether a name, read case-insensitively, is `byte` or `db`.
pub open spec fn spec_name_byte(s: Seq<char>) -> bool {
    ||| (s.len() == 4 && spec_lower(s[0]) == 'b' && spec_lower(s[1]) == 'y' && spec_lower(s[2])
        == 't' && spec_lower(s[3]) == 'e')
    ||| (s.len() == 2 && spec_lower(s[0]) == 'd' && spec_lower(s[1]) == 'b')
}

/// Whether a name, read case-insensitively, is `word` or `dw`.
pub open spec fn spec_name_word(s: Seq<char>) -> bool {
    ||| (s.len() == 4 && spec_lower(s[0]) == 'w' && spec_lower(s[1]) == 'o' && spec_lower(s[2])
        == 'r' && spec_lower(s[3]) == 'd')
    ||| (s.len() == 2 && spec_lower(s[0]) == 'd' && spec_lower(s[1]) == 'w')
}

/// Whether a name, read case-insensitively, is `text` or `ascii`.
pub open spec fn spec_name_text(s: Seq<char>) -> bool {
    ||| (s.len() == 4 && spec_lower(s[0]) == 't' && spec_lower(s[1]) == 'e' && spec_lower(s[2])
        == 'x' && spec_lower(s[3]) == 't')
    ||| (s.len() == 5 && spec_lower(s[0]) == 'a' && spec_lower(s[1]) == 's' && spec_lower(s[2])
        == 'c' && spec_lower(s[3]) == 'i' && spec_lower(s[4]) == 'i')
}

/// Whether a directive name, read case-insensitively, is one the grammar
/// knows: `org`, `const`, `byte`, `db`, `word`, `dw`, `text` or `ascii`.
pub open spec fn spec_directive_name_known(s: Seq<char>) -> bool {
    spec_name_org(s) || spec_name_const(s) || spec_name_byte(s) || spec_name_word(s)
        || spec_name_text(s)
}

/// Whether a directive argument is a quoted string, once trimmed.
pub open spec fn spec_arg_quoted(v: Seq<char>, lo: int, hi: int) -> bool {
    hi - lo >= 2 && v[lo] == '"' && v[hi - 1] == '"'
}

/// Whether a known directive's argument text is acceptable: an expression
/// for `.org`, a name and an expression for `.const`, a quoted string or
/// an expression list for `.byte`/`.db`, an expression list for
/// `.word`/`.dw`, and anything nonempty for `.text`/`.ascii`.
pub open spec fn spec_directive_arg_ok(name: Seq<char>, v: Seq<char>) -> bool {
    let m = v.len() as int;
    let lo = spec_skip_ws(v, 0, m);
    let hi = spec_trim_end(v, lo, m);
    &&& lo < hi
    &&& (if spec_name_org(name) {
        spec_expr_ok(v, lo, hi)
    } else if spec_name_const(name) {
        spec_is_ident_start(v[lo]) && ({
            let j = spec_ident_end(v, lo + 1, hi);
            let k = spec_skip_ws(v, j, hi);
            k < hi && spec_expr_ok(v, k, hi)
        })
    } else if spec_name_byte(name) {
        spec_arg_quoted(v, lo, hi) || spec_expr_list_ok(v, lo, hi)
    } else if spec_name_word(name) {
        spec_expr_list_ok(v, lo, hi)
    } else {
        true
    })
}

impl Directive {
    /// Builds a directive from its name (read case-insensitively) and its
    /// raw argument text.  `.byte`/`.db` with a quoted argument and
    /// `.text`/`.ascii` yield `Text`; a name the grammar does not know is
    /// kept untouched as `Unknown`, for the assembler to reject.
    pub fn from(name: String, value: Option<String>) -> (r: Result<Directive, ParseError>)
        ensures
            r matches Ok(d) ==> ((d matches Directive::Unknown(n2, v2) && n2 == name && v2
                == value) <==> !spec_directive_name_known(name@)),
            r matches Ok(d) ==> spec_directive_built(
                d,
                name@,
                match value {
                    Some(v) => Some(v@),
                    None => None,
                },
            ),
            r is Ok <==> vstd::string::string_is_ascii(&name) && (!spec_directive_name_known(
                name@,
            ) || (match value {
                Some(v) => vstd::string::string_is_ascii(&v) && spec_directive_arg_ok(name@, v@),
                None => false,
            })),
    {
        if !name.as_str().is_ascii() {
            return Err(syntax_error(0, "an ASCII directive name"));
        }
        let n = name.as_str().unicode_len();
        // read up to five lowercased name characters
        let c0 = if n > 0 { lower(name.as_str().get_char(0)) } else { ' ' };
        let c1 = if n > 1 { lower(name.as_str().get_char(1)) } else { ' ' };
        let c2 = if n > 2 { lower(name.as_str().get_char(2)) } else { ' ' };
        let c3 = if n > 3 { lower(name.as_str().get_char(3)) } else { ' ' };
        let c4 = if n > 4 { lower(name.as_str().get_char(4)) } else { ' ' };
        let is_org = n == 3 && c0 == 'o' && c1 == 'r' && c2 == 'g';
        let is_const = n == 5 && c0 == 'c' && c1 == 'o' && c2 == 'n' && c3 == 's' && c4 == 't';
        let is_byte = (n == 4 && c0 == 'b' && c1 == 'y' && c2 == 't' && c3 == 'e') || (n == 2 && c0
            == 'd' && c1 == 'b');
        let is_word = (n == 4 && c0 == 'w' && c1 == 'o' && c2 == 'r' && c3 == 'd') || (n == 2 && c0
            == 'd' && c1 == 'w');
        let is_text = (n == 4 && c0 == 't' && c1 == 'e' && c2 == 'x' && c3 == 't') || (n == 5 && c0
            == 'a' && c1 == 's' && c2 == 'c' && c3 == 'i' && c4 == 'i');
        if !(is_org || is_const || is_byte || is_word || is_text) {
            return Ok(Directive::Unknown(name, value));
        }
        let arg = match value {
            None => {
                return Err(syntax_error(0, "a directive argument"));
            },
            Some(v) => v,
        };
        if !arg.as_str().is_ascii() {
            return Err(syntax_error(0, "an ASCII directive argument"));
        }
        let a = arg.as_str();
        let m = a.unicode_len();
        let lo = skip_ws(a, 0, m);
        let hi = trim_right(a, lo, m);
        if lo >= hi {
            return Err(syntax_error(0, "a directive argument"));
        }
        let quoted = hi - lo >= 2 && a.get_char(lo) == '"' && a.get_char(hi - 1) == '"';
        if is_org {
            let e = parse_expr_text(a, lo, hi, 0)?;
            return Ok(Directive::Org(e));
        }
        if is_const {
            if !is_ident_start(a.get_char(lo)) {
                return Err(syntax_error(0, "a constant name"));
            }
            let j = scan_ident(a, lo, hi);
            let cname = String::from_str(a.substring_ascii(lo, j));
            let k = skip_ws(a, j, hi);
            if k >= hi {
                return Err(syntax_error(0, "a constant value"));
            }
            let e = parse_expr_text(a, k, hi, 0)?;
            return Ok(Directive::Const(cname, e));
        }
        if is_byte {
            if quoted {
                return Ok(Directive::Text(String::from_str(a.substring_ascii(lo + 1, hi - 1))));
            }
            let exprs = parse_expr_list(a, lo, hi, 0)?;
            return Ok(Directive::Byte(exprs));
        }
        if is_word {
            let exprs = parse_expr_list(a, lo, hi, 0)?;
            return Ok(Directive::Word(exprs));
        }
        // .text / .ascii
        if quoted {
            Ok(Directive::Text(String::from_str(a.substring_ascii(lo + 1, hi - 1))))
        } else {
            Ok(Directive::Text(String::from_str(a.substring_ascii(lo, hi))))
        }
    }

    /// Builds a directive from its name and argument text; an empty
    /// argument counts as none.
    pub fn new(name: &str, value: &str) -> (r: Result<Directive, ParseError>)
        ensures
            r matches Ok(d) ==> ((d is Unknown) <==> !spec_directive_name_known(name@)),
            r matches Ok(d) ==> (spec_name_org(name@) ==> d is Org) && (spec_name_const(name@)
                ==> d is Const) && (spec_name_byte(name@) ==> d is Byte || d is Text) && (
            spec_name_word(name@) ==> d is Word) && (spec_name_text(name@) ==> d is Text),
            vstd::string::is_ascii(name) && vstd::string::is_ascii(value) && (
            !spec_directive_name_known(name@) || spec_directive_arg_ok(name@, value@)) ==> r
                is Ok,
    {
        if !value.is_ascii() {
            return Err(syntax_error(0, "an ASCII directive argument"));
        }
        let m = value.unicode_len();
        let lo = skip_ws(value, 0, m);
        let arg = if lo >= m {
            None
        } else {
            Some(String::from_str(value))
        };
        Directive::from(String::from_str(name), arg)
    }
}

/// The label a line's opening text defines: the leading identifier, when a
/// `:` follows it directly.
pub open spec fn spec_line_label(s: Seq<char>) -> Option<Seq<char>> {
    let i = spec_skip_ws(s, 0, s.len() as int);
    if i < s.len() && spec_is_ident_start(s[i]) {
        let j = spec_ident_end(s, i + 1, s.len() as int);
        if j < s.len() && s[j] == ':' {
            Some(s.subrange(i, j))
        } else {
            None
        }
    } else {
        None
    }
}

/// Where a line's body (instruction or directive) begins: after the label,
/// if any, blanks skipped.
pub open spec fn spec_body_start(s: Seq<char>) -> int {
    let n = s.len() as int;
    let i = spec_skip_ws(s, 0, n);
    if i < n && spec_is_ident_start(s[i]) {
        let j = spec_ident_end(s, i + 1, n);
        if j < n && s[j] == ':' {
            spec_skip_ws(s, j + 1, n)
        } else {
            i
        }
    } else {
        i
    }
}

/// What an accepted line's body holds, read at [`spec_body_start`]: nothing
/// when the text there is empty or a comment; a directive after `.`, kept
/// as `Unknown` exactly when its name is not recognized; otherwise a
/// machine operation whose opcode the mnemonic text names and whose
/// operand, when the text has one, has the shape its punctuation selects.
pub open spec fn spec_line_body(l: Line, s: Seq<char>) -> bool {
    let n = s.len() as int;
    let i = spec_body_start(s);
    let stop = match spec_semi_at(s, i, n) {
        Some(p) => p,
        None => n,
    };
    if i >= n || s[i] == ';' {
        l.1 is None
    } else if s[i] == '.' {
        l.1 matches Some(Instruction::Directive(d)) && i + 1 < stop && spec_is_ident_start(
            s[i + 1],
        ) && ({
            let j = spec_ident_end(s, i + 2, stop);
            let k = spec_skip_ws(s, j, stop);
            let h2 = spec_trim_end(s, k, stop);
            spec_directive_built(
                d,
                s.subrange(i + 1, j),
                if k >= h2 {
                    None
                } else {
                    Some(s.subrange(k, h2))
                },
            )
        })
    } else {
        l.1 matches Some(Instruction::Op(op)) && spec_is_ident_start(s[i]) && ({
            let j = spec_ident_end(s, i + 1, stop);
            let k = spec_skip_ws(s, j, stop);
            let h2 = spec_trim_end(s, k, stop);
            &&& spec_opcode_of(s.subrange(i, j)) == Some(op.0)
            &&& (op.1 is None <==> k >= h2)
            &&& (op.1 matches Some(o) ==> spec_operand_shape(s, k, h2) matches Some(t) && o.0
                == t.0 && spec_expr_from(o.1, s, t.1, t.2))
        })
    }
}

/// The first newline at or after `j`.
pub open spec fn spec_nl_at(s: Seq<char>, j: int) -> Option<int>
    decreases s.len() - j,
{
    if j < 0 || j >= s.len() {
        None
    } else if s[j] == '\n' {
        Some(j)
    } else {
        spec_nl_at(s, j + 1)
    }
}

/// Scanning for the first newline may start anywhere after a region that
/// holds none.
pub proof fn lemma_nl_at_shift(s: Seq<char>, a: int, b: int)
    requires
        0 <= a <= b <= s.len(),
        forall|m: int| a <= m < b ==> (#[trigger] s[m]) != '\n',
    ensures
        spec_nl_at(s, a) == spec_nl_at(s, b),
    decreases b - a,
{
    if a < b {
        lemma_nl_at_shift(s, a + 1, b);
    }
}

/// Where the line numbered `k` (0-based) starts: one past its predecessor's
/// newline.
pub open spec fn spec_line_start(s: Seq<char>, k: int) -> int
    decreases k,
{
    if k <= 0 {
        0
    } else {
        match spec_nl_at(s, spec_line_start(s, k - 1)) {
            Some(p) => p + 1,
            None => s.len() as int,
        }
    }
}

/// A prefix never holds more newlines than the whole text.
pub proof fn lemma_newline_count_take_le(s: Seq<char>, k: int)
    requires
        0 <= k <= s.len(),
    ensures
        spec_newline_count(s.take(k)) <= spec_newline_count(s),
    decreases s.len() - k,
{
    if k < s.len() {
        assert(s.take(k + 1).drop_last() =~= s.take(k));
        lemma_newline_count_take_le(s, k + 1);
    } else {
        assert(s.take(k) =~= s);
    }
}

/// Where the line numbered `k` ends: at its newline, or the end of the
/// text.
pub open spec fn spec_line_end(s: Seq<char>, k: int) -> int {
    match spec_nl_at(s, spec_line_start(s, k)) {
        Some(p) => p,
        None => s.len() as int,
    }
}

/// Whether a source line matches the line grammar: blanks and an optional
/// comment alone; or, after an optional label, a directive whose argument
/// its name accepts, or a known mnemonic with at most one well-formed
/// operand, each before the optional comment.
pub open spec fn spec_line_ok(s: Seq<char>) -> bool {
    let n = s.len() as int;
    let i = spec_body_start(s);
    let stop = match spec_semi_at(s, i, n) {
        Some(p) => p,
        None => n,
    };
    if i >= n || s[i] == ';' {
        true
    } else if s[i] == '.' {
        i + 1 < stop && spec_is_ident_start(s[i + 1]) && ({
            let j = spec_ident_end(s, i + 2, stop);
            let k = spec_skip_ws(s, j, stop);
            let h2 = spec_trim_end(s, k, stop);
            !spec_directive_name_known(s.subrange(i + 1, j)) || (k < h2 && spec_directive_arg_ok(
                s.subrange(i + 1, j),
                s.subrange(k, h2),
            ))
        })
    } else if spec_is_ident_start(s[i]) {
        let j = spec_ident_end(s, i + 1, stop);
        spec_opcode_of(s.subrange(i, j)) is Some && ({
            let k = spec_skip_ws(s, j, stop);
            let h2 = spec_trim_end(s, k, stop);
            k >= h2 || spec_operand_ok(s, k, h2)
        })
    } else {
        false
    }
}

/// What the parser guarantees of every line it accepts: a label, if any,
/// is a nonempty identifier with no address assigned yet, and a comment,
/// if any, opens with `;`.
pub open spec fn spec_line_wf(l: Line) -> bool {
    &&& (l.0 matches Some(lab) ==> lab.name@.len() > 0 && spec_is_ident_start(lab.name@[0]) && (
    forall|m: int| 0 <= m < lab.name@.len() ==> spec_is_ident_char(#[trigger] lab.name@[m]))
        && lab.position is None)
    &&& (l.2 matches Some(c) ==> c.0@.len() > 0 && c.0@[0] == ';')
}

/// Everything an accepted line promises of its source text: well-formed,
/// its label exactly the leading `name:`, its comment exactly the text
/// from the first `;`, and its body as [`spec_line_body`] reads it.
pub open spec fn spec_line_accepted(l: Line, s: Seq<char>) -> bool {
    &&& spec_line_wf(l)
    &&& match spec_line_label(s) {
        Some(nm) => l.0 matches Some(lab) && lab.name@ == nm,
        None => l.0 is None,
    }
    &&& match spec_semi_at(s, 0, s.len() as int) {
        Some(p) => l.2 matches Some(c) && c.0@ == s.subrange(p, s.len() as int),
        None => l.2 is None,
    }
    &&& spec_line_body(l, s)
}

/// Parses one source line: `[label:] [instruction | .directive]
/// [; comment]`.
#[verifier::rlimit(100)]
pub fn parse_line(s: &str, line_no: usize) -> (r: Result<Line, ParseError>)
    requires
        s.is_ascii(),
    ensures
        r matches Ok(l) ==> spec_line_accepted(l, s@),
        spec_line_ok(s@) ==> r is Ok,
{
    let n = s.unicode_len();
    let mut label: Option<Label> = None;
    let mut instruction: Option<Instruction> = None;
    let mut comment: Option<Comment> = None;
    let mut i = skip_ws(s, 0, n);
    // a label: an identifier directly followed by `:`
    if i < n && is_ident_start(s.get_char(i)) {
        let j = scan_ident(s, i, n);
        if j < n && s.get_char(j) == ':' {
            label = Some(Label::new(s.substring_ascii(i, j)));
            i = skip_ws(s, j + 1, n);
        }
    }
    proof {
        assert(forall|m: int| 0 <= m < i ==> (#[trigger] s@[m]) != ';');
        lemma_semi_at_shift(s@, 0, i as int, n as int);
    }
    // an instruction or a directive
    if i < n && s.get_char(i) != ';' {
        // its argument text runs to the comment or the end of the line
        let stop = match find_semicolon(s, i, n) {
            Some(q) => q,
            None => n,
        };
        if s.get_char(i) == '.' {
            if i + 1 >= stop || !is_ident_start(s.get_char(i + 1)) {
                return Err(syntax_error(line_no, "a directive name"));
            }
            let j = scan_ident(s, i + 1, stop);
            let name = String::from_str(s.substring_ascii(i + 1, j));
            let k = skip_ws(s, j, stop);
            let hi = trim_right(s, k, stop);
            let value = if k >= hi {
                None
            } else {
                Some(String::from_str(s.substring_ascii(k, hi)))
            };
            let d = match Directive::from(name, value) {
                Ok(d) => d,
                Err(_) => {
                    return Err(syntax_error(line_no, "a directive argument"));
                },
            };
            instruction = Some(Instruction::Directive(d));
            i = stop;
        } else if is_ident_start(s.get_char(i)) {
            let j = scan_ident(s, i, stop);
            let opcode = match Opcode::from_str(s.substring_ascii(i, j)) {
                Ok(o) => o,
                Err(m) => {
                    return Err(ParseError::UnknownOpcode(m));
                },
            };
            let k = skip_ws(s, j, stop);
            let hi = trim_right(s, k, stop);
            let operand = if k >= hi {
                None
            } else {
                Some(parse_operand_text(s, k, hi, line_no)?)
            };
            instruction = Some(Instruction::Op(Op(opcode, operand)));
            i = stop;
        } else {
            return Err(syntax_error(line_no, "a label, instruction or comment"));
        }
    }
    // a comment runs to the end of the line
    let c = skip_ws(s, i, n);
    if c < n {
        if s.get_char(c) == ';' {
            comment = Some(Comment(String::from_str(s.substring_ascii(c, n))));
        } else {
            return Err(syntax_error(line_no, "the end of the line or a comment"));
        }
    }
    Ok(Line(label, instruction, comment))
}

/// The first `;` at or after `j`.
pub open spec fn spec_semi_at(s: Seq<char>, j: int, hi: int) -> Option<int>
    decreases hi - j,
{
    if j >= hi {
        None
    } else if s[j] == ';' {
        Some(j)
    } else {
        spec_semi_at(s, j + 1, hi)
    }
}

/// Scanning for the first `;` may start anywhere after a region that holds
/// none.
pub proof fn lemma_semi_at_shift(s: Seq<char>, a: int, b: int, hi: int)
    requires
        0 <= a <= b <= hi <= s.len(),
        forall|m: int| a <= m < b ==> (#[trigger] s[m]) != ';',
    ensures
        spec_semi_at(s, a, hi) == spec_semi_at(s, b, hi),
    decreases b - a,
{
    if a < b {
        lemma_semi_at_shift(s, a + 1, b, hi);
    }
}

/// Exec twin of [`spec_semi_at`].
fn find_semicolon(s: &str, lo: usize, hi: usize) -> (r: Option<usize>)
    requires
        lo <= hi <= s@.len(),
    ensures
        match r {
            Some(p) => spec_semi_at(s@, lo as int, hi as int) == Some(p as int) && lo <= p < hi
                && s@[p as int] == ';',
            None => spec_semi_at(s@, lo as int, hi as int) is None,
        },
{
    let mut j = lo;
    while j < hi
        invariant
            lo <= j <= hi,
            hi <= s@.len(),
            spec_semi_at(s@, lo as int, hi as int) == spec_semi_at(s@, j as int, hi as int),
        decreases hi - j,
    {
        if s.get_char(j) == ';' {
            return Some(j);
        }
        j = j + 1;
    }
    None
}

/// How many newline characters a text holds.
pub open spec fn spec_newline_count(s: Seq<char>) -> int
    decreases s.len(),
{
    if s.len() == 0 {
        0
    } else {
        spec_newline_count(s.drop_last()) + (if s.last() == '\n' {
            1int
        } else {
            0int
        })
    }
}

/// The recognizer for the assembly grammar.
#[derive(Debug)]
pub struct RusmParser;

impl RusmParser {
    /// Parses a whole program: one [`Line`] per newline-separated source
    /// line (a trailing newline yields a final empty line, as the line
    /// count states).  The source must be ASCII.
    pub fn from_source(src: &str) -> (r: Result<Ast, ParseError>)
        ensures
            r matches Ok(ast) ==> ast.lines@.len() == spec_newline_count(src@) + 1 && (forall|
                k: int,
            |
                0 <= k < ast.lines@.len() ==> spec_line_accepted(
                    #[trigger] ast.lines@[k],
                    src@.subrange(spec_line_start(src@, k), spec_line_end(src@, k)),
                )),
            vstd::string::is_ascii(src) && (forall|k: int|
                0 <= k <= spec_newline_count(src@) ==> spec_line_ok(
                    #[trigger] src@.subrange(spec_line_start(src@, k), spec_line_end(src@, k)),
                )) ==> r is Ok,
    {
        if !src.is_ascii() {
            return Err(syntax_error(0, "ASCII source text"));
        }
        let n = src.unicode_len();
        let mut lines: Vec<Line> = Vec::new();
        let mut start: usize = 0;
        let mut line_no: usize = 1;
        let mut k: usize = 0;
        while k < n
            invariant
                start <= k <= n,
                n == src@.len(),
                src.is_ascii(),
                lines@.len() == spec_newline_count(src@.take(k as int)),
                start as int == spec_line_start(src@, lines@.len() as int),
                forall|m: int| start <= m < k ==> (#[trigger] src@[m]) != '\n',
                forall|t: int|
                    0 <= t < lines@.len() ==> spec_line_accepted(
                        #[trigger] lines@[t],
                        src@.subrange(spec_line_start(src@, t), spec_line_end(src@, t)),
                    ),
            decreases n - k,
        {
            proof {
                assert(src@.take(k + 1).drop_last() =~= src@.take(k as int));
            }
            if src.get_char(k) == '\n' {
                let seg = src.substring_ascii(start, k);
                proof {
                    lemma_nl_at_shift(src@, start as int, k as int);
                    assert(spec_nl_at(src@, k as int) == Some(k as int));
                    assert(spec_line_end(src@, lines@.len() as int) == k as int);
                    lemma_newline_count_take_le(src@, k as int);
                }
                let line = parse_line(seg, line_no)?;
                lines.push(line);
                start = k + 1;
                if line_no < usize::MAX {
                    line_no = line_no + 1;
                }
            }
            k = k + 1;
        }
        proof {
            assert(src@.take(n as int) =~= src@);
            lemma_nl_at_shift(src@, start as int, n as int);
            assert(spec_nl_at(src@, start as int) is None);
            assert(spec_line_end(src@, lines@.len() as int) == n as int);
        }
        let seg = src.substring_ascii(start, n);
        let line = parse_line(seg, line_no)?;
        lines.push(line);
        Ok(Ast { lines })
    }
}

/// Parses a whole program; see [`RusmParser::from_source`].
pub fn from_source(src: &str) -> (r: Result<Ast, ParseError>)
    ensures
        r matches Ok(ast) ==> ast.lines@.len() == spec_newline_count(src@) + 1 && (forall|k: int|
            0 <= k < ast.lines@.len() ==> spec_line_accepted(
                #[trigger] ast.lines@[k],
                src@.subrange(spec_line_start(src@, k), spec_line_end(src@, k)),
            )),
        vstd::string::is_ascii(src) && (forall|k: int|
            0 <= k <= spec_newline_count(src@) ==> spec_line_ok(
                #[trigger] src@.subrange(spec_line_start(src@, k), spec_line_end(src@, k)),
            )) ==> r is Ok,
{
    RusmParser::from_source(src)
}

} // verus!
