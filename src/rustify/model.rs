//! What the generator produces for each expression, as spec functions over expression values.
//!
//! A sequence of expressions is handled as a `Seq<SexpV>` with the position where the handled
//! part starts (and, for the functions that fold over it, where it ends).
use vstd::prelude::*;

use crate::parser::SexpV;
use crate::rustify::{lex_error, RustifyFault};
use crate::tokens::{text_of, tx, Delimiter, TokenV};

verus! {

/// What rendering yields: tokens, or an error with its line.
pub type Rendered = Result<Seq<TokenV>, (Option<nat>, RustifyFault)>;

/// The rank of a context that never asks for parentheses.
pub open spec fn loosest() -> int {
    127
}

/// A statement terminator in statement context.
pub open spec fn semi(statement: bool) -> Seq<TokenV> {
    if statement {
        tx(";"@)
    } else {
        seq![]
    }
}

/// One group around `inner`.
pub open spec fn group(d: Delimiter, inner: Seq<TokenV>) -> Seq<TokenV> {
    seq![TokenV::Group(d, inner)]
}

/// An atom on line `n`: its text when it reads as Rust tokens.
pub open spec fn atom_spec(t: Seq<char>, n: nat) -> Rendered {
    match lex_error(t) {
        None => Ok(tx(t)),
        Some(d) => Err((Some(n), RustifyFault::AtomParseError(t, d))),
    }
}

/// Binding rank, lower is tighter: `1 + 2 * k` for the level `k` of the operator table.
pub open spec fn precedence_spec(op: Seq<char>, unary: bool) -> int {
    1 + 2 * (if op == "."@ || op == "::"@ {
        0int
    } else if op == "?"@ {
        4
    } else if unary && (op == "-"@ || op == "!"@ || op == "&"@ || op == "&mut"@ || op == "*"@
        || op == "*mut"@) {
        5
    } else if op == "as"@ {
        6
    } else if op == "*"@ || op == "/"@ || op == "%"@ {
        7
    } else if op == "+"@ || op == "-"@ {
        8
    } else if op == "<<"@ || op == ">>"@ {
        9
    } else if op == "&"@ {
        10
    } else if op == "^"@ {
        11
    } else if op == "|"@ {
        12
    } else if op == "=="@ || op == "!="@ || op == "<"@ || op == ">"@ || op == "<="@ || op
        == ">="@ {
        13
    } else if op == "&&"@ {
        14
    } else if op == "||"@ {
        15
    } else if op == ".."@ || op == "..="@ {
        16
    } else if op == "="@ || op == "+="@ || op == "-="@ || op == "*="@ || op == "/="@ || op
        == "%="@ || op == "&="@ || op == "|="@ || op == "^="@ || op == "<<="@ || op == ">>="@ {
        17
    } else {
        63
    })
}

/// Associativity, by the level of the operator table: -1 left to right (casts, arithmetic,
/// shifts, bitwise and lazy boolean operators), 1 right to left (assignments), 0 none.
pub open spec fn associativity_spec(op: Seq<char>, unary: bool) -> int {
    let k = (precedence_spec(op, unary) - 1) / 2;
    if unary {
        0
    } else if 6 <= k <= 12 || k == 14 || k == 15 {
        -1
    } else if k == 17 {
        1
    } else {
        0
    }
}

/// A symbol of the operator table.
pub open spec fn is_operator(t: Seq<char>) -> bool {
    precedence_spec(t, true) < loosest()
}

/// The prefix operators whose single operand is written in parentheses.
pub open spec fn wraps_operand(op: Seq<char>) -> bool {
    op == "!"@ || op == "&"@ || op == "&mut"@ || op == "*"@ || op == "*mut"@
}

pub open spec fn is_jump(t: Seq<char>) -> bool {
    t == "break"@ || t == "continue"@ || t == "return"@
}

/// Keywords kept for forms that have no rendering.
pub open spec fn is_reserved(t: Seq<char>) -> bool {
    t == "if"@ || t == "for"@ || t == "while"@
}

/// An expression in statement or expression context, under the rank `p` of its context.
pub open spec fn render_spec(e: SexpV, statement: bool, p: int) -> Rendered
    decreases e, 0int, 0int,
{
    match e {
        SexpV::Atom(t, n) => atom_spec(t, n),
        SexpV::List(c) => list_spec(c, 0, statement, p),
        SexpV::Array(c) => match join_spec(c, 0, c.len() as int) {
            Ok(x) => Ok(group(Delimiter::Bracket, x)),
            Err(f) => Err(f),
        },
        SexpV::Generics(c) => match join_spec(c, 0, c.len() as int) {
            Ok(x) => Ok(tx("<"@) + x + tx(">"@)),
            Err(f) => Err(f),
        },
    }
}

/// `c[start..end]` in expression context, separated by commas.
pub open spec fn join_spec(c: Seq<SexpV>, start: int, end: int) -> Rendered
    decreases c, 1int, end - start,
{
    if start < 0 || end <= start || end > c.len() {
        Ok(seq![])
    } else {
        match join_spec(c, start, end - 1) {
            Err(f) => Err(f),
            Ok(a) => match render_spec(c[end - 1], false, loosest()) {
                Err(f) => Err(f),
                Ok(b) => Ok(
                    if end - 1 == start {
                        b
                    } else {
                        a + tx(","@) + b
                    },
                ),
            },
        }
    }
}

/// The body of a block over `c[start..end]`: each expression in statement context but the
/// last of `c`, which is in statement context when the block yields no value.
pub open spec fn body_spec(c: Seq<SexpV>, start: int, end: int, yields: bool) -> Rendered
    decreases c, 1int, end - start,
{
    if start < 0 || end <= start || end > c.len() {
        Ok(seq![])
    } else {
        match body_spec(c, start, end - 1, yields) {
            Err(f) => Err(f),
            Ok(a) => match render_spec(
                c[end - 1],
                if end == c.len() {
                    !yields
                } else {
                    true
                },
                loosest(),
            ) {
                Err(f) => Err(f),
                Ok(b) => Ok(a + b),
            },
        }
    }
}

/// A block in braces over `c[start..]`.
pub open spec fn block_spec(c: Seq<SexpV>, start: int, yields: bool) -> Rendered
    decreases c, 2int, 0int,
{
    match body_spec(c, start, c.len() as int, yields) {
        Ok(x) => Ok(group(Delimiter::Brace, x)),
        Err(f) => Err(f),
    }
}

/// A list's form, from its head `c[start]`.
pub open spec fn list_spec(c: Seq<SexpV>, start: int, statement: bool, p: int) -> Rendered
    decreases c, 4int, c.len() - start,
{
    if start < 0 || start >= c.len() {
        Ok(seq![])
    } else {
        match c[start] {
            SexpV::Atom(t, n) => if t == "pub"@ {
                match list_spec(c, start + 1, statement, p) {
                    Ok(x) => Ok(tx("pub"@) + x),
                    Err(f) => Err(f),
                }
            } else if is_operator(t) {
                op_spec(t, c, start + 1, n, statement, p)
            } else if t == "use"@ {
                uses_spec(c, start + 1, c.len() as int, n)
            } else if t == "match"@ {
                match_spec(c, start + 1, n, statement)
            } else if t == "loop"@ {
                loop_spec(c, start + 1)
            } else if is_jump(t) {
                jump_spec(t, c, start + 1, n, statement)
            } else if t == "fn"@ {
                fn_spec(c, start + 1, n)
            } else if t == "struct"@ {
                struct_spec(c, start + 1, n)
            } else if t == "enum"@ {
                enum_spec(c, start + 1, n)
            } else if is_reserved(t) {
                Err((Some(n), RustifyFault::UnexpectedFunctionName(t)))
            } else {
                call_spec(c, start, statement)
            },
            SexpV::List(_) => call_spec(c, start, statement),
            _ => match render_spec(c[start], true, loosest()) {
                Ok(x) => Err((None, RustifyFault::UnexpectedFunctionName(text_of(x)))),
                Err(f) => Err(f),
            },
        }
    }
}

/// A call of `c[start]` with the arguments `c[start + 1..]`.
pub open spec fn call_spec(c: Seq<SexpV>, start: int, statement: bool) -> Rendered
    decreases c, 3int, 0int,
{
    if start < 0 || start >= c.len() {
        Ok(seq![])
    } else {
        match render_spec(c[start], false, loosest()) {
            Err(f) => Err(f),
            Ok(callee) => match join_spec(c, start + 1, c.len() as int) {
                Err(f) => Err(f),
                Ok(args) => Ok(callee + group(Delimiter::Parenthesis, args) + semi(statement)),
            },
        }
    }
}

/// The operands `c[start..end]` of a binary operator of rank `r` and associativity `a`,
/// separated by the operator: the first under rank `r`, the others under `r + a`.
pub open spec fn operands_spec(op: Seq<char>, c: Seq<SexpV>, start: int, end: int, r: int, a: int) -> Rendered
    decreases c, 1int, end - start,
{
    if start < 0 || end <= start || end > c.len() {
        Ok(seq![])
    } else {
        match operands_spec(op, c, start, end - 1, r, a) {
            Err(f) => Err(f),
            Ok(x) => if end - 1 == start {
                render_spec(c[end - 1], false, r)
            } else {
                match render_spec(c[end - 1], false, r + a) {
                    Err(f) => Err(f),
                    Ok(y) => Ok(x + tx(op) + y),
                }
            },
        }
    }
}

/// The operator `op` on line `n` applied to `c[start..]`, under the rank `p` of its context.
pub open spec fn op_spec(op: Seq<char>, c: Seq<SexpV>, start: int, n: nat, statement: bool, p: int) -> Rendered
    decreases c, 3int, 0int,
{
    if start < 0 || start >= c.len() {
        Err((Some(n), RustifyFault::MissingOperand(op)))
    } else if start + 1 == c.len() {
        let r = precedence_spec(op, true);
        let body = if wraps_operand(op) {
            match render_spec(c[start], false, loosest()) {
                Ok(x) => Ok(tx(op) + group(Delimiter::Parenthesis, x)),
                Err(f) => Err(f),
            }
        } else {
            match render_spec(c[start], false, r) {
                Ok(x) => Ok(tx(op) + x),
                Err(f) => Err(f),
            }
        };
        match body {
            Ok(x) => Ok(parenthesize(x, r, p) + semi(statement)),
            Err(f) => Err(f),
        }
    } else if op == "!"@ {
        Err((Some(n), RustifyFault::TooMuchArguments(op)))
    } else {
        let r = precedence_spec(op, false);
        match operands_spec(op, c, start, c.len() as int, r, associativity_spec(op, false)) {
            Ok(x) => Ok(parenthesize(x, r, p) + semi(statement)),
            Err(f) => Err(f),
        }
    }
}

/// Operator tokens of rank `r` under a context of rank `p`: in parentheses when `r` is looser.
pub open spec fn parenthesize(x: Seq<TokenV>, r: int, p: int) -> Seq<TokenV> {
    if r > p {
        group(Delimiter::Parenthesis, x)
    } else {
        x
    }
}

/// `use` declarations for the paths `c[start..end]`, one each.
pub open spec fn uses_spec(c: Seq<SexpV>, start: int, end: int, n: nat) -> Rendered
    decreases c, 3int, end - start,
{
    if start < 0 || end <= start || end > c.len() {
        Ok(seq![])
    } else {
        match uses_spec(c, start, end - 1, n) {
            Err(f) => Err(f),
            Ok(a) => match path_spec(c[end - 1], n) {
                Err(f) => Err(f),
                Ok(b) => Ok(a + tx("use"@) + b + tx(";"@)),
            },
        }
    }
}

/// A path of a `use` declaration on line `n`.
pub open spec fn path_spec(x: SexpV, n: nat) -> Rendered
    decreases x, 1int, 0int,
{
    match x {
        SexpV::Atom(t, _) => atom_spec(t, n),
        SexpV::List(l) => if l.len() > 0 && l[0] is Atom && l[0]->Atom_0 == "::"@ {
            path_seq_spec(l, 1, l.len() as int, l[0]->Atom_1, "::"@)
        } else {
            match path_seq_spec(l, 0, l.len() as int, n, ","@) {
                Ok(y) => Ok(group(Delimiter::Brace, y)),
                Err(f) => Err(f),
            }
        },
        _ => match render_spec(x, true, loosest()) {
            Ok(y) => Err((Some(n), RustifyFault::UnexpectedFunctionName(text_of(y)))),
            Err(f) => Err(f),
        },
    }
}

/// The paths `l[start..end]` on line `n`, separated by `sep`.
pub open spec fn path_seq_spec(l: Seq<SexpV>, start: int, end: int, n: nat, sep: Seq<char>) -> Rendered
    decreases l, 1int, end - start,
{
    if start < 0 || end <= start || end > l.len() {
        Ok(seq![])
    } else {
        match path_seq_spec(l, start, end - 1, n, sep) {
            Err(f) => Err(f),
            Ok(a) => match path_spec(l[end - 1], n) {
                Err(f) => Err(f),
                Ok(b) => Ok(
                    if end - 1 == start {
                        b
                    } else {
                        a + tx(sep) + b
                    },
                ),
            },
        }
    }
}

/// A `match` on line `n` over the scrutinee `c[start]` and the arms `c[start + 1..]`.
pub open spec fn match_spec(c: Seq<SexpV>, start: int, n: nat, statement: bool) -> Rendered
    decreases c, 3int, 0int,
{
    if start < 0 || start >= c.len() {
        Err((Some(n), RustifyFault::MissingArguments("match"@)))
    } else {
        match render_spec(c[start], false, loosest()) {
            Err(f) => Err(f),
            Ok(s) => match arms_spec(c, start + 1, c.len() as int, n, statement) {
                Err(f) => Err(f),
                Ok(a) => Ok(tx("match"@) + s + group(Delimiter::Brace, a) + semi(statement)),
            },
        }
    }
}

/// The arms `c[start..end]` of a `match`.
pub open spec fn arms_spec(c: Seq<SexpV>, start: int, end: int, n: nat, statement: bool) -> Rendered
    decreases c, 1int, end - start,
{
    if start < 0 || end <= start || end > c.len() {
        Ok(seq![])
    } else {
        match arms_spec(c, start, end - 1, n, statement) {
            Err(f) => Err(f),
            Ok(a) => match arm_spec(c[end - 1], n, statement) {
                Err(f) => Err(f),
                Ok(b) => Ok(a + b),
            },
        }
    }
}

/// One arm of a `match`: a pattern, then one expression or a block.
pub open spec fn arm_spec(m: SexpV, n: nat, statement: bool) -> Rendered
    decreases m, 1int, 0int,
{
    match m {
        SexpV::List(ml) => if ml.len() == 0 {
            Err((Some(n), RustifyFault::ExpectedMatchCondition))
        } else {
            match render_spec(ml[0], false, loosest()) {
                Err(f) => Err(f),
                Ok(pat) => if ml.len() == 2 {
                    match render_spec(ml[1], false, loosest()) {
                        Err(f) => Err(f),
                        Ok(b) => Ok(pat + tx("=>"@) + b + tx(","@)),
                    }
                } else {
                    match block_spec(ml, 1, !statement) {
                        Err(f) => Err(f),
                        Ok(b) => Ok(pat + tx("=>"@) + b),
                    }
                },
            }
        },
        _ => Err((Some(n), RustifyFault::ExpectedMatchCondition)),
    }
}

/// An unconditional loop over the body `c[start..]`, which yields no value.
pub open spec fn loop_spec(c: Seq<SexpV>, start: int) -> Rendered
    decreases c, 3int, 0int,
{
    match block_spec(c, start, false) {
        Ok(x) => Ok(tx("loop"@) + x),
        Err(f) => Err(f),
    }
}

/// `break`, `continue` or `return` with at most one value, `c[start]`.
pub open spec fn jump_spec(k: Seq<char>, c: Seq<SexpV>, start: int, n: nat, statement: bool) -> Rendered
    decreases c, 3int, 0int,
{
    if start < 0 || start > c.len() {
        Ok(seq![])
    } else if c.len() - start > 1 {
        Err((Some(n), RustifyFault::TooMuchArguments(k)))
    } else if c.len() - start == 1 {
        match render_spec(c[start], false, loosest()) {
            Ok(x) => Ok(tx(k) + x + semi(statement)),
            Err(f) => Err(f),
        }
    } else {
        Ok(tx(k) + semi(statement))
    }
}

/// A function named by the atom `c[start]`, with the parameters of the list `c[start + 1]`
/// when there is one, and a body that yields no value over the rest.
pub open spec fn fn_spec(c: Seq<SexpV>, start: int, n: nat) -> Rendered
    decreases c, 3int, 0int,
{
    if start < 0 || start >= c.len() || !(c[start] is Atom) {
        Err((Some(n), RustifyFault::MissingArguments("function definition"@)))
    } else {
        match atom_spec(c[start]->Atom_0, c[start]->Atom_1) {
            Err(f) => Err(f),
            Ok(name) => {
                let has_params = start + 1 < c.len() && c[start + 1] is List;
                let params = if has_params {
                    join_spec(c[start + 1]->List_0, 0, c[start + 1]->List_0.len() as int)
                } else {
                    Ok(seq![])
                };
                match params {
                    Err(f) => Err(f),
                    Ok(ps) => match block_spec(
                        c,
                        if has_params {
                            start + 2
                        } else {
                            start + 1
                        },
                        false,
                    ) {
                        Err(f) => Err(f),
                        Ok(b) => Ok(tx("fn"@) + name + group(Delimiter::Parenthesis, ps) + b),
                    },
                }
            },
        }
    }
}

/// A unit struct named by the atom `c[start]`.
pub open spec fn struct_spec(c: Seq<SexpV>, start: int, n: nat) -> Rendered {
    if start < 0 || start >= c.len() || !(c[start] is Atom) {
        Err((Some(n), RustifyFault::MissingArguments("struct definition"@)))
    } else {
        match atom_spec(c[start]->Atom_0, c[start]->Atom_1) {
            Err(f) => Err(f),
            Ok(name) => Ok(tx("struct"@) + name + tx(";"@)),
        }
    }
}

/// An enum named by the atom `c[start]`, with the variants `c[start + 1..]`.
pub open spec fn enum_spec(c: Seq<SexpV>, start: int, n: nat) -> Rendered
    decreases c, 3int, 0int,
{
    if start < 0 || start >= c.len() || !(c[start] is Atom) {
        Err((Some(n), RustifyFault::MissingArguments("enum definition"@)))
    } else {
        match atom_spec(c[start]->Atom_0, c[start]->Atom_1) {
            Err(f) => Err(f),
            Ok(name) => match join_spec(c, start + 1, c.len() as int) {
                Err(f) => Err(f),
                Ok(vs) => Ok(tx("enum"@) + name + group(Delimiter::Brace, vs)),
            },
        }
    }
}

} // verus!
