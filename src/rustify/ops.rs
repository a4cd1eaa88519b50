//! Operators: the precedence table and precedence-climbing rendering.
use vstd::prelude::*;

use crate::parser::{sexps_view, Sexp, SexpV};
use crate::rustify::model::{semi, group, precedence_spec, associativity_spec, wraps_operand, operands_spec, op_spec, parenthesize};
use crate::rustify::{exp_to_token_stream, group_tokens, push_group, push_semi, rendered_view, Generated, RustifyError, RustifyFault};
use crate::text::str_eq;
use crate::tokens::{extend, push_token, tokens_view, tx, Delimiter, Token, TokenV};
use crate::Error;

verus! {

/// Something written as a single piece of punctuation.
pub trait PunctAsTokenStream {
    spec fn punct_text(&self) -> Seq<char>;

    fn punct_as_token_stream(&self) -> (r: Vec<Token>)
        ensures
            tokens_view(r) == tx(self.punct_text()),
    ;
}

impl PunctAsTokenStream for char {
    open spec fn punct_text(&self) -> Seq<char> {
        seq![*self]
    }

    fn punct_as_token_stream(&self) -> (r: Vec<Token>) {
        let mut s = String::new();
        s.push(*self);
        let mut r: Vec<Token> = Vec::new();
        push_token(&mut r, Token::Text(s));
        assert(tokens_view(r) =~= tx(seq![*self]));
        r
    }
}

impl<'a> PunctAsTokenStream for &'a str {
    open spec fn punct_text(&self) -> Seq<char> {
        (*self)@
    }

    fn punct_as_token_stream(&self) -> (r: Vec<Token>) {
        let mut r: Vec<Token> = Vec::new();
        push_token(&mut r, crate::tokens::text(*self));
        assert(tokens_view(r) =~= tx((*self)@));
        r
    }
}

/// Low values means higher precedence: `1 + 2 * k` for the level `k` of the operator table,
/// and `i8::MAX` for what is not in it.
pub fn precedence(op: &str, unary: bool) -> (r: i8)
    ensures
        r as int == precedence_spec(op@, unary),
{
    let k: i8 = if str_eq(op, ".") || str_eq(op, "::") {
        0
    } else if str_eq(op, "?") {
        4
    } else if unary && (str_eq(op, "-") || str_eq(op, "!") || str_eq(op, "&") || str_eq(op, "&mut")
        || str_eq(op, "*") || str_eq(op, "*mut")) {
        5
    } else if str_eq(op, "as") {
        6
    } else if str_eq(op, "*") || str_eq(op, "/") || str_eq(op, "%") {
        7
    } else if str_eq(op, "+") || str_eq(op, "-") {
        8
    } else if str_eq(op, "<<") || str_eq(op, ">>") {
        9
    } else if str_eq(op, "&") {
        10
    } else if str_eq(op, "^") {
        11
    } else if str_eq(op, "|") {
        12
    } else if str_eq(op, "==") || str_eq(op, "!=") || str_eq(op, "<") || str_eq(op, ">")
        || str_eq(op, "<=") || str_eq(op, ">=") {
        13
    } else if str_eq(op, "&&") {
        14
    } else if str_eq(op, "||") {
        15
    } else if str_eq(op, "..") || str_eq(op, "..=") {
        16
    } else if is_assignment(op) {
        17
    } else {
        63
    };
    1 + 2 * k
}

fn is_assignment(op: &str) -> (r: bool)
    ensures
        r == (op@ == "="@ || op@ == "+="@ || op@ == "-="@ || op@ == "*="@ || op@ == "/="@ || op@
            == "%="@ || op@ == "&="@ || op@ == "|="@ || op@ == "^="@ || op@ == "<<="@ || op@
            == ">>="@),
{
    str_eq(op, "=") || str_eq(op, "+=") || str_eq(op, "-=") || str_eq(op, "*=") || str_eq(op, "/=")
        || str_eq(op, "%=") || str_eq(op, "&=") || str_eq(op, "|=") || str_eq(op, "^=")
        || str_eq(op, "<<=") || str_eq(op, ">>=")
}

/// -1 when operands group left to right, 1 right to left, 0 otherwise.
pub fn associativity(op: &str, unary: bool) -> (r: i8)
    ensures
        r as int == associativity_spec(op@, unary),
{
    let k = (precedence(op, unary) - 1) / 2;
    if unary {
        0
    } else if (6 <= k && k <= 12) || k == 14 || k == 15 {
        -1
    } else if k == 17 {
        1
    } else {
        0
    }
}

/// Whether a single operand of the prefix operator `op` is written in parentheses.
pub fn wraps_operand_exec(op: &str) -> (r: bool)
    ensures
        r == wraps_operand(op@),
{
    str_eq(op, "!") || str_eq(op, "&") || str_eq(op, "&mut") || str_eq(op, "*") || str_eq(op, "*mut")
}

proof fn lemma_operands_stop(op: Seq<char>, c: Seq<SexpV>, start: int, k: int, end: int, r: int, a: int)
    requires
        0 <= start <= k <= end <= c.len(),
        operands_spec(op, c, start, k, r, a) is Err,
    ensures
        operands_spec(op, c, start, end, r, a) == operands_spec(op, c, start, k, r, a),
    decreases end - k,
{
    if end > k {
        lemma_operands_stop(op, c, start, k, end - 1, r, a);
    }
}

/// Operator tokens of rank `r` under a context of rank `p`, in parentheses when `r` is
/// looser, then terminated in statement context.
fn close_operation(body: Vec<Token>, r: i8, p: i8, statement: bool) -> (out: Vec<Token>)
    ensures
        tokens_view(out) == parenthesize(tokens_view(body), r as int, p as int) + semi(statement),
{
    let mut out = if r > p {
        group_tokens(Delimiter::Parenthesis, body)
    } else {
        body
    };
    push_semi(&mut out, statement);
    out
}

/// The operator `op` (an atom on line `lineno`) applied to the operands `l[start..]`, under
/// the rank `parent_precedence` of its context. One operand makes a prefix operator; more make
/// a binary one, written between each two operands, with parentheses where the context binds
/// tighter.
pub fn op_to_token_stream(
    op: &str,
    l: &Vec<Sexp>,
    start: usize,
    lineno: usize,
    statement: bool,
    parent_precedence: i8,
) -> (r: Generated)
    requires
        start <= l@.len(),
    ensures
        rendered_view(r) == op_spec(
            op@,
            sexps_view(*l),
            start as int,
            lineno as nat,
            statement,
            parent_precedence as int,
        ),
    decreases l, 3int, 0int,
{
    let ghost c = sexps_view(*l);
    if start >= l.len() {
        return Err(
            Error { lineno: Some(lineno), kind: RustifyError::MissingOperand(op.to_owned()) },
        );
    }
    if start + 1 == l.len() {
        let r = precedence(op, true);
        let mut res = op.punct_as_token_stream();
        if wraps_operand_exec(op) {
            let x = match exp_to_token_stream(&l[start], false, 127) {
                Ok(v) => v,
                Err(e) => {
                    return Err(e);
                },
            };
            push_group(&mut res, Delimiter::Parenthesis, x);
        } else {
            let x = match exp_to_token_stream(&l[start], false, r) {
                Ok(v) => v,
                Err(e) => {
                    return Err(e);
                },
            };
            extend(&mut res, x);
        }
        return Ok(close_operation(res, r, parent_precedence, statement));
    }
    if str_eq(op, "!") {
        return Err(
            Error { lineno: Some(lineno), kind: RustifyError::TooMuchArguments(op.to_owned()) },
        );
    }
    let r = precedence(op, false);
    let a = associativity(op, false);
    let next: i8 = r + a;
    let mut res: Vec<Token> = Vec::new();
    let mut i = start;
    assert(tokens_view(res) =~= seq![]);
    while i < l.len()
        invariant
            start <= i <= l@.len(),
            start + 1 < l@.len(),
            op@ != "!"@,
            c == sexps_view(*l),
            next == r + a,
            r as int == precedence_spec(op@, false),
            a as int == associativity_spec(op@, false),
            operands_spec(op@, c, start as int, i as int, r as int, a as int) == Ok::<
                Seq<TokenV>,
                (Option<nat>, RustifyFault),
            >(tokens_view(res)),
        decreases l@.len() - i,
    {
        let context = if i == start {
            r
        } else {
            next
        };
        match exp_to_token_stream(&l[i], false, context) {
            Err(e) => {
                proof {
                    lemma_operands_stop(op@, c, start as int, i + 1, l@.len() as int, r as int, a as int);
                }
                return Err(e);
            },
            Ok(x) => {
                if i > start {
                    extend(&mut res, op.punct_as_token_stream());
                }
                extend(&mut res, x);
                proof {
                    if i == start {
                        assert(tokens_view(res) =~= tokens_view(x));
                    }
                }
            },
        }
        i = i + 1;
    }
    Ok(close_operation(res, r, parent_precedence, statement))
}

} // verus!
