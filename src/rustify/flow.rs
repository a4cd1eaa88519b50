//! Control flow forms: `match`, `loop`, and `break`, `continue`, `return`.
use vstd::prelude::*;

use crate::parser::{sexps_view, Sexp, SexpV};
use crate::rustify::model::{loosest, render_spec, match_spec, arms_spec, arm_spec, loop_spec, jump_spec};
use crate::rustify::{push_group, push_semi, block_to_token_stream, exp_to_token_stream, rendered_view, Generated, RustifyError, RustifyFault};
use crate::tokens::{text_tokens, extend, push_text, tokens_view, Delimiter, Token, TokenV};
use crate::Error;

verus! {

proof fn lemma_arms_stop(c: Seq<SexpV>, start: int, k: int, end: int, n: nat, statement: bool)
    requires
        0 <= start <= k <= end <= c.len(),
        arms_spec(c, start, k, n, statement) is Err,
    ensures
        arms_spec(c, start, end, n, statement) == arms_spec(c, start, k, n, statement),
    decreases end - k,
{
    if end > k {
        lemma_arms_stop(c, start, k, end - 1, n, statement);
    }
}

/// One arm of a `match` on line `lineno`: a list of a pattern and one expression, or of a
/// pattern and a block.
fn arm_to_token_stream(m: &Sexp, lineno: usize, statement: bool) -> (r: Generated)
    ensures
        rendered_view(r) == arm_spec(m@, lineno as nat, statement),
    decreases m, 1int, 0int,
{
    match m {
        Sexp::List(ml) => {
            if ml.len() == 0 {
                return Err(Error { lineno: Some(lineno), kind: RustifyError::ExpectedMatchCondition });
            }
            let mut res = match exp_to_token_stream(&ml[0], false, 127) {
                Ok(v) => v,
                Err(e) => {
                    return Err(e);
                },
            };
            if ml.len() == 2 {
                let b = match exp_to_token_stream(&ml[1], false, 127) {
                    Ok(v) => v,
                    Err(e) => {
                        return Err(e);
                    },
                };
                push_text(&mut res, "=>");
                extend(&mut res, b);
                push_text(&mut res, ",");
            } else {
                let b = match block_to_token_stream(ml, 1, !statement) {
                    Ok(v) => v,
                    Err(e) => {
                        return Err(e);
                    },
                };
                push_text(&mut res, "=>");
                extend(&mut res, b);
            }
            Ok(res)
        },
        _ => Err(Error { lineno: Some(lineno), kind: RustifyError::ExpectedMatchCondition }),
    }
}

/// A `match` on line `lineno` over the scrutinee `l[start]` and the arms `l[start + 1..]`.
pub fn match_to_token_stream(l: &Vec<Sexp>, start: usize, lineno: usize, statement: bool) -> (r: Generated)
    requires
        start <= l@.len(),
    ensures
        rendered_view(r) == match_spec(sexps_view(*l), start as int, lineno as nat, statement),
    decreases l, 3int, 0int,
{
    let ghost c = sexps_view(*l);
    if start >= l.len() {
        return Err(
            Error {
                lineno: Some(lineno),
                kind: RustifyError::MissingArguments("match".to_owned()),
            },
        );
    }
    let scrutinee = match exp_to_token_stream(&l[start], false, 127) {
        Ok(v) => v,
        Err(e) => {
            return Err(e);
        },
    };
    let mut arms: Vec<Token> = Vec::new();
    let mut i = start + 1;
    assert(tokens_view(arms) =~= seq![]);
    while i < l.len()
        invariant
            start + 1 <= i <= l@.len(),
            c == sexps_view(*l),
            render_spec(c[start as int], false, loosest()) == Ok::<
                Seq<TokenV>,
                (Option<nat>, RustifyFault),
            >(tokens_view(scrutinee)),
            arms_spec(c, start + 1, i as int, lineno as nat, statement) == Ok::<
                Seq<TokenV>,
                (Option<nat>, RustifyFault),
            >(tokens_view(arms)),
        decreases l@.len() - i,
    {
        match arm_to_token_stream(&l[i], lineno, statement) {
            Err(e) => {
                proof {
                    lemma_arms_stop(c, start + 1, i + 1, l@.len() as int, lineno as nat, statement);
                }
                return Err(e);
            },
            Ok(x) => {
                extend(&mut arms, x);
            },
        }
        i = i + 1;
    }
    let mut res = text_tokens("match");
    extend(&mut res, scrutinee);
    push_group(&mut res, Delimiter::Brace, arms);
    push_semi(&mut res, statement);
    Ok(res)
}

/// An unconditional loop over the body `l[start..]`.
pub fn loop_to_token_stream(l: &Vec<Sexp>, start: usize) -> (r: Generated)
    requires
        start <= l@.len(),
    ensures
        rendered_view(r) == loop_spec(sexps_view(*l), start as int),
    decreases l, 3int, 0int,
{
    let body = match block_to_token_stream(l, start, false) {
        Ok(v) => v,
        Err(e) => {
            return Err(e);
        },
    };
    let mut res = text_tokens("loop");
    extend(&mut res, body);
    Ok(res)
}

/// `break`, `continue` or `return` (the keyword `k` on line `lineno`) with the value
/// `l[start]`, if any.
pub fn jump_to_token_stream(k: &str, l: &Vec<Sexp>, start: usize, lineno: usize, statement: bool) -> (r: Generated)
    requires
        start <= l@.len(),
    ensures
        rendered_view(r) == jump_spec(k@, sexps_view(*l), start as int, lineno as nat, statement),
    decreases l, 3int, 0int,
{
    if l.len() - start > 1 {
        return Err(
            Error { lineno: Some(lineno), kind: RustifyError::TooMuchArguments(k.to_owned()) },
        );
    }
    let mut res = text_tokens(k);
    if l.len() - start == 1 {
        let x = match exp_to_token_stream(&l[start], false, 127) {
            Ok(v) => v,
            Err(e) => {
                return Err(e);
            },
        };
        extend(&mut res, x);
    }
    push_semi(&mut res, statement);
    Ok(res)
}

} // verus!
