//! The form dispatcher: what a list renders as, chosen by its head.
use vstd::prelude::*;

use crate::parser::{sexps_view, Sexp};
use crate::rustify::flow::{jump_to_token_stream, loop_to_token_stream, match_to_token_stream};
use crate::rustify::function::fn_to_token_stream;
use crate::rustify::model::list_spec;
use crate::rustify::ops::{op_to_token_stream, precedence};
use crate::rustify::types::{enum_to_token_stream, struct_to_token_stream};
use crate::rustify::{call_to_token_stream, exp_to_token_stream, rendered_view, uses_to_token_stream, Generated, RustifyError};
use crate::text::str_eq;
use crate::tokens::{text_tokens, extend, tokens_text, tokens_view, Token};
use crate::Error;

verus! {

/// The list `l[start..]`, by its head `l[start]`: `pub` before a form, an operator, a keyword
/// form, or else a call. An array or generics cannot be a head.
pub fn list_to_token_stream(l: &Vec<Sexp>, start: usize, statement: bool, parent_precedence: i8) -> (r: Generated)
    requires
        start <= l@.len(),
    ensures
        rendered_view(r) == list_spec(sexps_view(*l), start as int, statement, parent_precedence as int),
    decreases l, 4int, l@.len() - start,
{
    if start >= l.len() {
        let res: Vec<Token> = Vec::new();
        assert(tokens_view(res) =~= seq![]);
        return Ok(res);
    }
    match &l[start] {
        Sexp::Atom { val, lineno } => {
            let t = val.as_str();
            let n = *lineno;
            if str_eq(t, "pub") {
                let rest = match list_to_token_stream(l, start + 1, statement, parent_precedence) {
                    Ok(v) => v,
                    Err(e) => {
                        return Err(e);
                    },
                };
                let mut res = text_tokens("pub");
                extend(&mut res, rest);
                Ok(res)
            } else if precedence(t, true) < 127 {
                op_to_token_stream(t, l, start + 1, n, statement, parent_precedence)
            } else if str_eq(t, "use") {
                uses_to_token_stream(l, start + 1, n)
            } else if str_eq(t, "match") {
                match_to_token_stream(l, start + 1, n, statement)
            } else if str_eq(t, "loop") {
                loop_to_token_stream(l, start + 1)
            } else if str_eq(t, "break") || str_eq(t, "continue") || str_eq(t, "return") {
                jump_to_token_stream(t, l, start + 1, n, statement)
            } else if str_eq(t, "fn") {
                fn_to_token_stream(l, start + 1, n)
            } else if str_eq(t, "struct") {
                struct_to_token_stream(l, start + 1, n)
            } else if str_eq(t, "enum") {
                enum_to_token_stream(l, start + 1, n)
            } else if str_eq(t, "if") || str_eq(t, "for") || str_eq(t, "while") {
                Err(
                    Error {
                        lineno: Some(n),
                        kind: RustifyError::UnexpectedFunctionName(val.clone()),
                    },
                )
            } else {
                call_to_token_stream(l, start, statement)
            }
        },
        Sexp::List(_) => call_to_token_stream(l, start, statement),
        _ => {
            let shown = match exp_to_token_stream(&l[start], true, 127) {
                Ok(v) => v,
                Err(e) => {
                    return Err(e);
                },
            };
            Err(
                Error {
                    lineno: None,
                    kind: RustifyError::UnexpectedFunctionName(tokens_text(&shown)),
                },
            )
        },
    }
}

} // verus!
