//! Function definitions.
use vstd::prelude::*;

use crate::parser::{sexps_view, Sexp};
use crate::rustify::model::fn_spec;
use crate::rustify::{push_group, atom_to_token_stream, block_to_token_stream, join_exprs, rendered_view, Generated, RustifyError};
use crate::tokens::{no_tokens, text_tokens, extend, Delimiter};
use crate::Error;

verus! {

/// A function on line `lineno`, named by the atom `l[start]`, with the parameters of the list
/// `l[start + 1]` when there is one, and a body that yields no value over the rest.
pub fn fn_to_token_stream(l: &Vec<Sexp>, start: usize, lineno: usize) -> (r: Generated)
    requires
        start <= l@.len(),
    ensures
        rendered_view(r) == fn_spec(sexps_view(*l), start as int, lineno as nat),
    decreases l, 3int, 0int,
{
    if start >= l.len() {
        return Err(
            Error {
                lineno: Some(lineno),
                kind: RustifyError::MissingArguments("function definition".to_owned()),
            },
        );
    }
    let name = match &l[start] {
        Sexp::Atom { val, lineno } => match atom_to_token_stream(val, *lineno) {
            Ok(v) => v,
            Err(e) => {
                return Err(e);
            },
        },
        _ => {
            return Err(
                Error {
                    lineno: Some(lineno),
                    kind: RustifyError::MissingArguments("function definition".to_owned()),
                },
            );
        },
    };
    let (params, body_start) = if start + 1 < l.len() {
        match &l[start + 1] {
            Sexp::List(ps) => match join_exprs(ps, 0, ps.len()) {
                Ok(v) => (v, start + 2),
                Err(e) => {
                    return Err(e);
                },
            },
            _ => (no_tokens(), start + 1),
        }
    } else {
        (no_tokens(), start + 1)
    };
    let body = match block_to_token_stream(l, body_start, false) {
        Ok(v) => v,
        Err(e) => {
            return Err(e);
        },
    };
    let mut res = text_tokens("fn");
    extend(&mut res, name);
    push_group(&mut res, Delimiter::Parenthesis, params);
    extend(&mut res, body);
    Ok(res)
}

} // verus!
