//! Type definitions: unit structs and enums.
use vstd::prelude::*;

use crate::parser::{sexps_view, Sexp};
use crate::rustify::model::{struct_spec, enum_spec};
use crate::rustify::{push_group, atom_to_token_stream, join_exprs, rendered_view, Generated, RustifyError};
use crate::tokens::{text_tokens, extend, push_text, Delimiter};
use crate::Error;

verus! {

/// A unit struct on line `lineno`, named by the atom `l[start]`.
pub fn struct_to_token_stream(l: &Vec<Sexp>, start: usize, lineno: usize) -> (r: Generated)
    requires
        start <= l@.len(),
    ensures
        rendered_view(r) == struct_spec(sexps_view(*l), start as int, lineno as nat),
{
    if start < l.len() {
        if let Sexp::Atom { val, lineno } = &l[start] {
            let name = match atom_to_token_stream(val, *lineno) {
                Ok(v) => v,
                Err(e) => {
                    return Err(e);
                },
            };
            let mut res = text_tokens("struct");
            extend(&mut res, name);
            push_text(&mut res, ";");
            return Ok(res);
        }
    }
    Err(
        Error {
            lineno: Some(lineno),
            kind: RustifyError::MissingArguments("struct definition".to_owned()),
        },
    )
}

/// An enum on line `lineno`, named by the atom `l[start]`, with the variants `l[start + 1..]`.
pub fn enum_to_token_stream(l: &Vec<Sexp>, start: usize, lineno: usize) -> (r: Generated)
    requires
        start <= l@.len(),
    ensures
        rendered_view(r) == enum_spec(sexps_view(*l), start as int, lineno as nat),
    decreases l, 3int, 0int,
{
    if start < l.len() {
        if let Sexp::Atom { val, lineno } = &l[start] {
            let name = match atom_to_token_stream(val, *lineno) {
                Ok(v) => v,
                Err(e) => {
                    return Err(e);
                },
            };
            let variants = match join_exprs(l, start + 1, l.len()) {
                Ok(v) => v,
                Err(e) => {
                    return Err(e);
                },
            };
            let mut res = text_tokens("enum");
            extend(&mut res, name);
            push_group(&mut res, Delimiter::Brace, variants);
            return Ok(res);
        }
    }
    Err(
        Error {
            lineno: Some(lineno),
            kind: RustifyError::MissingArguments("enum definition".to_owned()),
        },
    )
}

} // verus!
