//! Transpiles bracket-delimited s-expressions into Rust tokens.
//!
//! [`parser`] turns lines of text into expression trees, and [`rustify`] turns one tree into a
//! sequence of [`tokens::Token`]s.
use vstd::prelude::*;

use crate::text::{decimal, push_decimal, push_str};

pub mod nesting;
pub mod parser;
pub mod rustify;
pub mod text;
pub mod tokens;

pub use parser::{parse, parse_lines, Parser, Sexp};
pub use rustify::rustify;

verus! {

/// Represents an error occurred during parsing or rustifying.
#[derive(Debug, PartialEq, Eq)]
pub struct Error<Kind> {
    /// Line number of the input where the error occurs.
    pub lineno: Option<usize>,
    /// Type of error occurred.
    pub kind: Kind,
}

/// A line number as a mathematical value.
pub open spec fn line_view(lineno: Option<usize>) -> Option<nat> {
    match lineno {
        Some(n) => Some(n as nat),
        None => None,
    }
}

impl<Kind: View> View for Error<Kind> {
    type V = (Option<nat>, Kind::V);

    open spec fn view(&self) -> (Option<nat>, Kind::V) {
        (line_view(self.lineno), self.kind@)
    }
}

/// A kind of error that can be described in words.
pub trait Describe {
    /// The description.
    spec fn description(&self) -> Seq<char>;

    /// Writes the description.
    fn describe(&self) -> (r: String)
        ensures
            r@ == self.description(),
    ;
}

/// ` on line <n>` when the line is known.
pub open spec fn line_suffix(lineno: Option<usize>) -> Seq<char> {
    match lineno {
        Some(n) => " on line "@ + decimal(n as nat),
        None => seq![],
    }
}

impl<Kind: Describe> Error<Kind> {
    /// The message of the error: its description, the line when it is known, and a full stop.
    pub fn message(&self) -> (r: String)
        ensures
            r@ == self.kind.description() + line_suffix(self.lineno) + "."@,
    {
        let mut r = self.kind.describe();
        if let Some(n) = self.lineno {
            push_str(&mut r, " on line ");
            push_decimal(&mut r, n);
        }
        push_str(&mut r, ".");
        proof {
            if self.lineno is None {
                assert(self.kind.description() + line_suffix(self.lineno) =~= self.kind.description());
            }
        }
        r
    }
}

} // verus!
