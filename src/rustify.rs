//! Generation of Rust tokens from s-expressions.
use vstd::prelude::*;

use crate::parser::{sexps_view, Sexp, SexpV};
use crate::tokens::{extend, push_text, push_token, text_of, text_tokens, tokens_text, tokens_view, Delimiter, Token, TokenV};
use crate::text::push_str;
use crate::Error;

pub mod flow;
pub mod function;
pub mod list;
pub mod model;
pub mod ops;
pub mod types;

use model::{Rendered, loosest, group, semi, atom_spec, render_spec, join_spec, body_spec, block_spec, call_spec, uses_spec, path_spec, path_seq_spec};

verus! {

/// An error occurred during generating Rust code.
#[derive(Debug, PartialEq, Eq)]
pub enum RustifyError {
    /// An atom that does not read as Rust tokens, and the lexer's message.
    AtomParseError(String, String),
    /// Array or generic instead of function name: its rendering as text.
    UnexpectedFunctionName(String),
    /// Arguments are missing for the given constructor.
    MissingArguments(String),
    /// An operand is missing for the given operator.
    MissingOperand(String),
    /// Too much arguments were passed.
    TooMuchArguments(String),
    /// Match condition malformed.
    ExpectedMatchCondition,
}

/// The value of a [`RustifyError`].
pub enum RustifyFault {
    AtomParseError(Seq<char>, Seq<char>),
    UnexpectedFunctionName(Seq<char>),
    MissingArguments(Seq<char>),
    MissingOperand(Seq<char>),
    TooMuchArguments(Seq<char>),
    ExpectedMatchCondition,
}

impl View for RustifyError {
    type V = RustifyFault;

    open spec fn view(&self) -> RustifyFault {
        match self {
            RustifyError::AtomParseError(a, d) => RustifyFault::AtomParseError(a@, d@),
            RustifyError::UnexpectedFunctionName(x) => RustifyFault::UnexpectedFunctionName(x@),
            RustifyError::MissingArguments(x) => RustifyFault::MissingArguments(x@),
            RustifyError::MissingOperand(x) => RustifyFault::MissingOperand(x@),
            RustifyError::TooMuchArguments(x) => RustifyFault::TooMuchArguments(x@),
            RustifyError::ExpectedMatchCondition => RustifyFault::ExpectedMatchCondition,
        }
    }
}

/// Generated tokens, or the error that stopped generation.
pub type Generated = Result<Vec<Token>, Error<RustifyError>>;

pub open spec fn rendered_view(r: Generated) -> Rendered {
    match r {
        Ok(v) => Ok(tokens_view(v)),
        Err(e) => Err(e@),
    }
}

/// What proc_macro2's lexer reports on a text: nothing when the text reads as Rust tokens, else
/// the message of its error.
pub uninterp spec fn lex_error(s: Seq<char>) -> Option<Seq<char>>;

/// Relies on proc_macro2's `TokenStream::from_str`: outside a procedural macro it lexes with
/// the crate's own lexer, so whether it fails, and its error's message, depend on the text
/// alone.
#[verifier::external_body]
fn lex_check(s: &str) -> (r: Option<String>)
    ensures
        match r {
            None => lex_error(s@) is None,
            Some(d) => lex_error(s@) == Some(d@),
        },
{
    match <proc_macro2::TokenStream as core::str::FromStr>::from_str(s) {
        Ok(_) => None,
        Err(e) => Some(e.to_string()),
    }
}

/// An atom on line `lineno`, as the text it holds when it reads as Rust tokens.
pub(crate) fn atom_to_token_stream(val: &String, lineno: usize) -> (r: Generated)
    ensures
        rendered_view(r) == atom_spec(val@, lineno as nat),
{
    match lex_check(val.as_str()) {
        None => {
            Ok(text_tokens(val.as_str()))
        },
        Some(d) => Err(
            Error {
                lineno: Some(lineno),
                kind: RustifyError::AtomParseError(val.clone(), d),
            },
        ),
    }
}

/// The tokens `inner` in one group.
pub(crate) fn group_tokens(d: Delimiter, inner: Vec<Token>) -> (r: Vec<Token>)
    ensures
        tokens_view(r) == group(d, tokens_view(inner)),
{
    let mut r: Vec<Token> = Vec::new();
    r.push(Token::Group(d, inner));
    assert(tokens_view(r) =~= group(d, tokens_view(inner)));
    r
}

/// Appends the tokens `inner` in one group.
pub(crate) fn push_group(v: &mut Vec<Token>, d: Delimiter, inner: Vec<Token>)
    ensures
        tokens_view(*final(v)) == tokens_view(*old(v)) + group(d, tokens_view(inner)),
{
    push_token(v, Token::Group(d, inner));
}

/// Appends a statement terminator in statement context.
pub(crate) fn push_semi(v: &mut Vec<Token>, statement: bool)
    ensures
        tokens_view(*final(v)) == tokens_view(*old(v)) + semi(statement),
{
    if statement {
        push_text(v, ";");
    } else {
        assert(tokens_view(*v) + semi(statement) =~= tokens_view(*v));
    }
}

/// Rendering is pure: two renderings of one expression tree in the same context, each as
/// `exp_to_token_stream` ensures, yield the same tokens, hence the same text, or the same error.
pub proof fn rendering_is_pure(
    e: SexpV,
    statement: bool,
    parent_precedence: int,
    first: Generated,
    second: Generated,
)
    requires
        rendered_view(first) == render_spec(e, statement, parent_precedence),
        rendered_view(second) == render_spec(e, statement, parent_precedence),
    ensures
        rendered_view(first) == rendered_view(second),
        first is Ok ==> second is Ok && text_of(tokens_view(first->Ok_0)) == text_of(
            tokens_view(second->Ok_0),
        ),
{
}

/// Generates Rust code from a parsed s-expression, in statement context.
pub fn rustify(exp: &Sexp) -> (r: Generated)
    ensures
        rendered_view(r) == render_spec(exp@, true, loosest()),
{
    exp_to_token_stream(exp, true, 127)
}

/// An expression in statement or expression context, under the rank of its context.
pub fn exp_to_token_stream(exp: &Sexp, statement: bool, parent_precedence: i8) -> (r: Generated)
    ensures
        rendered_view(r) == render_spec(exp@, statement, parent_precedence as int),
    decreases exp, 0int, 0int,
{
    match exp {
        Sexp::Atom { val, lineno } => atom_to_token_stream(val, *lineno),
        Sexp::Array(a) => {
            let inner = match join_exprs(a, 0, a.len()) {
                Ok(v) => v,
                Err(e) => {
                    return Err(e);
                },
            };
            Ok(group_tokens(Delimiter::Bracket, inner))
        },
        Sexp::Generics(a) => {
            let inner = match join_exprs(a, 0, a.len()) {
                Ok(v) => v,
                Err(e) => {
                    return Err(e);
                },
            };
            let mut res = text_tokens("<");
            extend(&mut res, inner);
            push_text(&mut res, ">");
            Ok(res)
        },
        Sexp::List(l) => list::list_to_token_stream(l, 0, statement, parent_precedence),
    }
}

proof fn lemma_join_stops(c: Seq<SexpV>, start: int, k: int, end: int)
    requires
        0 <= start <= k <= end <= c.len(),
        join_spec(c, start, k) is Err,
    ensures
        join_spec(c, start, end) == join_spec(c, start, k),
    decreases end - k,
{
    if end > k {
        lemma_join_stops(c, start, k, end - 1);
    }
}

/// The expressions `l[start..end]` in expression context, separated by commas.
pub fn join_exprs(l: &Vec<Sexp>, start: usize, end: usize) -> (r: Generated)
    requires
        start <= end <= l@.len(),
    ensures
        rendered_view(r) == join_spec(sexps_view(*l), start as int, end as int),
    decreases l, 1int, 0int,
{
    let ghost c = sexps_view(*l);
    let mut res: Vec<Token> = Vec::new();
    let mut i = start;
    assert(tokens_view(res) =~= seq![]);
    while i < end
        invariant
            start <= i <= end <= l@.len(),
            c == sexps_view(*l),
            join_spec(c, start as int, i as int) == Ok::<Seq<TokenV>, (Option<nat>, RustifyFault)>(
                tokens_view(res),
            ),
        decreases end - i,
    {
        match exp_to_token_stream(&l[i], false, 127) {
            Err(e) => {
                proof {
                    lemma_join_stops(c, start as int, i + 1, end as int);
                }
                return Err(e);
            },
            Ok(x) => {
                if i > start {
                    push_text(&mut res, ",");
                }
                extend(&mut res, x);
                proof {
                    if i == start {
                        assert(tokens_view(res) =~= tokens_view(x));
                    }
                }
            },
        }
        i = i + 1;
    }
    Ok(res)
}

proof fn lemma_body_stops(c: Seq<SexpV>, start: int, k: int, end: int, yields: bool)
    requires
        0 <= start <= k <= end <= c.len(),
        body_spec(c, start, k, yields) is Err,
    ensures
        body_spec(c, start, end, yields) == body_spec(c, start, k, yields),
    decreases end - k,
{
    if end > k {
        lemma_body_stops(c, start, k, end - 1, yields);
    }
}

/// A block in braces over `l[start..]`: each expression in statement context but the last,
/// which is in statement context when the block yields no value.
pub fn block_to_token_stream(l: &Vec<Sexp>, start: usize, yields: bool) -> (r: Generated)
    requires
        start <= l@.len(),
    ensures
        rendered_view(r) == block_spec(sexps_view(*l), start as int, yields),
    decreases l, 2int, 0int,
{
    let ghost c = sexps_view(*l);
    let mut res: Vec<Token> = Vec::new();
    let mut i = start;
    assert(tokens_view(res) =~= seq![]);
    while i < l.len()
        invariant
            start <= i <= l@.len(),
            c == sexps_view(*l),
            body_spec(c, start as int, i as int, yields) == Ok::<
                Seq<TokenV>,
                (Option<nat>, RustifyFault),
            >(tokens_view(res)),
        decreases l@.len() - i,
    {
        let statement = if i + 1 == l.len() {
            !yields
        } else {
            true
        };
        match exp_to_token_stream(&l[i], statement, 127) {
            Err(e) => {
                proof {
                    lemma_body_stops(c, start as int, i + 1, l@.len() as int, yields);
                }
                return Err(e);
            },
            Ok(x) => {
                extend(&mut res, x);
            },
        }
        i = i + 1;
    }
    Ok(group_tokens(Delimiter::Brace, res))
}

/// A call of `l[start]` with the arguments `l[start + 1..]`.
pub fn call_to_token_stream(l: &Vec<Sexp>, start: usize, statement: bool) -> (r: Generated)
    requires
        start < l@.len(),
    ensures
        rendered_view(r) == call_spec(sexps_view(*l), start as int, statement),
    decreases l, 3int, 0int,
{
    let mut res = match exp_to_token_stream(&l[start], false, 127) {
        Ok(v) => v,
        Err(e) => {
            return Err(e);
        },
    };
    let n = l.len();
    let args = match join_exprs(l, start + 1, n) {
        Ok(v) => v,
        Err(e) => {
            return Err(e);
        },
    };
    push_group(&mut res, Delimiter::Parenthesis, args);
    push_semi(&mut res, statement);
    Ok(res)
}

proof fn lemma_path_seq_stops(l: Seq<SexpV>, start: int, k: int, end: int, n: nat, sep: Seq<char>)
    requires
        0 <= start <= k <= end <= l.len(),
        path_seq_spec(l, start, k, n, sep) is Err,
    ensures
        path_seq_spec(l, start, end, n, sep) == path_seq_spec(l, start, k, n, sep),
    decreases end - k,
{
    if end > k {
        lemma_path_seq_stops(l, start, k, end - 1, n, sep);
    }
}

/// The paths `l[start..]` on line `lineno`, separated by `sep`.
fn path_seq_to_token_stream(l: &Vec<Sexp>, start: usize, lineno: usize, sep: &str) -> (r: Generated)
    requires
        start <= l@.len(),
    ensures
        rendered_view(r) == path_seq_spec(
            sexps_view(*l),
            start as int,
            l@.len() as int,
            lineno as nat,
            sep@,
        ),
    decreases l, 1int, 0int,
{
    let ghost c = sexps_view(*l);
    let mut res: Vec<Token> = Vec::new();
    let mut i = start;
    assert(tokens_view(res) =~= seq![]);
    while i < l.len()
        invariant
            start <= i <= l@.len(),
            c == sexps_view(*l),
            path_seq_spec(c, start as int, i as int, lineno as nat, sep@) == Ok::<
                Seq<TokenV>,
                (Option<nat>, RustifyFault),
            >(tokens_view(res)),
        decreases l@.len() - i,
    {
        match path_to_token_stream(&l[i], lineno) {
            Err(e) => {
                proof {
                    lemma_path_seq_stops(
                        c,
                        start as int,
                        i + 1,
                        l@.len() as int,
                        lineno as nat,
                        sep@,
                    );
                }
                return Err(e);
            },
            Ok(x) => {
                if i > start {
                    push_text(&mut res, sep);
                }
                extend(&mut res, x);
                proof {
                    if i == start {
                        assert(tokens_view(res) =~= tokens_view(x));
                    }
                }
            },
        }
        i = i + 1;
    }
    Ok(res)
}

/// A path of a `use` declaration on line `lineno`: an atom, a list headed by `::` joined by
/// `::`, or any other list as a set of paths in braces.
pub fn path_to_token_stream(path: &Sexp, lineno: usize) -> (r: Generated)
    ensures
        rendered_view(r) == path_spec(path@, lineno as nat),
    decreases path, 1int, 0int,
{
    match path {
        Sexp::Atom { val, .. } => atom_to_token_stream(val, lineno),
        Sexp::List(l) => {
            let sep_head = if l.len() > 0 {
                match &l[0] {
                    Sexp::Atom { val, lineno } => if crate::text::str_eq(val.as_str(), "::") {
                        Some(*lineno)
                    } else {
                        None
                    },
                    _ => None,
                }
            } else {
                None
            };
            match sep_head {
                Some(n) => path_seq_to_token_stream(l, 1, n, "::"),
                None => {
                    let inner = match path_seq_to_token_stream(l, 0, lineno, ",") {
                        Ok(v) => v,
                        Err(e) => {
                            return Err(e);
                        },
                    };
                    Ok(group_tokens(Delimiter::Brace, inner))
                },
            }
        },
        _ => {
            let shown = match exp_to_token_stream(path, true, 127) {
                Ok(v) => v,
                Err(e) => {
                    return Err(e);
                },
            };
            Err(
                Error {
                    lineno: Some(lineno),
                    kind: RustifyError::UnexpectedFunctionName(tokens_text(&shown)),
                },
            )
        },
    }
}


proof fn lemma_uses_stop(c: Seq<SexpV>, start: int, k: int, end: int, n: nat)
    requires
        0 <= start <= k <= end <= c.len(),
        uses_spec(c, start, k, n) is Err,
    ensures
        uses_spec(c, start, end, n) == uses_spec(c, start, k, n),
    decreases end - k,
{
    if end > k {
        lemma_uses_stop(c, start, k, end - 1, n);
    }
}

/// One `use` declaration for each path of `l[start..]`, on line `lineno`.
pub fn uses_to_token_stream(l: &Vec<Sexp>, start: usize, lineno: usize) -> (r: Generated)
    requires
        start <= l@.len(),
    ensures
        rendered_view(r) == uses_spec(sexps_view(*l), start as int, l@.len() as int, lineno as nat),
    decreases l, 3int, 0int,
{
    let ghost c = sexps_view(*l);
    let mut res: Vec<Token> = Vec::new();
    let mut i = start;
    assert(tokens_view(res) =~= seq![]);
    while i < l.len()
        invariant
            start <= i <= l@.len(),
            c == sexps_view(*l),
            uses_spec(c, start as int, i as int, lineno as nat) == Ok::<
                Seq<TokenV>,
                (Option<nat>, RustifyFault),
            >(tokens_view(res)),
        decreases l@.len() - i,
    {
        match path_to_token_stream(&l[i], lineno) {
            Err(e) => {
                proof {
                    lemma_uses_stop(c, start as int, i + 1, l@.len() as int, lineno as nat);
                }
                return Err(e);
            },
            Ok(x) => {
                push_text(&mut res, "use");
                extend(&mut res, x);
                push_text(&mut res, ";");
            },
        }
        i = i + 1;
    }
    Ok(res)
}


impl crate::Describe for RustifyError {
    open spec fn description(&self) -> Seq<char> {
        match self {
            RustifyError::AtomParseError(a, e) => "Cannot properly parse atom `"@ + a@ + "`. "@ + e@,
            RustifyError::UnexpectedFunctionName(x) => "Unexpected array or generics `"@ + x@
                + "` as function name"@,
            RustifyError::MissingArguments(x) => "Missing arguments for '"@ + x@ + "'"@,
            RustifyError::MissingOperand(x) => "Missing operands for operator '"@ + x@ + "'"@,
            RustifyError::TooMuchArguments(x) => "Too much arguments for '"@ + x@ + "'"@,
            RustifyError::ExpectedMatchCondition => "Expected list (condition value) in match body"@,
        }
    }

    fn describe(&self) -> (r: String) {
        let mut r = String::new();
        match self {
            RustifyError::AtomParseError(a, e) => {
                push_str(&mut r, "Cannot properly parse atom `");
                push_str(&mut r, a.as_str());
                push_str(&mut r, "`. ");
                push_str(&mut r, e.as_str());
            },
            RustifyError::UnexpectedFunctionName(x) => {
                push_str(&mut r, "Unexpected array or generics `");
                push_str(&mut r, x.as_str());
                push_str(&mut r, "` as function name");
            },
            RustifyError::MissingArguments(x) => {
                push_str(&mut r, "Missing arguments for '");
                push_str(&mut r, x.as_str());
                push_str(&mut r, "'");
            },
            RustifyError::MissingOperand(x) => {
                push_str(&mut r, "Missing operands for operator '");
                push_str(&mut r, x.as_str());
                push_str(&mut r, "'");
            },
            RustifyError::TooMuchArguments(x) => {
                push_str(&mut r, "Too much arguments for '");
                push_str(&mut r, x.as_str());
                push_str(&mut r, "'");
            },
            RustifyError::ExpectedMatchCondition => {
                push_str(&mut r, "Expected list (condition value) in match body");
            },
        }
        assert(r@ =~= self.description());
        r
    }
}

} // verus!
