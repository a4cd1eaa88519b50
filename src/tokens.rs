//! Rust tokens as the generator produces them: pieces of source text, and groups in delimiters.
use vstd::prelude::*;

use crate::text::chars_of;

verus! {

/// The delimiters of a group.
#[derive(Clone, Copy, PartialEq, Eq, Structural, Debug)]
pub enum Delimiter {
    /// `( ... )`
    Parenthesis,
    /// `{ ... }`
    Brace,
    /// `[ ... ]`
    Bracket,
}

/// A token of generated Rust code.
#[derive(Debug, PartialEq, Eq)]
pub enum Token {
    /// Source text that reads as Rust tokens: a word, a symbol, a literal or an atom.
    Text(String),
    /// Tokens inside a pair of delimiters.
    Group(Delimiter, Vec<Token>),
}

/// The value of a [`Token`].
pub enum TokenV {
    Text(Seq<char>),
    Group(Delimiter, Seq<TokenV>),
}

pub open spec fn token_view(t: Token) -> TokenV
    decreases t,
{
    match t {
        Token::Text(s) => TokenV::Text(s@),
        Token::Group(d, v) => TokenV::Group(d, tokens_view(v)),
    }
}

/// The values of the tokens of `v`, in order.
pub open spec fn tokens_view(v: Vec<Token>) -> Seq<TokenV>
    decreases v,
{
    v@.map(
        |i: int, x: Token|
            if 0 <= i < v@.len() {
                token_view(v@[i])
            } else {
                TokenV::Text(seq![])
            },
    )
}

impl View for Token {
    type V = TokenV;

    open spec fn view(&self) -> TokenV {
        token_view(*self)
    }
}

/// A single piece of text, as a sequence of tokens.
pub open spec fn tx(s: Seq<char>) -> Seq<TokenV> {
    seq![TokenV::Text(s)]
}

pub open spec fn open_of(d: Delimiter) -> char {
    match d {
        Delimiter::Parenthesis => '(',
        Delimiter::Brace => '{',
        Delimiter::Bracket => '[',
    }
}

pub open spec fn close_of(d: Delimiter) -> char {
    match d {
        Delimiter::Parenthesis => ')',
        Delimiter::Brace => '}',
        Delimiter::Bracket => ']',
    }
}

/// The tokens `ts` as text: one space between two tokens, and each group's tokens written
/// between its delimiters.
pub open spec fn text_of(ts: Seq<TokenV>) -> Seq<char>
    decreases ts,
{
    if ts.len() == 0 {
        seq![]
    } else if ts.len() == 1 {
        token_text(ts[0])
    } else {
        text_of(ts.subrange(0, ts.len() - 1)) + seq![' '] + token_text(ts[ts.len() - 1])
    }
}

/// One token as text.
pub open spec fn token_text(t: TokenV) -> Seq<char>
    decreases t,
{
    match t {
        TokenV::Text(s) => s,
        TokenV::Group(d, inner) => seq![open_of(d)] + text_of(inner) + seq![close_of(d)],
    }
}

/// A token of text.
pub(crate) fn text(s: &str) -> (r: Token)
    ensures
        r@ == TokenV::Text(s@),
{
    Token::Text(s.to_owned())
}

/// No tokens.
pub(crate) fn no_tokens() -> (r: Vec<Token>)
    ensures
        tokens_view(r) == Seq::<TokenV>::empty(),
{
    let r: Vec<Token> = Vec::new();
    assert(tokens_view(r) =~= Seq::<TokenV>::empty());
    r
}

/// A single token of text.
pub(crate) fn text_tokens(s: &str) -> (r: Vec<Token>)
    ensures
        tokens_view(r) == tx(s@),
{
    let mut r: Vec<Token> = Vec::new();
    r.push(text(s));
    assert(tokens_view(r) =~= tx(s@));
    r
}

/// Appends a token of text.
pub(crate) fn push_text(v: &mut Vec<Token>, s: &str)
    ensures
        tokens_view(*final(v)) == tokens_view(*old(v)) + tx(s@),
{
    let t = text(s);
    push_token(v, t);
}

/// Appends a token.
pub(crate) fn push_token(v: &mut Vec<Token>, t: Token)
    ensures
        tokens_view(*final(v)) == tokens_view(*old(v)) + seq![t@],
{
    let ghost before = *v;
    v.push(t);
    assert(tokens_view(*v) =~= tokens_view(before) + seq![t@]);
}

/// Appends the tokens of `w`.
pub(crate) fn extend(v: &mut Vec<Token>, w: Vec<Token>)
    ensures
        tokens_view(*final(v)) == tokens_view(*old(v)) + tokens_view(w),
{
    let ghost before = *v;
    let ghost wv = w;
    let mut w = w;
    v.append(&mut w);
    assert(tokens_view(*v) =~= tokens_view(before) + tokens_view(wv));
}

fn append_chars(s: &mut String, c: &Vec<char>)
    ensures
        final(s)@ == old(s)@ + c@,
{
    let mut i: usize = 0;
    let ghost start = s@;
    while i < c.len()
        invariant
            i <= c@.len(),
            s@ == start + c@.subrange(0, i as int),
        decreases c@.len() - i,
    {
        s.push(c[i]);
        i = i + 1;
        assert(s@ =~= start + c@.subrange(0, i as int));
    }
    assert(c@.subrange(0, i as int) =~= c@);
}

/// Writes one token as text at the end of `out`.
fn write_token(out: &mut String, t: &Token)
    ensures
        final(out)@ == old(out)@ + token_text(t@),
    decreases t,
{
    match t {
        Token::Text(s) => {
            let cs = chars_of(s.as_str());
            append_chars(out, &cs);
        },
        Token::Group(d, inner) => {
            let ghost start = out@;
            let (o, c) = match d {
                Delimiter::Parenthesis => ('(', ')'),
                Delimiter::Brace => ('{', '}'),
                Delimiter::Bracket => ('[', ']'),
            };
            out.push(o);
            write_tokens(out, inner);
            out.push(c);
            assert(out@ =~= start + token_text(t@));
        },
    }
}

/// Writes tokens as text at the end of `out`.
fn write_tokens(out: &mut String, ts: &Vec<Token>)
    ensures
        final(out)@ == old(out)@ + text_of(tokens_view(*ts)),
    decreases ts,
{
    let ghost start = out@;
    let ghost tv = tokens_view(*ts);
    let mut i: usize = 0;
    assert(tv.subrange(0, 0) =~= seq![]);
    while i < ts.len()
        invariant
            i <= ts@.len(),
            tv == tokens_view(*ts),
            out@ == start + text_of(tv.subrange(0, i as int)),
        decreases ts@.len() - i,
    {
        let ghost before = out@;
        if i > 0 {
            out.push(' ');
        }
        write_token(out, &ts[i]);
        assert(tv.subrange(0, i + 1).subrange(0, i as int) =~= tv.subrange(0, i as int));
        assert(out@ =~= start + text_of(tv.subrange(0, i + 1)));
        i = i + 1;
    }
    assert(tv.subrange(0, i as int) =~= tv);
}

/// The tokens as text: one space between two tokens, and each group's tokens written between
/// its delimiters.
pub fn tokens_text(ts: &Vec<Token>) -> (r: String)
    ensures
        r@ == text_of(tokens_view(*ts)),
{
    let mut r = String::new();
    write_tokens(&mut r, ts);
    assert(r@ =~= text_of(tokens_view(*ts)));
    r
}

} // verus!
