//! Streaming parser from lines of text to s-expressions.
use vstd::prelude::*;

use crate::text::push_str;
use crate::Error;

verus! {

/// Represents an S-expression.
#[derive(Debug, PartialEq, Eq)]
pub enum Sexp {
    /// This expression is an atom.
    Atom {
        /// The raw value of the atom.
        val: String,
        /// Its line number in the input.
        lineno: usize,
    },
    /// This expression is a list.
    List(Vec<Sexp>),
    /// This expression is an array.
    Array(Vec<Sexp>),
    /// This expression is a list of generics.
    Generics(Vec<Sexp>),
}

/// The value of an [`Sexp`]: an atom's text and line, or the ordered children of a group.
pub enum SexpV {
    Atom(Seq<char>, nat),
    List(Seq<SexpV>),
    Array(Seq<SexpV>),
    Generics(Seq<SexpV>),
}

pub open spec fn sexp_view(e: Sexp) -> SexpV
    decreases e,
{
    match e {
        Sexp::Atom { val, lineno } => SexpV::Atom(val@, lineno as nat),
        Sexp::List(l) => SexpV::List(sexps_view(l)),
        Sexp::Array(l) => SexpV::Array(sexps_view(l)),
        Sexp::Generics(l) => SexpV::Generics(sexps_view(l)),
    }
}

/// The values of the expressions of `l`, in order.
pub open spec fn sexps_view(l: Vec<Sexp>) -> Seq<SexpV>
    decreases l,
{
    l@.map(
        |i: int, x: Sexp|
            if 0 <= i < l@.len() {
                sexp_view(l@[i])
            } else {
                SexpV::List(seq![])
            },
    )
}

impl View for Sexp {
    type V = SexpV;

    open spec fn view(&self) -> SexpV {
        sexp_view(*self)
    }
}

/// An error occurred during parsing.
#[derive(Debug, PartialEq, Eq)]
pub enum ParseError {
    /// An unexpected character was found.
    Unexpected(char),
    /// An atom was found outside a list.
    AtomOutsideList(String),
    /// A group closing symbol is missing.
    Missing(char),
    /// There are too much group open/closing symbols.
    TooMuch(char),
    /// A group is closed with the wrong symbol: opening and closing characters.
    WrongClose(char, char),
}

/// The value of a [`ParseError`].
pub enum ParseFault {
    Unexpected(char),
    AtomOutsideList(Seq<char>),
    Missing(char),
    TooMuch(char),
    WrongClose(char, char),
}

impl View for ParseError {
    type V = ParseFault;

    open spec fn view(&self) -> ParseFault {
        match self {
            ParseError::Unexpected(c) => ParseFault::Unexpected(*c),
            ParseError::AtomOutsideList(a) => ParseFault::AtomOutsideList(a@),
            ParseError::Missing(c) => ParseFault::Missing(*c),
            ParseError::TooMuch(c) => ParseFault::TooMuch(*c),
            ParseError::WrongClose(o, c) => ParseFault::WrongClose(*o, *c),
        }
    }
}

/// One element of the parser's output, as a value.
pub type ParseItem = Result<SexpV, (Option<nat>, ParseFault)>;

pub open spec fn item_view(r: Result<Sexp, Error<ParseError>>) -> ParseItem {
    match r {
        Ok(e) => Ok(e@),
        Err(e) => Err(e@),
    }
}

pub open spec fn items_view(v: Seq<Result<Sexp, Error<ParseError>>>) -> Seq<ParseItem> {
    v.map_values(|r: Result<Sexp, Error<ParseError>>| item_view(r))
}

/// The parser's state between two characters: string and escape modes, the expressions
/// completed since the last release, and the stack of open groups with their children and
/// opening characters.
pub struct ScanState {
    pub string_mode: bool,
    pub escape_mode: bool,
    pub expressions: Seq<SexpV>,
    pub scopes: Seq<(Seq<SexpV>, char)>,
}

/// Returns the matching grouping character.
pub open spec fn pair_of(par: char) -> char {
    if par == '(' {
        ')'
    } else if par == ')' {
        '('
    } else if par == '[' {
        ']'
    } else if par == ']' {
        '['
    } else if par == '<' {
        '>'
    } else if par == '>' {
        '<'
    } else {
        ' '
    }
}

pub open spec fn is_open(c: char) -> bool {
    c == '(' || c == '[' || c == '<'
}

pub open spec fn is_close(c: char) -> bool {
    c == ')' || c == ']' || c == '>'
}

/// The group that a closing character makes of its children.
pub open spec fn group_of(close: char, children: Seq<SexpV>) -> SexpV {
    if close == ')' {
        SexpV::List(children)
    } else if close == ']' {
        SexpV::Array(children)
    } else {
        SexpV::Generics(children)
    }
}

/// Adds a completed expression to the innermost open group, or to the completed top-level
/// expressions when no group is open.
pub open spec fn attach(st: ScanState, e: SexpV) -> ScanState {
    if st.scopes.len() == 0 {
        ScanState { expressions: st.expressions.push(e), ..st }
    } else {
        let top = st.scopes.last();
        ScanState { scopes: st.scopes.drop_last().push((top.0.push(e), top.1)), ..st }
    }
}

/// Closes the pending token `tok` read on line `n`: a non-empty token becomes an atom of the
/// innermost open group; with no group open it is an atom outside a list.
pub open spec fn flush(st: ScanState, tok: Seq<char>, n: nat) -> Result<ScanState, ParseFault> {
    if tok.len() == 0 {
        Ok(st)
    } else if st.scopes.len() == 0 {
        Err(ParseFault::AtomOutsideList(tok))
    } else {
        Ok(attach(st, SexpV::Atom(tok, n)))
    }
}

/// Scans `line` (line number `n`) from position `i`, with pending token `tok`: the state at the
/// end of the line, or where scanning stopped, and the error that stopped it.
pub open spec fn scan(st: ScanState, tok: Seq<char>, line: Seq<char>, i: int, n: nat) -> (
    ScanState,
    Option<ParseFault>,
)
    decreases line.len() - i,
{
    if i >= line.len() || i < 0 {
        match flush(st, tok, n) {
            Ok(s) => (s, None),
            Err(f) => (st, Some(f)),
        }
    } else {
        let c = line[i];
        if c == '\\' {
            if st.string_mode {
                scan(ScanState { escape_mode: true, ..st }, tok.push('\\'), line, i + 1, n)
            } else {
                (st, Some(ParseFault::Unexpected('\\')))
            }
        } else if c == '"' && !st.escape_mode {
            scan(ScanState { string_mode: !st.string_mode, ..st }, tok.push(c), line, i + 1, n)
        } else if st.string_mode {
            scan(ScanState { escape_mode: false, ..st }, tok.push(c), line, i + 1, n)
        } else if is_open(c) || is_close(c) || c == ';' || c == ' ' {
            match flush(st, tok, n) {
                Err(f) => (st, Some(f)),
                Ok(s) => if is_open(c) {
                    scan(
                        ScanState { scopes: s.scopes.push((seq![], c)), ..s },
                        seq![],
                        line,
                        i + 1,
                        n,
                    )
                } else if is_close(c) {
                    if s.scopes.len() == 0 {
                        (s, Some(ParseFault::TooMuch(c)))
                    } else {
                        let top = s.scopes.last();
                        let s2 = ScanState { scopes: s.scopes.drop_last(), ..s };
                        if c != pair_of(top.1) {
                            (s2, Some(ParseFault::WrongClose(top.1, c)))
                        } else {
                            scan(attach(s2, group_of(c, top.0)), seq![], line, i + 1, n)
                        }
                    }
                } else if c == ';' {
                    (s, None)
                } else {
                    scan(s, seq![], line, i + 1, n)
                },
            }
        } else {
            scan(st, tok.push(c), line, i + 1, n)
        }
    }
}

/// What one line of input releases.
pub enum LineOut {
    /// Groups are still open: nothing is released.
    Pending,
    /// Nesting is back at depth zero: the expressions completed since the last release.
    Released(Seq<SexpV>),
    /// Scanning stopped on an error; the rest of the line is skipped.
    Failed(ParseFault),
}

/// Reads line number `n`: the next state and what the line releases.
pub open spec fn feed(st: ScanState, line: Seq<char>, n: nat) -> (ScanState, LineOut) {
    let (s, f) = scan(st, seq![], line, 0, n);
    match f {
        Some(f) => (s, LineOut::Failed(f)),
        None => if s.scopes.len() == 0 {
            (ScanState { expressions: seq![], ..s }, LineOut::Released(s.expressions))
        } else {
            (s, LineOut::Pending)
        },
    }
}

/// Completed expressions as successful results.
pub open spec fn oks(es: Seq<SexpV>) -> Seq<ParseItem> {
    es.map_values(|e: SexpV| Ok::<SexpV, (Option<nat>, ParseFault)>(e))
}

/// The results that a line's outcome yields, line number `n`.
pub open spec fn out_items(out: LineOut, n: nat) -> Seq<ParseItem> {
    match out {
        LineOut::Pending => seq![],
        LineOut::Released(es) => oks(es),
        LineOut::Failed(f) => seq![Err((Some(n), f))],
    }
}

/// The end of the input: with groups still open, one error for the innermost one, without a
/// line number; the stack of groups is then empty.
pub open spec fn finish(st: ScanState) -> (ScanState, Option<ParseFault>) {
    if st.scopes.len() == 0 {
        (st, None)
    } else {
        (ScanState { scopes: seq![], ..st }, Some(ParseFault::Missing(pair_of(st.scopes.last().1))))
    }
}

/// The error for a group left open ends the stream: once it is reported, the end of the input
/// yields nothing more.
pub proof fn missing_closer_is_final(st: ScanState)
    ensures
        finish(finish(st).0).1 is None,
        finish(finish(st).0).0 == finish(st).0,
{
}

/// The state before the first line.
pub open spec fn initial_state() -> ScanState {
    ScanState { string_mode: false, escape_mode: false, expressions: seq![], scopes: seq![] }
}

/// Reads lines `lines` from state `st`, the first being line number `n`: the state after them
/// and the results released, in order.
pub open spec fn feed_lines(st: ScanState, lines: Seq<Seq<char>>, n: nat) -> (
    ScanState,
    Seq<ParseItem>,
)
    decreases lines.len(),
{
    if lines.len() == 0 {
        (st, seq![])
    } else {
        let (s1, items) = feed_lines(st, lines.drop_last(), n);
        let k = (n + lines.len() - 1) as nat;
        let (s2, out) = feed(s1, lines.last(), k);
        (s2, items + out_items(out, k))
    }
}

/// Everything the parser yields on `lines`, lines numbered from 1.
pub open spec fn parse_spec(lines: Seq<Seq<char>>) -> Seq<ParseItem> {
    let (st, items) = feed_lines(initial_state(), lines, 1);
    match finish(st).1 {
        Some(f) => items.push(Err((None, f))),
        None => items,
    }
}



/// The lines of `s`: the pieces between its newline characters, so one more than it holds.
pub open spec fn split_lines(s: Seq<char>) -> Seq<Seq<char>>
    decreases s.len(),
{
    if s.len() == 0 {
        seq![seq![]]
    } else {
        let prev = split_lines(s.drop_last());
        if s.last() == '\n' {
            prev.push(seq![])
        } else {
            prev.update(prev.len() - 1, prev.last().push(s.last()))
        }
    }
}

/// The text of each string of `v`.
pub open spec fn strings_view(v: Seq<String>) -> Seq<Seq<char>> {
    v.map_values(|s: String| s@)
}

/// A resumable parser: it is fed lines one at a time, and each line releases the results that
/// it completes. It holds no more than the open groups and the expressions not yet released.
pub struct Parser {
    string_mode: bool,
    escape_mode: bool,
    expressions: Vec<Sexp>,
    scopes: Vec<(Vec<Sexp>, char)>,
    lines: usize,
}

/// The values of the open groups of a parser.
pub open spec fn scopes_view(s: Seq<(Vec<Sexp>, char)>) -> Seq<(Seq<SexpV>, char)> {
    s.map_values(|p: (Vec<Sexp>, char)| (sexps_view(p.0), p.1))
}

impl View for Parser {
    type V = ScanState;

    closed spec fn view(&self) -> ScanState {
        ScanState {
            string_mode: self.string_mode,
            escape_mode: self.escape_mode,
            expressions: sexps_view(self.expressions),
            scopes: scopes_view(self.scopes@),
        }
    }
}

/// The value of an optional parse error.
pub open spec fn fault_view(f: Option<ParseError>) -> Option<ParseFault> {
    match f {
        Some(e) => Some(e@),
        None => None,
    }
}

proof fn lemma_sexps_push(l: Vec<Sexp>, e: Sexp, l2: Vec<Sexp>)
    requires
        l2@ == l@.push(e),
    ensures
        sexps_view(l2) == sexps_view(l).push(e@),
{
    assert(sexps_view(l2) =~= sexps_view(l).push(e@));
}

fn pair_of_exec(par: char) -> (r: char)
    ensures
        r == pair_of(par),
{
    if par == '(' {
        ')'
    } else if par == ')' {
        '('
    } else if par == '[' {
        ']'
    } else if par == ']' {
        '['
    } else if par == '<' {
        '>'
    } else if par == '>' {
        '<'
    } else {
        ' '
    }
}

impl Parser {
    /// The number of lines read so far.
    pub closed spec fn line_count(&self) -> nat {
        self.lines as nat
    }

    /// A parser before its first line.
    pub fn new() -> (r: Parser)
        ensures
            r@ == initial_state(),
            r.line_count() == 0,
    {
        let r = Parser {
            string_mode: false,
            escape_mode: false,
            expressions: Vec::new(),
            scopes: Vec::new(),
            lines: 0,
        };
        assert(r@.expressions =~= seq![]);
        assert(r@.scopes =~= seq![]);
        r
    }

    fn attach_exec(&mut self, e: Sexp)
        ensures
            final(self)@ == attach(old(self)@, e@),
            final(self).lines == old(self).lines,
    {
        if self.scopes.len() == 0 {
            let ghost old_es = self.expressions;
            self.expressions.push(e);
            proof {
                lemma_sexps_push(old_es, e, self.expressions);
            }
        } else {
            let ghost old_scopes = self.scopes@;
            let (mut top, c) = self.scopes.pop().unwrap();
            let ghost old_top = top;
            top.push(e);
            proof {
                lemma_sexps_push(old_top, e, top);
            }
            self.scopes.push((top, c));
            assert(scopes_view(self.scopes@) =~= scopes_view(old_scopes).drop_last().push(
                (sexps_view(old_top).push(e@), c),
            ));
        }
    }

    fn flush_token(&mut self, token: String, n: usize) -> (r: Result<(), ParseError>)
        ensures
            match flush(old(self)@, token@, n as nat) {
                Ok(s) => r is Ok && final(self)@ == s,
                Err(f) => r matches Err(e) && e@ == f && final(self)@ == old(self)@,
            },
            final(self).lines == old(self).lines,
    {
        if token.as_str().is_empty() {
            Ok(())
        } else if self.scopes.len() == 0 {
            Err(ParseError::AtomOutsideList(token))
        } else {
            let atom = Sexp::Atom { val: token, lineno: n };
            self.attach_exec(atom);
            Ok(())
        }
    }

    /// Reads the next line: its results, in the order in which they complete. When the line
    /// brings nesting back to depth zero these are the expressions completed since the last
    /// release; an error stops the line, whose rest is skipped.
    pub fn feed_line(&mut self, line: &str) -> (r: Vec<Result<Sexp, Error<ParseError>>>)
        requires
            old(self).line_count() < usize::MAX,
        ensures
            final(self).line_count() == old(self).line_count() + 1,
            ({
                let (s, out) = feed(old(self)@, line@, final(self).line_count());
                final(self)@ == s && items_view(r@) == out_items(out, final(self).line_count())
            }),
    {
        self.lines = self.lines + 1;
        let n = self.lines;
        let chars = crate::text::chars_of(line);
        let ghost goal = scan(self@, seq![], line@, 0, n as nat);
        let mut token = String::new();
        let mut i: usize = 0;
        let mut stopped = false;
        let mut failure: Option<ParseError> = None;
        while i < chars.len() && !stopped
            invariant
                chars@ == line@,
                i <= chars@.len(),
                self.lines == n,
                !stopped ==> failure is None && scan(self@, token@, line@, i as int, n as nat)
                    == goal,
                stopped ==> (self@, fault_view(failure)) == goal,
            decreases chars@.len() - i, if stopped { 0int } else { 1int },
        {
            let c = chars[i];
            if c == '\\' {
                if self.string_mode {
                    token.push('\\');
                    self.escape_mode = true;
                    i = i + 1;
                } else {
                    failure = Some(ParseError::Unexpected('\\'));
                    stopped = true;
                }
            } else if c == '"' && !self.escape_mode {
                token.push(c);
                self.string_mode = !self.string_mode;
                i = i + 1;
            } else if self.string_mode {
                token.push(c);
                self.escape_mode = false;
                i = i + 1;
            } else if c == '(' || c == '[' || c == '<' || c == ')' || c == ']' || c == '>' || c
                == ';' || c == ' ' {
                let t = token;
                token = String::new();
                match self.flush_token(t, n) {
                    Err(e) => {
                        failure = Some(e);
                        stopped = true;
                    },
                    Ok(()) => {
                        if c == '(' || c == '[' || c == '<' {
                            let ghost before = self.scopes@;
                            let empty: Vec<Sexp> = Vec::new();
                            assert(sexps_view(empty) =~= seq![]);
                            self.scopes.push((empty, c));
                            assert(scopes_view(self.scopes@) =~= scopes_view(before).push(
                                (seq![], c),
                            ));
                            i = i + 1;
                        } else if c == ';' {
                            stopped = true;
                        } else if c == ' ' {
                            i = i + 1;
                        } else if self.scopes.len() == 0 {
                            failure = Some(ParseError::TooMuch(c));
                            stopped = true;
                        } else {
                            let ghost before = self.scopes@;
                            let (closed, opened_by) = self.scopes.pop().unwrap();
                            assert(scopes_view(self.scopes@) =~= scopes_view(before).drop_last());
                            if c != pair_of_exec(opened_by) {
                                failure = Some(ParseError::WrongClose(opened_by, c));
                                stopped = true;
                            } else {
                                let node = if c == ')' {
                                    Sexp::List(closed)
                                } else if c == ']' {
                                    Sexp::Array(closed)
                                } else {
                                    Sexp::Generics(closed)
                                };
                                self.attach_exec(node);
                                i = i + 1;
                            }
                        }
                    },
                }
            } else {
                token.push(c);
                i = i + 1;
            }
        }
        if !stopped {
            match self.flush_token(token, n) {
                Err(e) => {
                    failure = Some(e);
                },
                Ok(()) => {},
            }
        }
        let mut out: Vec<Result<Sexp, Error<ParseError>>> = Vec::new();
        match failure {
            Some(f) => {
                out.push(Err(Error { lineno: Some(n), kind: f }));
                assert(items_view(out@) =~= seq![Err((Some(n as nat), f@))]);
            },
            None => {
                if self.scopes.len() == 0 {
                    let mut es: Vec<Sexp> = Vec::new();
                    std::mem::swap(&mut es, &mut self.expressions);
                    assert(sexps_view(self.expressions) =~= seq![]);
                    out = released(es);
                }
            },
        }
        out
    }

    /// Ends the input: while groups are still open, one error for the innermost, without a
    /// line number; no group is open afterwards.
    pub fn finish(&mut self) -> (r: Option<Error<ParseError>>)
        ensures
            final(self)@ == finish(old(self)@).0,
            final(self).line_count() == old(self).line_count(),
            match finish(old(self)@).1 {
                Some(f) => r matches Some(e) && e@ == (None::<nat>, f),
                None => r is None,
            },
    {
        if self.scopes.len() == 0 {
            None
        } else {
            let opened_by = self.scopes[self.scopes.len() - 1].1;
            self.scopes.clear();
            assert(scopes_view(self.scopes@) =~= seq![]);
            Some(Error { lineno: None, kind: ParseError::Missing(pair_of_exec(opened_by)) })
        }
    }
}

/// The completed expressions `es` as successful results, in order.
fn released(es: Vec<Sexp>) -> (r: Vec<Result<Sexp, Error<ParseError>>>)
    ensures
        items_view(r@) == oks(sexps_view(es)),
{
    let mut es = es;
    let ghost all = sexps_view(es);
    let mut r: Vec<Result<Sexp, Error<ParseError>>> = Vec::new();
    while es.len() > 0
        invariant
            items_view(r@) + oks(sexps_view(es)) == oks(all),
        decreases es@.len(),
    {
        let ghost before = es;
        let e = es.remove(0);
        assert(sexps_view(before) =~= seq![e@] + sexps_view(es));
        r.push(Ok(e));
        assert(items_view(r@) + oks(sexps_view(es)) =~= oks(all));
    }
    assert(items_view(r@) =~= oks(all));
    r
}


/// Parses lines of text into s-expressions and errors, in the order in which they complete.
pub fn parse_lines(input: &Vec<String>) -> (r: Vec<Result<Sexp, Error<ParseError>>>)
    requires
        input@.len() < usize::MAX,
    ensures
        items_view(r@) == parse_spec(strings_view(input@)),
{
    let ghost lv = strings_view(input@);
    let mut p = Parser::new();
    let mut r: Vec<Result<Sexp, Error<ParseError>>> = Vec::new();
    let mut i: usize = 0;
    assert(lv.subrange(0, 0) =~= seq![]);
    assert(items_view(r@) =~= seq![]);
    while i < input.len()
        invariant
            i <= input@.len() < usize::MAX,
            lv == strings_view(input@),
            p.line_count() == i,
            (p@, items_view(r@)) == feed_lines(initial_state(), lv.subrange(0, i as int), 1),
        decreases input@.len() - i,
    {
        let ghost before = r@;
        let mut out = p.feed_line(input[i].as_str());
        let ghost out_v = out@;
        r.append(&mut out);
        proof {
            assert(lv.subrange(0, i + 1).drop_last() =~= lv.subrange(0, i as int));
            assert(items_view(r@) =~= items_view(before) + items_view(out_v));
        }
        i = i + 1;
    }
    assert(lv.subrange(0, i as int) =~= lv);
    let ghost before = r@;
    match p.finish() {
        Some(e) => {
            r.push(Err(e));
            assert(items_view(r@) =~= items_view(before).push(Err(e@)));
        },
        None => {},
    }
    r
}


/// Parses a text, split into lines at each newline character, into s-expressions and errors.
pub fn parse(input: &str) -> (r: Vec<Result<Sexp, Error<ParseError>>>)
    requires
        input@.len() < usize::MAX - 1,
    ensures
        items_view(r@) == parse_spec(split_lines(input@)),
{
    let chars = crate::text::chars_of(input);
    let mut lines: Vec<String> = Vec::new();
    let mut cur = String::new();
    let mut i: usize = 0;
    assert(chars@.subrange(0, 0) =~= seq![]);
    assert(strings_view(lines@).push(cur@) =~= seq![seq![]]);
    while i < chars.len()
        invariant
            chars@ == input@,
            i <= chars@.len(),
            lines@.len() <= i,
            strings_view(lines@).push(cur@) == split_lines(chars@.subrange(0, i as int)),
        decreases chars@.len() - i,
    {
        let c = chars[i];
        let ghost prefix = chars@.subrange(0, i + 1);
        assert(prefix.drop_last() =~= chars@.subrange(0, i as int));
        if c == '\n' {
            let ghost before = lines@;
            let done = cur;
            lines.push(done);
            cur = String::new();
            assert(strings_view(lines@).push(cur@) =~= strings_view(before).push(done@).push(
                seq![],
            ));
        } else {
            let ghost before = cur@;
            cur.push(c);
            assert(strings_view(lines@).push(cur@) =~= strings_view(lines@).push(before).update(
                lines@.len() as int,
                before.push(c),
            ));
        }
        i = i + 1;
    }
    let ghost before = lines@;
    lines.push(cur);
    assert(chars@.subrange(0, i as int) =~= input@);
    assert(strings_view(lines@) =~= strings_view(before).push(cur@));
    parse_lines(&lines)
}


/// A character between single quotes.
pub open spec fn quoted(c: char) -> Seq<char> {
    seq!['\'', c, '\'']
}

fn push_quoted(s: &mut String, c: char)
    ensures
        final(s)@ == old(s)@ + quoted(c),
{
    s.push('\'');
    s.push(c);
    s.push('\'');
    assert(final(s)@ =~= old(s)@ + quoted(c));
}

impl crate::Describe for ParseError {
    open spec fn description(&self) -> Seq<char> {
        match self {
            ParseError::Unexpected(c) => "Unexpected "@ + quoted(*c),
            ParseError::AtomOutsideList(a) => "Atom '"@ + a@ + "' was found outside a list"@,
            ParseError::Missing(c) => "Missing "@ + quoted(*c),
            ParseError::TooMuch(c) => "Too much "@ + quoted(*c),
            ParseError::WrongClose(o, c) => quoted(*o) + " closed by "@ + quoted(*c),
        }
    }

    fn describe(&self) -> (r: String) {
        let mut r = String::new();
        match self {
            ParseError::Unexpected(c) => {
                push_str(&mut r, "Unexpected ");
                push_quoted(&mut r, *c);
            },
            ParseError::AtomOutsideList(a) => {
                push_str(&mut r, "Atom '");
                push_str(&mut r, a.as_str());
                push_str(&mut r, "' was found outside a list");
            },
            ParseError::Missing(c) => {
                push_str(&mut r, "Missing ");
                push_quoted(&mut r, *c);
            },
            ParseError::TooMuch(c) => {
                push_str(&mut r, "Too much ");
                push_quoted(&mut r, *c);
            },
            ParseError::WrongClose(o, c) => {
                push_quoted(&mut r, *o);
                push_str(&mut r, " closed by ");
                push_quoted(&mut r, *c);
            },
        }
        assert(r@ =~= self.description());
        r
    }
}

} // verus!
