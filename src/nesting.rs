//! Input whose delimiters nest well parses without error, one expression per top-level form.
use vstd::prelude::*;

use crate::parser::{
    attach,
    feed,
    feed_lines,
    finish,
    flush,
    group_of,
    initial_state,
    is_close,
    is_open,
    oks,
    out_items,
    pair_of,
    parse_spec,
    scan,
    ScanState,
    SexpV,
};

verus! {

/// The nesting of delimiters read so far: the stack of open delimiters, whether a string
/// literal is open and its next character escaped, and how many top-level forms completed.
pub struct Nest {
    pub stack: Seq<char>,
    pub string_mode: bool,
    pub escape_mode: bool,
    pub completed: nat,
}

/// Reads `line[i..]` from `nest`. Delimiters inside string literals and comments do not count.
/// None when a closer does not pair with the innermost open delimiter, when a token (or a
/// string literal) starts outside every group, or on a backslash outside a string literal.
pub open spec fn nest_from(nest: Nest, line: Seq<char>, i: int) -> Option<Nest>
    decreases line.len() - i,
{
    if i < 0 || i >= line.len() {
        Some(nest)
    } else {
        let c = line[i];
        if c == '\\' {
            if nest.string_mode {
                nest_from(Nest { escape_mode: true, ..nest }, line, i + 1)
            } else {
                None
            }
        } else if c == '"' && !nest.escape_mode {
            if nest.stack.len() == 0 {
                None
            } else {
                nest_from(Nest { string_mode: !nest.string_mode, ..nest }, line, i + 1)
            }
        } else if nest.string_mode {
            nest_from(Nest { escape_mode: false, ..nest }, line, i + 1)
        } else if is_open(c) {
            nest_from(Nest { stack: nest.stack.push(c), ..nest }, line, i + 1)
        } else if is_close(c) {
            if nest.stack.len() > 0 && pair_of(nest.stack.last()) == c {
                nest_from(
                    Nest {
                        stack: nest.stack.drop_last(),
                        completed: nest.completed + if nest.stack.len() == 1 {
                            1nat
                        } else {
                            0nat
                        },
                        ..nest
                    },
                    line,
                    i + 1,
                )
            } else {
                None
            }
        } else if c == ';' {
            Some(nest)
        } else if c != ' ' && nest.stack.len() == 0 {
            None
        } else {
            nest_from(nest, line, i + 1)
        }
    }
}

/// The nesting after all `lines`.
pub open spec fn nest_lines(lines: Seq<Seq<char>>) -> Option<Nest>
    decreases lines.len(),
{
    if lines.len() == 0 {
        Some(Nest { stack: seq![], string_mode: false, escape_mode: false, completed: 0 })
    } else {
        match nest_lines(lines.drop_last()) {
            Some(nest) => nest_from(nest, lines.last(), 0),
            None => None,
        }
    }
}

/// The opening delimiters of the open groups.
pub open spec fn delims(scopes: Seq<(Seq<SexpV>, char)>) -> Seq<char> {
    scopes.map_values(|p: (Seq<SexpV>, char)| p.1)
}

/// The scanner's state agrees with `nest`.
pub open spec fn tracks(st: ScanState, nest: Nest) -> bool {
    &&& st.string_mode == nest.string_mode
    &&& st.escape_mode == nest.escape_mode
    &&& delims(st.scopes) == nest.stack
    &&& nest.string_mode ==> nest.stack.len() > 0
}

proof fn lemma_attach_keeps_delims(st: ScanState, e: SexpV)
    ensures
        delims(attach(st, e).scopes) == delims(st.scopes),
        attach(st, e).string_mode == st.string_mode,
        attach(st, e).escape_mode == st.escape_mode,
        st.scopes.len() > 0 ==> attach(st, e).expressions == st.expressions,
        st.scopes.len() == 0 ==> attach(st, e).expressions == st.expressions.push(e),
{
    if st.scopes.len() > 0 {
        let top = st.scopes.last();
        assert(delims(st.scopes.drop_last().push((top.0.push(e), top.1))) =~= delims(st.scopes));
    }
}

proof fn lemma_scan_nested(st: ScanState, nest: Nest, tok: Seq<char>, line: Seq<char>, i: int, n: nat)
    requires
        0 <= i,
        tracks(st, nest),
        tok.len() > 0 ==> nest.stack.len() > 0,
        nest_from(nest, line, i) is Some,
    ensures
        scan(st, tok, line, i, n).1 is None,
        tracks(scan(st, tok, line, i, n).0, nest_from(nest, line, i)->Some_0),
        scan(st, tok, line, i, n).0.expressions.len() + nest.completed == st.expressions.len()
            + nest_from(nest, line, i)->Some_0.completed,
    decreases line.len() - i,
{
    let fl = flush(st, tok, n);
    if tok.len() > 0 {
        lemma_attach_keeps_delims(st, SexpV::Atom(tok, n));
    }
    assert(fl is Ok);
    let s = fl->Ok_0;
    assert(tracks(s, nest) && s.expressions == st.expressions);
    if i >= line.len() {
    } else {
        let c = line[i];
        if c == '\\' {
            lemma_scan_nested(
                ScanState { escape_mode: true, ..st },
                Nest { escape_mode: true, ..nest },
                tok.push('\\'),
                line,
                i + 1,
                n,
            );
        } else if c == '"' && !st.escape_mode {
            lemma_scan_nested(
                ScanState { string_mode: !st.string_mode, ..st },
                Nest { string_mode: !nest.string_mode, ..nest },
                tok.push(c),
                line,
                i + 1,
                n,
            );
        } else if st.string_mode {
            lemma_scan_nested(
                ScanState { escape_mode: false, ..st },
                Nest { escape_mode: false, ..nest },
                tok.push(c),
                line,
                i + 1,
                n,
            );
        } else if is_open(c) {
            let s1 = ScanState { scopes: s.scopes.push((seq![], c)), ..s };
            assert(delims(s1.scopes) =~= nest.stack.push(c));
            lemma_scan_nested(s1, Nest { stack: nest.stack.push(c), ..nest }, seq![], line, i + 1, n);
        } else if is_close(c) {
            let top = s.scopes.last();
            assert(top.1 == delims(s.scopes)[s.scopes.len() - 1]);
            let s2 = ScanState { scopes: s.scopes.drop_last(), ..s };
            assert(delims(s2.scopes) =~= nest.stack.drop_last());
            let s3 = attach(s2, group_of(c, top.0));
            lemma_attach_keeps_delims(s2, group_of(c, top.0));
            lemma_scan_nested(
                s3,
                Nest {
                    stack: nest.stack.drop_last(),
                    completed: nest.completed + if nest.stack.len() == 1 {
                        1nat
                    } else {
                        0nat
                    },
                    ..nest
                },
                seq![],
                line,
                i + 1,
                n,
            );
        } else if c == ';' {
        } else if c == ' ' {
            lemma_scan_nested(s, nest, seq![], line, i + 1, n);
        } else {
            lemma_scan_nested(st, nest, tok.push(c), line, i + 1, n);
        }
    }
}

proof fn lemma_lines_nested(lines: Seq<Seq<char>>)
    requires
        nest_lines(lines) is Some,
    ensures
        ({
            let (st, items) = feed_lines(initial_state(), lines, 1);
            &&& tracks(st, nest_lines(lines)->Some_0)
            &&& forall|k: int| 0 <= k < items.len() ==> (#[trigger] items[k]) is Ok
            &&& items.len() + st.expressions.len() == nest_lines(lines)->Some_0.completed
            &&& st.scopes.len() == 0 ==> st.expressions.len() == 0
        }),
    decreases lines.len(),
{
    if lines.len() == 0 {
        assert(delims(initial_state().scopes) =~= seq![]);
    } else {
        let prev = lines.drop_last();
        lemma_lines_nested(prev);
        let (st, items) = feed_lines(initial_state(), prev, 1);
        let nest = nest_lines(prev)->Some_0;
        let line = lines.last();
        let k = (1 + lines.len() - 1) as nat;
        lemma_scan_nested(st, nest, seq![], line, 0, k);
        let (s, f) = scan(st, seq![], line, 0, k);
        let (s2, out) = feed(st, line, k);
        let all = items + out_items(out, k);
        if s.scopes.len() == 0 {
            assert(delims(s.scopes).len() == 0);
            assert forall|m: int| 0 <= m < all.len() implies (#[trigger] all[m]) is Ok by {
                if m >= items.len() {
                    assert(all[m] == oks(s.expressions)[m - items.len()]);
                }
            }
        } else {
            assert(all =~= items);
        }
    }
}

/// Input whose delimiters pair and nest, outside string literals and comments, ending with no
/// group open and with no token outside every group, parses without error: it yields as many
/// expressions as it completes top-level forms, and nothing else.
pub proof fn balanced_input_parses(lines: Seq<Seq<char>>)
    requires
        nest_lines(lines) is Some,
        nest_lines(lines)->Some_0.stack.len() == 0,
    ensures
        parse_spec(lines).len() == nest_lines(lines)->Some_0.completed,
        forall|k: int| 0 <= k < parse_spec(lines).len() ==> (#[trigger] parse_spec(lines)[k]) is Ok,
{
    lemma_lines_nested(lines);
    let (st, items) = feed_lines(initial_state(), lines, 1);
    assert(delims(st.scopes).len() == 0);
    assert(finish(st).1 is None);
}

} // verus!
