use srs::parser::{parse, parse_lines, ParseError, Parser, Sexp};
use srs::Error;

fn atom(val: &str, lineno: usize) -> Sexp {
    Sexp::Atom { val: String::from(val), lineno }
}

#[test]
fn errors() {
    let mut res = parse("a\n\\\n(]\n<>>").into_iter();
    assert_eq!(
        res.next().unwrap().err().unwrap(),
        Error {
            lineno: Some(1),
            kind: ParseError::AtomOutsideList(String::from("a"))
        }
    );
    assert_eq!(
        res.next().unwrap().err().unwrap(),
        Error {
            lineno: Some(2),
            kind: ParseError::Unexpected('\\')
        }
    );
    assert_eq!(
        res.next().unwrap().err().unwrap(),
        Error {
            lineno: Some(3),
            kind: ParseError::WrongClose('(', ']')
        }
    );
    assert_eq!(
        res.next().unwrap().err().unwrap(),
        Error {
            lineno: Some(4),
            kind: ParseError::TooMuch('>')
        }
    );
}

#[test]
fn missing_closing() {
    let mut res = parse("(").into_iter();
    assert_eq!(
        res.next().unwrap().err().unwrap(),
        Error {
            lineno: None,
            kind: ParseError::Missing(')')
        }
    );
}

#[test]
fn lone_open_paren_is_missing_its_closer_and_ends_the_stream() {
    let res = parse("(");
    assert_eq!(res.len(), 1);
    assert_eq!(
        res[0],
        Err(Error {
            lineno: None,
            kind: ParseError::Missing(')')
        })
    );
}

#[test]
fn atom_at_top_level_is_outside_a_list() {
    let res = parse("a");
    assert_eq!(
        res,
        vec![Err(Error {
            lineno: Some(1),
            kind: ParseError::AtomOutsideList(String::from("a"))
        })]
    );
}

#[test]
fn extra_closer_after_clean_generics() {
    let res = parse("<>>");
    assert_eq!(
        res,
        vec![Err(Error {
            lineno: Some(1),
            kind: ParseError::TooMuch('>')
        })]
    );
}

#[test]
fn mismatched_closer() {
    let res = parse("(]");
    assert_eq!(
        res,
        vec![Err(Error {
            lineno: Some(1),
            kind: ParseError::WrongClose('(', ']')
        })]
    );
}

#[test]
fn balanced_input_yields_one_expression_per_form_in_order() {
    let res = parse("(f x) [1 2]\n(g\n <T>)\n");
    assert_eq!(
        res,
        vec![
            Ok(Sexp::List(vec![atom("f", 1), atom("x", 1)])),
            Ok(Sexp::Array(vec![atom("1", 1), atom("2", 1)])),
            Ok(Sexp::List(vec![atom("g", 2), Sexp::Generics(vec![atom("T", 3)])])),
        ]
    );
}

#[test]
fn comments_and_strings() {
    let res = parse("(print \"a (b) ; \\\"c\\\"\") ; trailing ) comment");
    assert_eq!(
        res,
        vec![Ok(Sexp::List(vec![
            atom("print", 1),
            atom("\"a (b) ; \\\"c\\\"\"", 1)
        ]))]
    );
}

#[test]
fn expressions_wait_for_depth_zero_at_line_end() {
    let lines = vec![String::from("(a) (b"), String::from("c)")];
    let res = parse_lines(&lines);
    assert_eq!(
        res,
        vec![
            Ok(Sexp::List(vec![atom("a", 1)])),
            Ok(Sexp::List(vec![atom("b", 1), atom("c", 2)])),
        ]
    );
}

#[test]
fn parser_releases_per_line_and_reports_missing_closer_once() {
    let mut p = Parser::new();
    assert_eq!(p.feed_line("(a)"), vec![Ok(Sexp::List(vec![atom("a", 1)]))]);
    assert_eq!(p.feed_line("[b"), vec![]);
    assert_eq!(
        p.finish(),
        Some(Error {
            lineno: None,
            kind: ParseError::Missing(']')
        })
    );
    assert_eq!(p.finish(), None);
}

#[test]
fn error_messages() {
    let e = Error {
        lineno: Some(12),
        kind: ParseError::WrongClose('(', ']'),
    };
    assert_eq!(e.message(), "'(' closed by ']' on line 12.");
    let e = Error {
        lineno: None,
        kind: ParseError::Missing(')'),
    };
    assert_eq!(e.message(), "Missing ')'.");
    let e = Error {
        lineno: Some(1),
        kind: ParseError::AtomOutsideList(String::from("a")),
    };
    assert_eq!(e.message(), "Atom 'a' was found outside a list on line 1.");
}
