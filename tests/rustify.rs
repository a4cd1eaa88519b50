use srs::parser::{parse, Sexp};
use srs::rustify::ops::precedence;
use srs::rustify::{exp_to_token_stream, rustify, RustifyError};
use srs::tokens::{tokens_text, Delimiter, Token};
use srs::Error;

fn one(input: &str) -> Sexp {
    let mut res = parse(input);
    assert_eq!(res.len(), 1);
    res.remove(0).unwrap()
}

fn expression(input: &str) -> String {
    tokens_text(&exp_to_token_stream(&one(input), false, i8::MAX).unwrap())
}

fn statement(input: &str) -> String {
    tokens_text(&rustify(&one(input)).unwrap())
}

fn failure(input: &str) -> Error<RustifyError> {
    rustify(&one(input)).unwrap_err()
}

fn text(s: &str) -> Token {
    Token::Text(String::from(s))
}

#[test]
fn max_precedence() {
    assert_eq!(precedence("", false), i8::MAX)
}

#[test]
fn precedence_table() {
    assert_eq!(precedence(".", false), 1);
    assert_eq!(precedence("-", true), 11);
    assert_eq!(precedence("-", false), 17);
    assert_eq!(precedence("*", false), 15);
    assert_eq!(precedence("=", false), 35);
    assert_eq!(precedence("f", false), 127);
}

#[test]
fn looser_operands_are_parenthesized() {
    assert_eq!(expression("(* (+ 1 2) (* 3 4))"), "(1 + 2) * (3 * 4)");
}

#[test]
fn left_grouping_needs_no_parentheses() {
    assert_eq!(expression("(+ (+ 1 2) (* 3 4))"), "1 + 2 + 3 * 4");
}

#[test]
fn right_operand_of_equal_rank_is_parenthesized() {
    assert_eq!(expression("(/ (* 1 2) 3)"), "1 * 2 / 3");
    assert_eq!(expression("(* 1 (/ 2 3))"), "1 * (2 / 3)");
}

#[test]
fn chained_operands_fold_left() {
    assert_eq!(expression("(+ a b c)"), "a + b + c");
}

#[test]
fn assignment_and_casts() {
    assert_eq!(statement("(= a (.. 1 5))"), "a = 1 .. 5 ;");
    assert_eq!(
        expression("(as (* (as a u8) (as b u8)) f64)"),
        "(a as u8 * b as u8) as f64"
    );
}

#[test]
fn negation_wraps_its_operand() {
    let tokens = exp_to_token_stream(&one("(! x)"), false, i8::MAX).unwrap();
    assert_eq!(
        tokens,
        vec![text("!"), Token::Group(Delimiter::Parenthesis, vec![text("x")])]
    );
}

#[test]
fn negation_takes_one_operand() {
    let e = failure("(! x y)");
    assert_eq!(e.kind, RustifyError::TooMuchArguments(String::from("!")));
    assert_eq!(e.lineno, Some(1));
}

#[test]
fn operator_without_operand() {
    let e = failure("(+)");
    assert_eq!(e.kind, RustifyError::MissingOperand(String::from("+")));
}

#[test]
fn empty_enum_has_empty_body() {
    let tokens = rustify(&one("(enum E)")).unwrap();
    assert_eq!(
        tokens,
        vec![text("enum"), text("E"), Token::Group(Delimiter::Brace, vec![])]
    );
    assert_eq!(tokens_text(&tokens), "enum E {}");
}

#[test]
fn enum_variants() {
    assert_eq!(
        statement("(pub enum Test (= A 4) B (Something u32 u8))"),
        "pub enum Test {A = 4 , B , Something (u32 , u8)}"
    );
}

#[test]
fn unit_struct() {
    assert_eq!(statement("(struct Test)"), "struct Test ;");
    let e = failure("(struct)");
    assert_eq!(
        e.kind,
        RustifyError::MissingArguments(String::from("struct definition"))
    );
}

#[test]
fn rendering_twice_is_identical() {
    let e = one("(fn main () (match x ((Some y) (f y)) (_ (g) (h)))) ");
    let a = rustify(&e).unwrap();
    let b = rustify(&e).unwrap();
    assert_eq!(a, b);
    assert_eq!(tokens_text(&a), tokens_text(&b));
}

#[test]
fn function_with_calls() {
    assert_eq!(
        statement("(fn main () (println! \"Hello World!\"))"),
        "fn main () {println! (\"Hello World!\") ;}"
    );
    assert_eq!(
        statement("(fn add (a b) (+ a b))"),
        "fn add (a , b) {a + b ;}"
    );
}

#[test]
fn function_needs_a_name() {
    let e = failure("(fn)");
    assert_eq!(
        e.kind,
        RustifyError::MissingArguments(String::from("function definition"))
    );
    assert_eq!(e.lineno, Some(1));
}

#[test]
fn match_arms() {
    assert_eq!(
        statement("(match x ((Ok n) n) ((Err _) (continue)))"),
        "match x {Ok (n) => n , Err (_) => continue ,} ;"
    );
    assert_eq!(
        statement("(match x (A (f) (break)))"),
        "match x {A => {f () ; break ;}} ;"
    );
}

#[test]
fn match_errors() {
    assert_eq!(
        failure("(match)").kind,
        RustifyError::MissingArguments(String::from("match"))
    );
    assert_eq!(failure("(match x y)").kind, RustifyError::ExpectedMatchCondition);
    assert_eq!(failure("(match x ())").kind, RustifyError::ExpectedMatchCondition);
}

#[test]
fn loop_and_jumps() {
    assert_eq!(statement("(loop (f) (break))"), "loop {f () ; break ;}");
    assert_eq!(statement("(return (+ 1 2))"), "return 1 + 2 ;");
    let e = failure("(break a b)");
    assert_eq!(e.kind, RustifyError::TooMuchArguments(String::from("break")));
}

#[test]
fn use_paths() {
    assert_eq!(
        statement("(use (:: rand Rng) (:: std ((:: cmp Ordering) io)))"),
        "use rand :: Rng ; use std :: {cmp :: Ordering , io} ;"
    );
}

#[test]
fn arrays_and_generics() {
    assert_eq!(expression("(f [1 2] <T U>)"), "f ([1 , 2] , < T , U >)");
}

#[test]
fn array_cannot_be_called() {
    let e = failure("([a b] c)");
    assert_eq!(
        e.kind,
        RustifyError::UnexpectedFunctionName(String::from("[a , b]"))
    );
    assert_eq!(e.lineno, None);
}

#[test]
fn reserved_keyword_cannot_be_called() {
    let e = failure("(if a b)");
    assert_eq!(e.kind, RustifyError::UnexpectedFunctionName(String::from("if")));
}

#[test]
fn atom_that_does_not_lex() {
    let e = failure("(f ')");
    match e.kind {
        RustifyError::AtomParseError(atom, message) => {
            assert_eq!(atom, "'");
            assert!(!message.is_empty());
        }
        other => panic!("unexpected error {:?}", other),
    }
    assert_eq!(e.lineno, Some(1));
}

#[test]
fn atom_text_is_kept() {
    assert_eq!(statement("(f x_1 \"s t\")"), "f (x_1 , \"s t\") ;");
}

#[test]
fn rustify_error_message() {
    let e = failure("(! x y)");
    assert_eq!(e.message(), "Too much arguments for '!' on line 1.");
}
