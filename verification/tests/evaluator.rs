use calc::interp::{evaluate, EvalError, LexError};
use calc::token::TokenKind;

#[test]
fn adds_all_single_digit_pairs() {
    for a in 0u32..10u32 {
        for b in 0u32..10u32 {
            let line: String = format!("{}+{}", a, b);
            assert_eq!(evaluate(&line), Ok((a + b) as i64));
        }
    }
}

#[test]
fn adds_smallest_and_largest_digits() {
    assert_eq!(evaluate("0+0"), Ok(0));
    assert_eq!(evaluate("9+9"), Ok(18));
}

#[test]
fn empty_input_is_rejected() {
    assert_eq!(evaluate(""), Err(EvalError::EmptyInput));
}

#[test]
fn letter_at_start_fails_lexing() {
    assert_eq!(evaluate("a+1"), Err(EvalError::Lex(LexError { ch: 'a' })));
}

#[test]
fn plus_at_start_is_unexpected_token() {
    assert_eq!(
        evaluate("+1+1"),
        Err(EvalError::UnexpectedToken { expected: TokenKind::Integer, got: TokenKind::Plus })
    );
}

#[test]
fn minus_operator_fails_lexing() {
    assert_eq!(evaluate("1-1"), Err(EvalError::Lex(LexError { ch: '-' })));
}

#[test]
fn missing_right_operand_is_unexpected_end() {
    assert_eq!(
        evaluate("1+"),
        Err(EvalError::UnexpectedToken {
            expected: TokenKind::Integer,
            got: TokenKind::EndOfInput
        })
    );
}

#[test]
fn second_digit_instead_of_plus_is_unexpected_token() {
    assert_eq!(
        evaluate("12+3"),
        Err(EvalError::UnexpectedToken { expected: TokenKind::Plus, got: TokenKind::Integer })
    );
}

#[test]
fn evaluating_twice_gives_the_same_result() {
    let line: String = String::from("3+4");
    let first = evaluate(&line);
    let second = evaluate(&line);
    assert_eq!(first, second);
    assert_eq!(first, Ok(7));

    let bad: String = String::from("3-4");
    assert_eq!(evaluate(&bad), evaluate(&bad));
}

#[test]
fn trailing_content_is_ignored() {
    assert_eq!(evaluate("1+2extra"), Ok(3));
    assert_eq!(evaluate("1+23"), Ok(3));
    assert_eq!(evaluate("9+8+7"), Ok(17));
}

#[test]
fn non_ascii_digit_is_a_number_format_error() {
    // an Arabic-Indic digit lexes as an Integer token but does not denote an
    // ASCII decimal digit
    let line: String = format!("{}+1", '\u{0665}');
    assert_eq!(evaluate(&line), Err(EvalError::NumberFormat));
}
