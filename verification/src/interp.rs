//! The interpreter: a lexer over an immutable line with a cursor, and the
//! parser/evaluator for the fixed grammar `INTEGER PLUS INTEGER`.

use vstd::prelude::*;
use vstd::string::StrSliceExecFns;
use vstd::string::StringExecFns;
use crate::token::{Token, TokenKind};

verus! {

/// A character that no token starts with: neither a decimal digit nor `+`.
#[derive(Clone, Copy, Debug, PartialEq, Eq, Structural)]
pub struct LexError {
    /// The offending character.
    pub ch: char,
}

/// Everything that can go wrong while evaluating one line.
#[derive(Clone, Copy, Debug, PartialEq, Eq, Structural)]
pub enum EvalError {
    /// The lexer met a character that no token starts with.
    Lex(LexError),
    /// The line has no characters where at least one token was expected.
    EmptyInput,
    /// The lookahead token does not fit the grammar at this point.
    UnexpectedToken { expected: TokenKind, got: TokenKind },
    /// Token text that claimed to be numeric does not denote a single
    /// decimal digit.
    NumberFormat,
}

/// An ASCII decimal digit, `'0'` through `'9'`.
pub open spec fn is_ascii_digit(c: char) -> bool {
    ('0' as u32) <= (c as u32) && (c as u32) <= ('9' as u32)
}

/// The numeric value of an ASCII decimal digit.
pub open spec fn digit_val(c: char) -> int {
    (c as u32) - ('0' as u32)
}

/// An ASCII character.
pub open spec fn is_ascii_char(c: char) -> bool {
    (c as u32) < 128
}

/// What `char::is_numeric` returns: whether the character lies in one of
/// Unicode's number categories. The set is a function of the character alone;
/// the library relies only on the facts stated where the lexer calls
/// `char::is_numeric`.
pub uninterp spec fn is_unicode_numeric(c: char) -> bool;

/// Relies on `char::is_numeric` of std: true exactly for the characters in
/// Unicode's number categories, which among ASCII characters are `'0'`
/// through `'9'`.
pub assume_specification[ char::is_numeric ](c: char) -> (r: bool)
    ensures
        r == is_unicode_numeric(c),
        is_ascii_char(c) ==> r == is_ascii_digit(c),
;

/// Relies on `char::to_string` of std: the string holding exactly the one
/// character.
#[verifier::external_body]
fn char_to_text(c: char) -> (r: String)
    ensures
        r@ == seq![c],
{
    c.to_string()
}

/// Whether the lexer produces a token at `pos` in `s`: the cursor is at or
/// past the end, or looks at a digit, a `+`, or another numeric character.
pub open spec fn spec_lex_ok(s: Seq<char>, pos: int) -> bool {
    ||| pos >= s.len()
    ||| is_ascii_digit(s[pos])
    ||| s[pos] == '+'
    ||| is_unicode_numeric(s[pos])
}

/// The kind of the token lexed at `pos` in `s`, meaningful when
/// `spec_lex_ok(s, pos)` holds.
pub open spec fn spec_kind_at(s: Seq<char>, pos: int) -> TokenKind {
    if pos >= s.len() {
        TokenKind::EndOfInput
    } else if s[pos] == '+' {
        TokenKind::Plus
    } else {
        TokenKind::Integer
    }
}

/// The text of the token lexed at `pos` in `s`: the one character consumed,
/// or nothing at the end of the input.
pub open spec fn spec_text_at(s: Seq<char>, pos: int) -> Seq<char> {
    if pos >= s.len() {
        Seq::<char>::empty()
    } else {
        seq![s[pos]]
    }
}

/// What evaluating a line returns, stated over the line's characters: the
/// fixed grammar `INTEGER PLUS INTEGER` checked left to right, each token one
/// character, and whatever follows the third token ignored.
pub open spec fn spec_evaluate(s: Seq<char>) -> Result<i64, EvalError> {
    if s.len() == 0 {
        Err(EvalError::EmptyInput)
    } else if !spec_lex_ok(s, 0) {
        Err(EvalError::Lex(LexError { ch: s[0] }))
    } else if spec_kind_at(s, 0) != TokenKind::Integer {
        Err(EvalError::UnexpectedToken { expected: TokenKind::Integer, got: spec_kind_at(s, 0) })
    } else if !is_ascii_digit(s[0]) {
        Err(EvalError::NumberFormat)
    } else if !spec_lex_ok(s, 1) {
        Err(EvalError::Lex(LexError { ch: s[1] }))
    } else if spec_kind_at(s, 1) != TokenKind::Plus {
        Err(EvalError::UnexpectedToken { expected: TokenKind::Plus, got: spec_kind_at(s, 1) })
    } else if !spec_lex_ok(s, 2) {
        Err(EvalError::Lex(LexError { ch: s[2] }))
    } else if spec_kind_at(s, 2) != TokenKind::Integer {
        Err(EvalError::UnexpectedToken { expected: TokenKind::Integer, got: spec_kind_at(s, 2) })
    } else if !is_ascii_digit(s[2]) {
        Err(EvalError::NumberFormat)
    } else {
        Ok((digit_val(s[0]) + digit_val(s[2])) as i64)
    }
}

/// The value of the single decimal digit that `t`'s text holds, or
/// `NumberFormat` when the text is not exactly one ASCII decimal digit.
fn digit_token_value(t: &Token) -> (r: Result<i64, EvalError>)
    ensures
        t.text@.len() == 1 && is_ascii_digit(t.text@[0]) ==> r == Ok::<i64, EvalError>(
            digit_val(t.text@[0]) as i64,
        ),
        !(t.text@.len() == 1 && is_ascii_digit(t.text@[0])) ==> r == Err::<i64, EvalError>(
            EvalError::NumberFormat,
        ),
{
    if t.text.as_str().unicode_len() != 1 {
        return Err(EvalError::NumberFormat);
    }
    let c = t.text.as_str().get_char(0);
    let n: u32 = c as u32;
    if ('0' as u32) <= n && n <= ('9' as u32) {
        Ok((n - ('0' as u32)) as i64)
    } else {
        Err(EvalError::NumberFormat)
    }
}

/// The lexer and parser state for one line: the line itself (immutable for
/// the interpreter's lifetime), a cursor, and the lookahead token.
pub struct Interpreter {
    /// The line under evaluation.
    pub text: String,
    /// The cursor: how many characters of `text` have been consumed.
    pub pos: usize,
    /// The lookahead token.
    pub current_token: Token,
}

impl Interpreter {
    /// A fresh interpreter over `text`: cursor at the start, lookahead not
    /// yet fetched.
    pub fn new(text: String) -> (r: Interpreter)
        ensures
            r.text == text,
            r.pos == 0,
            r.current_token.kind == TokenKind::EndOfInput,
            r.current_token.text@ == Seq::<char>::empty(),
    {
        Interpreter { text, pos: 0, current_token: Token::default() }
    }

    /// Produce the token at the cursor and advance past it; at or past the
    /// end of the input, keep returning `EndOfInput` without moving. On a
    /// character that no token starts with, fail and leave the cursor where
    /// it was.
    pub fn get_next_token(&mut self) -> (r: Result<Token, LexError>)
        ensures
            final(self).text == old(self).text,
            final(self).current_token == old(self).current_token,
            spec_lex_ok(old(self).text@, old(self).pos as int) ==> {
                &&& r is Ok
                &&& r->Ok_0.kind == spec_kind_at(old(self).text@, old(self).pos as int)
                &&& r->Ok_0.text@ == spec_text_at(old(self).text@, old(self).pos as int)
                &&& if old(self).pos >= old(self).text@.len() {
                    final(self).pos == old(self).pos
                } else {
                    final(self).pos == old(self).pos + 1
                }
            },
            !spec_lex_ok(old(self).text@, old(self).pos as int) ==> {
                &&& r is Err
                &&& r->Err_0 == (LexError { ch: old(self).text@[old(self).pos as int] })
                &&& final(self).pos == old(self).pos
            },
    {
        if self.pos >= self.text.as_str().unicode_len() {
            return Ok(Token::new(TokenKind::EndOfInput, String::new()));
        }
        let c = self.text.as_str().get_char(self.pos);
        if c.is_numeric() {
            self.pos = self.pos + 1;
            return Ok(Token::new(TokenKind::Integer, char_to_text(c)));
        }
        if c == '+' {
            self.pos = self.pos + 1;
            return Ok(Token::new(TokenKind::Plus, char_to_text(c)));
        }
        Err(LexError { ch: c })
    }

    /// Check that the lookahead has the expected kind, then replace it with
    /// the next token from the lexer. A kind mismatch or a lexing failure
    /// leaves the state unchanged.
    pub fn eat(&mut self, kind: TokenKind) -> (r: Result<(), EvalError>)
        ensures
            final(self).text == old(self).text,
            old(self).current_token.kind != kind ==> {
                &&& r == Err::<(), EvalError>(
                    EvalError::UnexpectedToken { expected: kind, got: old(self).current_token.kind },
                )
                &&& final(self).pos == old(self).pos
                &&& final(self).current_token == old(self).current_token
            },
            old(self).current_token.kind == kind && !spec_lex_ok(
                old(self).text@,
                old(self).pos as int,
            ) ==> {
                &&& r == Err::<(), EvalError>(
                    EvalError::Lex(LexError { ch: old(self).text@[old(self).pos as int] }),
                )
                &&& final(self).pos == old(self).pos
                &&& final(self).current_token == old(self).current_token
            },
            old(self).current_token.kind == kind && spec_lex_ok(
                old(self).text@,
                old(self).pos as int,
            ) ==> {
                &&& r is Ok
                &&& final(self).current_token.kind == spec_kind_at(
                    old(self).text@,
                    old(self).pos as int,
                )
                &&& final(self).current_token.text@ == spec_text_at(
                    old(self).text@,
                    old(self).pos as int,
                )
                &&& if old(self).pos >= old(self).text@.len() {
                    final(self).pos == old(self).pos
                } else {
                    final(self).pos == old(self).pos + 1
                }
            },
    {
        if self.current_token.kind == kind {
            match self.get_next_token() {
                Ok(token) => {
                    self.current_token = token;
                    Ok(())
                },
                Err(err) => Err(EvalError::Lex(err)),
            }
        } else {
            Err(EvalError::UnexpectedToken { expected: kind, got: self.current_token.kind })
        }
    }

    /// Evaluate the line as `INTEGER PLUS INTEGER`: fetch the first token as
    /// lookahead, check each token's kind in turn, and return the sum of the
    /// two digits. Whatever follows the third token never affects the result.
    pub fn expr(&mut self) -> (r: Result<i64, EvalError>)
        requires
            old(self).pos == 0,
        ensures
            final(self).text == old(self).text,
            r == spec_evaluate(old(self).text@),
    {
        if self.text.as_str().unicode_len() == 0 {
            return Err(EvalError::EmptyInput);
        }
        let first = match self.get_next_token() {
            Ok(token) => token,
            Err(err) => {
                return Err(EvalError::Lex(err));
            },
        };
        self.current_token = first;

        if self.current_token.kind != TokenKind::Integer {
            return Err(
                EvalError::UnexpectedToken {
                    expected: TokenKind::Integer,
                    got: self.current_token.kind,
                },
            );
        }
        let left = match digit_token_value(&self.current_token) {
            Ok(value) => value,
            Err(err) => {
                return Err(err);
            },
        };
        self.eat(TokenKind::Integer)?;

        self.eat(TokenKind::Plus)?;

        if self.current_token.kind != TokenKind::Integer {
            return Err(
                EvalError::UnexpectedToken {
                    expected: TokenKind::Integer,
                    got: self.current_token.kind,
                },
            );
        }
        let right = match digit_token_value(&self.current_token) {
            Ok(value) => value,
            Err(err) => {
                return Err(err);
            },
        };
        // The grammar ends after three tokens: the lookahead is refreshed one
        // last time, but its outcome is deliberately ignored, so trailing
        // content never affects the result.
        let _ = self.eat(TokenKind::Integer);

        Ok(left + right)
    }
}

/// Evaluate one line of the form `<digit>+<digit>`: the sum of the two digits
/// on success, and otherwise the error that says where the line departs from
/// the grammar. The result is a function of the line's characters alone.
pub fn evaluate(line: &str) -> (r: Result<i64, EvalError>)
    ensures
        r == spec_evaluate(line@),
{
    let mut interpreter = Interpreter::new(String::from_str(line));
    interpreter.expr()
}

} // verus!
