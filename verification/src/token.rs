//! The token model: the closed set of token kinds and the tokens the lexer
//! produces.

use vstd::prelude::*;

verus! {

/// The kind of a lexical token: a single decimal digit, the `+` operator, or
/// the end of the input.
#[derive(Clone, Copy, Debug, PartialEq, Eq, Structural)]
pub enum TokenKind {
    Integer,
    Plus,
    EndOfInput,
}

/// A lexical token: its kind together with the literal text that was consumed
/// to produce it (empty for `EndOfInput`).
#[derive(Clone, Debug)]
pub struct Token {
    pub kind: TokenKind,
    pub text: String,
}

impl Token {
    pub fn new(kind: TokenKind, text: String) -> (r: Token)
        ensures
            r.kind == kind,
            r.text == text,
    {
        Token { kind, text }
    }
}

impl Default for Token {
    /// The token a fresh parser holds before it has fetched any lookahead.
    fn default() -> (r: Token)
        ensures
            r.kind == TokenKind::EndOfInput,
            r.text@ == Seq::<char>::empty(),
    {
        Token { kind: TokenKind::EndOfInput, text: String::new() }
    }
}

} // verus!
