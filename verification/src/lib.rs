//! A verified evaluator for two-operand additions.
//!
//! The library lexes a line of the form `<digit> + <digit>` (each operand a
//! single decimal digit, no spaces) into tokens, checks the fixed grammar
//! `INTEGER PLUS INTEGER`, and returns the sum, or an error that says exactly
//! where the line departs from the grammar.

pub mod interp;
pub mod laws;
pub mod token;
