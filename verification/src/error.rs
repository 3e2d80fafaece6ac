//! Why a source text was turned down.

use vstd::prelude::*;

verus! {

/// The reasons for which assembly stops. The first failure met in the
/// source ends the whole run; nothing is produced beside it.
#[derive(Debug, Clone, PartialEq, Eq)]
pub enum ParseError {
    /// The first token of a line is no known mnemonic; it is carried as it
    /// was written.
    UnknownInstruction(String),
    /// A line ends before all operands of its mnemonic were given.
    MissingOperand,
    /// A token that should name a register names none.
    InvalidRegister,
    /// A token that should be a number is no decimal numeral, or one too
    /// large for its place.
    InvalidNumber,
}

/// A `ParseError` as contracts speak of it: the offending mnemonic is a
/// sequence of characters.
pub ghost enum Failure {
    UnknownInstruction(Seq<char>),
    MissingOperand,
    InvalidRegister,
    InvalidNumber,
}

impl View for ParseError {
    type V = Failure;

    open spec fn view(&self) -> Failure {
        match self {
            ParseError::UnknownInstruction(command) => Failure::UnknownInstruction(command@),
            ParseError::MissingOperand => Failure::MissingOperand,
            ParseError::InvalidRegister => Failure::InvalidRegister,
            ParseError::InvalidNumber => Failure::InvalidNumber,
        }
    }
}

/// An outcome `got` is the outcome `owed`: the same value, or the same
/// failure.
pub open spec fn yields<T>(got: Result<T, ParseError>, owed: Result<T, Failure>) -> bool {
    match got {
        Ok(value) => owed == Ok::<T, Failure>(value),
        Err(error) => owed == Err::<T, Failure>(error@),
    }
}

} // verus!
