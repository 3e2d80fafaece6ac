//! Values written out in the source: immediates and flags.

use vstd::prelude::*;
use crate::error::{Failure, ParseError, yields};
use crate::instr::ParseAble;
use crate::number::{numeral_within, parse_decimal};
use crate::text::chars_of;

verus! {

/// A sixteen-bit number written in the source.
#[derive(Debug, Clone, Copy, PartialEq, Eq, Structural)]
pub struct Val(pub u16);

impl Val {
    /// What a value token stands for.
    pub open spec fn read(token: Seq<char>) -> Result<Val, Failure> {
        match numeral_within(token, 0xFFFF) {
            Some(value) => Ok(Val(value as u16)),
            None => Err(Failure::InvalidNumber),
        }
    }

    /// Reads a value from a token.
    pub fn from_chars(token: &[char]) -> (outcome: Result<Val, ParseError>)
        ensures
            yields(outcome, Val::read(token@)),
    {
        match parse_decimal(token, 0xFFFF) {
            Some(value) => Ok(Val(value as u16)),
            None => Err(ParseError::InvalidNumber),
        }
    }
}

impl ParseAble for Val {
    open spec fn parsed(text: Seq<char>) -> Result<Val, Failure> {
        Val::read(text)
    }

    open spec fn code(&self) -> u16 {
        self.0
    }

    fn from_str(text: &str) -> (outcome: Result<Val, ParseError>) {
        let chars = chars_of(text);
        Val::from_chars(chars.as_slice())
    }

    fn to_code(&self) -> (code: u16) {
        self.0
    }
}

/// A yes or no, written as a number: zero is no, every other number up to
/// 255 is yes.
#[derive(Debug, Clone, Copy, PartialEq, Eq, Structural)]
pub struct BoolVal(pub bool);

impl BoolVal {
    /// What a flag token stands for.
    pub open spec fn read(token: Seq<char>) -> Result<BoolVal, Failure> {
        match numeral_within(token, 0xFF) {
            Some(value) => Ok(BoolVal(value > 0)),
            None => Err(Failure::InvalidNumber),
        }
    }

    /// Reads a flag from a token.
    pub fn from_chars(token: &[char]) -> (outcome: Result<BoolVal, ParseError>)
        ensures
            yields(outcome, BoolVal::read(token@)),
    {
        match parse_decimal(token, 0xFF) {
            Some(value) => Ok(BoolVal(value > 0)),
            None => Err(ParseError::InvalidNumber),
        }
    }
}

impl ParseAble for BoolVal {
    open spec fn parsed(text: Seq<char>) -> Result<BoolVal, Failure> {
        BoolVal::read(text)
    }

    /// One for yes, zero for no.
    open spec fn code(&self) -> u16 {
        if self.0 {
            1
        } else {
            0
        }
    }

    fn from_str(text: &str) -> (outcome: Result<BoolVal, ParseError>) {
        let chars = chars_of(text);
        BoolVal::from_chars(chars.as_slice())
    }

    fn to_code(&self) -> (code: u16) {
        if self.0 {
            1
        } else {
            0
        }
    }
}

} // verus!
