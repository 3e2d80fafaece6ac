//! Addresses in RAM.

use vstd::prelude::*;
use crate::error::{Failure, ParseError, yields};
use crate::instr::ParseAble;
use crate::number::{numeral_within, parse_decimal};
use crate::text::chars_of;

verus! {

/// An address in RAM. Any number that the machine's word size can hold is
/// read; a load or store word has room for its low eight bits only, and
/// the rest is dropped when the word is made.
#[derive(Debug, Clone, Copy, PartialEq, Eq, Structural)]
pub struct RAMAddr(pub usize);

impl RAMAddr {
    /// What an address token stands for.
    pub open spec fn read(token: Seq<char>) -> Result<RAMAddr, Failure> {
        match numeral_within(token, usize::MAX as int) {
            Some(value) => Ok(RAMAddr(value as usize)),
            None => Err(Failure::InvalidNumber),
        }
    }

    /// Reads an address from a token.
    pub fn from_chars(token: &[char]) -> (outcome: Result<RAMAddr, ParseError>)
        ensures
            yields(outcome, RAMAddr::read(token@)),
    {
        match parse_decimal(token, usize::MAX) {
            Some(value) => Ok(RAMAddr(value)),
            None => Err(ParseError::InvalidNumber),
        }
    }
}

impl ParseAble for RAMAddr {
    open spec fn parsed(text: Seq<char>) -> Result<RAMAddr, Failure> {
        RAMAddr::read(text)
    }

    /// The low sixteen bits of the address.
    open spec fn code(&self) -> u16 {
        self.0 as u16
    }

    fn from_str(text: &str) -> (outcome: Result<RAMAddr, ParseError>) {
        let chars = chars_of(text);
        RAMAddr::from_chars(chars.as_slice())
    }

    fn to_code(&self) -> (code: u16) {
        #[verifier::truncate]
        (self.0 as u16)
    }
}

} // verus!
