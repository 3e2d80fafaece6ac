//! The instruction set as data: operands, instructions, programs.

use vstd::prelude::*;
use crate::error::{Failure, ParseError, yields};

pub mod regs;
pub mod ram_addr;
pub mod val;
pub mod mnemonic;
pub mod text_instr;
pub mod decode;

pub use regs::Reg;
pub use ram_addr::RAMAddr;
pub use val::{BoolVal, Val};
pub use mnemonic::Mnemonic;
pub use text_instr::TextInstr;

verus! {

/// An operand: something with a rule for reading it from a token and a
/// rule for its bits in a machine word.
pub trait ParseAble: Sized {
    /// What the token `text` stands for, or why it stands for nothing.
    spec fn parsed(text: Seq<char>) -> Result<Self, Failure>;

    /// The bits that stand for this operand.
    spec fn code(&self) -> u16;

    /// Reads an operand from the token `text`.
    fn from_str(text: &str) -> (outcome: Result<Self, ParseError>)
        ensures
            yields(outcome, Self::parsed(text@)),
    ;

    /// The operand as bits.
    fn to_code(&self) -> (code: u16)
        ensures
            code == self.code(),
    ;
}

/// A program: the instructions of a source text in the order of its
/// lines.
#[derive(Debug, Clone, PartialEq, Eq)]
pub struct Program {
    pub text: Vec<TextInstr>,
}

impl View for Program {
    type V = Seq<TextInstr>;

    open spec fn view(&self) -> Seq<TextInstr> {
        self.text@
    }
}

} // verus!
