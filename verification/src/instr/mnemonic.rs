//! The names of the instructions.
//!
//! A mnemonic is read without regard to the case of its ASCII letters.
//! Four instructions answer to a second, longer name as well.

use vstd::prelude::*;
use crate::text::{folded, same_text_folded};

verus! {

/// An instruction by name, without its operands.
#[derive(Debug, Clone, Copy, PartialEq, Eq, Structural)]
pub enum Mnemonic {
    SHL,
    SHR,
    AND,
    NOT,
    XOR,
    OR,
    ADD,
    SUB,
    INC,
    DEC,
    /// Also written `STORE`.
    STR,
    /// Also written `LOAD`.
    LDR,
    LDI,
    /// Also written `MOVE`.
    MOV,
    JMP,
    JG,
    JL,
    JE,
    CMP,
    /// Also written `BREAK`.
    HALT,
}

impl Mnemonic {
    /// The instruction that `command` names, if it names one.
    pub open spec fn named(command: Seq<char>) -> Option<Mnemonic> {
        let word = folded(command);
        if word == "SHL"@ {
            Some(Mnemonic::SHL)
        } else if word == "SHR"@ {
            Some(Mnemonic::SHR)
        } else if word == "AND"@ {
            Some(Mnemonic::AND)
        } else if word == "NOT"@ {
            Some(Mnemonic::NOT)
        } else if word == "XOR"@ {
            Some(Mnemonic::XOR)
        } else if word == "OR"@ {
            Some(Mnemonic::OR)
        } else if word == "ADD"@ {
            Some(Mnemonic::ADD)
        } else if word == "SUB"@ {
            Some(Mnemonic::SUB)
        } else if word == "INC"@ {
            Some(Mnemonic::INC)
        } else if word == "DEC"@ {
            Some(Mnemonic::DEC)
        } else if word == "STR"@ || word == "STORE"@ {
            Some(Mnemonic::STR)
        } else if word == "LDR"@ || word == "LOAD"@ {
            Some(Mnemonic::LDR)
        } else if word == "LDI"@ {
            Some(Mnemonic::LDI)
        } else if word == "MOV"@ || word == "MOVE"@ {
            Some(Mnemonic::MOV)
        } else if word == "JMP"@ {
            Some(Mnemonic::JMP)
        } else if word == "JG"@ {
            Some(Mnemonic::JG)
        } else if word == "JL"@ {
            Some(Mnemonic::JL)
        } else if word == "JE"@ {
            Some(Mnemonic::JE)
        } else if word == "CMP"@ {
            Some(Mnemonic::CMP)
        } else if word == "HALT"@ || word == "BREAK"@ {
            Some(Mnemonic::HALT)
        } else {
            None
        }
    }

    /// How many operands the instruction takes.
    pub open spec fn arity(self) -> nat {
        match self {
            Mnemonic::SHL
            | Mnemonic::SHR
            | Mnemonic::AND
            | Mnemonic::XOR
            | Mnemonic::OR
            | Mnemonic::ADD
            | Mnemonic::SUB => 3,
            Mnemonic::NOT
            | Mnemonic::INC
            | Mnemonic::DEC
            | Mnemonic::STR
            | Mnemonic::LDR
            | Mnemonic::LDI
            | Mnemonic::MOV
            | Mnemonic::JMP
            | Mnemonic::CMP => 2,
            Mnemonic::JG | Mnemonic::JL | Mnemonic::JE => 4,
            Mnemonic::HALT => 0,
        }
    }

    /// Finds the instruction that `token` names.
    pub fn recognize(token: &[char]) -> (found: Option<Mnemonic>)
        ensures
            found == Mnemonic::named(token@),
    {
        if same_text_folded(token, "SHL") {
            Some(Mnemonic::SHL)
        } else if same_text_folded(token, "SHR") {
            Some(Mnemonic::SHR)
        } else if same_text_folded(token, "AND") {
            Some(Mnemonic::AND)
        } else if same_text_folded(token, "NOT") {
            Some(Mnemonic::NOT)
        } else if same_text_folded(token, "XOR") {
            Some(Mnemonic::XOR)
        } else if same_text_folded(token, "OR") {
            Some(Mnemonic::OR)
        } else if same_text_folded(token, "ADD") {
            Some(Mnemonic::ADD)
        } else if same_text_folded(token, "SUB") {
            Some(Mnemonic::SUB)
        } else if same_text_folded(token, "INC") {
            Some(Mnemonic::INC)
        } else if same_text_folded(token, "DEC") {
            Some(Mnemonic::DEC)
        } else if same_text_folded(token, "STR") || same_text_folded(token, "STORE") {
            Some(Mnemonic::STR)
        } else if same_text_folded(token, "LDR") || same_text_folded(token, "LOAD") {
            Some(Mnemonic::LDR)
        } else if same_text_folded(token, "LDI") {
            Some(Mnemonic::LDI)
        } else if same_text_folded(token, "MOV") || same_text_folded(token, "MOVE") {
            Some(Mnemonic::MOV)
        } else if same_text_folded(token, "JMP") {
            Some(Mnemonic::JMP)
        } else if same_text_folded(token, "JG") {
            Some(Mnemonic::JG)
        } else if same_text_folded(token, "JL") {
            Some(Mnemonic::JL)
        } else if same_text_folded(token, "JE") {
            Some(Mnemonic::JE)
        } else if same_text_folded(token, "CMP") {
            Some(Mnemonic::CMP)
        } else if same_text_folded(token, "HALT") || same_text_folded(token, "BREAK") {
            Some(Mnemonic::HALT)
        } else {
            None
        }
    }
}

/// Two spellings that differ in the case of ASCII letters only name the
/// same instruction, or both name none.
pub proof fn case_is_not_told_apart(one: Seq<char>, other: Seq<char>)
    requires
        folded(one) == folded(other),
    ensures
        Mnemonic::named(one) == Mnemonic::named(other),
{
}

} // verus!
