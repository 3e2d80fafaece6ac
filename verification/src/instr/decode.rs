//! From the tokens of a line to an instruction.
//!
//! The first token names the instruction; the tokens behind it are its
//! operands, read from left to right. The first operand that is missing or
//! cannot be read ends the reading. Tokens behind the last operand are not
//! looked at.

use vstd::prelude::*;
use vstd::slice::slice_subrange;
use vstd::string::StrSliceExecFns;
use crate::error::{Failure, ParseError, yields};
use crate::instr::{BoolVal, Mnemonic, ParseAble, RAMAddr, Reg, TextInstr, Val};
use crate::text::{Span, spans_cut, tokenize, tokens};

verus! {

/// The operand at `place` among the tokens of a line, the mnemonic being
/// at place 0.
pub open spec fn operand_at<T: ParseAble>(tokens: Seq<Seq<char>>, place: int) -> Result<
    T,
    Failure,
> {
    if 0 <= place < tokens.len() {
        T::parsed(tokens[place])
    } else {
        Err(Failure::MissingOperand)
    }
}

/// Two outcomes as one: the failure of the first, else the failure of the
/// second, else both values.
pub open spec fn both<A, B>(first: Result<A, Failure>, second: Result<B, Failure>) -> Result<
    (A, B),
    Failure,
> {
    match first {
        Err(failure) => Err(failure),
        Ok(a) => match second {
            Err(failure) => Err(failure),
            Ok(b) => Ok((a, b)),
        },
    }
}

/// The two operands of a line.
pub open spec fn operands2<A: ParseAble, B: ParseAble>(tokens: Seq<Seq<char>>) -> Result<
    (A, B),
    Failure,
> {
    both(operand_at::<A>(tokens, 1), operand_at::<B>(tokens, 2))
}

/// The three registers of a line.
pub open spec fn registers3(tokens: Seq<Seq<char>>) -> Result<(Reg, Reg, Reg), Failure> {
    match both(operands2::<Reg, Reg>(tokens), operand_at::<Reg>(tokens, 3)) {
        Ok(((a, b), c)) => Ok((a, b, c)),
        Err(failure) => Err(failure),
    }
}

/// The four operands of a jump on a condition.
pub open spec fn jump_operands(tokens: Seq<Seq<char>>) -> Result<
    (BoolVal, Val, Reg, Reg),
    Failure,
> {
    match both(
        operands2::<BoolVal, Val>(tokens),
        both(operand_at::<Reg>(tokens, 3), operand_at::<Reg>(tokens, 4)),
    ) {
        Ok(((dir, size), (a, b))) => Ok((dir, size, a, b)),
        Err(failure) => Err(failure),
    }
}

/// The instruction `mnemonic` with the operands that stand in `tokens`.
pub open spec fn decode(mnemonic: Mnemonic, tokens: Seq<Seq<char>>) -> Result<TextInstr, Failure> {
    match mnemonic {
        Mnemonic::SHL => match registers3(tokens) {
            Ok((a, b, dest)) => Ok(TextInstr::SHL(a, b, dest)),
            Err(failure) => Err(failure),
        },
        Mnemonic::SHR => match registers3(tokens) {
            Ok((a, b, dest)) => Ok(TextInstr::SHR(a, b, dest)),
            Err(failure) => Err(failure),
        },
        Mnemonic::AND => match registers3(tokens) {
            Ok((a, b, dest)) => Ok(TextInstr::AND(a, b, dest)),
            Err(failure) => Err(failure),
        },
        Mnemonic::XOR => match registers3(tokens) {
            Ok((a, b, dest)) => Ok(TextInstr::XOR(a, b, dest)),
            Err(failure) => Err(failure),
        },
        Mnemonic::OR => match registers3(tokens) {
            Ok((a, b, dest)) => Ok(TextInstr::OR(a, b, dest)),
            Err(failure) => Err(failure),
        },
        Mnemonic::ADD => match registers3(tokens) {
            Ok((a, b, dest)) => Ok(TextInstr::ADD(a, b, dest)),
            Err(failure) => Err(failure),
        },
        Mnemonic::SUB => match registers3(tokens) {
            Ok((a, b, dest)) => Ok(TextInstr::SUB(a, b, dest)),
            Err(failure) => Err(failure),
        },
        Mnemonic::NOT => match operands2::<Reg, Reg>(tokens) {
            Ok((src, dest)) => Ok(TextInstr::NOT(src, dest)),
            Err(failure) => Err(failure),
        },
        Mnemonic::INC => match operands2::<Reg, Reg>(tokens) {
            Ok((src, dest)) => Ok(TextInstr::INC(src, dest)),
            Err(failure) => Err(failure),
        },
        Mnemonic::DEC => match operands2::<Reg, Reg>(tokens) {
            Ok((src, dest)) => Ok(TextInstr::DEC(src, dest)),
            Err(failure) => Err(failure),
        },
        Mnemonic::STR => match operands2::<RAMAddr, Reg>(tokens) {
            Ok((addr, reg)) => Ok(TextInstr::STR(addr, reg)),
            Err(failure) => Err(failure),
        },
        Mnemonic::LDR => match operands2::<Reg, RAMAddr>(tokens) {
            Ok((reg, addr)) => Ok(TextInstr::LDR(reg, addr)),
            Err(failure) => Err(failure),
        },
        Mnemonic::LDI => match operands2::<Reg, Val>(tokens) {
            Ok((reg, val)) => Ok(TextInstr::LDI(reg, val)),
            Err(failure) => Err(failure),
        },
        Mnemonic::MOV => match operands2::<Reg, Reg>(tokens) {
            Ok((dest, src)) => Ok(TextInstr::MOV(dest, src)),
            Err(failure) => Err(failure),
        },
        Mnemonic::JMP => match operands2::<BoolVal, Val>(tokens) {
            Ok((dir, size)) => Ok(TextInstr::JMP(dir, size)),
            Err(failure) => Err(failure),
        },
        Mnemonic::JG => match jump_operands(tokens) {
            Ok((dir, size, a, b)) => Ok(TextInstr::JG(dir, size, a, b)),
            Err(failure) => Err(failure),
        },
        Mnemonic::JL => match jump_operands(tokens) {
            Ok((dir, size, a, b)) => Ok(TextInstr::JL(dir, size, a, b)),
            Err(failure) => Err(failure),
        },
        Mnemonic::JE => match jump_operands(tokens) {
            Ok((dir, size, a, b)) => Ok(TextInstr::JE(dir, size, a, b)),
            Err(failure) => Err(failure),
        },
        Mnemonic::CMP => match operands2::<Reg, Reg>(tokens) {
            Ok((a, b)) => Ok(TextInstr::CMP(a, b)),
            Err(failure) => Err(failure),
        },
        Mnemonic::HALT => Ok(TextInstr::HALT),
    }
}

/// The first token of a line, or the empty text where the line has no
/// token.
pub open spec fn command_of(tokens: Seq<Seq<char>>) -> Seq<char> {
    if tokens.len() > 0 {
        tokens[0]
    } else {
        Seq::empty()
    }
}

/// What a line says: its instruction, or why it has none. A line without
/// any token has the empty text for its mnemonic, which names nothing.
pub open spec fn parse_line(line: Seq<char>) -> Result<TextInstr, Failure> {
    let command = command_of(tokens(line));
    match Mnemonic::named(command) {
        Some(mnemonic) => decode(mnemonic, tokens(line)),
        None => Err(Failure::UnknownInstruction(command)),
    }
}

/// A line fails for want of an operand only where it has fewer operands
/// than its mnemonic takes; a line with too few operands never gives an
/// instruction; and no failure over an operand is an unknown instruction.
pub proof fn too_few_operands_fail(mnemonic: Mnemonic, tokens: Seq<Seq<char>>)
    ensures
        decode(mnemonic, tokens) == Err::<TextInstr, Failure>(Failure::MissingOperand)
            ==> tokens.len() <= mnemonic.arity(),
        1 <= tokens.len() <= mnemonic.arity() ==> decode(mnemonic, tokens) is Err,
        decode(mnemonic, tokens) is Err ==> !(decode(mnemonic, tokens)->Err_0
            is UnknownInstruction),
{
}

/// Tokens behind the last operand change nothing.
pub proof fn further_tokens_are_ignored(mnemonic: Mnemonic, tokens: Seq<Seq<char>>)
    requires
        tokens.len() > mnemonic.arity(),
    ensures
        decode(mnemonic, tokens) == decode(mnemonic, tokens.take(mnemonic.arity() as int + 1)),
{
    let kept = tokens.take(mnemonic.arity() as int + 1);
    let arity = mnemonic.arity() as int;
    if arity >= 1 {
        assert(kept[1] == tokens[1]);
    }
    if arity >= 2 {
        assert(kept[2] == tokens[2]);
    }
    if arity >= 3 {
        assert(kept[3] == tokens[3]);
    }
    if arity >= 4 {
        assert(kept[4] == tokens[4]);
    }
}

/// The characters of the token at `place`, if the line has that many
/// tokens.
pub(crate) fn token_at<'a>(line: &'a [char], spans: &Vec<Span>, place: usize) -> (token: Option<
    &'a [char],
>)
    requires
        spans_cut(spans@, line@, tokens(line@)),
    ensures
        match token {
            Some(found) => place < tokens(line@).len() && found@ == tokens(line@)[place as int],
            None => place >= tokens(line@).len(),
        },
{
    if place < spans.len() {
        let span: Span = spans[place];
        Some(slice_subrange(line, span.from, span.to))
    } else {
        None
    }
}

/// Reads the register at `place`.
pub(crate) fn register_at(line: &[char], spans: &Vec<Span>, place: usize) -> (outcome: Result<
    Reg,
    ParseError,
>)
    requires
        spans_cut(spans@, line@, tokens(line@)),
    ensures
        yields(outcome, operand_at::<Reg>(tokens(line@), place as int)),
{
    match token_at(line, spans, place) {
        Some(token) => Reg::from_chars(token),
        None => Err(ParseError::MissingOperand),
    }
}

/// Reads the address at `place`.
pub(crate) fn address_at(line: &[char], spans: &Vec<Span>, place: usize) -> (outcome: Result<
    RAMAddr,
    ParseError,
>)
    requires
        spans_cut(spans@, line@, tokens(line@)),
    ensures
        yields(outcome, operand_at::<RAMAddr>(tokens(line@), place as int)),
{
    match token_at(line, spans, place) {
        Some(token) => RAMAddr::from_chars(token),
        None => Err(ParseError::MissingOperand),
    }
}

/// Reads the value at `place`.
pub(crate) fn value_at(line: &[char], spans: &Vec<Span>, place: usize) -> (outcome: Result<
    Val,
    ParseError,
>)
    requires
        spans_cut(spans@, line@, tokens(line@)),
    ensures
        yields(outcome, operand_at::<Val>(tokens(line@), place as int)),
{
    match token_at(line, spans, place) {
        Some(token) => Val::from_chars(token),
        None => Err(ParseError::MissingOperand),
    }
}

/// Reads the flag at `place`.
pub(crate) fn flag_at(line: &[char], spans: &Vec<Span>, place: usize) -> (outcome: Result<
    BoolVal,
    ParseError,
>)
    requires
        spans_cut(spans@, line@, tokens(line@)),
    ensures
        yields(outcome, operand_at::<BoolVal>(tokens(line@), place as int)),
{
    match token_at(line, spans, place) {
        Some(token) => BoolVal::from_chars(token),
        None => Err(ParseError::MissingOperand),
    }
}

/// Reads the two registers of a line.
pub(crate) fn read_registers2(line: &[char], spans: &Vec<Span>) -> (outcome: Result<
    (Reg, Reg),
    ParseError,
>)
    requires
        spans_cut(spans@, line@, tokens(line@)),
    ensures
        yields(outcome, operands2::<Reg, Reg>(tokens(line@))),
{
    let first: Reg = match register_at(line, spans, 1) {
        Ok(reg) => reg,
        Err(error) => {
            return Err(error);
        },
    };
    let second: Reg = match register_at(line, spans, 2) {
        Ok(reg) => reg,
        Err(error) => {
            return Err(error);
        },
    };
    Ok((first, second))
}

/// Reads the three registers of a line.
pub(crate) fn read_registers3(line: &[char], spans: &Vec<Span>) -> (outcome: Result<
    (Reg, Reg, Reg),
    ParseError,
>)
    requires
        spans_cut(spans@, line@, tokens(line@)),
    ensures
        yields(outcome, registers3(tokens(line@))),
{
    let (first, second): (Reg, Reg) = match read_registers2(line, spans) {
        Ok(pair) => pair,
        Err(error) => {
            return Err(error);
        },
    };
    let third: Reg = match register_at(line, spans, 3) {
        Ok(reg) => reg,
        Err(error) => {
            return Err(error);
        },
    };
    Ok((first, second, third))
}

/// Reads the direction and the distance of a jump.
pub(crate) fn read_jump(line: &[char], spans: &Vec<Span>) -> (outcome: Result<(BoolVal, Val), ParseError>)
    requires
        spans_cut(spans@, line@, tokens(line@)),
    ensures
        yields(outcome, operands2::<BoolVal, Val>(tokens(line@))),
{
    let dir: BoolVal = match flag_at(line, spans, 1) {
        Ok(flag) => flag,
        Err(error) => {
            return Err(error);
        },
    };
    let size: Val = match value_at(line, spans, 2) {
        Ok(val) => val,
        Err(error) => {
            return Err(error);
        },
    };
    Ok((dir, size))
}

/// Reads the four operands of a jump on a condition.
pub(crate) fn read_conditional_jump(line: &[char], spans: &Vec<Span>) -> (outcome: Result<
    (BoolVal, Val, Reg, Reg),
    ParseError,
>)
    requires
        spans_cut(spans@, line@, tokens(line@)),
    ensures
        yields(outcome, jump_operands(tokens(line@))),
{
    let (dir, size): (BoolVal, Val) = match read_jump(line, spans) {
        Ok(pair) => pair,
        Err(error) => {
            return Err(error);
        },
    };
    let first: Reg = match register_at(line, spans, 3) {
        Ok(reg) => reg,
        Err(error) => {
            return Err(error);
        },
    };
    let second: Reg = match register_at(line, spans, 4) {
        Ok(reg) => reg,
        Err(error) => {
            return Err(error);
        },
    };
    Ok((dir, size, first, second))
}

/// Reads the operands that `mnemonic` takes and makes the instruction.
pub(crate) fn read_operands(mnemonic: Mnemonic, line: &[char], spans: &Vec<Span>) -> (outcome: Result<
    TextInstr,
    ParseError,
>)
    requires
        spans_cut(spans@, line@, tokens(line@)),
    ensures
        yields(outcome, decode(mnemonic, tokens(line@))),
{
    match mnemonic {
        Mnemonic::SHL => match read_registers3(line, spans) {
            Ok((a, b, dest)) => Ok(TextInstr::SHL(a, b, dest)),
            Err(error) => Err(error),
        },
        Mnemonic::SHR => match read_registers3(line, spans) {
            Ok((a, b, dest)) => Ok(TextInstr::SHR(a, b, dest)),
            Err(error) => Err(error),
        },
        Mnemonic::AND => match read_registers3(line, spans) {
            Ok((a, b, dest)) => Ok(TextInstr::AND(a, b, dest)),
            Err(error) => Err(error),
        },
        Mnemonic::XOR => match read_registers3(line, spans) {
            Ok((a, b, dest)) => Ok(TextInstr::XOR(a, b, dest)),
            Err(error) => Err(error),
        },
        Mnemonic::OR => match read_registers3(line, spans) {
            Ok((a, b, dest)) => Ok(TextInstr::OR(a, b, dest)),
            Err(error) => Err(error),
        },
        Mnemonic::ADD => match read_registers3(line, spans) {
            Ok((a, b, dest)) => Ok(TextInstr::ADD(a, b, dest)),
            Err(error) => Err(error),
        },
        Mnemonic::SUB => match read_registers3(line, spans) {
            Ok((a, b, dest)) => Ok(TextInstr::SUB(a, b, dest)),
            Err(error) => Err(error),
        },
        Mnemonic::NOT => match read_registers2(line, spans) {
            Ok((src, dest)) => Ok(TextInstr::NOT(src, dest)),
            Err(error) => Err(error),
        },
        Mnemonic::INC => match read_registers2(line, spans) {
            Ok((src, dest)) => Ok(TextInstr::INC(src, dest)),
            Err(error) => Err(error),
        },
        Mnemonic::DEC => match read_registers2(line, spans) {
            Ok((src, dest)) => Ok(TextInstr::DEC(src, dest)),
            Err(error) => Err(error),
        },
        Mnemonic::STR => {
            let addr: RAMAddr = match address_at(line, spans, 1) {
                Ok(addr) => addr,
                Err(error) => {
                    return Err(error);
                },
            };
            match register_at(line, spans, 2) {
                Ok(reg) => Ok(TextInstr::STR(addr, reg)),
                Err(error) => Err(error),
            }
        },
        Mnemonic::LDR => {
            let reg: Reg = match register_at(line, spans, 1) {
                Ok(reg) => reg,
                Err(error) => {
                    return Err(error);
                },
            };
            match address_at(line, spans, 2) {
                Ok(addr) => Ok(TextInstr::LDR(reg, addr)),
                Err(error) => Err(error),
            }
        },
        Mnemonic::LDI => {
            let reg: Reg = match register_at(line, spans, 1) {
                Ok(reg) => reg,
                Err(error) => {
                    return Err(error);
                },
            };
            match value_at(line, spans, 2) {
                Ok(val) => Ok(TextInstr::LDI(reg, val)),
                Err(error) => Err(error),
            }
        },
        Mnemonic::MOV => match read_registers2(line, spans) {
            Ok((dest, src)) => Ok(TextInstr::MOV(dest, src)),
            Err(error) => Err(error),
        },
        Mnemonic::JMP => match read_jump(line, spans) {
            Ok((dir, size)) => Ok(TextInstr::JMP(dir, size)),
            Err(error) => Err(error),
        },
        Mnemonic::JG => match read_conditional_jump(line, spans) {
            Ok((dir, size, a, b)) => Ok(TextInstr::JG(dir, size, a, b)),
            Err(error) => Err(error),
        },
        Mnemonic::JL => match read_conditional_jump(line, spans) {
            Ok((dir, size, a, b)) => Ok(TextInstr::JL(dir, size, a, b)),
            Err(error) => Err(error),
        },
        Mnemonic::JE => match read_conditional_jump(line, spans) {
            Ok((dir, size, a, b)) => Ok(TextInstr::JE(dir, size, a, b)),
            Err(error) => Err(error),
        },
        Mnemonic::CMP => match read_registers2(line, spans) {
            Ok((a, b)) => Ok(TextInstr::CMP(a, b)),
            Err(error) => Err(error),
        },
        Mnemonic::HALT => Ok(TextInstr::HALT),
    }
}

/// What holds between a text, a line of it and the place of that line: the
/// characters of `line` are those of `source` from place `at` on.
pub open spec fn stands_in(line: Seq<char>, source: Seq<char>, at: int) -> bool {
    &&& 0 <= at
    &&& at + line.len() <= source.len()
    &&& source.subrange(at, at + line.len()) == line
}

/// Reads the instruction on `line`, which is the part of `source` that
/// starts at place `at`.
pub(crate) fn read_line(source: &str, line: &[char], at: usize) -> (outcome: Result<
    TextInstr,
    ParseError,
>)
    requires
        stands_in(line@, source@, at as int),
        at + line@.len() <= usize::MAX,
    ensures
        yields(outcome, parse_line(line@)),
{
    let spans: Vec<Span> = tokenize(line);
    let first: Span = if spans.len() > 0 {
        spans[0]
    } else {
        Span { from: 0, to: 0 }
    };
    let command: &[char] = slice_subrange(line, first.from, first.to);
    assert(command@ == command_of(tokens(line@)));
    match Mnemonic::recognize(command) {
        Some(mnemonic) => read_operands(mnemonic, line, &spans),
        None => {
            let written: &str = source.substring_char(at + first.from, at + first.to);
            assert(written@ == command@);
            Err(ParseError::UnknownInstruction(written.to_owned()))
        },
    }
}

} // verus!
