//! An assembler for a small fixed-format 16-bit instruction set: mnemonic
//! text in, a linear stream of machine words out.
//!
//! A source text holds one instruction per line. `parse` reads it into a
//! `Program`, `to_code` lowers the program to machine words, and
//! `optim::optimize` drops the words that do nothing.

use vstd::prelude::*;
use vstd::slice::slice_subrange;

pub mod error;
pub mod instr;
pub mod number;
pub mod optim;
pub mod text;

pub use error::ParseError;
pub use instr::{Program, TextInstr};

use error::Failure;
use instr::decode::{parse_line, read_line};
use text::{chars_of, is_skipped, line_end, line_end_is_ahead, lines, lines_from, skipped};

verus! {

/// The ending of the name of a source file.
pub const DBASM_EXT: &'static str = "dbasm";

/// The ending of the name of a file of machine words.
pub const DBMEXEC_EXT: &'static str = "dbexec";

/// What a run of lines assembles to. The lines are taken in their order;
/// blank lines and comments give nothing; every other line gives its
/// instruction. The first line that cannot be read fails the whole run
/// with its own failure.
pub open spec fn assembled(lines: Seq<Seq<char>>) -> Result<Seq<TextInstr>, Failure>
    decreases lines.len(),
{
    if lines.len() == 0 {
        Ok(Seq::empty())
    } else {
        match assembled(lines.drop_last()) {
            Err(failure) => Err(failure),
            Ok(program) => if is_skipped(lines.last()) {
                Ok(program)
            } else {
                match parse_line(lines.last()) {
                    Ok(instr) => Ok(program.push(instr)),
                    Err(failure) => Err(failure),
                }
            },
        }
    }
}

/// What a source text assembles to.
pub open spec fn program_of(text: Seq<char>) -> Result<Seq<TextInstr>, Failure> {
    assembled(lines(text))
}

/// The machine words of a program: those of its instructions, one
/// instruction after the other.
pub open spec fn lowered(program: Seq<TextInstr>) -> Seq<u16>
    decreases program.len(),
{
    if program.len() == 0 {
        Seq::empty()
    } else {
        lowered(program.drop_last()) + program.last().words()
    }
}

/// How many machine words a program takes: the sum of what its
/// instructions take.
pub open spec fn total_words(program: Seq<TextInstr>) -> nat
    decreases program.len(),
{
    if program.len() == 0 {
        0
    } else {
        total_words(program.drop_last()) + program.last().word_count()
    }
}

/// Two runs of lines, one behind the other, assemble to what the first
/// gives followed by what the second gives; a failure in the first hides
/// everything in the second.
pub proof fn assembled_in_sequence(first: Seq<Seq<char>>, second: Seq<Seq<char>>)
    ensures
        assembled(first + second) == match assembled(first) {
            Err(failure) => Err::<Seq<TextInstr>, Failure>(failure),
            Ok(program) => match assembled(second) {
                Ok(more) => Ok(program + more),
                Err(failure) => Err(failure),
            },
        },
    decreases second.len(),
{
    if second.len() == 0 {
        assert(first + second == first);
        if let Ok(program) = assembled(first) {
            assert(program + Seq::<TextInstr>::empty() == program);
        }
    } else {
        let whole = first + second;
        assert(whole.drop_last() == first + second.drop_last());
        assert(whole.last() == second.last());
        assembled_in_sequence(first, second.drop_last());
        if let Ok(program) = assembled(first) {
            if let Ok(more) = assembled(second.drop_last()) {
                if !is_skipped(second.last()) {
                    if let Ok(instr) = parse_line(second.last()) {
                        assert(program + more.push(instr) =~= (program + more).push(instr));
                    }
                }
            }
        }
    }
}

/// A text of blank lines and comments only assembles to the empty
/// program, which lowers to no word at all.
pub proof fn nothing_but_comments_gives_nothing(text: Seq<char>)
    requires
        forall|k: int| 0 <= k < lines(text).len() ==> is_skipped(#[trigger] lines(text)[k]),
    ensures
        program_of(text) == Ok::<Seq<TextInstr>, Failure>(Seq::empty()),
        lowered(Seq::empty()) == Seq::<u16>::empty(),
{
    skipped_lines_give_nothing(lines(text));
}

/// Lines that are all skipped assemble to the empty program.
pub proof fn skipped_lines_give_nothing(lines: Seq<Seq<char>>)
    requires
        forall|k: int| 0 <= k < lines.len() ==> is_skipped(#[trigger] lines[k]),
    ensures
        assembled(lines) == Ok::<Seq<TextInstr>, Failure>(Seq::empty()),
    decreases lines.len(),
{
    if lines.len() > 0 {
        let shorter = lines.drop_last();
        assert forall|k: int| 0 <= k < shorter.len() implies is_skipped(#[trigger] shorter[k]) by {
            assert(shorter[k] == lines[k]);
        }
        skipped_lines_give_nothing(shorter);
    }
}

/// A program lowers to as many words as its instructions take together.
pub proof fn lowered_length(program: Seq<TextInstr>)
    ensures
        lowered(program).len() == total_words(program),
        lowered(program).len() >= program.len(),
    decreases program.len(),
{
    if program.len() > 0 {
        lowered_length(program.drop_last());
    }
}

/// Two programs, one behind the other, lower to the words of the first
/// followed by the words of the second.
pub proof fn lowered_in_sequence(first: Seq<TextInstr>, second: Seq<TextInstr>)
    ensures
        lowered(first + second) == lowered(first) + lowered(second),
    decreases second.len(),
{
    if second.len() == 0 {
        assert(first + second == first);
        assert(lowered(first) + Seq::<u16>::empty() == lowered(first));
    } else {
        let whole = first + second;
        assert(whole.drop_last() == first + second.drop_last());
        assert(whole.last() == second.last());
        lowered_in_sequence(first, second.drop_last());
        assert((lowered(first) + lowered(second.drop_last())) + second.last().words() == lowered(
            first,
        ) + (lowered(second.drop_last()) + second.last().words()));
    }
}

/// Reads a source text into a program: one instruction for each line that
/// is neither blank nor a comment, in the order of the lines. The first
/// line that cannot be read fails the whole text, and no program is
/// given.
pub fn parse(text: String) -> (outcome: Result<Program, ParseError>)
    ensures
        match outcome {
            Ok(program) => program_of(text@) == Ok::<Seq<TextInstr>, Failure>(program@),
            Err(error) => program_of(text@) == Err::<Seq<TextInstr>, Failure>(error@),
        },
{
    let source: &str = text.as_str();
    let chars: Vec<char> = chars_of(source);
    let n: usize = chars.len();
    let mut instructions: Vec<TextInstr> = Vec::new();
    let ghost mut done: Seq<Seq<char>> = Seq::empty();
    let mut i: usize = 0;
    while i < n
        invariant
            i <= n,
            n == chars@.len(),
            chars@ == text@,
            source@ == text@,
            lines(text@) == done + lines_from(text@, i as int),
            assembled(done) == Ok::<Seq<TextInstr>, Failure>(instructions@),
        decreases n - i,
    {
        let start: usize = i;
        let mut end: usize = i;
        while end < n && chars[end] != '\n'
            invariant
                start <= end <= n,
                n == chars@.len(),
                chars@ == text@,
                line_end(text@, start as int) == line_end(text@, end as int),
            decreases n - end,
        {
            end = end + 1;
        }
        let line: &[char] = slice_subrange(chars.as_slice(), start, end);
        let next: usize = if end < n {
            end + 1
        } else {
            end
        };
        let ghost rest = lines_from(text@, next as int);
        proof {
            line_end_is_ahead(text@, start as int);
            assert(lines_from(text@, start as int) == seq![line@] + rest);
            assert(done + (seq![line@] + rest) == done.push(line@) + rest);
            assert(done.push(line@).drop_last() == done);
        }
        if !skipped(line) {
            match read_line(source, line, start) {
                Ok(instr) => {
                    instructions.push(instr);
                },
                Err(error) => {
                    proof {
                        assembled_in_sequence(done.push(line@), rest);
                    }
                    return Err(error);
                },
            }
        }
        proof {
            done = done.push(line@);
        }
        i = next;
    }
    proof {
        assert(done + lines_from(text@, n as int) == done);
    }
    Ok(Program { text: instructions })
}

/// Lowers a program to machine words: the words of each instruction, in
/// the order of the instructions.
pub fn to_code(program: Program) -> (code: Vec<u16>)
    ensures
        code@ == lowered(program@),
        code@.len() == total_words(program@),
{
    let mut code: Vec<u16> = Vec::new();
    let mut i: usize = 0;
    while i < program.text.len()
        invariant
            i <= program.text.len(),
            code@ == lowered(program@.take(i as int)),
        decreases program.text.len() - i,
    {
        let mut words: Vec<u16> = program.text[i].to_code();
        proof {
            let upto = program@.take(i as int + 1);
            assert(upto.drop_last() == program@.take(i as int));
            assert(upto.last() == program@[i as int]);
        }
        code.append(&mut words);
        i = i + 1;
    }
    proof {
        assert(program@.take(program.text.len() as int) == program@);
        lowered_length(program@);
    }
    code
}

} // verus!
