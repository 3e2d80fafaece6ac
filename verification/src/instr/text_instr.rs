//! Instructions: what a source line says, and the machine words for it.
//!
//! A machine word has sixteen bits. Its top four bits are the opcode
//! class; the other twelve are laid out class by class:
//!
//! | class          | bits 11 to 8   | bits 7 to 0                          |
//! |----------------|----------------|--------------------------------------|
//! | 0 ALU          | zero           | bits 3 to 0: the operation           |
//! | 1 LOAD         | register       | low eight bits of the address        |
//! | 2 STORE        | register       | low eight bits of the address        |
//! | 3 MOVE         | destination    | bits 3 to 0: source; 7 to 4 unused   |
//! | 4 JUMP         | see below      | see below                            |
//! | 5 LOAD-IMMEDIATE | destination  | low eight bits of the value          |
//! | 6 HALT         | zero           | zero                                 |
//!
//! A JUMP word holds the condition in bits 11 and 10, the direction in bit
//! 9 and the low nine bits of the distance in bits 8 to 0.
//!
//! A field holds as many low bits of its operand as it has room for. An
//! address above 255, a value above 255 in a load-immediate or a distance
//! above 511 loses its high bits; no word ever spills into a neighbouring
//! field or into the opcode class.

use vstd::prelude::*;
use crate::error::{ParseError, yields};
use crate::instr::decode::{parse_line, read_line};
use crate::instr::{BoolVal, ParseAble, RAMAddr, Reg, Val};
use crate::text::chars_of;
use crate::optim::{is_self_move, move_dest_field, move_src_field, opcode_class, optimized};

verus! {

/// The opcode classes, each in the top four bits of a word.
pub const ALU: u16 = 0x0000;

pub const LOAD: u16 = 0x1000;

pub const STORE: u16 = 0x2000;

pub const MOVE: u16 = 0x3000;

pub const JUMP: u16 = 0x4000;

pub const LOADIMD: u16 = 0x5000;

pub const HALT: u16 = 0x6000;

/// What the ALU is asked to do: the low four bits of an ALU word.
pub const ALU_SHL: u16 = 0;

pub const ALU_SHR: u16 = 1;

pub const ALU_AND: u16 = 2;

pub const ALU_NOT: u16 = 3;

pub const ALU_XOR: u16 = 4;

pub const ALU_OR: u16 = 5;

pub const ALU_ADD: u16 = 6;

pub const ALU_SUB: u16 = 7;

pub const ALU_COMPARE: u16 = 8;

pub const ALU_INC: u16 = 9;

pub const ALU_DEC: u16 = 10;

/// When a jump is taken: bits 11 and 10 of a JUMP word.
pub const JUMP_ALWAYS: u16 = 0;

pub const JUMP_GREATER: u16 = 1;

pub const JUMP_LESS: u16 = 2;

pub const JUMP_EQUAL: u16 = 3;

/// One source line as data. Each variant carries the operands that its
/// mnemonic takes, in the order in which they are written.
#[derive(Debug, Clone, Copy, PartialEq, Eq, Structural)]
pub enum TextInstr {
    /// Shift left: first input, second input, destination.
    SHL(Reg, Reg, Reg),
    /// Shift right: first input, second input, destination.
    SHR(Reg, Reg, Reg),
    /// Bitwise and: first input, second input, destination.
    AND(Reg, Reg, Reg),
    /// Bitwise not: input, destination.
    NOT(Reg, Reg),
    /// Bitwise exclusive or: first input, second input, destination.
    XOR(Reg, Reg, Reg),
    /// Bitwise or: first input, second input, destination.
    OR(Reg, Reg, Reg),
    /// Sum: first input, second input, destination.
    ADD(Reg, Reg, Reg),
    /// Difference: first input, second input, destination.
    SUB(Reg, Reg, Reg),
    /// Increment: input, destination.
    INC(Reg, Reg),
    /// Decrement: input, destination.
    DEC(Reg, Reg),
    /// Store a register at an address.
    STR(RAMAddr, Reg),
    /// Load a register from an address.
    LDR(Reg, RAMAddr),
    /// Load a register with a value.
    LDI(Reg, Val),
    /// Move into the first register what the second holds.
    MOV(Reg, Reg),
    /// Jump: direction, distance.
    JMP(BoolVal, Val),
    /// Jump if the first register is greater than the second: direction,
    /// distance, the two registers.
    JG(BoolVal, Val, Reg, Reg),
    /// Jump if the first register is less than the second.
    JL(BoolVal, Val, Reg, Reg),
    /// Jump if the two registers are equal.
    JE(BoolVal, Val, Reg, Reg),
    /// Compare two registers.
    CMP(Reg, Reg),
    /// Stop the machine.
    HALT,
}

/// The word that moves `src` into `dest`.
pub open spec fn move_word(dest: Reg, src: Reg) -> u16 {
    MOVE | (dest.address() << 8) | src.address()
}

/// The word that sets the ALU to work on what its two inputs hold.
pub open spec fn alu_word(operation: u16) -> u16 {
    ALU | operation
}

/// The word that loads `reg` from `addr`.
pub open spec fn load_word(reg: Reg, addr: RAMAddr) -> u16 {
    LOAD | (reg.address() << 8) | (addr.code() & 0xFF)
}

/// The word that stores `reg` at `addr`.
pub open spec fn store_word(addr: RAMAddr, reg: Reg) -> u16 {
    STORE | (reg.address() << 8) | (addr.code() & 0xFF)
}

/// The word that loads `reg` with `val`.
pub open spec fn immediate_word(reg: Reg, val: Val) -> u16 {
    LOADIMD | (reg.address() << 8) | (val.code() & 0xFF)
}

/// The word that jumps by `size` in direction `dir` when `condition`
/// holds.
pub open spec fn jump_word(condition: u16, dir: BoolVal, size: Val) -> u16 {
    JUMP | (condition << 10) | (dir.code() << 9) | (size.code() & 0x1FF)
}

/// An operation on two inputs: both are moved to the inputs of the ALU,
/// the ALU works, and its output is moved to `dest`.
pub open spec fn two_input_words(operation: u16, a: Reg, b: Reg, dest: Reg) -> Seq<u16> {
    seq![
        move_word(Reg::AluA, a),
        move_word(Reg::AluB, b),
        alu_word(operation),
        move_word(dest, Reg::AluOut),
    ]
}

/// An operation on one input: it is moved to the first input of the ALU,
/// the ALU works, and its output is moved to `dest`.
pub open spec fn one_input_words(operation: u16, src: Reg, dest: Reg) -> Seq<u16> {
    seq![move_word(Reg::AluA, src), alu_word(operation), move_word(dest, Reg::AluOut)]
}

/// A comparison: an operation on two inputs whose outcome goes to the
/// flags register.
pub open spec fn compare_words(a: Reg, b: Reg) -> Seq<u16> {
    two_input_words(ALU_COMPARE, a, b, Reg::FLAGS)
}

/// A jump on a condition: the comparison, then the jump.
pub open spec fn conditional_jump_words(
    condition: u16,
    dir: BoolVal,
    size: Val,
    a: Reg,
    b: Reg,
) -> Seq<u16> {
    compare_words(a, b).push(jump_word(condition, dir, size))
}

impl TextInstr {
    /// The machine words for the instruction.
    pub open spec fn words(self) -> Seq<u16> {
        match self {
            TextInstr::SHL(a, b, dest) => two_input_words(ALU_SHL, a, b, dest),
            TextInstr::SHR(a, b, dest) => two_input_words(ALU_SHR, a, b, dest),
            TextInstr::AND(a, b, dest) => two_input_words(ALU_AND, a, b, dest),
            TextInstr::NOT(src, dest) => one_input_words(ALU_NOT, src, dest),
            TextInstr::XOR(a, b, dest) => two_input_words(ALU_XOR, a, b, dest),
            TextInstr::OR(a, b, dest) => two_input_words(ALU_OR, a, b, dest),
            TextInstr::ADD(a, b, dest) => two_input_words(ALU_ADD, a, b, dest),
            TextInstr::SUB(a, b, dest) => two_input_words(ALU_SUB, a, b, dest),
            TextInstr::INC(src, dest) => one_input_words(ALU_INC, src, dest),
            TextInstr::DEC(src, dest) => one_input_words(ALU_DEC, src, dest),
            TextInstr::STR(addr, reg) => seq![store_word(addr, reg)],
            TextInstr::LDR(reg, addr) => seq![load_word(reg, addr)],
            TextInstr::LDI(reg, val) => seq![immediate_word(reg, val)],
            TextInstr::MOV(dest, src) => seq![move_word(dest, src)],
            TextInstr::JMP(dir, size) => seq![jump_word(JUMP_ALWAYS, dir, size)],
            TextInstr::JG(dir, size, a, b) => conditional_jump_words(JUMP_GREATER, dir, size, a, b),
            TextInstr::JL(dir, size, a, b) => conditional_jump_words(JUMP_LESS, dir, size, a, b),
            TextInstr::JE(dir, size, a, b) => conditional_jump_words(JUMP_EQUAL, dir, size, a, b),
            TextInstr::CMP(a, b) => compare_words(a, b),
            TextInstr::HALT => seq![HALT],
        }
    }

    /// How many machine words the instruction takes.
    pub open spec fn word_count(self) -> nat {
        match self {
            TextInstr::SHL(..)
            | TextInstr::SHR(..)
            | TextInstr::AND(..)
            | TextInstr::XOR(..)
            | TextInstr::OR(..)
            | TextInstr::ADD(..)
            | TextInstr::SUB(..)
            | TextInstr::CMP(..) => 4,
            TextInstr::NOT(..) | TextInstr::INC(..) | TextInstr::DEC(..) => 3,
            TextInstr::JG(..) | TextInstr::JL(..) | TextInstr::JE(..) => 5,
            TextInstr::STR(..)
            | TextInstr::LDR(..)
            | TextInstr::LDI(..)
            | TextInstr::MOV(..)
            | TextInstr::JMP(..)
            | TextInstr::HALT => 1,
        }
    }

    /// Reads the instruction that `line` holds. Commas count as white
    /// space; the mnemonic comes first, in any case of letters; its
    /// operands follow in their order. A line without any token names no
    /// instruction.
    pub fn from_str(line: &str) -> (outcome: Result<TextInstr, ParseError>)
        ensures
            yields(outcome, parse_line(line@)),
    {
        let chars: Vec<char> = chars_of(line);
        assert(line@.subrange(0, line@.len() as int) == line@);
        assert(chars@.len() == chars.len());
        read_line(line, chars.as_slice(), 0)
    }

    /// Lowers the instruction to its machine words.
    pub fn to_code(&self) -> (code: Vec<u16>)
        ensures
            code@ == self.words(),
            code@.len() == self.word_count(),
    {
        match self {
            TextInstr::SHL(a, b, dest) => two_inputs(ALU_SHL, a, b, dest),
            TextInstr::SHR(a, b, dest) => two_inputs(ALU_SHR, a, b, dest),
            TextInstr::AND(a, b, dest) => two_inputs(ALU_AND, a, b, dest),
            TextInstr::NOT(src, dest) => one_input(ALU_NOT, src, dest),
            TextInstr::XOR(a, b, dest) => two_inputs(ALU_XOR, a, b, dest),
            TextInstr::OR(a, b, dest) => two_inputs(ALU_OR, a, b, dest),
            TextInstr::ADD(a, b, dest) => two_inputs(ALU_ADD, a, b, dest),
            TextInstr::SUB(a, b, dest) => two_inputs(ALU_SUB, a, b, dest),
            TextInstr::INC(src, dest) => one_input(ALU_INC, src, dest),
            TextInstr::DEC(src, dest) => one_input(ALU_DEC, src, dest),
            TextInstr::STR(addr, reg) => single(make_store(addr, reg)),
            TextInstr::LDR(reg, addr) => single(make_load(reg, addr)),
            TextInstr::LDI(reg, val) => single(make_immediate(reg, val)),
            TextInstr::MOV(dest, src) => single(make_move(dest, src)),
            TextInstr::JMP(dir, size) => single(make_jump(JUMP_ALWAYS, dir, size)),
            TextInstr::JG(dir, size, a, b) => conditional_jump(JUMP_GREATER, dir, size, a, b),
            TextInstr::JL(dir, size, a, b) => conditional_jump(JUMP_LESS, dir, size, a, b),
            TextInstr::JE(dir, size, a, b) => conditional_jump(JUMP_EQUAL, dir, size, a, b),
            TextInstr::CMP(a, b) => two_inputs(ALU_COMPARE, a, b, &Reg::FLAGS),
            TextInstr::HALT => single(HALT),
        }
    }
}

/// A stream of one word.
pub fn single(word: u16) -> (code: Vec<u16>)
    ensures
        code@ == seq![word],
        code@.len() == 1,
{
    vec![word]
}

/// Makes the word that stores `reg` at `addr`.
pub fn make_store(addr: &RAMAddr, reg: &Reg) -> (word: u16)
    ensures
        word == store_word(*addr, *reg),
{
    STORE | (reg.to_code() << 8) | (addr.to_code() & 0xFF)
}

/// Makes the word that loads `reg` from `addr`.
pub fn make_load(reg: &Reg, addr: &RAMAddr) -> (word: u16)
    ensures
        word == load_word(*reg, *addr),
{
    LOAD | (reg.to_code() << 8) | (addr.to_code() & 0xFF)
}

/// Makes the word that loads `reg` with `val`.
pub fn make_immediate(reg: &Reg, val: &Val) -> (word: u16)
    ensures
        word == immediate_word(*reg, *val),
{
    LOADIMD | (reg.to_code() << 8) | (val.to_code() & 0xFF)
}

/// Makes the word that moves `src` into `dest`.
pub fn make_move(dest: &Reg, src: &Reg) -> (word: u16)
    ensures
        word == move_word(*dest, *src),
{
    MOVE | (dest.to_code() << 8) | src.to_code()
}

/// Makes the word that jumps by `size` in direction `dir` when `condition`
/// holds.
pub fn make_jump(condition: u16, dir: &BoolVal, size: &Val) -> (word: u16)
    ensures
        word == jump_word(condition, *dir, *size),
{
    JUMP | (condition << 10) | (dir.to_code() << 9) | (size.to_code() & 0x1FF)
}

/// Makes the four words of an operation on two inputs.
pub fn two_inputs(operation: u16, a: &Reg, b: &Reg, dest: &Reg) -> (code: Vec<u16>)
    ensures
        code@ == two_input_words(operation, *a, *b, *dest),
        code@.len() == 4,
{
    let first: u16 = make_move(&Reg::AluA, a);
    let second: u16 = make_move(&Reg::AluB, b);
    let work: u16 = ALU | operation;
    let last: u16 = make_move(dest, &Reg::AluOut);
    vec![first, second, work, last]
}

/// Makes the three words of an operation on one input.
pub fn one_input(operation: u16, src: &Reg, dest: &Reg) -> (code: Vec<u16>)
    ensures
        code@ == one_input_words(operation, *src, *dest),
        code@.len() == 3,
{
    let first: u16 = make_move(&Reg::AluA, src);
    let work: u16 = ALU | operation;
    let last: u16 = make_move(dest, &Reg::AluOut);
    vec![first, work, last]
}

/// Makes the five words of a jump on a condition.
pub fn conditional_jump(condition: u16, dir: &BoolVal, size: &Val, a: &Reg, b: &Reg) -> (code: Vec<
    u16,
>)
    ensures
        code@ == conditional_jump_words(condition, *dir, *size, *a, *b),
        code@.len() == 5,
{
    let mut code: Vec<u16> = two_inputs(ALU_COMPARE, a, b, &Reg::FLAGS);
    let word: u16 = make_jump(condition, dir, size);
    code.push(word);
    code
}

/// A MOVE word is of class 3 and holds the destination in bits 11 to 8 and
/// the source in bits 3 to 0; bits 7 to 4 are zero.
pub proof fn move_word_layout(dest: Reg, src: Reg)
    ensures
        opcode_class(move_word(dest, src)) == 3,
        move_dest_field(move_word(dest, src)) == dest.address(),
        move_src_field(move_word(dest, src)) == src.address(),
        (move_word(dest, src) >> 4) & 0xF == 0,
{
    let d = dest.address();
    let s = src.address();
    assert(d <= 7 && s <= 7);
    assert({
        let w = 0x3000u16 | (d << 8) | s;
        &&& w >> 12 == 3
        &&& (w >> 8) & 0xF == d
        &&& w & 0xF == s
        &&& (w >> 4) & 0xF == 0
    }) by (bit_vector)
        requires
            d <= 7,
            s <= 7,
    ;
}

/// An ALU word is of class 0 and holds the operation in bits 3 to 0; the
/// bits between are zero.
pub proof fn alu_word_layout(operation: u16)
    requires
        operation <= 15,
    ensures
        opcode_class(alu_word(operation)) == 0,
        alu_word(operation) & 0xF == operation,
        alu_word(operation) >> 4 == 0,
{
    assert({
        let w = 0x0000u16 | operation;
        &&& w >> 12 == 0
        &&& w & 0xF == operation
        &&& w >> 4 == 0
    }) by (bit_vector)
        requires
            operation <= 15,
    ;
}

/// A LOAD word is of class 1, a STORE word of class 2. Both hold the
/// register in bits 11 to 8 and, in bits 7 to 0, the address less every
/// multiple of 256 in it.
pub proof fn memory_word_layout(reg: Reg, addr: RAMAddr)
    ensures
        opcode_class(load_word(reg, addr)) == 1,
        opcode_class(store_word(addr, reg)) == 2,
        (load_word(reg, addr) >> 8) & 0xF == reg.address(),
        (store_word(addr, reg) >> 8) & 0xF == reg.address(),
        (load_word(reg, addr) & 0xFF) as int == addr.0 as int % 256,
        (store_word(addr, reg) & 0xFF) as int == addr.0 as int % 256,
{
    let r = reg.address();
    let a = addr.0;
    assert(r <= 7);
    assert({
        let low = (a as u16) & 0xFF;
        let load = 0x1000u16 | (r << 8) | low;
        let store = 0x2000u16 | (r << 8) | low;
        &&& load >> 12 == 1
        &&& store >> 12 == 2
        &&& (load >> 8) & 0xF == r
        &&& (store >> 8) & 0xF == r
        &&& load & 0xFF == a % 256
        &&& store & 0xFF == a % 256
    }) by (bit_vector)
        requires
            r <= 7,
    ;
}

/// A LOAD-IMMEDIATE word is of class 5 and holds the register in bits 11
/// to 8 and, in bits 7 to 0, the value less every multiple of 256 in it.
pub proof fn immediate_word_layout(reg: Reg, val: Val)
    ensures
        opcode_class(immediate_word(reg, val)) == 5,
        (immediate_word(reg, val) >> 8) & 0xF == reg.address(),
        (immediate_word(reg, val) & 0xFF) as int == val.0 as int % 256,
{
    let r = reg.address();
    let v = val.0;
    assert(r <= 7);
    assert({
        let w = 0x5000u16 | (r << 8) | (v & 0xFF);
        &&& w >> 12 == 5
        &&& (w >> 8) & 0xF == r
        &&& w & 0xFF == v % 256
    }) by (bit_vector)
        requires
            r <= 7,
    ;
}

/// A JUMP word is of class 4 and holds the condition in bits 11 and 10,
/// the direction in bit 9 and, in bits 8 to 0, the distance less every
/// multiple of 512 in it.
pub proof fn jump_word_layout(condition: u16, dir: BoolVal, size: Val)
    requires
        condition <= 3,
    ensures
        opcode_class(jump_word(condition, dir, size)) == 4,
        (jump_word(condition, dir, size) >> 10) & 0x3 == condition,
        (jump_word(condition, dir, size) >> 9) & 0x1 == dir.code(),
        (jump_word(condition, dir, size) & 0x1FF) as int == size.0 as int % 512,
{
    let d = dir.code();
    let v = size.0;
    assert(d <= 1);
    assert({
        let w = 0x4000u16 | (condition << 10) | (d << 9) | (v & 0x1FF);
        &&& w >> 12 == 4
        &&& (w >> 10) & 0x3 == condition
        &&& (w >> 9) & 0x1 == d
        &&& w & 0x1FF == v % 512
    }) by (bit_vector)
        requires
            condition <= 3,
            d <= 1,
    ;
}

/// A move of a register onto itself is one word, and optimising leaves
/// nothing of it.
pub proof fn self_move_is_optimized_away(reg: Reg)
    ensures
        TextInstr::MOV(reg, reg).words().len() == 1,
        is_self_move(move_word(reg, reg)),
        optimized(TextInstr::MOV(reg, reg).words()) == Seq::<u16>::empty(),
{
    move_word_layout(reg, reg);
    let words = TextInstr::MOV(reg, reg).words();
    assert(words.last() == move_word(reg, reg));
    assert(words.drop_last() == Seq::<u16>::empty());
    assert(optimized(words.drop_last()) == Seq::<u16>::empty());
}

/// A move between two different registers survives optimising.
pub proof fn true_move_is_kept(dest: Reg, src: Reg)
    requires
        dest != src,
    ensures
        optimized(TextInstr::MOV(dest, src).words()) == TextInstr::MOV(dest, src).words(),
{
    move_word_layout(dest, src);
    let words = TextInstr::MOV(dest, src).words();
    assert(words.last() == move_word(dest, src));
    assert(words.drop_last() == Seq::<u16>::empty());
    assert(optimized(words.drop_last()) == Seq::<u16>::empty());
    assert(Seq::<u16>::empty().push(move_word(dest, src)) == words);
}

/// Every instruction takes at least one word, and as many as its kind
/// fixes.
pub proof fn words_are_counted(instr: TextInstr)
    ensures
        instr.words().len() == instr.word_count(),
        instr.word_count() >= 1,
{
}

} // verus!
