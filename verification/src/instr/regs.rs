//! The eight registers of the machine.

use vstd::prelude::*;
use crate::error::{Failure, ParseError, yields};
use crate::instr::ParseAble;
use crate::text::{chars_of, same_text};

verus! {

/// A register. Each has one address and two names: a symbolic one and a
/// numeric one, `r` followed by the address.
#[derive(Debug, Clone, Copy, PartialEq, Eq, Hash, Structural)]
pub enum Reg {
    /// Always reads as zero.
    ZERO,
    /// First input of the ALU.
    AluA,
    /// Second input of the ALU.
    AluB,
    /// Output of the ALU.
    AluOut,
    /// Outcome of the last comparison.
    FLAGS,
    /// Base register.
    BASE,
    /// First general-purpose register.
    GPR1,
    /// Second general-purpose register.
    GPR2,
}

impl Reg {
    /// The address of the register, a number from 0 to 7.
    pub open spec fn address(self) -> u16 {
        match self {
            Reg::ZERO => 0,
            Reg::AluA => 1,
            Reg::AluB => 2,
            Reg::AluOut => 3,
            Reg::FLAGS => 4,
            Reg::BASE => 5,
            Reg::GPR1 => 6,
            Reg::GPR2 => 7,
        }
    }

    /// The symbolic name of the register.
    pub open spec fn symbolic_name(self) -> Seq<char> {
        match self {
            Reg::ZERO => "rz"@,
            Reg::AluA => "ra"@,
            Reg::AluB => "rb"@,
            Reg::AluOut => "ro"@,
            Reg::FLAGS => "rf"@,
            Reg::BASE => "rbx"@,
            Reg::GPR1 => "rg1"@,
            Reg::GPR2 => "rg2"@,
        }
    }

    /// The numeric name of the register.
    pub open spec fn numeric_name(self) -> Seq<char> {
        match self {
            Reg::ZERO => "r0"@,
            Reg::AluA => "r1"@,
            Reg::AluB => "r2"@,
            Reg::AluOut => "r3"@,
            Reg::FLAGS => "r4"@,
            Reg::BASE => "r5"@,
            Reg::GPR1 => "r6"@,
            Reg::GPR2 => "r7"@,
        }
    }

    /// Tells whether `name` is one of the two names of this register. Names
    /// are taken as written: no letter is folded.
    pub open spec fn is_called(self, name: Seq<char>) -> bool {
        name == self.symbolic_name() || name == self.numeric_name()
    }

    /// The register that `name` names, if it names one.
    pub open spec fn named(name: Seq<char>) -> Option<Reg> {
        if Reg::ZERO.is_called(name) {
            Some(Reg::ZERO)
        } else if Reg::AluA.is_called(name) {
            Some(Reg::AluA)
        } else if Reg::AluB.is_called(name) {
            Some(Reg::AluB)
        } else if Reg::AluOut.is_called(name) {
            Some(Reg::AluOut)
        } else if Reg::FLAGS.is_called(name) {
            Some(Reg::FLAGS)
        } else if Reg::BASE.is_called(name) {
            Some(Reg::BASE)
        } else if Reg::GPR1.is_called(name) {
            Some(Reg::GPR1)
        } else if Reg::GPR2.is_called(name) {
            Some(Reg::GPR2)
        } else {
            None
        }
    }

    /// What a register token stands for.
    pub open spec fn read(token: Seq<char>) -> Result<Reg, Failure> {
        match Reg::named(token) {
            Some(reg) => Ok(reg),
            None => Err(Failure::InvalidRegister),
        }
    }

    /// Reads a register from a token.
    pub fn from_chars(token: &[char]) -> (outcome: Result<Reg, ParseError>)
        ensures
            yields(outcome, Reg::read(token@)),
    {
        if same_text(token, "rz") || same_text(token, "r0") {
            Ok(Reg::ZERO)
        } else if same_text(token, "ra") || same_text(token, "r1") {
            Ok(Reg::AluA)
        } else if same_text(token, "rb") || same_text(token, "r2") {
            Ok(Reg::AluB)
        } else if same_text(token, "ro") || same_text(token, "r3") {
            Ok(Reg::AluOut)
        } else if same_text(token, "rf") || same_text(token, "r4") {
            Ok(Reg::FLAGS)
        } else if same_text(token, "rbx") || same_text(token, "r5") {
            Ok(Reg::BASE)
        } else if same_text(token, "rg1") || same_text(token, "r6") {
            Ok(Reg::GPR1)
        } else if same_text(token, "rg2") || same_text(token, "r7") {
            Ok(Reg::GPR2)
        } else {
            Err(ParseError::InvalidRegister)
        }
    }

    /// The address of the register.
    pub fn addr(&self) -> (address: u16)
        ensures
            address == self.address(),
            address <= 7,
    {
        match self {
            Reg::ZERO => 0,
            Reg::AluA => 1,
            Reg::AluB => 2,
            Reg::AluOut => 3,
            Reg::FLAGS => 4,
            Reg::BASE => 5,
            Reg::GPR1 => 6,
            Reg::GPR2 => 7,
        }
    }
}

/// Makes the spelling of the sixteen register names known.
pub proof fn register_names_spelled()
    ensures
        "rz"@ == seq!['r', 'z'],
        "ra"@ == seq!['r', 'a'],
        "rb"@ == seq!['r', 'b'],
        "ro"@ == seq!['r', 'o'],
        "rf"@ == seq!['r', 'f'],
        "rbx"@ == seq!['r', 'b', 'x'],
        "rg1"@ == seq!['r', 'g', '1'],
        "rg2"@ == seq!['r', 'g', '2'],
        "r0"@ == seq!['r', '0'],
        "r1"@ == seq!['r', '1'],
        "r2"@ == seq!['r', '2'],
        "r3"@ == seq!['r', '3'],
        "r4"@ == seq!['r', '4'],
        "r5"@ == seq!['r', '5'],
        "r6"@ == seq!['r', '6'],
        "r7"@ == seq!['r', '7'],
{
    reveal_strlit("rz");
    reveal_strlit("ra");
    reveal_strlit("rb");
    reveal_strlit("ro");
    reveal_strlit("rf");
    reveal_strlit("rbx");
    reveal_strlit("rg1");
    reveal_strlit("rg2");
    reveal_strlit("r0");
    reveal_strlit("r1");
    reveal_strlit("r2");
    reveal_strlit("r3");
    reveal_strlit("r4");
    reveal_strlit("r5");
    reveal_strlit("r6");
    reveal_strlit("r7");
    assert("rz"@ =~= seq!['r', 'z']);
    assert("ra"@ =~= seq!['r', 'a']);
    assert("rb"@ =~= seq!['r', 'b']);
    assert("ro"@ =~= seq!['r', 'o']);
    assert("rf"@ =~= seq!['r', 'f']);
    assert("rbx"@ =~= seq!['r', 'b', 'x']);
    assert("rg1"@ =~= seq!['r', 'g', '1']);
    assert("rg2"@ =~= seq!['r', 'g', '2']);
    assert("r0"@ =~= seq!['r', '0']);
    assert("r1"@ =~= seq!['r', '1']);
    assert("r2"@ =~= seq!['r', '2']);
    assert("r3"@ =~= seq!['r', '3']);
    assert("r4"@ =~= seq!['r', '4']);
    assert("r5"@ =~= seq!['r', '5']);
    assert("r6"@ =~= seq!['r', '6']);
    assert("r7"@ =~= seq!['r', '7']);
}

/// The two names of a register, the symbolic and the numeric, are read as
/// that same register, and so as the same address.
pub proof fn both_names_give_the_register(reg: Reg)
    ensures
        Reg::read(reg.symbolic_name()) == Ok::<Reg, Failure>(reg),
        Reg::read(reg.numeric_name()) == Ok::<Reg, Failure>(reg),
        Reg::read(reg.symbolic_name())->Ok_0.address() == Reg::read(
            reg.numeric_name(),
        )->Ok_0.address(),
{
    register_names_spelled();
    let symbolic = reg.symbolic_name();
    let numeric = reg.numeric_name();
    assert(reg.is_called(symbolic));
    assert(reg.is_called(numeric));
    assert forall|other: Reg| other != reg implies !other.is_called(symbolic) && !other.is_called(
        numeric,
    ) by {
        distinct_names(symbolic);
        distinct_names(numeric);
    }
}

/// A name names at most one register: a token is read as `reg` exactly
/// when it is one of the two names of `reg`.
pub proof fn read_by_own_names_only(token: Seq<char>, reg: Reg)
    ensures
        Reg::read(token) == Ok::<Reg, Failure>(reg) <==> reg.is_called(token),
        Reg::read(token) is Err <==> forall|other: Reg| !other.is_called(token),
        Reg::read(token) is Err ==> Reg::read(token) == Err::<Reg, Failure>(
            Failure::InvalidRegister,
        ),
{
    register_names_spelled();
    distinct_names(token);
}

/// No two registers share a name.
proof fn distinct_names(name: Seq<char>)
    ensures
        forall|a: Reg, b: Reg| a.is_called(name) && b.is_called(name) ==> a == b,
{
    register_names_spelled();
    assert forall|a: Reg, b: Reg| a.is_called(name) && b.is_called(name) implies a == b by {
        if a != b {
            assert(name.len() >= 2);
            let x = name[1];
            if name.len() == 3 {
                let y = name[2];
            }
        }
    }
}

/// The address is a number from 0 to 7, and no two registers share one.
pub proof fn address_tells_registers_apart(a: Reg, b: Reg)
    ensures
        0 <= a.address() <= 7,
        a.address() == b.address() <==> a == b,
{
}

/// The numeric name of a register is the letter `r` and the digit of its
/// address.
pub proof fn numeric_name_holds_address(reg: Reg)
    ensures
        reg.numeric_name().len() == 2,
        reg.numeric_name()[0] == 'r',
        reg.numeric_name()[1] as int == '0' as int + reg.address(),
{
    register_names_spelled();
}

impl ParseAble for Reg {
    open spec fn parsed(text: Seq<char>) -> Result<Reg, Failure> {
        Reg::read(text)
    }

    open spec fn code(&self) -> u16 {
        self.address()
    }

    fn from_str(text: &str) -> (outcome: Result<Reg, ParseError>) {
        let chars = chars_of(text);
        Reg::from_chars(chars.as_slice())
    }

    fn to_code(&self) -> (code: u16) {
        self.addr()
    }
}

} // verus!
