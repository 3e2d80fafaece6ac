use dbasm::instr::{BoolVal, Mnemonic, RAMAddr, Reg, Val};
use dbasm::{ParseError, TextInstr};

fn unknown(command: &str) -> Result<TextInstr, ParseError> {
    Err(ParseError::UnknownInstruction(command.to_string()))
}

fn chars(s: &str) -> Vec<char> {
    s.chars().collect()
}

#[test]
fn operations_on_two_inputs_take_three_registers() {
    let (a, b, d) = (Reg::GPR1, Reg::GPR2, Reg::BASE);
    assert_eq!(TextInstr::from_str("SHL r6, r7, r5"), Ok(TextInstr::SHL(a, b, d)));
    assert_eq!(TextInstr::from_str("SHR r6, r7, r5"), Ok(TextInstr::SHR(a, b, d)));
    assert_eq!(TextInstr::from_str("AND r6, r7, r5"), Ok(TextInstr::AND(a, b, d)));
    assert_eq!(TextInstr::from_str("XOR r6, r7, r5"), Ok(TextInstr::XOR(a, b, d)));
    assert_eq!(TextInstr::from_str("OR r6, r7, r5"), Ok(TextInstr::OR(a, b, d)));
    assert_eq!(TextInstr::from_str("ADD r6, r7, r5"), Ok(TextInstr::ADD(a, b, d)));
    assert_eq!(TextInstr::from_str("SUB r6, r7, r5"), Ok(TextInstr::SUB(a, b, d)));
}

#[test]
fn operations_on_one_input_take_two_registers() {
    assert_eq!(TextInstr::from_str("NOT rg1, rg2"), Ok(TextInstr::NOT(Reg::GPR1, Reg::GPR2)));
    assert_eq!(TextInstr::from_str("INC rg1, rg2"), Ok(TextInstr::INC(Reg::GPR1, Reg::GPR2)));
    assert_eq!(TextInstr::from_str("DEC rg1, rg2"), Ok(TextInstr::DEC(Reg::GPR1, Reg::GPR2)));
}

#[test]
fn storage_instructions_take_two_operands() {
    assert_eq!(TextInstr::from_str("STR 10, r6"), Ok(TextInstr::STR(RAMAddr(10), Reg::GPR1)));
    assert_eq!(TextInstr::from_str("LDR r7, 300"), Ok(TextInstr::LDR(Reg::GPR2, RAMAddr(300))));
    assert_eq!(TextInstr::from_str("LDI rbx, 65535"), Ok(TextInstr::LDI(Reg::BASE, Val(65535))));
    assert_eq!(TextInstr::from_str("MOV rz, rf"), Ok(TextInstr::MOV(Reg::ZERO, Reg::FLAGS)));
}

#[test]
fn jumps_take_two_or_four_operands() {
    assert_eq!(TextInstr::from_str("JMP 1, 12"), Ok(TextInstr::JMP(BoolVal(true), Val(12))));
    assert_eq!(TextInstr::from_str("JMP 0, 12"), Ok(TextInstr::JMP(BoolVal(false), Val(12))));
    assert_eq!(
        TextInstr::from_str("JG 1, 5, r6, r7"),
        Ok(TextInstr::JG(BoolVal(true), Val(5), Reg::GPR1, Reg::GPR2))
    );
    assert_eq!(
        TextInstr::from_str("JL 0, 6, r7, r6"),
        Ok(TextInstr::JL(BoolVal(false), Val(6), Reg::GPR2, Reg::GPR1))
    );
    assert_eq!(
        TextInstr::from_str("JE 2, 7, rz, rbx"),
        Ok(TextInstr::JE(BoolVal(true), Val(7), Reg::ZERO, Reg::BASE))
    );
}

#[test]
fn compare_and_halt() {
    assert_eq!(TextInstr::from_str("CMP r6, r7"), Ok(TextInstr::CMP(Reg::GPR1, Reg::GPR2)));
    assert_eq!(TextInstr::from_str("HALT"), Ok(TextInstr::HALT));
}

#[test]
fn longer_names_mean_the_same() {
    assert_eq!(TextInstr::from_str("STORE 1, r6"), TextInstr::from_str("STR 1, r6"));
    assert_eq!(TextInstr::from_str("LOAD r6, 1"), TextInstr::from_str("LDR r6, 1"));
    assert_eq!(TextInstr::from_str("MOVE r6, r7"), TextInstr::from_str("MOV r6, r7"));
    assert_eq!(TextInstr::from_str("BREAK"), TextInstr::from_str("HALT"));
    assert_eq!(TextInstr::from_str("store 1, r6"), Ok(TextInstr::STR(RAMAddr(1), Reg::GPR1)));
    assert_eq!(TextInstr::from_str("load r6, 1"), Ok(TextInstr::LDR(Reg::GPR1, RAMAddr(1))));
    assert_eq!(TextInstr::from_str("move r6, r7"), Ok(TextInstr::MOV(Reg::GPR1, Reg::GPR2)));
    assert_eq!(TextInstr::from_str("break"), Ok(TextInstr::HALT));
}

#[test]
fn mnemonics_are_read_in_any_case() {
    for line in ["ADD r1, r2, r3", "add r1, r2, r3", "Add r1, r2, r3", "aDd r1, r2, r3"] {
        assert_eq!(
            TextInstr::from_str(line),
            Ok(TextInstr::ADD(Reg::AluA, Reg::AluB, Reg::AluOut))
        );
    }
    assert_eq!(TextInstr::from_str("hAlT"), Ok(TextInstr::HALT));
    assert_eq!(TextInstr::from_str("Break"), Ok(TextInstr::HALT));
}

#[test]
fn only_ascii_letters_are_folded() {
    assert_eq!(TextInstr::from_str("\u{17F}hl r1, r2, r3"), unknown("\u{17F}hl"));
    assert_eq!(TextInstr::from_str("\u{212A}"), unknown("\u{212A}"));
}

#[test]
fn every_mnemonic_is_recognized() {
    let names = [
        ("SHL", Mnemonic::SHL),
        ("SHR", Mnemonic::SHR),
        ("AND", Mnemonic::AND),
        ("NOT", Mnemonic::NOT),
        ("XOR", Mnemonic::XOR),
        ("OR", Mnemonic::OR),
        ("ADD", Mnemonic::ADD),
        ("SUB", Mnemonic::SUB),
        ("INC", Mnemonic::INC),
        ("DEC", Mnemonic::DEC),
        ("STR", Mnemonic::STR),
        ("STORE", Mnemonic::STR),
        ("LDR", Mnemonic::LDR),
        ("LOAD", Mnemonic::LDR),
        ("LDI", Mnemonic::LDI),
        ("MOV", Mnemonic::MOV),
        ("MOVE", Mnemonic::MOV),
        ("JMP", Mnemonic::JMP),
        ("JG", Mnemonic::JG),
        ("JL", Mnemonic::JL),
        ("JE", Mnemonic::JE),
        ("CMP", Mnemonic::CMP),
        ("HALT", Mnemonic::HALT),
        ("BREAK", Mnemonic::HALT),
    ];
    for (name, mnemonic) in names {
        assert_eq!(Mnemonic::recognize(&chars(name)), Some(mnemonic));
        assert_eq!(Mnemonic::recognize(&chars(&name.to_lowercase())), Some(mnemonic));
    }
    for name in ["", "AD", "ADDD", "HLT", "STO", "MOVES", "J", "JGE", "NOP"] {
        assert_eq!(Mnemonic::recognize(&chars(name)), None);
    }
}

#[test]
fn commas_and_white_space_part_tokens() {
    let expected = Ok(TextInstr::ADD(Reg::AluA, Reg::AluB, Reg::AluOut));
    assert_eq!(TextInstr::from_str("ADD r1 r2 r3"), expected);
    assert_eq!(TextInstr::from_str("ADD,r1,r2,r3"), expected);
    assert_eq!(TextInstr::from_str("  ADD\tr1 ,, r2 ,\t r3  "), expected);
    assert_eq!(TextInstr::from_str(",ADD r1,r2,r3,"), expected);
    assert_eq!(TextInstr::from_str("ADD\u{A0}r1\u{2003}r2\u{3000}r3\r"), expected);
}

#[test]
fn tokens_behind_the_last_operand_are_not_looked_at() {
    assert_eq!(TextInstr::from_str("HALT now please"), Ok(TextInstr::HALT));
    assert_eq!(TextInstr::from_str("MOV r6, r7, r99"), Ok(TextInstr::MOV(Reg::GPR1, Reg::GPR2)));
    assert_eq!(TextInstr::from_str("JMP 1, 2 ; go on"), Ok(TextInstr::JMP(BoolVal(true), Val(2))));
}

#[test]
fn the_same_register_may_stand_twice() {
    assert_eq!(TextInstr::from_str("MOV r1, r1"), Ok(TextInstr::MOV(Reg::AluA, Reg::AluA)));
    assert_eq!(
        TextInstr::from_str("ADD r6, r6, r6"),
        Ok(TextInstr::ADD(Reg::GPR1, Reg::GPR1, Reg::GPR1))
    );
}

#[test]
fn unknown_mnemonic_is_given_back_as_written() {
    assert_eq!(TextInstr::from_str("FOO r1, r2"), unknown("FOO"));
    assert_eq!(TextInstr::from_str("  foo,r1"), unknown("foo"));
    assert_eq!(TextInstr::from_str("Nop"), unknown("Nop"));
    assert_eq!(TextInstr::from_str("r1 ADD r2"), unknown("r1"));
    assert_eq!(TextInstr::from_str("ADD: r1 r2 r3"), unknown("ADD:"));
    assert_eq!(TextInstr::from_str("h\u{E4}lt"), unknown("h\u{E4}lt"));
}

#[test]
fn a_line_without_tokens_names_nothing() {
    assert_eq!(TextInstr::from_str(""), unknown(""));
    assert_eq!(TextInstr::from_str("   "), unknown(""));
    assert_eq!(TextInstr::from_str(",,,"), unknown(""));
    assert_eq!(TextInstr::from_str(" , \t, "), unknown(""));
}

#[test]
fn a_missing_operand_is_reported() {
    for line in [
        "ADD", "ADD r1", "ADD r1, r2", "SHL r1 r2", "NOT", "NOT r1", "INC r1", "DEC", "STR",
        "STR 1", "LDR r1", "LDI r1", "MOV", "MOV r1", "JMP", "JMP 1", "JG 1, 2", "JG 1, 2, r1",
        "JL 1", "JE", "CMP r1", "CMP",
    ] {
        assert_eq!(TextInstr::from_str(line), Err(ParseError::MissingOperand), "{}", line);
    }
}

#[test]
fn a_bad_register_is_reported() {
    for line in ["ADD r1, r2, r8", "ADD x, r2, r3", "NOT r1, 5", "STR 1, 2", "LDR 1, 2", "LDI 1, 2",
        "MOV R1, r2", "JG 1, 2, r1, q", "CMP r1, rr"]
    {
        assert_eq!(TextInstr::from_str(line), Err(ParseError::InvalidRegister), "{}", line);
    }
}

#[test]
fn a_bad_number_is_reported() {
    for line in ["STR r1, r2", "LDR r1, r2", "LDI r1, 65536", "LDI r1, -1", "JMP x, 1", "JMP 256, 1",
        "JMP 1, 65536", "JG 1, 1x, r1, r2", "JE r1, r2, 1, 2"]
    {
        assert_eq!(TextInstr::from_str(line), Err(ParseError::InvalidNumber), "{}", line);
    }
}

#[test]
fn the_first_failure_from_the_left_is_reported() {
    assert_eq!(TextInstr::from_str("MOV rX"), Err(ParseError::InvalidRegister));
    assert_eq!(TextInstr::from_str("ADD r1, bad"), Err(ParseError::InvalidRegister));
    assert_eq!(TextInstr::from_str("STR x"), Err(ParseError::InvalidNumber));
    assert_eq!(TextInstr::from_str("STR x, y"), Err(ParseError::InvalidNumber));
    assert_eq!(TextInstr::from_str("STR 1, y"), Err(ParseError::InvalidRegister));
    assert_eq!(TextInstr::from_str("LDR y, x"), Err(ParseError::InvalidRegister));
    assert_eq!(TextInstr::from_str("JG 1, 2, bad"), Err(ParseError::InvalidRegister));
    assert_eq!(TextInstr::from_str("JG 1, bad"), Err(ParseError::InvalidNumber));
    assert_eq!(TextInstr::from_str("FOO"), unknown("FOO"));
}
