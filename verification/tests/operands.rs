use dbasm::instr::{BoolVal, ParseAble, RAMAddr, Reg, Val};
use dbasm::number::parse_decimal;
use dbasm::ParseError;

fn chars(s: &str) -> Vec<char> {
    s.chars().collect()
}

#[test]
fn symbolic_and_numeric_names_agree() {
    let pairs = [
        ("rz", "r0", Reg::ZERO, 0u16),
        ("ra", "r1", Reg::AluA, 1),
        ("rb", "r2", Reg::AluB, 2),
        ("ro", "r3", Reg::AluOut, 3),
        ("rf", "r4", Reg::FLAGS, 4),
        ("rbx", "r5", Reg::BASE, 5),
        ("rg1", "r6", Reg::GPR1, 6),
        ("rg2", "r7", Reg::GPR2, 7),
    ];
    for (symbolic, numeric, reg, address) in pairs {
        let by_symbol = Reg::from_str(symbolic).unwrap();
        let by_number = Reg::from_str(numeric).unwrap();
        assert_eq!(by_symbol, reg);
        assert_eq!(by_number, reg);
        assert_eq!(by_symbol.to_code(), address);
        assert_eq!(by_number.to_code(), address);
        assert_eq!(reg.addr(), address);
    }
}

#[test]
fn register_addresses_are_distinct() {
    let all = [
        Reg::ZERO,
        Reg::AluA,
        Reg::AluB,
        Reg::AluOut,
        Reg::FLAGS,
        Reg::BASE,
        Reg::GPR1,
        Reg::GPR2,
    ];
    for (i, a) in all.iter().enumerate() {
        assert_eq!(a.to_code(), i as u16);
        for (j, b) in all.iter().enumerate() {
            assert_eq!(a.to_code() == b.to_code(), i == j);
        }
    }
}

#[test]
fn register_names_are_taken_as_written() {
    for name in ["R1", "RA", "Rz", "rA", "rBX", "RG1"] {
        assert_eq!(Reg::from_str(name), Err(ParseError::InvalidRegister));
    }
}

#[test]
fn unknown_register_names_are_refused() {
    for name in ["", "r", "r8", "r9", "r10", "rx", "rg", "rg3", "rb1", "r 1", " r1", "r1 ", "1", "ax"] {
        assert_eq!(Reg::from_str(name), Err(ParseError::InvalidRegister));
    }
}

#[test]
fn register_from_chars_reads_what_from_str_reads() {
    for name in ["rz", "r7", "rbx", "nope", ""] {
        assert_eq!(Reg::from_chars(&chars(name)), Reg::from_str(name));
    }
}

#[test]
fn addresses_are_decimal_numerals() {
    assert_eq!(RAMAddr::from_str("0"), Ok(RAMAddr(0)));
    assert_eq!(RAMAddr::from_str("7"), Ok(RAMAddr(7)));
    assert_eq!(RAMAddr::from_str("255"), Ok(RAMAddr(255)));
    assert_eq!(RAMAddr::from_str("256"), Ok(RAMAddr(256)));
    assert_eq!(RAMAddr::from_str("65536"), Ok(RAMAddr(65536)));
    assert_eq!(RAMAddr::from_str("007"), Ok(RAMAddr(7)));
    assert_eq!(RAMAddr::from_str("+12"), Ok(RAMAddr(12)));
}

#[test]
fn addresses_go_up_to_the_largest_machine_word() {
    let largest = usize::MAX.to_string();
    assert_eq!(RAMAddr::from_str(&largest), Ok(RAMAddr(usize::MAX)));
    let mut beyond = largest.clone();
    beyond.push('0');
    assert_eq!(RAMAddr::from_str(&beyond), Err(ParseError::InvalidNumber));
    let mut one_more: Vec<char> = largest.chars().collect();
    let last = one_more.len() - 1;
    one_more[last] = char::from_digit(one_more[last].to_digit(10).unwrap() + 1, 10).unwrap();
    let one_more: String = one_more.into_iter().collect();
    assert_eq!(RAMAddr::from_str(&one_more), Err(ParseError::InvalidNumber));
}

#[test]
fn what_is_no_numeral_is_refused() {
    for text in ["", "+", "-", "-1", "+-1", "++1", "1+", "1_000", "0x10", "12a", "a12", " 1", "1 ", "1.0", "١٢"] {
        assert_eq!(RAMAddr::from_str(text), Err(ParseError::InvalidNumber));
        assert_eq!(Val::from_str(text), Err(ParseError::InvalidNumber));
        assert_eq!(BoolVal::from_str(text), Err(ParseError::InvalidNumber));
    }
}

#[test]
fn address_code_is_its_low_sixteen_bits() {
    assert_eq!(RAMAddr(0).to_code(), 0);
    assert_eq!(RAMAddr(255).to_code(), 255);
    assert_eq!(RAMAddr(65535).to_code(), 65535);
    assert_eq!(RAMAddr(65536).to_code(), 0);
    assert_eq!(RAMAddr(65536 + 300).to_code(), 300);
}

#[test]
fn values_fit_sixteen_bits() {
    assert_eq!(Val::from_str("0"), Ok(Val(0)));
    assert_eq!(Val::from_str("1"), Ok(Val(1)));
    assert_eq!(Val::from_str("65535"), Ok(Val(65535)));
    assert_eq!(Val::from_str("+65535"), Ok(Val(65535)));
    assert_eq!(Val::from_str("0065535"), Ok(Val(65535)));
    assert_eq!(Val::from_str("65536"), Err(ParseError::InvalidNumber));
    assert_eq!(Val::from_str("99999999999999999999999999"), Err(ParseError::InvalidNumber));
    assert_eq!(Val(1234).to_code(), 1234);
    assert_eq!(Val(65535).to_code(), 65535);
}

#[test]
fn flags_are_true_above_zero() {
    assert_eq!(BoolVal::from_str("0"), Ok(BoolVal(false)));
    assert_eq!(BoolVal::from_str("00"), Ok(BoolVal(false)));
    assert_eq!(BoolVal::from_str("+0"), Ok(BoolVal(false)));
    assert_eq!(BoolVal::from_str("1"), Ok(BoolVal(true)));
    assert_eq!(BoolVal::from_str("2"), Ok(BoolVal(true)));
    assert_eq!(BoolVal::from_str("255"), Ok(BoolVal(true)));
    assert_eq!(BoolVal::from_str("256"), Err(ParseError::InvalidNumber));
    assert_eq!(BoolVal(true).to_code(), 1);
    assert_eq!(BoolVal(false).to_code(), 0);
}

#[test]
fn operands_from_chars_read_what_from_str_reads() {
    for text in ["0", "1", "255", "256", "65535", "65536", "x", ""] {
        assert_eq!(RAMAddr::from_chars(&chars(text)), RAMAddr::from_str(text));
        assert_eq!(Val::from_chars(&chars(text)), Val::from_str(text));
        assert_eq!(BoolVal::from_chars(&chars(text)), BoolVal::from_str(text));
    }
}

#[test]
fn decimal_numerals_are_held_to_their_limit() {
    assert_eq!(parse_decimal(&chars("0"), 0), Some(0));
    assert_eq!(parse_decimal(&chars("1"), 0), None);
    assert_eq!(parse_decimal(&chars("10"), 10), Some(10));
    assert_eq!(parse_decimal(&chars("11"), 10), None);
    assert_eq!(parse_decimal(&chars("109"), 10), None);
    assert_eq!(parse_decimal(&chars("4096"), 5000), Some(4096));
    assert_eq!(parse_decimal(&chars("+4096"), 5000), Some(4096));
    assert_eq!(parse_decimal(&chars("40x6"), 5000), None);
    assert_eq!(parse_decimal(&chars("99999x"), 5000), None);
    assert_eq!(parse_decimal(&chars(""), 5000), None);
    assert_eq!(parse_decimal(&chars("+"), 5000), None);
}
