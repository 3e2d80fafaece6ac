use dbasm::instr::Reg;
use dbasm::optim::{optimize, self_move};
use dbasm::{parse, to_code, TextInstr};

#[test]
fn a_move_onto_itself_is_dropped() {
    let words = TextInstr::from_str("MOV r1, r1").unwrap().to_code();
    assert_eq!(words.len(), 1);
    assert_eq!(optimize(words), Vec::<u16>::new());
}

#[test]
fn every_register_moved_onto_itself_is_dropped() {
    let all = [
        Reg::ZERO,
        Reg::AluA,
        Reg::AluB,
        Reg::AluOut,
        Reg::FLAGS,
        Reg::BASE,
        Reg::GPR1,
        Reg::GPR2,
    ];
    for a in all {
        for b in all {
            let words = TextInstr::MOV(a, b).to_code();
            let kept = optimize(words.clone());
            if a == b {
                assert!(kept.is_empty());
            } else {
                assert_eq!(kept, words);
            }
        }
    }
}

#[test]
fn only_moves_are_dropped() {
    let words: Vec<u16> = vec![0x0101, 0x1101, 0x2101, 0x4101, 0x5101, 0x6101, 0x7101, 0xF101];
    assert_eq!(optimize(words.clone()), words);
    assert_eq!(optimize(vec![0x3101]), Vec::<u16>::new());
}

#[test]
fn the_unused_bits_of_a_move_are_not_looked_at() {
    assert!(self_move(0x3101));
    assert!(self_move(0x31F1));
    assert!(self_move(0x3000));
    assert!(self_move(0x3FFF));
    assert!(!self_move(0x3110));
    assert!(!self_move(0x3011));
    assert!(!self_move(0x3102));
    assert!(!self_move(0x2101));
    assert_eq!(optimize(vec![0x31F1, 0x3110, 0x3011]), vec![0x3110, 0x3011]);
}

#[test]
fn surviving_words_keep_their_order() {
    let words: Vec<u16> = vec![0x5601, 0x3101, 0x3607, 0x3202, 0x0006, 0x3303, 0x3706, 0x6000, 0x3707];
    assert_eq!(optimize(words), vec![0x5601, 0x3607, 0x0006, 0x3706, 0x6000]);
}

#[test]
fn optimizing_never_lengthens() {
    let streams: Vec<Vec<u16>> = vec![
        vec![],
        vec![0x3101],
        vec![0x3102],
        vec![0x3101, 0x3101, 0x3101],
        vec![0x0006, 0x3303, 0x6000],
        (0..=0xFFFFu16).step_by(257).collect(),
    ];
    for stream in streams {
        let kept = optimize(stream.clone());
        assert!(kept.len() <= stream.len());
        let expected: Vec<u16> = stream.iter().copied().filter(|w| !self_move(*w)).collect();
        assert_eq!(kept, expected);
    }
}

#[test]
fn optimizing_twice_changes_nothing_more() {
    let streams: Vec<Vec<u16>> = vec![
        vec![],
        vec![0x3101, 0x3202, 0x0006, 0x3303],
        vec![0x3607, 0x3706],
        (0x3000..0x4000u16).collect(),
        (0..=0xFFFFu16).step_by(17).collect(),
    ];
    for stream in streams {
        let once = optimize(stream);
        let twice = optimize(once.clone());
        assert_eq!(twice, once);
    }
}

#[test]
fn staging_moves_of_the_alu_registers_fall_away() {
    let words = TextInstr::from_str("ADD r1, r2, r3").unwrap().to_code();
    assert_eq!(optimize(words), vec![0x0006]);
    let words = TextInstr::from_str("ADD r6, r2, r5").unwrap().to_code();
    assert_eq!(optimize(words), vec![0x3106, 0x0006, 0x3503]);
}

#[test]
fn a_whole_program_is_optimized() {
    let source = "; sum\nLDI r6, 1\nMOV r6, r6\nADD r6, rb, ro\nMOV r7, r6\nHALT";
    let code = to_code(parse(source.to_string()).unwrap());
    assert_eq!(code, vec![0x5601, 0x3606, 0x3106, 0x3202, 0x0006, 0x3303, 0x3706, 0x6000]);
    assert_eq!(optimize(code), vec![0x5601, 0x3106, 0x0006, 0x3706, 0x6000]);
}
