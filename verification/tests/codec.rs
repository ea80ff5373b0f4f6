use lc3simlib::simulator::instruction::sign_extend;
use lc3simlib::simulator::Instruction;

#[test]
fn decode_is_total_and_encode_round_trips_every_word() {
    for w in 0..=0xFFFFu32 {
        let word = w as u16;
        let decoded = Instruction::decode(word);
        assert_eq!(decoded.encode(), word, "word 0x{:04X}", word);
    }
}

#[test]
fn sign_extend_width_9_examples() {
    assert_eq!(sign_extend(0x1FF, 9), -1);
    assert_eq!(sign_extend(0x100, 9), -256);
    assert_eq!(sign_extend(0x0FF, 9), 255);
}

#[test]
fn sign_extend_width_5_examples() {
    assert_eq!(sign_extend(0x1F, 5), -1);
    assert_eq!(sign_extend(0x0F, 5), 15);
    assert_eq!(sign_extend(0x10, 5), -16);
    assert_eq!(sign_extend(0x00, 5), 0);
}

#[test]
fn sign_extend_width_6_examples() {
    assert_eq!(sign_extend(0x3F, 6), -1);
    assert_eq!(sign_extend(0x20, 6), -32);
    assert_eq!(sign_extend(0x1F, 6), 31);
}

#[test]
fn sign_extend_width_11_examples() {
    assert_eq!(sign_extend(0x7FF, 11), -1);
    assert_eq!(sign_extend(0x400, 11), -1024);
    assert_eq!(sign_extend(0x3FF, 11), 1023);
}

#[test]
fn sign_extend_ignores_bits_above_the_field() {
    assert_eq!(sign_extend(0xFE00, 9), 0);
    assert_eq!(sign_extend(0xFFE1, 5), 1);
}

#[test]
fn add_mode_bit_selects_immediate_or_register() {
    // Bit 5 clear: register-indexed second operand.
    match Instruction::decode(0x1042) {
        Instruction::Add(d, s1, from_register, _) => {
            assert_eq!(d, 0);
            assert_eq!(s1, 1);
            assert!(from_register);
        }
        other => panic!("expected Add, got {:?}", other),
    }
    // Bit 5 set: five-bit immediate.
    match Instruction::decode(0x107F) {
        Instruction::Add(d, s1, from_register, imm) => {
            assert_eq!(d, 0);
            assert_eq!(s1, 1);
            assert!(!from_register);
            assert_eq!(imm, -1);
        }
        other => panic!("expected Add, got {:?}", other),
    }
}

#[test]
fn and_mode_bit_selects_immediate_or_register() {
    match Instruction::decode(0x5042) {
        Instruction::And(_, _, from_register, _) => assert!(from_register),
        other => panic!("expected And, got {:?}", other),
    }
    match Instruction::decode(0x5062) {
        Instruction::And(_, _, from_register, _) => assert!(!from_register),
        other => panic!("expected And, got {:?}", other),
    }
}

#[test]
fn reserved_opcode_decodes_with_its_low_bits() {
    assert_eq!(Instruction::decode(0xDABC), Instruction::Reserved(0x0ABC));
}

#[test]
fn branches_reports_control_flow_opcodes() {
    assert!(Instruction::decode(0x0E00).branches()); // BR
    assert!(Instruction::decode(0x4000).branches()); // JSRR
    assert!(Instruction::decode(0xC1C0).branches()); // JMP
    assert!(Instruction::decode(0xF025).branches()); // TRAP
    assert!(!Instruction::decode(0x1042).branches()); // ADD
    assert!(!Instruction::decode(0x8000).branches()); // RTI
    assert!(!Instruction::decode(0xD000).branches()); // reserved
}
