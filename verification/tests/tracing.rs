use lc3simlib::simulator::tracer::{instruction_mask, valid_instruction};
use lc3simlib::simulator::{Branch, Predictor, Reader, Simulator, Tracer, Writer};

fn image(origin: u16, words: &[u16]) -> Vec<u8> {
    let mut bytes = vec![(origin >> 8) as u8, origin as u8];
    for w in words {
        bytes.push((w >> 8) as u8);
        bytes.push(*w as u8);
    }
    bytes
}

#[test]
fn user_only_tracer_wants_add_in_user_space_only() {
    let tracer = Tracer::TraceFile(String::new(), 0x2, true);
    assert!(tracer.wants(0x1, 0x3010));
    assert!(!tracer.wants(0x1, 0x2FF0));
    assert!(!tracer.wants(0x5, 0x3010));
    assert!(!tracer.wants(0x0, 0x3010));
    assert!(!tracer.wants(0xF, 0x3010));
}

#[test]
fn unrestricted_tracer_wants_everywhere() {
    let tracer = Tracer::TraceFile(String::new(), 0xFFFF, false);
    assert!(tracer.wants(0x0, 0x0000));
    assert!(tracer.wants(0xF, 0x2FFF));
}

#[test]
fn no_trace_wants_nothing() {
    let tracer = Tracer::NoTrace;
    assert!(!tracer.wants(0x1, 0x3010));
    assert!(!tracer.wants(0xF, 0xFFFF));
}

#[test]
fn trace_appends_to_the_log_and_no_trace_discards() {
    let mut tracer = Tracer::TraceFile(String::new(), 0xFFFF, false);
    tracer.trace("one\n");
    tracer.trace("two\n");
    match &tracer {
        Tracer::TraceFile(log, _, _) => assert_eq!(log, "one\ntwo\n"),
        Tracer::NoTrace => panic!("expected an active tracer"),
    }
    let mut off = Tracer::NoTrace;
    off.trace("dropped");
    assert!(matches!(off, Tracer::NoTrace));
}

#[test]
fn valid_instruction_accepts_the_sixteen_mnemonics_in_any_case() {
    for name in [
        "BR", "ADD", "LD", "ST", "JSR", "JSRR", "AND", "LDR", "STR", "RTI", "NOT", "LDI", "STI",
        "JMP", "LEA", "TRAP",
    ] {
        assert!(valid_instruction(name.to_string()).is_ok(), "{}", name);
        assert!(
            valid_instruction(name.to_ascii_lowercase()).is_ok(),
            "{}",
            name
        );
    }
    assert!(valid_instruction("XYZ".to_string()).is_err());
    assert!(valid_instruction("ADDS".to_string()).is_err());
    assert!(valid_instruction(String::new()).is_err());
}

#[test]
fn instruction_mask_folds_mnemonic_bits_together() {
    let names = vec!["ADD".to_string(), "br".to_string()];
    assert_eq!(instruction_mask(&names), 0x3);
    let names = vec!["TRAP".to_string(), "jsrr".to_string(), "JSR".to_string()];
    assert_eq!(instruction_mask(&names), 0x8010);
    assert_eq!(instruction_mask(&Vec::new()), 0);
}

#[test]
fn traced_run_records_the_wanted_snapshot_exactly() {
    let sim = Simulator::new(
        Reader::from_bytes(Vec::new()),
        Writer::to_buffer(),
        Tracer::TraceFile(String::new(), 0x8000, false),
    );
    let sim = sim.load(&image(0x0025, &[0x0200])).unwrap();
    let sim = sim.load(&image(0x0200, &[0xB200, 0xFFFE])).unwrap();
    let sim = sim
        .load(&image(0x3000, &[0x5020, 0x1025, 0x1023, 0xF025]))
        .unwrap();
    let sim = sim.run();
    let expected = "After executing instruction: 0xF025\n\
                    Register 0: 0x0008\n\
                    Register 1: 0x0000\n\
                    Register 2: 0x0000\n\
                    Register 3: 0x0000\n\
                    Register 4: 0x0000\n\
                    Register 5: 0x0000\n\
                    Register 6: 0x0000\n\
                    Register 7: 0x3004\n\
                    Program Counter: 0x0200\n\
                    Condition Code: P\n\
                    ===================================\n";
    match &sim.tracer {
        Tracer::TraceFile(log, _, _) => assert_eq!(log, expected),
        Tracer::NoTrace => panic!("expected an active tracer"),
    }
}

#[test]
fn predictor_starts_weakly_against_taking() {
    let p = Predictor::new();
    assert!(!p.predicts_branch());
}

#[test]
fn predictor_saturates_toward_taken() {
    let p = Predictor::new();
    let p = p.transition(Branch::Taken);
    assert!(p.predicts_branch());
    let p = p.transition(Branch::Taken);
    let p = p.transition(Branch::Taken);
    assert!(matches!(p, Predictor::StronglyTaken));
    let p = p.transition(Branch::NotTaken);
    assert!(matches!(p, Predictor::Taken));
    assert!(p.predicts_branch());
}

#[test]
fn predictor_saturates_toward_not_taken() {
    let p = Predictor::new();
    let p = p.transition(Branch::NotTaken);
    let p = p.transition(Branch::NotTaken);
    assert!(matches!(p, Predictor::StronglyNotTaken));
    assert!(!p.predicts_branch());
    let p = p.transition(Branch::Taken);
    assert!(matches!(p, Predictor::NotTaken));
}

#[test]
fn jumps_and_plain_instructions_leave_the_predictor_alone() {
    let p = Predictor::new();
    let p = p.transition(Branch::Jump);
    assert!(matches!(p, Predictor::NotTaken));
    let p = p.transition(Branch::NoBranch);
    assert!(matches!(p, Predictor::NotTaken));
}
