use lc3simlib::simulator::reader::{key_outcome, KeyInput, ReadOutcome};
use lc3simlib::simulator::{HaltReason, Reader, Simulator, Tracer, Writer};

const KBSR: u16 = 0xFE00;
const KBDR: u16 = 0xFE02;
const DSR: u16 = 0xFE04;
const DDR: u16 = 0xFE06;
const CLK: u16 = 0xFFFE;

fn file_machine(input: Vec<u8>) -> Simulator {
    Simulator::new(
        Reader::from_bytes(input),
        Writer::to_buffer(),
        Tracer::NoTrace,
    )
}

fn output_of(sim: &Simulator) -> &[u8] {
    match &sim.display {
        Writer::OutFile(bytes) => bytes.as_slice(),
        Writer::Terminal => panic!("expected a buffered writer"),
    }
}

#[test]
fn key_outcome_maps_keys_to_bytes_and_escape_to_cancellation() {
    assert_eq!(key_outcome(KeyInput::Character(0x41)), ReadOutcome::Byte(0x41));
    assert_eq!(key_outcome(KeyInput::Escape), ReadOutcome::Cancelled);
    assert_eq!(key_outcome(KeyInput::ArrowLeft), ReadOutcome::Byte(b'a'));
    assert_eq!(key_outcome(KeyInput::ArrowUp), ReadOutcome::Byte(b'w'));
    assert_eq!(key_outcome(KeyInput::ArrowDown), ReadOutcome::Byte(b's'));
    assert_eq!(key_outcome(KeyInput::ArrowRight), ReadOutcome::Byte(b'd'));
    assert_eq!(key_outcome(KeyInput::Other), ReadOutcome::Empty);
}

#[test]
fn reader_hands_out_file_bytes_in_order() {
    let mut reader = Reader::from_bytes(vec![0x32, 0x33]);
    assert_eq!(reader.read(), ReadOutcome::Byte(0x32));
    assert_eq!(reader.read(), ReadOutcome::Byte(0x33));
    assert_eq!(reader.read(), ReadOutcome::Exhausted);
    assert_eq!(reader.read(), ReadOutcome::Exhausted);
}

#[test]
fn kbsr_read_latches_byte_and_reports_ready() {
    let mut sim = file_machine(vec![0x32, 0x33]);
    assert_eq!(sim.read_memory(KBSR), 0x8000);
    assert_eq!(sim.read_memory(KBDR), 0x32);
}

#[test]
fn second_kbsr_read_consumes_the_next_byte_not_a_duplicate() {
    let mut sim = file_machine(vec![0x32, 0x33]);
    assert_eq!(sim.read_memory(KBSR), 0x8000);
    assert_eq!(sim.read_memory(KBSR), 0x8000);
    assert_eq!(sim.read_memory(KBDR), 0x33);
}

#[test]
fn kbsr_read_past_the_end_halts_the_machine() {
    let mut sim = file_machine(vec![0x32]);
    assert_eq!(sim.read_memory(KBSR), 0x8000);
    assert_eq!(sim.read_memory(KBSR), 0);
    assert_eq!(sim.read_memory(CLK) & 0x8000, 0);
    assert_eq!(sim.halt_reason, Some(HaltReason::InputExhausted));
}

#[test]
fn ddr_write_forwards_the_byte_and_sets_dsr_ready() {
    let mut sim = file_machine(Vec::new());
    sim.write_memory(DDR, 0x41);
    assert_eq!(output_of(&sim), b"A");
    assert_eq!(sim.read_memory(DSR), 0x8000);
}

#[test]
fn ddr_write_of_line_feed_prefixes_a_carriage_return() {
    let mut sim = file_machine(Vec::new());
    sim.write_memory(DDR, 0x0A);
    assert_eq!(output_of(&sim), b"\r\n");
}

#[test]
fn ddr_write_keeps_only_the_low_byte() {
    let mut sim = file_machine(Vec::new());
    sim.write_memory(DDR, 0x1241);
    assert_eq!(output_of(&sim), b"A");
}

#[test]
fn ddr_always_reads_zero() {
    let mut sim = file_machine(Vec::new());
    sim.write_memory(DDR, 0x41);
    assert_eq!(sim.read_memory(DDR), 0);
}

#[test]
fn kbdr_and_dsr_ignore_direct_writes() {
    let mut sim = file_machine(Vec::new());
    let dsr_before = sim.read_memory(DSR);
    sim.write_memory(KBDR, 0x1234);
    sim.write_memory(DSR, 0x4321);
    assert_eq!(sim.read_memory(KBDR), 0);
    assert_eq!(sim.read_memory(DSR), dsr_before);
}

#[test]
fn clock_register_is_plain_storage_and_starts_ready() {
    let mut sim = file_machine(Vec::new());
    assert_eq!(sim.read_memory(CLK), 0x8000);
    sim.write_memory(CLK, 0);
    assert_eq!(sim.read_memory(CLK), 0);
}

#[test]
fn ordinary_memory_stores_and_returns_words() {
    let mut sim = file_machine(Vec::new());
    sim.write_memory(0x3000, 0xBEEF);
    sim.write_memory(0xFFFF, 0x1234);
    sim.write_memory(0x0000, 0x5678);
    assert_eq!(sim.read_memory(0x3000), 0xBEEF);
    assert_eq!(sim.read_memory(0xFFFF), 0x1234);
    assert_eq!(sim.read_memory(0x0000), 0x5678);
}

#[test]
fn write_register_sets_the_condition_code() {
    let mut sim = file_machine(Vec::new());
    sim.write_register(0, 0);
    assert_eq!(sim.cc, 0b010);
    sim.write_register(0, 5);
    assert_eq!(sim.cc, 0b001);
    sim.write_register(0, 0x8000);
    assert_eq!(sim.cc, 0b100);
    sim.write_register(0, 0xFFFF);
    assert_eq!(sim.cc, 0b100);
    assert_eq!(sim.registers[0], 0xFFFF);
}
