use lc3simlib::simulator::{
    HaltReason, Instruction, LoadError, Reader, Simulator, Tracer, Writer,
};

const CLK: u16 = 0xFFFE;

fn image(origin: u16, words: &[u16]) -> Vec<u8> {
    let mut bytes = vec![(origin >> 8) as u8, origin as u8];
    for w in words {
        bytes.push((w >> 8) as u8);
        bytes.push(*w as u8);
    }
    bytes
}

fn file_machine(input: Vec<u8>) -> Simulator {
    Simulator::new(
        Reader::from_bytes(input),
        Writer::to_buffer(),
        Tracer::NoTrace,
    )
}

/// A one-instruction halt handler at 0x0200 reached through trap vector
/// 0x25: STI R1 (always zero in these programs) through the pointer at
/// 0x0201 into the clock register.
fn with_halt_handler(sim: Simulator) -> Simulator {
    let sim = sim.load(&image(0x0025, &[0x0200])).expect("vector");
    sim.load(&image(0x0200, &[0xB200, CLK])).expect("handler")
}

fn output_of(sim: &Simulator) -> &[u8] {
    match &sim.display {
        Writer::OutFile(bytes) => bytes.as_slice(),
        Writer::Terminal => panic!("expected a buffered writer"),
    }
}

#[test]
fn load_rejects_images_shorter_than_an_origin() {
    let sim = file_machine(Vec::new());
    assert_eq!(sim.load(&[]).err(), Some(LoadError::TooShort));
    let sim = file_machine(Vec::new());
    assert_eq!(sim.load(&[0x30]).err(), Some(LoadError::TooShort));
}

#[test]
fn load_places_words_from_the_origin_and_sets_pc() {
    let sim = file_machine(Vec::new());
    let mut sim = sim.load(&image(0x3000, &[0xAAAA, 0xBBBB])).unwrap();
    assert_eq!(sim.pc, 0x3000);
    assert_eq!(sim.read_memory(0x3000), 0xAAAA);
    assert_eq!(sim.read_memory(0x3001), 0xBBBB);
}

#[test]
fn load_with_only_an_origin_writes_nothing() {
    let sim = file_machine(Vec::new());
    let mut sim = sim.load(&[0x30, 0x00]).unwrap();
    assert_eq!(sim.pc, 0x3000);
    assert_eq!(sim.read_memory(0x3000), 0);
}

#[test]
fn load_ignores_a_trailing_odd_byte() {
    let sim = file_machine(Vec::new());
    let mut sim = sim.load(&[0x30, 0x00, 0x12, 0x34, 0x56]).unwrap();
    assert_eq!(sim.read_memory(0x3000), 0x1234);
    assert_eq!(sim.read_memory(0x3001), 0);
}

#[test]
fn load_wraps_at_the_top_of_the_address_space() {
    let sim = file_machine(Vec::new());
    let mut sim = sim.load(&image(0xFFFF, &[0x1111, 0x2222])).unwrap();
    assert_eq!(sim.read_memory(0xFFFF), 0x1111);
    assert_eq!(sim.read_memory(0x0000), 0x2222);
}

#[test]
fn later_loads_overwrite_earlier_ones() {
    let sim = file_machine(Vec::new());
    let sim = sim.with_operating_system(&image(0x3000, &[0x1111]));
    let mut sim = sim.load(&image(0x3000, &[0x2222])).unwrap();
    assert_eq!(sim.read_memory(0x3000), 0x2222);
}

#[test]
fn scenario_add_chain_leaves_eight_in_r0_with_positive_cc() {
    let sim = with_halt_handler(file_machine(Vec::new()));
    let sim = sim
        .load(&image(0x3000, &[0x5020, 0x1025, 0x1023, 0xF025]))
        .unwrap();
    let sim = sim.run();
    assert_eq!(sim.registers[0], 8);
    assert_eq!(sim.cc, 0b001);
    assert_eq!(sim.registers[7], 0x3004);
}

#[test]
fn scenario_store_to_ddr_reaches_the_output_sink() {
    let sim = with_halt_handler(file_machine(Vec::new()));
    // LD R0, data; STI R0, pointer; TRAP 0x25; data 0x0041; pointer DDR.
    let sim = sim
        .load(&image(0x3000, &[0x2002, 0xB002, 0xF025, 0x0041, 0xFE06]))
        .unwrap();
    let sim = sim.run();
    assert_eq!(output_of(&sim), &[0x41]);
}

#[test]
fn scenario_ldr_with_negative_offset_reads_below_the_base() {
    let sim = with_halt_handler(file_machine(Vec::new()));
    let sim = sim.load(&image(0x2FFF, &[0x1234])).unwrap();
    // LD R0, data; LDR R1, R0, #-1; TRAP 0x25; data 0x3000.
    let sim = sim
        .load(&image(0x3000, &[0x2002, 0x623F, 0xF025, 0x3000]))
        .unwrap();
    let sim = sim.run();
    assert_eq!(sim.registers[1], 0x1234);
}

#[test]
fn run_halts_when_input_is_exhausted() {
    let sim = file_machine(vec![0x32]);
    // LDI R0, pointer; BRnzp back to the LDI; pointer KBSR.
    let sim = sim
        .load(&image(0x3000, &[0xA001, 0x0FFE, 0xFE00]))
        .unwrap();
    let mut sim = sim.run();
    assert_eq!(sim.read_memory(CLK) & 0x8000, 0);
    assert_eq!(sim.halt_reason, Some(HaltReason::InputExhausted));
}

#[test]
fn add_register_and_immediate_modes_compute_expected_sums() {
    let mut sim = file_machine(Vec::new());
    sim.write_register(1, 5);
    sim.write_register(2, 3);
    // ADD R0, R1, R2
    Instruction::decode(0x1042).execute(&mut sim);
    assert_eq!(sim.registers[0], 8);
    assert_eq!(sim.cc, 0b001);
    // ADD R0, R1, #-1
    Instruction::decode(0x107F).execute(&mut sim);
    assert_eq!(sim.registers[0], 4);
}

#[test]
fn and_register_and_immediate_modes_compute_expected_masks() {
    let mut sim = file_machine(Vec::new());
    sim.write_register(1, 0x00FF);
    sim.write_register(2, 0x0F0F);
    // AND R0, R1, R2
    Instruction::decode(0x5042).execute(&mut sim);
    assert_eq!(sim.registers[0], 0x000F);
    // AND R0, R1, #0 clears the register and sets Zero.
    Instruction::decode(0x5060).execute(&mut sim);
    assert_eq!(sim.registers[0], 0);
    assert_eq!(sim.cc, 0b010);
}

#[test]
fn add_wraps_modulo_two_to_the_sixteenth() {
    let mut sim = file_machine(Vec::new());
    sim.write_register(1, 0xFFFF);
    // ADD R0, R1, #1
    Instruction::decode(0x1061).execute(&mut sim);
    assert_eq!(sim.registers[0], 0);
    assert_eq!(sim.cc, 0b010);
}

#[test]
fn not_complements_every_bit() {
    let mut sim = file_machine(Vec::new());
    sim.write_register(3, 0x00FF);
    // NOT R4, R3
    Instruction::decode(0x98FF).execute(&mut sim);
    assert_eq!(sim.registers[4], 0xFF00);
    assert_eq!(sim.cc, 0b100);
}

#[test]
fn branch_consults_the_condition_code_mask() {
    let mut sim = file_machine(Vec::new());
    sim.pc = 0x3001;
    sim.write_register(0, 5); // cc Positive
    // BRp #4
    Instruction::decode(0x0204).execute(&mut sim);
    assert_eq!(sim.pc, 0x3005);
    // BRn #4 is not taken under a Positive code.
    Instruction::decode(0x0804).execute(&mut sim);
    assert_eq!(sim.pc, 0x3005);
}

#[test]
fn jsr_saves_the_return_address_and_jumps_relative() {
    let mut sim = file_machine(Vec::new());
    sim.pc = 0x3001;
    // JSR #16
    Instruction::decode(0x4810).execute(&mut sim);
    assert_eq!(sim.registers[7], 0x3001);
    assert_eq!(sim.pc, 0x3011);
}

#[test]
fn jsrr_jumps_through_the_base_register() {
    let mut sim = file_machine(Vec::new());
    sim.pc = 0x3001;
    sim.write_register(2, 0x4000);
    // JSRR R2
    Instruction::decode(0x4080).execute(&mut sim);
    assert_eq!(sim.registers[7], 0x3001);
    assert_eq!(sim.pc, 0x4000);
}

#[test]
fn jump_moves_pc_to_the_register_value() {
    let mut sim = file_machine(Vec::new());
    sim.write_register(5, 0x1234);
    // JMP R5
    Instruction::decode(0xC140).execute(&mut sim);
    assert_eq!(sim.pc, 0x1234);
}

#[test]
fn rti_and_reserved_are_no_ops() {
    let mut sim = file_machine(Vec::new());
    sim.pc = 0x3000;
    Instruction::decode(0x8ABC).execute(&mut sim);
    Instruction::decode(0xD123).execute(&mut sim);
    assert_eq!(sim.pc, 0x3000);
    assert_eq!(sim.cc, 0b010);
}
