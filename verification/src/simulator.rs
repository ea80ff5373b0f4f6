//! The CPU core: the register file, the flat 16-bit memory with its
//! memory-mapped device registers, the program counter, instruction
//! register and condition code, and the fetch-decode-execute loop that
//! drives them.

use vstd::prelude::*;
use vstd::pervasive::VecAdditionalExecFns;

pub mod instruction;
pub mod prediction;
pub mod reader;
pub mod tracer;
pub mod writer;

pub use instruction::Instruction;
pub use prediction::{Branch, Predictor};
pub use reader::Reader;
pub use tracer::{Trace, Tracer};
pub use writer::Writer;

use instruction::{decode_spec, exec_rel, wf_instruction};
use reader::{read_rel, ReadOutcome};
use tracer::{trace_rel, wants_spec};
use writer::write_rel;
use vstd::string::StringExecFns;

verus! {

/// The clock register: bit 15 gates the execution loop.
pub const CLK: u16 = 0xFFFE;

/// The keyboard status register: reading it polls the input back-end.
pub const KBSR: u16 = 0xFE00;

/// The keyboard data register: holds the last byte the keyboard latched.
pub const KBDR: u16 = 0xFE02;

/// The display status register: bit 15 reports the display ready.
pub const DSR: u16 = 0xFE04;

/// The display data register: writing it forwards a byte to the display.
pub const DDR: u16 = 0xFE06;

/// The number of words in the address space: every 16-bit address is a
/// valid, storable location.
pub const MEMORY_SIZE: usize = 0x10000;

/// Why the machine halted itself ahead of the program clearing the clock
/// register. The caller reports this to the user after the run.
#[derive(Debug, Copy, Clone, PartialEq, Eq, Structural)]
pub enum HaltReason {
    /// The user pressed the cancel key on the interactive keyboard.
    UserCancelled,
    /// The file-backed input had no further bytes for a keyboard poll.
    InputExhausted,
}

/// An image shorter than the two bytes of its load origin cannot be
/// loaded.
#[derive(Debug, Copy, Clone, PartialEq, Eq, Structural)]
pub enum LoadError {
    TooShort,
}

/// The machine: memory, register file, program counter, instruction
/// register, condition code, and the attached input, display and tracer.
#[verifier::ext_equal]
pub struct Simulator {
    pub memory: Vec<u16>,
    pub registers: Vec<u16>,
    pub pc: u16,
    pub ir: u16,
    pub cc: usize,
    pub input: Reader,
    pub display: Writer,
    pub tracer: Tracer,
    pub halt_reason: Option<HaltReason>,
}

/// The condition-code mask that a just-written register value produces:
/// Zero (0b010) exactly for zero, Negative (0b100) exactly when bit 15 is
/// set, Positive (0b001) otherwise.
pub open spec fn cc_mask(value: u16) -> usize {
    if value == 0 {
        0b010
    } else if value & 0x8000 == 0 {
        0b001
    } else {
        0b100
    }
}

/// The condition code is Zero exactly for zero, Negative exactly for a
/// nonzero value with bit 15 set, and Positive for the rest.
pub proof fn lemma_condition_code(value: u16)
    ensures
        cc_mask(value) == 0b010 <==> value == 0,
        cc_mask(value) == 0b100 <==> (value != 0 && value & 0x8000 != 0),
        cc_mask(value) == 0b001 <==> (value != 0 && value & 0x8000 == 0),
{
}

/// Addition on the 16-bit address and data paths: two's-complement,
/// wrapping modulo 65536.
pub open spec fn wadd(a: u16, b: u16) -> u16 {
    vstd::wrapping::u16_specs::wrapping_add(a, b)
}

/// Adding a signed offset to a 16-bit address: two's-complement, wrapping
/// modulo 65536, as relative addressing demands.
pub open spec fn wadd_signed(a: u16, b: i16) -> u16 {
    vstd::wrapping::u16_specs::wrapping_add_signed(a, b)
}

impl Simulator {
    /// The structural invariant: the full 65536-word memory, eight
    /// registers, and a condition code that is exactly one of the three
    /// states.
    pub open spec fn wf(self) -> bool {
        &&& self.memory@.len() == MEMORY_SIZE
        &&& self.registers@.len() == 8
        &&& (self.cc == 0b001 || self.cc == 0b010 || self.cc == 0b100)
    }
}

/// The input, display, tracer and halt diagnostic are untouched.
pub open spec fn same_devices(pre: Simulator, post: Simulator) -> bool {
    &&& post.input == pre.input
    &&& post.display == pre.display
    &&& post.tracer == pre.tracer
    &&& post.halt_reason == pre.halt_reason
}

/// The register file, program counter, instruction register and condition
/// code are untouched.
pub open spec fn same_cpu(pre: Simulator, post: Simulator) -> bool {
    &&& post.registers == pre.registers
    &&& post.pc == pre.pc
    &&& post.ir == pre.ir
    &&& post.cc == pre.cc
}

/// What one keyboard-status poll outcome does to the machine: a byte is
/// latched into KBDR and 0x8000 returned; nothing yields 0; exhaustion or
/// cancellation clears the clock register, records the diagnostic, and
/// yields 0.
pub open spec fn kbsr_outcome(pre: Simulator, post: Simulator, o: ReadOutcome, r: u16) -> bool {
    &&& post.display == pre.display
    &&& post.tracer == pre.tracer
    &&& match o {
        ReadOutcome::Byte(b) => r == 0x8000 && post.memory@ == pre.memory@.update(
            KBDR as int,
            b as u16,
        ) && post.halt_reason == pre.halt_reason,
        ReadOutcome::Empty => r == 0 && post.memory@ == pre.memory@ && post.halt_reason
            == pre.halt_reason,
        ReadOutcome::Exhausted => r == 0 && post.memory@ == pre.memory@.update(CLK as int, 0u16)
            && post.halt_reason == Some(HaltReason::InputExhausted),
        ReadOutcome::Cancelled => r == 0 && post.memory@ == pre.memory@.update(CLK as int, 0u16)
            && post.halt_reason == Some(HaltReason::UserCancelled),
    }
}

/// What reading `address` does and returns. The display data register
/// always reads 0; the keyboard status register polls the input back-end
/// once and acts on the outcome; every other address is plain storage.
pub open spec fn dev_read(pre: Simulator, post: Simulator, address: u16, r: u16) -> bool {
    if address == DDR {
        r == 0 && post.memory@ == pre.memory@ && same_devices(pre, post)
    } else if address == KBSR {
        exists|o: ReadOutcome|
            #[trigger] read_rel(pre.input, post.input, o) && kbsr_outcome(pre, post, o, r)
    } else {
        r == pre.memory@[address as int] && post.memory@ == pre.memory@ && same_devices(pre, post)
    }
}

/// The bytes that a display-data write forwards: the low byte of the
/// value, with a line feed translated to carriage return plus line feed.
pub open spec fn ddr_bytes(value: u16) -> Seq<u8> {
    if value & 0xFF == 0x0A {
        seq![0x0Du8, 0x0Au8]
    } else {
        seq![(value & 0xFF) as u8]
    }
}

/// What a display-data write does: the translated bytes go to the output
/// back-end, the stored DDR contents reset to 0, and DSR reads ready
/// (0x8000) on success or not ready (0) on failure.
pub open spec fn ddr_write(pre: Simulator, post: Simulator, value: u16) -> bool {
    &&& post.input == pre.input
    &&& post.tracer == pre.tracer
    &&& post.halt_reason == pre.halt_reason
    &&& exists|wr: Result<usize, ()>|
        #[trigger] write_rel(pre.display, post.display, ddr_bytes(value), wr) && post.memory@
            == pre.memory@.update(DDR as int, 0u16).update(
            DSR as int,
            if wr is Ok {
                0x8000u16
            } else {
                0u16
            },
        )
}

/// What writing `value` to `address` does. The display data register
/// forwards to the display; the keyboard data and display status
/// registers ignore direct writes; every other address, the clock
/// register included, is plain storage.
pub open spec fn dev_write(pre: Simulator, post: Simulator, address: u16, value: u16) -> bool {
    if address == DDR {
        ddr_write(pre, post, value)
    } else if address == KBDR || address == DSR {
        post.memory@ == pre.memory@ && same_devices(pre, post)
    } else {
        post.memory@ == pre.memory@.update(address as int, value) && same_devices(pre, post)
    }
}

/// The display handshake in general: a store to the display data
/// register with a file-backed sink, which always accepts, hands the sink
/// exactly the translated low byte of the value — a line feed preceded by
/// a carriage return, any other byte alone — resets the stored DDR
/// contents to 0, and leaves the display status register reading ready.
pub proof fn lemma_display_write(pre: Simulator, post: Simulator, value: u16)
    requires
        pre.wf(),
        dev_write(pre, post, DDR, value),
        pre.display is OutFile,
    ensures
        post.display is OutFile,
        post.display->OutFile_0@ == pre.display->OutFile_0@ + ddr_bytes(value),
        post.memory@[DDR as int] == 0,
        post.memory@[DSR as int] == 0x8000,
        value & 0xFF == 0x0A ==> ddr_bytes(value) == seq![0x0Du8, 0x0Au8],
        value & 0xFF != 0x0A ==> ddr_bytes(value) == seq![(value & 0xFF) as u8],
{
    let wr = choose|wr: Result<usize, ()>|
        #[trigger] write_rel(pre.display, post.display, ddr_bytes(value), wr) && post.memory@
            == pre.memory@.update(DDR as int, 0u16).update(
            DSR as int,
            if wr is Ok {
                0x8000u16
            } else {
                0u16
            },
        );
    assert(wr is Ok);
}

/// The exhaustion halt in general: a keyboard-status read finding the
/// file-backed input out of bytes returns 0, clears the clock register
/// (halting the machine after the current cycle), and records the
/// missing-input diagnostic for the caller to report.
pub proof fn lemma_exhausted_input_halts(pre: Simulator, post: Simulator, r: u16)
    requires
        pre.wf(),
        dev_read(pre, post, KBSR, r),
        pre.input matches Reader::InFile(bytes, pos) && pos >= bytes@.len(),
    ensures
        r == 0,
        post.memory@[CLK as int] == 0,
        post.halt_reason == Some(HaltReason::InputExhausted),
        post.input == pre.input,
{
    let o = choose|o: ReadOutcome|
        #[trigger] read_rel(pre.input, post.input, o) && kbsr_outcome(pre, post, o, r);
    assert(o == ReadOutcome::Exhausted);
}

/// Carrying a device read across later mutations that leave the memory,
/// input, display, tracer and diagnostic untouched.
pub proof fn lemma_dev_read_frame(pre: Simulator, mid: Simulator, post: Simulator, address: u16, r: u16)
    requires
        dev_read(pre, mid, address, r),
        post.memory@ == mid.memory@,
        post.input == mid.input,
        post.display == mid.display,
        post.tracer == mid.tracer,
        post.halt_reason == mid.halt_reason,
    ensures
        dev_read(pre, post, address, r),
{
    if address != DDR && address == KBSR {
        let o = choose|o: ReadOutcome|
            #[trigger] read_rel(pre.input, mid.input, o) && kbsr_outcome(pre, mid, o, r);
        assert(read_rel(pre.input, post.input, o));
        assert(kbsr_outcome(pre, post, o, r));
    }
}

impl Simulator {
    /// A fresh machine: memory and registers zeroed, the clock and
    /// display status registers pre-set ready, condition code Zero, and
    /// the given back-ends attached.
    pub fn new(input: Reader, display: Writer, tracer: Tracer) -> (r: Simulator)
        ensures
            r.wf(),
            forall|a: int|
                0 <= a < MEMORY_SIZE ==> r.memory@[a] == (if a == CLK as int || a == DSR as int {
                    0x8000u16
                } else {
                    0u16
                }),
            forall|i: int| 0 <= i < 8 ==> r.registers@[i] == 0u16,
            r.pc == 0 && r.ir == 0 && r.cc == 0b010,
            r.input == input && r.display == display && r.tracer == tracer,
            r.halt_reason is None,
    {
        let mut memory: Vec<u16> = Vec::new();
        let mut i: usize = 0;
        while i < MEMORY_SIZE
            invariant
                i <= MEMORY_SIZE,
                memory@.len() == i,
                forall|k: int| 0 <= k < i ==> memory@[k] == 0u16,
            decreases MEMORY_SIZE - i,
        {
            memory.push(0);
            i = i + 1;
        }
        memory.set(CLK as usize, 0x8000);
        memory.set(DSR as usize, 0x8000);
        let mut registers: Vec<u16> = Vec::new();
        let mut j: usize = 0;
        while j < 8
            invariant
                j <= 8,
                registers@.len() == j,
                forall|k: int| 0 <= k < j ==> registers@[k] == 0u16,
            decreases 8 - j,
        {
            registers.push(0);
            j = j + 1;
        }
        Simulator {
            memory,
            registers,
            pc: 0,
            ir: 0,
            cc: 0b010,
            input,
            display,
            tracer,
            halt_reason: None,
        }
    }

    /// Derive the condition code from a just-written register value.
    fn update_cc(&mut self, value: u16)
        ensures
            final(self).cc == cc_mask(value),
            final(self).memory == old(self).memory,
            final(self).registers == old(self).registers,
            final(self).pc == old(self).pc && final(self).ir == old(self).ir,
            same_devices(*old(self), *final(self)),
    {
        self.cc = if value == 0 {
            0b010
        } else if value & 0x8000 == 0 {
            0b001
        } else {
            0b100
        };
    }

    /// Read one general-purpose register.
    fn read_register(&self, register: usize) -> (r: u16)
        requires
            self.wf(),
            register < 8,
        ensures
            r == self.registers@[register as int],
    {
        self.registers[register]
    }

    /// Write one general-purpose register and update the condition code
    /// from the value, the single entry point that ADD, AND, NOT and the
    /// load instructions use.
    pub fn write_register(&mut self, register: usize, value: u16)
        requires
            old(self).wf(),
            register < 8,
        ensures
            final(self).wf(),
            final(self).registers@ == old(self).registers@.update(register as int, value),
            final(self).cc == cc_mask(value),
            final(self).memory == old(self).memory,
            final(self).pc == old(self).pc && final(self).ir == old(self).ir,
            same_devices(*old(self), *final(self)),
    {
        self.registers.set(register, value);
        self.update_cc(value);
    }

    /// Write one general-purpose register without touching the condition
    /// code: how JSR and TRAP save the return address into register 7.
    fn write_register_no_update(&mut self, register: usize, value: u16)
        requires
            old(self).wf(),
            register < 8,
        ensures
            final(self).wf(),
            final(self).registers@ == old(self).registers@.update(register as int, value),
            final(self).cc == old(self).cc,
            final(self).memory == old(self).memory,
            final(self).pc == old(self).pc && final(self).ir == old(self).ir,
            same_devices(*old(self), *final(self)),
    {
        self.registers.set(register, value);
    }

    /// Read from the given address through the device layer: the display
    /// data register always reads 0, the keyboard status register polls
    /// the input back-end once (latching an available byte into KBDR, or
    /// halting the machine on exhaustion or cancellation), and every
    /// other address returns its stored word.
    pub fn read_memory(&mut self, address: u16) -> (r: u16)
        requires
            old(self).wf(),
        ensures
            final(self).wf(),
            dev_read(*old(self), *final(self), address, r),
            same_cpu(*old(self), *final(self)),
            address != KBSR ==> *final(self) == *old(self),
            address != DDR && address != KBSR ==> r == old(self).memory@[address as int],
    {
        if address == DDR {
            0x0000
        } else if address == KBSR {
            let outcome = self.input.read();
            match outcome {
                ReadOutcome::Byte(b) => {
                    self.memory.set(KBDR as usize, b as u16);
                    proof {
                        assert(read_rel(old(self).input, self.input, ReadOutcome::Byte(b)));
                    }
                    0x8000
                },
                ReadOutcome::Empty => {
                    proof {
                        assert(read_rel(old(self).input, self.input, ReadOutcome::Empty));
                    }
                    0x0000
                },
                ReadOutcome::Exhausted => {
                    self.memory.set(CLK as usize, 0x0000);
                    self.halt_reason = Some(HaltReason::InputExhausted);
                    proof {
                        assert(read_rel(old(self).input, self.input, ReadOutcome::Exhausted));
                    }
                    0x0000
                },
                ReadOutcome::Cancelled => {
                    self.memory.set(CLK as usize, 0x0000);
                    self.halt_reason = Some(HaltReason::UserCancelled);
                    proof {
                        assert(read_rel(old(self).input, self.input, ReadOutcome::Cancelled));
                    }
                    0x0000
                },
            }
        } else {
            self.memory[address as usize]
        }
    }

    /// Write to the given address through the device layer: the display
    /// data register forwards its low byte to the output back-end and
    /// resets the display status, direct writes to the keyboard data and
    /// display status registers are ignored, and every other address
    /// stores the word.
    pub fn write_memory(&mut self, address: u16, value: u16)
        requires
            old(self).wf(),
        ensures
            final(self).wf(),
            dev_write(*old(self), *final(self), address, value),
            same_cpu(*old(self), *final(self)),
    {
        if address == DDR {
            proof {
                assert(value & 0xFF < 256) by (bit_vector);
            }
            let b: u8 = (value & 0xFF) as u8;
            let mut buf: Vec<u8> = Vec::new();
            if b == 0x0A {
                buf.push(0x0D);
            }
            buf.push(b);
            proof {
                assert(buf@ =~= ddr_bytes(value));
            }
            let wr = self.display.write(buf.as_slice());
            self.memory.set(DDR as usize, 0x0000);
            match wr {
                Ok(_) => {
                    self.memory.set(DSR as usize, 0x8000);
                },
                Err(_) => {
                    self.memory.set(DSR as usize, 0x0000);
                },
            }
            proof {
                assert(write_rel(old(self).display, self.display, ddr_bytes(value), wr));
            }
        } else if address == KBDR || address == DSR {
        } else {
            self.memory.set(address as usize, value);
        }
    }
}

/// The upper-case hexadecimal digit for a value below 16.
pub open spec fn hex_digit(n: u16) -> char {
    if n == 0 {
        '0'
    } else if n == 1 {
        '1'
    } else if n == 2 {
        '2'
    } else if n == 3 {
        '3'
    } else if n == 4 {
        '4'
    } else if n == 5 {
        '5'
    } else if n == 6 {
        '6'
    } else if n == 7 {
        '7'
    } else if n == 8 {
        '8'
    } else if n == 9 {
        '9'
    } else if n == 10 {
        'A'
    } else if n == 11 {
        'B'
    } else if n == 12 {
        'C'
    } else if n == 13 {
        'D'
    } else if n == 14 {
        'E'
    } else {
        'F'
    }
}

/// A 16-bit word as four upper-case hexadecimal digits.
pub open spec fn hex4(v: u16) -> Seq<char> {
    seq![
        hex_digit((v >> 12) & 0xF),
        hex_digit((v >> 8) & 0xF),
        hex_digit((v >> 4) & 0xF),
        hex_digit(v & 0xF),
    ]
}

/// The letter that names a condition code: N, Z or P.
pub open spec fn cc_char(cc: usize) -> char {
    if cc & 0b100 != 0 {
        'N'
    } else if cc & 0b010 == 0 {
        'P'
    } else {
        'Z'
    }
}

/// The first lines of a snapshot: the instruction register in hex.
pub open spec fn render_header(s: Simulator) -> Seq<char> {
    "After executing instruction: 0x"@ + hex4(s.ir) + "\n"@
}

/// One line per register, `Register i: 0xXXXX`, for the first `n`
/// registers.
pub open spec fn reg_lines(regs: Seq<u16>, n: int) -> Seq<char>
    decreases n,
{
    if n <= 0 {
        Seq::empty()
    } else {
        reg_lines(regs, n - 1) + "Register "@ + seq![hex_digit((n - 1) as u16)] + ": 0x"@ + hex4(
            regs[n - 1],
        ) + "\n"@
    }
}

/// The full snapshot text that the tracer records after an instruction:
/// the instruction register, the eight registers, the program counter,
/// the condition code letter, and a separator line.
pub open spec fn render_spec(s: Simulator) -> Seq<char> {
    render_header(s) + reg_lines(s.registers@, 8) + "Program Counter: 0x"@ + hex4(s.pc) + "\n"@
        + "Condition Code: "@ + seq![cc_char(s.cc)] + "\n"@ + "===================================\n"@
}

/// The one-character string for a hexadecimal digit.
fn hex_char_str(d: u16) -> (r: &'static str)
    requires
        d < 16,
    ensures
        r@ == seq![hex_digit(d)],
{
    if d == 0 {
        proof {
            reveal_strlit("0");
            assert("0"@ =~= seq![hex_digit(0u16)]);
        }
        "0"
    } else if d == 1 {
        proof {
            reveal_strlit("1");
            assert("1"@ =~= seq![hex_digit(1u16)]);
        }
        "1"
    } else if d == 2 {
        proof {
            reveal_strlit("2");
            assert("2"@ =~= seq![hex_digit(2u16)]);
        }
        "2"
    } else if d == 3 {
        proof {
            reveal_strlit("3");
            assert("3"@ =~= seq![hex_digit(3u16)]);
        }
        "3"
    } else if d == 4 {
        proof {
            reveal_strlit("4");
            assert("4"@ =~= seq![hex_digit(4u16)]);
        }
        "4"
    } else if d == 5 {
        proof {
            reveal_strlit("5");
            assert("5"@ =~= seq![hex_digit(5u16)]);
        }
        "5"
    } else if d == 6 {
        proof {
            reveal_strlit("6");
            assert("6"@ =~= seq![hex_digit(6u16)]);
        }
        "6"
    } else if d == 7 {
        proof {
            reveal_strlit("7");
            assert("7"@ =~= seq![hex_digit(7u16)]);
        }
        "7"
    } else if d == 8 {
        proof {
            reveal_strlit("8");
            assert("8"@ =~= seq![hex_digit(8u16)]);
        }
        "8"
    } else if d == 9 {
        proof {
            reveal_strlit("9");
            assert("9"@ =~= seq![hex_digit(9u16)]);
        }
        "9"
    } else if d == 10 {
        proof {
            reveal_strlit("A");
            assert("A"@ =~= seq![hex_digit(10u16)]);
        }
        "A"
    } else if d == 11 {
        proof {
            reveal_strlit("B");
            assert("B"@ =~= seq![hex_digit(11u16)]);
        }
        "B"
    } else if d == 12 {
        proof {
            reveal_strlit("C");
            assert("C"@ =~= seq![hex_digit(12u16)]);
        }
        "C"
    } else if d == 13 {
        proof {
            reveal_strlit("D");
            assert("D"@ =~= seq![hex_digit(13u16)]);
        }
        "D"
    } else if d == 14 {
        proof {
            reveal_strlit("E");
            assert("E"@ =~= seq![hex_digit(14u16)]);
        }
        "E"
    } else {
        proof {
            reveal_strlit("F");
            assert("F"@ =~= seq![hex_digit(15u16)]);
        }
        "F"
    }
}

/// Append a 16-bit word to a string as four hexadecimal digits.
fn push_hex4(s: &mut String, v: u16)
    ensures
        final(s)@ == old(s)@ + hex4(v),
{
    proof {
        assert((v >> 12) & 0xF < 16 && (v >> 8) & 0xF < 16 && (v >> 4) & 0xF < 16 && v & 0xF < 16)
            by (bit_vector);
    }
    s.append(hex_char_str((v >> 12) & 0xF));
    s.append(hex_char_str((v >> 8) & 0xF));
    s.append(hex_char_str((v >> 4) & 0xF));
    s.append(hex_char_str(v & 0xF));
    proof {
        assert(s@ =~= old(s)@ + hex4(v));
    }
}

/// The one-character string naming a condition code.
fn cc_letter(cc: usize) -> (r: &'static str)
    ensures
        r@ == seq![cc_char(cc)],
{
    if cc & 0b100 != 0 {
        proof {
            reveal_strlit("N");
            assert("N"@ =~= seq![cc_char(cc)]);
        }
        "N"
    } else if cc & 0b010 == 0 {
        proof {
            reveal_strlit("P");
            assert("P"@ =~= seq![cc_char(cc)]);
        }
        "P"
    } else {
        proof {
            reveal_strlit("Z");
            assert("Z"@ =~= seq![cc_char(cc)]);
        }
        "Z"
    }
}

/// What one emitted snapshot does to the machine: the rendered text of the
/// current state goes to the tracer, and nothing else moves.
pub open spec fn sim_trace_rel(pre: Simulator, post: Simulator) -> bool {
    &&& trace_rel(pre.tracer, post.tracer, render_spec(pre))
    &&& post.memory == pre.memory
    &&& post.registers == pre.registers
    &&& post.pc == pre.pc
    &&& post.ir == pre.ir
    &&& post.cc == pre.cc
    &&& post.input == pre.input
    &&& post.display == pre.display
    &&& post.halt_reason == pre.halt_reason
}

/// One fetch: the word at the program counter is read through the device
/// layer into the instruction register, and the program counter advances
/// by one, wrapping at the top of the address space.
pub open spec fn fetch_rel(pre: Simulator, post: Simulator) -> bool {
    &&& exists|v: u16| #[trigger] dev_read(pre, post, pre.pc, v) && post.ir == v
    &&& post.pc == wadd(pre.pc, 1)
    &&& post.registers == pre.registers
    &&& post.cc == pre.cc
}

/// One whole machine cycle: fetch, decode, execute, and a snapshot to the
/// tracer when its filter wants the executed opcode at the new program
/// counter.
pub open spec fn step_rel(pre: Simulator, post: Simulator) -> bool {
    exists|s1: Simulator, s2: Simulator|
        #![trigger fetch_rel(pre, s1), exec_rel(decode_spec(s1.ir), s1, s2)]
        {
            &&& fetch_rel(pre, s1)
            &&& exec_rel(decode_spec(s1.ir), s1, s2)
            &&& (if wants_spec(s2.tracer, (s2.ir >> 12) & 0xF, s2.pc) {
                sim_trace_rel(s2, post)
            } else {
                post == s2
            })
        }
}

/// Whether the machine is running: the clock register's bit 15 is set.
/// The execution loop's sole termination condition.
pub open spec fn running(s: Simulator) -> bool {
    s.memory@[CLK as int] & 0x8000 != 0
}

/// The machine `end` arises from `start` by exactly `n` whole cycles,
/// each taken from a running machine: no cycle starts once the clock
/// register's ready bit is clear.
pub open spec fn reaches(start: Simulator, end: Simulator, n: nat) -> bool
    decreases n,
{
    if n == 0 {
        end == start
    } else {
        exists|mid: Simulator|
            reaches(start, mid, (n - 1) as nat) && running(mid) && #[trigger] step_rel(mid, end)
    }
}

/// A halted machine takes no cycle: every chain that starts with the
/// clock register's ready bit clear is empty, so its end is its start.
pub proof fn lemma_halted_machine_stays(start: Simulator, end: Simulator, n: nat)
    requires
        reaches(start, end, n),
        !running(start),
    ensures
        end == start,
    decreases n,
{
    if n != 0 {
        let mid = choose|mid: Simulator|
            reaches(start, mid, (n - 1) as nat) && running(mid) && #[trigger] step_rel(mid, end);
        lemma_halted_machine_stays(start, mid, (n - 1) as nat);
    }
}

/// How loading an image changes the machine: the program counter moves to
/// the image's origin, its words are stored at consecutive addresses from
/// there (wrapping at the top of the address space), and nothing else
/// moves.
pub open spec fn load_rel(pre: Simulator, post: Simulator, image: Seq<u8>) -> bool {
    &&& post.pc == origin_spec(image)
    &&& post.memory@ == store_from(pre.memory@, origin_spec(image), image_words(image), 0)
    &&& post.registers == pre.registers
    &&& post.ir == pre.ir
    &&& post.cc == pre.cc
    &&& same_devices(pre, post)
}

/// The load origin of an object image: its first two bytes, big-endian.
pub open spec fn origin_spec(image: Seq<u8>) -> u16
    recommends
        image.len() >= 2,
{
    ((image[0] as u16) << 8) | (image[1] as u16)
}

/// The data words of an object image: each pair of bytes after the
/// origin, big-endian; a trailing odd byte belongs to no word.
pub open spec fn image_words(image: Seq<u8>) -> Seq<u16>
    recommends
        image.len() >= 2,
{
    Seq::new(
        (((image.len() - 2) as int) / 2) as nat,
        |k: int| ((image[2 + 2 * k] as u16) << 8) | (image[2 + 2 * k + 1] as u16),
    )
}

/// Memory after the words from index `k` on are stored at consecutive
/// addresses starting at `origin`, wrapping modulo 65536.
pub open spec fn store_from(mem: Seq<u16>, origin: u16, words: Seq<u16>, k: int) -> Seq<u16>
    decreases words.len() - k,
{
    if k < 0 || k >= words.len() {
        mem
    } else {
        store_from(mem.update(origin as int, words[k]), wadd(origin, 1), words, k + 1)
    }
}

impl Simulator {
    /// Load an object image into memory: the first two bytes give the
    /// origin, big-endian; each following byte pair is a word stored at
    /// consecutive addresses from the origin, wrapping at the top of the
    /// address space; the program counter moves to the origin. An image
    /// too short to hold an origin is rejected. Loading is a sequence of
    /// plain mutations of the memory array: a word destined for a mapped
    /// register address is stored verbatim, and device side effects arise
    /// only while instructions execute.
    pub fn load(self, image: &[u8]) -> (r: Result<Simulator, LoadError>)
        requires
            self.wf(),
        ensures
            r is Err <==> image@.len() < 2,
            r matches Err(e) ==> e == LoadError::TooShort,
            r matches Ok(post) ==> post.wf() && load_rel(self, post, image@),
    {
        if image.len() < 2 {
            return Err(LoadError::TooShort);
        }
        let mut this = self;
        let origin: u16 = ((image[0] as u16) << 8) | (image[1] as u16);
        this.pc = origin;
        let ghost orig = this;
        let ghost words = image_words(image@);
        let count: usize = (image.len() - 2) / 2;
        let mut address: u16 = origin;
        let mut k: usize = 0;
        proof {
            assert(words.len() == count);
        }
        while k < count
            invariant
                this.wf(),
                k <= count,
                count == (image@.len() - 2) / 2,
                2 <= image@.len(),
                image@.len() <= usize::MAX,
                words == image_words(image@),
                words.len() == count,
                store_from(this.memory@, address, words, k as int) == store_from(
                    orig.memory@,
                    origin,
                    words,
                    0,
                ),
                this.pc == origin,
                this.registers == orig.registers,
                this.ir == orig.ir,
                this.cc == orig.cc,
                this.input == orig.input,
                this.display == orig.display,
                this.tracer == orig.tracer,
                this.halt_reason == orig.halt_reason,
            decreases count - k,
        {
            proof {
                assert(2 * (count as int) <= image@.len() - 2);
                assert(2 + 2 * (k as int) + 1 < image@.len());
            }
            let hi = image[2 + 2 * k];
            let lo = image[2 + 2 * k + 1];
            let word: u16 = ((hi as u16) << 8) | (lo as u16);
            proof {
                assert(word == words[k as int]);
                assert(store_from(this.memory@, address, words, k as int) == store_from(
                    this.memory@.update(address as int, words[k as int]),
                    wadd(address, 1),
                    words,
                    k as int + 1,
                ));
            }
            this.memory.set(address as usize, word);
            address = address.wrapping_add(1);
            k = k + 1;
        }
        Ok(this)
    }

    /// Load the operating-system image, which the caller guarantees is
    /// long enough to hold its origin.
    pub fn with_operating_system(self, image: &[u8]) -> (r: Simulator)
        requires
            self.wf(),
            image@.len() >= 2,
        ensures
            r.wf(),
            load_rel(self, r, image@),
    {
        match self.load(image) {
            Ok(machine) => machine,
            Err(_) => vstd::pervasive::unreached(),
        }
    }

    /// Fetch the next instruction: read the word at the program counter
    /// through the device layer into the instruction register, then
    /// advance the program counter, wrapping at the top of the address
    /// space.
    fn fetch(&mut self)
        requires
            old(self).wf(),
        ensures
            final(self).wf(),
            fetch_rel(*old(self), *final(self)),
    {
        let address = self.pc;
        let value = self.read_memory(address);
        let ghost mid = *self;
        self.ir = value;
        self.pc = address.wrapping_add(1);
        proof {
            lemma_dev_read_frame(*old(self), mid, *self, address, value);
            assert(dev_read(*old(self), *self, old(self).pc, value));
        }
    }

    /// Decode the instruction register into its typed instruction.
    fn decode(&self) -> (r: Instruction)
        ensures
            r == decode_spec(self.ir),
            wf_instruction(r),
    {
        proof {
            instruction::lemma_decode_wf(self.ir);
        }
        Instruction::decode(self.ir)
    }

    /// Execute one decoded instruction against the machine.
    fn execute(&mut self, instruction: Instruction)
        requires
            old(self).wf(),
            wf_instruction(instruction),
        ensures
            final(self).wf(),
            exec_rel(instruction, *old(self), *final(self)),
    {
        let _ = instruction.execute(self);
    }

    /// Format the post-execution snapshot: the instruction register, the
    /// eight registers, the program counter and the condition code.
    fn render_snapshot(&self) -> (r: String)
        requires
            self.wf(),
        ensures
            r@ == render_spec(*self),
    {
        let mut text = String::new();
        text.append("After executing instruction: 0x");
        push_hex4(&mut text, self.ir);
        text.append("\n");
        let mut i: usize = 0;
        while i < 8
            invariant
                self.wf(),
                i <= 8,
                text@ == render_header(*self) + reg_lines(self.registers@, i as int),
            decreases 8 - i,
        {
            text.append("Register ");
            text.append(hex_char_str(i as u16));
            text.append(": 0x");
            push_hex4(&mut text, self.registers[i]);
            text.append("\n");
            proof {
                assert(text@ =~= render_header(*self) + reg_lines(
                    self.registers@,
                    i as int + 1,
                ));
            }
            i = i + 1;
        }
        text.append("Program Counter: 0x");
        push_hex4(&mut text, self.pc);
        text.append("\n");
        text.append("Condition Code: ");
        text.append(cc_letter(self.cc));
        text.append("\n");
        text.append("===================================\n");
        proof {
            assert(text@ =~= render_spec(*self));
        }
        text
    }

    /// Hand the snapshot of the current state to the tracer.
    fn trace(&mut self)
        requires
            old(self).wf(),
        ensures
            final(self).wf(),
            sim_trace_rel(*old(self), *final(self)),
    {
        let text = self.render_snapshot();
        self.tracer.trace(text.as_str());
    }

    /// Run the machine: fetch, decode and execute instructions, handing a
    /// snapshot to the tracer after each one its filter wants, until a
    /// clock-register read finds bit 15 clear. Every cycle of the chain
    /// starts from a running machine, so the result is the first halted
    /// state the chain meets. A step budget of 2^64 - 1 cycles bounds the
    /// loop; a machine still running at that point stops there.
    pub fn run(self) -> (r: Simulator)
        requires
            self.wf(),
        ensures
            r.wf(),
            exists|n: nat|
                #[trigger] reaches(self, r, n) && (n == u64::MAX as nat || !running(r)),
    {
        let mut this = self;
        let ghost s0 = this;
        proof {
            assert(reaches(s0, this, 0));
        }
        let mut budget: u64 = u64::MAX;
        while budget > 0
            invariant_except_break
                this.wf(),
                budget <= u64::MAX,
                reaches(s0, this, (u64::MAX - budget) as nat),
            ensures
                this.wf(),
                exists|n: nat|
                    #[trigger] reaches(s0, this, n) && (n == u64::MAX as nat || !running(this)),
            decreases budget,
        {
            let clock = this.read_memory(CLK);
            if clock & 0x8000 == 0 {
                break;
            }
            let ghost prev = this;
            proof {
                assert(running(prev));
            }
            this.fetch();
            let ghost s1 = this;
            let instruction = this.decode();
            this.execute(instruction);
            let ghost s2 = this;
            let word = this.ir;
            proof {
                assert((word >> 12) & 0xF < 16) by (bit_vector);
            }
            let nibble = (word >> 12) & 0xF;
            let pc_now = this.pc;
            if this.tracer.wants(nibble, pc_now) {
                this.trace();
            }
            proof {
                assert(fetch_rel(prev, s1));
                assert(exec_rel(decode_spec(s1.ir), s1, s2));
                assert(step_rel(prev, this));
                assert(reaches(s0, this, (u64::MAX - budget + 1) as nat));
            }
            budget = budget - 1;
        }
        this
    }
}

} // verus!
