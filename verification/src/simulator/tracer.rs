//! Selective execution tracing: an opcode-interest bitmask, an optional
//! restriction to user-space addresses, and an in-memory log that the
//! caller persists after the run.

use vstd::prelude::*;
use vstd::string::StrSliceExecFns;
use vstd::string::StringExecFns;

verus! {

/// The first address of user space: programs conventionally load at or
/// above it, the operating-system image below it.
pub const USER_SPACE_START: u16 = 0x3000;

/// Whether to emit a trace: either tracing is off, or a log buffer is kept
/// together with the opcode-interest bitmask and the user-space-only flag.
pub enum Tracer {
    NoTrace,
    TraceFile(String, u16, bool),
}

/// Case-insensitive match of one character against the upper-case and
/// lower-case spelling of a mnemonic letter.
pub open spec fn ci(c: char, upper: char, lower: char) -> bool {
    c == upper || c == lower
}

/// The opcode-interest bit that a mnemonic selects, or `None` for a word
/// that names no opcode. Bit `n` stands for opcode nibble `n`; `JSR` and
/// `JSRR` share one bit, and the reserved opcode has none.
pub open spec fn mnemonic_bit_spec(s: Seq<char>) -> Option<u16> {
    if s.len() == 2 {
        if ci(s[0], 'B', 'b') && ci(s[1], 'R', 'r') {
            Some(0x1u16)
        } else if ci(s[0], 'L', 'l') && ci(s[1], 'D', 'd') {
            Some(0x4u16)
        } else if ci(s[0], 'S', 's') && ci(s[1], 'T', 't') {
            Some(0x8u16)
        } else {
            None
        }
    } else if s.len() == 3 {
        if ci(s[0], 'A', 'a') && ci(s[1], 'D', 'd') && ci(s[2], 'D', 'd') {
            Some(0x2u16)
        } else if ci(s[0], 'J', 'j') && ci(s[1], 'S', 's') && ci(s[2], 'R', 'r') {
            Some(0x10u16)
        } else if ci(s[0], 'A', 'a') && ci(s[1], 'N', 'n') && ci(s[2], 'D', 'd') {
            Some(0x20u16)
        } else if ci(s[0], 'L', 'l') && ci(s[1], 'D', 'd') && ci(s[2], 'R', 'r') {
            Some(0x40u16)
        } else if ci(s[0], 'S', 's') && ci(s[1], 'T', 't') && ci(s[2], 'R', 'r') {
            Some(0x80u16)
        } else if ci(s[0], 'R', 'r') && ci(s[1], 'T', 't') && ci(s[2], 'I', 'i') {
            Some(0x100u16)
        } else if ci(s[0], 'N', 'n') && ci(s[1], 'O', 'o') && ci(s[2], 'T', 't') {
            Some(0x200u16)
        } else if ci(s[0], 'L', 'l') && ci(s[1], 'D', 'd') && ci(s[2], 'I', 'i') {
            Some(0x400u16)
        } else if ci(s[0], 'S', 's') && ci(s[1], 'T', 't') && ci(s[2], 'I', 'i') {
            Some(0x800u16)
        } else if ci(s[0], 'J', 'j') && ci(s[1], 'M', 'm') && ci(s[2], 'P', 'p') {
            Some(0x1000u16)
        } else if ci(s[0], 'L', 'l') && ci(s[1], 'E', 'e') && ci(s[2], 'A', 'a') {
            Some(0x4000u16)
        } else {
            None
        }
    } else if s.len() == 4 {
        if ci(s[0], 'J', 'j') && ci(s[1], 'S', 's') && ci(s[2], 'R', 'r') && ci(s[3], 'R', 'r') {
            Some(0x10u16)
        } else if ci(s[0], 'T', 't') && ci(s[1], 'R', 'r') && ci(s[2], 'A', 'a') && ci(
            s[3],
            'P',
            'p',
        ) {
            Some(0x8000u16)
        } else {
            None
        }
    } else {
        None
    }
}

/// The opcode-interest bit of a mnemonic, matched without regard to case,
/// or `None` for a word that names no opcode.
pub fn mnemonic_bit(s: &str) -> (r: Option<u16>)
    ensures
        r == mnemonic_bit_spec(s@),
{
    let n = s.unicode_len();
    if n == 2 {
        let c0 = s.get_char(0);
        let c1 = s.get_char(1);
        if (c0 == 'B' || c0 == 'b') && (c1 == 'R' || c1 == 'r') {
            Some(0x1)
        } else if (c0 == 'L' || c0 == 'l') && (c1 == 'D' || c1 == 'd') {
            Some(0x4)
        } else if (c0 == 'S' || c0 == 's') && (c1 == 'T' || c1 == 't') {
            Some(0x8)
        } else {
            None
        }
    } else if n == 3 {
        let c0 = s.get_char(0);
        let c1 = s.get_char(1);
        let c2 = s.get_char(2);
        if (c0 == 'A' || c0 == 'a') && (c1 == 'D' || c1 == 'd') && (c2 == 'D' || c2 == 'd') {
            Some(0x2)
        } else if (c0 == 'J' || c0 == 'j') && (c1 == 'S' || c1 == 's') && (c2 == 'R' || c2 == 'r') {
            Some(0x10)
        } else if (c0 == 'A' || c0 == 'a') && (c1 == 'N' || c1 == 'n') && (c2 == 'D' || c2 == 'd') {
            Some(0x20)
        } else if (c0 == 'L' || c0 == 'l') && (c1 == 'D' || c1 == 'd') && (c2 == 'R' || c2 == 'r') {
            Some(0x40)
        } else if (c0 == 'S' || c0 == 's') && (c1 == 'T' || c1 == 't') && (c2 == 'R' || c2 == 'r') {
            Some(0x80)
        } else if (c0 == 'R' || c0 == 'r') && (c1 == 'T' || c1 == 't') && (c2 == 'I' || c2 == 'i') {
            Some(0x100)
        } else if (c0 == 'N' || c0 == 'n') && (c1 == 'O' || c1 == 'o') && (c2 == 'T' || c2 == 't') {
            Some(0x200)
        } else if (c0 == 'L' || c0 == 'l') && (c1 == 'D' || c1 == 'd') && (c2 == 'I' || c2 == 'i') {
            Some(0x400)
        } else if (c0 == 'S' || c0 == 's') && (c1 == 'T' || c1 == 't') && (c2 == 'I' || c2 == 'i') {
            Some(0x800)
        } else if (c0 == 'J' || c0 == 'j') && (c1 == 'M' || c1 == 'm') && (c2 == 'P' || c2 == 'p') {
            Some(0x1000)
        } else if (c0 == 'L' || c0 == 'l') && (c1 == 'E' || c1 == 'e') && (c2 == 'A' || c2 == 'a') {
            Some(0x4000)
        } else {
            None
        }
    } else if n == 4 {
        let c0 = s.get_char(0);
        let c1 = s.get_char(1);
        let c2 = s.get_char(2);
        let c3 = s.get_char(3);
        if (c0 == 'J' || c0 == 'j') && (c1 == 'S' || c1 == 's') && (c2 == 'R' || c2 == 'r') && (c3
            == 'R' || c3 == 'r') {
            Some(0x10)
        } else if (c0 == 'T' || c0 == 't') && (c1 == 'R' || c1 == 'r') && (c2 == 'A' || c2 == 'a')
            && (c3 == 'P' || c3 == 'p') {
            Some(0x8000)
        } else {
            None
        }
    } else {
        None
    }
}

/// Whether a word names one of the 16 opcode mnemonics, in any case
/// mixture. Used to validate tracing requests before a run starts.
pub fn valid_instruction(instr: String) -> (r: Result<(), String>)
    ensures
        r is Ok <==> mnemonic_bit_spec(instr@) is Some,
        r matches Err(m) ==> m@ == "Expected a valid instruction"@,
{
    match mnemonic_bit(instr.as_str()) {
        Some(_) => Ok(()),
        None => Err(String::from_str("Expected a valid instruction")),
    }
}

/// The opcode-interest bitmask that a list of mnemonics selects: the union
/// of the bits of the first `n` entries.
pub open spec fn mask_spec(l: Seq<Seq<char>>, n: int) -> u16
    decreases n,
{
    if n <= 0 {
        0u16
    } else {
        mask_spec(l, n - 1) | (match mnemonic_bit_spec(l[n - 1]) {
            Some(b) => b,
            None => 0u16,
        })
    }
}

/// Fold a list of mnemonics into the opcode-interest bitmask: the union of
/// their bits. A word that names no opcode contributes nothing.
pub fn instruction_mask(instrs: &Vec<String>) -> (r: u16)
    ensures
        r == mask_spec(instrs.deep_view(), instrs.deep_view().len() as int),
{
    let mut acc: u16 = 0;
    let mut i: usize = 0;
    while i < instrs.len()
        invariant
            i <= instrs@.len(),
            acc == mask_spec(instrs.deep_view(), i as int),
        decreases instrs@.len() - i,
    {
        match mnemonic_bit(instrs[i].as_str()) {
            Some(b) => {
                acc = acc | b;
            },
            None => {
                proof {
                    assert(acc | 0u16 == acc) by (bit_vector);
                }
            },
        }
        i = i + 1;
    }
    acc
}

/// Whether a tracer emits for opcode nibble `instruction` at program
/// counter `pc`: tracing must be on, the nibble's bit must be set in the
/// bitmask, and a user-space-only tracer also demands `pc` at or above the
/// start of user space.
pub open spec fn wants_spec(t: Tracer, instruction: u16, pc: u16) -> bool {
    match t {
        Tracer::NoTrace => false,
        Tracer::TraceFile(_, want, userspace) => (!userspace || pc >= USER_SPACE_START) && (want & (
        1u16 << instruction)) != 0,
    }
}

/// The ability to filter and record per-instruction snapshots.
pub trait Trace {
    /// Whether the tracer wants a snapshot of this instruction.
    fn wants(&self, instruction: u16, pc: u16) -> bool;

    /// Record one formatted snapshot.
    fn trace(&mut self, string: &str);
}

impl Tracer {
    /// Whether this tracer emits for the given opcode nibble and program
    /// counter.
    pub fn wants(&self, instruction: u16, pc: u16) -> (r: bool)
        requires
            instruction < 16,
        ensures
            r == wants_spec(*self, instruction, pc),
    {
        match self {
            Tracer::NoTrace => false,
            Tracer::TraceFile(_, want, userspace) => (!*userspace || pc >= USER_SPACE_START) && (*
            want & (1u16 << instruction)) != 0,
        }
    }

    /// Append one formatted snapshot to the log; a tracer that is off
    /// discards it.
    pub fn trace(&mut self, string: &str)
        ensures
            trace_rel(*old(self), *final(self), string@),
    {
        match self {
            Tracer::NoTrace => {
            },
            Tracer::TraceFile(log, _, _) => {
                log.append(string);
            },
        }
    }
}

/// How one emitted snapshot changes a tracer: appended to the log of an
/// active tracer, discarded by an inactive one; the configuration never
/// changes.
pub open spec fn trace_rel(pre: Tracer, post: Tracer, text: Seq<char>) -> bool {
    match pre {
        Tracer::NoTrace => post == pre,
        Tracer::TraceFile(log, want, userspace) => post matches Tracer::TraceFile(l2, w2, u2)
            && l2@ == log@ + text && w2 == want && u2 == userspace,
    }
}

impl Trace for Tracer {
    fn wants(&self, instruction: u16, pc: u16) -> bool {
        proof {
            assert((instruction & 0xF) < 16) by (bit_vector);
        }
        match self {
            Tracer::NoTrace => false,
            Tracer::TraceFile(_, want, userspace) => (!*userspace || pc >= USER_SPACE_START) && (*
            want & (1u16 << (instruction & 0xF))) != 0,
        }
    }

    fn trace(&mut self, string: &str) {
        match self {
            Tracer::NoTrace => {
            },
            Tracer::TraceFile(log, _, _) => {
                log.append(string);
            },
        }
    }
}

} // verus!
