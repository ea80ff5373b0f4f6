//! The instruction codec: a typed representation of the 16 opcode groups,
//! total decoding of raw 16-bit words, the inverse encoding, and the
//! execution semantics of each instruction against the machine state.

use vstd::prelude::*;
use super::prediction::Branch;
use super::{cc_mask, dev_read, dev_write, same_devices, wadd, wadd_signed, Simulator};

verus! {

/// The 16-bit pattern that a signed 16-bit value denotes: the same bits,
/// read as an unsigned word.
pub open spec fn unsigned16(x: i16) -> u16 {
    if x >= 0 {
        x as u16
    } else {
        (x + 0x10000) as u16
    }
}

/// Reinterpret a signed 16-bit value as its unsigned bit pattern.
pub fn to_unsigned16(x: i16) -> (r: u16)
    ensures
        r == unsigned16(x),
{
    proof {
        assert(x >= 0 ==> #[verifier::truncate] (x as u16) == x) by (bit_vector);
        assert(x < 0 ==> #[verifier::truncate] (x as u16) == x + 0x10000) by (bit_vector);
    }
    #[verifier::truncate] (x as u16)
}

/// The bit pattern that a field of `length` bits can hold: the low `length`
/// bits all set.
pub open spec fn field_mask(length: u16) -> u16
    recommends
        1 <= length <= 15,
{
    (((1u16 << length) - 1) as u16)
}

/// The low `length` bits of `val`: the raw field value.
pub open spec fn field_of(val: u16, length: u16) -> u16
    recommends
        1 <= length <= 15,
{
    val & field_mask(length)
}

/// The two's-complement interpretation of the low `length` bits of `val`:
/// a field whose top bit is set denotes a negative quantity.
pub open spec fn sign_extend_spec(val: u16, length: u16) -> int
    recommends
        1 <= length <= 15,
{
    if field_of(val, length) >= (1u16 << ((length - 1) as u16)) {
        field_of(val, length) - (1u16 << length)
    } else {
        field_of(val, length) as int
    }
}

/// Sign-extend the low `length` bits of `val` to a signed 16-bit integer,
/// treating the field's top bit as the sign bit.
pub fn sign_extend(val: u16, length: u16) -> (r: i16)
    requires
        1 <= length <= 15,
    ensures
        r as int == sign_extend_spec(val, length),
{
    proof {
        assert(1u16 << length >= 1) by (bit_vector)
            requires
                1 <= length <= 15,
        ;
    }
    let m: u16 = (1u16 << length) - 1;
    let f: u16 = val & m;
    if f & (1u16 << (length - 1)) != 0 {
        proof {
            assert((((f | !m) as i16) as int) == f - (1u16 << length)) by (bit_vector)
                requires
                    m == (((1u16 << length) - 1) as u16),
                    f == val & m,
                    f & (1u16 << ((length - 1) as u16)) != 0,
                    1 <= length <= 15,
            ;
            assert(f >= (1u16 << ((length - 1) as u16))) by (bit_vector)
                requires
                    f & (1u16 << ((length - 1) as u16)) != 0,
                    1 <= length <= 15,
            ;
        }
        #[verifier::truncate] ((f | !m) as i16)
    } else {
        proof {
            assert(((f as i16) as int) == f as int) by (bit_vector)
                requires
                    m == (((1u16 << length) - 1) as u16),
                    f == val & m,
                    f & (1u16 << ((length - 1) as u16)) == 0,
                    1 <= length <= 15,
            ;
            assert(field_of(val, length) < (1u16 << ((length - 1) as u16))) by (bit_vector)
                requires
                    m == (((1u16 << length) - 1) as u16),
                    f == val & m,
                    f & (1u16 << ((length - 1) as u16)) == 0,
                    1 <= length <= 15,
            ;
        }
        f as i16
    }
}

/// One decoded instruction. Each variant carries only the operand fields
/// that its opcode reads: register indices, sign-extended immediates of
/// width 5, 6, 9 or 11 bits, mode bits, and the verbatim spare bits that
/// the encoder must reproduce.
#[derive(Debug, Copy, Clone, PartialEq, Eq, Structural)]
pub enum Instruction {
    Branch(usize, i16),
    Add(usize, usize, bool, i16),
    Load(usize, i16),
    Store(usize, i16),
    JumpSubroutine(bool, i16),
    And(usize, usize, bool, i16),
    LoadRelative(usize, usize, i16),
    StoreRelative(usize, usize, i16),
    ReturnFromInterrupt(u16),
    Not(usize, usize, u16),
    LoadIndirect(usize, i16),
    StoreIndirect(usize, i16),
    Jump(u16, usize, u16),
    Reserved(u16),
    LoadEffectiveAddress(usize, i16),
    Trap(u16, u16),
}

/// The typed instruction that a raw word denotes. Total: the top four bits
/// select one of the 16 opcode groups, and the unassigned opcode value
/// decodes to `Reserved` with its low 12 bits kept verbatim.
pub open spec fn decode_spec(w: u16) -> Instruction {
    let dr = (((w >> 9) & 0x7) as usize);
    let sr1 = (((w >> 6) & 0x7) as usize);
    let off9 = sign_extend_spec(w, 9) as i16;
    let off6 = sign_extend_spec(w, 6) as i16;
    let imm5 = sign_extend_spec(w, 5) as i16;
    let op = w >> 12;
    if op == 0x0 {
        Instruction::Branch(dr, off9)
    } else if op == 0x1 {
        Instruction::Add(dr, sr1, (w & 0x20) == 0, imm5)
    } else if op == 0x2 {
        Instruction::Load(dr, off9)
    } else if op == 0x3 {
        Instruction::Store(dr, off9)
    } else if op == 0x4 {
        Instruction::JumpSubroutine((w & 0x0800) == 0, sign_extend_spec(w, 11) as i16)
    } else if op == 0x5 {
        Instruction::And(dr, sr1, (w & 0x20) == 0, imm5)
    } else if op == 0x6 {
        Instruction::LoadRelative(dr, sr1, off6)
    } else if op == 0x7 {
        Instruction::StoreRelative(dr, sr1, off6)
    } else if op == 0x8 {
        Instruction::ReturnFromInterrupt(w & 0x0FFF)
    } else if op == 0x9 {
        Instruction::Not(dr, sr1, w & 0x3F)
    } else if op == 0xA {
        Instruction::LoadIndirect(dr, off9)
    } else if op == 0xB {
        Instruction::StoreIndirect(dr, off9)
    } else if op == 0xC {
        Instruction::Jump(w & 0x0E00, sr1, w & 0x3F)
    } else if op == 0xD {
        Instruction::Reserved(w & 0x0FFF)
    } else if op == 0xE {
        Instruction::LoadEffectiveAddress(dr, off9)
    } else {
        Instruction::Trap(w & 0x0F00, w & 0x00FF)
    }
}

/// The raw word that a typed instruction denotes: each field is masked to
/// its width and placed at its bit position.
pub open spec fn encode_spec(i: Instruction) -> u16 {
    match i {
        Instruction::Branch(nzp, offset) => ((nzp << 9) as u16) | ((offset & 0x1FF) as u16),
        Instruction::Add(destination, source_one, from_register, source_two) => 0x1000 | ((
        destination << 9) as u16) | ((source_one << 6) as u16) | (if from_register {
            0x0u16
        } else {
            0x20u16
        }) | ((source_two & 0x1F) as u16),
        Instruction::Load(destination, offset) => 0x2000 | ((destination << 9) as u16) | ((offset
            & 0x1FF) as u16),
        Instruction::Store(source, offset) => 0x3000 | ((source << 9) as u16) | ((offset
            & 0x1FF) as u16),
        Instruction::JumpSubroutine(from_register, offset) => 0x4000 | (if from_register {
            0x0u16
        } else {
            0x0800u16
        }) | ((offset & 0x7FF) as u16),
        Instruction::And(destination, source_one, from_register, source_two) => 0x5000 | ((
        destination << 9) as u16) | ((source_one << 6) as u16) | (if from_register {
            0x0u16
        } else {
            0x20u16
        }) | ((source_two & 0x1F) as u16),
        Instruction::LoadRelative(destination, source, offset) => 0x6000 | ((destination
            << 9) as u16) | ((source << 6) as u16) | ((offset & 0x3F) as u16),
        Instruction::StoreRelative(source_one, source_two, offset) => 0x7000 | ((source_one
            << 9) as u16) | ((source_two << 6) as u16) | ((offset & 0x3F) as u16),
        Instruction::ReturnFromInterrupt(extra) => 0x8000 | extra,
        Instruction::Not(destination, source, bit6one) => 0x9000 | ((destination << 9) as u16) | ((
        source << 6) as u16) | bit6one,
        Instruction::LoadIndirect(destination, offset) => 0xA000 | ((destination << 9) as u16) | ((
        offset & 0x1FF) as u16),
        Instruction::StoreIndirect(source, offset) => 0xB000 | ((source << 9) as u16) | ((offset
            & 0x1FF) as u16),
        Instruction::Jump(bit3zero, register, bit6zero) => 0xC000 | bit3zero | ((register
            << 6) as u16) | bit6zero,
        Instruction::Reserved(extra) => 0xD000 | extra,
        Instruction::LoadEffectiveAddress(destination, offset) => 0xE000 | ((destination
            << 9) as u16) | ((offset & 0x1FF) as u16),
        Instruction::Trap(extra, vector) => 0xF000 | extra | (vector & 0x00FF),
    }
}

impl Instruction {
    /// Decode a raw 16-bit word into its typed instruction. Total over all
    /// 65536 bit patterns.
    pub fn decode(word: u16) -> (r: Instruction)
        ensures
            r == decode_spec(word),
            wf_instruction(r),
    {
        proof {
            lemma_decode_wf(word);
        }
        let dr: usize = (((word >> 9) & 0x7) as usize);
        let sr1: usize = (((word >> 6) & 0x7) as usize);
        match word >> 12 {
            0x0 => Self::Branch(dr, sign_extend(word, 9)),
            0x1 => Self::Add(dr, sr1, (word & 0x20) == 0, sign_extend(word, 5)),
            0x2 => Self::Load(dr, sign_extend(word, 9)),
            0x3 => Self::Store(dr, sign_extend(word, 9)),
            0x4 => Self::JumpSubroutine((word & 0x0800) == 0, sign_extend(word, 11)),
            0x5 => Self::And(dr, sr1, (word & 0x20) == 0, sign_extend(word, 5)),
            0x6 => Self::LoadRelative(dr, sr1, sign_extend(word, 6)),
            0x7 => Self::StoreRelative(dr, sr1, sign_extend(word, 6)),
            0x8 => Self::ReturnFromInterrupt(word & 0x0FFF),
            0x9 => Self::Not(dr, sr1, word & 0x3F),
            0xA => Self::LoadIndirect(dr, sign_extend(word, 9)),
            0xB => Self::StoreIndirect(dr, sign_extend(word, 9)),
            0xC => Self::Jump(word & 0x0E00, sr1, word & 0x3F),
            0xD => Self::Reserved(word & 0x0FFF),
            0xE => Self::LoadEffectiveAddress(dr, sign_extend(word, 9)),
            _ => Self::Trap(word & 0x0F00, word & 0x00FF),
        }
    }

    /// Encode a typed instruction back into its raw 16-bit word. The left
    /// inverse of `decode`: every field is masked to its width, so encoding
    /// what `decode` produced reproduces the word exactly.
    pub fn encode(self) -> (r: u16)
        ensures
            r == encode_spec(self),
    {
        match self {
            Instruction::Branch(nzp, offset) => ((nzp << 9) as u16) | ((offset & 0x1FF) as u16),
            Instruction::Add(destination, source_one, from_register, source_two) => 0x1000 | ((
            destination << 9) as u16) | ((source_one << 6) as u16) | (if from_register {
                0x0u16
            } else {
                0x20u16
            }) | ((source_two & 0x1F) as u16),
            Instruction::Load(destination, offset) => 0x2000 | ((destination << 9) as u16) | ((
            offset & 0x1FF) as u16),
            Instruction::Store(source, offset) => 0x3000 | ((source << 9) as u16) | ((offset
                & 0x1FF) as u16),
            Instruction::JumpSubroutine(from_register, offset) => 0x4000 | (if from_register {
                0x0u16
            } else {
                0x0800u16
            }) | ((offset & 0x7FF) as u16),
            Instruction::And(destination, source_one, from_register, source_two) => 0x5000 | ((
            destination << 9) as u16) | ((source_one << 6) as u16) | (if from_register {
                0x0u16
            } else {
                0x20u16
            }) | ((source_two & 0x1F) as u16),
            Instruction::LoadRelative(destination, source, offset) => 0x6000 | ((destination
                << 9) as u16) | ((source << 6) as u16) | ((offset & 0x3F) as u16),
            Instruction::StoreRelative(source_one, source_two, offset) => 0x7000 | ((source_one
                << 9) as u16) | ((source_two << 6) as u16) | ((offset & 0x3F) as u16),
            Instruction::ReturnFromInterrupt(extra) => 0x8000 | extra,
            Instruction::Not(destination, source, bit6one) => 0x9000 | ((destination
                << 9) as u16) | ((source << 6) as u16) | bit6one,
            Instruction::LoadIndirect(destination, offset) => 0xA000 | ((destination
                << 9) as u16) | ((offset & 0x1FF) as u16),
            Instruction::StoreIndirect(source, offset) => 0xB000 | ((source << 9) as u16) | ((
            offset & 0x1FF) as u16),
            Instruction::Jump(bit3zero, register, bit6zero) => 0xC000 | bit3zero | ((register
                << 6) as u16) | bit6zero,
            Instruction::Reserved(extra) => 0xD000 | extra,
            Instruction::LoadEffectiveAddress(destination, offset) => 0xE000 | ((destination
                << 9) as u16) | ((offset & 0x1FF) as u16),
            Instruction::Trap(extra, vector) => 0xF000 | extra | (vector & 0x00FF),
        }
    }

    /// Execute this instruction against the machine: perform its register
    /// and memory reads and writes through the single register-write and
    /// device-layer entry points, update the program counter for
    /// control-flow opcodes, and report the branch outcome together with
    /// the instruction itself.
    pub fn execute(self, simulator: &mut Simulator) -> (r: (Branch, Instruction))
        requires
            old(simulator).wf(),
            wf_instruction(self),
        ensures
            final(simulator).wf(),
            exec_rel(self, *old(simulator), *final(simulator)),
            r.0 == branch_of(self, *old(simulator)),
            r.1 == self,
    {
        match self {
            Self::Branch(nzp, offset) => {
                if nzp & simulator.cc != 0 {
                    simulator.pc = simulator.pc.wrapping_add_signed(offset);
                    (Branch::Taken, self)
                } else {
                    (Branch::NotTaken, self)
                }
            },
            Self::Add(destination, source_one, from_register, source_two) => {
                let value = if from_register {
                    proof {
                        assert((source_two & 0x7) >= 0 && (source_two & 0x7) < 8) by (bit_vector);
                    }
                    let idx: usize = ((source_two & 0x7) as usize);
                    simulator.read_register(source_one).wrapping_add(simulator.read_register(idx))
                } else {
                    simulator.read_register(source_one).wrapping_add_signed(source_two)
                };
                simulator.write_register(destination, value);
                (Branch::NoBranch, self)
            },
            Self::Load(destination, offset) => {
                let addr = simulator.pc.wrapping_add_signed(offset);
                let value = simulator.read_memory(addr);
                let ghost mid = *simulator;
                simulator.write_register(destination, value);
                proof {
                    super::lemma_dev_read_frame(*old(simulator), mid, *simulator, addr, value);
                    assert(dev_read(
                        *old(simulator),
                        *simulator,
                        wadd_signed(old(simulator).pc, offset),
                        value,
                    ));
                }
                (Branch::NoBranch, self)
            },
            Self::Store(source, offset) => {
                let addr = simulator.pc.wrapping_add_signed(offset);
                let value = simulator.read_register(source);
                simulator.write_memory(addr, value);
                (Branch::NoBranch, self)
            },
            Self::JumpSubroutine(from_register, offset) => {
                let saved_pc = simulator.pc;
                simulator.write_register_no_update(7, saved_pc);
                if from_register {
                    proof {
                        assert(((offset & 0x01C0) >> 6) >= 0 && ((offset & 0x01C0) >> 6) < 8)
                            by (bit_vector);
                    }
                    let idx: usize = (((offset & 0x01C0) >> 6) as usize);
                    let target = simulator.read_register(idx);
                    simulator.pc = target;
                } else {
                    simulator.pc = saved_pc.wrapping_add_signed(offset);
                }
                (Branch::Jump, self)
            },
            Self::And(destination, source_one, from_register, source_two) => {
                let value = if from_register {
                    proof {
                        assert((source_two & 0x7) >= 0 && (source_two & 0x7) < 8) by (bit_vector);
                    }
                    let idx: usize = ((source_two & 0x7) as usize);
                    simulator.read_register(source_one) & simulator.read_register(idx)
                } else {
                    simulator.read_register(source_one) & to_unsigned16(source_two)
                };
                simulator.write_register(destination, value);
                (Branch::NoBranch, self)
            },
            Self::LoadRelative(destination, source, offset) => {
                let base = simulator.read_register(source);
                let addr = base.wrapping_add_signed(offset);
                let value = simulator.read_memory(addr);
                let ghost mid = *simulator;
                simulator.write_register(destination, value);
                proof {
                    super::lemma_dev_read_frame(*old(simulator), mid, *simulator, addr, value);
                    assert(dev_read(
                        *old(simulator),
                        *simulator,
                        wadd_signed(old(simulator).registers@[source as int], offset),
                        value,
                    ));
                }
                (Branch::NoBranch, self)
            },
            Self::StoreRelative(source_one, source_two, offset) => {
                let base = simulator.read_register(source_two);
                let addr = base.wrapping_add_signed(offset);
                let value = simulator.read_register(source_one);
                simulator.write_memory(addr, value);
                (Branch::NoBranch, self)
            },
            Self::Not(destination, source, _) => {
                let value = !simulator.read_register(source);
                simulator.write_register(destination, value);
                (Branch::NoBranch, self)
            },
            Self::LoadIndirect(destination, offset) => {
                let addr = simulator.pc.wrapping_add_signed(offset);
                let indirect = simulator.read_memory(addr);
                let ghost mid = *simulator;
                let value = simulator.read_memory(indirect);
                let ghost mid2 = *simulator;
                simulator.write_register(destination, value);
                proof {
                    super::lemma_dev_read_frame(mid, mid2, *simulator, indirect, value);
                    assert(dev_read(
                        *old(simulator),
                        mid,
                        wadd_signed(old(simulator).pc, offset),
                        indirect,
                    ));
                    assert(dev_read(mid, *simulator, indirect, value));
                }
                (Branch::NoBranch, self)
            },
            Self::StoreIndirect(source, offset) => {
                let addr = simulator.pc.wrapping_add_signed(offset);
                let indirect = simulator.read_memory(addr);
                let ghost mid = *simulator;
                let value = simulator.read_register(source);
                simulator.write_memory(indirect, value);
                proof {
                    assert(dev_read(
                        *old(simulator),
                        mid,
                        wadd_signed(old(simulator).pc, offset),
                        indirect,
                    ));
                    assert(dev_write(
                        mid,
                        *simulator,
                        indirect,
                        old(simulator).registers@[source as int],
                    ));
                }
                (Branch::NoBranch, self)
            },
            Self::Jump(_, register, _) => {
                let target = simulator.read_register(register);
                simulator.pc = target;
                (Branch::Jump, self)
            },
            Self::LoadEffectiveAddress(destination, offset) => {
                let value = simulator.pc.wrapping_add_signed(offset);
                simulator.write_register(destination, value);
                (Branch::NoBranch, self)
            },
            Self::Trap(_, vector) => {
                let target = simulator.read_memory(vector);
                let ghost mid = *simulator;
                let saved_pc = simulator.pc;
                simulator.write_register_no_update(7, saved_pc);
                simulator.pc = target;
                proof {
                    super::lemma_dev_read_frame(*old(simulator), mid, *simulator, vector, target);
                }
                (Branch::Jump, self)
            },
            Self::ReturnFromInterrupt(_) | Self::Reserved(_) => (Branch::NoBranch, self),
        }
    }

    /// Whether executing this instruction can transfer control somewhere
    /// other than the next instruction.
    pub fn branches(&self) -> (r: bool)
        ensures
            r == (self matches Instruction::Branch(..) || self matches Instruction::JumpSubroutine(
                ..,
            ) || self matches Instruction::Jump(..) || self matches Instruction::Trap(..)),
    {
        match *self {
            Self::Branch(_, _) | Self::JumpSubroutine(_, _) | Self::Jump(_, _, _) | Self::Trap(
                _,
                _,
            ) => true,
            _ => false,
        }
    }
}

/// Every register index that an instruction carries names one of the
/// eight registers. Decoding establishes this; execution relies on it.
pub open spec fn wf_instruction(i: Instruction) -> bool {
    match i {
        Instruction::Branch(nzp, _) => nzp < 8,
        Instruction::Add(d, s1, _, _) => d < 8 && s1 < 8,
        Instruction::Load(d, _) => d < 8,
        Instruction::Store(s, _) => s < 8,
        Instruction::JumpSubroutine(_, _) => true,
        Instruction::And(d, s1, _, _) => d < 8 && s1 < 8,
        Instruction::LoadRelative(d, b, _) => d < 8 && b < 8,
        Instruction::StoreRelative(s, b, _) => s < 8 && b < 8,
        Instruction::ReturnFromInterrupt(_) => true,
        Instruction::Not(d, s, _) => d < 8 && s < 8,
        Instruction::LoadIndirect(d, _) => d < 8,
        Instruction::StoreIndirect(s, _) => s < 8,
        Instruction::Jump(_, r, _) => r < 8,
        Instruction::Reserved(_) => true,
        Instruction::LoadEffectiveAddress(d, _) => d < 8,
        Instruction::Trap(_, _) => true,
    }
}

/// Whatever word is decoded, the register indices it yields are in range.
pub proof fn lemma_decode_wf(w: u16)
    ensures
        wf_instruction(decode_spec(w)),
{
    assert((((w >> 9) & 0x7) as usize) < 8 && (((w >> 6) & 0x7) as usize) < 8) by (bit_vector);
}

/// The branch outcome that executing the instruction reports: taken or
/// not taken for a conditional branch, an unconditional transfer for JSR,
/// JMP and TRAP, and no branch for the rest.
pub open spec fn branch_of(i: Instruction, pre: Simulator) -> Branch {
    match i {
        Instruction::Branch(nzp, _) => if nzp & pre.cc != 0 {
            Branch::Taken
        } else {
            Branch::NotTaken
        },
        Instruction::JumpSubroutine(_, _) | Instruction::Jump(_, _, _) | Instruction::Trap(
            _,
            _,
        ) => Branch::Jump,
        _ => Branch::NoBranch,
    }
}

/// One register write with its condition-code side effect, and nothing
/// else: what ADD, AND, NOT, LEA and the completed loads do to the state.
pub open spec fn reg_write_step(pre: Simulator, post: Simulator, d: usize, v: u16) -> bool {
    &&& post.memory@ == pre.memory@
    &&& same_devices(pre, post)
    &&& post.pc == pre.pc
    &&& post.ir == pre.ir
    &&& post.registers@ == pre.registers@.update(d as int, v)
    &&& post.cc == cc_mask(v)
}

/// What executing one decoded instruction does to the machine. Reads and
/// writes of memory go through the device layer (`dev_read`, `dev_write`),
/// so loads and stores that touch a mapped register carry its side
/// effects; all address arithmetic wraps modulo 65536; the instruction
/// register is left for the fetch stage to change.
pub open spec fn exec_rel(i: Instruction, pre: Simulator, post: Simulator) -> bool {
    match i {
        Instruction::Branch(nzp, offset) => {
            &&& post.memory@ == pre.memory@
            &&& same_devices(pre, post)
            &&& post.registers@ == pre.registers@
            &&& post.cc == pre.cc
            &&& post.ir == pre.ir
            &&& post.pc == (if nzp & pre.cc != 0 {
                wadd_signed(pre.pc, offset)
            } else {
                pre.pc
            })
        },
        Instruction::Add(d, s1, from_register, s2) => {
            let v = (if from_register {
                wadd(pre.registers@[s1 as int], pre.registers@[(s2 & 0x7) as int])
            } else {
                wadd_signed(pre.registers@[s1 as int], s2)
            });
            reg_write_step(pre, post, d, v)
        },
        Instruction::Load(d, offset) => {
            &&& post.pc == pre.pc
            &&& post.ir == pre.ir
            &&& exists|v: u16|
                #[trigger] dev_read(pre, post, wadd_signed(pre.pc, offset), v) && post.registers@
                    == pre.registers@.update(d as int, v) && post.cc == cc_mask(v)
        },
        Instruction::Store(s, offset) => {
            &&& dev_write(pre, post, wadd_signed(pre.pc, offset), pre.registers@[s as int])
            &&& post.registers@ == pre.registers@
            &&& post.cc == pre.cc
            &&& post.pc == pre.pc
            &&& post.ir == pre.ir
        },
        Instruction::JumpSubroutine(from_register, offset) => {
            let saved = pre.registers@.update(7, pre.pc);
            &&& post.memory@ == pre.memory@
            &&& same_devices(pre, post)
            &&& post.registers@ == saved
            &&& post.cc == pre.cc
            &&& post.ir == pre.ir
            &&& post.pc == (if from_register {
                saved[((offset & 0x01C0) >> 6) as int]
            } else {
                wadd_signed(pre.pc, offset)
            })
        },
        Instruction::And(d, s1, from_register, s2) => {
            let v = pre.registers@[s1 as int] & (if from_register {
                pre.registers@[(s2 & 0x7) as int]
            } else {
                unsigned16(s2)
            });
            reg_write_step(pre, post, d, v)
        },
        Instruction::LoadRelative(d, b, offset) => {
            &&& post.pc == pre.pc
            &&& post.ir == pre.ir
            &&& exists|v: u16|
                #[trigger] dev_read(
                    pre,
                    post,
                    wadd_signed(pre.registers@[b as int], offset),
                    v,
                ) && post.registers@ == pre.registers@.update(d as int, v) && post.cc == cc_mask(v)
        },
        Instruction::StoreRelative(s, b, offset) => {
            &&& dev_write(
                pre,
                post,
                wadd_signed(pre.registers@[b as int], offset),
                pre.registers@[s as int],
            )
            &&& post.registers@ == pre.registers@
            &&& post.cc == pre.cc
            &&& post.pc == pre.pc
            &&& post.ir == pre.ir
        },
        Instruction::ReturnFromInterrupt(_) => post == pre,
        Instruction::Not(d, s, _) => reg_write_step(pre, post, d, !pre.registers@[s as int]),
        Instruction::LoadIndirect(d, offset) => {
            &&& post.pc == pre.pc
            &&& post.ir == pre.ir
            &&& exists|ind: u16, v: u16, mid: Simulator|
                #![trigger dev_read(pre, mid, wadd_signed(pre.pc, offset), ind), dev_read(mid, post, ind, v)]
                {
                    &&& dev_read(pre, mid, wadd_signed(pre.pc, offset), ind)
                    &&& dev_read(mid, post, ind, v)
                    &&& post.registers@ == pre.registers@.update(d as int, v)
                    &&& post.cc == cc_mask(v)
                }
        },
        Instruction::StoreIndirect(s, offset) => {
            &&& post.registers@ == pre.registers@
            &&& post.cc == pre.cc
            &&& post.pc == pre.pc
            &&& post.ir == pre.ir
            &&& exists|ind: u16, mid: Simulator|
                #![trigger dev_read(pre, mid, wadd_signed(pre.pc, offset), ind), dev_write(mid, post, ind, pre.registers@[s as int])]
                {
                    &&& dev_read(pre, mid, wadd_signed(pre.pc, offset), ind)
                    &&& dev_write(mid, post, ind, pre.registers@[s as int])
                }
        },
        Instruction::Jump(_, r, _) => {
            &&& post.memory@ == pre.memory@
            &&& same_devices(pre, post)
            &&& post.registers@ == pre.registers@
            &&& post.cc == pre.cc
            &&& post.ir == pre.ir
            &&& post.pc == pre.registers@[r as int]
        },
        Instruction::Reserved(_) => post == pre,
        Instruction::LoadEffectiveAddress(d, offset) => reg_write_step(
            pre,
            post,
            d,
            wadd_signed(pre.pc, offset),
        ),
        Instruction::Trap(_, vector) => {
            &&& post.registers@ == pre.registers@.update(7, pre.pc)
            &&& post.cc == pre.cc
            &&& post.ir == pre.ir
            &&& exists|v: u16| #[trigger] dev_read(pre, post, vector, v) && post.pc == v
        },
    }
}

/// Decoding is undone exactly by encoding: every raw word, canonical or
/// not, survives the round trip through the typed representation.
pub proof fn lemma_encode_decode(w: u16)
    ensures
        encode_spec(decode_spec(w)) == w,
{
    let op = w >> 12;
    assert(w >> 12 <= 15) by (bit_vector);
    if op == 0x0 {
        assert((((((w >> 9) & 0x7) as usize) << 9) as u16) | (((sign_extend_spec(w, 9) as i16)
            & 0x1FF) as u16) == w) by (bit_vector)
            requires
                w >> 12 == 0,
        ;
    } else if op == 0x1 {
        assert(0x1000 | (((((w >> 9) & 0x7) as usize) << 9) as u16) | (((((w >> 6)
            & 0x7) as usize) << 6) as u16) | (if (w & 0x20) == 0 {
            0x0u16
        } else {
            0x20u16
        }) | (((sign_extend_spec(w, 5) as i16) & 0x1F) as u16) == w) by (bit_vector)
            requires
                w >> 12 == 1,
        ;
    } else if op == 0x2 {
        assert(0x2000 | (((((w >> 9) & 0x7) as usize) << 9) as u16) | (((sign_extend_spec(w,
            9) as i16) & 0x1FF) as u16) == w) by (bit_vector)
            requires
                w >> 12 == 2,
        ;
    } else if op == 0x3 {
        assert(0x3000 | (((((w >> 9) & 0x7) as usize) << 9) as u16) | (((sign_extend_spec(w,
            9) as i16) & 0x1FF) as u16) == w) by (bit_vector)
            requires
                w >> 12 == 3,
        ;
    } else if op == 0x4 {
        assert(0x4000 | (if (w & 0x0800) == 0 {
            0x0u16
        } else {
            0x0800u16
        }) | (((sign_extend_spec(w, 11) as i16) & 0x7FF) as u16) == w) by (bit_vector)
            requires
                w >> 12 == 4,
        ;
    } else if op == 0x5 {
        assert(0x5000 | (((((w >> 9) & 0x7) as usize) << 9) as u16) | (((((w >> 6)
            & 0x7) as usize) << 6) as u16) | (if (w & 0x20) == 0 {
            0x0u16
        } else {
            0x20u16
        }) | (((sign_extend_spec(w, 5) as i16) & 0x1F) as u16) == w) by (bit_vector)
            requires
                w >> 12 == 5,
        ;
    } else if op == 0x6 {
        assert(0x6000 | (((((w >> 9) & 0x7) as usize) << 9) as u16) | (((((w >> 6)
            & 0x7) as usize) << 6) as u16) | (((sign_extend_spec(w, 6) as i16)
            & 0x3F) as u16) == w) by (bit_vector)
            requires
                w >> 12 == 6,
        ;
    } else if op == 0x7 {
        assert(0x7000 | (((((w >> 9) & 0x7) as usize) << 9) as u16) | (((((w >> 6)
            & 0x7) as usize) << 6) as u16) | (((sign_extend_spec(w, 6) as i16)
            & 0x3F) as u16) == w) by (bit_vector)
            requires
                w >> 12 == 7,
        ;
    } else if op == 0x8 {
        assert(0x8000 | (w & 0x0FFF) == w) by (bit_vector)
            requires
                w >> 12 == 8,
        ;
    } else if op == 0x9 {
        assert(0x9000 | (((((w >> 9) & 0x7) as usize) << 9) as u16) | (((((w >> 6)
            & 0x7) as usize) << 6) as u16) | (w & 0x3F) == w) by (bit_vector)
            requires
                w >> 12 == 9,
        ;
    } else if op == 0xA {
        assert(0xA000 | (((((w >> 9) & 0x7) as usize) << 9) as u16) | (((sign_extend_spec(w,
            9) as i16) & 0x1FF) as u16) == w) by (bit_vector)
            requires
                w >> 12 == 10,
        ;
    } else if op == 0xB {
        assert(0xB000 | (((((w >> 9) & 0x7) as usize) << 9) as u16) | (((sign_extend_spec(w,
            9) as i16) & 0x1FF) as u16) == w) by (bit_vector)
            requires
                w >> 12 == 11,
        ;
    } else if op == 0xC {
        assert(0xC000 | (w & 0x0E00) | (((((w >> 6) & 0x7) as usize) << 6) as u16) | (w
            & 0x3F) == w) by (bit_vector)
            requires
                w >> 12 == 12,
        ;
    } else if op == 0xD {
        assert(0xD000 | (w & 0x0FFF) == w) by (bit_vector)
            requires
                w >> 12 == 13,
        ;
    } else if op == 0xE {
        assert(0xE000 | (((((w >> 9) & 0x7) as usize) << 9) as u16) | (((sign_extend_spec(w,
            9) as i16) & 0x1FF) as u16) == w) by (bit_vector)
            requires
                w >> 12 == 14,
        ;
    } else {
        assert(0xF000 | (w & 0x0F00) | ((w & 0x00FF) & 0x00FF) == w) by (bit_vector)
            requires
                w >> 12 == 15,
        ;
    }
}

} // verus!
