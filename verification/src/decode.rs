//! Instruction decoder: a stateless transformation from a 32-bit instruction
//! word to its named bit-fields.
//!
//! The decoder has no side effects; every accessor is a pure function of the
//! word, specified by the `spec_*` functions of this module.
use vstd::prelude::*;

verus! {

/// Operation class selected by the top 6 bits of an instruction word.
///
/// `Special` signals "look deeper": the operation is selected by the
/// secondary opcode in the bottom 6 bits instead.
#[derive(Clone, Copy, Debug, PartialEq, Eq, Structural)]
pub enum Opcode {
    Special,
    LoadUpperImmediate,
    OrImmediate,
    StoreWord,
    AddImmediateUnsignedWord,
    Jump,
}

/// Operation selected by the bottom 6 bits of an instruction word, consulted
/// only when the primary opcode is [`Opcode::Special`].
#[derive(Clone, Copy, Debug, PartialEq, Eq, Structural)]
pub enum SecondaryOpcode {
    ShiftLeftLogical,
    Or,
}

/// A 32-bit instruction word, immutable once constructed.
#[derive(Clone, Copy, Debug, PartialEq, Eq, Structural)]
pub struct Instruction(pub u32);

/// Bits 31..26: the primary opcode field.
pub open spec fn spec_primary_bits(w: u32) -> u32 {
    w >> 26u32
}

/// The opcode table: which primary opcode values have a mapped variant.
pub open spec fn spec_opcode_of_bits(bits: u32) -> Option<Opcode> {
    if bits == 0 {
        Some(Opcode::Special)
    } else if bits == 0b0000_1111 {
        Some(Opcode::LoadUpperImmediate)
    } else if bits == 0b0000_1101 {
        Some(Opcode::OrImmediate)
    } else if bits == 0b0010_1011 {
        Some(Opcode::StoreWord)
    } else if bits == 0b0000_1001 {
        Some(Opcode::AddImmediateUnsignedWord)
    } else if bits == 0b0000_0010 {
        Some(Opcode::Jump)
    } else {
        None
    }
}

/// Primary opcode of a word, or `None` if its value has no mapped variant.
pub open spec fn spec_primary_opcode(w: u32) -> Option<Opcode> {
    spec_opcode_of_bits(spec_primary_bits(w))
}

/// Bits 5..0: the secondary opcode field.
pub open spec fn spec_secondary_bits(w: u32) -> u32 {
    0b0011_1111u32 & w
}

/// The secondary opcode table, consulted under [`Opcode::Special`].
pub open spec fn spec_secondary_of_bits(bits: u32) -> Option<SecondaryOpcode> {
    if bits == 0 {
        Some(SecondaryOpcode::ShiftLeftLogical)
    } else if bits == 0b0010_0101 {
        Some(SecondaryOpcode::Or)
    } else {
        None
    }
}

/// Secondary opcode of a word, or `None` if its value has no mapped variant.
pub open spec fn spec_secondary_opcode(w: u32) -> Option<SecondaryOpcode> {
    spec_secondary_of_bits(spec_secondary_bits(w))
}

/// Bits 25..21: the `rs` source-register field (also the `base` field of
/// memory-access instructions).
pub open spec fn spec_rs(w: u32) -> u32 {
    0b0001_1111u32 & (w >> 21u32)
}

/// Bits 20..16: the `rt` target-register field.
pub open spec fn spec_rt(w: u32) -> u32 {
    0b0001_1111u32 & (w >> 16u32)
}

/// Bits 15..11: the `rd` destination-register field.
pub open spec fn spec_rd(w: u32) -> u32 {
    0b0001_1111u32 & (w >> 11u32)
}

/// Bits 15..0: the unsigned immediate (also the `offset` field of
/// memory-access instructions).
pub open spec fn spec_immediate(w: u32) -> u32 {
    0xFFFFu32 & w
}

/// A 16-bit quantity reinterpreted as two's complement and widened to 32 bits
/// with sign propagation.
pub open spec fn spec_sign_extend16(imm: u32) -> u32 {
    if 0x8000u32 & imm != 0 {
        0xFFFF_0000u32 | imm
    } else {
        imm
    }
}

/// Bits 10..6: the shift-amount field.
pub open spec fn spec_sa(w: u32) -> u32 {
    0b0001_1111u32 & (w >> 6u32)
}

/// Bits 25..0: the jump target index.
pub open spec fn spec_instr_index(w: u32) -> u32 {
    0x03FF_FFFFu32 & w
}

impl Instruction {
    /// Primary opcode, or `None` if the word's top 6 bits are unmapped.
    pub fn sop(&self) -> (r: Option<Opcode>)
        ensures
            r == spec_primary_opcode(self.0),
    {
        let op: u32 = self.0 >> 26u32;
        if op == 0 {
            Some(Opcode::Special)
        } else if op == 0b0000_1111 {
            Some(Opcode::LoadUpperImmediate)
        } else if op == 0b0000_1101 {
            Some(Opcode::OrImmediate)
        } else if op == 0b0010_1011 {
            Some(Opcode::StoreWord)
        } else if op == 0b0000_1001 {
            Some(Opcode::AddImmediateUnsignedWord)
        } else if op == 0b0000_0010 {
            Some(Opcode::Jump)
        } else {
            None
        }
    }

    /// Secondary opcode, meaningful only when [`Instruction::sop`] returns
    /// [`Opcode::Special`]; `None` if the bottom 6 bits are unmapped.
    pub fn secondary_opcode(&self) -> (r: Option<SecondaryOpcode>)
        ensures
            r == spec_secondary_opcode(self.0),
    {
        let sop: u32 = 0b0011_1111 & self.0;
        if sop == 0 {
            Some(SecondaryOpcode::ShiftLeftLogical)
        } else if sop == 0b0010_0101 {
            Some(SecondaryOpcode::Or)
        } else {
            None
        }
    }

    /// The `rs` source-register index, always below 32.
    pub fn gpr_rs(&self) -> (r: crate::cpu::RegisterIndex)
        ensures
            r.0 == spec_rs(self.0),
            r.0 < 32,
    {
        proof {
            lemma_five_bit_field_bound(self.0 >> 21u32);
        }
        crate::cpu::RegisterIndex(0b0001_1111 & (self.0 >> 21u32))
    }

    /// The `base` field of memory-access instructions; an alias of `rs`.
    pub fn base(&self) -> (r: u32)
        ensures
            r == spec_rs(self.0),
            r < 32,
    {
        proof {
            lemma_five_bit_field_bound(self.0 >> 21u32);
        }
        0b0001_1111 & (self.0 >> 21u32)
    }

    /// The `rt` target-register index, always below 32.
    pub fn gpr_rt(&self) -> (r: crate::cpu::RegisterIndex)
        ensures
            r.0 == spec_rt(self.0),
            r.0 < 32,
    {
        proof {
            lemma_five_bit_field_bound(self.0 >> 16u32);
        }
        crate::cpu::RegisterIndex(0b0001_1111 & (self.0 >> 16u32))
    }

    /// The `rd` destination-register index, always below 32.
    pub fn gpr_rd(&self) -> (r: crate::cpu::RegisterIndex)
        ensures
            r.0 == spec_rd(self.0),
            r.0 < 32,
    {
        proof {
            lemma_five_bit_field_bound(self.0 >> 11u32);
        }
        crate::cpu::RegisterIndex(0b0001_1111 & (self.0 >> 11u32))
    }

    /// The unsigned 16-bit immediate, always below `0x10000`.
    pub fn immediate(&self) -> (r: u32)
        ensures
            r == spec_immediate(self.0),
            r < 0x10000,
    {
        proof {
            lemma_sixteen_bit_field_bound(self.0);
        }
        0xFFFF & self.0
    }

    /// The `offset` field of memory-access instructions; an alias of the
    /// immediate.
    pub fn offset(&self) -> (r: u32)
        ensures
            r == spec_immediate(self.0),
            r < 0x10000,
    {
        proof {
            lemma_sixteen_bit_field_bound(self.0);
        }
        0xFFFF & self.0
    }

    /// The immediate, sign-extended to 32 bits.
    pub fn immediate_sign_extended(&self) -> (r: u32)
        ensures
            r == spec_sign_extend16(spec_immediate(self.0)),
    {
        let imm = self.immediate();
        if 0x8000 & imm != 0 {
            0xFFFF_0000 | imm
        } else {
            imm
        }
    }

    /// The offset, sign-extended to 32 bits; an alias of the sign-extended
    /// immediate.
    pub fn offset_sign_extended(&self) -> (r: u32)
        ensures
            r == spec_sign_extend16(spec_immediate(self.0)),
    {
        self.immediate_sign_extended()
    }

    /// The shift amount, always below 32.
    pub fn sa(&self) -> (r: u32)
        ensures
            r == spec_sa(self.0),
            r < 32,
    {
        proof {
            lemma_five_bit_field_bound(self.0 >> 6u32);
        }
        0b0001_1111 & (self.0 >> 6u32)
    }

    /// The 26-bit jump target index, always below `0x4000000`.
    pub fn instr_index(&self) -> (r: u32)
        ensures
            r == spec_instr_index(self.0),
            r < 0x0400_0000,
    {
        proof {
            lemma_twentysix_bit_field_bound(self.0);
        }
        0x03FF_FFFF & self.0
    }
}

/// The ranges of every decoded field: register indices and shift amounts are
/// 5-bit, the immediate 16-bit, the jump target index 26-bit.
pub proof fn lemma_field_bounds(w: u32)
    ensures
        spec_rs(w) < 32,
        spec_rt(w) < 32,
        spec_rd(w) < 32,
        spec_sa(w) < 32,
        spec_immediate(w) < 0x10000,
        spec_instr_index(w) < 0x0400_0000,
{
    lemma_five_bit_field_bound(w >> 21u32);
    lemma_five_bit_field_bound(w >> 16u32);
    lemma_five_bit_field_bound(w >> 11u32);
    lemma_five_bit_field_bound(w >> 6u32);
    lemma_sixteen_bit_field_bound(w);
    lemma_twentysix_bit_field_bound(w);
}

/// A 5-bit field masked out of a word is below 32.
proof fn lemma_five_bit_field_bound(x: u32)
    ensures
        0b0001_1111u32 & x < 32,
{
    assert(0b0001_1111u32 & x < 32) by (bit_vector);
}

/// A 16-bit field masked out of a word is below `0x10000`.
proof fn lemma_sixteen_bit_field_bound(x: u32)
    ensures
        0xFFFFu32 & x < 0x10000,
{
    assert(0xFFFFu32 & x < 0x10000) by (bit_vector);
}

/// A 26-bit field masked out of a word is below `0x4000000`.
proof fn lemma_twentysix_bit_field_bound(x: u32)
    ensures
        0x03FF_FFFFu32 & x < 0x0400_0000,
{
    assert(0x03FF_FFFFu32 & x < 0x0400_0000) by (bit_vector);
}

} // verus!
