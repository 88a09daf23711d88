//! Defines the [`StepContext`] type: what the virtual machine knows of the instruction that
//! it is executing.

use crate::instr::DecodedInstruction;
use crate::memory::Pointer;
use crate::memory::Value;
use crate::field::FieldElement;
use vstd::prelude::*;

verus! {

/// The destination of the instruction was deduced from the other operands.
pub const DST_DEDUCED: u8 = 0x01;

/// The destination of the instruction was asserted by some already existing memory cell.
pub const DST_ASSERTED: u8 = 0x02;

/// The first operand of the instruction was deduced from the other operands.
pub const OP0_DEDUCED: u8 = 0x04;

/// The first operand of the instruction was asserted by some already existing memory cell.
pub const OP0_ASSERTED: u8 = 0x08;

/// The second operand of the instruction was deduced from the other operands.
pub const OP1_DEDUCED: u8 = 0x10;

/// The second operand of the instruction was asserted by some already existing memory cell.
pub const OP1_ASSERTED: u8 = 0x20;

/// The instruction has a size of two cells instead of one.
pub const SIZE_TWO: u8 = 0x80;

/// What is known of an operand of the instruction.
#[derive(Debug, Clone, Copy, PartialEq, Eq, Structural)]
pub enum Operand {
    /// Nothing is known of the operand yet.
    Unknown,
    /// The operand was read from a memory cell that had been asserted before.
    Asserted(Value),
    /// The operand was computed during this step.
    Deduced(Value),
}

impl Operand {
    /// The value of the operand, if it is known.
    pub open spec fn value(self) -> Option<Value> {
        match self {
            Operand::Unknown => None,
            Operand::Asserted(v) => Some(v),
            Operand::Deduced(v) => Some(v),
        }
    }

    /// The operand read from a memory cell.
    pub open spec fn probed(cell: Option<Value>) -> Operand {
        match cell {
            Some(v) => Operand::Asserted(v),
            None => Operand::Unknown,
        }
    }
}

/// What a step knows of its operands: the mathematical model of a [`StepContext`].
pub struct Operands {
    /// The address of the destination.
    pub dst_addr: Pointer,
    /// The destination.
    pub dst: Operand,
    /// The address of the first operand.
    pub op0_addr: Pointer,
    /// The first operand.
    pub op0: Operand,
    /// The address of the second operand.
    pub op1_addr: Pointer,
    /// The second operand.
    pub op1: Operand,
    /// The number of cells that the instruction takes: 1, or 2 with an immediate value.
    pub size: usize,
}

/// The bits of `flags` with those of `flag` set too.
pub open spec fn with_flag(flags: u8, flag: u8) -> u8 {
    flags | flag
}

/// Whether `flags` has a bit of `mask` set.
pub open spec fn any_flag(flags: u8, mask: u8) -> bool {
    flags & mask != 0
}

/// A flag, once set, is found by every mask that holds it, and changes nothing for the
/// others.
pub proof fn lemma_with_flag(flags: u8, flag: u8, mask: u8)
    by (bit_vector)
    ensures
        any_flag(with_flag(flags, flag), mask) == (any_flag(flags, mask) || any_flag(flag, mask)),
{
}

/// No flag is set in the empty set, and each flag is found by its own mask alone.
pub proof fn lemma_flag_masks()
    by (bit_vector)
    ensures
        forall|mask: u8| !any_flag(0u8, mask),
        forall|flag: u8, mask: u8|
            #![trigger any_flag(flag, mask)]
            (flag == 0x01 || flag == 0x02 || flag == 0x04 || flag == 0x08 || flag == 0x10 || flag
                == 0x20 || flag == 0x80) && (mask == 0x01 || mask == 0x02 || mask == 0x04 || mask
                == 0x08 || mask == 0x10 || mask == 0x20 || mask == 0x80) ==> (any_flag(flag, mask)
                <==> flag == mask),
{
}

/// Some flags associated with a [`StepContext`].
#[derive(Debug, Clone, Copy, PartialEq, Eq, Structural)]
pub struct StepContextFlags {
    bits: u8,
}

impl StepContextFlags {
    /// The flags as bits.
    pub closed spec fn spec_bits(&self) -> u8 {
        self.bits
    }

    /// Whether `flag` is set.
    pub open spec fn spec_intersects(&self, flag: u8) -> bool {
        any_flag(self.spec_bits(), flag)
    }

    /// Whether the destination is known.
    pub open spec fn spec_has_dst(self) -> bool {
        self.spec_intersects(DST_ASSERTED) || self.spec_intersects(DST_DEDUCED)
    }

    /// Whether the first operand is known.
    pub open spec fn spec_has_op0(self) -> bool {
        self.spec_intersects(OP0_ASSERTED) || self.spec_intersects(OP0_DEDUCED)
    }

    /// Whether the second operand is known.
    pub open spec fn spec_has_op1(self) -> bool {
        self.spec_intersects(OP1_ASSERTED) || self.spec_intersects(OP1_DEDUCED)
    }

    /// The size of the instruction in memory cells.
    pub open spec fn spec_instruction_size(&self) -> usize {
        if self.spec_intersects(SIZE_TWO) {
            2
        } else {
            1
        }
    }

    /// What the flags and a value say of an operand: `asserted` and `deduced` are the two
    /// flags of the operand.
    pub open spec fn operand(&self, asserted: u8, deduced: u8, value: Value) -> Operand {
        if self.spec_intersects(asserted) {
            Operand::Asserted(value)
        } else if self.spec_intersects(deduced) {
            Operand::Deduced(value)
        } else {
            Operand::Unknown
        }
    }

    /// Returns the flags as bits.
    #[verifier::when_used_as_spec(spec_bits)]
    pub fn bits(&self) -> (r: u8)
        ensures
            r == self.spec_bits(),
    {
        self.bits
    }

    /// Returns the empty set of flags.
    pub fn empty() -> (r: Self)
        ensures
            r.spec_bits() == 0,
            forall|flag: u8| !r.spec_intersects(flag),
    {
        proof {
            lemma_flag_masks();
        }
        Self { bits: 0 }
    }

    /// Returns whether one of the bits of `flag` is set.
    #[verifier::when_used_as_spec(spec_intersects)]
    pub fn intersects(&self, flag: u8) -> (r: bool)
        ensures
            r == self.spec_intersects(flag),
    {
        self.bits & flag != 0
    }

    /// Sets the bits of `flag`.
    pub fn insert(&mut self, flag: u8)
        ensures
            final(self).spec_bits() == with_flag(old(self).spec_bits(), flag),
            forall|mask: u8|
                #![trigger final(self).spec_intersects(mask)]
                final(self).spec_intersects(mask) == (old(self).spec_intersects(mask) || any_flag(
                    flag,
                    mask,
                )),
    {
        self.bits = self.bits | flag;
        proof {
            assert forall|mask: u8| #![trigger self.spec_intersects(mask)]
                self.spec_intersects(mask) == (old(self).spec_intersects(mask) || any_flag(
                    flag,
                    mask,
                )) by {
                lemma_with_flag(old(self).bits, flag, mask);
            }
        }
    }

    /// Returns whether the destination of the instruction is known.
    #[verifier::when_used_as_spec(spec_has_dst)]
    pub fn has_dst(self) -> (r: bool)
        ensures
            r == self.spec_has_dst(),
    {
        proof {
            lemma_flag_union(self.bits, DST_ASSERTED, DST_DEDUCED);
        }
        self.intersects(DST_ASSERTED | DST_DEDUCED)
    }

    /// Returns whether the first operand of the instruction is known.
    #[verifier::when_used_as_spec(spec_has_op0)]
    pub fn has_op0(self) -> (r: bool)
        ensures
            r == self.spec_has_op0(),
    {
        proof {
            lemma_flag_union(self.bits, OP0_ASSERTED, OP0_DEDUCED);
        }
        self.intersects(OP0_ASSERTED | OP0_DEDUCED)
    }

    /// Returns whether the second operand of the instruction is known.
    #[verifier::when_used_as_spec(spec_has_op1)]
    pub fn has_op1(self) -> (r: bool)
        ensures
            r == self.spec_has_op1(),
    {
        proof {
            lemma_flag_union(self.bits, OP1_ASSERTED, OP1_DEDUCED);
        }
        self.intersects(OP1_ASSERTED | OP1_DEDUCED)
    }

    /// Returns the size of the instruction in memory cells.
    #[verifier::when_used_as_spec(spec_instruction_size)]
    pub fn instruction_size(&self) -> (r: usize)
        ensures
            r == self.spec_instruction_size(),
    {
        if self.intersects(SIZE_TWO) {
            2
        } else {
            1
        }
    }
}

/// A set of flags meets the union of two masks where it meets one of them.
pub proof fn lemma_flag_union(flags: u8, first: u8, second: u8)
    by (bit_vector)
    ensures
        any_flag(flags, first | second) == (any_flag(flags, first) || any_flag(flags, second)),
{
}

/// Stores a state that must be kept around while executing an instruction.
#[derive(Debug, Clone, Copy)]
pub struct StepContext {
    /// The instruction being executed.
    pub instruction: DecodedInstruction,
    /// The destination address of the instruction.
    pub dst_addr: Pointer,
    /// The value of the destination of the instruction, if known.
    ///
    /// Only holds a meaningful value if the `DST_ASSERTED` flag or the `DST_DEDUCED` flag is
    /// set.
    pub dst: Value,
    /// The address of the first operand of the instruction.
    pub op0_addr: Pointer,
    /// The value of the first operand of the instruction, if known.
    ///
    /// Only holds a meaningful value if the `OP0_ASSERTED` flag or the `OP0_DEDUCED` flag is
    /// set.
    pub op0: Value,
    /// The address of the second operand of the instruction.
    pub op1_addr: Pointer,
    /// The value of the second operand of the instruction, if known.
    ///
    /// Only holds a meaningful value if the `OP1_ASSERTED` flag or the `OP1_DEDUCED` flag is
    /// set.
    pub op1: Value,
    /// Some flags associated with the context.
    pub flags: StepContextFlags,
    /// The next value of the **Frame Pointer**.
    pub next_fp: Pointer,
    /// The next value of the **Allocation Pointer**.
    pub next_ap: Pointer,
    /// The next value of the program counter.
    pub next_pc: Pointer,
}

impl View for StepContext {
    type V = Operands;

    /// What the context knows of the operands.
    open spec fn view(&self) -> Operands {
        Operands {
            dst_addr: self.dst_addr,
            dst: self.flags.operand(DST_ASSERTED, DST_DEDUCED, self.dst),
            op0_addr: self.op0_addr,
            op0: self.flags.operand(OP0_ASSERTED, OP0_DEDUCED, self.op0),
            op1_addr: self.op1_addr,
            op1: self.flags.operand(OP1_ASSERTED, OP1_DEDUCED, self.op1),
            size: self.flags.spec_instruction_size(),
        }
    }
}

impl Operands {
    /// What is known before anything is looked at: nothing, about an instruction of one
    /// cell.
    pub open spec fn initial() -> Operands {
        let origin = Pointer { segment: 0, offset: 0 };
        Operands {
            dst_addr: origin,
            dst: Operand::Unknown,
            op0_addr: origin,
            op0: Operand::Unknown,
            op1_addr: origin,
            op1: Operand::Unknown,
            size: 1,
        }
    }
}

impl StepContext {
    /// Creates a new [`StepContext`] with the provided instruction.
    ///
    /// Nothing is known of the operands yet. The addresses and the next registers hold
    /// placeholders and should be properly set before using the context.
    pub fn initial(instruction: DecodedInstruction) -> (r: Self)
        ensures
            r.instruction == instruction,
            r@ == Operands::initial(),
    {
        let origin = Pointer { segment: 0, offset: 0 };
        Self {
            instruction,
            dst_addr: origin,
            dst: Value::Scalar(FieldElement::zero()),
            op0_addr: origin,
            op0: Value::Scalar(FieldElement::zero()),
            op1_addr: origin,
            op1: Value::Scalar(FieldElement::zero()),
            flags: StepContextFlags::empty(),
            next_fp: origin,
            next_ap: origin,
            next_pc: origin,
        }
    }
}

} // verus!
