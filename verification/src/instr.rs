//! Defines the [`Instruction`] type, responsible for representing a single Cairo bytecode
//! instruction, without its eventual immediate value.
//!
//! An instruction is a 64-bit word. From the low bit up it holds three 16-bit offsets, which
//! are read as signed numbers, and the flags: one bit each for the registers that the
//! destination and the first operand are relative to, three bits for the source of the
//! second operand, two for the result logic, three for the update of the program counter, two
//! for the update of the allocation pointer, and four for the op-code, of which the highest
//! is reserved and must not be set.

use crate::error::Error;
use vstd::prelude::*;

verus! {

/// A register the destination part of an instruction can be relative to.
#[derive(Debug, Clone, Copy, PartialEq, Eq, Hash, Structural)]
pub enum DstRegister {
    /// The **Allocation Pointer**.
    AP,
    /// The **Frame Pointer**.
    FP,
}

/// A register the first operand of an instruction can be relative to.
#[derive(Debug, Clone, Copy, PartialEq, Eq, Hash, Structural)]
pub enum Op0Register {
    /// The **Allocation Pointer**.
    AP,
    /// The **Frame Pointer**.
    FP,
}

/// A register/object the second operand of an instruction can be relative to.
#[derive(Debug, Clone, Copy, PartialEq, Eq, Hash, Structural)]
pub enum Op1Source {
    /// The address resulting from the first operand of the instruction.
    Op0,
    /// The **Program Counter**.
    PC,
    /// The **Frame Pointer**.
    FP,
    /// The **Allocation Pointer**.
    AP,
}

/// A possible result logic to be applied to the first and second operands of an instruction.
#[derive(Debug, Clone, Copy, PartialEq, Eq, Hash, Structural)]
pub enum ResultLogic {
    /// The result is simply the value of the second operand.
    Op1,
    /// The result is the addition of the first and second operands.
    Add,
    /// The result is the multiplication of the first and second operands.
    Mul,
}

/// A possible way to update the **Program Counter** after the instruction has been executed.
#[derive(Debug, Clone, Copy, PartialEq, Eq, Hash, Structural)]
pub enum PcUpdate {
    /// The size of the instruction is added to the **Program Counter**.
    Regular,
    /// The **Program Counter** is set to the result of the instruction.
    AbsoluteJump,
    /// The result of the instruction is added to the **Program Counter**.
    RelativeJump,
    /// If the destination part of the instruction is zero, then the **Program Counter** is
    /// simply updated according to the [`PcUpdate::Regular`] update rule. Otherwise, the
    /// second operand of the instruction is added to it.
    ConditionalJump,
}

/// A possible way to update the **Allocation Pointer** after the instruction has been executed.
#[derive(Debug, Clone, Copy, PartialEq, Eq, Hash, Structural)]
pub enum ApUpdate {
    /// The **Allocation Pointer** remains unchanged.
    Unchanged,
    /// The result of the instruction is added to the **Allocation Pointer**.
    AddResult,
    /// The **Allocation Pointer** is incremented by one.
    Increment,
}

/// The OP code of an instruction.
#[derive(Debug, Clone, Copy, PartialEq, Eq, Hash, Structural)]
pub enum OpCode {
    /// The instruction does nothing specific.
    Nop,
    /// The instruction is calling into a subroutine.
    Call,
    /// The instruction is returning from a subroutine.
    Ret,
    /// The instruction is asserting a specific memory cell to a specific value.
    AssertEq,
}

/// The signed number that the 16 bits `raw` stand for in two's complement.
pub open spec fn signed16(raw: int) -> int {
    if raw >= 0x8000 {
        raw - 0x1_0000
    } else {
        raw
    }
}

/// The 16 bits that stand for `offset` in two's complement, as a number.
pub open spec fn unsigned16(offset: int) -> int {
    if offset < 0 {
        offset + 0x1_0000
    } else {
        offset
    }
}

/// The bits of `word` from the one that weighs `unit` up to the one that weighs
/// `unit * range`, as a number below `range`.
pub open spec fn bit_field(word: u64, unit: int, range: int) -> int {
    (word as int / unit) % range
}

impl DstRegister {
    /// The bit that names the register.
    pub open spec fn spec_bits(&self) -> u64 {
        match self {
            DstRegister::AP => 0,
            DstRegister::FP => 1,
        }
    }

    /// Returns the bit that names the register in an instruction.
    #[verifier::when_used_as_spec(spec_bits)]
    pub fn bits(&self) -> (r: u64)
        ensures
            r == self.spec_bits(),
    {
        match self {
            DstRegister::AP => 0,
            DstRegister::FP => 1,
        }
    }
}

impl Op0Register {
    /// The bit that names the register.
    pub open spec fn spec_bits(&self) -> u64 {
        match self {
            Op0Register::AP => 0,
            Op0Register::FP => 1,
        }
    }

    /// Returns the bit that names the register in an instruction.
    #[verifier::when_used_as_spec(spec_bits)]
    pub fn bits(&self) -> (r: u64)
        ensures
            r == self.spec_bits(),
    {
        match self {
            Op0Register::AP => 0,
            Op0Register::FP => 1,
        }
    }
}

impl Op1Source {
    /// The three bits that name the source.
    pub open spec fn spec_bits(&self) -> u64 {
        match self {
            Op1Source::Op0 => 0,
            Op1Source::PC => 1,
            Op1Source::FP => 2,
            Op1Source::AP => 4,
        }
    }

    /// Returns the bits that name the source in an instruction.
    #[verifier::when_used_as_spec(spec_bits)]
    pub fn bits(&self) -> (r: u64)
        ensures
            r == self.spec_bits(),
    {
        match self {
            Op1Source::Op0 => 0,
            Op1Source::PC => 1,
            Op1Source::FP => 2,
            Op1Source::AP => 4,
        }
    }
}

impl ResultLogic {
    /// The two bits that name the result logic.
    pub open spec fn spec_bits(&self) -> u64 {
        match self {
            ResultLogic::Op1 => 0,
            ResultLogic::Add => 1,
            ResultLogic::Mul => 2,
        }
    }

    /// Returns the bits that name the result logic in an instruction.
    #[verifier::when_used_as_spec(spec_bits)]
    pub fn bits(&self) -> (r: u64)
        ensures
            r == self.spec_bits(),
    {
        match self {
            ResultLogic::Op1 => 0,
            ResultLogic::Add => 1,
            ResultLogic::Mul => 2,
        }
    }
}

impl PcUpdate {
    /// The three bits that name the update.
    pub open spec fn spec_bits(&self) -> u64 {
        match self {
            PcUpdate::Regular => 0,
            PcUpdate::AbsoluteJump => 1,
            PcUpdate::RelativeJump => 2,
            PcUpdate::ConditionalJump => 4,
        }
    }

    /// Returns the bits that name the update in an instruction.
    #[verifier::when_used_as_spec(spec_bits)]
    pub fn bits(&self) -> (r: u64)
        ensures
            r == self.spec_bits(),
    {
        match self {
            PcUpdate::Regular => 0,
            PcUpdate::AbsoluteJump => 1,
            PcUpdate::RelativeJump => 2,
            PcUpdate::ConditionalJump => 4,
        }
    }
}

impl ApUpdate {
    /// The two bits that name the update.
    pub open spec fn spec_bits(&self) -> u64 {
        match self {
            ApUpdate::Unchanged => 0,
            ApUpdate::AddResult => 1,
            ApUpdate::Increment => 2,
        }
    }

    /// Returns the bits that name the update in an instruction.
    #[verifier::when_used_as_spec(spec_bits)]
    pub fn bits(&self) -> (r: u64)
        ensures
            r == self.spec_bits(),
    {
        match self {
            ApUpdate::Unchanged => 0,
            ApUpdate::AddResult => 1,
            ApUpdate::Increment => 2,
        }
    }
}

impl OpCode {
    /// The bits that name the op-code.
    pub open spec fn spec_bits(&self) -> u64 {
        match self {
            OpCode::Nop => 0,
            OpCode::Call => 1,
            OpCode::Ret => 2,
            OpCode::AssertEq => 4,
        }
    }

    /// Returns the bits that name the op-code in an instruction.
    #[verifier::when_used_as_spec(spec_bits)]
    pub fn bits(&self) -> (r: u64)
        ensures
            r == self.spec_bits(),
    {
        match self {
            OpCode::Nop => 0,
            OpCode::Call => 1,
            OpCode::Ret => 2,
            OpCode::AssertEq => 4,
        }
    }
}

/// The typed fields of an instruction.
#[derive(Debug, Clone, Copy, PartialEq, Eq, Structural)]
pub struct DecodedInstruction {
    /// The offset applied to the destination part of the instruction.
    pub dst_offset: i16,
    /// The offset applied to the first operand of the instruction.
    pub op0_offset: i16,
    /// The offset applied to the second operand of the instruction.
    pub op1_offset: i16,
    /// The register that the destination part of the instruction is relative to.
    pub dst_register: DstRegister,
    /// The register that the first operand of the instruction is relative to.
    pub op0_register: Op0Register,
    /// The source of the second operand of the instruction.
    pub op1_source: Op1Source,
    /// The result logic to be applied to the first and second operands.
    pub result_logic: ResultLogic,
    /// The update rule of the **Program Counter**.
    pub pc_update: PcUpdate,
    /// The update rule of the **Allocation Pointer**.
    pub ap_update: ApUpdate,
    /// The OP code of the instruction.
    pub op_code: OpCode,
}

/// The word that holds the given fields, each at its place.
pub open spec fn packed(
    dst_offset: int,
    op0_offset: int,
    op1_offset: int,
    dst_register: int,
    op0_register: int,
    op1_source: int,
    result_logic: int,
    pc_update: int,
    ap_update: int,
    op_code: int,
) -> int {
    dst_offset + op0_offset * 0x1_0000 + op1_offset * 0x1_0000_0000 + dst_register
        * 0x1_0000_0000_0000 + op0_register * 0x2_0000_0000_0000 + op1_source
        * 0x4_0000_0000_0000 + result_logic * 0x20_0000_0000_0000 + pc_update
        * 0x80_0000_0000_0000 + ap_update * 0x400_0000_0000_0000 + op_code
        * 0x1000_0000_0000_0000
}

/// A word is the sum of its fields, each at its place.
proof fn lemma_word_is_packed(word: u64)
    by (bit_vector)
    ensures
        word == (word / 0x1) % 0x1_0000 + ((word / 0x1_0000) % 0x1_0000) * 0x1_0000 + ((word
            / 0x1_0000_0000) % 0x1_0000) * 0x1_0000_0000 + ((word / 0x1_0000_0000_0000) % 2)
            * 0x1_0000_0000_0000 + ((word / 0x2_0000_0000_0000) % 2) * 0x2_0000_0000_0000 + ((word
            / 0x4_0000_0000_0000) % 8) * 0x4_0000_0000_0000 + ((word / 0x20_0000_0000_0000) % 4)
            * 0x20_0000_0000_0000 + ((word / 0x80_0000_0000_0000) % 8) * 0x80_0000_0000_0000 + ((
        word / 0x400_0000_0000_0000) % 4) * 0x400_0000_0000_0000 + ((word / 0x1000_0000_0000_0000)
            % 16) * 0x1000_0000_0000_0000,
{
}

/// Fields that are put together by shifts are found again at their places, and the word
/// is their sum.
proof fn lemma_fields_of_packed(
    word: u64,
    a: u64,
    b: u64,
    c: u64,
    d: u64,
    e: u64,
    s: u64,
    l: u64,
    p: u64,
    u: u64,
    o: u64,
)
    by (bit_vector)
    requires
        a < 0x1_0000,
        b < 0x1_0000,
        c < 0x1_0000,
        d < 2,
        e < 2,
        s < 8,
        l < 4,
        p < 8,
        u < 4,
        o < 8,
        word == a | (b << 16) | (c << 32) | (d << 48) | (e << 49) | (s << 50) | (l << 53) | (p
            << 55) | (u << 58) | (o << 60),
    ensures
        bit_field(word, 0x1, 0x1_0000) == a,
        bit_field(word, 0x1_0000, 0x1_0000) == b,
        bit_field(word, 0x1_0000_0000, 0x1_0000) == c,
        bit_field(word, 0x1_0000_0000_0000, 2) == d,
        bit_field(word, 0x2_0000_0000_0000, 2) == e,
        bit_field(word, 0x4_0000_0000_0000, 8) == s,
        bit_field(word, 0x20_0000_0000_0000, 4) == l,
        bit_field(word, 0x80_0000_0000_0000, 8) == p,
        bit_field(word, 0x400_0000_0000_0000, 4) == u,
        bit_field(word, 0x1000_0000_0000_0000, 16) == o,
        bit_field(word, 0x8000_0000_0000_0000, 2) == 0,
        word == a + b * 0x1_0000 + c * 0x1_0000_0000 + d * 0x1_0000_0000_0000 + e
            * 0x2_0000_0000_0000 + s * 0x4_0000_0000_0000 + l * 0x20_0000_0000_0000 + p
            * 0x80_0000_0000_0000 + u * 0x400_0000_0000_0000 + o * 0x1000_0000_0000_0000,
{
}

/// The signed offset that 16 bits stand for.
proof fn lemma_signed_offset(raw: u16)
    by (bit_vector)
    ensures
        raw as i16 == (if raw >= 0x8000 {
            raw - 0x1_0000
        } else {
            raw as int
        }),
{
}

/// The 16 bits of a signed offset, read as an unsigned number.
proof fn lemma_offset_bits(offset: i16)
    by (bit_vector)
    ensures
        offset as u16 == (if offset < 0 {
            offset + 0x1_0000
        } else {
            offset as int
        }),
{
}

impl DecodedInstruction {
    /// The word that holds the fields.
    pub open spec fn spec_encode(&self) -> int {
        packed(
            unsigned16(self.dst_offset as int),
            unsigned16(self.op0_offset as int),
            unsigned16(self.op1_offset as int),
            self.dst_register.spec_bits() as int,
            self.op0_register.spec_bits() as int,
            self.op1_source.spec_bits() as int,
            self.result_logic.spec_bits() as int,
            self.pc_update.spec_bits() as int,
            self.ap_update.spec_bits() as int,
            self.op_code.spec_bits() as int,
        )
    }

    /// A word that holds each field at its place decodes to the fields.
    proof fn lemma_decoded(self, r: Instruction)
        requires
            bit_field(r.0, 0x1, 0x1_0000) == unsigned16(self.dst_offset as int),
            bit_field(r.0, 0x1_0000, 0x1_0000) == unsigned16(self.op0_offset as int),
            bit_field(r.0, 0x1_0000_0000, 0x1_0000) == unsigned16(self.op1_offset as int),
            bit_field(r.0, 0x1_0000_0000_0000, 2) == self.dst_register.spec_bits(),
            bit_field(r.0, 0x2_0000_0000_0000, 2) == self.op0_register.spec_bits(),
            bit_field(r.0, 0x4_0000_0000_0000, 8) == self.op1_source.spec_bits(),
            bit_field(r.0, 0x20_0000_0000_0000, 4) == self.result_logic.spec_bits(),
            bit_field(r.0, 0x80_0000_0000_0000, 8) == self.pc_update.spec_bits(),
            bit_field(r.0, 0x400_0000_0000_0000, 4) == self.ap_update.spec_bits(),
            bit_field(r.0, 0x1000_0000_0000_0000, 16) == self.op_code.spec_bits(),
            bit_field(r.0, 0x8000_0000_0000_0000, 2) == 0,
        ensures
            r.spec_decode() == Ok::<DecodedInstruction, Error>(self),
    {
    }

    /// Packs the fields into the word of an instruction. Decoding that word gives the fields
    /// back.
    pub fn encode(&self) -> (r: Instruction)
        ensures
            r.0 == self.spec_encode(),
            r.spec_decode() == Ok::<DecodedInstruction, Error>(*self),
    {
        let a: u64 = (#[verifier::truncate] (self.dst_offset as u16)) as u64;
        let b: u64 = (#[verifier::truncate] (self.op0_offset as u16)) as u64;
        let c: u64 = (#[verifier::truncate] (self.op1_offset as u16)) as u64;
        let d: u64 = self.dst_register.bits();
        let e: u64 = self.op0_register.bits();
        let s: u64 = self.op1_source.bits();
        let l: u64 = self.result_logic.bits();
        let p: u64 = self.pc_update.bits();
        let u: u64 = self.ap_update.bits();
        let o: u64 = self.op_code.bits();
        let word: u64 = a | (b << 16) | (c << 32) | (d << 48) | (e << 49) | (s << 50) | (l << 53)
            | (p << 55) | (u << 58) | (o << 60);
        let r = Instruction(word);
        proof {
            lemma_offset_bits(self.dst_offset);
            lemma_offset_bits(self.op0_offset);
            lemma_offset_bits(self.op1_offset);
            lemma_fields_of_packed(word, a, b, c, d, e, s, l, p, u, o);
            self.lemma_decoded(r);
        }
        r
    }
}

/// A single Cairo bytecode instruction.
///
/// This contains most of the information required to execute the instruction, but some
/// things might be missing, such as an eventual immediate value.
#[derive(Debug, Clone, Copy, PartialEq, Eq, Structural)]
pub struct Instruction(pub u64);

impl Instruction {
    /// The offset in bits 0 to 15.
    pub open spec fn spec_dst_offset(&self) -> i16 {
        signed16(bit_field(self.0, 0x1, 0x1_0000)) as i16
    }

    /// The offset in bits 16 to 31.
    pub open spec fn spec_op0_offset(&self) -> i16 {
        signed16(bit_field(self.0, 0x1_0000, 0x1_0000)) as i16
    }

    /// The offset in bits 32 to 47.
    pub open spec fn spec_op1_offset(&self) -> i16 {
        signed16(bit_field(self.0, 0x1_0000_0000, 0x1_0000)) as i16
    }

    /// The register that bit 48 names.
    pub open spec fn spec_dst_register(&self) -> DstRegister {
        if bit_field(self.0, 0x1_0000_0000_0000, 2) == 1 {
            DstRegister::FP
        } else {
            DstRegister::AP
        }
    }

    /// The register that bit 49 names.
    pub open spec fn spec_op0_register(&self) -> Op0Register {
        if bit_field(self.0, 0x2_0000_0000_0000, 2) == 1 {
            Op0Register::FP
        } else {
            Op0Register::AP
        }
    }

    /// The source that bits 50 to 52 name, of which at most one may be set.
    pub open spec fn spec_op1_source(&self) -> Result<Op1Source, Error> {
        let bits = bit_field(self.0, 0x4_0000_0000_0000, 8);
        if bits == 0 {
            Ok(Op1Source::Op0)
        } else if bits == 1 {
            Ok(Op1Source::PC)
        } else if bits == 2 {
            Ok(Op1Source::FP)
        } else if bits == 4 {
            Ok(Op1Source::AP)
        } else {
            Err(Error::UndefinedOp1Source)
        }
    }

    /// The result logic that bits 53 and 54 name, of which at most one may be set.
    pub open spec fn spec_result_logic(&self) -> Result<ResultLogic, Error> {
        let bits = bit_field(self.0, 0x20_0000_0000_0000, 4);
        if bits == 0 {
            Ok(ResultLogic::Op1)
        } else if bits == 1 {
            Ok(ResultLogic::Add)
        } else if bits == 2 {
            Ok(ResultLogic::Mul)
        } else {
            Err(Error::UndefinedResultLogic)
        }
    }

    /// The update of the program counter that bits 55 to 57 name, of which at most one may
    /// be set.
    pub open spec fn spec_pc_update(&self) -> Result<PcUpdate, Error> {
        let bits = bit_field(self.0, 0x80_0000_0000_0000, 8);
        if bits == 0 {
            Ok(PcUpdate::Regular)
        } else if bits == 1 {
            Ok(PcUpdate::AbsoluteJump)
        } else if bits == 2 {
            Ok(PcUpdate::RelativeJump)
        } else if bits == 4 {
            Ok(PcUpdate::ConditionalJump)
        } else {
            Err(Error::UndefinedPcUpdate)
        }
    }

    /// The update of the allocation pointer that bits 58 and 59 name, of which at most one
    /// may be set.
    pub open spec fn spec_ap_update(&self) -> Result<ApUpdate, Error> {
        let bits = bit_field(self.0, 0x400_0000_0000_0000, 4);
        if bits == 0 {
            Ok(ApUpdate::Unchanged)
        } else if bits == 1 {
            Ok(ApUpdate::AddResult)
        } else if bits == 2 {
            Ok(ApUpdate::Increment)
        } else {
            Err(Error::UndefinedApUpdate)
        }
    }

    /// The op-code that bits 60 to 63 name, of which at most one may be set, and not the
    /// highest.
    pub open spec fn spec_op_code(&self) -> Result<OpCode, Error> {
        let bits = bit_field(self.0, 0x1000_0000_0000_0000, 16);
        if bits == 0 {
            Ok(OpCode::Nop)
        } else if bits == 1 {
            Ok(OpCode::Call)
        } else if bits == 2 {
            Ok(OpCode::Ret)
        } else if bits == 4 {
            Ok(OpCode::AssertEq)
        } else {
            Err(Error::UndefinedOpCode)
        }
    }

    /// Whether bit 63 is set.
    pub open spec fn spec_is_last_bit_set(&self) -> bool {
        bit_field(self.0, 0x8000_0000_0000_0000, 2) == 1
    }

    /// The fields of the instruction: the reserved bit must not be set, and each group of
    /// flags must name one of its alternatives.
    pub open spec fn spec_decode(&self) -> Result<DecodedInstruction, Error> {
        if self.spec_is_last_bit_set() {
            Err(Error::UndefinedInstruction)
        } else if self.spec_op1_source() is Err {
            Err(Error::UndefinedOp1Source)
        } else if self.spec_result_logic() is Err {
            Err(Error::UndefinedResultLogic)
        } else if self.spec_pc_update() is Err {
            Err(Error::UndefinedPcUpdate)
        } else if self.spec_ap_update() is Err {
            Err(Error::UndefinedApUpdate)
        } else if self.spec_op_code() is Err {
            Err(Error::UndefinedOpCode)
        } else {
            Ok(
                DecodedInstruction {
                    dst_offset: self.spec_dst_offset(),
                    op0_offset: self.spec_op0_offset(),
                    op1_offset: self.spec_op1_offset(),
                    dst_register: self.spec_dst_register(),
                    op0_register: self.spec_op0_register(),
                    op1_source: self.spec_op1_source()->Ok_0,
                    result_logic: self.spec_result_logic()->Ok_0,
                    pc_update: self.spec_pc_update()->Ok_0,
                    ap_update: self.spec_ap_update()->Ok_0,
                    op_code: self.spec_op_code()->Ok_0,
                },
            )
        }
    }

    /// Packing the fields of a well-formed instruction gives its word back.
    pub proof fn lemma_decode_then_encode(self)
        requires
            self.spec_decode() is Ok,
        ensures
            self.spec_decode()->Ok_0.spec_encode() == self.0,
    {
        lemma_word_is_packed(self.0);
    }

    /// Decodes every field of the instruction, or says which one is malformed: the reserved
    /// bit first, then the flags from the low bits up.
    #[verifier::when_used_as_spec(spec_decode)]
    pub fn decode(&self) -> (r: Result<DecodedInstruction, Error>)
        ensures
            r == self.spec_decode(),
    {
        if self.is_last_bit_set() {
            return Err(Error::UndefinedInstruction);
        }
        let op1_source = match self.op1_source() {
            Ok(v) => v,
            Err(e) => {
                return Err(e);
            },
        };
        let result_logic = match self.result_logic() {
            Ok(v) => v,
            Err(e) => {
                return Err(e);
            },
        };
        let pc_update = match self.pc_update() {
            Ok(v) => v,
            Err(e) => {
                return Err(e);
            },
        };
        let ap_update = match self.ap_update() {
            Ok(v) => v,
            Err(e) => {
                return Err(e);
            },
        };
        let op_code = match self.op_code() {
            Ok(v) => v,
            Err(e) => {
                return Err(e);
            },
        };
        Ok(
            DecodedInstruction {
                dst_offset: self.dst_offset(),
                op0_offset: self.op0_offset(),
                op1_offset: self.op1_offset(),
                dst_register: self.dst_register(),
                op0_register: self.op0_register(),
                op1_source,
                result_logic,
                pc_update,
                ap_update,
                op_code,
            },
        )
    }

    /// Returns the offset applied to the destination part of the instruction.
    #[verifier::when_used_as_spec(spec_dst_offset)]
    pub fn dst_offset(&self) -> (r: i16)
        ensures
            r == self.spec_dst_offset(),
    {
        let word = self.0;
        let low: u16 = (word & 0xFFFF) as u16;
        assert((word & 0xFFFF) == (word / 0x1) % 0x1_0000) by (bit_vector);
        proof {
            lemma_signed_offset(low);
        }
        #[verifier::truncate]
        (low as i16)
    }

    /// Returns the offset applied to the first operand of the instruction.
    #[verifier::when_used_as_spec(spec_op0_offset)]
    pub fn op0_offset(&self) -> (r: i16)
        ensures
            r == self.spec_op0_offset(),
    {
        let word = self.0;
        let low: u16 = ((word >> 16) & 0xFFFF) as u16;
        assert(((word >> 16) & 0xFFFF) == (word / 0x1_0000) % 0x1_0000) by (bit_vector);
        proof {
            lemma_signed_offset(low);
        }
        #[verifier::truncate]
        (low as i16)
    }

    /// Returns the offset applied to the second operand of the instruction.
    #[verifier::when_used_as_spec(spec_op1_offset)]
    pub fn op1_offset(&self) -> (r: i16)
        ensures
            r == self.spec_op1_offset(),
    {
        let word = self.0;
        let low: u16 = ((word >> 32) & 0xFFFF) as u16;
        assert(((word >> 32) & 0xFFFF) == (word / 0x1_0000_0000) % 0x1_0000) by (bit_vector);
        proof {
            lemma_signed_offset(low);
        }
        #[verifier::truncate]
        (low as i16)
    }

    /// The register that the destination part of the instruction is relative to.
    #[verifier::when_used_as_spec(spec_dst_register)]
    pub fn dst_register(&self) -> (r: DstRegister)
        ensures
            r == self.spec_dst_register(),
    {
        let word = self.0;
        assert((word & 0x0001_0000_0000_0000 != 0) == ((word / 0x1_0000_0000_0000) % 2 == 1))
            by (bit_vector);
        if word & 0x0001_0000_0000_0000 != 0 {
            DstRegister::FP
        } else {
            DstRegister::AP
        }
    }

    /// The register that the first operand of the instruction is relative to.
    #[verifier::when_used_as_spec(spec_op0_register)]
    pub fn op0_register(&self) -> (r: Op0Register)
        ensures
            r == self.spec_op0_register(),
    {
        let word = self.0;
        assert((word & 0x0002_0000_0000_0000 != 0) == ((word / 0x2_0000_0000_0000) % 2 == 1))
            by (bit_vector);
        if word & 0x0002_0000_0000_0000 != 0 {
            Op0Register::FP
        } else {
            Op0Register::AP
        }
    }

    /// The source of the second operand of the instruction.
    #[verifier::when_used_as_spec(spec_op1_source)]
    pub fn op1_source(&self) -> (r: Result<Op1Source, Error>)
        ensures
            r == self.spec_op1_source(),
    {
        let word = self.0;
        let bits: u64 = (word & 0x001C_0000_0000_0000) >> 50;
        assert((word & 0x001C_0000_0000_0000) >> 50 == (word / 0x4_0000_0000_0000) % 8)
            by (bit_vector);
        match bits {
            0 => Ok(Op1Source::Op0),
            1 => Ok(Op1Source::PC),
            2 => Ok(Op1Source::FP),
            4 => Ok(Op1Source::AP),
            _ => Err(Error::UndefinedOp1Source),
        }
    }

    /// The result logic to be applied to the first and second operands of the instruction.
    #[verifier::when_used_as_spec(spec_result_logic)]
    pub fn result_logic(&self) -> (r: Result<ResultLogic, Error>)
        ensures
            r == self.spec_result_logic(),
    {
        let word = self.0;
        let bits: u64 = (word & 0x0060_0000_0000_0000) >> 53;
        assert((word & 0x0060_0000_0000_0000) >> 53 == (word / 0x20_0000_0000_0000) % 4)
            by (bit_vector);
        match bits {
            0 => Ok(ResultLogic::Op1),
            1 => Ok(ResultLogic::Add),
            2 => Ok(ResultLogic::Mul),
            _ => Err(Error::UndefinedResultLogic),
        }
    }

    /// Returns the update rule to be applied to the **Program Counter** after the
    /// instruction.
    #[verifier::when_used_as_spec(spec_pc_update)]
    pub fn pc_update(&self) -> (r: Result<PcUpdate, Error>)
        ensures
            r == self.spec_pc_update(),
    {
        let word = self.0;
        let bits: u64 = (word & 0x0380_0000_0000_0000) >> 55;
        assert((word & 0x0380_0000_0000_0000) >> 55 == (word / 0x80_0000_0000_0000) % 8)
            by (bit_vector);
        match bits {
            0 => Ok(PcUpdate::Regular),
            1 => Ok(PcUpdate::AbsoluteJump),
            2 => Ok(PcUpdate::RelativeJump),
            4 => Ok(PcUpdate::ConditionalJump),
            _ => Err(Error::UndefinedPcUpdate),
        }
    }

    /// Returns the update rule to be applied to the **Allocation Pointer** after the
    /// instruction.
    #[verifier::when_used_as_spec(spec_ap_update)]
    pub fn ap_update(&self) -> (r: Result<ApUpdate, Error>)
        ensures
            r == self.spec_ap_update(),
    {
        let word = self.0;
        let bits: u64 = (word & 0x0C00_0000_0000_0000) >> 58;
        assert((word & 0x0C00_0000_0000_0000) >> 58 == (word / 0x400_0000_0000_0000) % 4)
            by (bit_vector);
        match bits {
            0 => Ok(ApUpdate::Unchanged),
            1 => Ok(ApUpdate::AddResult),
            2 => Ok(ApUpdate::Increment),
            _ => Err(Error::UndefinedApUpdate),
        }
    }

    /// Returns the OP code of the instruction.
    #[verifier::when_used_as_spec(spec_op_code)]
    pub fn op_code(&self) -> (r: Result<OpCode, Error>)
        ensures
            r == self.spec_op_code(),
    {
        let word = self.0;
        let bits: u64 = (word & 0xF000_0000_0000_0000) >> 60;
        assert((word & 0xF000_0000_0000_0000) >> 60 == (word / 0x1000_0000_0000_0000) % 16)
            by (bit_vector);
        match bits {
            0 => Ok(OpCode::Nop),
            1 => Ok(OpCode::Call),
            2 => Ok(OpCode::Ret),
            4 => Ok(OpCode::AssertEq),
            _ => Err(Error::UndefinedOpCode),
        }
    }

    /// Returns whether the last bit of the instruction representation is set or not.
    ///
    /// A well-formed instruction has this bit set to zero.
    #[verifier::when_used_as_spec(spec_is_last_bit_set)]
    pub fn is_last_bit_set(&self) -> (r: bool)
        ensures
            r == self.spec_is_last_bit_set(),
    {
        let word = self.0;
        assert((word & 0x8000_0000_0000_0000 != 0) == ((word / 0x8000_0000_0000_0000) % 2 == 1))
            by (bit_vector);
        word & 0x8000_0000_0000_0000 != 0
    }
}

} // verus!
