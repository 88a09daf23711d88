//! The phases of a step of the virtual machine.
//!
//! A step fetches the instruction that the program counter points to, resolves the addresses
//! of its three operands and reads what the memory knows of them, asks the builtins for the
//! operands that are still unknown, deduces what the op-code allows to deduce, computes the
//! result of the instruction and the next value of each register, and finally asserts the
//! values that the instruction defines into the memory. Nothing is written before that last
//! phase, and there all is written or nothing: a step that fails leaves the registers and
//! the memory as they were.
//!
//! Each phase is described here twice: by a function of the mathematical model of the
//! machine's state, and by the executable function that is proved to compute it.

use crate::builtin::Builtin;
use crate::builtin::BuiltinManager;
use crate::builtin::CannotDeduce;
use crate::context::Operand;
use crate::context::Operands;
use crate::context::StepContext;
use crate::context::lemma_flag_masks;
use crate::context::DST_ASSERTED;
use crate::context::DST_DEDUCED;
use crate::context::OP0_ASSERTED;
use crate::context::OP0_DEDUCED;
use crate::context::OP1_ASSERTED;
use crate::context::OP1_DEDUCED;
use crate::context::SIZE_TWO;
use crate::cpu::Cpu;
use crate::error::Error;
use crate::instr::ApUpdate;
use crate::instr::DecodedInstruction;
use crate::instr::DstRegister;
use crate::instr::Instruction;
use crate::instr::Op0Register;
use crate::instr::Op1Source;
use crate::instr::OpCode;
use crate::instr::PcUpdate;
use crate::instr::ResultLogic;
use crate::memory::asserted_at;
use crate::memory::cell;
use crate::memory::committed;
use crate::memory::extends;
use crate::memory::Memory;
use crate::memory::Pointer;
use crate::memory::Segment;
use crate::memory::Value;
use crate::memory::value::lemma_difference_adds_up;
use crate::field::FieldElement;
use vstd::prelude::*;
use vstd::wrapping::usize_specs;

verus! {

/// The instruction that the program counter points to: the cell must hold a scalar, which
/// must fit in 64 bits.
pub open spec fn fetched(cpu: Cpu, memory: Seq<Seq<Option<Value>>>) -> Result<Instruction, Error> {
    match cell(memory, cpu.pc) {
        Some(Value::Scalar(word)) => if word@ <= u64::MAX {
            Ok(Instruction(word@ as u64))
        } else {
            Err(Error::UndefinedInstruction)
        },
        _ => Err(Error::ProgramCounterLost),
    }
}

/// Whether the fields of an instruction go together: a conditional jump takes its second
/// operand as its result, has no op-code and adds the result to the allocation pointer, and
/// a call leaves the update of the allocation pointer to the call itself.
pub open spec fn coherent(instruction: DecodedInstruction) -> Result<(), Error> {
    if instruction.pc_update is ConditionalJump && !(instruction.result_logic is Op1
        && instruction.op_code is Nop && instruction.ap_update is AddResult) {
        Err(Error::UndefinedConditionalJump)
    } else if instruction.op_code is Call && !(instruction.ap_update is Unchanged) {
        Err(Error::UndefinedApUpdateInCall)
    } else {
        Ok(())
    }
}

/// The instruction to execute, decoded: the program counter must point to a well-formed
/// instruction whose fields go together.
pub open spec fn decoded(cpu: Cpu, memory: Seq<Seq<Option<Value>>>) -> Result<
    DecodedInstruction,
    Error,
> {
    match fetched(cpu, memory) {
        Err(e) => Err(e),
        Ok(word) => match word.spec_decode() {
            Err(e) => Err(e),
            Ok(instruction) => match coherent(instruction) {
                Err(e) => Err(e),
                Ok(()) => Ok(instruction),
            },
        },
    }
}

/// The address `offset` cells away from `base`, wrapping around the offsets of a segment.
pub open spec fn displaced(base: Pointer, offset: i16) -> Pointer {
    Pointer {
        segment: base.segment,
        offset: usize_specs::wrapping_add_signed(base.offset, offset as isize),
    }
}

/// The address of the destination of an instruction.
pub open spec fn dst_address(cpu: Cpu, instruction: DecodedInstruction) -> Pointer {
    displaced(
        match instruction.dst_register {
            DstRegister::AP => cpu.ap,
            DstRegister::FP => cpu.fp,
        },
        instruction.dst_offset,
    )
}

/// The address of the first operand of an instruction.
pub open spec fn op0_address(cpu: Cpu, instruction: DecodedInstruction) -> Pointer {
    displaced(
        match instruction.op0_register {
            Op0Register::AP => cpu.ap,
            Op0Register::FP => cpu.fp,
        },
        instruction.op0_offset,
    )
}

/// The address of the second operand of an instruction whose first operand is at
/// `op0_addr`.
pub open spec fn op1_address_from(
    cpu: Cpu,
    instruction: DecodedInstruction,
    op0_addr: Pointer,
) -> Pointer {
    displaced(
        match instruction.op1_source {
            Op1Source::Op0 => op0_addr,
            Op1Source::PC => cpu.pc,
            Op1Source::FP => cpu.fp,
            Op1Source::AP => cpu.ap,
        },
        instruction.op1_offset,
    )
}

/// The address of the second operand of an instruction.
pub open spec fn op1_address(cpu: Cpu, instruction: DecodedInstruction) -> Pointer {
    op1_address_from(cpu, instruction, op0_address(cpu, instruction))
}

/// The number of cells that an instruction takes: two if it carries an immediate value,
/// which it does when its second operand is relative to the program counter.
pub open spec fn size_of(instruction: DecodedInstruction) -> usize {
    if instruction.op1_source is PC {
        2
    } else {
        1
    }
}

/// What the memory says of the operands of an instruction: the three addresses, and each
/// operand whose cell has been asserted.
pub open spec fn resolved(
    cpu: Cpu,
    memory: Seq<Seq<Option<Value>>>,
    instruction: DecodedInstruction,
) -> Operands {
    Operands {
        dst_addr: dst_address(cpu, instruction),
        dst: Operand::probed(cell(memory, dst_address(cpu, instruction))),
        op0_addr: op0_address(cpu, instruction),
        op0: Operand::probed(cell(memory, op0_address(cpu, instruction))),
        op1_addr: op1_address(cpu, instruction),
        op1: Operand::probed(cell(memory, op1_address(cpu, instruction))),
        size: size_of(instruction),
    }
}

/// Attempts to fetch an instruction from the provided [`Memory`].
///
/// The returned instruction is the one directly referenced by the **Program Counter** of
/// the [`Cpu`] instance. Note that the instruction is not decoded in any way, meaning that
/// it might be missing an eventual associated immediate value.
///
/// The program counter must reference a segment of the memory.
pub fn fetch_instruction(cpu: &Cpu, memory: &Memory) -> (r: Result<Instruction, Error>)
    requires
        memory.wf(),
        cpu.pc.segment < memory@.len(),
    ensures
        r == fetched(*cpu, memory@),
{
    let segment = memory.segment_unchecked(cpu.pc.segment);
    let instr_cell = match segment.get(cpu.pc.offset) {
        Some(cell) => match cell.scalar() {
            Some(scalar) => scalar,
            None => {
                return Err(Error::ProgramCounterLost);
            },
        },
        None => {
            return Err(Error::ProgramCounterLost);
        },
    };
    match instr_cell.to_u64() {
        Some(word) => Ok(Instruction(word)),
        None => Err(Error::UndefinedInstruction),
    }
}

/// Checks that the fields of an instruction go together.
pub fn check_coherence(instruction: &DecodedInstruction) -> (r: Result<(), Error>)
    ensures
        r == coherent(*instruction),
{
    let jump = matches!(instruction.pc_update, PcUpdate::ConditionalJump);
    let plain = matches!(instruction.result_logic, ResultLogic::Op1) && matches!(
        instruction.op_code,
        OpCode::Nop
    ) && matches!(instruction.ap_update, ApUpdate::AddResult);
    if jump && !plain {
        Err(Error::UndefinedConditionalJump)
    } else if matches!(instruction.op_code, OpCode::Call) && !matches!(
        instruction.ap_update,
        ApUpdate::Unchanged
    ) {
        Err(Error::UndefinedApUpdateInCall)
    } else {
        Ok(())
    }
}

/// Fetches and decodes the instruction that the program counter points to, and checks that
/// its fields go together.
pub fn decode_instruction(cpu: &Cpu, memory: &Memory) -> (r: Result<DecodedInstruction, Error>)
    requires
        memory.wf(),
        cpu.pc.segment < memory@.len(),
    ensures
        r == decoded(*cpu, memory@),
{
    let word = match fetch_instruction(cpu, memory) {
        Ok(word) => word,
        Err(e) => {
            return Err(e);
        },
    };
    let instruction = match word.decode() {
        Ok(instruction) => instruction,
        Err(e) => {
            return Err(e);
        },
    };
    match check_coherence(&instruction) {
        Ok(()) => Ok(instruction),
        Err(e) => Err(e),
    }
}

/// Moves a pointer by a signed offset, wrapping around the offsets of a segment.
pub fn displace(base: Pointer, offset: i16) -> (r: Pointer)
    ensures
        r == displaced(base, offset),
{
    Pointer { segment: base.segment, offset: base.offset.wrapping_add_signed(offset as isize) }
}

/// Determines what the destination of an instruction is.
pub fn compute_dst(ctx: &mut StepContext, cpu: &Cpu, memory: &Memory)
    requires
        memory.wf(),
        cpu.within(memory@.len()),
    ensures
        final(ctx).instruction == old(ctx).instruction,
        final(ctx)@ == (Operands {
            dst_addr: dst_address(*cpu, old(ctx).instruction),
            dst: match cell(memory@, dst_address(*cpu, old(ctx).instruction)) {
                Some(v) => Operand::Asserted(v),
                None => old(ctx)@.dst,
            },
            ..old(ctx)@
        }),
{
    proof {
        lemma_flag_masks();
    }
    let base = match ctx.instruction.dst_register {
        DstRegister::AP => cpu.ap,
        DstRegister::FP => cpu.fp,
    };
    ctx.dst_addr = displace(base, ctx.instruction.dst_offset);
    let segment = memory.segment_unchecked(ctx.dst_addr.segment);
    if let Some(val) = segment.get(ctx.dst_addr.offset) {
        ctx.dst = val.copied();
        ctx.flags.insert(DST_ASSERTED);
    }
}

/// Determines what the first operand of an instruction is.
pub fn compute_op0(ctx: &mut StepContext, cpu: &Cpu, memory: &Memory)
    requires
        memory.wf(),
        cpu.within(memory@.len()),
    ensures
        final(ctx).instruction == old(ctx).instruction,
        final(ctx)@ == (Operands {
            op0_addr: op0_address(*cpu, old(ctx).instruction),
            op0: match cell(memory@, op0_address(*cpu, old(ctx).instruction)) {
                Some(v) => Operand::Asserted(v),
                None => old(ctx)@.op0,
            },
            ..old(ctx)@
        }),
{
    proof {
        lemma_flag_masks();
    }
    let base = match ctx.instruction.op0_register {
        Op0Register::AP => cpu.ap,
        Op0Register::FP => cpu.fp,
    };
    ctx.op0_addr = displace(base, ctx.instruction.op0_offset);
    let segment = memory.segment_unchecked(ctx.op0_addr.segment);
    if let Some(val) = segment.get(ctx.op0_addr.offset) {
        ctx.op0 = val.copied();
        ctx.flags.insert(OP0_ASSERTED);
    }
}

/// Determines what the second operand of an instruction is.
///
/// This function also updates the size of the instruction in the provided context. Where
/// the second operand is relative to the first, the address of the first operand is taken
/// from the context, which must hold a pointer into the memory there.
pub fn compute_op1(ctx: &mut StepContext, cpu: &Cpu, memory: &Memory)
    requires
        memory.wf(),
        cpu.within(memory@.len()),
        old(ctx).instruction.op1_source is Op0 ==> old(ctx).op0_addr.segment < memory@.len(),
    ensures
        final(ctx).instruction == old(ctx).instruction,
        final(ctx)@ == (Operands {
            op1_addr: op1_address_from(*cpu, old(ctx).instruction, old(ctx).op0_addr),
            op1: match cell(
                memory@,
                op1_address_from(*cpu, old(ctx).instruction, old(ctx).op0_addr),
            ) {
                Some(v) => Operand::Asserted(v),
                None => old(ctx)@.op1,
            },
            size: if old(ctx).instruction.op1_source is PC {
                2
            } else {
                old(ctx)@.size
            },
            ..old(ctx)@
        }),
{
    proof {
        lemma_flag_masks();
    }
    let base = match ctx.instruction.op1_source {
        Op1Source::Op0 => ctx.op0_addr,
        Op1Source::PC => {
            ctx.flags.insert(SIZE_TWO);
            cpu.pc
        },
        Op1Source::FP => cpu.fp,
        Op1Source::AP => cpu.ap,
    };
    ctx.op1_addr = displace(base, ctx.instruction.op1_offset);
    let segment = memory.segment_unchecked(ctx.op1_addr.segment);
    if let Some(val) = segment.get(ctx.op1_addr.offset) {
        ctx.op1 = val.copied();
        ctx.flags.insert(OP1_ASSERTED);
    }
}

/// Resolves the addresses of the operands of an instruction and reads what the memory
/// knows of them.
pub fn resolve(instruction: DecodedInstruction, cpu: &Cpu, memory: &Memory) -> (ctx: StepContext)
    requires
        memory.wf(),
        cpu.within(memory@.len()),
    ensures
        ctx.instruction == instruction,
        ctx@ == resolved(*cpu, memory@, instruction),
{
    let mut ctx = StepContext::initial(instruction);
    compute_dst(&mut ctx, cpu, memory);
    compute_op0(&mut ctx, cpu, memory);
    compute_op1(&mut ctx, cpu, memory);
    ctx
}

/// What the builtins said of the three operands of an instruction.
#[derive(Debug, Clone, Copy)]
pub struct Answers {
    /// What was said of the destination.
    pub dst: Result<Option<Value>, CannotDeduce>,
    /// What was said of the first operand.
    pub op0: Result<Option<Value>, CannotDeduce>,
    /// What was said of the second operand.
    pub op1: Result<Option<Value>, CannotDeduce>,
}

impl Answers {
    /// The answers of builtins that have nothing to say.
    pub open spec fn silent() -> Answers {
        Answers { dst: Ok(None), op0: Ok(None), op1: Ok(None) }
    }
}

/// What is known of an operand once a builtin has been heard: an operand that was unknown
/// is deduced if the builtin gives a value, and the step fails if the builtin does.
pub open spec fn informed(operand: Operand, answer: Result<Option<Value>, CannotDeduce>) -> Result<
    Operand,
    Error,
> {
    match operand {
        Operand::Unknown => match answer {
            Ok(Some(v)) => Ok(Operand::Deduced(v)),
            Ok(None) => Ok(Operand::Unknown),
            Err(_) => Err(Error::Builtin),
        },
        _ => Ok(operand),
    }
}

/// What is known of the operands once the builtins have been heard: of the destination
/// first, then of the first operand, then of the second.
pub open spec fn after_builtins(o: Operands, answers: Answers) -> Result<Operands, Error> {
    match informed(o.dst, answers.dst) {
        Err(e) => Err(e),
        Ok(dst) => match informed(o.op0, answers.op0) {
            Err(e) => Err(e),
            Ok(op0) => match informed(o.op1, answers.op1) {
                Err(e) => Err(e),
                Ok(op1) => Ok(Operands { dst, op0, op1, ..o }),
            },
        },
    }
}

/// Whether `answers` may be what the builtins say of the operands: nothing is said of an
/// operand that is known or whose segment has no builtin.
pub open spec fn heard(o: Operands, builtins: BuiltinManager, answers: Answers) -> bool {
    &&& !(o.dst is Unknown) || !builtins.manages(o.dst_addr.segment) ==> answers.dst == Ok::<
        Option<Value>,
        CannotDeduce,
    >(None)
    &&& !(o.op0 is Unknown) || !builtins.manages(o.op0_addr.segment) ==> answers.op0 == Ok::<
        Option<Value>,
        CannotDeduce,
    >(None)
    &&& !(o.op1 is Unknown) || !builtins.manages(o.op1_addr.segment) ==> answers.op1 == Ok::<
        Option<Value>,
        CannotDeduce,
    >(None)
}

/// Asks a builtin what the cell at `offset` of its segment must hold.
///
/// The answer is the one that the builtin's [`Builtin::deduce`] gives for the offset and the
/// segment: what that is, is the builtin's to decide.
pub fn ask_builtin<B: Builtin + ?Sized>(runner: &Box<B>, offset: usize, segment: &Segment) -> (r:
    Result<Option<Value>, CannotDeduce>)
    requires
        segment.wf(),
    ensures
        call_ensures(B::deduce, (&**runner, offset, segment), r),
{
    runner.deduce(offset, segment)
}

/// Attempts to deduce the value of a memory cell using one of the registered builtins.
///
/// # Returns
///
/// - `Err(_)` if the chosen builtin failed to run correctly.
///
/// - `Ok(Some(_))` if the value was successfully deduced with a builtin.
///
/// - `Ok(None)` if the value could not be deduced, because no builtin was registered for the
///   provided segment or because the builtin lacks the inputs that it needs.
///
/// Where a builtin is registered for the segment of `p`, the result is what
/// [`ask_builtin`] gives for that builtin, the offset of `p` and the segment of `p` in the
/// memory.
pub fn deduce_with_builtin(p: Pointer, builtins: &BuiltinManager, memory: &Memory) -> (r: Result<
    Option<Value>,
    CannotDeduce,
>)
    requires
        builtins.wf(),
        memory.wf(),
        p.segment < memory@.len(),
    ensures
        !builtins.manages(p.segment) ==> r == Ok::<Option<Value>, CannotDeduce>(None),
        builtins.manages(p.segment) ==> call_ensures(
            ask_builtin::<dyn Builtin>,
            (
                &builtins.spec_builtins()[p.segment - builtins.spec_min_segment()],
                p.offset,
                &memory.spec_segment(p.segment as int),
            ),
            r,
        ),
{
    match builtins.get_runner(p.segment) {
        Some(runner) => {
            let segment = memory.segment_unchecked(p.segment);
            assert(memory.spec_segment(p.segment as int).wf());
            ask_builtin(runner, p.offset, segment)
        },
        None => Ok(None),
    }
}

/// Asks the builtins about each operand that is still unknown.
///
/// Nothing is asked, and nothing said, of an operand that is known or whose segment has no
/// builtin.
pub fn consult_builtins(ctx: &StepContext, builtins: &BuiltinManager, memory: &Memory) -> (r:
    Answers)
    requires
        builtins.wf(),
        memory.wf(),
        ctx.dst_addr.segment < memory@.len(),
        ctx.op0_addr.segment < memory@.len(),
        ctx.op1_addr.segment < memory@.len(),
    ensures
        heard(ctx@, *builtins, r),
{
    let dst = if !ctx.flags.has_dst() {
        deduce_with_builtin(ctx.dst_addr, builtins, memory)
    } else {
        Ok(None)
    };
    let op0 = if !ctx.flags.has_op0() {
        deduce_with_builtin(ctx.op0_addr, builtins, memory)
    } else {
        Ok(None)
    };
    let op1 = if !ctx.flags.has_op1() {
        deduce_with_builtin(ctx.op1_addr, builtins, memory)
    } else {
        Ok(None)
    };
    Answers { dst, op0, op1 }
}

/// Takes into the context what the builtins said of the operands that are still unknown.
pub fn apply_answers(ctx: &mut StepContext, answers: &Answers) -> (r: Result<(), Error>)
    ensures
        final(ctx).instruction == old(ctx).instruction,
        match after_builtins(old(ctx)@, *answers) {
            Ok(o) => r == Ok::<(), Error>(()) && final(ctx)@ == o,
            Err(e) => r == Err::<(), Error>(e),
        },
{
    proof {
        lemma_flag_masks();
    }
    if !ctx.flags.has_dst() {
        match answers.dst {
            Ok(Some(v)) => {
                ctx.dst = v;
                ctx.flags.insert(DST_DEDUCED);
            },
            Ok(None) => {},
            Err(e) => {
                return Err(Error::from(e));
            },
        }
    }
    if !ctx.flags.has_op0() {
        match answers.op0 {
            Ok(Some(v)) => {
                ctx.op0 = v;
                ctx.flags.insert(OP0_DEDUCED);
            },
            Ok(None) => {},
            Err(e) => {
                return Err(Error::from(e));
            },
        }
    }
    if !ctx.flags.has_op1() {
        match answers.op1 {
            Ok(Some(v)) => {
                ctx.op1 = v;
                ctx.flags.insert(OP1_DEDUCED);
            },
            Ok(None) => {},
            Err(e) => {
                return Err(Error::from(e));
            },
        }
    }
    Ok(())
}

/// Runs the builtins when applicable to deduce the missing operands of an instruction.
///
/// What the builtins answer is theirs to decide; the context is updated as
/// [`after_builtins`] says for those answers. Where no operand is unknown in a segment
/// that has a builtin, the answers are those of [`Answers::silent`].
pub fn run_builtins(ctx: &mut StepContext, builtins: &BuiltinManager, memory: &Memory) -> (r:
    Result<(), Error>)
    requires
        builtins.wf(),
        memory.wf(),
        old(ctx).dst_addr.segment < memory@.len(),
        old(ctx).op0_addr.segment < memory@.len(),
        old(ctx).op1_addr.segment < memory@.len(),
    ensures
        final(ctx).instruction == old(ctx).instruction,
        exists|answers: Answers| #[trigger]
            heard(old(ctx)@, *builtins, answers) && match after_builtins(old(ctx)@, answers) {
                Ok(o) => r == Ok::<(), Error>(()) && final(ctx)@ == o,
                Err(e) => r == Err::<(), Error>(e),
            },
{
    let answers = consult_builtins(ctx, builtins, memory);
    assert(heard(ctx@, *builtins, answers));
    apply_answers(ctx, &answers)
}

/// What is known of an operand once it has been asserted to `value`: an operand that was
/// unknown is deduced, and one that was known must hold the value already.
pub open spec fn agreed(operand: Operand, value: Value) -> Result<Operand, Error> {
    match operand.value() {
        Some(held) => if held == value {
            Ok(operand)
        } else {
            Err(Error::Contradiction)
        },
        None => Ok(Operand::Deduced(value)),
    }
}

/// The second operand of an instruction that asserts `dst` to be its result, as far as the
/// result logic and the first operand define it.
pub open spec fn deduced_op1(logic: ResultLogic, op0: Option<Value>, dst: Value) -> Result<
    Option<Value>,
    Error,
> {
    match logic {
        ResultLogic::Op1 => Ok(Some(dst)),
        ResultLogic::Add => match op0 {
            None => Ok(None),
            Some(op0) => match dst.spec_subtract(op0) {
                Ok(op1) => Ok(Some(op1)),
                Err(e) => Err(e),
            },
        },
        ResultLogic::Mul => match op0 {
            None => Ok(None),
            Some(op0) => match dst.spec_divide(op0) {
                Ok(op1) => Ok(Some(op1)),
                Err(e) => Err(e),
            },
        },
    }
}

/// The first operand of an instruction that asserts `dst` to be its result, as far as the
/// result logic and the second operand define it.
pub open spec fn deduced_op0(logic: ResultLogic, op1: Value, dst: Value) -> Result<
    Option<Value>,
    Error,
> {
    match logic {
        ResultLogic::Op1 => Ok(None),
        ResultLogic::Add => match dst.spec_subtract(op1) {
            Ok(op0) => Ok(Some(op0)),
            Err(e) => Err(e),
        },
        ResultLogic::Mul => match dst.spec_divide(op1) {
            Ok(op0) => Ok(Some(op0)),
            Err(e) => Err(e),
        },
    }
}

/// An operand that takes the value that was found for it, if one was.
pub open spec fn filled(operand: Operand, found: Option<Value>) -> Operand {
    match found {
        Some(v) => Operand::Deduced(v),
        None => operand,
    }
}

/// What is known of the operands of an `AssertEq` whose destination is `dst`, once the
/// relation between the operands has been turned around: the second operand is deduced
/// first, if it is unknown, and then the first, if it is unknown and the second is not.
pub open spec fn inverted(o: Operands, logic: ResultLogic, dst: Value) -> Result<Operands, Error> {
    let found = if o.op1 is Unknown {
        deduced_op1(logic, o.op0.value(), dst)
    } else {
        Ok(None)
    };
    match found {
        Err(e) => Err(e),
        Ok(found) => {
            let op1 = filled(o.op1, found);
            if op1.value() is Some && o.op0 is Unknown {
                match deduced_op0(logic, op1.value()->0, dst) {
                    Err(e) => Err(e),
                    Ok(found) => Ok(Operands { op0: filled(o.op0, found), op1, ..o }),
                }
            } else {
                Ok(Operands { op1, ..o })
            }
        },
    }
}

/// What is known of the operands once the op-code has been taken into account.
///
/// A `Call` asserts its first operand to the address after the instruction and its
/// destination to the frame pointer. An `AssertEq` whose destination is known defines
/// the operand that is missing. The other op-codes define nothing.
pub open spec fn after_op_code(o: Operands, cpu: Cpu, instruction: DecodedInstruction) -> Result<
    Operands,
    Error,
> {
    match instruction.op_code {
        OpCode::Call => match agreed(o.op0, Value::Pointer(cpu.pc.spec_wrapping_add(o.size))) {
            Err(e) => Err(e),
            Ok(op0) => match agreed(o.dst, Value::Pointer(cpu.fp)) {
                Err(e) => Err(e),
                Ok(dst) => Ok(Operands { op0, dst, ..o }),
            },
        },
        OpCode::AssertEq => match o.dst.value() {
            Some(dst) => inverted(o, instruction.result_logic, dst),
            None => Ok(o),
        },
        _ => Ok(o),
    }
}

/// Attempts to deduce the value of `op1` given a result logic and the values of `op0` and
/// `dst`.
pub fn deduce_op1_from_op0(
    res_logic: ResultLogic,
    op0: Option<&Value>,
    dst: &Value,
    op1: &mut Value,
) -> (r: Result<bool, Error>)
    ensures
        match deduced_op1(
            res_logic,
            match op0 {
                Some(v) => Some(*v),
                None => None,
            },
            *dst,
        ) {
            Ok(Some(v)) => r == Ok::<bool, Error>(true) && *final(op1) == v,
            Ok(None) => r == Ok::<bool, Error>(false) && *final(op1) == *old(op1),
            Err(e) => r == Err::<bool, Error>(e) && *final(op1) == *old(op1),
        },
{
    match res_logic {
        ResultLogic::Op1 => {
            //    dst = op1
            *op1 = *dst;
            Ok(true)
        },
        ResultLogic::Add => {
            let op0 = match op0 {
                Some(op0) => op0,
                None => {
                    return Ok(false);
                },
            };
            //     dst = op0 + op1
            // =>  op1 = dst - op0
            match dst.subtract(op0) {
                Ok(v) => {
                    *op1 = v;
                    Ok(true)
                },
                Err(e) => Err(e),
            }
        },
        ResultLogic::Mul => {
            let op0 = match op0 {
                Some(op0) => op0,
                None => {
                    return Ok(false);
                },
            };
            //     dst = op0 * op1
            // =>  op1 = dst / op0
            match dst.divide(op0) {
                Ok(v) => {
                    *op1 = v;
                    Ok(true)
                },
                Err(e) => Err(e),
            }
        },
    }
}

/// Attempts to deduce the value of `op0` given a result logic and the values of `op1` and
/// `dst`.
pub fn deduce_op0_from_op1(res_logic: ResultLogic, op1: &Value, dst: &Value, op0: &mut Value) -> (r:
    Result<bool, Error>)
    ensures
        match deduced_op0(res_logic, *op1, *dst) {
            Ok(Some(v)) => r == Ok::<bool, Error>(true) && *final(op0) == v,
            Ok(None) => r == Ok::<bool, Error>(false) && *final(op0) == *old(op0),
            Err(e) => r == Err::<bool, Error>(e) && *final(op0) == *old(op0),
        },
{
    match res_logic {
        ResultLogic::Op1 => Ok(false),
        ResultLogic::Add => {
            //     dst = op0 + op1
            // =>  op0 = dst - op1
            match dst.subtract(op1) {
                Ok(v) => {
                    *op0 = v;
                    Ok(true)
                },
                Err(e) => Err(e),
            }
        },
        ResultLogic::Mul => {
            //     dst = op0 * op1
            // =>  op0 = dst / op1
            match dst.divide(op1) {
                Ok(v) => {
                    *op0 = v;
                    Ok(true)
                },
                Err(e) => Err(e),
            }
        },
    }
}

/// Attempt to deduce missing operands from the OP-Code of the instruction.
pub fn deduce_from_op_code(ctx: &mut StepContext, cpu: &Cpu) -> (r: Result<(), Error>)
    ensures
        final(ctx).instruction == old(ctx).instruction,
        match after_op_code(old(ctx)@, *cpu, old(ctx).instruction) {
            Ok(o) => r == Ok::<(), Error>(()) && final(ctx)@ == o,
            Err(e) => r == Err::<(), Error>(e),
        },
{
    proof {
        lemma_flag_masks();
    }
    match ctx.instruction.op_code {
        OpCode::Call => {
            // When in a `Call` instruction, `op0` must be asserted to
            // `pc + instruction_size`.
            let pc_plus_size = cpu.pc.wrapping_add(ctx.flags.instruction_size());
            if ctx.flags.has_op0() {
                if ctx.op0 != pc_plus_size {
                    return Err(Error::Contradiction);
                }
            } else {
                ctx.op0 = Value::from(pc_plus_size);
                ctx.flags.insert(OP0_DEDUCED);
            }
            // When in a `Call` instruction, `dst` is asserted to be equal to `fp`.
            if ctx.flags.has_dst() {
                if ctx.dst != cpu.fp {
                    return Err(Error::Contradiction);
                }
            } else {
                ctx.dst = Value::from(cpu.fp);
                ctx.flags.insert(DST_DEDUCED);
            }
        },
        OpCode::AssertEq => {
            // With this op-code, we know that the result of the instruction must be
            // asserted to be equal to `dst`. This tells something of the operands only if
            // we already have the value of `dst`.
            if ctx.flags.has_dst() {
                let res_logic = ctx.instruction.result_logic;
                let dst = ctx.dst;
                if !ctx.flags.has_op1() {
                    let op0 = ctx.op0;
                    let known = if ctx.flags.has_op0() {
                        Some(&op0)
                    } else {
                        None
                    };
                    // We can deduce `op1`.
                    let mut op1 = ctx.op1;
                    let deduced = match deduce_op1_from_op0(res_logic, known, &dst, &mut op1) {
                        Ok(deduced) => deduced,
                        Err(e) => {
                            return Err(e);
                        },
                    };
                    if deduced {
                        ctx.op1 = op1;
                        ctx.flags.insert(OP1_DEDUCED);
                    }
                }
                if ctx.flags.has_op1() && !ctx.flags.has_op0() {
                    // We can deduce `op0`.
                    let op1 = ctx.op1;
                    let mut op0 = ctx.op0;
                    let deduced = match deduce_op0_from_op1(res_logic, &op1, &dst, &mut op0) {
                        Ok(deduced) => deduced,
                        Err(e) => {
                            return Err(e);
                        },
                    };
                    if deduced {
                        ctx.op0 = op0;
                        ctx.flags.insert(OP0_DEDUCED);
                    }
                }
            }
        },
        _ => (),
    }
    Ok(())
}

/// The result of an instruction: its second operand, or the sum or the product of its two
/// operands. Each operand that the result logic reads must be known.
pub open spec fn result_of(o: Operands, logic: ResultLogic) -> Result<Value, Error> {
    match logic {
        ResultLogic::Op1 => match o.op1.value() {
            Some(op1) => Ok(op1),
            None => Err(Error::CantDeduceOp1),
        },
        ResultLogic::Add => match o.op0.value() {
            None => Err(Error::CantDeduceOp0),
            Some(op0) => match o.op1.value() {
                None => Err(Error::CantDeduceOp1),
                Some(op1) => op0.spec_add(op1),
            },
        },
        ResultLogic::Mul => match o.op0.value() {
            None => Err(Error::CantDeduceOp0),
            Some(op0) => match o.op1.value() {
                None => Err(Error::CantDeduceOp1),
                Some(op1) => op0.spec_multiply(op1),
            },
        },
    }
}

/// What is known of the operands once the result is: an `AssertEq` asserts its destination
/// to the result.
pub open spec fn settled(o: Operands, instruction: DecodedInstruction, res: Value) -> Result<
    Operands,
    Error,
> {
    if instruction.op_code is AssertEq {
        match agreed(o.dst, res) {
            Ok(dst) => Ok(Operands { dst, ..o }),
            Err(e) => Err(e),
        }
    } else {
        Ok(o)
    }
}

/// The program counter after a jump by `by` cells, which must be a scalar that fits in an
/// offset.
pub open spec fn jumped(pc: Pointer, by: Value) -> Result<Pointer, Error> {
    match by {
        Value::Scalar(cells) => if cells@ <= usize::MAX {
            Ok(pc.spec_wrapping_add(cells@ as usize))
        } else {
            Err(Error::PointerTooLarge)
        },
        Value::Pointer(_) => Err(Error::InvalidRelativeJump),
    }
}

/// The next value of the program counter, in a memory of `segments` segments.
///
/// A regular update passes the instruction. An absolute jump goes to the result, which must
/// point into the memory. A relative jump goes forward by the result. A conditional jump
/// goes forward by the second operand, which is the result, if the destination is not zero,
/// and passes the instruction if it is.
pub open spec fn next_pc(
    o: Operands,
    cpu: Cpu,
    instruction: DecodedInstruction,
    res: Value,
    segments: nat,
) -> Result<Pointer, Error> {
    match instruction.pc_update {
        PcUpdate::Regular => Ok(cpu.pc.spec_wrapping_add(o.size)),
        PcUpdate::AbsoluteJump => match res {
            Value::Pointer(target) => if target.segment < segments {
                Ok(target)
            } else {
                Err(Error::InvalidAbsoluteJump)
            },
            Value::Scalar(_) => Err(Error::InvalidAbsoluteJump),
        },
        PcUpdate::RelativeJump => jumped(cpu.pc, res),
        PcUpdate::ConditionalJump => match o.dst.value() {
            None => Err(Error::CantDeduceDst),
            Some(dst) => if dst.spec_is_zero() {
                Ok(cpu.pc.spec_wrapping_add(o.size))
            } else {
                jumped(cpu.pc, res)
            },
        },
    }
}

/// The next value of the allocation pointer.
///
/// A call pushes two cells. Otherwise the pointer stays, goes forward by the result, which
/// must be a scalar that fits in an offset, or goes forward by one.
pub open spec fn next_ap(cpu: Cpu, instruction: DecodedInstruction, res: Value) -> Result<
    Pointer,
    Error,
> {
    if instruction.op_code is Call {
        Ok(cpu.ap.spec_wrapping_add(2))
    } else {
        match instruction.ap_update {
            ApUpdate::Unchanged => Ok(cpu.ap),
            ApUpdate::AddResult => match res {
                Value::Scalar(cells) => if cells@ <= usize::MAX {
                    Ok(cpu.ap.spec_wrapping_add(cells@ as usize))
                } else {
                    Err(Error::PointerTooLarge)
                },
                Value::Pointer(_) => Err(Error::InvalidPointerArithmetic),
            },
            ApUpdate::Increment => Ok(cpu.ap.spec_wrapping_add(1)),
        }
    }
}

/// The next value of the frame pointer.
///
/// A call opens a frame after the two cells that it pushes. A return goes back to the frame
/// that the destination holds, which must be a pointer into the segment of the frames. The
/// other op-codes leave the frame pointer as it is.
pub open spec fn next_fp(o: Operands, cpu: Cpu, instruction: DecodedInstruction) -> Result<
    Pointer,
    Error,
> {
    match instruction.op_code {
        OpCode::Call => Ok(cpu.ap.spec_wrapping_add(2)),
        OpCode::Ret => match o.dst.value() {
            None => Err(Error::CantDeduceDst),
            Some(Value::Pointer(frame)) => if frame.segment == cpu.fp.segment {
                Ok(frame)
            } else {
                Err(Error::InvalidReturn)
            },
            Some(Value::Scalar(_)) => Err(Error::InvalidReturn),
        },
        _ => Ok(cpu.fp),
    }
}

/// The write of an operand, if it is known.
pub open spec fn write_of(addr: Pointer, operand: Operand) -> Seq<(Pointer, Value)> {
    match operand.value() {
        Some(v) => seq![(addr, v)],
        None => Seq::empty(),
    }
}

/// The cells that an instruction asserts, in the order in which they are asserted.
///
/// A call pushes the frame pointer and the address after the instruction. An `AssertEq`
/// asserts each of its operands that is known, and its destination. The other op-codes
/// assert nothing.
pub open spec fn writes_of(o: Operands, cpu: Cpu, instruction: DecodedInstruction) -> Seq<
    (Pointer, Value),
> {
    match instruction.op_code {
        OpCode::Call => seq![
            (cpu.ap, Value::Pointer(cpu.fp)),
            (cpu.ap.spec_wrapping_add(1), Value::Pointer(cpu.pc.spec_wrapping_add(o.size))),
        ],
        OpCode::AssertEq => write_of(o.op0_addr, o.op0) + write_of(o.op1_addr, o.op1) + write_of(
            o.dst_addr,
            o.dst,
        ),
        _ => Seq::empty(),
    }
}

/// What a step does to the machine, if it succeeds: the next registers, and the cells to
/// assert.
pub struct Transition {
    /// The registers after the step.
    pub cpu: Cpu,
    /// The cells that the step asserts, in the order in which they are asserted.
    pub writes: Seq<(Pointer, Value)>,
}

/// What an instruction does, given what is known of its operands once the memory and the
/// builtins have been heard, in a memory of `segments` segments.
#[verifier::opaque]
pub open spec fn executed(
    o: Operands,
    cpu: Cpu,
    instruction: DecodedInstruction,
    segments: nat,
) -> Result<Transition, Error> {
    match after_op_code(o, cpu, instruction) {
        Err(e) => Err(e),
        Ok(o) => match result_of(o, instruction.result_logic) {
            Err(e) => Err(e),
            Ok(res) => match settled(o, instruction, res) {
                Err(e) => Err(e),
                Ok(o) => match next_pc(o, cpu, instruction, res, segments) {
                    Err(e) => Err(e),
                    Ok(pc) => match next_ap(cpu, instruction, res) {
                        Err(e) => Err(e),
                        Ok(ap) => match next_fp(o, cpu, instruction) {
                            Err(e) => Err(e),
                            Ok(fp) => Ok(
                                Transition {
                                    cpu: Cpu { pc, ap, fp },
                                    writes: writes_of(o, cpu, instruction),
                                },
                            ),
                        },
                    },
                },
            },
        },
    }
}

/// A step keeps the registers within the memory, and asserts cells of the memory only: the
/// registers and the writes that an instruction defines point into segments of the memory
/// if the registers and the addresses of the operands did. It also keeps the allocation
/// pointer in its segment, and the frame pointer too if the two share their segment.
pub proof fn lemma_executed_within(
    o: Operands,
    cpu: Cpu,
    instruction: DecodedInstruction,
    segments: nat,
)
    requires
        cpu.within(segments),
        o.dst_addr.segment < segments,
        o.op0_addr.segment < segments,
        o.op1_addr.segment < segments,
    ensures
        executed(o, cpu, instruction, segments) matches Ok(transition) ==> {
            &&& transition.cpu.within(segments)
            &&& transition.cpu.ap.segment == cpu.ap.segment
            &&& cpu.framed() ==> transition.cpu.fp.segment == cpu.fp.segment
            &&& forall|i: int|
                0 <= i < transition.writes.len() ==> (#[trigger] transition.writes[i]).0.segment
                    < segments
        },
{
    reveal(executed);
}

/// No instruction is defined to run out of memory: only committing its writes can.
pub proof fn lemma_executed_has_memory(
    o: Operands,
    cpu: Cpu,
    instruction: DecodedInstruction,
    segments: nat,
)
    ensures
        executed(o, cpu, instruction, segments) != Err::<Transition, Error>(Error::OutOfMemory),
{
    reveal(executed);
    let first = after_op_code(o, cpu, instruction);
    assert(first != Err::<Operands, Error>(Error::OutOfMemory));
    if let Ok(o) = first {
        let res = result_of(o, instruction.result_logic);
        assert(res != Err::<Value, Error>(Error::OutOfMemory));
        if let Ok(res) = res {
            let second = settled(o, instruction, res);
            assert(second != Err::<Operands, Error>(Error::OutOfMemory));
            if let Ok(o) = second {
                assert(next_pc(o, cpu, instruction, res, segments) != Err::<Pointer, Error>(
                    Error::OutOfMemory,
                ));
                assert(next_ap(cpu, instruction, res) != Err::<Pointer, Error>(
                    Error::OutOfMemory,
                ));
                assert(next_fp(o, cpu, instruction) != Err::<Pointer, Error>(Error::OutOfMemory));
            }
        }
    }
}

/// What a step does to a machine whose builtins give `answers`, if it succeeds.
pub open spec fn stepped(cpu: Cpu, memory: Seq<Seq<Option<Value>>>, answers: Answers) -> Result<
    Transition,
    Error,
> {
    match decoded(cpu, memory) {
        Err(e) => Err(e),
        Ok(instruction) => match after_builtins(resolved(cpu, memory, instruction), answers) {
            Err(e) => Err(e),
            Ok(o) => executed(o, cpu, instruction, memory.len()),
        },
    }
}

/// Computes the result of the instruction from its operands.
pub fn compute_res(ctx: &StepContext) -> (r: Result<Value, Error>)
    ensures
        r == result_of(ctx@, ctx.instruction.result_logic),
{
    match ctx.instruction.result_logic {
        ResultLogic::Op1 => {
            if !ctx.flags.has_op1() {
                return Err(Error::CantDeduceOp1);
            }
            Ok(ctx.op1)
        },
        ResultLogic::Add => {
            if !ctx.flags.has_op0() {
                return Err(Error::CantDeduceOp0);
            }
            if !ctx.flags.has_op1() {
                return Err(Error::CantDeduceOp1);
            }
            ctx.op0.add(&ctx.op1)
        },
        ResultLogic::Mul => {
            if !ctx.flags.has_op0() {
                return Err(Error::CantDeduceOp0);
            }
            if !ctx.flags.has_op1() {
                return Err(Error::CantDeduceOp1);
            }
            ctx.op0.multiply(&ctx.op1)
        },
    }
}

/// In an `AssertEq`, asserts the destination to the result of the instruction.
pub fn assert_res(ctx: &mut StepContext, res: &Value) -> (r: Result<(), Error>)
    ensures
        final(ctx).instruction == old(ctx).instruction,
        match settled(old(ctx)@, old(ctx).instruction, *res) {
            Ok(o) => r == Ok::<(), Error>(()) && final(ctx)@ == o,
            Err(e) => r == Err::<(), Error>(e) && *final(ctx) == *old(ctx),
        },
{
    proof {
        lemma_flag_masks();
    }
    if matches!(ctx.instruction.op_code, OpCode::AssertEq) {
        if ctx.flags.has_dst() {
            if ctx.dst != *res {
                return Err(Error::Contradiction);
            }
        } else {
            ctx.dst = *res;
            ctx.flags.insert(DST_DEDUCED);
        }
    }
    Ok(())
}

/// Moves the program counter forward by a value, which must be a scalar that fits in an
/// offset.
pub fn jump(pc: Pointer, by: &Value) -> (r: Result<Pointer, Error>)
    ensures
        r == jumped(pc, *by),
{
    match by {
        Value::Scalar(cells) => match cells.to_usize() {
            Some(cells) => Ok(pc.wrapping_add(cells)),
            None => Err(Error::PointerTooLarge),
        },
        Value::Pointer(_) => Err(Error::InvalidRelativeJump),
    }
}

/// Computes the next value of the **Program Counter**, in a memory of `segments`
/// segments.
pub fn update_pc(ctx: &mut StepContext, cpu: &Cpu, res: &Value, segments: usize) -> (r: Result<
    (),
    Error,
>)
    ensures
        final(ctx).instruction == old(ctx).instruction,
        final(ctx)@ == old(ctx)@,
        final(ctx).next_ap == old(ctx).next_ap,
        final(ctx).next_fp == old(ctx).next_fp,
        match next_pc(old(ctx)@, *cpu, old(ctx).instruction, *res, segments as nat) {
            Ok(pc) => r == Ok::<(), Error>(()) && final(ctx).next_pc == pc,
            Err(e) => r == Err::<(), Error>(e),
        },
{
    let next = match ctx.instruction.pc_update {
        PcUpdate::Regular => cpu.pc.wrapping_add(ctx.flags.instruction_size()),
        PcUpdate::AbsoluteJump => match res {
            Value::Pointer(target) => {
                if target.segment >= segments {
                    return Err(Error::InvalidAbsoluteJump);
                }
                *target
            },
            Value::Scalar(_) => {
                return Err(Error::InvalidAbsoluteJump);
            },
        },
        PcUpdate::RelativeJump => match jump(cpu.pc, res) {
            Ok(next) => next,
            Err(e) => {
                return Err(e);
            },
        },
        PcUpdate::ConditionalJump => {
            if !ctx.flags.has_dst() {
                return Err(Error::CantDeduceDst);
            }
            if ctx.dst.is_zero() {
                cpu.pc.wrapping_add(ctx.flags.instruction_size())
            } else {
                match jump(cpu.pc, res) {
                    Ok(next) => next,
                    Err(e) => {
                        return Err(e);
                    },
                }
            }
        },
    };
    ctx.next_pc = next;
    Ok(())
}

/// Computes the next value of the **Allocation Pointer**.
pub fn update_ap(ctx: &mut StepContext, cpu: &Cpu, res: &Value) -> (r: Result<(), Error>)
    ensures
        final(ctx).instruction == old(ctx).instruction,
        final(ctx)@ == old(ctx)@,
        final(ctx).next_pc == old(ctx).next_pc,
        final(ctx).next_fp == old(ctx).next_fp,
        match next_ap(*cpu, old(ctx).instruction, *res) {
            Ok(ap) => r == Ok::<(), Error>(()) && final(ctx).next_ap == ap,
            Err(e) => r == Err::<(), Error>(e),
        },
{
    let next = if matches!(ctx.instruction.op_code, OpCode::Call) {
        cpu.ap.wrapping_add(2)
    } else {
        match ctx.instruction.ap_update {
            ApUpdate::Unchanged => cpu.ap,
            ApUpdate::AddResult => match res {
                Value::Scalar(cells) => match cells.to_usize() {
                    Some(cells) => cpu.ap.wrapping_add(cells),
                    None => {
                        return Err(Error::PointerTooLarge);
                    },
                },
                Value::Pointer(_) => {
                    return Err(Error::InvalidPointerArithmetic);
                },
            },
            ApUpdate::Increment => cpu.ap.wrapping_add(1),
        }
    };
    ctx.next_ap = next;
    Ok(())
}

/// Computes the next value of the **Frame Pointer**.
pub fn update_fp(ctx: &mut StepContext, cpu: &Cpu) -> (r: Result<(), Error>)
    ensures
        final(ctx).instruction == old(ctx).instruction,
        final(ctx)@ == old(ctx)@,
        final(ctx).next_pc == old(ctx).next_pc,
        final(ctx).next_ap == old(ctx).next_ap,
        match next_fp(old(ctx)@, *cpu, old(ctx).instruction) {
            Ok(fp) => r == Ok::<(), Error>(()) && final(ctx).next_fp == fp,
            Err(e) => r == Err::<(), Error>(e),
        },
{
    let next = match ctx.instruction.op_code {
        OpCode::Call => cpu.ap.wrapping_add(2),
        OpCode::Ret => {
            if !ctx.flags.has_dst() {
                return Err(Error::CantDeduceDst);
            }
            match ctx.dst {
                Value::Pointer(frame) => {
                    if frame.segment != cpu.fp.segment {
                        return Err(Error::InvalidReturn);
                    }
                    frame
                },
                Value::Scalar(_) => {
                    return Err(Error::InvalidReturn);
                },
            }
        },
        _ => cpu.fp,
    };
    ctx.next_fp = next;
    Ok(())
}

/// Lists the cells that the instruction asserts, in the order in which they are asserted.
pub fn collect_writes(ctx: &StepContext, cpu: &Cpu) -> (r: Vec<(Pointer, Value)>)
    ensures
        r@ == writes_of(ctx@, *cpu, ctx.instruction),
{
    let mut writes: Vec<(Pointer, Value)> = Vec::new();
    match ctx.instruction.op_code {
        OpCode::Call => {
            let size = ctx.flags.instruction_size();
            writes.push((cpu.ap, Value::Pointer(cpu.fp)));
            writes.push((cpu.ap.wrapping_add(1), Value::Pointer(cpu.pc.wrapping_add(size))));
        },
        OpCode::AssertEq => {
            if ctx.flags.has_op0() {
                writes.push((ctx.op0_addr, ctx.op0));
            }
            if ctx.flags.has_op1() {
                writes.push((ctx.op1_addr, ctx.op1));
            }
            if ctx.flags.has_dst() {
                writes.push((ctx.dst_addr, ctx.dst));
            }
        },
        _ => {},
    }
    proof {
        assert(writes@ =~= writes_of(ctx@, *cpu, ctx.instruction));
    }
    writes
}

/// Takes the op-code into account, computes the result of the instruction and the next
/// value of each register, and lists the cells to assert.
///
/// On success the next registers are in the context, and the cells to assert are returned.
pub fn execute(ctx: &mut StepContext, cpu: &Cpu, segments: usize) -> (r: Result<
    Vec<(Pointer, Value)>,
    Error,
>)
    ensures
        final(ctx).instruction == old(ctx).instruction,
        match executed(old(ctx)@, *cpu, old(ctx).instruction, segments as nat) {
            Ok(transition) => r is Ok && r->Ok_0@ == transition.writes && transition.cpu == (Cpu {
                pc: final(ctx).next_pc,
                ap: final(ctx).next_ap,
                fp: final(ctx).next_fp,
            }),
            Err(e) => r is Err && r->Err_0 == e,
        },
{
    reveal(executed);
    match deduce_from_op_code(ctx, cpu) {
        Ok(()) => {},
        Err(e) => {
            return Err(e);
        },
    }
    let res = match compute_res(ctx) {
        Ok(res) => res,
        Err(e) => {
            return Err(e);
        },
    };
    match assert_res(ctx, &res) {
        Ok(()) => {},
        Err(e) => {
            return Err(e);
        },
    }
    match update_pc(ctx, cpu, &res, segments) {
        Ok(()) => {},
        Err(e) => {
            return Err(e);
        },
    }
    match update_ap(ctx, cpu, &res) {
        Ok(()) => {},
        Err(e) => {
            return Err(e);
        },
    }
    match update_fp(ctx, cpu) {
        Ok(()) => {},
        Err(e) => {
            return Err(e);
        },
    }
    Ok(collect_writes(ctx, cpu))
}

/// In an `AssertEq` that adds, the second operand that is deduced from a destination and
/// a first operand that are scalars is the one whose sum with the first operand is the
/// destination: the result of the instruction is then its destination.
pub proof fn lemma_deduced_op1_adds_up(
    o: Operands,
    cpu: Cpu,
    instruction: DecodedInstruction,
    op0: FieldElement,
    dst: FieldElement,
)
    requires
        instruction.op_code is AssertEq,
        instruction.result_logic is Add,
        o.op0.value() == Some(Value::Scalar(op0)),
        o.dst.value() == Some(Value::Scalar(dst)),
        o.op1 is Unknown,
        op0.is_canonical(),
        dst.is_canonical(),
    ensures
        deduced_op1(ResultLogic::Add, Some(Value::Scalar(op0)), Value::Scalar(dst)) matches Ok(
            Some(op1),
        ) && Value::Scalar(op0).spec_add(op1) == Ok::<Value, Error>(Value::Scalar(dst)),
        after_op_code(o, cpu, instruction) matches Ok(after) && after.op1 matches Operand::Deduced(
            op1,
        ) && Value::Scalar(op0).spec_add(op1) == Ok::<Value, Error>(Value::Scalar(dst))
            && result_of(after, ResultLogic::Add) == Ok::<Value, Error>(Value::Scalar(dst)),
{
    lemma_difference_adds_up(op0, dst);
}

/// A call writes exactly two cells, the frame pointer at the allocation pointer and the
/// address after the instruction in the next cell, and moves the allocation pointer and the
/// frame pointer two cells past the allocation pointer.
pub proof fn lemma_call_pushes_frame(
    o: Operands,
    cpu: Cpu,
    instruction: DecodedInstruction,
    segments: nat,
)
    requires
        instruction.op_code is Call,
    ensures
        executed(o, cpu, instruction, segments) matches Ok(transition) ==> {
            &&& transition.writes.len() == 2
            &&& transition.writes[0] == (cpu.ap, Value::Pointer(cpu.fp))
            &&& transition.writes[1] == (
                cpu.ap.spec_wrapping_add(1),
                Value::Pointer(cpu.pc.spec_wrapping_add(o.size)),
            )
            &&& transition.cpu.ap == cpu.ap.spec_wrapping_add(2)
            &&& transition.cpu.fp == cpu.ap.spec_wrapping_add(2)
        },
{
    reveal(executed);
}

/// A return restores the frame pointer that the matching call saved.
///
/// Take a call that succeeds from the registers `caller` in the memory `before`, and any
/// later state of the machine, with the registers `callee` and the memory `later`, in which
/// the frame pointer is where the call left it. A return that reads its destination two
/// cells below the frame pointer, if it succeeds, leaves the frame pointer where it was
/// before the call, whatever the builtins say.
pub proof fn lemma_ret_restores_frame(
    caller: Cpu,
    before: Seq<Seq<Option<Value>>>,
    call: DecodedInstruction,
    operands: Operands,
    callee: Cpu,
    later: Seq<Seq<Option<Value>>>,
    ret: DecodedInstruction,
    answers: Answers,
)
    requires
        caller.ap.segment < before.len(),
        call.op_code is Call,
        executed(operands, caller, call, before.len()) matches Ok(transition) && committed(
            before,
            transition.writes,
        ) matches Ok(after) && extends(later, after) && callee.fp == transition.cpu.fp,
        ret.op_code is Ret,
        ret.dst_register is FP,
        ret.dst_offset == -2,
    ensures
        after_builtins(resolved(callee, later, ret), answers) matches Ok(found) ==> (executed(
            found,
            callee,
            ret,
            later.len(),
        ) matches Ok(transition) ==> transition.cpu.fp == caller.fp),
{
    reveal(executed);
    let transition = executed(operands, caller, call, before.len())->Ok_0;
    lemma_call_pushes_frame(operands, caller, call, before.len());
    let after = committed(before, transition.writes)->Ok_0;
    let saved = (caller.ap, Value::Pointer(caller.fp));
    let link = transition.writes[1];
    // The first write leaves the frame pointer at the allocation pointer, and the second,
    // which is to another cell, leaves it there.
    let first = asserted_at(before, saved.0, saved.1)->Ok_0;
    assert(committed(before, transition.writes) == committed(first, transition.writes.skip(1)));
    assert(transition.writes.skip(1)[0] == link);
    let second = asserted_at(first, link.0, link.1)->Ok_0;
    assert(committed(first, transition.writes.skip(1)) == committed(
        second,
        transition.writes.skip(1).skip(1),
    ));
    assert(transition.writes.skip(1).skip(1).len() == 0);
    assert(after == second);
    assert(cell(first, caller.ap) == Some(saved.1));
    assert(link.0.segment == caller.ap.segment && link.0.offset != caller.ap.offset);
    assert(cell(second, caller.ap) == Some(saved.1));
    assert(cell(later, caller.ap) == Some(saved.1));
    // Two cells below where the call left the frame pointer is where the allocation
    // pointer was.
    assert(dst_address(callee, ret) == caller.ap);
}

} // verus!
