use cairo_vm_core::builtin::{Builtin, BuiltinManager, CannotDeduce};
use cairo_vm_core::cpu::Cpu;
use cairo_vm_core::error::Error;
use cairo_vm_core::field::FieldElement;
use cairo_vm_core::instr::{
    ApUpdate, DecodedInstruction, DstRegister, Op0Register, Op1Source, OpCode, PcUpdate,
    ResultLogic,
};
use cairo_vm_core::memory::{Memory, Pointer, Segment, Value};
use cairo_vm_core::step::Answers;
use cairo_vm_core::trace::NoopTrace;
use cairo_vm_core::CairoVM;

fn scalar(x: u64) -> Value {
    Value::Scalar(FieldElement::from_u64(x))
}

fn at(segment: usize, offset: usize) -> Pointer {
    Pointer { segment, offset }
}

fn pointer(segment: usize, offset: usize) -> Value {
    Value::Pointer(at(segment, offset))
}

fn word(fields: DecodedInstruction) -> Value {
    scalar(fields.encode().0)
}

fn plain() -> DecodedInstruction {
    DecodedInstruction {
        dst_offset: 0,
        op0_offset: 0,
        op1_offset: 0,
        dst_register: DstRegister::AP,
        op0_register: Op0Register::AP,
        op1_source: Op1Source::Op0,
        result_logic: ResultLogic::Op1,
        pc_update: PcUpdate::Regular,
        ap_update: ApUpdate::Unchanged,
        op_code: OpCode::Nop,
    }
}

/// `[ap + dst] = [ap + op0] (logic) imm`, without an update of `ap`.
fn assert_eq_imm(dst: i16, op0: i16, logic: ResultLogic) -> DecodedInstruction {
    DecodedInstruction {
        dst_offset: dst,
        op0_offset: op0,
        op1_offset: 1,
        op1_source: Op1Source::PC,
        result_logic: logic,
        op_code: OpCode::AssertEq,
        ..plain()
    }
}

/// `[ap + dst] = [ap + op0] (logic) [ap + op1]`, without an update of `ap`.
fn assert_eq_cells(dst: i16, op0: i16, op1: i16, logic: ResultLogic) -> DecodedInstruction {
    DecodedInstruction {
        dst_offset: dst,
        op0_offset: op0,
        op1_offset: op1,
        op1_source: Op1Source::AP,
        result_logic: logic,
        op_code: OpCode::AssertEq,
        ..plain()
    }
}

fn call_abs() -> DecodedInstruction {
    DecodedInstruction {
        dst_offset: 0,
        op0_offset: 1,
        op1_offset: 1,
        op1_source: Op1Source::PC,
        pc_update: PcUpdate::AbsoluteJump,
        op_code: OpCode::Call,
        ..plain()
    }
}

fn ret() -> DecodedInstruction {
    DecodedInstruction {
        dst_offset: -2,
        op0_offset: -1,
        op1_offset: -1,
        dst_register: DstRegister::FP,
        op0_register: Op0Register::FP,
        op1_source: Op1Source::FP,
        pc_update: PcUpdate::AbsoluteJump,
        op_code: OpCode::Ret,
        ..plain()
    }
}

fn segment(cells: &[Option<Value>]) -> Segment {
    let mut s = Segment::new();
    for (i, cell) in cells.iter().enumerate() {
        if let Some(v) = cell {
            assert_eq!(s.assert_eq(i, v.as_ref()), Ok(()));
        }
    }
    s
}

fn memory(segments: &[&[Option<Value>]]) -> Memory {
    let mut m = Memory::new();
    for cells in segments {
        m.push_segment(segment(cells));
    }
    m
}

fn start() -> Cpu {
    Cpu { pc: at(0, 0), ap: at(1, 0), fp: at(1, 0) }
}

fn machine(segments: &[&[Option<Value>]], cpu: Cpu) -> CairoVM {
    CairoVM::new(memory(segments), cpu, Vec::new(), 0).expect("registers within the memory")
}

fn step(vm: &mut CairoVM) -> Result<(), Error> {
    vm.step(&mut NoopTrace)
}

/// Runs a single instruction, with its immediate value, on the given stack.
fn run(fields: DecodedInstruction, imm: Option<Value>, stack: &[Option<Value>]) -> (CairoVM, Result<(), Error>) {
    let mut vm = machine(&[&[Some(word(fields)), imm], stack], start());
    let r = step(&mut vm);
    (vm, r)
}

struct Fixed {
    offset: usize,
    answer: Result<Option<Value>, CannotDeduce>,
}

impl Builtin for Fixed {
    fn deduce(&self, offset: usize, _segment: &Segment) -> Result<Option<Value>, CannotDeduce> {
        if offset == self.offset {
            self.answer
        } else {
            Ok(None)
        }
    }
}

/// A builtin that deduces the cell after two known scalars to be their sum.
struct Adder;

impl Builtin for Adder {
    fn deduce(&self, offset: usize, segment: &Segment) -> Result<Option<Value>, CannotDeduce> {
        if offset % 3 != 2 {
            return Ok(None);
        }
        match (segment.get(offset - 2), segment.get(offset - 1)) {
            (Some(a), Some(b)) => a.copied().add(&b.copied()).map(Some).map_err(|_| CannotDeduce),
            _ => Ok(None),
        }
    }
}

#[test]
fn assert_eq_of_an_immediate_writes_the_stack() {
    let fields = DecodedInstruction { ap_update: ApUpdate::Increment, ..assert_eq_imm(0, 0, ResultLogic::Op1) };
    let (vm, r) = run(fields, Some(scalar(7)), &[]);
    assert_eq!(r, Ok(()));
    assert_eq!(vm.memory().get(at(1, 0)), Some(scalar(7)));
    assert_eq!(*vm.cpu(), Cpu { pc: at(0, 2), ap: at(1, 1), fp: at(1, 0) });
    assert_eq!(vm.memory().segment_unchecked(1).highest_known_cell(), 1);
}

#[test]
fn call_and_ret_round_trip() {
    let program = [
        Some(word(call_abs())),
        Some(pointer(0, 5)),
        None,
        None,
        None,
        Some(word(ret())),
    ];
    let mut vm = machine(&[&program, &[]], start());
    assert_eq!(step(&mut vm), Ok(()));
    assert_eq!(vm.memory().get(at(1, 0)), Some(pointer(1, 0)));
    assert_eq!(vm.memory().get(at(1, 1)), Some(pointer(0, 2)));
    assert_eq!(vm.memory().segment_unchecked(1).highest_known_cell(), 2);
    assert_eq!(*vm.cpu(), Cpu { pc: at(0, 5), ap: at(1, 2), fp: at(1, 2) });
    assert_eq!(step(&mut vm), Ok(()));
    assert_eq!(vm.cpu().pc, at(0, 2));
    assert_eq!(vm.cpu().fp, at(1, 0));
    assert_eq!(vm.cpu().ap, at(1, 2));
    assert_eq!(vm.memory().segment_unchecked(1).highest_known_cell(), 2);
}

#[test]
fn reserved_bit_is_undefined() {
    let mut vm = machine(&[&[Some(scalar(1 << 63))], &[]], start());
    assert_eq!(step(&mut vm), Err(Error::UndefinedInstruction));
    assert_eq!(*vm.cpu(), start());
    assert_eq!(vm.memory().segment_unchecked(1).highest_known_cell(), 0);
}

#[test]
fn conditional_jump_taken_goes_forward() {
    let fields = DecodedInstruction {
        op1_offset: 1,
        op1_source: Op1Source::PC,
        pc_update: PcUpdate::ConditionalJump,
        ap_update: ApUpdate::AddResult,
        ..plain()
    };
    let (vm, r) = run(fields, Some(scalar(3)), &[Some(scalar(5))]);
    assert_eq!(r, Ok(()));
    assert_eq!(vm.cpu().pc, at(0, 3));
    assert_eq!(vm.cpu().ap, at(1, 3));
    assert_eq!(vm.cpu().fp, at(1, 0));
}

#[test]
fn conditional_jump_not_taken_passes_the_instruction() {
    let fields = DecodedInstruction {
        op1_offset: 1,
        op1_source: Op1Source::PC,
        pc_update: PcUpdate::ConditionalJump,
        ap_update: ApUpdate::AddResult,
        ..plain()
    };
    let (vm, r) = run(fields, Some(scalar(3)), &[Some(scalar(0))]);
    assert_eq!(r, Ok(()));
    assert_eq!(vm.cpu().pc, at(0, 2));
    assert_eq!(vm.cpu().ap, at(1, 3));
    // A pointer is never zero.
    let (vm, r) = run(fields, Some(scalar(3)), &[Some(pointer(0, 0))]);
    assert_eq!(r, Ok(()));
    assert_eq!(vm.cpu().pc, at(0, 3));
}

#[test]
fn conditional_jump_malformed_is_undefined() {
    let fields = DecodedInstruction {
        op1_offset: 1,
        op1_source: Op1Source::PC,
        result_logic: ResultLogic::Add,
        pc_update: PcUpdate::ConditionalJump,
        ap_update: ApUpdate::AddResult,
        ..plain()
    };
    let (vm, r) = run(fields, Some(scalar(3)), &[Some(scalar(5))]);
    assert_eq!(r, Err(Error::UndefinedConditionalJump));
    assert_eq!(*vm.cpu(), start());
    for fields in [
        DecodedInstruction { op_code: OpCode::Ret, ..fields },
        DecodedInstruction { result_logic: ResultLogic::Op1, ap_update: ApUpdate::Unchanged, ..fields },
        DecodedInstruction { result_logic: ResultLogic::Op1, ap_update: ApUpdate::Increment, ..fields },
        DecodedInstruction { result_logic: ResultLogic::Op1, op_code: OpCode::AssertEq, ..fields },
    ] {
        let (_, r) = run(fields, Some(scalar(3)), &[Some(scalar(5))]);
        assert_eq!(r, Err(Error::UndefinedConditionalJump));
    }
}

#[test]
fn conditional_jump_needs_its_destination() {
    let fields = DecodedInstruction {
        op1_offset: 1,
        op1_source: Op1Source::PC,
        pc_update: PcUpdate::ConditionalJump,
        ap_update: ApUpdate::AddResult,
        ..plain()
    };
    let (_, r) = run(fields, Some(scalar(3)), &[]);
    assert_eq!(r, Err(Error::CantDeduceDst));
}

#[test]
fn call_with_an_update_of_ap_is_undefined() {
    for ap_update in [ApUpdate::AddResult, ApUpdate::Increment] {
        let fields = DecodedInstruction { ap_update, ..call_abs() };
        let (vm, r) = run(fields, Some(pointer(0, 5)), &[]);
        assert_eq!(r, Err(Error::UndefinedApUpdateInCall));
        assert_eq!(vm.memory().get(at(1, 0)), None);
    }
}

#[test]
fn malformed_flags_are_undefined() {
    for (bits, error) in [
        (3u64 << 50, Error::UndefinedOp1Source),
        (3 << 53, Error::UndefinedResultLogic),
        (3 << 55, Error::UndefinedPcUpdate),
        (3 << 58, Error::UndefinedApUpdate),
        (3 << 60, Error::UndefinedOpCode),
    ] {
        let mut vm = machine(&[&[Some(scalar(bits))], &[]], start());
        assert_eq!(step(&mut vm), Err(error));
        assert_eq!(*vm.cpu(), start());
    }
}

#[test]
fn program_counter_must_point_to_a_scalar() {
    let mut vm = machine(&[&[], &[]], start());
    assert_eq!(step(&mut vm), Err(Error::ProgramCounterLost));
    let mut vm = machine(&[&[None, Some(scalar(0))], &[]], start());
    assert_eq!(step(&mut vm), Err(Error::ProgramCounterLost));
    let mut vm = machine(&[&[Some(pointer(0, 0))], &[]], start());
    assert_eq!(step(&mut vm), Err(Error::ProgramCounterLost));
    assert_eq!(*vm.cpu(), start());
}

#[test]
fn instruction_must_fit_in_64_bits() {
    let wide = Value::Scalar(FieldElement::new(0, 1u128 << 64).unwrap());
    let mut vm = machine(&[&[Some(wide)], &[]], start());
    assert_eq!(step(&mut vm), Err(Error::UndefinedInstruction));
    let wider = Value::Scalar(FieldElement::new(1, 0).unwrap());
    let mut vm = machine(&[&[Some(wider)], &[]], start());
    assert_eq!(step(&mut vm), Err(Error::UndefinedInstruction));
}

#[test]
fn machine_needs_its_registers_within_the_memory() {
    assert!(CairoVM::new(memory(&[&[], &[]]), start(), Vec::new(), 0).is_some());
    assert!(CairoVM::new(memory(&[&[], &[]]), start(), Vec::new(), 2).is_some());
    assert!(CairoVM::new(memory(&[&[], &[]]), start(), Vec::new(), 3).is_none());
    assert!(CairoVM::new(memory(&[&[]]), start(), Vec::new(), 0).is_none());
    assert!(CairoVM::new(memory(&[&[], &[]]), Cpu { pc: at(2, 0), ..start() }, Vec::new(), 0).is_none());
    assert!(CairoVM::new(memory(&[&[], &[]]), Cpu { fp: at(2, 0), ..start() }, Vec::new(), 0).is_none());
    assert!(CairoVM::new(Memory::new(), start(), Vec::new(), 0).is_none());
    // The frames lie in the segment that the allocation pointer fills.
    let apart = Cpu { pc: at(0, 0), ap: at(1, 0), fp: at(0, 0) };
    assert!(CairoVM::new(memory(&[&[], &[]]), apart, Vec::new(), 0).is_none());
    // Each builtin is bound to a segment of the memory.
    assert!(CairoVM::new(memory(&[&[], &[]]), start(), vec![Box::new(Adder)], 2).is_none());
    assert!(CairoVM::new(memory(&[&[], &[]]), start(), vec![Box::new(Adder)], usize::MAX).is_none());
    assert!(CairoVM::new(memory(&[&[], &[]]), start(), vec![Box::new(Adder)], 1).is_some());
    assert!(CairoVM::new(memory(&[&[], &[]]), start(), vec![Box::new(Adder), Box::new(Adder)], 0).is_some());
    assert!(CairoVM::new(memory(&[&[], &[]]), start(), vec![Box::new(Adder), Box::new(Adder)], 1).is_none());
}

#[test]
fn builtin_manager_binds_a_range_of_segments() {
    let two: Vec<Box<dyn Builtin>> = vec![Box::new(Adder), Box::new(Adder)];
    let manager = BuiltinManager::new(two, 3).unwrap();
    assert_eq!(manager.min_segment(), 3);
    assert_eq!(manager.max_segment(), 5);
    assert!(manager.get_runner(2).is_none());
    assert!(manager.get_runner(3).is_some());
    assert!(manager.get_runner(4).is_some());
    assert!(manager.get_runner(5).is_none());
    let one: Vec<Box<dyn Builtin>> = vec![Box::new(Adder)];
    assert!(BuiltinManager::new(one, usize::MAX).is_none());
    assert!(BuiltinManager::new(Vec::new(), usize::MAX).is_some());
}

#[test]
fn assert_eq_add_deduces_the_second_operand() {
    // [ap] = [ap + 1] + [ap + 2], with [ap] = 10 and [ap + 1] = 4.
    let fields = assert_eq_cells(0, 1, 2, ResultLogic::Add);
    let (vm, r) = run(fields, None, &[Some(scalar(10)), Some(scalar(4))]);
    assert_eq!(r, Ok(()));
    assert_eq!(vm.memory().get(at(1, 2)), Some(scalar(6)));
    assert_eq!(*vm.cpu(), Cpu { pc: at(0, 1), ..start() });
}

#[test]
fn assert_eq_add_deduces_the_first_operand() {
    let fields = assert_eq_cells(0, 1, 2, ResultLogic::Add);
    let (vm, r) = run(fields, None, &[Some(scalar(4)), None, Some(scalar(10))]);
    assert_eq!(r, Ok(()));
    // 4 - 10 = p - 6
    let expected = FieldElement::new(0x0800_0000_0000_0010_ffff_ffff_ffff_ffff, u128::MAX - 4).unwrap();
    assert_eq!(vm.memory().get(at(1, 1)), Some(Value::Scalar(expected)));
}

#[test]
fn assert_eq_add_computes_the_destination() {
    let fields = assert_eq_cells(0, 1, 2, ResultLogic::Add);
    let (vm, r) = run(fields, None, &[None, Some(scalar(4)), Some(scalar(10))]);
    assert_eq!(r, Ok(()));
    assert_eq!(vm.memory().get(at(1, 0)), Some(scalar(14)));
    let (vm, r) = run(fields, None, &[None, Some(pointer(3, 4)), Some(scalar(10))]);
    assert_eq!(r, Ok(()));
    assert_eq!(vm.memory().get(at(1, 0)), Some(pointer(3, 14)));
}

#[test]
fn assert_eq_mul_deduces_the_missing_operand() {
    let fields = assert_eq_cells(0, 1, 2, ResultLogic::Mul);
    let (vm, r) = run(fields, None, &[Some(scalar(35)), Some(scalar(5))]);
    assert_eq!(r, Ok(()));
    assert_eq!(vm.memory().get(at(1, 2)), Some(scalar(7)));
    let (vm, r) = run(fields, None, &[Some(scalar(35)), None, Some(scalar(7))]);
    assert_eq!(r, Ok(()));
    assert_eq!(vm.memory().get(at(1, 1)), Some(scalar(5)));
    let (vm, r) = run(fields, None, &[None, Some(scalar(5)), Some(scalar(7))]);
    assert_eq!(r, Ok(()));
    assert_eq!(vm.memory().get(at(1, 0)), Some(scalar(35)));
}

#[test]
fn assert_eq_mul_cannot_divide_by_zero_or_by_a_pointer() {
    let fields = assert_eq_cells(0, 1, 2, ResultLogic::Mul);
    let (vm, r) = run(fields, None, &[Some(scalar(35)), Some(scalar(0))]);
    assert_eq!(r, Err(Error::DivideByZero));
    assert_eq!(vm.memory().get(at(1, 2)), None);
    let (_, r) = run(fields, None, &[Some(scalar(35)), Some(pointer(0, 1))]);
    assert_eq!(r, Err(Error::InvalidPointerArithmetic));
    let (_, r) = run(fields, None, &[None, Some(pointer(0, 1)), Some(scalar(2))]);
    assert_eq!(r, Err(Error::InvalidPointerArithmetic));
}

#[test]
fn assert_eq_op1_copies_the_destination() {
    // [ap] = [ap + 2], with [ap] known: the second operand is deduced.
    let fields = assert_eq_cells(0, 1, 2, ResultLogic::Op1);
    let (vm, r) = run(fields, None, &[Some(pointer(2, 9))]);
    assert_eq!(r, Ok(()));
    assert_eq!(vm.memory().get(at(1, 2)), Some(pointer(2, 9)));
    assert_eq!(vm.memory().get(at(1, 1)), None);
}

#[test]
fn assert_eq_of_known_cells_checks_them() {
    let fields = assert_eq_cells(0, 1, 2, ResultLogic::Add);
    let (_, r) = run(fields, None, &[Some(scalar(14)), Some(scalar(4)), Some(scalar(10))]);
    assert_eq!(r, Ok(()));
    let (vm, r) = run(fields, None, &[Some(scalar(15)), Some(scalar(4)), Some(scalar(10))]);
    assert_eq!(r, Err(Error::Contradiction));
    assert_eq!(vm.memory().get(at(1, 0)), Some(scalar(15)));
    assert_eq!(*vm.cpu(), start());
}

#[test]
fn operands_that_cannot_be_deduced() {
    let add = assert_eq_cells(0, 1, 2, ResultLogic::Add);
    let (_, r) = run(add, None, &[]);
    assert_eq!(r, Err(Error::CantDeduceOp0));
    let (_, r) = run(add, None, &[None, Some(scalar(1))]);
    assert_eq!(r, Err(Error::CantDeduceOp1));
    let (_, r) = run(add, None, &[None, None, Some(scalar(1))]);
    assert_eq!(r, Err(Error::CantDeduceOp0));
    let copy = assert_eq_cells(0, 1, 2, ResultLogic::Op1);
    let (_, r) = run(copy, None, &[None, Some(scalar(1))]);
    assert_eq!(r, Err(Error::CantDeduceOp1));
    let (_, r) = run(ret(), None, &[]);
    assert_eq!(r, Err(Error::CantDeduceOp1));
}

#[test]
fn absolute_jump_needs_a_pointer_into_the_memory() {
    let jump = DecodedInstruction {
        op1_offset: 1,
        op1_source: Op1Source::PC,
        pc_update: PcUpdate::AbsoluteJump,
        ..plain()
    };
    let (vm, r) = run(jump, Some(pointer(1, 7)), &[]);
    assert_eq!(r, Ok(()));
    assert_eq!(vm.cpu().pc, at(1, 7));
    let (_, r) = run(jump, Some(scalar(7)), &[]);
    assert_eq!(r, Err(Error::InvalidAbsoluteJump));
    let (vm, r) = run(jump, Some(pointer(2, 0)), &[]);
    assert_eq!(r, Err(Error::InvalidAbsoluteJump));
    assert_eq!(*vm.cpu(), start());
}

#[test]
fn relative_jump_needs_a_scalar_that_fits() {
    let jump = DecodedInstruction {
        op1_offset: 1,
        op1_source: Op1Source::PC,
        pc_update: PcUpdate::RelativeJump,
        ..plain()
    };
    let (vm, r) = run(jump, Some(scalar(7)), &[]);
    assert_eq!(r, Ok(()));
    assert_eq!(vm.cpu().pc, at(0, 7));
    let (_, r) = run(jump, Some(pointer(0, 7)), &[]);
    assert_eq!(r, Err(Error::InvalidRelativeJump));
    let far = Value::Scalar(FieldElement::new(1, 0).unwrap());
    let (_, r) = run(jump, Some(far), &[]);
    assert_eq!(r, Err(Error::PointerTooLarge));
}

#[test]
fn ap_moves_by_the_result() {
    let add = DecodedInstruction {
        op1_offset: 1,
        op1_source: Op1Source::PC,
        ap_update: ApUpdate::AddResult,
        ..plain()
    };
    let (vm, r) = run(add, Some(scalar(9)), &[]);
    assert_eq!(r, Ok(()));
    assert_eq!(*vm.cpu(), Cpu { pc: at(0, 2), ap: at(1, 9), fp: at(1, 0) });
    let (_, r) = run(add, Some(pointer(1, 9)), &[]);
    assert_eq!(r, Err(Error::InvalidPointerArithmetic));
    let far = Value::Scalar(FieldElement::new(0x0800_0000_0000_0011_0000_0000_0000_0000, 0).unwrap());
    let (_, r) = run(add, Some(far), &[]);
    assert_eq!(r, Err(Error::PointerTooLarge));
}

#[test]
fn ret_needs_a_frame_in_the_segment_of_the_frames() {
    let cpu = Cpu { pc: at(0, 0), ap: at(1, 2), fp: at(1, 2) };
    let mut vm = machine(&[&[Some(word(ret()))], &[Some(scalar(0)), Some(pointer(0, 2))]], cpu);
    assert_eq!(step(&mut vm), Err(Error::InvalidReturn));
    let mut vm = machine(&[&[Some(word(ret()))], &[Some(pointer(0, 0)), Some(pointer(0, 2))]], cpu);
    assert_eq!(step(&mut vm), Err(Error::InvalidReturn));
    assert_eq!(*vm.cpu(), cpu);
    let mut vm = machine(&[&[Some(word(ret()))], &[None, Some(pointer(0, 2))]], cpu);
    assert_eq!(step(&mut vm), Err(Error::CantDeduceDst));
    let mut vm = machine(&[&[Some(word(ret()))], &[Some(pointer(1, 0)), Some(pointer(0, 2))]], cpu);
    assert_eq!(step(&mut vm), Ok(()));
    assert_eq!(*vm.cpu(), Cpu { pc: at(0, 2), ap: at(1, 2), fp: at(1, 0) });
}

#[test]
fn call_checks_what_the_stack_holds_already() {
    let (vm, r) = run(call_abs(), Some(pointer(0, 5)), &[Some(pointer(1, 0)), Some(pointer(0, 2))]);
    assert_eq!(r, Ok(()));
    assert_eq!(*vm.cpu(), Cpu { pc: at(0, 5), ap: at(1, 2), fp: at(1, 2) });
    let (vm, r) = run(call_abs(), Some(pointer(0, 5)), &[Some(pointer(1, 1))]);
    assert_eq!(r, Err(Error::Contradiction));
    assert_eq!(*vm.cpu(), start());
    assert_eq!(vm.memory().get(at(1, 1)), None);
    let (_, r) = run(call_abs(), Some(pointer(0, 5)), &[None, Some(pointer(0, 3))]);
    assert_eq!(r, Err(Error::Contradiction));
    let (_, r) = run(call_abs(), Some(pointer(0, 5)), &[None, Some(scalar(2))]);
    assert_eq!(r, Err(Error::Contradiction));
}

#[test]
fn call_pushes_two_cells_whatever_it_jumps_to() {
    let relative = DecodedInstruction { pc_update: PcUpdate::RelativeJump, ..call_abs() };
    let cpu = Cpu { pc: at(0, 0), ap: at(1, 3), fp: at(1, 1) };
    let mut vm = machine(&[&[Some(word(relative)), Some(scalar(4))], &[]], cpu);
    assert_eq!(step(&mut vm), Ok(()));
    assert_eq!(*vm.cpu(), Cpu { pc: at(0, 4), ap: at(1, 5), fp: at(1, 5) });
    assert_eq!(vm.memory().get(at(1, 3)), Some(pointer(1, 1)));
    assert_eq!(vm.memory().get(at(1, 4)), Some(pointer(0, 2)));
    assert_eq!(vm.memory().segment_unchecked(1).highest_known_cell(), 5);
    for offset in 0..3 {
        assert_eq!(vm.memory().get(at(1, offset)), None);
    }
}

#[test]
fn offsets_may_be_negative() {
    // [fp - 1] = [ap - 2] + [fp + 2]
    let fields = DecodedInstruction {
        dst_offset: -1,
        op0_offset: -2,
        op1_offset: 2,
        dst_register: DstRegister::FP,
        op0_register: Op0Register::AP,
        op1_source: Op1Source::FP,
        result_logic: ResultLogic::Add,
        op_code: OpCode::AssertEq,
        ..plain()
    };
    let cpu = Cpu { pc: at(0, 0), ap: at(1, 5), fp: at(1, 2) };
    let stack = [None, None, None, Some(scalar(30)), Some(scalar(12))];
    let mut vm = machine(&[&[Some(word(fields))], &stack], cpu);
    assert_eq!(step(&mut vm), Ok(()));
    assert_eq!(vm.memory().get(at(1, 1)), Some(scalar(42)));
}

#[test]
fn second_operand_relative_to_the_first() {
    // The second operand is taken one cell after the address of the first.
    let fields = DecodedInstruction {
        dst_offset: 0,
        op0_offset: 1,
        op1_offset: 1,
        op1_source: Op1Source::Op0,
        result_logic: ResultLogic::Add,
        op_code: OpCode::AssertEq,
        ..plain()
    };
    let (vm, r) = run(fields, None, &[None, Some(scalar(1)), Some(scalar(2))]);
    assert_eq!(r, Ok(()));
    assert_eq!(vm.memory().get(at(1, 0)), Some(scalar(3)));
    assert_eq!(vm.cpu().pc, at(0, 1));
}

#[test]
fn builtin_deduces_an_unknown_operand() {
    let fields = assert_eq_cells(3, 1, 2, ResultLogic::Op1);
    let builtins: Vec<Box<dyn Builtin>> = vec![Box::new(Adder)];
    let stack = [Some(scalar(20)), Some(scalar(22))];
    let program = [Some(word(fields))];
    let mut vm = CairoVM::new(memory(&[&program, &stack]), start(), builtins, 1).unwrap();
    assert_eq!(step(&mut vm), Ok(()));
    // The second operand, at [ap + 2], was deduced by the builtin and is asserted with the
    // destination.
    assert_eq!(vm.memory().get(at(1, 2)), Some(scalar(42)));
    assert_eq!(vm.memory().get(at(1, 3)), Some(scalar(42)));
}

#[test]
fn builtin_that_lacks_its_inputs_is_no_error() {
    let fields = assert_eq_cells(3, 1, 2, ResultLogic::Op1);
    let builtins: Vec<Box<dyn Builtin>> = vec![Box::new(Adder)];
    let program = [Some(word(fields))];
    let mut vm = CairoVM::new(memory(&[&program, &[Some(scalar(20))]]), start(), builtins, 1).unwrap();
    assert_eq!(step(&mut vm), Err(Error::CantDeduceOp1));
}

#[test]
fn builtin_that_fails_fails_the_step() {
    let fields = assert_eq_cells(3, 1, 2, ResultLogic::Op1);
    let builtins: Vec<Box<dyn Builtin>> = vec![Box::new(Fixed { offset: 2, answer: Err(CannotDeduce) })];
    let program = [Some(word(fields))];
    let mut vm = CairoVM::new(memory(&[&program, &[]]), start(), builtins, 1).unwrap();
    assert_eq!(step(&mut vm), Err(Error::Builtin));
    assert_eq!(*vm.cpu(), start());
    assert_eq!(Error::from(CannotDeduce), Error::Builtin);
}

#[test]
fn builtin_is_not_asked_about_known_cells_or_other_segments() {
    let fields = assert_eq_cells(0, 1, 2, ResultLogic::Add);
    let stack = [Some(scalar(3)), Some(scalar(1)), Some(scalar(2))];
    let program = [Some(word(fields))];
    // Bound to the segment of the program, which no operand lies in.
    let builtins: Vec<Box<dyn Builtin>> = vec![Box::new(Fixed { offset: 0, answer: Err(CannotDeduce) })];
    let mut vm = CairoVM::new(memory(&[&program, &[]]), start(), builtins, 0).unwrap();
    assert_eq!(step(&mut vm), Err(Error::CantDeduceOp0));
    // Bound to the segment of the stack, of which every operand is known.
    let builtins: Vec<Box<dyn Builtin>> = vec![
        Box::new(Fixed { offset: 0, answer: Err(CannotDeduce) }),
    ];
    let mut vm = CairoVM::new(memory(&[&program, &stack]), start(), builtins, 1).unwrap();
    assert_eq!(step(&mut vm), Ok(()));
}

#[test]
fn step_with_takes_the_answers_it_is_given() {
    let fields = assert_eq_cells(0, 1, 2, ResultLogic::Add);
    let program = [Some(word(fields))];
    let silent = Answers { dst: Ok(None), op0: Ok(None), op1: Ok(None) };
    let mut vm = machine(&[&program, &[]], start());
    assert_eq!(vm.step_with(&silent), Err(Error::CantDeduceOp0));
    let answers = Answers { op0: Ok(Some(scalar(1))), op1: Ok(Some(scalar(2))), ..silent };
    assert_eq!(vm.step_with(&answers), Ok(()));
    assert_eq!(vm.memory().get(at(1, 0)), Some(scalar(3)));
    assert_eq!(vm.memory().get(at(1, 1)), Some(scalar(1)));
    assert_eq!(vm.memory().get(at(1, 2)), Some(scalar(2)));
    let mut vm = machine(&[&program, &[]], start());
    let failed = Answers { dst: Err(CannotDeduce), ..answers };
    assert_eq!(vm.step_with(&failed), Err(Error::Builtin));
    // Nothing is taken from the builtins about a cell that the memory knows.
    let mut vm = machine(&[&program, &[Some(scalar(3))]], start());
    assert_eq!(vm.step_with(&failed), Ok(()));
}

#[test]
fn writes_that_contradict_each_other_leave_the_memory() {
    // The destination and the first operand are one cell, for which the builtins are taken
    // to give another value than the instruction computes.
    let fields = assert_eq_imm(0, 0, ResultLogic::Op1);
    let mut vm = machine(&[&[Some(word(fields)), Some(scalar(5))], &[]], start());
    let answers = Answers { dst: Ok(None), op0: Ok(Some(scalar(9))), op1: Ok(None) };
    assert_eq!(vm.step_with(&answers), Err(Error::Contradiction));
    assert_eq!(vm.memory().get(at(1, 0)), None);
    assert_eq!(vm.memory().segment_unchecked(1).highest_known_cell(), 0);
    assert_eq!(*vm.cpu(), start());
    let answers = Answers { dst: Ok(None), op0: Ok(Some(scalar(5))), op1: Ok(None) };
    assert_eq!(vm.step_with(&answers), Ok(()));
    assert_eq!(vm.memory().get(at(1, 0)), Some(scalar(5)));
}

#[test]
fn step_runs_out_of_memory_at_the_end_of_a_segment() {
    let fields = DecodedInstruction { ..assert_eq_imm(0, 0, ResultLogic::Op1) };
    let cpu = Cpu { pc: at(0, 0), ap: at(1, usize::MAX), fp: at(1, 0) };
    let mut vm = machine(&[&[Some(word(fields)), Some(scalar(7))], &[]], cpu);
    assert_eq!(step(&mut vm), Err(Error::OutOfMemory));
    assert_eq!(*vm.cpu(), cpu);
    assert_eq!(vm.memory().segment_unchecked(1).highest_known_cell(), 0);
    // A call at the end of the segment has room for its first write only, and makes none.
    let cpu = Cpu { pc: at(0, 0), ap: at(1, usize::MAX - 1), fp: at(1, usize::MAX - 1) };
    let mut vm = machine(&[&[Some(word(call_abs())), Some(pointer(0, 5))], &[]], cpu);
    assert_eq!(step(&mut vm), Err(Error::OutOfMemory));
    assert_eq!(*vm.cpu(), cpu);
    assert_eq!(vm.memory().segment_unchecked(1).highest_known_cell(), 0);
}

#[test]
fn a_program_of_three_instructions() {
    // [ap] = 20; ap++
    // [ap] = [ap - 1] * 2; ap++
    // [ap] = [ap - 1] + [ap - 2]; ap++
    let first = DecodedInstruction { ap_update: ApUpdate::Increment, ..assert_eq_imm(0, -1, ResultLogic::Op1) };
    let second = DecodedInstruction { ap_update: ApUpdate::Increment, ..assert_eq_imm(0, -1, ResultLogic::Mul) };
    let third = DecodedInstruction {
        ap_update: ApUpdate::Increment,
        ..assert_eq_cells(0, -1, -2, ResultLogic::Add)
    };
    let program = [
        Some(word(first)),
        Some(scalar(20)),
        Some(word(second)),
        Some(scalar(2)),
        Some(word(third)),
    ];
    let mut vm = machine(&[&program, &[]], start());
    assert_eq!(step(&mut vm), Ok(()));
    assert_eq!(step(&mut vm), Ok(()));
    assert_eq!(step(&mut vm), Ok(()));
    assert_eq!(vm.memory().get(at(1, 0)), Some(scalar(20)));
    assert_eq!(vm.memory().get(at(1, 1)), Some(scalar(40)));
    assert_eq!(vm.memory().get(at(1, 2)), Some(scalar(60)));
    assert_eq!(*vm.cpu(), Cpu { pc: at(0, 5), ap: at(1, 3), fp: at(1, 0) });
    assert_eq!(step(&mut vm), Err(Error::ProgramCounterLost));
}
