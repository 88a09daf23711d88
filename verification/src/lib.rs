//! The core of a Cairo virtual machine: write-once segmented memory, instruction
//! decoding and the step interpreter, over the Starknet prime field.

pub mod builtin;
pub mod context;
pub mod cpu;
pub mod error;
pub mod field;
pub mod instr;
pub mod memory;
pub mod step;
pub mod trace;

use crate::builtin::Builtin;
use crate::builtin::BuiltinManager;
use crate::cpu::Cpu;
use crate::error::Error;
use crate::memory::committed;
use crate::memory::extends;
use crate::memory::lemma_committed;
use crate::memory::Memory;
use crate::memory::Value;
use crate::step::apply_answers;
use crate::step::consult_builtins;
use crate::step::decode_instruction;
use crate::step::decoded;
use crate::step::execute;
use crate::step::heard;
use crate::step::lemma_executed_has_memory;
use crate::step::lemma_executed_within;
use crate::step::resolve;
use crate::step::resolved;
use crate::step::stepped;
use crate::step::Answers;
use crate::context::StepContext;
use crate::trace::Trace;
use vstd::prelude::*;

verus! {

/// Contains the full state of a Cairo virtual machine.
///
/// This includes memory, registers and builtins. It can be used to execute a Cairo program
/// one instruction at a time.
///
/// # Field
///
/// The Cairo language allows any prime field to be used as the underlying field of the
/// virtual machine. In practice the only field that this crate is meant to be used with is
/// the Starknet field, and it is not possible to change it.
///
/// # Components
///
/// - [`Cpu`]: the central processing unit of the virtual machine, responsible for holding
///   the registers.
///
/// - [`Memory`]: the memory associated with the virtual machine. Instructions and working
///   memory are stored here.
pub struct CairoVM {
    /// The central processing unit of the virtual machine, responsible for holding registers
    /// and interacting with the memory.
    cpu: Cpu,
    /// The memory associated with the virtual machine.
    ///
    /// Instructions and working memory are stored here.
    memory: Memory,
    /// The built-in functions that the virtual machine can execute.
    builtins: BuiltinManager,
}

/// What a step does to the registers and to the memory of a machine whose builtins give
/// `answers`: the next registers and the memory in which the writes of the instruction have
/// been committed, or the error of the instruction or of its writes.
pub open spec fn step_outcome(cpu: Cpu, memory: Seq<Seq<Option<Value>>>, answers: Answers) -> Result<
    (Cpu, Seq<Seq<Option<Value>>>),
    Error,
> {
    match stepped(cpu, memory, answers) {
        Err(e) => Err(e),
        Ok(transition) => match committed(memory, transition.writes) {
            Err(e) => Err(e),
            Ok(next) => Ok((transition.cpu, next)),
        },
    }
}

/// Whether a step that answers `r` may take a machine with the given registers and memory
/// to the given registers and memory, when its builtins give `answers`.
///
/// Where the step is defined, the machine is taken to the registers and to the memory that
/// it defines, unless the machine runs out of memory while making room for the writes.
/// Where the step fails, with the error that it defines or for want of memory, the registers
/// and the memory are as they were.
pub open spec fn step_relation(
    cpu: Cpu,
    memory: Seq<Seq<Option<Value>>>,
    answers: Answers,
    r: Result<(), Error>,
    next_cpu: Cpu,
    next_memory: Seq<Seq<Option<Value>>>,
) -> bool {
    match r {
        Ok(()) => step_outcome(cpu, memory, answers) == Ok::<_, Error>((next_cpu, next_memory)),
        Err(e) => next_cpu == cpu && next_memory == memory && (step_outcome(cpu, memory, answers)
            == Err::<(Cpu, Seq<Seq<Option<Value>>>), Error>(e) || (e == Error::OutOfMemory
            && step_outcome(cpu, memory, answers) is Ok)),
    }
}

impl CairoVM {
    /// The registers of the machine.
    pub closed spec fn spec_cpu(&self) -> Cpu {
        self.cpu
    }

    /// The memory of the machine.
    pub closed spec fn spec_memory(&self) -> Memory {
        self.memory
    }

    /// The builtins of the machine.
    pub closed spec fn spec_builtins(&self) -> BuiltinManager {
        self.builtins
    }

    /// The invariant of a machine: its memory and its builtins meet theirs, each register
    /// points into a segment of the memory, the allocation pointer and the frame pointer
    /// into the same one, and each builtin is bound to a segment of the memory.
    pub open spec fn wf(&self) -> bool {
        &&& self.spec_memory().wf()
        &&& self.spec_builtins().wf()
        &&& self.spec_cpu().within(self.spec_memory()@.len())
        &&& self.spec_cpu().framed()
        &&& self.spec_builtins().spec_max_segment() <= self.spec_memory()@.len()
    }

    /// Whether `answers` may be what the builtins of the machine say during its next step.
    pub open spec fn may_hear(&self, answers: Answers) -> bool {
        decoded(self.spec_cpu(), self.spec_memory()@) matches Ok(instruction) ==> heard(
            resolved(self.spec_cpu(), self.spec_memory()@, instruction),
            self.spec_builtins(),
            answers,
        )
    }

    /// Whether the memory has room for each cell that the next step asserts when the
    /// builtins give `answers`, so that the step cannot run out of memory.
    pub open spec fn has_room_for(&self, answers: Answers) -> bool {
        stepped(self.spec_cpu(), self.spec_memory()@, answers) matches Ok(transition)
            ==> forall|i: int|
            0 <= i < transition.writes.len() ==> self.spec_memory().has_room(
                (#[trigger] transition.writes[i]).0,
            )
    }

    /// Creates a virtual machine from a memory whose segments have been loaded, the
    /// initial value of the registers, and the builtins, which are bound in their order to
    /// the segments from `min_segment` up.
    ///
    /// Returns nothing if a register, or a segment of the builtins, is not a segment of the
    /// memory, or if the allocation pointer and the frame pointer do not point into the same
    /// segment.
    pub fn new(
        memory: Memory,
        cpu: Cpu,
        builtins: Vec<Box<dyn Builtin>>,
        min_segment: usize,
    ) -> (r: Option<Self>)
        requires
            memory.wf(),
        ensures
            r is Some <==> cpu.within(memory@.len()) && cpu.framed() && min_segment
                + builtins@.len() <= memory@.len(),
            r matches Some(vm) ==> {
                &&& vm.wf()
                &&& vm.spec_cpu() == cpu
                &&& vm.spec_memory() == memory
                &&& vm.spec_builtins().spec_min_segment() == min_segment
                &&& vm.spec_builtins().spec_builtins() == builtins@
            },
    {
        let segments = memory.segment_count();
        let builtins = match BuiltinManager::new(builtins, min_segment) {
            Some(builtins) => builtins,
            None => {
                return None;
            },
        };
        if cpu.pc.segment < segments && cpu.ap.segment < segments && cpu.fp.segment
            == cpu.ap.segment && builtins.max_segment() <= segments {
            Some(Self { cpu, memory, builtins })
        } else {
            None
        }
    }

    /// Returns the current state of the [`Cpu`].
    pub fn cpu(&self) -> (r: &Cpu)
        ensures
            *r == self.spec_cpu(),
    {
        &self.cpu
    }

    /// Returns the current state of the [`Memory`].
    pub fn memory(&self) -> (r: &Memory)
        ensures
            *r == self.spec_memory(),
    {
        &self.memory
    }

    /// Executes the instruction whose operands are in `ctx`, once the builtins have given
    /// `answers`: commits its writes and moves the registers.
    fn advance(&mut self, ctx: StepContext, answers: &Answers) -> (r: Result<(), Error>)
        requires
            old(self).wf(),
            decoded(old(self).cpu, old(self).memory@) == Ok::<_, Error>(ctx.instruction),
            ctx@ == resolved(old(self).cpu, old(self).memory@, ctx.instruction),
        ensures
            final(self).wf(),
            final(self).builtins == old(self).builtins,
            final(self).cpu.ap.segment == old(self).cpu.ap.segment,
            final(self).cpu.fp.segment == old(self).cpu.fp.segment,
            extends(final(self).memory@, old(self).memory@),
            step_relation(
                old(self).cpu,
                old(self).memory@,
                *answers,
                r,
                final(self).cpu,
                final(self).memory@,
            ),
            old(self).has_room_for(*answers) ==> r != Err::<(), Error>(Error::OutOfMemory),
    {
        let mut ctx = ctx;
        match apply_answers(&mut ctx, answers) {
            Ok(()) => {},
            Err(e) => {
                return Err(e);
            },
        }
        let segments = self.memory.segment_count();
        proof {
            lemma_executed_within(ctx@, self.cpu, ctx.instruction, segments as nat);
            lemma_executed_has_memory(ctx@, self.cpu, ctx.instruction, segments as nat);
        }
        let writes = match execute(&mut ctx, &self.cpu, segments) {
            Ok(writes) => writes,
            Err(e) => {
                return Err(e);
            },
        };
        match self.memory.commit(&writes) {
            Ok(()) => {},
            Err(e) => {
                proof {
                    lemma_committed(old(self).memory@, writes@);
                }
                return Err(e);
            },
        }
        self.cpu = Cpu { pc: ctx.next_pc, ap: ctx.next_ap, fp: ctx.next_fp };
        Ok(())
    }

    /// Advances the virtual machine by a single step, for which the builtins are not asked:
    /// `answers` is taken as what they say of the operands that the memory does not know.
    pub fn step_with(&mut self, answers: &Answers) -> (r: Result<(), Error>)
        requires
            old(self).wf(),
        ensures
            final(self).wf(),
            final(self).spec_builtins() == old(self).spec_builtins(),
            final(self).spec_cpu().ap.segment == old(self).spec_cpu().ap.segment,
            final(self).spec_cpu().fp.segment == old(self).spec_cpu().fp.segment,
            extends(final(self).spec_memory()@, old(self).spec_memory()@),
            step_relation(
                old(self).spec_cpu(),
                old(self).spec_memory()@,
                *answers,
                r,
                final(self).spec_cpu(),
                final(self).spec_memory()@,
            ),
            old(self).has_room_for(*answers) ==> r != Err::<(), Error>(Error::OutOfMemory),
    {
        let instruction = match decode_instruction(&self.cpu, &self.memory) {
            Ok(instruction) => instruction,
            Err(e) => {
                return Err(e);
            },
        };
        let ctx = resolve(instruction, &self.cpu, &self.memory);
        self.advance(ctx, answers)
    }

    /// Advances the virtual machine by a single step, tracing events using the provided
    /// [`Trace`] implementation.
    ///
    /// What the builtins answer is theirs to decide. The step is the one that
    /// [`step_relation`] describes for their answers, which are those of
    /// [`Answers::silent`] where no operand is unknown in a segment that has a builtin.
    pub fn step<T>(&mut self, _trace: &mut T) -> (r: Result<(), Error>) where T: ?Sized + Trace
        requires
            old(self).wf(),
        ensures
            final(self).wf(),
            final(self).spec_builtins() == old(self).spec_builtins(),
            final(self).spec_cpu().ap.segment == old(self).spec_cpu().ap.segment,
            final(self).spec_cpu().fp.segment == old(self).spec_cpu().fp.segment,
            extends(final(self).spec_memory()@, old(self).spec_memory()@),
            exists|answers: Answers|
                {
                    &&& old(self).may_hear(answers)
                    &&& #[trigger] step_relation(
                        old(self).spec_cpu(),
                        old(self).spec_memory()@,
                        answers,
                        r,
                        final(self).spec_cpu(),
                        final(self).spec_memory()@,
                    )
                    &&& old(self).has_room_for(answers) ==> r != Err::<(), Error>(
                        Error::OutOfMemory,
                    )
                },
    {
        let instruction = match decode_instruction(&self.cpu, &self.memory) {
            Ok(instruction) => instruction,
            Err(e) => {
                proof {
                    assert(step_relation(
                        self.cpu,
                        self.memory@,
                        Answers::silent(),
                        Err(e),
                        self.cpu,
                        self.memory@,
                    ));
                }
                return Err(e);
            },
        };
        let ctx = resolve(instruction, &self.cpu, &self.memory);
        let answers = consult_builtins(&ctx, &self.builtins, &self.memory);
        self.advance(ctx, &answers)
    }
}

} // verus!
