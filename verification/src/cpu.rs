//! Defines the [`Cpu`] type, responsible for describing the state of the CPU.
//!
//! More information in the documentation for [`Cpu`].

use crate::memory::Pointer;
use vstd::prelude::*;

verus! {

/// The Central Processing Unit (CPU) responsible for executing Cairo bytecode instructions.
///
/// By itself, a [`Cpu`] is not enough to execute a Cairo program. In order to do anything
/// useful, it has to be connected to a memory.
#[derive(Debug, Clone, Copy, PartialEq, Eq, Structural)]
pub struct Cpu {
    /// The Program Counter of the CPU, pointing to the next instruction to be fetched from
    /// working memory.
    ///
    /// It is possible to change the segment in which **PC** points to using an absolute jump,
    /// preventing us from assuming that **PC** is always part of the same segment.
    ///
    /// Within a virtual machine, the segment in which **PC** points to is always one of the
    /// associated memory.
    pub pc: Pointer,
    /// The Allocation Pointer, incremented by most instructions that need to write to working
    /// memory.
    ///
    /// It is not possible to modify the segment in which **AP** points to. Within a virtual
    /// machine, it is always one of the associated memory.
    pub ap: Pointer,
    /// The Frame Pointer, pointing to the base of the current frame.
    ///
    /// Just like the Allocation Pointer, the Frame Pointer cannot change segments: a call
    /// opens a frame where the Allocation Pointer is, and a return goes back to a frame of
    /// the same segment. Within a virtual machine the two registers share their segment.
    pub fp: Pointer,
}

impl Cpu {
    /// Whether each register points into one of the first `segments` segments.
    pub open spec fn within(&self, segments: nat) -> bool {
        &&& self.pc.segment < segments
        &&& self.ap.segment < segments
        &&& self.fp.segment < segments
    }

    /// Whether the frames lie in the segment that the allocation pointer fills: the
    /// **Frame Pointer** and the **Allocation Pointer** point into one segment.
    pub open spec fn framed(&self) -> bool {
        self.ap.segment == self.fp.segment
    }
}

} // verus!
