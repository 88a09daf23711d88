//! Defines the [`Builtin`] trait responsible for executing built-in pre-defined functions.

use crate::error::Error;
use crate::memory::Segment;
use crate::memory::Value;
use vstd::prelude::*;
use vstd::std_specs::convert::FromSpecImpl;

verus! {

/// An error that occurs when a [`Builtin`] finds the inputs in its segment invalid.
#[derive(Debug, Clone, Copy, PartialEq, Eq, Structural)]
pub struct CannotDeduce;

impl From<CannotDeduce> for Error {
    fn from(_value: CannotDeduce) -> (r: Self) {
        Error::Builtin
    }
}

impl FromSpecImpl<CannotDeduce> for Error {
    open spec fn obeys_from_spec() -> bool {
        true
    }

    open spec fn from_spec(_value: CannotDeduce) -> Self {
        Error::Builtin
    }
}

/// A builtin that may be executed by the virtual machine.
///
/// A builtin is bound to one segment, of which it reads the cells that have been asserted,
/// and from which it may deduce the value that another cell must hold.
pub trait Builtin {
    /// Attempts to deduce the value of a specific memory cell from the given segment.
    ///
    /// # Returns
    ///
    /// If the value could be deduced, `Ok(Some(_))` is returned with the value.
    ///
    /// If the segment does not hold what the builtin needs to deduce the value,
    /// `Ok(None)` is returned. This is not an error.
    ///
    /// If the segment holds inputs that the builtin cannot accept, [`CannotDeduce`] is
    /// returned.
    fn deduce(&self, offset: usize, segment: &Segment) -> (r: Result<Option<Value>, CannotDeduce>)
        requires
            segment.wf(),
    ;
}

/// The builtin manager is responsible for holding a collection of [`Builtin`]
/// implementations and running them when necessary.
///
/// # Segments
///
/// Each builtin is assigned a segment, which holds the mapped I/O data that it uses as
/// an input of its execution. The builtin manager keeps track of which segment is assigned to
/// which builtin.
pub struct BuiltinManager {
    /// The first segment allocated for the builtins managed by this [`BuiltinManager`].
    min_segment: usize,
    /// The first segment not allocated for the builtins managed by this [`BuiltinManager`].
    max_segment: usize,
    /// The builtins managed by this [`BuiltinManager`].
    builtins: Vec<Box<dyn Builtin>>,
}

impl BuiltinManager {
    /// The invariant of a manager: its builtins are as many as the segments of its range.
    pub open spec fn wf(&self) -> bool {
        &&& self.spec_min_segment() <= self.spec_max_segment()
        &&& self.spec_max_segment() - self.spec_min_segment() == self.spec_builtins().len()
    }

    /// The first segment to which a builtin is bound.
    pub closed spec fn spec_min_segment(&self) -> usize {
        self.min_segment
    }

    /// The first segment after those to which a builtin is bound.
    pub closed spec fn spec_max_segment(&self) -> usize {
        self.max_segment
    }

    /// The builtins of the manager, in the order of their segments.
    pub closed spec fn spec_builtins(&self) -> Seq<Box<dyn Builtin>> {
        self.builtins@
    }

    /// Whether a builtin is bound to `segment`.
    pub open spec fn manages(&self, segment: usize) -> bool {
        self.spec_min_segment() <= segment < self.spec_max_segment()
    }

    /// Binds the given builtins, in their order, to the segments from `min_segment` up.
    /// Returns nothing if the indices of those segments pass the largest index there is.
    pub fn new(builtins: Vec<Box<dyn Builtin>>, min_segment: usize) -> (r: Option<Self>)
        ensures
            r is Some <==> min_segment + builtins@.len() <= usize::MAX,
            r matches Some(manager) ==> manager.wf() && manager.spec_min_segment() == min_segment
                && manager.spec_max_segment() == min_segment + builtins@.len()
                && manager.spec_builtins() == builtins@,
    {
        match min_segment.checked_add(builtins.len()) {
            Some(max_segment) => Some(Self { min_segment, max_segment, builtins }),
            None => None,
        }
    }

    /// Returns the first segment to which a builtin is bound.
    #[verifier::when_used_as_spec(spec_min_segment)]
    pub fn min_segment(&self) -> (r: usize)
        ensures
            r == self.spec_min_segment(),
    {
        self.min_segment
    }

    /// Returns the first segment after those to which a builtin is bound.
    #[verifier::when_used_as_spec(spec_max_segment)]
    pub fn max_segment(&self) -> (r: usize)
        ensures
            r == self.spec_max_segment(),
    {
        self.max_segment
    }

    /// Attempts to get the [`Builtin`] suitable for deducing a memory cell in the provided
    /// segment.
    pub fn get_runner(&self, segment: usize) -> (r: Option<&Box<dyn Builtin>>)
        requires
            self.wf(),
        ensures
            match r {
                Some(runner) => self.manages(segment) && *runner == self.spec_builtins()[segment
                    - self.spec_min_segment()],
                None => !self.manages(segment),
            },
    {
        if segment < self.min_segment || segment >= self.max_segment {
            None
        } else {
            let index = segment - self.min_segment;
            Some(&self.builtins[index])
        }
    }
}

} // verus!
