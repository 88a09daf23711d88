//! Defines the [`Pointer`] type.

use crate::error::Error;
use vstd::prelude::*;
use vstd::wrapping::usize_specs;

verus! {

/// A pointer within a memory segment.
#[derive(Debug, Clone, Copy, PartialEq, Eq, Hash, Structural)]
pub struct Pointer {
    /// The index of the segment in the memory.
    ///
    /// This can be thought of as the provenance of the pointer.
    pub segment: usize,
    /// The offset within the segment.
    pub offset: usize,
}

/// The integer in `isize`'s range that is congruent to `a - b` modulo the number of `usize`
/// values.
pub open spec fn signed_distance(a: usize, b: usize) -> int {
    let d = a - b;
    if d > isize::MAX {
        d - (usize::MAX + 1)
    } else if d < isize::MIN {
        d + (usize::MAX + 1)
    } else {
        d
    }
}

impl Pointer {
    /// What [`Pointer::subtract`] returns.
    pub open spec fn spec_subtract(self, other: Pointer) -> Result<isize, Error> {
        if self.segment != other.segment {
            Err(Error::IncoherentProvenance)
        } else {
            Ok(signed_distance(self.offset, other.offset) as isize)
        }
    }

    /// What [`Pointer::wrapping_add`] returns.
    pub open spec fn spec_wrapping_add(self, offset: usize) -> Pointer {
        Pointer { segment: self.segment, offset: usize_specs::wrapping_add(self.offset, offset) }
    }

    /// What [`Pointer::wrapping_sub`] returns.
    pub open spec fn spec_wrapping_sub(self, offset: usize) -> Pointer {
        Pointer { segment: self.segment, offset: usize_specs::wrapping_sub(self.offset, offset) }
    }

    /// Returns the signed distance between `self` and `other`, given that they refer to the
    /// same segment.
    pub fn subtract(&self, other: &Self) -> (r: Result<isize, Error>)
        ensures
            r == self.spec_subtract(*other),
            r matches Ok(d) ==> d == signed_distance(self.offset, other.offset),
    {
        if self.segment != other.segment {
            Err(Error::IncoherentProvenance)
        } else {
            let d: usize = self.offset.wrapping_sub(other.offset);
            if d <= isize::MAX as usize {
                Ok(d as isize)
            } else {
                let below: usize = usize::MAX - d;
                Ok(-(below as isize) - 1)
            }
        }
    }

    /// Adds `offset` to `self.offset` using wrapping arithmetic.
    #[verifier::when_used_as_spec(spec_wrapping_add)]
    pub fn wrapping_add(self, offset: usize) -> (r: Self)
        ensures
            r == self.spec_wrapping_add(offset),
    {
        Self { segment: self.segment, offset: self.offset.wrapping_add(offset) }
    }

    /// Subtracts `offset` from `self.offset` using wrapping arithmetic.
    #[verifier::when_used_as_spec(spec_wrapping_sub)]
    pub fn wrapping_sub(self, offset: usize) -> (r: Self)
        ensures
            r == self.spec_wrapping_sub(offset),
    {
        Self { segment: self.segment, offset: self.offset.wrapping_sub(offset) }
    }
}

} // verus!
