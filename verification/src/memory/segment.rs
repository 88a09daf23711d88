//! Defines the [`Segment`] type.

use super::value::Value;
use super::value::ValueRef;
use crate::error::Error;
use crate::field::FieldElement;
use vstd::prelude::*;

verus! {

/// The cell at `index`, if it has been asserted to a value.
pub open spec fn known(cells: Seq<Option<Value>>, index: int) -> Option<Value> {
    if 0 <= index < cells.len() {
        cells[index]
    } else {
        None
    }
}

/// The cells once `value` stands at `index`: the watermark rises to cover `index`, the cells
/// below it that were never written stay unknown, and every other cell is as it was.
pub open spec fn asserted(cells: Seq<Option<Value>>, index: int, value: Value) -> Seq<
    Option<Value>,
> {
    Seq::new(
        if index < cells.len() {
            cells.len()
        } else {
            (index + 1) as nat
        },
        |i: int|
            if i == index {
                Some(value)
            } else {
                known(cells, i)
            },
    )
}

/// What asserting `value` at `index` does to the cells: an unknown cell takes the value,
/// a cell that holds the value already stays, and a cell that holds another one contradicts.
pub open spec fn assert_outcome(cells: Seq<Option<Value>>, index: int, value: Value) -> Result<
    Seq<Option<Value>>,
    Error,
> {
    match known(cells, index) {
        None => Ok(asserted(cells, index, value)),
        Some(held) => if held == value {
            Ok(cells)
        } else {
            Err(Error::Contradiction)
        },
    }
}

/// The cells after each of `writes` has been asserted in turn. A write that contradicts the
/// cells changes nothing.
pub open spec fn replayed(cells: Seq<Option<Value>>, writes: Seq<(usize, Value)>) -> Seq<
    Option<Value>,
>
    decreases writes.len(),
{
    if writes.len() == 0 {
        cells
    } else {
        let next = match assert_outcome(cells, writes[0].0 as int, writes[0].1) {
            Ok(next) => next,
            Err(_) => cells,
        };
        replayed(next, writes.skip(1))
    }
}

/// One more than the highest index of `writes`, or zero if there is none.
pub open spec fn watermark(writes: Seq<(usize, Value)>) -> int
    decreases writes.len(),
{
    if writes.len() == 0 {
        0
    } else {
        let rest = watermark(writes.skip(1));
        if writes[0].0 + 1 > rest {
            writes[0].0 + 1
        } else {
            rest
        }
    }
}

/// Asserting a value twice is asserting it once: where the first assertion succeeds, the
/// second succeeds too and leaves the cells as the first left them.
pub proof fn lemma_assert_idempotent(cells: Seq<Option<Value>>, index: usize, value: Value)
    ensures
        assert_outcome(cells, index as int, value) matches Ok(once) ==> assert_outcome(
            once,
            index as int,
            value,
        ) == Ok::<Seq<Option<Value>>, Error>(once),
{
}

/// A cell is written once: where a value has been asserted, asserting another value is
/// a contradiction, and the cell holds the first value.
pub proof fn lemma_assert_contradiction(
    cells: Seq<Option<Value>>,
    index: usize,
    first: Value,
    second: Value,
)
    requires
        first != second,
    ensures
        assert_outcome(cells, index as int, first) matches Ok(once) ==> assert_outcome(
            once,
            index as int,
            second,
        ) == Err::<Seq<Option<Value>>, Error>(Error::Contradiction) && known(once, index as int)
            == Some(first),
{
}

/// The watermark of a segment is one more than the highest index ever written, or where it
/// stood before if that is higher: after any sequence of assertions, the number of cells
/// below the watermark is the larger of what it was and of one more than the highest index
/// asserted.
pub proof fn lemma_watermark(cells: Seq<Option<Value>>, writes: Seq<(usize, Value)>)
    ensures
        replayed(cells, writes).len() == if watermark(writes) > cells.len() {
            watermark(writes)
        } else {
            cells.len() as int
        },
    decreases writes.len(),
{
    if writes.len() > 0 {
        let next = match assert_outcome(cells, writes[0].0 as int, writes[0].1) {
            Ok(next) => next,
            Err(_) => cells,
        };
        lemma_watermark(next, writes.skip(1));
    }
}

/// The capacity that a segment of `capacity` cells grows to by the amortised policy alone:
/// one and a half times four cells more, saturating.
pub open spec fn amortized(capacity: usize) -> usize {
    let more = if capacity + 4 > usize::MAX {
        usize::MAX as int
    } else {
        capacity + 4
    };
    let tripled = if more * 3 > usize::MAX {
        usize::MAX as int
    } else {
        more * 3
    };
    (tripled / 2) as usize
}

/// The capacity of a segment of `capacity` cells once there is room for the cell at `index`:
/// what it was if that was enough, and else the larger of `index + 1` and of the amortised
/// capacity.
pub open spec fn grown(capacity: usize, index: usize) -> int {
    if index < capacity {
        capacity as int
    } else if amortized(capacity) > index + 1 {
        amortized(capacity) as int
    } else {
        index + 1
    }
}

/// Some metadata kept along memory cells.
///
/// The tags are kept apart from the payloads: a field element has a large alignment and
/// the tag is a single byte, so keeping them together would waste most of a word per cell.
#[derive(Debug, Clone, Copy, PartialEq, Eq, Structural)]
pub enum Metadata {
    /// The value of the memory cell is not yet known to the virtual machine.
    Unknown,
    /// The value of the memory cell is known to be a pointer with an associated provenance.
    Pointer,
    /// The value of the memory cell is known to be a scalar.
    Scalar,
}

impl Metadata {
    /// Whether a cell with this tag may hold `payload`.
    pub open spec fn describes(self, payload: Value) -> bool {
        match self {
            Metadata::Unknown => true,
            Metadata::Pointer => payload is Pointer,
            Metadata::Scalar => payload is Scalar,
        }
    }

    /// Creates a new [`Metadata`] from the provided [`ValueRef`].
    pub fn from_value_ref(v: ValueRef) -> (r: Self)
        ensures
            r != Metadata::Unknown,
            r.describes(v.spec_copied()),
    {
        match v {
            ValueRef::Scalar(_) => Self::Scalar,
            ValueRef::Pointer(_) => Self::Pointer,
        }
    }
}

/// A relocatable segment of memory accessible by the Cairo virtual machine.
///
/// # Representation
///
/// A program is never able to rely on the final location of a segment, so it cannot access
/// an arbitrary absolute memory location. Fragmentation within a segment is therefore
/// small, and a segment is kept as flat arrays. "Gaps" may still appear within a segment:
/// cells below the watermark that were never asserted.
#[derive(Debug, Clone)]
pub struct Segment {
    /// The total capacity of this segment.
    ///
    /// This is the number of memory cells that have been reserved for the segment so far.
    capacity: usize,
    /// The tag of each cell below the watermark.
    metadata: Vec<Metadata>,
    /// The payload of each cell below the watermark. It is meaningful only where the
    /// corresponding tag says that the cell is known.
    cells: Vec<Value>,
}

impl View for Segment {
    type V = Seq<Option<Value>>;

    /// The cells below the watermark: `None` where a cell is unknown.
    closed spec fn view(&self) -> Seq<Option<Value>> {
        Seq::new(
            self.metadata@.len(),
            |i: int|
                if self.metadata@[i] is Unknown {
                    None
                } else {
                    Some(self.cells@[i])
                },
        )
    }
}

impl Default for Segment {
    fn default() -> (r: Self)
        ensures
            r.wf(),
            r@ == Seq::<Option<Value>>::empty(),
            r.spec_capacity() == 0,
    {
        Self::new()
    }
}

impl Segment {
    /// The invariant of a segment: the two arrays have one length, which the capacity
    /// covers, and the payload of each known cell is of the kind that its tag names.
    pub closed spec fn wf(&self) -> bool {
        &&& self.metadata@.len() == self.cells@.len()
        &&& self.metadata@.len() <= self.capacity
        &&& forall|i: int|
            0 <= i < self.metadata@.len() ==> (#[trigger] self.metadata@[i]).describes(
                self.cells@[i],
            )
    }

    /// The number of cells that have been reserved for the segment.
    pub closed spec fn spec_capacity(&self) -> usize {
        self.capacity
    }

    /// The watermark never passes the capacity.
    pub proof fn lemma_watermark_within_capacity(&self)
        requires
            self.wf(),
        ensures
            self@.len() <= self.spec_capacity(),
    {
    }

    /// Creates a new empty [`Segment`].
    ///
    /// This function is guaranteed not to fail. In fact, no memory will be allocated by this
    /// function.
    pub fn new() -> (r: Self)
        ensures
            r.wf(),
            r@ == Seq::<Option<Value>>::empty(),
            r.spec_capacity() == 0,
    {
        let r = Self { capacity: 0, metadata: Vec::new(), cells: Vec::new() };
        assert(r@ =~= Seq::<Option<Value>>::empty());
        r
    }

    /// Returns the capacity of the segment.
    #[verifier::when_used_as_spec(spec_capacity)]
    pub fn capacity(&self) -> (r: usize)
        ensures
            r == self.spec_capacity(),
    {
        self.capacity
    }

    /// Returns the offset of the highest known cell in the segment, plus one: the number of
    /// cells below the watermark.
    pub fn highest_known_cell(&self) -> (r: usize)
        requires
            self.wf(),
        ensures
            r == self@.len(),
    {
        self.metadata.len()
    }

    /// Returns the memory cell at offset `index` in the segment, if it has been asserted to a
    /// specific value.
    pub fn get(&self, index: usize) -> (r: Option<ValueRef<'_>>)
        requires
            self.wf(),
        ensures
            match r {
                Some(value) => known(self@, index as int) == Some(value.spec_copied()),
                None => known(self@, index as int) is None,
            },
    {
        if index >= self.metadata.len() {
            None
        } else {
            match self.metadata[index] {
                Metadata::Unknown => None,
                _ => Some(self.cells[index].as_ref()),
            }
        }
    }

    /// Attempts to assert that a memory cell in the segment has a given value.
    ///
    /// # Returns
    ///
    /// - If it does, the function succeeds and returns `Ok(())`.
    ///
    /// - If it is unknown, the memory cell is asserted to the given value and the function
    ///   succeeds, returning `Ok(())`.
    ///
    /// - If it does not, the function fails and returns `Err(Error::Contradiction)`.
    ///
    /// - If the segment has to grow to hold the cell and cannot, the function fails and
    ///   returns `Err(Error::OutOfMemory)`, and the segment is as it was.
    pub fn assert_eq(&mut self, index: usize, value: ValueRef) -> (r: Result<(), Error>)
        requires
            old(self).wf(),
        ensures
            final(self).wf(),
            index < old(self).spec_capacity() ==> r != Err::<(), Error>(Error::OutOfMemory),
            index == usize::MAX ==> r == Err::<(), Error>(Error::OutOfMemory),
            r == Err::<(), Error>(Error::OutOfMemory) ==> final(self)@ == old(self)@
                && final(self).spec_capacity() == old(self).spec_capacity(),
            r != Err::<(), Error>(Error::OutOfMemory) ==> {
                &&& final(self).spec_capacity() == grown(old(self).spec_capacity(), index)
                &&& match assert_outcome(old(self)@, index as int, value.spec_copied()) {
                    Ok(cells) => r == Ok::<(), Error>(()) && final(self)@ == cells,
                    Err(e) => r == Err::<(), Error>(e) && final(self)@ == old(self)@,
                }
            },
    {
        match self.reserve(index) {
            Ok(()) => {},
            Err(e) => {
                return Err(e);
            },
        }
        let ghost before = self@;
        // Write unknown cells up to the requested index. If the index is below the
        // watermark, this does nothing.
        while self.metadata.len() <= index
            invariant
                self.wf(),
                index < self.capacity,
                self.capacity == grown(old(self).spec_capacity(), index),
                before.len() <= self@.len(),
                self@.len() <= before.len() || self@.len() <= index + 1,
                forall|i: int| 0 <= i < self@.len() ==> self@[i] == known(before, i),
            decreases index + 1 - self.metadata.len(),
        {
            self.metadata.push(Metadata::Unknown);
            self.cells.push(Value::Scalar(FieldElement::zero()));
        }
        let ghost padded = self@;
        match self.metadata[index] {
            Metadata::Unknown => {
                // The cell is unknown. We can assert it to take the provided value.
                self.metadata[index] = Metadata::from_value_ref(value);
                self.cells[index] = value.copied();
                assert(self@ =~= asserted(before, index as int, value.spec_copied()));
                Ok(())
            },
            _ => {
                assert(padded[index as int] == known(before, index as int));
                assert forall|i: int| 0 <= i < padded.len() implies padded[i] == before[i] by {
                    assert(padded[i] == known(before, i));
                }
                assert(padded =~= before);
                if self.cells[index] != value.copied() {
                    Err(Error::Contradiction)
                } else {
                    Ok(())
                }
            },
        }
    }

    /// Makes room for the cell at `index`: if the segment cannot hold it yet, attempts to
    /// grow the capacity to the larger of `index + 1` and the amortised capacity.
    ///
    /// The cells are as they were, whether this succeeds or not.
    pub fn reserve(&mut self, index: usize) -> (r: Result<(), Error>)
        requires
            old(self).wf(),
        ensures
            final(self).wf(),
            final(self)@ == old(self)@,
            index < old(self).spec_capacity() ==> r is Ok,
            index == usize::MAX ==> r is Err,
            match r {
                Ok(()) => final(self).spec_capacity() == grown(old(self).spec_capacity(), index),
                Err(e) => e == Error::OutOfMemory && final(self).spec_capacity() == old(
                    self,
                ).spec_capacity(),
            },
    {
        if index >= self.capacity {
            // Amortise the cost of growing the segment by growing it by a factor of the
            // current capacity. If that is still too small, grow to the requested index.
            let more: usize = self.capacity.saturating_add(4);
            let tripled: usize = if more > usize::MAX / 3 {
                usize::MAX
            } else {
                more * 3
            };
            let amortized: usize = tripled / 2;
            let min_capacity: usize = match index.checked_add(1) {
                Some(c) => c,
                None => {
                    return Err(Error::OutOfMemory);
                },
            };
            let new_capacity: usize = if amortized > min_capacity {
                amortized
            } else {
                min_capacity
            };
            self.grow(new_capacity)
        } else {
            Ok(())
        }
    }

    /// Attempts to grow the capacity of the segment to a given value, which must be strictly
    /// greater than the current capacity.
    ///
    /// Either both arrays get room for `new_capacity` cells, or the segment is as it was.
    fn grow(&mut self, new_capacity: usize) -> (r: Result<(), Error>)
        requires
            old(self).wf(),
            new_capacity > old(self).capacity,
        ensures
            final(self).wf(),
            final(self)@ == old(self)@,
            match r {
                Ok(()) => final(self).capacity == new_capacity,
                Err(e) => e == Error::OutOfMemory && final(self).capacity == old(self).capacity,
            },
    {
        let additional: usize = new_capacity - self.metadata.len();
        if self.metadata.try_reserve(additional).is_err() {
            return Err(Error::OutOfMemory);
        }
        if self.cells.try_reserve(additional).is_err() {
            return Err(Error::OutOfMemory);
        }
        // Everything worked out, we can now update the segment's state.
        self.capacity = new_capacity;
        Ok(())
    }
}

} // verus!
