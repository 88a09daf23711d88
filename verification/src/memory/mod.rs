//! Defines the [`Memory`] type, responsible for representing the memory of a Cairo virtual
//! machine.
//!
//! # Immutable Memory
//!
//! The memory of a Cairo virtual machine does not work in the same way regular computer
//! memory does. It is mathematically immutable, and every operation that would normally
//! mutate memory instead *asserts* a memory cell to a specific value. The value was
//! previously unknown, and now it is defined. Any later access to that memory cell must
//! confirm that its value is the one it was asserted to.
//!
//! # Segments
//!
//! Each cell of the memory holds an element of the Starknet field, and the address space has
//! the size of that field. Programs therefore split their memory into *segments*: contiguous
//! blocks whose final location is not decided until the program has finished running.

pub mod pointer;
pub mod segment;
pub mod value;

pub use self::pointer::Pointer;
pub use self::segment::Metadata;
pub use self::segment::Segment;
pub use self::value::Value;
pub use self::value::ValueRef;

use crate::error::Error;
use self::segment::assert_outcome;
use self::segment::known;
use vstd::prelude::*;

verus! {

/// The cell that `p` points to, if the segment exists and the cell has been asserted to
/// a value.
pub open spec fn cell(cells: Seq<Seq<Option<Value>>>, p: Pointer) -> Option<Value> {
    if p.segment < cells.len() {
        known(cells[p.segment as int], p.offset as int)
    } else {
        None
    }
}

/// What asserting `value` at `p` does to the cells of a memory: what it does to the cells of
/// the segment of `p`, the other segments being as they were.
pub open spec fn asserted_at(cells: Seq<Seq<Option<Value>>>, p: Pointer, value: Value) -> Result<
    Seq<Seq<Option<Value>>>,
    Error,
>
    recommends
        p.segment < cells.len(),
{
    match assert_outcome(cells[p.segment as int], p.offset as int, value) {
        Ok(segment) => Ok(cells.update(p.segment as int, segment)),
        Err(e) => Err(e),
    }
}

/// What asserting each of `writes` in turn does to the cells of a memory: the cells after
/// the last one, or the first contradiction.
pub open spec fn committed(cells: Seq<Seq<Option<Value>>>, writes: Seq<(Pointer, Value)>) -> Result<
    Seq<Seq<Option<Value>>>,
    Error,
>
    decreases writes.len(),
{
    if writes.len() == 0 {
        Ok(cells)
    } else {
        match asserted_at(cells, writes[0].0, writes[0].1) {
            Ok(next) => committed(next, writes.skip(1)),
            Err(e) => Err(e),
        }
    }
}

/// Whether `after` holds every value that `before` holds, in as many segments: what a
/// write-once memory allows of two of its states.
pub open spec fn extends(after: Seq<Seq<Option<Value>>>, before: Seq<Seq<Option<Value>>>) -> bool {
    &&& after.len() == before.len()
    &&& forall|p: Pointer| #[trigger] cell(before, p) is Some ==> cell(after, p) == cell(before, p)
}

/// Whether a cell that holds `held` may be asserted to `value`: it is unknown, or it holds
/// the value already.
pub open spec fn compatible(held: Option<Value>, value: Value) -> bool {
    held is None || held == Some(value)
}

/// Whether `writes` agree with the cells of a memory and with each other: no write is to
/// a cell that holds another value, and no two writes are to one cell with two values.
pub open spec fn consistent(cells: Seq<Seq<Option<Value>>>, writes: Seq<(Pointer, Value)>) -> bool {
    &&& forall|i: int|
        0 <= i < writes.len() ==> compatible(cell(cells, (#[trigger] writes[i]).0), writes[i].1)
    &&& forall|i: int, j: int|
        0 <= i < j < writes.len() && (#[trigger] writes[i]).0 == (#[trigger] writes[j]).0
            ==> writes[i].1 == writes[j].1
}

/// An assertion succeeds where the cell is unknown or holds the value already, and is
/// a contradiction elsewhere. Where it succeeds, the cell holds the value and every other
/// cell is as it was.
pub proof fn lemma_asserted_at(cells: Seq<Seq<Option<Value>>>, p: Pointer, value: Value)
    requires
        p.segment < cells.len(),
    ensures
        match asserted_at(cells, p, value) {
            Ok(next) => {
                &&& compatible(cell(cells, p), value)
                &&& next.len() == cells.len()
                &&& forall|q: Pointer|
                    #[trigger] cell(next, q) == if q == p {
                        Some(value)
                    } else {
                        cell(cells, q)
                    }
            },
            Err(e) => e == Error::Contradiction && !compatible(cell(cells, p), value),
        },
{
    if let Ok(next) = asserted_at(cells, p, value) {
        assert forall|q: Pointer|
            #[trigger] cell(next, q) == if q == p {
                Some(value)
            } else {
                cell(cells, q)
            } by {
            if q.segment == p.segment && q != p {
                assert(q.offset != p.offset);
            }
        }
    }
}

/// Writes can be committed where they are consistent, and only there: committing them
/// meets a contradiction otherwise. The memory in which they have been committed extends
/// the one that they were committed to, by the cells that the writes name.
pub proof fn lemma_committed(cells: Seq<Seq<Option<Value>>>, writes: Seq<(Pointer, Value)>)
    requires
        forall|i: int| 0 <= i < writes.len() ==> (#[trigger] writes[i]).0.segment < cells.len(),
    ensures
        match committed(cells, writes) {
            Ok(next) => consistent(cells, writes) && extends(next, cells),
            Err(e) => e == Error::Contradiction && !consistent(cells, writes),
        },
    decreases writes.len(),
{
    if writes.len() > 0 {
        let (p, value) = writes[0];
        let rest = writes.skip(1);
        lemma_asserted_at(cells, p, value);
        match asserted_at(cells, p, value) {
            Ok(next) => {
                assert forall|i: int| 0 <= i < rest.len() implies (#[trigger] rest[i]).0.segment
                    < next.len() by {
                    assert(rest[i] == writes[i + 1]);
                }
                lemma_committed(next, rest);
                assert(extends(next, cells)) by {
                    assert forall|q: Pointer| #[trigger] cell(cells, q) is Some implies cell(
                        next,
                        q,
                    ) == cell(cells, q) by {
                        assert(cell(next, q) == if q == p {
                            Some(value)
                        } else {
                            cell(cells, q)
                        });
                    }
                }
                match committed(next, rest) {
                    Ok(last) => {
                        lemma_extends_transitive(last, next, cells);
                        assert forall|i: int| 0 <= i < writes.len() implies compatible(
                            cell(cells, (#[trigger] writes[i]).0),
                            writes[i].1,
                        ) by {
                            if i > 0 {
                                assert(rest[i - 1] == writes[i]);
                                let q = writes[i].0;
                                assert(cell(next, q) == if q == p {
                                    Some(value)
                                } else {
                                    cell(cells, q)
                                });
                            }
                        }
                        assert forall|i: int, j: int|
                            0 <= i < j < writes.len() && (#[trigger] writes[i]).0 == (
                            #[trigger] writes[j]).0 implies writes[i].1 == writes[j].1 by {
                            assert(rest[j - 1] == writes[j]);
                            if i > 0 {
                                assert(rest[i - 1] == writes[i]);
                            } else {
                                let q = writes[j].0;
                                assert(cell(next, q) == Some(value));
                            }
                        }
                    },
                    Err(_) => {
                        if consistent(cells, writes) {
                            assert forall|i: int| 0 <= i < rest.len() implies compatible(
                                cell(next, (#[trigger] rest[i]).0),
                                rest[i].1,
                            ) by {
                                assert(rest[i] == writes[i + 1]);
                                let q = rest[i].0;
                                assert(cell(next, q) == if q == p {
                                    Some(value)
                                } else {
                                    cell(cells, q)
                                });
                            }
                            assert forall|i: int, j: int|
                                0 <= i < j < rest.len() && (#[trigger] rest[i]).0 == (
                                #[trigger] rest[j]).0 implies rest[i].1 == rest[j].1 by {
                                assert(rest[i] == writes[i + 1]);
                                assert(rest[j] == writes[j + 1]);
                            }
                            assert(consistent(next, rest));
                        }
                    },
                }
            },
            Err(_) => {
                assert(!compatible(cell(cells, writes[0].0), writes[0].1));
            },
        }
    } else {
        assert(extends(cells, cells));
    }
}

/// A memory that extends one that extends another extends the other.
pub proof fn lemma_extends_transitive(
    last: Seq<Seq<Option<Value>>>,
    middle: Seq<Seq<Option<Value>>>,
    first: Seq<Seq<Option<Value>>>,
)
    requires
        extends(last, middle),
        extends(middle, first),
    ensures
        extends(last, first),
{
    assert forall|p: Pointer| #[trigger] cell(first, p) is Some implies cell(last, p) == cell(
        first,
        p,
    ) by {
        assert(cell(middle, p) is Some);
    }
}

/// Represents the memory of the Cairo virtual machine.
///
/// More information on memory can be found in the module-level documentation.
#[derive(Debug, Clone)]
pub struct Memory {
    /// The segments that have been initialized in the memory.
    segments: Vec<Segment>,
}

impl View for Memory {
    type V = Seq<Seq<Option<Value>>>;

    /// The cells of each segment, in the order of the segments.
    open spec fn view(&self) -> Seq<Seq<Option<Value>>> {
        Seq::new(self.spec_len(), |i: int| self.spec_segment(i)@)
    }
}

impl Default for Memory {
    fn default() -> (r: Self)
        ensures
            r.wf(),
            r@.len() == 0,
    {
        Self::new()
    }
}

impl Memory {
    /// The segment at position `index`.
    pub closed spec fn spec_segment(&self, index: int) -> Segment {
        self.segments@[index]
    }

    /// The number of segments.
    pub closed spec fn spec_len(&self) -> nat {
        self.segments@.len()
    }

    /// Whether the memory has a segment for `p` that can hold the cell without growing.
    pub open spec fn has_room(&self, p: Pointer) -> bool {
        p.segment < self.spec_len() && p.offset < self.spec_segment(
            p.segment as int,
        ).spec_capacity()
    }

    /// The invariant of a memory: each of its segments meets its own.
    pub open spec fn wf(&self) -> bool {
        forall|i: int| 0 <= i < self.spec_len() ==> (#[trigger] self.spec_segment(i)).wf()
    }

    /// Creates a memory without segments.
    pub fn new() -> (r: Self)
        ensures
            r.wf(),
            r@.len() == 0,
            r.spec_len() == 0,
    {
        Self { segments: Vec::new() }
    }

    /// Returns the number of segments.
    pub fn segment_count(&self) -> (r: usize)
        ensures
            r == self@.len(),
            r == self.spec_len(),
    {
        self.segments.len()
    }

    /// Appends a segment to the memory and returns its index.
    pub fn push_segment(&mut self, segment: Segment) -> (r: usize)
        requires
            old(self).wf(),
            segment.wf(),
        ensures
            final(self).wf(),
            r == old(self)@.len(),
            final(self)@ == old(self)@.push(segment@),
            final(self).spec_len() == old(self).spec_len() + 1,
            final(self).spec_segment(r as int) == segment,
            forall|i: int|
                0 <= i < old(self).spec_len() ==> final(self).spec_segment(i) == old(
                    self,
                ).spec_segment(i),
    {
        let index = self.segments.len();
        self.segments.push(segment);
        assert(self@ =~= old(self)@.push(segment@));
        assert forall|i: int| 0 <= i < self.spec_len() implies (#[trigger] self.spec_segment(
            i,
        )).wf() by {
            if i < index {
                assert(self.spec_segment(i) == old(self).spec_segment(i));
            }
        }
        index
    }

    /// Returns a [`Segment`] of the memory, if there is one at this index.
    pub fn segment(&self, segment: usize) -> (r: Option<&Segment>)
        ensures
            match r {
                Some(s) => segment < self.spec_len() && *s == self.spec_segment(segment as int),
                None => segment >= self.spec_len(),
            },
    {
        if segment < self.segments.len() {
            Some(&self.segments[segment])
        } else {
            None
        }
    }

    /// Returns a [`Segment`] of the memory.
    ///
    /// The provided `segment` must be the index of a segment of this [`Memory`].
    pub fn segment_unchecked(&self, segment: usize) -> (r: &Segment)
        requires
            segment < self.spec_len(),
        ensures
            *r == self.spec_segment(segment as int),
    {
        &self.segments[segment]
    }

    /// Returns a mutable [`Segment`] of the memory.
    ///
    /// The provided `segment` must be the index of a segment of this [`Memory`].
    pub fn segment_unchecked_mut(&mut self, segment: usize) -> (r: &mut Segment)
        requires
            segment < old(self).spec_len(),
        ensures
            *r == old(self).spec_segment(segment as int),
            final(self).spec_len() == old(self).spec_len(),
            final(self).spec_segment(segment as int) == *final(r),
            forall|i: int|
                0 <= i < old(self).spec_len() && i != segment ==> final(self).spec_segment(i)
                    == old(self).spec_segment(i),
    {
        &mut self.segments[segment]
    }

    /// Attempts to assert that the memory cell that `p` points to has a given value.
    ///
    /// The segment of `p` must be one of the memory. See [`Segment::assert_eq`].
    pub fn assert_eq(&mut self, p: Pointer, value: ValueRef) -> (r: Result<(), Error>)
        requires
            old(self).wf(),
            p.segment < old(self)@.len(),
        ensures
            final(self).wf(),
            final(self).spec_len() == old(self).spec_len(),
            extends(final(self)@, old(self)@),
            old(self).has_room(p) ==> r != Err::<(), Error>(Error::OutOfMemory),
            p.offset == usize::MAX ==> r == Err::<(), Error>(Error::OutOfMemory),
            forall|q: Pointer| old(self).has_room(q) ==> final(self).has_room(q),
            r == Err::<(), Error>(Error::OutOfMemory) ==> final(self)@ == old(self)@,
            r != Err::<(), Error>(Error::OutOfMemory) ==> match asserted_at(
                old(self)@,
                p,
                value.spec_copied(),
            ) {
                Ok(cells) => r == Ok::<(), Error>(()) && final(self)@ == cells,
                Err(e) => r == Err::<(), Error>(e) && final(self)@ == old(self)@,
            },
    {
        proof {
            assert(old(self).spec_segment(p.segment as int).wf());
        }
        let segment = self.segment_unchecked_mut(p.segment);
        let r = segment.assert_eq(p.offset, value);
        proof {
            assert forall|i: int| 0 <= i < self.spec_len() implies (#[trigger] self.spec_segment(
                i,
            )).wf() by {
                if i != p.segment {
                    assert(old(self).spec_segment(i).wf());
                }
            }
            let cells = self.spec_segment(p.segment as int)@;
            assert(self@ =~= old(self)@.update(p.segment as int, cells));
            assert forall|q: Pointer| #[trigger] cell(old(self)@, q) is Some implies cell(self@, q)
                == cell(old(self)@, q) by {
            }
        }
        r
    }

    /// Makes room for the cell that `p` points to, without writing it.
    ///
    /// The segment of `p` must be one of the memory. See [`Segment::reserve`].
    pub fn reserve(&mut self, p: Pointer) -> (r: Result<(), Error>)
        requires
            old(self).wf(),
            p.segment < old(self)@.len(),
        ensures
            final(self).wf(),
            final(self).spec_len() == old(self).spec_len(),
            final(self)@ == old(self)@,
            forall|q: Pointer| old(self).has_room(q) ==> final(self).has_room(q),
            old(self).has_room(p) ==> r is Ok,
            p.offset == usize::MAX ==> r is Err,
            match r {
                Ok(()) => final(self).has_room(p),
                Err(e) => e == Error::OutOfMemory,
            },
    {
        proof {
            assert(old(self).spec_segment(p.segment as int).wf());
        }
        let segment = self.segment_unchecked_mut(p.segment);
        let r = segment.reserve(p.offset);
        proof {
            assert forall|i: int| 0 <= i < self.spec_len() implies (#[trigger] self.spec_segment(
                i,
            )).wf() by {
                if i != p.segment {
                    assert(old(self).spec_segment(i).wf());
                }
            }
            assert(self@ =~= old(self)@);
        }
        r
    }

    /// Returns whether each of `writes` could be asserted in turn without a contradiction:
    /// whether they agree with the memory and with each other.
    ///
    /// The segment of each write must be one of the memory.
    pub fn accepts(&self, writes: &Vec<(Pointer, Value)>) -> (r: bool)
        requires
            self.wf(),
            forall|i: int| 0 <= i < writes@.len() ==> (#[trigger] writes@[i]).0.segment
                < self@.len(),
        ensures
            r == consistent(self@, writes@),
            r == (committed(self@, writes@) is Ok),
    {
        proof {
            lemma_committed(self@, writes@);
        }
        let mut i: usize = 0;
        while i < writes.len()
            invariant
                i <= writes@.len(),
                self.wf(),
                consistent(self@, writes@) == (committed(self@, writes@) is Ok),
                forall|k: int|
                    0 <= k < i ==> compatible(cell(self@, (#[trigger] writes@[k]).0), writes@[k].1),
                forall|k: int, l: int|
                    0 <= k < l < i && (#[trigger] writes@[k]).0 == (#[trigger] writes@[l]).0
                        ==> writes@[k].1 == writes@[l].1,
            decreases writes@.len() - i,
        {
            let (p, value) = writes[i];
            match self.get(p) {
                Some(held) => {
                    if held != value {
                        assert(!compatible(cell(self@, writes@[i as int].0), writes@[i as int].1));
                        return false;
                    }
                },
                None => {},
            }
            let mut j: usize = 0;
            while j < i
                invariant
                    j <= i,
                    i < writes@.len(),
                    (p, value) == writes@[i as int],
                    consistent(self@, writes@) == (committed(self@, writes@) is Ok),
                    forall|k: int|
                        0 <= k < j && (#[trigger] writes@[k]).0 == p ==> writes@[k].1 == value,
                decreases i - j,
            {
                let (q, other) = writes[j];
                if q == p && other != value {
                    assert(writes@[j as int].0 == writes@[i as int].0 && writes@[j as int].1
                        != writes@[i as int].1);
                    return false;
                }
                j += 1;
            }
            i += 1;
        }
        true
    }

    /// Asserts each of `writes` in turn, or none of them: nothing is written if one of them
    /// contradicts another or the memory, or if the memory cannot make room for all of them.
    ///
    /// The segment of each write must be one of the memory.
    pub fn commit(&mut self, writes: &Vec<(Pointer, Value)>) -> (r: Result<(), Error>)
        requires
            old(self).wf(),
            forall|i: int| 0 <= i < writes@.len() ==> (#[trigger] writes@[i]).0.segment < old(
                self,
            )@.len(),
        ensures
            final(self).wf(),
            final(self).spec_len() == old(self).spec_len(),
            extends(final(self)@, old(self)@),
            forall|q: Pointer| old(self).has_room(q) ==> final(self).has_room(q),
            match r {
                Ok(()) => committed(old(self)@, writes@) == Ok::<Seq<Seq<Option<Value>>>, Error>(
                    final(self)@,
                ),
                Err(e) => final(self)@ == old(self)@ && match committed(old(self)@, writes@) {
                    Err(contradiction) => e == contradiction,
                    Ok(_) => e == Error::OutOfMemory && !(forall|i: int|
                        0 <= i < writes@.len() ==> old(self).has_room((#[trigger] writes@[i]).0)),
                },
            },
    {
        proof {
            lemma_committed(self@, writes@);
        }
        if !self.accepts(writes) {
            return Err(Error::Contradiction);
        }
        // Make room for every write before the first is made.
        let mut i: usize = 0;
        while i < writes.len()
            invariant
                i <= writes@.len(),
                self.wf(),
                self.spec_len() == old(self).spec_len(),
                self@ == old(self)@,
                committed(old(self)@, writes@) is Ok,
                forall|j: int|
                    0 <= j < writes@.len() ==> (#[trigger] writes@[j]).0.segment < old(self)@.len(),
                forall|q: Pointer| old(self).has_room(q) ==> self.has_room(q),
                forall|j: int| 0 <= j < i ==> self.has_room((#[trigger] writes@[j]).0),
            decreases writes@.len() - i,
        {
            let (p, _) = writes[i];
            let ghost roomy = self.has_room(p);
            match self.reserve(p) {
                Ok(()) => {},
                Err(e) => {
                    assert(!old(self).has_room(writes@[i as int].0)) by {
                        assert(!roomy);
                    }
                    return Err(e);
                },
            }
            i += 1;
        }
        let mut i: usize = 0;
        proof {
            assert(writes@.skip(0) =~= writes@);
        }
        while i < writes.len()
            invariant
                i <= writes@.len(),
                self.wf(),
                self.spec_len() == old(self).spec_len(),
                self@.len() == old(self)@.len(),
                extends(self@, old(self)@),
                committed(old(self)@, writes@) is Ok,
                committed(old(self)@, writes@) == committed(self@, writes@.skip(i as int)),
                forall|j: int|
                    0 <= j < writes@.len() ==> (#[trigger] writes@[j]).0.segment < old(self)@.len(),
                forall|q: Pointer| old(self).has_room(q) ==> self.has_room(q),
                forall|j: int| 0 <= j < writes@.len() ==> self.has_room((#[trigger] writes@[j]).0),
            decreases writes@.len() - i,
        {
            let (p, value) = writes[i];
            let ghost before = self@;
            let ghost rest = writes@.skip(i as int);
            proof {
                assert(rest[0] == writes@[i as int]);
                assert(rest.skip(1) =~= writes@.skip(i + 1));
                assert(self.has_room(writes@[i as int].0));
            }
            match self.assert_eq(p, value.as_ref()) {
                Ok(()) => {},
                Err(e) => {
                    return Err(e);
                },
            }
            proof {
                lemma_extends_transitive(self@, before, old(self)@);
            }
            i += 1;
        }
        Ok(())
    }

    /// Returns the value of the cell that `p` points to, if its segment exists and the cell
    /// has been asserted to a value.
    pub fn get(&self, p: Pointer) -> (r: Option<Value>)
        requires
            self.wf(),
        ensures
            r == cell(self@, p),
    {
        if p.segment < self.segments.len() {
            assert(self.spec_segment(p.segment as int).wf());
            match self.segments[p.segment].get(p.offset) {
                Some(value) => Some(value.copied()),
                None => None,
            }
        } else {
            None
        }
    }
}

} // verus!
