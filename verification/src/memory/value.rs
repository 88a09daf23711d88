//! Defines the [`Value`] type.

use super::pointer::Pointer;
use crate::error::Error;
use crate::field::difference;
use crate::field::prime;
use crate::field::product;
use crate::field::quotient;
use crate::field::sum;
use crate::field::FieldElement;
use vstd::prelude::*;
use vstd::std_specs::cmp::PartialEqSpecImpl;
use vstd::std_specs::convert::FromSpecImpl;

verus! {

/// A value that may be stored in a memory segment.
#[derive(Debug, Clone, Copy, PartialEq, Eq, Structural)]
pub enum Value {
    /// A scalar with no provenance information.
    ///
    /// In that case, the value simply carries a field element.
    Scalar(FieldElement),
    /// A pointer with an associated segment.
    ///
    /// In that case, the value is a pointer within a specific segment.
    Pointer(Pointer),
}

/// The pointer `by` cells after `p`, if `by` is an offset that the machine can represent.
pub open spec fn advanced(p: Pointer, by: nat) -> Result<Value, Error> {
    if by <= usize::MAX {
        Ok(Value::Pointer(p.spec_wrapping_add(by as usize)))
    } else {
        Err(Error::PointerTooLarge)
    }
}

/// The pointer `by` cells before `p`, if `by` is an offset that the machine can represent.
pub open spec fn retreated(p: Pointer, by: nat) -> Result<Value, Error> {
    if by <= usize::MAX {
        Ok(Value::Pointer(p.spec_wrapping_sub(by as usize)))
    } else {
        Err(Error::PointerTooLarge)
    }
}

impl Value {
    /// The scalar whose representative is `n`.
    pub open spec fn scalar(n: nat) -> Value {
        Value::Scalar(FieldElement::from_nat(n))
    }

    /// The sum of two values: of two scalars their sum in the field, of a scalar and
    /// a pointer the pointer moved forward; two pointers cannot be added.
    pub open spec fn spec_add(self, other: Value) -> Result<Value, Error> {
        match (self, other) {
            (Value::Scalar(a), Value::Scalar(b)) => Ok(Value::scalar(sum(a@, b@))),
            (Value::Scalar(a), Value::Pointer(p)) => advanced(p, a@),
            (Value::Pointer(p), Value::Scalar(b)) => advanced(p, b@),
            (Value::Pointer(_), Value::Pointer(_)) => Err(Error::InvalidPointerArithmetic),
        }
    }

    /// The difference of two values: of two scalars their difference in the field, of
    /// a pointer and a scalar the pointer moved back, of two pointers into one segment the
    /// difference of their offsets in the field.
    pub open spec fn spec_subtract(self, other: Value) -> Result<Value, Error> {
        match (self, other) {
            (Value::Scalar(a), Value::Scalar(b)) => Ok(Value::scalar(difference(a@, b@))),
            (Value::Scalar(_), Value::Pointer(_)) => Err(Error::InvalidPointerArithmetic),
            (Value::Pointer(p), Value::Scalar(b)) => retreated(p, b@),
            (Value::Pointer(p), Value::Pointer(q)) => if p.segment == q.segment {
                Ok(Value::scalar(difference(p.offset as nat, q.offset as nat)))
            } else {
                Err(Error::IncoherentProvenance)
            },
        }
    }

    /// The product of two values: only scalars can be multiplied.
    pub open spec fn spec_multiply(self, other: Value) -> Result<Value, Error> {
        match (self, other) {
            (Value::Scalar(a), Value::Scalar(b)) => Ok(Value::scalar(product(a@, b@))),
            _ => Err(Error::InvalidPointerArithmetic),
        }
    }

    /// The quotient of two values: only a scalar can be divided, and only by a scalar
    /// other than zero.
    pub open spec fn spec_divide(self, other: Value) -> Result<Value, Error> {
        match (self, other) {
            (Value::Scalar(a), Value::Scalar(b)) => if b@ == 0 {
                Err(Error::DivideByZero)
            } else {
                Ok(Value::scalar(quotient(a@, b@)))
            },
            _ => Err(Error::InvalidPointerArithmetic),
        }
    }

    /// Whether the value is the scalar zero. A pointer never is.
    pub open spec fn spec_is_zero(&self) -> bool {
        self matches Value::Scalar(a) && a@ == 0
    }

    /// Attempts to subtract two [`Value`]s.
    pub fn subtract(&self, other: &Self) -> (r: Result<Self, Error>)
        ensures
            r == self.spec_subtract(*other),
    {
        match self {
            Self::Scalar(left) => match other {
                Self::Scalar(right) => Ok(Value::Scalar(left.sub(right))),
                Self::Pointer(_) => Err(Error::InvalidPointerArithmetic),
            },
            Self::Pointer(left) => match other {
                Self::Scalar(right) => match right.to_usize() {
                    Some(right) => Ok(Value::Pointer(left.wrapping_sub(right))),
                    None => Err(Error::PointerTooLarge),
                },
                Self::Pointer(right) => if left.segment == right.segment {
                    let from = FieldElement::from_usize(right.offset);
                    Ok(Value::Scalar(FieldElement::from_usize(left.offset).sub(&from)))
                } else {
                    Err(Error::IncoherentProvenance)
                },
            },
        }
    }

    /// Attempts to add two [`Value`]s.
    pub fn add(&self, other: &Self) -> (r: Result<Self, Error>)
        ensures
            r == self.spec_add(*other),
    {
        match self {
            Self::Scalar(left) => match other {
                Self::Scalar(right) => Ok(Value::Scalar(left.add(right))),
                Self::Pointer(right) => match left.to_usize() {
                    Some(left) => Ok(Value::Pointer(right.wrapping_add(left))),
                    None => Err(Error::PointerTooLarge),
                },
            },
            Self::Pointer(left) => match other {
                Self::Scalar(right) => match right.to_usize() {
                    Some(right) => Ok(Value::Pointer(left.wrapping_add(right))),
                    None => Err(Error::PointerTooLarge),
                },
                Self::Pointer(_) => Err(Error::InvalidPointerArithmetic),
            },
        }
    }

    /// Attempts to divide two values.
    ///
    /// Note that only a scalar can be divided, and only by a scalar.
    pub fn divide(&self, other: &Self) -> (r: Result<Self, Error>)
        ensures
            r == self.spec_divide(*other),
    {
        match self {
            Self::Scalar(n) => match other {
                Self::Scalar(d) => match d.non_zero() {
                    Ok(d) => Ok(Value::Scalar(n.field_div(&d))),
                    Err(e) => Err(e),
                },
                Self::Pointer(_) => Err(Error::InvalidPointerArithmetic),
            },
            Self::Pointer(_) => Err(Error::InvalidPointerArithmetic),
        }
    }

    /// Attempts to multiply two values.
    pub fn multiply(&self, other: &Self) -> (r: Result<Self, Error>)
        ensures
            r == self.spec_multiply(*other),
    {
        match self {
            Self::Scalar(left) => match other {
                Self::Scalar(right) => Ok(Value::Scalar(left.mul(right))),
                Self::Pointer(_) => Err(Error::InvalidPointerArithmetic),
            },
            Self::Pointer(_) => Err(Error::InvalidPointerArithmetic),
        }
    }

    /// Creates a [`ValueRef`] from this [`Value`].
    pub fn as_ref(&self) -> (r: ValueRef<'_>)
        ensures
            r.spec_copied() == *self,
    {
        match self {
            Self::Scalar(value) => ValueRef::Scalar(value),
            Self::Pointer(pointer) => ValueRef::Pointer(pointer),
        }
    }

    /// Returns whether this [`Value`] equals zero.
    #[verifier::when_used_as_spec(spec_is_zero)]
    pub fn is_zero(&self) -> (r: bool)
        ensures
            r == self.spec_is_zero(),
    {
        match self {
            Self::Scalar(value) => value.is_zero(),
            Self::Pointer(_) => false,
        }
    }
}

impl From<FieldElement> for Value {
    fn from(value: FieldElement) -> (r: Self) {
        Self::Scalar(value)
    }
}

impl FromSpecImpl<FieldElement> for Value {
    open spec fn obeys_from_spec() -> bool {
        true
    }

    open spec fn from_spec(value: FieldElement) -> Self {
        Value::Scalar(value)
    }
}

impl From<Pointer> for Value {
    fn from(value: Pointer) -> (r: Self) {
        Self::Pointer(value)
    }
}

impl FromSpecImpl<Pointer> for Value {
    open spec fn obeys_from_spec() -> bool {
        true
    }

    open spec fn from_spec(value: Pointer) -> Self {
        Value::Pointer(value)
    }
}

impl PartialEq<Pointer> for Value {
    fn eq(&self, other: &Pointer) -> (r: bool) {
        match self {
            Self::Scalar(_) => false,
            Self::Pointer(pointer) => pointer.segment == other.segment && pointer.offset
                == other.offset,
        }
    }
}

impl PartialEqSpecImpl<Pointer> for Value {
    open spec fn obeys_eq_spec() -> bool {
        true
    }

    open spec fn eq_spec(&self, other: &Pointer) -> bool {
        *self == Value::Pointer(*other)
    }
}

impl PartialEq<FieldElement> for Value {
    fn eq(&self, other: &FieldElement) -> (r: bool) {
        match self {
            Self::Scalar(value) => *value == *other,
            Self::Pointer(_) => false,
        }
    }
}

impl PartialEqSpecImpl<FieldElement> for Value {
    open spec fn obeys_eq_spec() -> bool {
        true
    }

    open spec fn eq_spec(&self, other: &FieldElement) -> bool {
        *self == Value::Scalar(*other)
    }
}

/// The difference of two pointers into one segment is the scalar that stands for the
/// difference of their offsets: the difference itself where the first offset is not below
/// the second, and what remains of the order of the field otherwise.
pub proof fn lemma_pointer_difference(p: Pointer, q: Pointer)
    requires
        p.segment == q.segment,
    ensures
        Value::Pointer(p).spec_subtract(Value::Pointer(q)) == Ok::<Value, Error>(
            Value::scalar(difference(p.offset as nat, q.offset as nat)),
        ),
        difference(p.offset as nat, q.offset as nat) == if p.offset >= q.offset {
            p.offset - q.offset
        } else {
            prime() - (q.offset - p.offset)
        },
        FieldElement::from_nat(difference(p.offset as nat, q.offset as nat))@ == difference(
            p.offset as nat,
            q.offset as nat,
        ),
{
    let d = p.offset - q.offset;
    if d >= 0 {
        vstd::arithmetic::div_mod::lemma_small_mod(d as nat, prime());
    } else {
        vstd::arithmetic::div_mod::lemma_mod_add_multiples_vanish(d, prime() as int);
        vstd::arithmetic::div_mod::lemma_small_mod((prime() + d) as nat, prime());
    }
    FieldElement::lemma_view_from_nat(difference(p.offset as nat, q.offset as nat));
}

/// Subtracting a scalar and adding it again gives the scalar that one started from: for
/// canonical scalars `a` and `d`, the sum in the field of `a` and of the difference `d - a`
/// is `d`.
pub proof fn lemma_difference_adds_up(a: FieldElement, d: FieldElement)
    requires
        a.is_canonical(),
        d.is_canonical(),
    ensures
        Value::Scalar(d).spec_subtract(Value::Scalar(a)) matches Ok(b) && Value::Scalar(
            a,
        ).spec_add(b) == Ok::<Value, Error>(Value::Scalar(d)),
{
    a.lemma_is_canonical();
    d.lemma_is_canonical();
    let p = prime() as int;
    let diff = difference(d@, a@);
    FieldElement::lemma_view_from_nat(diff);
    assert(sum(a@, diff) == d@) by {
        vstd::arithmetic::div_mod::lemma_add_mod_noop_right(a@ as int, d@ - a@, p);
        vstd::arithmetic::div_mod::lemma_small_mod(d@, prime());
    }
    d.lemma_from_nat_view();
}

/// A reference to a [`Value`] that holds the discriminant inline.
///
/// A memory segment keeps the tag of a cell apart from its payload, so it cannot hand out
/// a reference to a [`Value`]; it hands out one of these instead.
#[derive(Debug, Clone, Copy, PartialEq, Eq, Structural)]
pub enum ValueRef<'a> {
    /// A scalar with no provenance information.
    Scalar(&'a FieldElement),
    /// A pointer with an associated segment.
    Pointer(&'a Pointer),
}

impl<'a> ValueRef<'a> {
    /// The value that the reference stands for.
    pub open spec fn spec_copied(self) -> Value {
        match self {
            ValueRef::Scalar(element) => Value::Scalar(*element),
            ValueRef::Pointer(pointer) => Value::Pointer(*pointer),
        }
    }

    /// Copy the referenced value in a concrete [`Value`] instance.
    #[verifier::when_used_as_spec(spec_copied)]
    pub fn copied(self) -> (r: Value)
        ensures
            r == self.spec_copied(),
    {
        match self {
            Self::Scalar(element) => Value::Scalar(*element),
            Self::Pointer(pointer) => Value::Pointer(*pointer),
        }
    }

    /// Attempts to convert the reference to a scalar value.
    pub fn scalar(self) -> (r: Option<&'a FieldElement>)
        ensures
            match self {
                ValueRef::Scalar(element) => r == Some(element),
                ValueRef::Pointer(_) => r is None,
            },
    {
        match self {
            Self::Scalar(element) => Some(element),
            Self::Pointer(_) => None,
        }
    }

    /// Attempts to convert the reference to a pointer value.
    pub fn pointer(self) -> (r: Option<&'a Pointer>)
        ensures
            match self {
                ValueRef::Scalar(_) => r is None,
                ValueRef::Pointer(pointer) => r == Some(pointer),
            },
    {
        match self {
            Self::Scalar(_) => None,
            Self::Pointer(pointer) => Some(pointer),
        }
    }
}

} // verus!
