//! Defines the [`FieldElement`] type, an element of the Starknet prime field.
//!
//! The arithmetic of the field is done by `starknet_types_core`. This module holds the
//! canonical representative of an element as two plain integers and states, for each
//! operation that it hands to that crate, what comes back.
//!
//! An element crosses to the outside crate as the 32 bytes of its representative, the most
//! significant byte first, and comes back the same way. Those statements are not proved:
//! they say what the functions of that crate are known to do.

use crate::error::Error;
use num_traits::ToPrimitive;
use num_traits::Zero;
use starknet_types_core::felt::Felt;
use starknet_types_core::felt::FeltIsZeroError;
use starknet_types_core::felt::NonZeroFelt;
use vstd::prelude::*;

verus! {

/// The order of the field: `2^251 + 17 * 2^192 + 1`.
pub open spec fn prime() -> nat {
    0x0800_0000_0000_0011_0000_0000_0000_0000_0000_0000_0000_0000_0000_0000_0000_0001nat
}

/// The weight of the high half of a representative: `2^128`.
pub open spec fn half() -> nat {
    0x1_0000_0000_0000_0000_0000_0000_0000_0000nat
}

/// The high half of the field's order.
pub const PRIME_HI: u128 = 0x0800_0000_0000_0011_0000_0000_0000_0000u128;

/// The low half of the field's order.
pub const PRIME_LO: u128 = 1u128;

/// The representative of `a + b`.
pub open spec fn sum(a: nat, b: nat) -> nat {
    (a + b) % prime()
}

/// The representative of `a - b`.
pub open spec fn difference(a: nat, b: nat) -> nat {
    ((a - b) % (prime() as int)) as nat
}

/// The representative of `a * b`.
pub open spec fn product(a: nat, b: nat) -> nat {
    (a * b) % prime()
}

/// Whether `q` is the representative of `a / b`: the element whose product with `b` is `a`.
pub open spec fn is_quotient(q: nat, a: nat, b: nat) -> bool {
    q < prime() && product(q, b) == a
}

/// The representative of `a / b`, for `b` other than zero. There is one, and only one,
/// because the order of the field is prime.
pub open spec fn quotient(a: nat, b: nat) -> nat {
    choose|q: nat| is_quotient(q, a, b)
}

/// An element of the Starknet prime field, held as its canonical representative.
#[derive(Debug, Clone, Copy, PartialEq, Eq, Hash, Structural)]
pub struct FieldElement {
    hi: u128,
    lo: u128,
}

/// An element of the field other than zero: what an element can be divided by.
#[derive(Debug, Clone, Copy, PartialEq, Eq, Hash, Structural)]
pub struct NonZeroFieldElement {
    value: FieldElement,
}

/// The error of `NonZeroFelt::try_from`. Nothing is known of its values.
#[verifier::external_type_specification]
#[verifier::external_body]
pub struct ExFeltIsZeroError(FeltIsZeroError);

impl View for FieldElement {
    type V = nat;

    /// The canonical representative of the element.
    closed spec fn view(&self) -> nat {
        self.hi as nat * half() + self.lo as nat
    }
}

impl View for NonZeroFieldElement {
    type V = nat;

    /// The canonical representative of the element.
    closed spec fn view(&self) -> nat {
        self.value@
    }
}

impl NonZeroFieldElement {
    /// Whether the element is a canonical one other than zero. Every value that executable
    /// code holds is.
    #[verifier::type_invariant]
    pub closed spec fn is_valid(self) -> bool {
        0 < self.value@ < prime()
    }

    /// The element itself.
    pub fn get(&self) -> (r: FieldElement)
        ensures
            r@ == self@,
            r@ != 0,
    {
        proof {
            use_type_invariant(self);
        }
        self.value
    }
}

impl FieldElement {
    /// Whether the representative is below the order of the field. Every element that
    /// executable code holds is.
    #[verifier::type_invariant]
    pub closed spec fn is_canonical(self) -> bool {
        self@ < prime()
    }

    /// The element whose representative is `n`, for `n` below `2^256`.
    pub closed spec fn from_nat(n: nat) -> FieldElement {
        FieldElement { hi: (n / half()) as u128, lo: (n % half()) as u128 }
    }

    /// An element is the one that its representative stands for.
    pub proof fn lemma_from_nat_view(self)
        ensures
            FieldElement::from_nat(self@) == self,
    {
        let n = self@;
        vstd::arithmetic::div_mod::lemma_fundamental_div_mod_converse(
            n as int,
            half() as int,
            self.hi as int,
            self.lo as int,
        );
    }

    /// The representative of the element made from `n` is `n`, and the element is canonical
    /// if `n` is below the order of the field.
    pub proof fn lemma_view_from_nat(n: nat)
        requires
            n < half() * half(),
        ensures
            FieldElement::from_nat(n)@ == n,
            n < prime() ==> FieldElement::from_nat(n).is_canonical(),
    {
        vstd::arithmetic::div_mod::lemma_fundamental_div_mod(n as int, half() as int);
        assert(n / half() < half()) by (nonlinear_arith)
            requires
                n < half() * half(),
                half() > 0,
        ;
    }

    /// The representative of a canonical element is below the order of the field.
    pub proof fn lemma_is_canonical(self)
        requires
            self.is_canonical(),
        ensures
            self@ < prime(),
    {
    }

    /// The element with the given representative, written as `hi * 2^128 + lo`, if it is
    /// below the order of the field.
    pub fn new(hi: u128, lo: u128) -> (r: Option<FieldElement>)
        ensures
            r is Some <==> hi * half() + lo < prime(),
            r matches Some(f) ==> f@ == hi * half() + lo,
    {
        if hi < PRIME_HI || (hi == PRIME_HI && lo < PRIME_LO) {
            Some(FieldElement { hi, lo })
        } else {
            None
        }
    }

    /// The zero of the field.
    pub fn zero() -> (r: FieldElement)
        ensures
            r@ == 0,
            r == FieldElement::from_nat(0),
    {
        FieldElement { hi: 0, lo: 0 }
    }

    /// The element that stands for an unsigned 64-bit integer.
    pub fn from_u64(value: u64) -> (r: FieldElement)
        ensures
            r@ == value,
            r == FieldElement::from_nat(value as nat),
    {
        let r = FieldElement { hi: 0, lo: value as u128 };
        proof {
            r.lemma_from_nat_view();
        }
        r
    }

    /// The element that stands for an offset.
    pub fn from_usize(value: usize) -> (r: FieldElement)
        ensures
            r@ == value,
            r == FieldElement::from_nat(value as nat),
    {
        let r = FieldElement { hi: 0, lo: value as u128 };
        proof {
            r.lemma_from_nat_view();
        }
        r
    }

    /// The high half of the representative.
    pub fn high(&self) -> (r: u128)
        ensures
            r == self@ / half(),
    {
        proof {
            vstd::arithmetic::div_mod::lemma_fundamental_div_mod_converse(
                self@ as int,
                half() as int,
                self.hi as int,
                self.lo as int,
            );
        }
        self.hi
    }

    /// The low half of the representative.
    pub fn low(&self) -> (r: u128)
        ensures
            r == self@ % half(),
    {
        proof {
            vstd::arithmetic::div_mod::lemma_fundamental_div_mod_converse(
                self@ as int,
                half() as int,
                self.hi as int,
                self.lo as int,
            );
        }
        self.lo
    }

    /// The sum of two elements.
    pub fn add(&self, other: &FieldElement) -> (r: FieldElement)
        ensures
            r@ == sum(self@, other@),
            r == FieldElement::from_nat(sum(self@, other@)),
    {
        proof {
            use_type_invariant(self);
            use_type_invariant(other);
        }
        let r = felt_add(self, other);
        proof {
            r.lemma_from_nat_view();
        }
        r
    }

    /// The difference of two elements.
    pub fn sub(&self, other: &FieldElement) -> (r: FieldElement)
        ensures
            r@ == difference(self@, other@),
            r == FieldElement::from_nat(difference(self@, other@)),
    {
        proof {
            use_type_invariant(self);
            use_type_invariant(other);
        }
        let r = felt_sub(self, other);
        proof {
            r.lemma_from_nat_view();
        }
        r
    }

    /// The product of two elements.
    pub fn mul(&self, other: &FieldElement) -> (r: FieldElement)
        ensures
            r@ == product(self@, other@),
            r == FieldElement::from_nat(product(self@, other@)),
    {
        proof {
            use_type_invariant(self);
            use_type_invariant(other);
        }
        let r = felt_mul(self, other);
        proof {
            r.lemma_from_nat_view();
        }
        r
    }

    /// The quotient of an element by one that is not zero: the element whose product with
    /// the divisor is `self`.
    pub fn field_div(&self, divisor: &NonZeroFieldElement) -> (r: FieldElement)
        ensures
            is_quotient(r@, self@, divisor@),
            r@ == quotient(self@, divisor@),
            r == FieldElement::from_nat(quotient(self@, divisor@)),
    {
        proof {
            use_type_invariant(self);
            use_type_invariant(divisor);
        }
        let r = felt_field_div(self, divisor);
        proof {
            r.lemma_from_nat_view();
        }
        r
    }

    /// The element as a divisor, which zero is not.
    pub fn non_zero(&self) -> (r: Result<NonZeroFieldElement, Error>)
        ensures
            match r {
                Ok(d) => d@ == self@ && self@ != 0,
                Err(e) => e == Error::DivideByZero && self@ == 0,
            },
    {
        proof {
            use_type_invariant(self);
        }
        match felt_non_zero(self) {
            Ok(d) => Ok(d),
            Err(_) => Err(Error::DivideByZero),
        }
    }

    /// Whether the element is the zero of the field.
    pub fn is_zero(&self) -> (r: bool)
        ensures
            r <==> self@ == 0,
    {
        proof {
            use_type_invariant(self);
        }
        felt_is_zero(self)
    }

    /// The representative as a `u64`, if it fits.
    pub fn to_u64(&self) -> (r: Option<u64>)
        ensures
            r == (if self@ <= u64::MAX {
                Some(self@ as u64)
            } else {
                None
            }),
    {
        proof {
            use_type_invariant(self);
        }
        felt_to_u64(self)
    }

    /// The representative as a `usize`, if it fits.
    pub fn to_usize(&self) -> (r: Option<usize>)
        ensures
            r == (if self@ <= usize::MAX {
                Some(self@ as usize)
            } else {
                None
            }),
    {
        proof {
            use_type_invariant(self);
        }
        felt_to_usize(self)
    }
}

/// Calls `Felt`'s `+`: for canonical operands, the canonical representative of their sum in
/// the field.
#[verifier::external_body]
fn felt_add(a: &FieldElement, b: &FieldElement) -> (r: FieldElement)
    requires
        a@ < prime(),
        b@ < prime(),
    ensures
        r@ == sum(a@, b@),
{
    let x = Felt::from_bytes_be_slice(&[a.hi.to_be_bytes(), a.lo.to_be_bytes()].concat());
    let y = Felt::from_bytes_be_slice(&[b.hi.to_be_bytes(), b.lo.to_be_bytes()].concat());
    let z = (x + y).to_bytes_be();
    FieldElement {
        hi: u128::from_be_bytes(z[..16].try_into().unwrap()),
        lo: u128::from_be_bytes(z[16..].try_into().unwrap()),
    }
}

/// Calls `Felt`'s `-`: for canonical operands, the canonical representative of their
/// difference in the field.
#[verifier::external_body]
fn felt_sub(a: &FieldElement, b: &FieldElement) -> (r: FieldElement)
    requires
        a@ < prime(),
        b@ < prime(),
    ensures
        r@ == difference(a@, b@),
{
    let x = Felt::from_bytes_be_slice(&[a.hi.to_be_bytes(), a.lo.to_be_bytes()].concat());
    let y = Felt::from_bytes_be_slice(&[b.hi.to_be_bytes(), b.lo.to_be_bytes()].concat());
    let z = (x - y).to_bytes_be();
    FieldElement {
        hi: u128::from_be_bytes(z[..16].try_into().unwrap()),
        lo: u128::from_be_bytes(z[16..].try_into().unwrap()),
    }
}

/// Calls `Felt`'s `*`: for canonical operands, the canonical representative of their
/// product in the field.
#[verifier::external_body]
fn felt_mul(a: &FieldElement, b: &FieldElement) -> (r: FieldElement)
    requires
        a@ < prime(),
        b@ < prime(),
    ensures
        r@ == product(a@, b@),
{
    let x = Felt::from_bytes_be_slice(&[a.hi.to_be_bytes(), a.lo.to_be_bytes()].concat());
    let y = Felt::from_bytes_be_slice(&[b.hi.to_be_bytes(), b.lo.to_be_bytes()].concat());
    let z = (x * y).to_bytes_be();
    FieldElement {
        hi: u128::from_be_bytes(z[..16].try_into().unwrap()),
        lo: u128::from_be_bytes(z[16..].try_into().unwrap()),
    }
}

/// Calls `Felt::field_div`: for canonical operands and a divisor other than zero, the one
/// canonical element whose product with the divisor is `a`.
#[verifier::external_body]
fn felt_field_div(a: &FieldElement, d: &NonZeroFieldElement) -> (r: FieldElement)
    requires
        a@ < prime(),
        0 < d@ < prime(),
    ensures
        is_quotient(r@, a@, d@),
        r@ == quotient(a@, d@),
{
    let x = Felt::from_bytes_be_slice(&[a.hi.to_be_bytes(), a.lo.to_be_bytes()].concat());
    let y = Felt::from_bytes_be_slice(
        &[d.value.hi.to_be_bytes(), d.value.lo.to_be_bytes()].concat(),
    );
    let z = x.field_div(&NonZeroFelt::from_felt_unchecked(y)).to_bytes_be();
    FieldElement {
        hi: u128::from_be_bytes(z[..16].try_into().unwrap()),
        lo: u128::from_be_bytes(z[16..].try_into().unwrap()),
    }
}

/// Calls `NonZeroFelt::try_from`: for a canonical element, the same element unless it is
/// zero, and the crate's error if it is.
#[verifier::external_body]
fn felt_non_zero(a: &FieldElement) -> (r: Result<NonZeroFieldElement, FeltIsZeroError>)
    requires
        a@ < prime(),
    ensures
        r is Ok <==> a@ != 0,
        r matches Ok(d) ==> d@ == a@,
{
    let x = Felt::from_bytes_be_slice(&[a.hi.to_be_bytes(), a.lo.to_be_bytes()].concat());
    match NonZeroFelt::try_from(&x) {
        Ok(d) => {
            let z = Felt::from(d).to_bytes_be();
            Ok(NonZeroFieldElement {
                value: FieldElement {
                    hi: u128::from_be_bytes(z[..16].try_into().unwrap()),
                    lo: u128::from_be_bytes(z[16..].try_into().unwrap()),
                },
            })
        },
        Err(e) => Err(e),
    }
}

/// Calls `Zero::is_zero` on a `Felt`: whether a canonical element is the zero of the field.
#[verifier::external_body]
fn felt_is_zero(a: &FieldElement) -> (r: bool)
    requires
        a@ < prime(),
    ensures
        r <==> a@ == 0,
{
    Felt::from_bytes_be_slice(&[a.hi.to_be_bytes(), a.lo.to_be_bytes()].concat()).is_zero()
}

/// Calls `ToPrimitive::to_u64` on a `Felt`: the representative of a canonical element, if it
/// fits in 64 bits.
#[verifier::external_body]
fn felt_to_u64(a: &FieldElement) -> (r: Option<u64>)
    requires
        a@ < prime(),
    ensures
        r == (if a@ <= u64::MAX {
            Some(a@ as u64)
        } else {
            None
        }),
{
    Felt::from_bytes_be_slice(&[a.hi.to_be_bytes(), a.lo.to_be_bytes()].concat()).to_u64()
}

/// Calls `ToPrimitive::to_usize` on a `Felt`: the representative of a canonical element, if
/// it fits in a `usize`.
#[verifier::external_body]
fn felt_to_usize(a: &FieldElement) -> (r: Option<usize>)
    requires
        a@ < prime(),
    ensures
        r == (if a@ <= usize::MAX {
            Some(a@ as usize)
        } else {
            None
        }),
{
    Felt::from_bytes_be_slice(&[a.hi.to_be_bytes(), a.lo.to_be_bytes()].concat()).to_usize()
}

} // verus!
