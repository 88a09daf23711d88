use cairo_vm_core::field::FieldElement;
use starknet_types_core::felt::Felt;

const PRIME_HI: u128 = 0x0800_0000_0000_0011_0000_0000_0000_0000;

fn element(hi: u128, lo: u128) -> FieldElement {
    FieldElement::new(hi, lo).expect("a canonical representative")
}

fn to_felt(x: &FieldElement) -> Felt {
    let mut bytes = [0u8; 32];
    bytes[..16].copy_from_slice(&x.high().to_be_bytes());
    bytes[16..].copy_from_slice(&x.low().to_be_bytes());
    Felt::from_bytes_be(&bytes)
}

fn from_felt(x: &Felt) -> FieldElement {
    let bytes = x.to_bytes_be();
    element(
        u128::from_be_bytes(bytes[..16].try_into().unwrap()),
        u128::from_be_bytes(bytes[16..].try_into().unwrap()),
    )
}

#[test]
fn zero_plus_zero_is_zero() {
    let z = FieldElement::zero();
    assert_eq!(z.add(&z), FieldElement::zero());
    assert_eq!(z.high(), 0);
    assert_eq!(z.low(), 0);
}

#[test]
fn new_accepts_representatives_below_the_prime_only() {
    assert!(FieldElement::new(0, 0).is_some());
    assert!(FieldElement::new(PRIME_HI, 0).is_some());
    assert!(FieldElement::new(PRIME_HI - 1, u128::MAX).is_some());
    assert!(FieldElement::new(PRIME_HI, 1).is_none());
    assert!(FieldElement::new(PRIME_HI, 2).is_none());
    assert!(FieldElement::new(PRIME_HI + 1, 0).is_none());
    assert!(FieldElement::new(u128::MAX, u128::MAX).is_none());
}

#[test]
fn halves_are_kept() {
    let x = element(5, 9);
    assert_eq!(x.high(), 5);
    assert_eq!(x.low(), 9);
    let y = FieldElement::from_u64(u64::MAX);
    assert_eq!(y.high(), 0);
    assert_eq!(y.low(), u64::MAX as u128);
    let z = FieldElement::from_usize(usize::MAX);
    assert_eq!(z.high(), 0);
    assert_eq!(z.low(), usize::MAX as u128);
}

#[test]
fn small_sums_and_products() {
    let a = FieldElement::from_u64(7);
    let b = FieldElement::from_u64(5);
    assert_eq!(a.add(&b), FieldElement::from_u64(12));
    assert_eq!(a.sub(&b), FieldElement::from_u64(2));
    assert_eq!(a.mul(&b), FieldElement::from_u64(35));
}

#[test]
fn sum_carries_into_the_high_half() {
    let a = element(0, u128::MAX);
    let one = FieldElement::from_u64(1);
    assert_eq!(a.add(&one), element(1, 0));
}

#[test]
fn sum_wraps_at_the_prime() {
    let max = element(PRIME_HI, 0);
    let one = FieldElement::from_u64(1);
    assert_eq!(max.add(&one), FieldElement::zero());
    assert_eq!(max.add(&max), element(PRIME_HI - 1, u128::MAX));
}

#[test]
fn difference_wraps_below_zero() {
    let five = FieldElement::from_u64(5);
    let seven = FieldElement::from_u64(7);
    // 5 - 7 = p - 2
    assert_eq!(five.sub(&seven), element(PRIME_HI - 1, u128::MAX));
    assert_eq!(FieldElement::zero().sub(&FieldElement::from_u64(1)), element(PRIME_HI, 0));
}

#[test]
fn product_wraps_at_the_prime() {
    // (p - 1) * (p - 1) = 1
    let max = element(PRIME_HI, 0);
    assert_eq!(max.mul(&max), FieldElement::from_u64(1));
    // (p - 1) * 2 = p - 2
    assert_eq!(max.mul(&FieldElement::from_u64(2)), element(PRIME_HI - 1, u128::MAX));
    // 2^64 * 2^64 = 2^128
    let big = element(0, 1u128 << 64);
    assert_eq!(big.mul(&big), element(1, 0));
}

#[test]
fn quotient_times_divisor_is_dividend() {
    let a = FieldElement::from_u64(35);
    let d = FieldElement::from_u64(5).non_zero().expect("five is not zero");
    assert_eq!(d.get(), FieldElement::from_u64(5));
    assert_eq!(a.field_div(&d), FieldElement::from_u64(7));
    // 1 / 2 = (p + 1) / 2
    let one = FieldElement::from_u64(1);
    let two = FieldElement::from_u64(2).non_zero().expect("two is not zero");
    let inverse = one.field_div(&two);
    assert_eq!(inverse, element(PRIME_HI / 2, 1));
    assert_eq!(inverse.mul(&FieldElement::from_u64(2)), one);
}

#[test]
fn zero_is_no_divisor() {
    assert!(FieldElement::zero().non_zero().is_err());
    assert!(FieldElement::from_u64(1).non_zero().is_ok());
    assert!(element(PRIME_HI, 0).non_zero().is_ok());
}

#[test]
fn only_zero_is_zero() {
    assert!(FieldElement::zero().is_zero());
    assert!(!FieldElement::from_u64(1).is_zero());
    assert!(!element(1, 0).is_zero());
    assert!(!element(PRIME_HI, 0).is_zero());
}

#[test]
fn narrowing_to_u64() {
    assert_eq!(FieldElement::zero().to_u64(), Some(0));
    assert_eq!(FieldElement::from_u64(7).to_u64(), Some(7));
    assert_eq!(FieldElement::from_u64(u64::MAX).to_u64(), Some(u64::MAX));
    assert_eq!(element(0, 1u128 << 64).to_u64(), None);
    assert_eq!(element(1, 0).to_u64(), None);
    assert_eq!(element(1, 7).to_u64(), None);
    assert_eq!(element(PRIME_HI, 0).to_u64(), None);
}

#[test]
fn narrowing_to_usize() {
    assert_eq!(FieldElement::zero().to_usize(), Some(0));
    assert_eq!(FieldElement::from_u64(7).to_usize(), Some(7));
    assert_eq!(FieldElement::from_usize(usize::MAX).to_usize(), Some(usize::MAX));
    assert_eq!(element(0, (usize::MAX as u128) + 1).to_usize(), None);
    assert_eq!(element(1, 3).to_usize(), None);
}

#[test]
fn agrees_with_the_field_of_the_outside_crate() {
    let samples = [
        FieldElement::zero(),
        FieldElement::from_u64(1),
        FieldElement::from_u64(u64::MAX),
        element(0, u128::MAX),
        element(1, 0),
        element(0x0123_4567_89ab_cdef_0011_2233_4455_6677, 0x8899_aabb_ccdd_eeff_0f1e_2d3c_4b5a_6978),
        element(PRIME_HI - 1, u128::MAX),
        element(PRIME_HI, 0),
    ];
    for a in samples.iter() {
        assert_eq!(from_felt(&to_felt(a)), *a);
        for b in samples.iter() {
            assert_eq!(a.add(b), from_felt(&(to_felt(a) + to_felt(b))));
            assert_eq!(a.sub(b), from_felt(&(to_felt(a) - to_felt(b))));
            assert_eq!(a.mul(b), from_felt(&(to_felt(a) * to_felt(b))));
            if let Ok(d) = b.non_zero() {
                let q = a.field_div(&d);
                assert_eq!(q.mul(b), *a);
            } else {
                assert!(b.is_zero());
            }
        }
    }
}

#[test]
fn constants_of_the_prime() {
    assert_eq!(cairo_vm_core::field::PRIME_HI, PRIME_HI);
    assert_eq!(cairo_vm_core::field::PRIME_LO, 1);
    // The largest element is the one that the outside crate calls its maximum.
    assert_eq!(from_felt(&Felt::MAX), element(PRIME_HI, 0));
}
