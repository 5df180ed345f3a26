//! Prime-field elements for the Poseidon gadget.
//!
//! A `FieldElem` holds the canonical 32-byte little-endian encoding of one
//! element of the Pallas base field. All arithmetic is delegated to the
//! `pasta_curves` implementation that `halo2_proofs` re-exports; the results
//! of those calls are named by uninterpreted spec functions, and every
//! formula of this crate is stated over those names.

use vstd::prelude::*;

use ff::PrimeField;
use halo2_proofs::pasta::Fp;

verus! {

/// What `<Fp as ff::PrimeField>::from_repr` accepts: whether these 32 bytes
/// are the canonical little-endian encoding of a field element, that is an
/// integer below the field modulus.
pub uninterp spec fn canonical_of(b: Seq<u8>) -> bool;

/// The canonical encoding of the field element that `<Fp as From<u64>>::from`
/// builds for a 64-bit integer.
pub uninterp spec fn from_u64_of(x: u64) -> Seq<u8>;

/// The canonical encoding of the sum of the two field elements encoded by the
/// arguments.
pub uninterp spec fn add_of(a: Seq<u8>, b: Seq<u8>) -> Seq<u8>;

/// The canonical encoding of the product of the two field elements encoded by
/// the arguments.
pub uninterp spec fn mul_of(a: Seq<u8>, b: Seq<u8>) -> Seq<u8>;

/// The encoding of the additive identity.
pub open spec fn zero_bytes() -> Seq<u8> {
    from_u64_of(0)
}

/// One prime-field element, held as its canonical 32-byte encoding.
///
/// The field is private: every `FieldElem` is produced by one of the trusted
/// constructors in this module, each of which stores either a `to_repr`
/// output or bytes that `from_repr` accepted, so the bytes of every value of
/// this type encode a field element.
#[derive(Clone, Copy, PartialEq, Eq, Debug)]
pub struct FieldElem {
    repr: [u8; 32],
}

impl View for FieldElem {
    type V = Seq<u8>;

    closed spec fn view(&self) -> Seq<u8> {
        self.repr@
    }
}

/// Relies on `<Fp as From<u64>>::from`, which builds the field element for a
/// 64-bit integer; `to_repr` converts it to its canonical encoding.
#[verifier::external_body]
fn fe_from_u64(x: u64) -> (r: FieldElem)
    ensures
        r@ == from_u64_of(x),
{
    FieldElem { repr: Fp::from(x).to_repr() }
}

/// Relies on the field addition of `pasta_curves` (`Add` for `Fp`);
/// `from_repr` and `to_repr` convert between the canonical encoding and the
/// element. The `repr` bytes of a `FieldElem` always encode an element, so
/// the `from_repr` calls cannot fail.
#[verifier::external_body]
fn fe_add(a: &FieldElem, b: &FieldElem) -> (r: FieldElem)
    ensures
        r@ == add_of(a@, b@),
{
    let x = Fp::from_repr(a.repr).unwrap();
    let y = Fp::from_repr(b.repr).unwrap();
    FieldElem { repr: (x + y).to_repr() }
}

/// Relies on the field multiplication of `pasta_curves` (`Mul` for `Fp`);
/// `from_repr` and `to_repr` convert between the canonical encoding and the
/// element. The `repr` bytes of a `FieldElem` always encode an element, so
/// the `from_repr` calls cannot fail.
#[verifier::external_body]
fn fe_mul(a: &FieldElem, b: &FieldElem) -> (r: FieldElem)
    ensures
        r@ == mul_of(a@, b@),
{
    let x = Fp::from_repr(a.repr).unwrap();
    let y = Fp::from_repr(b.repr).unwrap();
    FieldElem { repr: (x * y).to_repr() }
}

/// Relies on `<Fp as ff::PrimeField>::from_repr`: it accepts exactly the
/// canonical encodings, the little-endian integers below the modulus.
#[verifier::external_body]
fn fe_from_bytes(b: &[u8; 32]) -> (r: Option<FieldElem>)
    ensures
        r is Some <==> canonical_of(b@),
        r is Some ==> r->0@ == b@,
{
    let parsed = Fp::from_repr(*b);
    if bool::from(parsed.is_some()) {
        Some(FieldElem { repr: *b })
    } else {
        None
    }
}

/// The S-box of the permutation: exponentiation by five, computed as two
/// squarings and one multiplication.
pub open spec fn sbox_of(x: Seq<u8>) -> Seq<u8> {
    mul_of(mul_of(mul_of(x, x), mul_of(x, x)), x)
}

impl FieldElem {
    /// The field element for a 64-bit integer.
    pub fn from_u64(x: u64) -> (r: FieldElem)
        ensures
            r@ == from_u64_of(x),
    {
        fe_from_u64(x)
    }

    /// The additive identity.
    pub fn zero() -> (r: FieldElem)
        ensures
            r@ == zero_bytes(),
    {
        fe_from_u64(0)
    }

    /// The field element encoded by 32 canonical little-endian bytes, or
    /// `None` where the bytes do not encode an element.
    pub fn from_canonical_bytes(b: &[u8; 32]) -> (r: Option<FieldElem>)
        ensures
            r is Some <==> canonical_of(b@),
            r is Some ==> r->0@ == b@,
    {
        fe_from_bytes(b)
    }

    /// The canonical encoding of this element.
    pub fn to_bytes(&self) -> (r: [u8; 32])
        ensures
            r@ == self@,
    {
        self.repr
    }

    /// Field addition.
    pub fn add(&self, other: &FieldElem) -> (r: FieldElem)
        ensures
            r@ == add_of(self@, other@),
    {
        fe_add(self, other)
    }

    /// Field multiplication.
    pub fn mul(&self, other: &FieldElem) -> (r: FieldElem)
        ensures
            r@ == mul_of(self@, other@),
    {
        fe_mul(self, other)
    }

    /// The S-box `x^5`, computed as two squarings and one multiplication.
    pub fn sbox(&self) -> (r: FieldElem)
        ensures
            r@ == sbox_of(self@),
    {
        let x2 = fe_mul(self, self);
        let x4 = fe_mul(&x2, &x2);
        fe_mul(&x4, self)
    }
}

/// Adds two possibly-unknown words. A cell's value may be deferred during
/// circuit-shape analysis; arithmetic on an unknown value yields unknown.
pub fn add_values(a: &Option<FieldElem>, b: &Option<FieldElem>) -> (r: Option<FieldElem>)
    ensures
        a is Some && b is Some ==> r is Some && r->0@ == add_of(a->0@, b->0@),
        a is None || b is None ==> r is None,
{
    match (a, b) {
        (Some(x), Some(y)) => Some(fe_add(x, y)),
        _ => None,
    }
}

} // verus!
