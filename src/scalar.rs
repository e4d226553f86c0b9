//! Field elements of the BN254 scalar field and their canonical 256-bit integer form.

use vstd::prelude::*;

use crate::error::CoreError;

verus! {

/// The radix of a limb: two to the sixty-fourth.
pub open spec fn limb_base() -> nat {
    0x1_0000_0000_0000_0000nat
}

/// Least significant limb of the field modulus.
pub const MODULUS_L0: u64 = 0x43e1f593f0000001;

/// Second limb of the field modulus.
pub const MODULUS_L1: u64 = 0x2833e84879b97091;

/// Third limb of the field modulus.
pub const MODULUS_L2: u64 = 0xb85045b68181585d;

/// Most significant limb of the field modulus.
pub const MODULUS_L3: u64 = 0x30644e72e131a029;

/// A 256-bit unsigned integer, as four 64-bit limbs, least significant first.
#[derive(Clone, Copy, Debug, PartialEq, Eq, Structural)]
pub struct U256 {
    pub l0: u64,
    pub l1: u64,
    pub l2: u64,
    pub l3: u64,
}

/// The integer that four limbs denote, least significant first.
pub open spec fn limbs_value(l0: u64, l1: u64, l2: u64, l3: u64) -> nat {
    l0 as nat + limb_base() * (l1 as nat + limb_base() * (l2 as nat + limb_base() * (l3 as nat)))
}

impl U256 {
    /// The integer this value denotes.
    pub open spec fn value(self) -> nat {
        limbs_value(self.l0, self.l1, self.l2, self.l3)
    }

    /// The integer `v`.
    pub fn from_u64(v: u64) -> (r: U256)
        ensures
            r.value() == v,
    {
        U256 { l0: v, l1: 0, l2: 0, l3: 0 }
    }
}

/// The order of the BN254 scalar field.
pub open spec fn modulus() -> nat {
    limbs_value(MODULUS_L0, MODULUS_L1, MODULUS_L2, MODULUS_L3)
}

/// Comparing two numbers written in radix `limb_base()` goes by the high part first.
proof fn lemma_radix_lt(a0: nat, ah: nat, b0: nat, bh: nat)
    requires
        a0 < limb_base(),
        b0 < limb_base(),
    ensures
        (a0 + limb_base() * ah < b0 + limb_base() * bh) <==> (ah < bh || (ah == bh && a0 < b0)),
{
    let b = limb_base();
    if ah < bh {
        assert(a0 + b * ah < b0 + b * bh) by (nonlinear_arith)
            requires
                a0 < b,
                ah < bh,
        ;
    } else if ah > bh {
        assert(a0 + b * ah >= b0 + b * bh) by (nonlinear_arith)
            requires
                b0 < b,
                ah > bh,
        ;
    }
}

/// Whether `u` is below the field modulus, compared limb by limb from the top.
fn lt_modulus(u: U256) -> (r: bool)
    ensures
        r == (u.value() < modulus()),
{
    let ghost b = limb_base();
    let ghost h2u = u.l2 as nat + b * (u.l3 as nat);
    let ghost h2m = MODULUS_L2 as nat + b * (MODULUS_L3 as nat);
    let ghost h1u = u.l1 as nat + b * h2u;
    let ghost h1m = MODULUS_L1 as nat + b * h2m;
    proof {
        lemma_radix_lt(u.l2 as nat, u.l3 as nat, MODULUS_L2 as nat, MODULUS_L3 as nat);
        lemma_radix_lt(u.l1 as nat, h2u, MODULUS_L1 as nat, h2m);
        lemma_radix_lt(u.l0 as nat, h1u, MODULUS_L0 as nat, h1m);
    }
    if u.l3 != MODULUS_L3 {
        u.l3 < MODULUS_L3
    } else if u.l2 != MODULUS_L2 {
        u.l2 < MODULUS_L2
    } else if u.l1 != MODULUS_L1 {
        u.l1 < MODULUS_L1
    } else {
        u.l0 < MODULUS_L0
    }
}

/// An element of the BN254 scalar field, held as its canonical integer.
#[derive(Clone, Copy, Debug, PartialEq, Eq, Structural)]
pub struct Scalar {
    repr: U256,
}

impl Scalar {
    /// The canonical integer of this element: always below the modulus.
    #[verifier::type_invariant]
    spec fn canonical(self) -> bool {
        self.repr.value() < modulus()
    }

    /// The canonical integer form of this element.
    pub closed spec fn word(self) -> U256 {
        self.repr
    }

    /// The element whose canonical integer is `v`.
    pub fn from_u64(v: u64) -> (r: Scalar)
        ensures
            r.word().value() == v,
    {
        let repr = U256::from_u64(v);
        proof {
            lemma_radix_lt(0, 0, MODULUS_L0 as nat, MODULUS_L1 as nat + limb_base() * (
            MODULUS_L2 as nat + limb_base() * (MODULUS_L3 as nat)));
        }
        Scalar { repr }
    }

    /// The element zero.
    pub fn zero() -> (r: Scalar)
        ensures
            r.word().value() == 0,
    {
        Scalar::from_u64(0)
    }

    /// The element one.
    pub fn one() -> (r: Scalar)
        ensures
            r.word().value() == 1,
    {
        Scalar::from_u64(1)
    }
}

impl View for Scalar {
    type V = nat;

    /// The canonical integer of the element.
    closed spec fn view(&self) -> nat {
        self.repr.value()
    }
}

/// The field element an integer denotes, when it is below the modulus.
pub closed spec fn scalar_of(u: U256) -> Option<Scalar> {
    if u.value() < modulus() {
        Some(Scalar { repr: u })
    } else {
        None
    }
}

/// Converts a 256-bit integer to a field element; fails when the integer is not below the modulus.
pub fn u256_to_scalar(u: U256) -> (r: Result<Scalar, CoreError>)
    ensures
        r is Ok <==> u.value() < modulus(),
        r is Ok ==> scalar_of(u) == Some(r->Ok_0),
        r is Err ==> scalar_of(u) is None,
        r is Err ==> r->Err_0 == CoreError::ScalarConversionFailed,
{
    if lt_modulus(u) {
        Ok(Scalar { repr: u })
    } else {
        Err(CoreError::ScalarConversionFailed)
    }
}

/// The canonical 256-bit integer of a field element.
pub fn scalar_to_u256(s: Scalar) -> (r: U256)
    ensures
        r == s.word(),
        r.value() == s@,
        r.value() < modulus(),
{
    proof {
        use_type_invariant(s);
    }
    s.repr
}

/// Every integer below the modulus denotes a field element whose canonical integer is that
/// integer again; no integer at or above the modulus denotes one; and every field element
/// is denoted by its own canonical integer.
pub proof fn lemma_codec_round_trip(u: U256, s: Scalar)
    requires
        s.word().value() < modulus(),
    ensures
        u.value() < modulus() ==> scalar_of(u) is Some && scalar_of(u)->0.word() == u,
        u.value() >= modulus() ==> scalar_of(u) is None,
        scalar_of(s.word()) == Some(s),
{
}

} // verus!
