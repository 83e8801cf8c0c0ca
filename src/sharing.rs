//! XOR secret sharing of single bits, Beaver triples, and the local share
//! computation of one secure AND.
use rand::Rng;
use vstd::prelude::*;

verus! {

/// The wire form of a bit.
pub open spec fn bit_of(b: bool) -> u8 {
    if b {
        1
    } else {
        0
    }
}

/// Exclusive or, the addition of GF(2).
pub open spec fn xor(a: bool, b: bool) -> bool {
    a != b
}

pub fn to_wire(b: bool) -> (r: u8)
    ensures
        r == bit_of(b),
{
    if b {
        1
    } else {
        0
    }
}

/// Relies on rand's `thread_rng().gen_range(0..=1)`: a sample of the inclusive range 0..=1.
#[verifier::external_body]
pub(crate) fn random_bit() -> (r: u8)
    ensures
        r <= 1,
{
    rand::thread_rng().gen_range(0..=1u8)
}

/// A secret bit held as two shares, one per party, whose exclusive or is the bit.
#[derive(Debug, Clone, Copy)]
pub struct SecretSharingPair {
    pub alice: bool,
    pub bob: bool,
}

/// The sharing of `value` in which Alice's share is `mask`.
pub open spec fn shared_with(value: u8, mask: u8) -> SecretSharingPair {
    SecretSharingPair { alice: mask == 1, bob: xor(mask == 1, value == 1) }
}

impl SecretSharingPair {
    /// The bit that the two shares reconstruct to.
    pub open spec fn secret(self) -> bool {
        xor(self.alice, self.bob)
    }

    /// Splits `value` with `mask` as Alice's share.
    pub fn split(value: u8, mask: u8) -> (r: SecretSharingPair)
        requires
            value <= 1,
            mask <= 1,
        ensures
            r == shared_with(value, mask),
    {
        let alice = mask == 1;
        SecretSharingPair { alice, bob: alice != (value == 1) }
    }

    /// Splits `value` under a fresh uniformly drawn mask.
    pub fn new(value: u8) -> (r: SecretSharingPair)
        requires
            value <= 1,
        ensures
            exists|mask: u8| mask <= 1 && r == shared_with(value, mask),
            bit_of(r.secret()) == value,
    {
        let mask = random_bit();
        SecretSharingPair::split(value, mask)
    }

    /// Reconstructs the shared bit.
    pub fn value(&self) -> (r: u8)
        ensures
            r == bit_of(self.secret()),
    {
        to_wire(self.alice != self.bob)
    }
}

/// Reconstructing a freshly shared bit gives the bit back, whatever the mask.
pub proof fn lemma_share_reconstruction(x: u8, mask: u8)
    requires
        x <= 1,
        mask <= 1,
    ensures
        bit_of(shared_with(x, mask).secret()) == x,
{
}

/// One party's half of a Beaver triple `(u, v, w)` with `w = u AND v`.
#[derive(Debug, Clone, Copy)]
pub struct RandomnessTriple {
    pub u: bool,
    pub v: bool,
    pub w: bool,
}

/// The two halves reconstruct to a triple whose third bit is the AND of the first two.
pub open spec fn is_beaver_pair(a: RandomnessTriple, b: RandomnessTriple) -> bool {
    (xor(a.u, b.u) && xor(a.v, b.v)) == xor(a.w, b.w)
}

/// Five triples per party, the halves at each index forming a Beaver triple.
pub open spec fn is_beaver_supply(a: Seq<RandomnessTriple>, b: Seq<RandomnessTriple>) -> bool {
    &&& a.len() == 5
    &&& b.len() == 5
    &&& forall|i: int| 0 <= i < 5 ==> #[trigger] is_beaver_pair(a[i], b[i])
}

/// A party's share of `x AND y` given its shares `x`, `y`, `w` and the opened
/// `d = x XOR u`, `e = y XOR v`; exactly one party (the `leader`) adds `e AND d`.
pub open spec fn product_share(w: bool, x: bool, y: bool, d: bool, e: bool, leader: bool) -> bool {
    xor(xor(xor(w, e && x), d && y), leader && e && d)
}

/// Computes the local share of one Beaver multiplication.
pub fn beaver_product(w: bool, x: bool, y: bool, d: bool, e: bool, leader: bool) -> (r: bool)
    ensures
        r == product_share(w, x, y, d, e, leader),
{
    let z = (w != (e && x)) != (d && y);
    if leader {
        z != (e && d)
    } else {
        z
    }
}

/// Secure AND: with the opened `d` and `e` formed from both parties' shares, the
/// leader's and the follower's product shares reconstruct to `x AND y`.
pub proof fn lemma_secure_and(
    x: SecretSharingPair,
    y: SecretSharingPair,
    ta: RandomnessTriple,
    tb: RandomnessTriple,
)
    requires
        is_beaver_pair(ta, tb),
    ensures
        ({
            let d = xor(xor(x.alice, ta.u), xor(x.bob, tb.u));
            let e = xor(xor(y.alice, ta.v), xor(y.bob, tb.v));
            xor(
                product_share(ta.w, x.alice, y.alice, d, e, true),
                product_share(tb.w, x.bob, y.bob, d, e, false),
            ) == (x.secret() && y.secret())
        }),
{
}

} // verus!
