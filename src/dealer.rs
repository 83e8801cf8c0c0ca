//! The trusted dealer, which hands each party its halves of five Beaver triples.
use vstd::prelude::*;

use crate::sharing::{
    is_beaver_pair, is_beaver_supply, random_bit, shared_with, RandomnessTriple,
    SecretSharingPair,
};

verus! {

/// The two halves of the triple `(u, v, u AND v)`, split under the masks of `u`, `v` and `w`.
pub open spec fn dealt(u: u8, v: u8, mask_u: u8, mask_v: u8, mask_w: u8) -> (
    RandomnessTriple,
    RandomnessTriple,
) {
    let su = shared_with(u, mask_u);
    let sv = shared_with(v, mask_v);
    let sw = shared_with(if u == 1 && v == 1 { 1 } else { 0 }, mask_w);
    (
        RandomnessTriple { u: su.alice, v: sv.alice, w: sw.alice },
        RandomnessTriple { u: su.bob, v: sv.bob, w: sw.bob },
    )
}

/// Builds the two halves of one triple from its bits `u`, `v` and the three masks.
pub fn deal(u: u8, v: u8, mask_u: u8, mask_v: u8, mask_w: u8) -> (r: (
    RandomnessTriple,
    RandomnessTriple,
))
    requires
        u <= 1,
        v <= 1,
        mask_u <= 1,
        mask_v <= 1,
        mask_w <= 1,
    ensures
        r == dealt(u, v, mask_u, mask_v, mask_w),
        is_beaver_pair(r.0, r.1),
{
    let w: u8 = if u == 1 && v == 1 {
        1
    } else {
        0
    };
    let su = SecretSharingPair::split(u, mask_u);
    let sv = SecretSharingPair::split(v, mask_v);
    let sw = SecretSharingPair::split(w, mask_w);
    (
        RandomnessTriple { u: su.alice, v: sv.alice, w: sw.alice },
        RandomnessTriple { u: su.bob, v: sv.bob, w: sw.bob },
    )
}

/// Some bits and masks that `dealt` turns into the halves `t`.
pub open spec fn is_dealt(t: (RandomnessTriple, RandomnessTriple)) -> bool {
    exists|u: u8, v: u8, mask_u: u8, mask_v: u8, mask_w: u8|
        u <= 1 && v <= 1 && mask_u <= 1 && mask_v <= 1 && mask_w <= 1 && t == dealt(
            u,
            v,
            mask_u,
            mask_v,
            mask_w,
        )
}

/// Draws uniform bits `u`, `v` and the masks of `u`, `v`, `w`.
fn draw() -> (r: (u8, u8, u8, u8, u8))
    ensures
        r.0 <= 1 && r.1 <= 1 && r.2 <= 1 && r.3 <= 1 && r.4 <= 1,
{
    (random_bit(), random_bit(), random_bit(), random_bit(), random_bit())
}

pub struct TrustedDealer {
    randomness_for_alice: [RandomnessTriple; 5],
    randomness_for_bob: [RandomnessTriple; 5],
}

impl TrustedDealer {
    /// Alice's halves, by triple index.
    pub closed spec fn alice_half(self) -> Seq<RandomnessTriple> {
        self.randomness_for_alice@
    }

    /// Bob's halves, by triple index.
    pub closed spec fn bob_half(self) -> Seq<RandomnessTriple> {
        self.randomness_for_bob@
    }

    /// Every index holds a Beaver triple split between the two parties.
    pub open spec fn wf(self) -> bool {
        is_beaver_supply(self.alice_half(), self.bob_half())
    }

    /// A dealer holding the all-zero triple at every index.
    pub fn new() -> (r: TrustedDealer)
        ensures
            r.wf(),
            forall|i: int|
                0 <= i < 5 ==> #[trigger] r.alice_half()[i] == (RandomnessTriple {
                    u: false,
                    v: false,
                    w: false,
                }) && r.bob_half()[i] == (RandomnessTriple { u: false, v: false, w: false }),
    {
        let zero = RandomnessTriple { u: false, v: false, w: false };
        TrustedDealer {
            randomness_for_alice: [zero, zero, zero, zero, zero],
            randomness_for_bob: [zero, zero, zero, zero, zero],
        }
    }

    /// Fills slot `i` with the triple that `deal` builds from `draws[i]`:
    /// the bits `u`, `v` and the masks of `u`, `v`, `w`, in that order.
    pub fn init_with_draws(&mut self, draws: [(u8, u8, u8, u8, u8); 5])
        requires
            forall|i: int|
                0 <= i < 5 ==> (#[trigger] draws[i]).0 <= 1 && draws[i].1 <= 1 && draws[i].2 <= 1
                    && draws[i].3 <= 1 && draws[i].4 <= 1,
        ensures
            final(self).wf(),
            forall|i: int|
                0 <= i < 5 ==> (#[trigger] final(self).alice_half()[i], final(self).bob_half()[i])
                    == dealt(draws[i].0, draws[i].1, draws[i].2, draws[i].3, draws[i].4),
    {
        let d0 = draws[0];
        let d1 = draws[1];
        let d2 = draws[2];
        let d3 = draws[3];
        let d4 = draws[4];
        let t0 = deal(d0.0, d0.1, d0.2, d0.3, d0.4);
        let t1 = deal(d1.0, d1.1, d1.2, d1.3, d1.4);
        let t2 = deal(d2.0, d2.1, d2.2, d2.3, d2.4);
        let t3 = deal(d3.0, d3.1, d3.2, d3.3, d3.4);
        let t4 = deal(d4.0, d4.1, d4.2, d4.3, d4.4);
        self.randomness_for_alice = [t0.0, t1.0, t2.0, t3.0, t4.0];
        self.randomness_for_bob = [t0.1, t1.1, t2.1, t3.1, t4.1];
        assert(self.alice_half()[0] == t0.0 && self.bob_half()[0] == t0.1);
        assert(self.alice_half()[1] == t1.0 && self.bob_half()[1] == t1.1);
        assert(self.alice_half()[2] == t2.0 && self.bob_half()[2] == t2.1);
        assert(self.alice_half()[3] == t3.0 && self.bob_half()[3] == t3.1);
        assert(self.alice_half()[4] == t4.0 && self.bob_half()[4] == t4.1);
    }

    /// Draws five fresh independent triples.
    pub fn init(&mut self)
        ensures
            final(self).wf(),
            forall|i: int|
                0 <= i < 5 ==> is_dealt((#[trigger] final(self).alice_half()[i], final(self).bob_half()[i])),
    {
        let draws = [draw(), draw(), draw(), draw(), draw()];
        self.init_with_draws(draws);
        assert forall|i: int| 0 <= i < 5 implies is_dealt(
            (#[trigger] self.alice_half()[i], self.bob_half()[i]),
        ) by {
            let d = draws[i];
            assert((self.alice_half()[i], self.bob_half()[i]) == dealt(d.0, d.1, d.2, d.3, d.4));
        }
    }

    /// Alice's halves of the five triples.
    pub fn rand_a(&self) -> (r: [RandomnessTriple; 5])
        ensures
            r@ == self.alice_half(),
    {
        self.randomness_for_alice
    }

    /// Bob's halves of the five triples.
    pub fn rand_b(&self) -> (r: [RandomnessTriple; 5])
        ensures
            r@ == self.bob_half(),
    {
        self.randomness_for_bob
    }
}

} // verus!
