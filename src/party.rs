//! The two parties. Each is a round-numbered state machine: Alice speaks first
//! in every round and Bob answers. Over eleven rounds they evaluate five secure
//! ANDs and Alice learns `NAND(a) AND NAND(b) AND NAND(r)` of the two inputs.
use vstd::prelude::*;

use crate::sharing::{
    beaver_product, bit_of, product_share, random_bit, shared_with, to_wire,
    xor, RandomnessTriple, SecretSharingPair,
};

verus! {

/// Input bit "a" (bit 2 of the packed input).
pub open spec fn bit_a(x: u8) -> bool {
    x & 4 != 0
}

/// Input bit "b" (bit 1 of the packed input).
pub open spec fn bit_b(x: u8) -> bool {
    x & 2 != 0
}

/// Input bit "r" (bit 0 of the packed input).
pub open spec fn bit_r(x: u8) -> bool {
    x & 1 != 0
}

/// The round after `p`; past the last round the counter stays put.
pub open spec fn next_round(p: u8) -> u8 {
    if p < 12 {
        (p + 1) as u8
    } else {
        p
    }
}

/// Rounds that open the `d` of an AND.
pub open spec fn opens_d(p: u8) -> bool {
    p == 1 || p == 3 || p == 5 || p == 7 || p == 9
}

fn opens_d_exec(p: u8) -> (r: bool)
    ensures
        r == opens_d(p),
{
    p == 1 || p == 3 || p == 5 || p == 7 || p == 9
}

/// Rounds that open the `e` of an AND.
pub open spec fn opens_e(p: u8) -> bool {
    p == 2 || p == 4 || p == 6 || p == 8 || p == 10
}

pub open spec fn zero_share() -> SecretSharingPair {
    SecretSharingPair { alice: false, bob: false }
}

pub open spec fn zero_triple() -> RandomnessTriple {
    RandomnessTriple { u: false, v: false, w: false }
}

fn zero() -> (r: SecretSharingPair)
    ensures
        r == zero_share(),
{
    SecretSharingPair { alice: false, bob: false }
}

/// Reads a wire bit.
fn from_wire(b: u8) -> (r: bool)
    requires
        b <= 1,
    ensures
        bit_of(r) == b,
{
    b == 1
}

/// The three input bits of `x` shared under `masks`, in the order a, b, r.
pub open spec fn input_sharing(x: u8, masks: (u8, u8, u8)) -> (
    SecretSharingPair,
    SecretSharingPair,
    SecretSharingPair,
) {
    (
        shared_with(bit_of(bit_a(x)), masks.0),
        shared_with(bit_of(bit_b(x)), masks.1),
        shared_with(bit_of(bit_r(x)), masks.2),
    )
}

fn share_inputs(x: u8, masks: (u8, u8, u8)) -> (r: (
    SecretSharingPair,
    SecretSharingPair,
    SecretSharingPair,
))
    requires
        masks.0 <= 1,
        masks.1 <= 1,
        masks.2 <= 1,
    ensures
        r == input_sharing(x, masks),
{
    let a: u8 = if (x & 4) > 0 {
        1
    } else {
        0
    };
    let b: u8 = if (x & 2) > 0 {
        1
    } else {
        0
    };
    let r: u8 = if (x & 1) > 0 {
        1
    } else {
        0
    };
    (
        SecretSharingPair::split(a, masks.0),
        SecretSharingPair::split(b, masks.1),
        SecretSharingPair::split(r, masks.2),
    )
}

/// The faults that the checked methods report instead of a dummy value.
#[derive(Debug, Clone, Copy, PartialEq, Eq, Structural)]
pub enum ProtocolError {
    /// All eleven rounds have been run.
    ProtocolExhausted,
    /// Alice does not hold Bob's share of the result yet.
    OutputNotReady,
    /// `init` has not been called.
    NotInitialized,
}

/// Party A: holds input `x`, opens its shares first in every round, and is the
/// party that adds the cross term of each Beaver product and learns the result.
pub struct Alice {
    randomness_from_dealer: [RandomnessTriple; 5],
    input_alice_a: SecretSharingPair,
    input_alice_b: SecretSharingPair,
    input_alice_r: SecretSharingPair,
    z_1: SecretSharingPair,
    z_2: SecretSharingPair,
    z_3: SecretSharingPair,
    d: SecretSharingPair,
    e: SecretSharingPair,
    alice_share_of_bob_a: bool,
    alice_share_of_bob_b: bool,
    alice_share_of_bob_r: bool,
    progress: u8,
    has_output: bool,
    initialized: bool,
}

impl Alice {
    /// The state of a party that has not been given its input.
    pub closed spec fn fresh() -> Alice {
        Alice {
            randomness_from_dealer: [zero_triple(), zero_triple(), zero_triple(), zero_triple(), zero_triple()],
            input_alice_a: zero_share(),
            input_alice_b: zero_share(),
            input_alice_r: zero_share(),
            z_1: zero_share(),
            z_2: zero_share(),
            z_3: zero_share(),
            d: zero_share(),
            e: zero_share(),
            alice_share_of_bob_a: false,
            alice_share_of_bob_b: false,
            alice_share_of_bob_r: false,
            progress: 0,
            has_output: false,
            initialized: false,
        }
    }

    pub closed spec fn wf(self) -> bool {
        &&& self.progress <= 12
        &&& self.has_output ==> self.progress >= 11
    }

    /// Whether `init` has given the party its input and triples.
    pub closed spec fn is_initialized(self) -> bool {
        self.initialized
    }

    /// The last round begun.
    pub closed spec fn round(self) -> u8 {
        self.progress
    }

    pub closed spec fn has_result(self) -> bool {
        self.has_output
    }

    /// The bit that Alice's two shares of the result reconstruct to.
    pub closed spec fn result(self) -> bool {
        self.z_1.secret()
    }

    /// The state after taking input `x`, shared under `masks`, and the dealer's `randoms`.
    pub closed spec fn loaded(self, x: u8, masks: (u8, u8, u8), randoms: [RandomnessTriple; 5]) -> Alice {
        let s = input_sharing(x, masks);
        Alice {
            randomness_from_dealer: randoms,
            input_alice_a: s.0,
            input_alice_b: s.1,
            input_alice_r: s.2,
            initialized: true,
            ..self
        }
    }

    /// Bob's shares of Alice's input bits a, b, r.
    pub closed spec fn input_share(self) -> (bool, bool, bool) {
        (self.input_alice_a.bob, self.input_alice_b.bob, self.input_alice_r.bob)
    }

    /// The state after learning Alice's shares of Bob's input bits.
    pub closed spec fn with_peer_shares(self, shares: (bool, bool, bool)) -> Alice {
        Alice {
            alice_share_of_bob_a: shares.0,
            alice_share_of_bob_b: shares.1,
            alice_share_of_bob_r: shares.2,
            ..self
        }
    }

    /// The state after masking operands `x`, `y` with triple `i`: `d = x XOR u`, `e = y XOR v`.
    pub closed spec fn masked(self, i: int, x: bool, y: bool) -> Alice {
        let t = self.randomness_from_dealer[i];
        Alice {
            d: SecretSharingPair { alice: xor(x, t.u), ..self.d },
            e: SecretSharingPair { alice: xor(y, t.v), ..self.e },
            ..self
        }
    }

    /// The state after the current round's opening: masks the round's operands.
    pub closed spec fn opened(self) -> Alice {
        let p = self.progress;
        if p == 1 {
            self.masked(0, self.input_alice_a.alice, self.alice_share_of_bob_a)
        } else if p == 3 {
            self.masked(1, self.input_alice_b.alice, self.alice_share_of_bob_b)
        } else if p == 5 {
            self.masked(2, self.input_alice_r.alice, self.alice_share_of_bob_r)
        } else if p == 7 {
            self.masked(3, self.z_1.alice, self.z_2.alice)
        } else if p == 9 {
            self.masked(4, self.z_1.alice, self.z_3.alice)
        } else {
            self
        }
    }

    /// The share that the current round opens: of `d`, of `e`, or in the
    /// last round of the result; else 0.
    pub closed spec fn opened_value(self) -> bool {
        if opens_d(self.progress) {
            self.opened().d.alice
        } else if opens_e(self.progress) {
            self.e.alice
        } else if self.progress == 11 {
            self.z_1.alice
        } else {
            false
        }
    }

    /// The state after `send`.
    pub closed spec fn sent(self) -> Alice {
        Alice { progress: next_round(self.progress), ..self }.opened()
    }

    /// What `send` puts on the wire.
    pub closed spec fn sent_value(self) -> bool {
        Alice { progress: next_round(self.progress), ..self }.opened_value()
    }

    /// Alice's share of the product of the AND of triple `i` on her shares `x`, `y`.
    pub closed spec fn product(self, i: int, x: bool, y: bool) -> bool {
        product_share(
            self.randomness_from_dealer[i].w,
            x,
            y,
            self.d.secret(),
            self.e.secret(),
            true,
        )
    }

    /// The state after `receive` of `input` in the current round.
    pub closed spec fn received(self, input: bool) -> Alice {
        let p = self.progress;
        let s = Alice { e: SecretSharingPair { bob: input, ..self.e }, ..self };
        if opens_d(p) {
            Alice { d: SecretSharingPair { bob: input, ..self.d }, ..self }
        } else if p == 2 {
            let z = !s.product(0, s.input_alice_a.alice, s.alice_share_of_bob_a);
            Alice { z_1: SecretSharingPair { alice: z, ..s.z_1 }, ..s }
        } else if p == 4 {
            let z = !s.product(1, s.input_alice_b.alice, s.alice_share_of_bob_b);
            Alice { z_2: SecretSharingPair { alice: z, ..s.z_2 }, ..s }
        } else if p == 6 {
            let z = !s.product(2, s.input_alice_r.alice, s.alice_share_of_bob_r);
            Alice { z_3: SecretSharingPair { alice: z, ..s.z_3 }, ..s }
        } else if p == 8 {
            let z = s.product(3, s.z_1.alice, s.z_2.alice);
            Alice { z_1: SecretSharingPair { alice: z, ..s.z_1 }, ..s }
        } else if p == 10 {
            let z = s.product(4, s.z_1.alice, s.z_3.alice);
            Alice { z_1: SecretSharingPair { alice: z, ..s.z_1 }, ..s }
        } else if p == 11 && !self.has_output {
            Alice { z_1: SecretSharingPair { bob: input, ..self.z_1 }, has_output: true, ..self }
        } else {
            self
        }
    }

    pub fn new() -> (r: Alice)
        ensures
            r == Alice::fresh(),
            r.wf(),
            r.round() == 0,
            !r.is_initialized(),
            !r.has_result(),
    {
        let zero_triple = RandomnessTriple { u: false, v: false, w: false };
        Alice {
            randomness_from_dealer: [zero_triple, zero_triple, zero_triple, zero_triple, zero_triple],
            input_alice_a: zero(),
            input_alice_b: zero(),
            input_alice_r: zero(),
            z_1: zero(),
            z_2: zero(),
            z_3: zero(),
            d: zero(),
            e: zero(),
            alice_share_of_bob_a: false,
            alice_share_of_bob_b: false,
            alice_share_of_bob_r: false,
            progress: 0,
            has_output: false,
            initialized: false,
        }
    }

    /// Whether the result share of Bob has arrived.
    pub fn has_output(&self) -> (r: bool)
        ensures
            r == self.has_result(),
    {
        self.has_output
    }

    /// Takes input `x` (bits a, b, r at positions 2, 1, 0), shared under `masks`,
    /// and the dealer's triples.
    pub fn init_with_masks(&mut self, x: u8, randoms: [RandomnessTriple; 5], masks: (u8, u8, u8))
        requires
            old(self).wf(),
            masks.0 <= 1,
            masks.1 <= 1,
            masks.2 <= 1,
        ensures
            final(self).wf(),
            final(self).round() == old(self).round(),
            final(self).is_initialized(),
            final(self).has_result() == old(self).has_result(),
            *final(self) == old(self).loaded(x, masks, randoms),
    {
        let s = share_inputs(x, masks);
        self.input_alice_a = s.0;
        self.input_alice_b = s.1;
        self.input_alice_r = s.2;
        self.randomness_from_dealer = randoms;
        self.initialized = true;
    }

    /// Takes input `x` (bits a, b, r at positions 2, 1, 0), shared under fresh
    /// masks, and the dealer's triples.
    pub fn init(&mut self, x: u8, randoms: [RandomnessTriple; 5])
        requires
            old(self).wf(),
        ensures
            final(self).wf(),
            final(self).round() == old(self).round(),
            final(self).is_initialized(),
            final(self).has_result() == old(self).has_result(),
            exists|masks: (u8, u8, u8)|
                masks.0 <= 1 && masks.1 <= 1 && masks.2 <= 1 && *final(self) == old(
                    self,
                ).loaded(x, masks, randoms),
    {
        let masks = draw_masks();
        self.init_with_masks(x, randoms, masks);
    }

    /// Bob's shares of Alice's input bits a, b, r.
    pub fn send_input_share(&self) -> (r: (u8, u8, u8))
        ensures
            r == (bit_of(self.input_share().0), bit_of(self.input_share().1), bit_of(
                self.input_share().2,
            )),
    {
        (to_wire(self.input_alice_a.bob), to_wire(self.input_alice_b.bob), to_wire(self.input_alice_r.bob))
    }

    /// Takes Alice's shares of Bob's input bits a, b, r.
    pub fn receive_input_share(&mut self, shares: (u8, u8, u8))
        requires
            old(self).wf(),
            shares.0 <= 1,
            shares.1 <= 1,
            shares.2 <= 1,
        ensures
            final(self).wf(),
            final(self).round() == old(self).round(),
            final(self).is_initialized() == old(self).is_initialized(),
            final(self).has_result() == old(self).has_result(),
            *final(self) == old(self).with_peer_shares((shares.0 == 1, shares.1 == 1, shares.2 == 1)),
    {
        self.alice_share_of_bob_a = from_wire(shares.0);
        self.alice_share_of_bob_b = from_wire(shares.1);
        self.alice_share_of_bob_r = from_wire(shares.2);
    }

    /// Begins the next round and returns the share that it opens.
    pub fn send(&mut self) -> (r: u8)
        requires
            old(self).wf(),
        ensures
            final(self).wf(),
            *final(self) == old(self).sent(),
            final(self).round() == next_round(old(self).round()),
            final(self).is_initialized() == old(self).is_initialized(),
            r == bit_of(old(self).sent_value()),
            old(self).has_result() ==> final(self).has_result() && final(self).result()
                == old(self).result(),
    {
        if self.progress < 12 {
            self.progress = self.progress + 1;
        }
        let p = self.progress;
        if p == 1 || p == 3 || p == 5 {
            self.open_first_layer();
            to_wire(self.d.alice)
        } else if p == 7 || p == 9 {
            self.open_second_layer();
            to_wire(self.d.alice)
        } else if p == 2 || p == 4 || p == 6 || p == 8 || p == 10 {
            to_wire(self.e.alice)
        } else if p == 11 {
            to_wire(self.z_1.alice)
        } else {
            0
        }
    }

    /// Rounds 1, 3, 5: masks the operands of the AND on input bit a, b or r.
    fn open_first_layer(&mut self)
        requires
            old(self).progress == 1 || old(self).progress == 3 || old(self).progress == 5,
        ensures
            *final(self) == old(self).opened(),
    {
        let p = self.progress;
        if p == 1 {
            let t = self.randomness_from_dealer[0];
            self.d = SecretSharingPair { alice: self.input_alice_a.alice != t.u, bob: self.d.bob };
            self.e = SecretSharingPair { alice: self.alice_share_of_bob_a != t.v, bob: self.e.bob };
        } else if p == 3 {
            let t = self.randomness_from_dealer[1];
            self.d = SecretSharingPair { alice: self.input_alice_b.alice != t.u, bob: self.d.bob };
            self.e = SecretSharingPair { alice: self.alice_share_of_bob_b != t.v, bob: self.e.bob };
        } else {
            let t = self.randomness_from_dealer[2];
            self.d = SecretSharingPair { alice: self.input_alice_r.alice != t.u, bob: self.d.bob };
            self.e = SecretSharingPair { alice: self.alice_share_of_bob_r != t.v, bob: self.e.bob };
        }
    }

    /// Rounds 7, 9: masks `z_1` and `z_2`, then `z_1` and `z_3`.
    fn open_second_layer(&mut self)
        requires
            old(self).progress == 7 || old(self).progress == 9,
        ensures
            *final(self) == old(self).opened(),
    {
        let p = self.progress;
        if p == 7 {
            let t = self.randomness_from_dealer[3];
            self.d = SecretSharingPair { alice: self.z_1.alice != t.u, bob: self.d.bob };
            self.e = SecretSharingPair { alice: self.z_2.alice != t.v, bob: self.e.bob };
        } else {
            let t = self.randomness_from_dealer[4];
            self.d = SecretSharingPair { alice: self.z_1.alice != t.u, bob: self.d.bob };
            self.e = SecretSharingPair { alice: self.z_3.alice != t.v, bob: self.e.bob };
        }
    }

    /// Takes Bob's message of the current round.
    pub fn receive(&mut self, input: u8)
        requires
            old(self).wf(),
            input <= 1,
        ensures
            final(self).wf(),
            *final(self) == old(self).received(input == 1),
            final(self).round() == old(self).round(),
            final(self).is_initialized() == old(self).is_initialized(),
            old(self).has_result() ==> *final(self) == *old(self),
    {
        let p = self.progress;
        let bit = from_wire(input);
        if opens_d_exec(p) {
            self.d = SecretSharingPair { alice: self.d.alice, bob: bit };
        } else if p == 2 {
            self.finish_first_layer(bit);
        } else if p == 4 {
            self.finish_first_layer(bit);
        } else if p == 6 {
            self.finish_first_layer(bit);
        } else if p == 8 || p == 10 {
            self.finish_second_layer(bit);
        } else if p == 11 && !self.has_output {
            self.z_1 = SecretSharingPair { alice: self.z_1.alice, bob: bit };
            self.has_output = true;
        }
    }

    /// Rounds 2, 4, 6: completes the AND on input bit a, b or r and negates Alice's share.
    fn finish_first_layer(&mut self, bit: bool)
        requires
            old(self).progress == 2 || old(self).progress == 4 || old(self).progress == 6,
        ensures
            *final(self) == old(self).received(bit),
    {
        let p = self.progress;
        self.e = SecretSharingPair { alice: self.e.alice, bob: bit };
        let d = self.d.alice != self.d.bob;
        let e = self.e.alice != bit;
        if p == 2 {
            let t = self.randomness_from_dealer[0];
            let z = beaver_product(t.w, self.input_alice_a.alice, self.alice_share_of_bob_a, d, e, true);
            self.z_1 = SecretSharingPair { alice: !z, bob: self.z_1.bob };
        } else if p == 4 {
            let t = self.randomness_from_dealer[1];
            let z = beaver_product(t.w, self.input_alice_b.alice, self.alice_share_of_bob_b, d, e, true);
            self.z_2 = SecretSharingPair { alice: !z, bob: self.z_2.bob };
        } else {
            let t = self.randomness_from_dealer[2];
            let z = beaver_product(t.w, self.input_alice_r.alice, self.alice_share_of_bob_r, d, e, true);
            self.z_3 = SecretSharingPair { alice: !z, bob: self.z_3.bob };
        }
    }

    /// Rounds 8, 10: folds `z_2`, then `z_3`, into `z_1` by a secure AND.
    fn finish_second_layer(&mut self, bit: bool)
        requires
            old(self).progress == 8 || old(self).progress == 10,
        ensures
            *final(self) == old(self).received(bit),
    {
        let p = self.progress;
        self.e = SecretSharingPair { alice: self.e.alice, bob: bit };
        let d = self.d.alice != self.d.bob;
        let e = self.e.alice != bit;
        if p == 8 {
            let t = self.randomness_from_dealer[3];
            let z = beaver_product(t.w, self.z_1.alice, self.z_2.alice, d, e, true);
            self.z_1 = SecretSharingPair { alice: z, bob: self.z_1.bob };
        } else {
            let t = self.randomness_from_dealer[4];
            let z = beaver_product(t.w, self.z_1.alice, self.z_3.alice, d, e, true);
            self.z_1 = SecretSharingPair { alice: z, bob: self.z_1.bob };
        }
    }

    /// `send`, refused before `init` and after the last round.
    pub fn try_send(&mut self) -> (r: Result<u8, ProtocolError>)
        requires
            old(self).wf(),
        ensures
            final(self).wf(),
            !old(self).is_initialized() ==> r == Err::<u8, ProtocolError>(
                ProtocolError::NotInitialized,
            ) && *final(self) == *old(self),
            old(self).is_initialized() && old(self).round() >= 11 ==> r == Err::<u8, ProtocolError>(
                ProtocolError::ProtocolExhausted,
            ) && *final(self) == *old(self),
            old(self).is_initialized() && old(self).round() < 11 ==> r == Ok::<u8, ProtocolError>(
                bit_of(old(self).sent_value()),
            ) && *final(self) == old(self).sent(),
    {
        if !self.initialized {
            Err(ProtocolError::NotInitialized)
        } else if self.progress >= 11 {
            Err(ProtocolError::ProtocolExhausted)
        } else {
            Ok(self.send())
        }
    }

    /// `receive`, refused before `init` and once the result has arrived.
    pub fn try_receive(&mut self, input: u8) -> (r: Result<(), ProtocolError>)
        requires
            old(self).wf(),
            input <= 1,
        ensures
            final(self).wf(),
            !old(self).is_initialized() ==> r == Err::<(), ProtocolError>(
                ProtocolError::NotInitialized,
            ) && *final(self) == *old(self),
            old(self).is_initialized() && old(self).has_result() ==> r == Err::<(), ProtocolError>(
                ProtocolError::ProtocolExhausted,
            ) && *final(self) == *old(self),
            old(self).is_initialized() && !old(self).has_result() ==> r == Ok::<(), ProtocolError>(())
                && *final(self) == old(self).received(input == 1),
    {
        if !self.initialized {
            Err(ProtocolError::NotInitialized)
        } else if self.has_output {
            Err(ProtocolError::ProtocolExhausted)
        } else {
            self.receive(input);
            Ok(())
        }
    }

    /// `output`, refused until Bob's share of the result has arrived.
    pub fn try_output(&self) -> (r: Result<u8, ProtocolError>)
        ensures
            !self.has_result() ==> r == Err::<u8, ProtocolError>(ProtocolError::OutputNotReady),
            self.has_result() ==> r == Ok::<u8, ProtocolError>(bit_of(self.result())),
    {
        if !self.has_output {
            Err(ProtocolError::OutputNotReady)
        } else {
            Ok(self.output())
        }
    }

    /// Reconstructs the result from Alice's two shares of it.
    pub fn output(&self) -> (r: u8)
        ensures
            r == bit_of(self.result()),
    {
        self.z_1.value()
    }
}

/// Party B: holds input `y` and answers each of Alice's messages; it treats an
/// incoming message as belonging to the round that its next `send` begins.
pub struct Bob {
    randomness_from_dealer: [RandomnessTriple; 5],
    input_bob_a: SecretSharingPair,
    input_bob_b: SecretSharingPair,
    input_bob_r: SecretSharingPair,
    z_1: SecretSharingPair,
    z_2: SecretSharingPair,
    z_3: SecretSharingPair,
    d: SecretSharingPair,
    e: SecretSharingPair,
    bobs_share_of_alice_a: bool,
    bobs_share_of_alice_b: bool,
    bobs_share_of_alice_r: bool,
    progress: u8,
    initialized: bool,
}

impl Bob {
    /// The state of a party that has not been given its input.
    pub closed spec fn fresh() -> Bob {
        Bob {
            randomness_from_dealer: [zero_triple(), zero_triple(), zero_triple(), zero_triple(), zero_triple()],
            input_bob_a: zero_share(),
            input_bob_b: zero_share(),
            input_bob_r: zero_share(),
            z_1: zero_share(),
            z_2: zero_share(),
            z_3: zero_share(),
            d: zero_share(),
            e: zero_share(),
            bobs_share_of_alice_a: false,
            bobs_share_of_alice_b: false,
            bobs_share_of_alice_r: false,
            progress: 0,
            initialized: false,
        }
    }

    /// Whether `init` has given the party its input and triples.
    pub closed spec fn is_initialized(self) -> bool {
        self.initialized
    }

    /// The last round begun.
    pub closed spec fn round(self) -> u8 {
        self.progress
    }

    pub closed spec fn wf(self) -> bool {
        self.progress <= 12
    }

    /// The state after taking input `y`, shared under `masks`, and the dealer's `randoms`.
    pub closed spec fn loaded(self, y: u8, masks: (u8, u8, u8), randoms: [RandomnessTriple; 5]) -> Bob {
        let s = input_sharing(y, masks);
        Bob {
            randomness_from_dealer: randoms,
            input_bob_a: s.0,
            input_bob_b: s.1,
            input_bob_r: s.2,
            initialized: true,
            ..self
        }
    }

    /// Alice's shares of Bob's input bits a, b, r.
    pub closed spec fn input_share(self) -> (bool, bool, bool) {
        (self.input_bob_a.alice, self.input_bob_b.alice, self.input_bob_r.alice)
    }

    /// The state after learning Bob's shares of Alice's input bits.
    pub closed spec fn with_peer_shares(self, shares: (bool, bool, bool)) -> Bob {
        Bob {
            bobs_share_of_alice_a: shares.0,
            bobs_share_of_alice_b: shares.1,
            bobs_share_of_alice_r: shares.2,
            ..self
        }
    }

    /// The state after masking operands `x`, `y` with triple `i`: `d = x XOR u`, `e = y XOR v`.
    pub closed spec fn masked(self, i: int, x: bool, y: bool) -> Bob {
        let t = self.randomness_from_dealer[i];
        Bob {
            d: SecretSharingPair { bob: xor(x, t.u), ..self.d },
            e: SecretSharingPair { bob: xor(y, t.v), ..self.e },
            ..self
        }
    }

    /// The state after the current round's opening: masks the round's operands.
    pub closed spec fn opened(self) -> Bob {
        let p = self.progress;
        if p == 1 {
            self.masked(0, self.bobs_share_of_alice_a, self.input_bob_a.bob)
        } else if p == 3 {
            self.masked(1, self.bobs_share_of_alice_b, self.input_bob_b.bob)
        } else if p == 5 {
            self.masked(2, self.bobs_share_of_alice_r, self.input_bob_r.bob)
        } else if p == 7 {
            self.masked(3, self.z_1.bob, self.z_2.bob)
        } else if p == 9 {
            self.masked(4, self.z_1.bob, self.z_3.bob)
        } else {
            self
        }
    }

    /// The share that the current round opens: of `d`, of `e`, or in the
    /// last round of the result; else 0.
    pub closed spec fn opened_value(self) -> bool {
        if opens_d(self.progress) {
            self.opened().d.bob
        } else if opens_e(self.progress) {
            self.e.bob
        } else if self.progress == 11 {
            self.z_1.bob
        } else {
            false
        }
    }

    /// The state after `send`.
    pub closed spec fn sent(self) -> Bob {
        Bob { progress: next_round(self.progress), ..self }.opened()
    }

    /// What `send` puts on the wire.
    pub closed spec fn sent_value(self) -> bool {
        Bob { progress: next_round(self.progress), ..self }.opened_value()
    }

    /// Bob's share of the product of the AND of triple `i` on his shares `x`, `y`.
    pub closed spec fn product(self, i: int, x: bool, y: bool) -> bool {
        product_share(
            self.randomness_from_dealer[i].w,
            x,
            y,
            self.d.secret(),
            self.e.secret(),
            false,
        )
    }

    /// The state after `receive` of `input`, taken as a message of the round
    /// that the next `send` begins.
    pub closed spec fn received(self, input: bool) -> Bob {
        let q = next_round(self.progress);
        let s = Bob { e: SecretSharingPair { alice: input, ..self.e }, ..self };
        if opens_d(q) {
            Bob { d: SecretSharingPair { alice: input, ..self.d }, ..self }
        } else if q == 2 {
            let z = s.product(0, s.bobs_share_of_alice_a, s.input_bob_a.bob);
            Bob { z_1: SecretSharingPair { bob: z, ..s.z_1 }, ..s }
        } else if q == 4 {
            let z = s.product(1, s.bobs_share_of_alice_b, s.input_bob_b.bob);
            Bob { z_2: SecretSharingPair { bob: z, ..s.z_2 }, ..s }
        } else if q == 6 {
            let z = s.product(2, s.bobs_share_of_alice_r, s.input_bob_r.bob);
            Bob { z_3: SecretSharingPair { bob: z, ..s.z_3 }, ..s }
        } else if q == 8 {
            let z = s.product(3, s.z_1.bob, s.z_2.bob);
            Bob { z_1: SecretSharingPair { bob: z, ..s.z_1 }, ..s }
        } else if q == 10 {
            let z = s.product(4, s.z_1.bob, s.z_3.bob);
            Bob { z_1: SecretSharingPair { bob: z, ..s.z_1 }, ..s }
        } else {
            self
        }
    }

    pub fn new() -> (r: Bob)
        ensures
            r == Bob::fresh(),
            r.wf(),
            r.round() == 0,
            !r.is_initialized(),
    {
        let zero_triple = RandomnessTriple { u: false, v: false, w: false };
        Bob {
            randomness_from_dealer: [zero_triple, zero_triple, zero_triple, zero_triple, zero_triple],
            input_bob_a: zero(),
            input_bob_b: zero(),
            input_bob_r: zero(),
            z_1: zero(),
            z_2: zero(),
            z_3: zero(),
            d: zero(),
            e: zero(),
            bobs_share_of_alice_a: false,
            bobs_share_of_alice_b: false,
            bobs_share_of_alice_r: false,
            progress: 0,
            initialized: false,
        }
    }

    /// Takes input `y` (bits a, b, r at positions 2, 1, 0), shared under `masks`,
    /// and the dealer's triples.
    pub fn init_with_masks(&mut self, y: u8, randoms: [RandomnessTriple; 5], masks: (u8, u8, u8))
        requires
            old(self).wf(),
            masks.0 <= 1,
            masks.1 <= 1,
            masks.2 <= 1,
        ensures
            final(self).wf(),
            final(self).round() == old(self).round(),
            final(self).is_initialized(),
            *final(self) == old(self).loaded(y, masks, randoms),
    {
        let s = share_inputs(y, masks);
        self.input_bob_a = s.0;
        self.input_bob_b = s.1;
        self.input_bob_r = s.2;
        self.randomness_from_dealer = randoms;
        self.initialized = true;
    }

    /// Takes input `y` (bits a, b, r at positions 2, 1, 0), shared under fresh
    /// masks, and the dealer's triples.
    pub fn init(&mut self, y: u8, randoms: [RandomnessTriple; 5])
        requires
            old(self).wf(),
        ensures
            final(self).wf(),
            final(self).round() == old(self).round(),
            final(self).is_initialized(),
            exists|masks: (u8, u8, u8)|
                masks.0 <= 1 && masks.1 <= 1 && masks.2 <= 1 && *final(self) == old(
                    self,
                ).loaded(y, masks, randoms),
    {
        let masks = draw_masks();
        self.init_with_masks(y, randoms, masks);
    }

    /// Alice's shares of Bob's input bits a, b, r.
    pub fn send_input_share(&self) -> (r: (u8, u8, u8))
        ensures
            r == (bit_of(self.input_share().0), bit_of(self.input_share().1), bit_of(
                self.input_share().2,
            )),
    {
        (to_wire(self.input_bob_a.alice), to_wire(self.input_bob_b.alice), to_wire(self.input_bob_r.alice))
    }

    /// Takes Bob's shares of Alice's input bits a, b, r.
    pub fn receive_input_share(&mut self, shares: (u8, u8, u8))
        requires
            old(self).wf(),
            shares.0 <= 1,
            shares.1 <= 1,
            shares.2 <= 1,
        ensures
            final(self).wf(),
            final(self).round() == old(self).round(),
            final(self).is_initialized() == old(self).is_initialized(),
            *final(self) == old(self).with_peer_shares((shares.0 == 1, shares.1 == 1, shares.2 == 1)),
    {
        self.bobs_share_of_alice_a = from_wire(shares.0);
        self.bobs_share_of_alice_b = from_wire(shares.1);
        self.bobs_share_of_alice_r = from_wire(shares.2);
    }

    /// Begins the next round and returns the share that it opens.
    pub fn send(&mut self) -> (r: u8)
        requires
            old(self).wf(),
        ensures
            final(self).wf(),
            *final(self) == old(self).sent(),
            final(self).round() == next_round(old(self).round()),
            final(self).is_initialized() == old(self).is_initialized(),
            r == bit_of(old(self).sent_value()),
    {
        if self.progress < 12 {
            self.progress = self.progress + 1;
        }
        let p = self.progress;
        if p == 1 || p == 3 || p == 5 {
            self.open_first_layer();
            to_wire(self.d.bob)
        } else if p == 7 || p == 9 {
            self.open_second_layer();
            to_wire(self.d.bob)
        } else if p == 2 || p == 4 || p == 6 || p == 8 || p == 10 {
            to_wire(self.e.bob)
        } else if p == 11 {
            to_wire(self.z_1.bob)
        } else {
            0
        }
    }

    /// Rounds 1, 3, 5: masks the operands of the AND on input bit a, b or r.
    fn open_first_layer(&mut self)
        requires
            old(self).progress == 1 || old(self).progress == 3 || old(self).progress == 5,
        ensures
            *final(self) == old(self).opened(),
    {
        let p = self.progress;
        if p == 1 {
            let t = self.randomness_from_dealer[0];
            self.d = SecretSharingPair { alice: self.d.alice, bob: self.bobs_share_of_alice_a != t.u };
            self.e = SecretSharingPair { alice: self.e.alice, bob: self.input_bob_a.bob != t.v };
        } else if p == 3 {
            let t = self.randomness_from_dealer[1];
            self.d = SecretSharingPair { alice: self.d.alice, bob: self.bobs_share_of_alice_b != t.u };
            self.e = SecretSharingPair { alice: self.e.alice, bob: self.input_bob_b.bob != t.v };
        } else {
            let t = self.randomness_from_dealer[2];
            self.d = SecretSharingPair { alice: self.d.alice, bob: self.bobs_share_of_alice_r != t.u };
            self.e = SecretSharingPair { alice: self.e.alice, bob: self.input_bob_r.bob != t.v };
        }
    }

    /// Rounds 7, 9: masks `z_1` and `z_2`, then `z_1` and `z_3`.
    fn open_second_layer(&mut self)
        requires
            old(self).progress == 7 || old(self).progress == 9,
        ensures
            *final(self) == old(self).opened(),
    {
        let p = self.progress;
        if p == 7 {
            let t = self.randomness_from_dealer[3];
            self.d = SecretSharingPair { alice: self.d.alice, bob: self.z_1.bob != t.u };
            self.e = SecretSharingPair { alice: self.e.alice, bob: self.z_2.bob != t.v };
        } else {
            let t = self.randomness_from_dealer[4];
            self.d = SecretSharingPair { alice: self.d.alice, bob: self.z_1.bob != t.u };
            self.e = SecretSharingPair { alice: self.e.alice, bob: self.z_3.bob != t.v };
        }
    }

    /// Takes Alice's message, as one of the round that the next `send` begins.
    pub fn receive(&mut self, input: u8)
        requires
            old(self).wf(),
            input <= 1,
        ensures
            final(self).wf(),
            *final(self) == old(self).received(input == 1),
            final(self).round() == old(self).round(),
            final(self).is_initialized() == old(self).is_initialized(),
    {
        let q = self.progress + 1;
        let bit = from_wire(input);
        if opens_d_exec(q) {
            self.d = SecretSharingPair { alice: bit, bob: self.d.bob };
        } else if q == 2 || q == 4 || q == 6 {
            self.finish_first_layer(bit);
        } else if q == 8 || q == 10 {
            self.finish_second_layer(bit);
        }
    }

    /// `send`, refused before `init` and after the last round.
    pub fn try_send(&mut self) -> (r: Result<u8, ProtocolError>)
        requires
            old(self).wf(),
        ensures
            final(self).wf(),
            !old(self).is_initialized() ==> r == Err::<u8, ProtocolError>(
                ProtocolError::NotInitialized,
            ) && *final(self) == *old(self),
            old(self).is_initialized() && old(self).round() >= 11 ==> r == Err::<u8, ProtocolError>(
                ProtocolError::ProtocolExhausted,
            ) && *final(self) == *old(self),
            old(self).is_initialized() && old(self).round() < 11 ==> r == Ok::<u8, ProtocolError>(
                bit_of(old(self).sent_value()),
            ) && *final(self) == old(self).sent(),
    {
        if !self.initialized {
            Err(ProtocolError::NotInitialized)
        } else if self.progress >= 11 {
            Err(ProtocolError::ProtocolExhausted)
        } else {
            Ok(self.send())
        }
    }

    /// `receive`, refused before `init` and after the last round.
    pub fn try_receive(&mut self, input: u8) -> (r: Result<(), ProtocolError>)
        requires
            old(self).wf(),
            input <= 1,
        ensures
            final(self).wf(),
            !old(self).is_initialized() ==> r == Err::<(), ProtocolError>(
                ProtocolError::NotInitialized,
            ) && *final(self) == *old(self),
            old(self).is_initialized() && old(self).round() >= 11 ==> r == Err::<(), ProtocolError>(
                ProtocolError::ProtocolExhausted,
            ) && *final(self) == *old(self),
            old(self).is_initialized() && old(self).round() < 11 ==> r == Ok::<(), ProtocolError>(())
                && *final(self) == old(self).received(input == 1),
    {
        if !self.initialized {
            Err(ProtocolError::NotInitialized)
        } else if self.progress >= 11 {
            Err(ProtocolError::ProtocolExhausted)
        } else {
            self.receive(input);
            Ok(())
        }
    }

    /// Rounds 2, 4, 6: completes the AND on input bit a, b or r.
    fn finish_first_layer(&mut self, bit: bool)
        requires
            old(self).progress == 1 || old(self).progress == 3 || old(self).progress == 5,
        ensures
            *final(self) == old(self).received(bit),
    {
        let q = self.progress + 1;
        self.e = SecretSharingPair { alice: bit, bob: self.e.bob };
        let d = self.d.alice != self.d.bob;
        let e = bit != self.e.bob;
        if q == 2 {
            let t = self.randomness_from_dealer[0];
            let z = beaver_product(t.w, self.bobs_share_of_alice_a, self.input_bob_a.bob, d, e, false);
            self.z_1 = SecretSharingPair { alice: self.z_1.alice, bob: z };
        } else if q == 4 {
            let t = self.randomness_from_dealer[1];
            let z = beaver_product(t.w, self.bobs_share_of_alice_b, self.input_bob_b.bob, d, e, false);
            self.z_2 = SecretSharingPair { alice: self.z_2.alice, bob: z };
        } else {
            let t = self.randomness_from_dealer[2];
            let z = beaver_product(t.w, self.bobs_share_of_alice_r, self.input_bob_r.bob, d, e, false);
            self.z_3 = SecretSharingPair { alice: self.z_3.alice, bob: z };
        }
    }

    /// Rounds 8, 10: folds `z_2`, then `z_3`, into `z_1` by a secure AND.
    fn finish_second_layer(&mut self, bit: bool)
        requires
            old(self).progress == 7 || old(self).progress == 9,
        ensures
            *final(self) == old(self).received(bit),
    {
        let q = self.progress + 1;
        self.e = SecretSharingPair { alice: bit, bob: self.e.bob };
        let d = self.d.alice != self.d.bob;
        let e = bit != self.e.bob;
        if q == 8 {
            let t = self.randomness_from_dealer[3];
            let z = beaver_product(t.w, self.z_1.bob, self.z_2.bob, d, e, false);
            self.z_1 = SecretSharingPair { alice: self.z_1.alice, bob: z };
        } else {
            let t = self.randomness_from_dealer[4];
            let z = beaver_product(t.w, self.z_1.bob, self.z_3.bob, d, e, false);
            self.z_1 = SecretSharingPair { alice: self.z_1.alice, bob: z };
        }
    }
}

/// Once Alice holds the result, a further round (a twelfth `send`, then
/// `receive` of any bit), or a repeated `receive`, leaves it unchanged.
pub proof fn lemma_output_settled(a: Alice, m: bool)
    requires
        a.wf(),
        a.has_result(),
    ensures
        a.sent().has_result(),
        a.sent().result() == a.result(),
        a.sent().received(m).has_result(),
        a.sent().received(m).result() == a.result(),
        a.received(m) == a,
{
}

/// Three fresh masks.
fn draw_masks() -> (r: (u8, u8, u8))
    ensures
        r.0 <= 1,
        r.1 <= 1,
        r.2 <= 1,
{
    (random_bit(), random_bit(), random_bit())
}

} // verus!
