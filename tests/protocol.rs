use beaver_and::dealer::deal;
use beaver_and::sharing::beaver_product;
use beaver_and::{Alice, Bob, ProtocolError, RandomnessTriple, SecretSharingPair, TrustedDealer};

fn expected(x: u8, y: u8) -> u8 {
    let both = x & y & 7;
    if both == 0 {
        1
    } else {
        0
    }
}

fn set_up(x: u8, y: u8) -> (Alice, Bob) {
    let mut dealer = TrustedDealer::new();
    dealer.init();
    let mut alice = Alice::new();
    let mut bob = Bob::new();
    alice.init(x, dealer.rand_a());
    bob.init(y, dealer.rand_b());
    let from_alice = alice.send_input_share();
    let from_bob = bob.send_input_share();
    alice.receive_input_share(from_bob);
    bob.receive_input_share(from_alice);
    (alice, bob)
}

fn run_round(alice: &mut Alice, bob: &mut Bob) -> (u8, u8) {
    let m = alice.send();
    bob.receive(m);
    let n = bob.send();
    alice.receive(n);
    (m, n)
}

fn run(x: u8, y: u8) -> (Alice, Bob) {
    let (mut alice, mut bob) = set_up(x, y);
    for _ in 0..11 {
        run_round(&mut alice, &mut bob);
    }
    (alice, bob)
}

#[test]
fn share_reconstruction_many_draws() {
    for _ in 0..200 {
        assert_eq!(SecretSharingPair::new(0).value(), 0);
        assert_eq!(SecretSharingPair::new(1).value(), 1);
    }
}

#[test]
fn share_mask_is_alice_share() {
    let s = SecretSharingPair::split(1, 1);
    assert!(s.alice);
    assert!(!s.bob);
    assert_eq!(s.value(), 1);
    let s = SecretSharingPair::split(1, 0);
    assert!(!s.alice);
    assert!(s.bob);
    let s = SecretSharingPair::split(0, 1);
    assert!(s.alice && s.bob);
    assert_eq!(s.value(), 0);
}

#[test]
fn new_shares_vary_with_the_mask() {
    let mut seen = [false, false];
    for _ in 0..200 {
        let s = SecretSharingPair::new(1);
        seen[s.alice as usize] = true;
    }
    assert!(seen[0] && seen[1]);
}

fn is_beaver(a: &RandomnessTriple, b: &RandomnessTriple) -> bool {
    ((a.u != b.u) && (a.v != b.v)) == (a.w != b.w)
}

#[test]
fn dealer_triples_are_correct() {
    for _ in 0..200 {
        let mut dealer = TrustedDealer::new();
        dealer.init();
        let ra = dealer.rand_a();
        let rb = dealer.rand_b();
        for i in 0..5 {
            assert!(is_beaver(&ra[i], &rb[i]));
        }
    }
}

#[test]
fn new_dealer_holds_zero_triples() {
    let dealer = TrustedDealer::new();
    for t in dealer.rand_a().iter().chain(dealer.rand_b().iter()) {
        assert!(!t.u && !t.v && !t.w);
    }
}

#[test]
fn deal_splits_each_bit_under_its_mask() {
    let (a, b) = deal(1, 1, 0, 1, 1);
    assert!(!a.u && b.u);
    assert!(a.v && !b.v);
    assert!(a.w && !b.w);
    let (a, b) = deal(1, 0, 1, 1, 0);
    assert!(a.u && !b.u);
    assert!(a.v && a.v == b.v);
    assert!(!a.w && !b.w);
}

#[test]
fn secure_and_all_inputs_and_triples() {
    for u in [false, true] {
        for v in [false, true] {
            for masks in 0..8u8 {
                let (ta, tb) = deal(u as u8, v as u8, masks & 1, (masks >> 1) & 1, (masks >> 2) & 1);
                for x in [false, true] {
                    for y in [false, true] {
                        for xm in [false, true] {
                            for ym in [false, true] {
                                let (xa, xb) = (xm, xm != x);
                                let (ya, yb) = (ym, ym != y);
                                let d = (xa != ta.u) != (xb != tb.u);
                                let e = (ya != ta.v) != (yb != tb.v);
                                let za = beaver_product(ta.w, xa, ya, d, e, true);
                                let zb = beaver_product(tb.w, xb, yb, d, e, false);
                                assert_eq!(za != zb, x && y);
                            }
                        }
                    }
                }
            }
        }
    }
}

#[test]
fn beaver_product_leader_adds_cross_term() {
    assert!(beaver_product(false, false, false, true, true, true));
    assert!(!beaver_product(false, false, false, true, true, false));
    assert!(beaver_product(true, true, true, false, true, false) == false);
}

#[test]
fn end_to_end_all_inputs() {
    for x in 0..8u8 {
        for y in 0..8u8 {
            for _ in 0..5 {
                let (alice, _) = run(x, y);
                assert!(alice.has_output());
                assert_eq!(alice.output(), expected(x, y), "x = {}, y = {}", x, y);
            }
        }
    }
}

#[test]
fn end_to_end_examples() {
    assert_eq!(run(0, 0).0.output(), 1);
    assert_eq!(run(7, 7).0.output(), 0);
    assert_eq!(run(1, 1).0.output(), 0);
    assert_eq!(run(4, 3).0.output(), 1);
}

#[test]
fn output_not_ready_before_last_round() {
    let (mut alice, mut bob) = set_up(5, 2);
    for _ in 0..10 {
        run_round(&mut alice, &mut bob);
        assert!(!alice.has_output());
    }
    run_round(&mut alice, &mut bob);
    assert!(alice.has_output());
}

#[test]
fn twelfth_round_leaves_output() {
    for x in 0..8u8 {
        for y in 0..8u8 {
            let (mut alice, mut bob) = run(x, y);
            let before = alice.output();
            for _ in 0..20 {
                let (m, n) = run_round(&mut alice, &mut bob);
                assert_eq!(m, 0);
                assert_eq!(n, 0);
                assert_eq!(alice.output(), before);
                assert!(alice.has_output());
            }
        }
    }
}

#[test]
fn last_round_bob_sends_his_result_share() {
    let (mut alice, mut bob) = set_up(2, 4);
    for _ in 0..10 {
        run_round(&mut alice, &mut bob);
    }
    let m = alice.send();
    bob.receive(m);
    let n = bob.send();
    assert!(m <= 1 && n <= 1);
    alice.receive(n);
    assert_eq!(alice.output(), 1);
    // In the last round both parties open their share of the result.
    assert_eq!(m ^ n, 1);
}

#[test]
fn repeated_last_receive_leaves_output() {
    for x in 0..8u8 {
        for y in 0..8u8 {
            let (mut alice, _) = run(x, y);
            let before = alice.output();
            alice.receive(0);
            assert_eq!(alice.output(), before);
            alice.receive(1);
            assert_eq!(alice.output(), before);
            assert!(alice.has_output());
        }
    }
}

#[test]
fn input_shares_reconstruct_inputs() {
    let mut dealer = TrustedDealer::new();
    dealer.init();
    for x in 0..8u8 {
        let mut alice = Alice::new();
        alice.init_with_masks(x, dealer.rand_a(), (1, 0, 1));
        let (a, b, r) = alice.send_input_share();
        // Bob's halves are the input bits XOR the masks.
        assert_eq!(a, ((x >> 2) & 1) ^ 1);
        assert_eq!(b, (x >> 1) & 1);
        assert_eq!(r, (x & 1) ^ 1);
        let mut bob = Bob::new();
        bob.init_with_masks(x, dealer.rand_b(), (0, 1, 1));
        assert_eq!(bob.send_input_share(), (0, 1, 1));
    }
}

#[test]
fn opened_values_look_uniform() {
    // With both inputs fixed, the first opened share of d over many runs
    // should take both values often.
    let mut ones = 0u32;
    let trials = 2000u32;
    for _ in 0..trials {
        let (mut alice, _) = set_up(6, 1);
        ones += alice.send() as u32;
    }
    assert!(ones > trials / 4 && ones < 3 * trials / 4, "ones = {}", ones);
}

#[test]
fn checked_methods_refuse_before_init() {
    let mut alice = Alice::new();
    let mut bob = Bob::new();
    assert_eq!(alice.try_send(), Err(ProtocolError::NotInitialized));
    assert_eq!(alice.try_receive(1), Err(ProtocolError::NotInitialized));
    assert_eq!(bob.try_send(), Err(ProtocolError::NotInitialized));
    assert_eq!(bob.try_receive(0), Err(ProtocolError::NotInitialized));
    assert_eq!(alice.try_output(), Err(ProtocolError::OutputNotReady));
}

#[test]
fn checked_methods_run_the_protocol() {
    for x in 0..8u8 {
        for y in 0..8u8 {
            let (mut alice, mut bob) = set_up(x, y);
            for round in 0..11 {
                assert_eq!(alice.try_output(), Err(ProtocolError::OutputNotReady), "round {}", round);
                let m = alice.try_send().unwrap();
                bob.try_receive(m).unwrap();
                let n = bob.try_send().unwrap();
                alice.try_receive(n).unwrap();
            }
            assert_eq!(alice.try_output(), Ok(expected(x, y)));
            assert_eq!(alice.try_send(), Err(ProtocolError::ProtocolExhausted));
            assert_eq!(alice.try_receive(1), Err(ProtocolError::ProtocolExhausted));
            assert_eq!(bob.try_send(), Err(ProtocolError::ProtocolExhausted));
            assert_eq!(bob.try_receive(1), Err(ProtocolError::ProtocolExhausted));
            assert_eq!(alice.try_output(), Ok(expected(x, y)));
        }
    }
}

#[test]
fn init_with_draws_fills_each_slot_from_its_draw() {
    let mut dealer = TrustedDealer::new();
    dealer.init_with_draws([(1, 1, 0, 0, 0), (0, 0, 0, 0, 0), (1, 0, 1, 0, 1), (0, 1, 0, 1, 0), (1, 1, 1, 1, 1)]);
    let ra = dealer.rand_a();
    let rb = dealer.rand_b();
    assert!(!ra[0].u && rb[0].u && !ra[0].v && rb[0].v && !ra[0].w && rb[0].w);
    assert!(!ra[1].u && !rb[1].u && !ra[1].w && !rb[1].w);
    assert!(ra[2].u && !rb[2].u && ra[2].w && rb[2].w);
    assert!(ra[4].u && !rb[4].u && ra[4].w && !rb[4].w);
    for i in 0..5 {
        assert!(is_beaver(&ra[i], &rb[i]));
    }
}
