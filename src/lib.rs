//! Two-party evaluation of a small Boolean circuit over XOR-shared bits,
//! with each AND computed by Beaver multiplication from dealer-issued triples.
use vstd::prelude::*;

pub mod dealer;
pub mod party;
pub mod sharing;

pub use dealer::TrustedDealer;
pub use party::{Alice, Bob, ProtocolError};
pub use sharing::{RandomnessTriple, SecretSharingPair};

verus! {

} // verus!
