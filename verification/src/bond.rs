//! Bonds between an account and a validator.

use crate::block::Id;
use fake::Fake;
use vstd::prelude::*;

verus! {

/// The first epoch a made-up bond may start at.
pub const FAKE_START_MIN: u32 = 1;

/// The epoch a made-up bond starts before.
pub const FAKE_START_END: u32 = 1000;

/// An amount of tokens, in the token's smallest unit.
#[derive(Debug, Clone, Copy, PartialEq, Eq, Structural)]
pub struct Amount(pub u128);

/// The two ends of a bond.
#[derive(Hash, Debug, Clone, PartialEq, Eq)]
pub struct BondAddresses {
    pub source: Id,
    pub target: Id,
}

/// A bond of `amount` from `source` to the validator `target`, from epoch `start`.
#[derive(Debug, Clone, PartialEq)]
pub struct Bond {
    pub source: Id,
    pub target: Id,
    pub amount: Amount,
    pub start: u32,
}

/// A list of bonds.
pub type Bonds = Vec<Bond>;

/// Draws a number in `start..end` with `fake`.
///
/// Trusted: `(start..end).fake::<u32>()` samples `rng.gen_range(start..end)`,
/// which lies in the range and panics on an empty one (hence the `requires`).
#[verifier::external_body]
fn fake_u32_in(start: u32, end: u32) -> (n: u32)
    requires
        start < end,
    ensures
        start <= n < end,
{
    (start..end).fake::<u32>()
}

impl Bond {
    /// A made-up bond to `validator_address`, from the account
    /// `source_address`, of `amount`, starting at a random epoch in 1..1000.
    pub fn fake(validator_address: Id, source_address: String, amount: Amount) -> (bond: Self)
        ensures
            bond.source == Id::Account(source_address),
            bond.target == validator_address,
            bond.amount == amount,
            FAKE_START_MIN <= bond.start < FAKE_START_END,
    {
        Bond {
            source: Id::Account(source_address),
            target: validator_address,
            amount,
            start: fake_u32_in(FAKE_START_MIN, FAKE_START_END),
        }
    }
}

} // verus!
