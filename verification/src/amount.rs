//! The singleton amount: a coin amount proven odd at construction.
//!
//! Chia's singleton top layer only recognises an odd-amount coin as the singleton. A launch from an
//! even-amount funding coin spends the coin and produces no singleton at all. [`SingletonAmount`]
//! makes that state unrepresentable: its field is private, its constructors validate, and it is the
//! only amount that this crate hands to a launcher.
use vstd::prelude::*;

use crate::error::{DidError, DidResult};
use crate::types::Coin;

#[allow(unused_imports)]
use crate::error::{outcome, Fault};

verus! {

/// A coin amount that has been proven odd, and is therefore usable as a singleton's amount.
///
/// It is a pre-flight check for callers too: a wallet that splits a funding coin checks the amount
/// that it is about to split to, and gets the answer that a create would give it afterwards.
#[derive(Debug, Clone, Copy, PartialEq, Eq, PartialOrd, Ord, Hash)]
pub struct SingletonAmount(u64);

impl View for SingletonAmount {
    type V = u64;

    closed spec fn view(&self) -> u64 {
        self.0
    }
}

/// What [`SingletonAmount::new`] answers for `amount`.
pub open spec fn singleton_amount(amount: u64) -> Result<u64, Fault> {
    if amount % 2 == 0 {
        Err(Fault::EvenSingletonAmount(amount))
    } else {
        Ok(amount)
    }
}

impl SingletonAmount {
    /// Every value of this type is odd.
    #[verifier::type_invariant]
    pub(crate) closed spec fn is_odd(self) -> bool {
        self.0 % 2 == 1
    }

    /// The smallest amount that a singleton can carry, and the conventional one.
    pub fn minimal() -> (amount: SingletonAmount)
        ensures
            amount@ == 1,
    {
        SingletonAmount(1)
    }

    /// Proves `amount` odd, or refuses it (zero is even) with [`DidError::EvenSingletonAmount`].
    pub fn new(amount: u64) -> (proven: DidResult<SingletonAmount>)
        ensures
            outcome(proven) == singleton_amount(amount),
    {
        if amount % 2 == 0 {
            return Err(DidError::EvenSingletonAmount(amount));
        }
        Ok(SingletonAmount(amount))
    }

    /// Proves the funding coin's amount usable as the singleton's amount: the whole of it, since a
    /// launch emits no change output. Pass a coin split to exactly the amount to be locked.
    pub fn from_funding_coin(coin: &Coin) -> (proven: DidResult<SingletonAmount>)
        ensures
            outcome(proven) == singleton_amount(coin.amount),
    {
        SingletonAmount::new(coin.amount)
    }

    /// The proven-odd amount.
    #[must_use]
    pub fn get(self) -> (amount: u64)
        ensures
            amount == self@,
            amount % 2 == 1,
    {
        proof {
            use_type_invariant(&self);
        }
        self.0
    }
}

/// An amount is a singleton's exactly where it is odd, and then as it is; an even one is refused by its name.
pub proof fn singleton_amounts_are_the_odd_ones(amount: u64, other: u64)
    ensures
        singleton_amount(amount) == Ok::<u64, Fault>(other) <==> amount == other && amount % 2 == 1,
        singleton_amount(amount) == Err::<u64, Fault>(Fault::EvenSingletonAmount(other)) <==> amount
            == other && amount % 2 == 0,
        singleton_amount(amount) is Ok <==> amount % 2 == 1,
{
}

} // verus!
