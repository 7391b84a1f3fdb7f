//! Where coin spends are staged until a bundle is complete, and the spend of an owner's puzzle.
use vstd::prelude::*;

use chia_protocol::Bytes32;

use crate::conditions::Conditions;
use crate::clvm::check_program;
use crate::driver::{spend_standard, standard_hash, tree_hash_of};
use crate::error::{DidError, DidResult};
use crate::types::{Coin, CoinSpend, Owner, Spend};

#[allow(unused_imports)]
use crate::bytes::{hash_bytes, is_valid_key};
#[allow(unused_imports)]
use crate::conditions::agg_sigs;
#[allow(unused_imports)]
use crate::clvm::{clvm_fault, is_canonical};
#[allow(unused_imports)]
use crate::driver::{
    creates_after_one, emits_behind_signature, is_signed_by, lemma_creates_after_one,
    puzzle_tree_hash, standard_puzzle_hash, standard_spend,
};
#[allow(unused_imports)]
use crate::error::{outcome, Fault};
#[allow(unused_imports)]
use crate::types::{views, CoinSpendView, CoinView, OwnerView, SpendView};

verus! {

/// The coin spends that have been staged so far, in the order in which they were.
#[derive(Debug)]
pub struct SpendContext {
    coin_spends: Vec<CoinSpend>,
}

impl View for SpendContext {
    type V = Seq<CoinSpendView>;

    closed spec fn view(&self) -> Seq<CoinSpendView> {
        views(self.coin_spends@)
    }
}

/// The spend of `coin` with a puzzle and its solution.
pub open spec fn coin_spend(coin: CoinView, spend: SpendView) -> CoinSpendView {
    CoinSpendView { coin, puzzle_reveal: spend.puzzle, solution: spend.solution }
}

/// The spends of `coin` with each of a list of puzzles and solutions.
pub open spec fn coin_spends(coin: CoinView, spends: Seq<SpendView>) -> Seq<CoinSpendView> {
    spends.map_values(|spend: SpendView| coin_spend(coin, spend))
}

impl SpendContext {
    /// A context with nothing staged.
    pub fn new() -> (context: SpendContext)
        ensures
            context@ == Seq::<CoinSpendView>::empty(),
    {
        let context = SpendContext { coin_spends: Vec::new() };
        assert(context@ =~= Seq::<CoinSpendView>::empty());
        context
    }

    /// Stages a coin spend.
    pub fn insert(&mut self, coin_spend: CoinSpend)
        ensures
            final(self)@ == old(self)@.push(coin_spend@),
    {
        self.coin_spends.push(coin_spend);
        assert(self@ =~= old(self)@.push(coin_spend@));
    }

    /// Stages the spend of `coin` with `spend`.
    pub fn spend(&mut self, coin: Coin, spend: Spend)
        ensures
            final(self)@ == old(self)@.push(coin_spend(coin@, spend@)),
    {
        self.insert(CoinSpend { coin, puzzle_reveal: spend.puzzle, solution: spend.solution });
    }

    /// Stages a spend of `coin` with each of `spends`.
    pub(crate) fn spend_all(&mut self, coin: Coin, spends: Vec<Spend>)
        ensures
            final(self)@ == old(self)@ + coin_spends(coin@, views(spends@)),
    {
        let ghost all = views(spends@);
        let ghost before = self@;
        let mut rest = spends;
        let mut index: usize = 0;
        while index < rest.len()
            invariant
                index <= rest@.len(),
                all == views(rest@),
                self@ == before + coin_spends(coin@, all.take(index as int)),
            decreases rest@.len() - index,
        {
            let spend = rest[index].clone();
            self.spend(coin, spend);
            proof {
                assert(spend@ == all[index as int]);
                assert(all.take(index as int + 1) =~= all.take(index as int).push(spend@));
                assert(coin_spends(coin@, all.take(index as int + 1)) =~= coin_spends(
                    coin@,
                    all.take(index as int),
                ).push(coin_spend(coin@, spend@)));
            }
            index = index + 1;
        }
        proof {
            assert(all.take(index as int) =~= all);
        }
    }

    /// Takes everything that is staged, and leaves the context empty.
    pub fn take(&mut self) -> (coin_spends: Vec<CoinSpend>)
        ensures
            views(coin_spends@) == old(self)@,
            final(self)@ == Seq::<CoinSpendView>::empty(),
    {
        let mut coin_spends: Vec<CoinSpend> = Vec::new();
        std::mem::swap(&mut coin_spends, &mut self.coin_spends);
        assert(self@ =~= Seq::<CoinSpendView>::empty());
        coin_spends
    }
}

/// What an owner's spend with `conditions` is: a standard owner's puzzle emits them, a custom owner's
/// spend is taken as it is.
pub open spec fn owner_spend(owner: OwnerView, conditions: Seq<Seq<u8>>) -> Result<
    SpendView,
    Fault,
> {
    match owner {
        OwnerView::Standard(key) => match standard_spend(key, conditions) {
            Ok(spend) => Ok(spend),
            Err(text) => Err(Fault::Driver(text)),
        },
        OwnerView::Custom(spend) => Ok(spend),
    }
}

/// The inner spend of `owner`: a standard owner's spend emits `conditions`, a custom owner's spend is
/// passed through unchanged and emits whatever it emits.
pub fn inner_spend(owner: &Owner, conditions: &Conditions) -> (spend: DidResult<Spend>)
    ensures
        outcome(spend) == owner_spend(owner@, conditions@),
        spend matches Ok(spend) ==> owner@ matches OwnerView::Standard(key) ==> {
            &&& emits_behind_signature(spend@, conditions@)
            &&& creates_after_one(spend@, conditions@)
            &&& is_valid_key(key) ==> is_signed_by(spend@, key, agg_sigs(conditions@))
            &&& puzzle_tree_hash(spend@.puzzle) == standard_puzzle_hash(key)
            &&& is_canonical(spend@.puzzle)
            &&& is_canonical(spend@.solution)
        },
{
    match owner {
        Owner::Standard(key) => match spend_standard(key, conditions.items()) {
            Ok(spend) => {
                proof {
                    lemma_creates_after_one(spend@, conditions@);
                }
                Ok(spend)
            },
            Err(error) => Err(DidError::Driver(error)),
        },
        Owner::Custom(spend) => Ok(spend.clone()),
    }
}

/// The hash of an owner's puzzle: the `p2_puzzle_hash` of a DID that the owner controls.
pub open spec fn owner_puzzle_hash(owner: OwnerView) -> Result<Seq<u8>, Fault> {
    match owner {
        OwnerView::Standard(key) => Ok(standard_puzzle_hash(key)),
        OwnerView::Custom(spend) => match clvm_fault(spend.puzzle) {
            Some(text) => Err(Fault::Parse(text)),
            None => Ok(puzzle_tree_hash(spend.puzzle)),
        },
    }
}

impl Owner {
    /// The hash of the owner's puzzle, which a DID that the owner controls has as its `p2_puzzle_hash`,
    /// or [`DidError::Parse`] where a custom owner's puzzle is no CLVM tree.
    pub fn puzzle_hash(&self) -> (hash: DidResult<Bytes32>)
        ensures
            (match hash {
                Ok(hash) => Ok(hash_bytes(hash)),
                Err(error) => Err(error@),
            }) == owner_puzzle_hash(self@),
    {
        match self {
            Owner::Standard(key) => Ok(standard_hash(key)),
            Owner::Custom(spend) => match check_program(&spend.puzzle) {
                Ok(_) => Ok(tree_hash_of(&spend.puzzle)),
                Err(error) => Err(error),
            },
        }
    }
}

/// Takes the staged coin spends out of `context`.
pub fn drain_coin_spends(context: &mut SpendContext) -> (coin_spends: Vec<CoinSpend>)
    ensures
        views(coin_spends@) == old(context)@,
        final(context)@ == Seq::<CoinSpendView>::empty(),
{
    context.take()
}

/// The spends of a coin are spends of that coin, one for each puzzle and solution and in their order.
pub proof fn coin_spends_are_of_the_coin(coin: CoinView, spends: Seq<SpendView>)
    ensures
        coin_spends(coin, spends).len() == spends.len(),
        forall|i: int|
            0 <= i < spends.len() ==> {
                &&& (#[trigger] coin_spends(coin, spends)[i]).coin == coin
                &&& coin_spends(coin, spends)[i].puzzle_reveal == spends[i].puzzle
                &&& coin_spends(coin, spends)[i].solution == spends[i].solution
            },
{
}

/// A standard owner's spend with conditions is the one that the driver builds for the key and them; a custom
/// owner's is the one that it brings, whatever the conditions.
pub proof fn owners_spend_with_their_own_puzzle(
    owner: OwnerView,
    conditions: Seq<Seq<u8>>,
    spend: SpendView,
    text: Seq<char>,
)
    ensures
        owner_spend(owner, conditions) == Ok::<SpendView, Fault>(spend) <==> match owner {
            OwnerView::Standard(key) => standard_spend(key, conditions) == Ok::<SpendView, Seq<char>>(
                spend,
            ),
            OwnerView::Custom(own) => own == spend,
        },
        owner_spend(owner, conditions) == Err::<SpendView, Fault>(Fault::Driver(text)) <==> {
            &&& owner matches OwnerView::Standard(key)
            &&& standard_spend(key, conditions) == Err::<SpendView, Seq<char>>(text)
        },
        owner_spend(owner, conditions) matches Err(fault) ==> fault is Driver,
{
}

/// The hash of an owner is that of the standard puzzle of its key, or that of the puzzle which it brings. It
/// has none exactly where that puzzle is no CLVM tree.
pub proof fn owners_hash_as_their_puzzle(owner: OwnerView, hash: Seq<u8>, text: Seq<char>)
    ensures
        owner_puzzle_hash(owner) == Ok::<Seq<u8>, Fault>(hash) <==> match owner {
            OwnerView::Standard(key) => hash == standard_puzzle_hash(key),
            OwnerView::Custom(own) => clvm_fault(own.puzzle) is None && hash == puzzle_tree_hash(
                own.puzzle,
            ),
        },
        owner_puzzle_hash(owner) == Err::<Seq<u8>, Fault>(Fault::Parse(text)) <==> {
            &&& owner matches OwnerView::Custom(own)
            &&& clvm_fault(own.puzzle) == Some(text)
        },
        owner_puzzle_hash(owner) matches Err(fault) ==> fault is Parse,
{
}

} // verus!
