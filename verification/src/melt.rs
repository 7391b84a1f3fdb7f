//! DID melt: the terminal spend.
//!
//! [`melt`] spends a DID singleton with a `MELT_SINGLETON` condition instead of the recreation that
//! every other operation emits, so the singleton is permanently retired and no coin of the next
//! generation exists. The melted amount is not paid out: the one odd-amount output that a singleton may
//! emit is the melt condition itself, so the amount becomes an implicit fee.
use vstd::prelude::*;

#[allow(unused_imports)]
use chia_wallet_sdk::signer::AggSigConstants;

use crate::bytes::same_hash;
use crate::conditions::{melt_singleton, Conditions};
use crate::context::{drain_coin_spends, inner_spend, SpendContext};
use crate::driver::{spend_did, standard_hash};
use crate::error::{DidError, DidResult};
use crate::types::{Did, DidSpend, Owner};

#[allow(unused_imports)]
use crate::bytes::{is_valid_key, program_bytes};
#[allow(unused_imports)]
use crate::clvm::{emitted, is_canonical, run_conditions, CreatedCoinView};
#[allow(unused_imports)]
use crate::conditions::{agg_sigs, created_by, melt_condition, reads_as, ConditionView};
#[allow(unused_imports)]
use crate::context::{coin_spend, coin_spends};
#[allow(unused_imports)]
use crate::driver::{
    coins_created, coins_of, created_by_all, creates_by_conditions, did_spend,
    emits_behind_signature, first_odd, reads_alike, singleton_emits, singleton_puzzle_in, standard_puzzle_hash,
    standard_spend, wrapped, wrapped_all, wraps,
};
#[allow(unused_imports)]
use crate::error::{outcome, Fault};
#[allow(unused_imports)]
use crate::hydrate::{hydrating, parsing, ParsedSpend};
#[allow(unused_imports)]
use crate::sign::{
    domain_strings, is_owner_signature, requires_owner_signature, signatures_of_all,
    RequiredSignatureView,
};
#[allow(unused_imports)]
use crate::types::{
    CoinSpendView, CoinView, DidSpendView, DidView, OwnerView, SpendView,
};
#[allow(unused_imports)]
use crate::walk::successor_of;

verus! {

/// Why [`melt`] refuses a custom owner.
pub open spec fn custom_owner_refusal() -> Seq<char> {
    "melt requires Owner::Standard; a pre-built custom inner spend cannot carry the MELT_SINGLETON condition this call builds — the bundle would melt nothing"@
}

/// Why the owner's control of a DID is not proven, or `None` where it is: the key's standard puzzle
/// hashes to exactly the DID's current owner puzzle hash.
pub open spec fn control_fault(did: DidView, owner: OwnerView) -> Option<Fault> {
    match owner {
        OwnerView::Custom(_) => Some(
            Fault::UnsupportedOwner(
                "melt requires Owner::Standard to prove control of the singleton"@,
            ),
        ),
        OwnerView::Standard(key) => if standard_puzzle_hash(key) == did.info.p2_puzzle_hash {
            None
        } else {
            Some(Fault::NotTheOwner)
        },
    }
}

/// What a melt does: what is staged afterwards, and the result.
#[verifier::ext_equal]
pub struct Melted {
    pub staged: Seq<CoinSpendView>,
    pub spend: Result<DidSpendView, Fault>,
}

/// What [`melt`] does: a custom owner and a key that does not control the DID are refused before
/// anything is staged; otherwise the DID is spent with the melt condition alone, everything staged is
/// taken out, and no DID is left.
pub open spec fn melting(staged: Seq<CoinSpendView>, did: DidView, owner: OwnerView) -> Melted {
    match owner {
        OwnerView::Custom(_) => Melted {
            staged,
            spend: Err(Fault::UnsupportedOwner(custom_owner_refusal())),
        },
        OwnerView::Standard(key) => if standard_puzzle_hash(key) != did.info.p2_puzzle_hash {
            Melted { staged, spend: Err(Fault::NotTheOwner) }
        } else {
            match standard_spend(key, seq![melt_condition()]) {
                Err(text) => Melted { staged, spend: Err(Fault::Driver(text)) },
                Ok(inner) => match did_spend(did, inner).child {
                    Err(text) => Melted {
                        staged: staged + coin_spends(did.coin, did_spend(did, inner).staged),
                        spend: Err(Fault::Driver(text)),
                    },
                    Ok(_) => Melted {
                        staged: Seq::empty(),
                        spend: Ok(
                            DidSpendView {
                                coin_spends: staged + coin_spends(
                                    did.coin,
                                    did_spend(did, inner).staged,
                                ),
                                child: None,
                            },
                        ),
                    },
                },
            }
        },
    }
}

/// Whether the spend of a singleton of `launcher_id` ends it, where it runs: running it creates no coin
/// at all, a walk finds no successor, and every coin is refused as its child.
pub open spec fn ends_singleton(spend: CoinSpendView, launcher_id: Seq<u8>) -> bool {
    &&& coins_of(spend) matches Some(coins) ==> coins.len() == 0
    &&& singleton_emits(spend.puzzle_reveal, spend.solution) is Some ==> {
        &&& singleton_puzzle_in(spend.puzzle_reveal) matches Ok(Some(layer))
        &&& layer.launcher_id == launcher_id
        &&& successor_of(spend.coin, layer, spend.solution) == Ok::<Option<CoinView>, Fault>(None)
        &&& forall|child_coin: CoinView| #[trigger]
            hydrating(spend.coin, spend.puzzle_reveal, spend.solution, child_coin) == Err::<
                DidView,
                Fault,
            >(Fault::MissingLineage)
    }
}

/// What a melt that succeeds leaves behind: no DID, and exactly one more spend than was staged before,
/// that of the DID's coin, authorized by the key that controls the DID. It creates no coin at all and
/// ends the singleton. It reads back as the DID that was melted, authorized by the owner's spend, and
/// requires one signature, the owner's, where the key is valid.
pub open spec fn is_melted(
    before: Seq<CoinSpendView>,
    did: DidView,
    owner: OwnerView,
    spend: DidSpendView,
) -> bool {
    &&& owner matches OwnerView::Standard(key)
    &&& standard_puzzle_hash(key) == did.info.p2_puzzle_hash
    &&& standard_spend(key, seq![melt_condition()]) matches Ok(inner)
    &&& emitted(inner.puzzle, inner.solution) == Ok::<Seq<Option<CreatedCoinView>>, Seq<char>>(
        seq![None, None],
    )
    &&& spend.child is None
    &&& spend.coin_spends.len() == before.len() + 1
    &&& spend.coin_spends.drop_last() == before
    &&& spend.coin_spends.last().coin == did.coin
    &&& ends_singleton(spend.coin_spends.last(), did.info.launcher_id)
    &&& parsing(
        did.coin,
        spend.coin_spends.last().puzzle_reveal,
        spend.coin_spends.last().solution,
    ) == Ok::<Option<ParsedSpend>, Fault>(Some(ParsedSpend { did, p2_spend: Some(inner) }))
    &&& is_valid_key(key) ==> requires_owner_signature(
        spend.coin_spends.last(),
        key,
        Seq::empty(),
    )
}

/// Terminally spends `did`: the returned [`DidSpend`] creates no successor and its `child` is `None`.
///
/// This is irreversible. A launcher id derives from a coin that has been spent, so a melted DID can
/// never be recreated. The spend requires exactly one `AGG_SIG_ME`, under `owner`'s key.
///
/// # Errors
///
/// - [`DidError::UnsupportedOwner`] for a custom owner, whose pre-built spend cannot carry the
///   `MELT_SINGLETON` condition.
/// - [`DidError::NotTheOwner`] if the key does not curry to the DID's current `p2_puzzle_hash`. The
///   check comes before any spend exists.
/// - [`DidError::Driver`] if the driver fails to build the spend.
pub fn melt(context: &mut SpendContext, did: Did, owner: Owner) -> (melted: DidResult<DidSpend>)
    ensures
        (Melted { staged: final(context)@, spend: outcome(melted) }) == melting(
            old(context)@,
            did@,
            owner@,
        ),
        melted matches Ok(spend) ==> is_melted(old(context)@, did@, owner@, spend@),
{
    if let Owner::Custom(_) = owner {
        return Err(
            DidError::UnsupportedOwner(
                "melt requires Owner::Standard; a pre-built custom inner spend cannot carry the MELT_SINGLETON condition this call builds — the bundle would melt nothing",
            ),
        );
    }
    match gate_owner_controls_did(&did, &owner) {
        Ok(_) => {},
        Err(error) => {
            return Err(error);
        },
    }
    let condition = melt_singleton();
    let ghost bytes = program_bytes(condition);
    let conditions = Conditions::new().with(condition);
    assert(conditions@ =~= seq![melt_condition()]);
    let inner = match inner_spend(&owner, &conditions) {
        Ok(inner) => inner,
        Err(error) => {
            return Err(error);
        },
    };
    let (staged, successor) = spend_did(
        &did.coin,
        &did.proof,
        &did.info,
        &inner.puzzle,
        &inner.solution,
    );
    context.spend_all(did.coin, staged);
    proof {
        let created = seq![None::<CreatedCoinView>] + created_by_all(seq![bytes]);
        assert(created_by(bytes) == None::<CreatedCoinView>);
        assert(created[0] == None::<CreatedCoinView>);
        assert(created.drop_first()[0] == created_by(bytes));
        reveal_with_fuel(first_odd, 3);
        assert(first_odd(created) == None::<CreatedCoinView>);
        assert(created =~= seq![None::<CreatedCoinView>, None::<CreatedCoinView>]);
        if successor matches Ok(None) {
            let spent = did_spend(did@, inner@);
            assert(context@ =~= old(context)@.push(coin_spend(did.coin@, spent.staged[0])));
            assert(context@.drop_last() =~= old(context)@);
            lemma_melt_ends_singleton(did@, inner@, spent.staged[0]);
            assert(did@.info.owned_by(did@.info.p2_puzzle_hash) =~= did@.info);
            assert(seq![bytes].drop_last() =~= Seq::<Seq<u8>>::empty());
            reveal_with_fuel(agg_sigs, 2);
            assert(is_valid_key(owner@->Standard_0) ==> requires_owner_signature(
                coin_spend(did.coin@, inner@),
                owner@->Standard_0,
                Seq::empty(),
            ));
        }
    }
    match successor {
        Err(error) => Err(DidError::Driver(error)),
        Ok(Some(_)) => Err(
            DidError::Parse(
                "melt produced a successor DID: the singleton was recreated, not melted".to_owned(),
            ),
        ),
        Ok(None) => Ok(DidSpend::new(drain_coin_spends(context), None)),
    }
}

/// Whether a staged spend creates no coin, where its inner spend emits the melt condition behind an
/// `AGG_SIG_ME`.
proof fn lemma_melt_ends_singleton(did: DidView, inner: SpendView, staged: SpendView)
    requires
        is_canonical(melt_condition()),
        reads_as(melt_condition(), ConditionView::Named(51)),
        emits_behind_signature(inner, seq![melt_condition()]),
        creates_by_conditions(staged),
        run_conditions(staged.puzzle, staged.solution) matches Ok(all) ==> run_conditions(
            inner.puzzle,
            inner.solution,
        ) matches Ok(inner_all) && wraps(did.info.launcher_id, inner_all, all),
    ensures
        coins_of(coin_spend(did.coin, staged)) matches Some(coins) ==> coins.len() == 0,
{
    if let Ok(all) = run_conditions(staged.puzzle, staged.solution) {
        let inner_all = run_conditions(inner.puzzle, inner.solution)->Ok_0;
        let launcher_id = did.info.launcher_id;
        assert(reads_alike(inner_all[0int + 1], seq![melt_condition()][0]));
        assert(melt_condition()[1] == 51);
        assert(wrapped(launcher_id, inner_all[1]) == Some(Seq::<Seq<u8>>::empty()));
        assert(wrapped(launcher_id, inner_all[0]) == Some(seq![inner_all[0]]));
        reveal_with_fuel(wrapped_all, 3);
        assert(inner_all.drop_last().drop_last() =~= Seq::<Seq<u8>>::empty());
        let outer = Seq::<Seq<u8>>::empty() + seq![inner_all[0]] + Seq::<Seq<u8>>::empty();
        assert(wrapped_all(launcher_id, inner_all) == Some(outer));
        assert(all.skip(2)[0] == all[2]);
        let created = created_by_all(all);
        assert(created.len() == 3);
        reveal_with_fuel(coins_created, 4);
        assert(created[0] is None && created[1] is None && created[2] is None);
    }
}

/// Refuses `owner` unless its key curries to the DID's current inner puzzle hash: the commitment that
/// the DID's own puzzle enforces on chain, evaluated before a spend exists.
pub fn gate_owner_controls_did(did: &Did, owner: &Owner) -> (gated: DidResult<()>)
    ensures
        outcome(gated) == (match control_fault(did@, owner@) {
            Some(fault) => Err(fault),
            None => Ok(()),
        }),
{
    match owner {
        Owner::Custom(_) => Err(
            DidError::UnsupportedOwner(
                "melt requires Owner::Standard to prove control of the singleton",
            ),
        ),
        Owner::Standard(key) => {
            let controlling_puzzle_hash = standard_hash(key);
            if !same_hash(&controlling_puzzle_hash, &did.info.p2_puzzle_hash) {
                return Err(DidError::NotTheOwner);
            }
            Ok(())
        },
    }
}

/// A melt that is refused stages nothing: for a custom owner, and for a key that does not control the
/// DID.
pub proof fn refused_melts_stage_nothing(
    staged: Seq<CoinSpendView>,
    did: DidView,
    owner: OwnerView,
)
    requires
        control_fault(did, owner) is Some,
    ensures
        melting(staged, did, owner).staged == staged,
        melting(staged, did, owner).spend is Err,
{
}

/// Only the key that controls a DID melts it, and a melt leaves no DID.
pub proof fn melts_are_the_owners_and_final(
    staged: Seq<CoinSpendView>,
    did: DidView,
    owner: OwnerView,
    spend: DidSpendView,
)
    requires
        melting(staged, did, owner).spend == Ok::<DidSpendView, Fault>(spend),
    ensures
        control_fault(did, owner) is None,
        spend.child is None,
        melting(staged, did, owner).staged.len() == 0,
{
}

/// A melt adds exactly one signature to those that were required before it: an `AGG_SIG_ME` of the owner
/// over the DID's coin.
pub proof fn melts_require_one_owner_signature(
    before: Seq<CoinSpendView>,
    did: DidView,
    owner: OwnerView,
    spend: DidSpendView,
    constants: AggSigConstants,
    signatures: Seq<RequiredSignatureView>,
)
    requires
        is_melted(before, did, owner, spend),
        owner.has_valid_key(),
        signatures_of_all(spend.coin_spends, domain_strings(constants)) == Ok::<
            Seq<RequiredSignatureView>,
            Fault,
        >(signatures),
    ensures
        owner matches OwnerView::Standard(key) && signatures_of_all(
            before,
            domain_strings(constants),
        ) matches Ok(prior) && {
            &&& signatures.len() == prior.len() + 1
            &&& signatures.take(prior.len() as int) == prior
            &&& is_owner_signature(
                signatures[prior.len() as int],
                key,
                did.coin,
                domain_strings(constants),
            )
        },
{
    let prior = signatures_of_all(before, domain_strings(constants))->Ok_0;
    assert(signatures.take(prior.len() as int) =~= prior);
}

/// A melt succeeds exactly where the owner's key controls the DID and the driver builds both spends, the owner's
/// with the melt condition alone and the DID's around it. What comes out is everything that was staged and
/// then the DID's spend. Another key is refused as not the owner's, a custom owner as unsupported, and a
/// driver failure as itself; what was staged before a failure stays staged.
pub proof fn melts_succeed_exactly_for_the_owner(
    staged: Seq<CoinSpendView>,
    did: DidView,
    owner: OwnerView,
    spend: DidSpendView,
    text: Seq<char>,
)
    ensures
        melting(staged, did, owner).spend == Ok::<DidSpendView, Fault>(spend) <==> {
            &&& owner matches OwnerView::Standard(key)
            &&& standard_puzzle_hash(key) == did.info.p2_puzzle_hash
            &&& standard_spend(key, seq![melt_condition()]) matches Ok(inner)
            &&& did_spend(did, inner).child is Ok
            &&& spend.coin_spends == staged + coin_spends(did.coin, did_spend(did, inner).staged)
            &&& spend.child is None
        },
        melting(staged, did, owner).spend == Err::<DidSpendView, Fault>(Fault::NotTheOwner) <==> {
            &&& owner matches OwnerView::Standard(key)
            &&& standard_puzzle_hash(key) != did.info.p2_puzzle_hash
        },
        melting(staged, did, owner).spend matches Err(Fault::UnsupportedOwner(_)) <==> owner is Custom,
        melting(staged, did, owner).spend == Err::<DidSpendView, Fault>(Fault::Driver(text)) <==> {
            &&& owner matches OwnerView::Standard(key)
            &&& standard_puzzle_hash(key) == did.info.p2_puzzle_hash
            &&& match standard_spend(key, seq![melt_condition()]) {
                Err(reason) => reason == text,
                Ok(inner) => did_spend(did, inner).child == Err::<Option<(Seq<u8>, u64)>, Seq<char>>(
                    text,
                ),
            }
        },
        melting(staged, did, owner).spend matches Err(fault) ==> {
            &&& fault is NotTheOwner || fault is UnsupportedOwner || fault is Driver
            &&& staged.is_prefix_of(melting(staged, did, owner).staged)
        },
{
    let after = melting(staged, did, owner);
    assert(after.staged.len() >= staged.len() ==> after.staged.subrange(0, staged.len() as int)
        =~= staged || after.spend is Ok);
    if let Ok(built) = after.spend {
        assert(built.coin_spends == spend.coin_spends && built.child == spend.child ==> built == spend);
    }
}

/// An owner controls a DID exactly by the key whose standard puzzle hashes to the DID's owner hash. Another key
/// is refused as not the owner's, and a custom owner as unsupported.
pub proof fn only_the_owners_key_controls_a_did(did: DidView, owner: OwnerView)
    ensures
        match owner {
            OwnerView::Standard(key) => {
                &&& control_fault(did, owner) is None <==> standard_puzzle_hash(key)
                    == did.info.p2_puzzle_hash
                &&& control_fault(did, owner) is Some <==> control_fault(did, owner) == Some(
                    Fault::NotTheOwner,
                )
            },
            OwnerView::Custom(_) => control_fault(did, owner) matches Some(Fault::UnsupportedOwner(_)),
        },
{
}

/// A melt adds one spend behind those that were staged, that of the DID's coin. Parsed, it is the DID that was
/// melted, authorized by the owner's spend with the melt condition. Where it runs, it creates no coin; where
/// its inner puzzle runs, no coin of odd amount is among what that creates, and every coin is refused as its
/// child.
pub proof fn melts_end_the_did_that_they_show(
    before: Seq<CoinSpendView>,
    did: DidView,
    owner: OwnerView,
    spend: DidSpendView,
    child_coin: CoinView,
)
    requires
        is_melted(before, did, owner, spend),
    ensures
        spend.coin_spends.len() == before.len() + 1,
        forall|i: int| 0 <= i < before.len() ==> #[trigger] spend.coin_spends[i] == before[i],
        spend.coin_spends.last().coin == did.coin,
        spend.child is None,
        owner matches OwnerView::Standard(key) && standard_spend(key, seq![melt_condition()]) matches Ok(
            inner,
        ) && parsing(
            did.coin,
            spend.coin_spends.last().puzzle_reveal,
            spend.coin_spends.last().solution,
        ) == Ok::<Option<ParsedSpend>, Fault>(Some(ParsedSpend { did, p2_spend: Some(inner) })),
        coins_of(spend.coin_spends.last()) matches Some(coins) ==> coins.len() == 0,
        singleton_emits(
            spend.coin_spends.last().puzzle_reveal,
            spend.coin_spends.last().solution,
        ) matches Some(created) ==> {
            &&& first_odd(created) is None
            &&& hydrating(
                did.coin,
                spend.coin_spends.last().puzzle_reveal,
                spend.coin_spends.last().solution,
                child_coin,
            ) == Err::<DidView, Fault>(Fault::MissingLineage)
        },
{
    assert forall|i: int| 0 <= i < before.len() implies #[trigger] spend.coin_spends[i] == before[i] by {
        assert(spend.coin_spends.drop_last()[i] == before[i]);
    }
}

} // verus!
