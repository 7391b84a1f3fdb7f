//! DID creation.
//!
//! Minting a DID from a funding coin is three coin spends bundled together: the launcher spend, which
//! creates the eve DID; the owner's settle spend, which confirms the DID so that wallets can parse it;
//! and the funding coin spend, which creates the launcher. All three land in one [`DidSpend`], in this
//! order.
//!
//! Creation requires a standard owner. A pre-built inner spend is one fixed puzzle and solution: it
//! cannot emit both the launcher conditions from the funding coin and the recreation from the DID coin,
//! and neither can be computed before the call.
use vstd::prelude::*;

use chia_protocol::Bytes32;
#[allow(unused_imports)]
use chia_wallet_sdk::signer::AggSigConstants;

use crate::amount::SingletonAmount;
use crate::clvm::Metadata;
use crate::conditions::Conditions;
use crate::context::{drain_coin_spends, inner_spend, SpendContext};
use crate::driver::{launch_eve, launcher_hash, standard_hash};
use crate::error::{DidError, DidResult};
use crate::types::{Coin, Did, DidInfo, DidSpend, Owner};
use crate::update::spend_did_with_conditions;

#[allow(unused_imports)]
use crate::amount::singleton_amount;
#[allow(unused_imports)]
use crate::bytes::{hash_bytes, is_valid_key, optional_hash_bytes};
#[allow(unused_imports)]
use crate::chain::MAX_LINEAGE_DEPTH;
#[allow(unused_imports)]
use crate::clvm::{emitted, run_conditions, CreatedCoinView};
#[allow(unused_imports)]
use crate::conditions::{agg_sigs, hinted_create_coin};
#[allow(unused_imports)]
use crate::context::{coin_spend, coin_spends, owner_spend};
#[allow(unused_imports)]
use crate::driver::{
    coin_id_of, coins_created, coins_of, created_by_all, creates_after_one, creates_only,
    did_inner_puzzle_hash, did_spend, eve_did, eve_launch, is_signed_by, launcher_coin, launcher_puzzle_hash, launches, singleton_emits,
    standard_puzzle_hash, standard_spend, EveLaunchView,
};
#[allow(unused_imports)]
use crate::error::{outcome, Fault};
#[allow(unused_imports)]
use crate::hydrate::{hydrating, parsing, reads_back_as, ParsedSpend};
#[allow(unused_imports)]
use crate::resolve::{staged_dids_are_found_at_their_tip, tip_in};
#[allow(unused_imports)]
use crate::sign::{
    domain_strings, is_owner_signature, requires_no_signature, requires_owner_signature,
    signatures_of_all, RequiredSignatureView,
};
#[allow(unused_imports)]
use crate::walk::{
    authentication_is_complete, is_genuine, known_replies, launches_coin, lineages_grow_by_one_spend,
    recreates_as, report_of, runs_as_singleton, walking, AuthenticatedLineageView, WalkView,
};
#[allow(unused_imports)]
use crate::types::{CoinSpendView, CoinView, DidSpendView, DidView, OwnerView, SpendView};
#[allow(unused_imports)]
use crate::update::{
    first_refusal, is_preserved, preserving_spend, recreated_coin, recreation, wrapped_coin, Preserved,
};

verus! {

/// Why [`create_did`] refuses a custom owner.
pub open spec fn create_refusal() -> Seq<char> {
    "create_did requires Owner::Standard; a pre-built custom inner spend cannot emit both the launcher conditions and the DID's recreation — build the launch yourself with Launcher::create_eve_did"@
}

/// Why [`create_eve_did_only`] refuses a custom owner.
pub open spec fn create_eve_refusal() -> Seq<char> {
    "create_eve_did_only requires Owner::Standard; a pre-built custom inner spend cannot emit the launcher conditions, which are only computable inside this call — build the launch yourself with Launcher::create_eve_did"@
}

/// What a DID is created with: the coin that funds it, and what its puzzle is made of.
pub ghost struct Creation {
    pub funding_coin: CoinView,
    pub recovery_list_hash: Option<Seq<u8>>,
    pub num_verifications_required: u64,
    pub metadata: Seq<u8>,
}

impl Creation {
    /// The DID as the launcher creates it for the owner of `key`, with the funding coin's whole
    /// amount.
    pub open spec fn eve(self, key: Seq<u8>) -> DidView {
        eve_did(
            self.funding_coin.id(),
            self.funding_coin.amount,
            standard_puzzle_hash(key),
            self.recovery_list_hash,
            self.num_verifications_required,
            self.metadata,
        )
    }
}

/// What a creation step does: what is staged afterwards, and what comes out.
pub ghost struct Step<T> {
    pub staged: Seq<CoinSpendView>,
    pub result: Result<T, Fault>,
}

/// The launch of the eve DID of a standard owner's `key`: an even funding amount is refused, and
/// otherwise the launcher's spend is staged.
pub open spec fn launch_step(
    staged: Seq<CoinSpendView>,
    creation: Creation,
    key: Seq<u8>,
) -> Step<EveLaunchView> {
    match singleton_amount(creation.funding_coin.amount) {
        Err(fault) => Step { staged, result: Err(fault) },
        Ok(amount) => match eve_launch(creation.eve(key)) {
            Err(text) => Step { staged, result: Err(Fault::Driver(text)) },
            Ok(launch) => Step {
                staged: staged.push(
                    coin_spend(launcher_coin(creation.funding_coin.id(), amount), launch.launcher),
                ),
                result: Ok(launch),
            },
        },
    }
}

/// The spend of the funding coin, which ends a creation: everything staged is taken out, and `child`
/// is the DID that is left.
pub open spec fn funding_step(
    staged: Seq<CoinSpendView>,
    creation: Creation,
    owner: OwnerView,
    launch: EveLaunchView,
    child: DidView,
) -> Step<DidSpendView> {
    match owner_spend(owner, launch.conditions) {
        Err(fault) => Step { staged, result: Err(fault) },
        Ok(spend) => Step {
            staged: Seq::empty(),
            result: Ok(
                DidSpendView {
                    coin_spends: staged.push(coin_spend(creation.funding_coin, spend)),
                    child: Some(child),
                },
            ),
        },
    }
}

/// What [`create_eve_did_only`] does: the launcher is spent, then the funding coin.
pub open spec fn creating_eve(
    staged: Seq<CoinSpendView>,
    creation: Creation,
    owner: OwnerView,
) -> Step<DidSpendView> {
    match owner {
        OwnerView::Custom(_) => Step {
            staged,
            result: Err(Fault::UnsupportedOwner(create_eve_refusal())),
        },
        OwnerView::Standard(key) => {
            let launched = launch_step(staged, creation, key);
            match launched.result {
                Err(fault) => Step { staged: launched.staged, result: Err(fault) },
                Ok(launch) => funding_step(
                    launched.staged,
                    creation,
                    owner,
                    launch,
                    creation.eve(key),
                ),
            }
        },
    }
}

/// What [`create_did`] does: the launcher is spent, then the eve DID with no condition but its
/// recreation, then the funding coin.
pub open spec fn creating(
    staged: Seq<CoinSpendView>,
    creation: Creation,
    owner: OwnerView,
) -> Step<DidSpendView> {
    match owner {
        OwnerView::Custom(_) => Step {
            staged,
            result: Err(Fault::UnsupportedOwner(create_refusal())),
        },
        OwnerView::Standard(key) => {
            let launched = launch_step(staged, creation, key);
            match launched.result {
                Err(fault) => Step { staged: launched.staged, result: Err(fault) },
                Ok(launch) => {
                    let settled = preserving_spend(
                        launched.staged,
                        creation.eve(key),
                        owner,
                        Seq::empty(),
                    );
                    match settled.child {
                        Err(fault) => Step { staged: settled.staged, result: Err(fault) },
                        Ok(child) => funding_step(settled.staged, creation, owner, launch, child),
                    }
                },
            }
        },
    }
}

/// Whether `spend` is the spend of a creation's funding coin by the owner of `key`, which asks for
/// nothing but the launcher: it emits a condition that creates nothing, the launcher with the whole
/// amount, and an assertion.
pub open spec fn funds_launcher(creation: Creation, key: Seq<u8>, spend: CoinSpendView) -> bool {
    &&& eve_launch(creation.eve(key)) matches Ok(launch)
    &&& standard_spend(key, launch.conditions) matches Ok(inner)
    &&& spend == coin_spend(creation.funding_coin, inner)
    &&& emitted(inner.puzzle, inner.solution) matches Ok(created) ==> created == seq![
        None,
        Some(
            CreatedCoinView {
                puzzle_hash: launcher_puzzle_hash(),
                amount: creation.funding_coin.amount,
                memo: None,
            },
        ),
        None,
    ]
    &&& coins_of(spend) matches Some(coins) ==> coins == seq![
        launcher_coin(creation.funding_coin.id(), creation.funding_coin.amount),
    ]
}

/// What [`create_eve_did_only`] leaves behind when it succeeds: the eve DID of an odd funding coin, and
/// two more spends than were staged before, that of the launcher, which creates nothing but the eve DID
/// and requires no signature, and that of the funding coin, which creates nothing but the launcher and
/// requires the owner's, where the key is valid.
pub open spec fn is_created_eve(
    before: Seq<CoinSpendView>,
    creation: Creation,
    owner: OwnerView,
    spend: DidSpendView,
) -> bool {
    let count = before.len() as int;
    let amount = creation.funding_coin.amount;
    &&& owner matches OwnerView::Standard(key)
    &&& amount % 2 == 1
    &&& spend.child == Some(creation.eve(key))
    &&& spend.coin_spends.len() == count + 2
    &&& spend.coin_spends.take(count) == before
    &&& spend.coin_spends[count].coin == launcher_coin(creation.funding_coin.id(), amount)
    &&& launches_coin(spend.coin_spends[count], creation.eve(key).coin.id())
    &&& coins_of(spend.coin_spends[count]) == Some(seq![creation.eve(key).coin])
    &&& requires_no_signature(spend.coin_spends[count])
    &&& funds_launcher(creation, key, spend.coin_spends[count + 1])
    &&& is_valid_key(key) ==> requires_owner_signature(spend.coin_spends[count + 1], key, Seq::empty())
}

/// What [`create_did`] leaves behind when it succeeds: the settled DID of an odd funding coin, and three
/// more spends than were staged before, that of the launcher, that of the eve DID and that of the
/// funding coin. Each creates nothing but the coin that is spent next or left. The launcher's requires no
/// signature; the other two require the owner's, where the key is valid. The eve DID's spend reads back
/// as the eve DID and the settled one, and is a step of the DID's lineage.
pub open spec fn is_created(
    before: Seq<CoinSpendView>,
    creation: Creation,
    owner: OwnerView,
    spend: DidSpendView,
) -> bool {
    let count = before.len() as int;
    let amount = creation.funding_coin.amount;
    &&& owner matches OwnerView::Standard(key)
    &&& amount % 2 == 1
    &&& standard_spend(key, seq![recreation(creation.eve(key))]) matches Ok(inner)
    &&& emitted(inner.puzzle, inner.solution) == Ok::<Seq<Option<CreatedCoinView>>, Seq<char>>(
        seq![None, Some(recreated_coin(creation.eve(key)))],
    )
    &&& spend.child == Some(creation.eve(key).child(standard_puzzle_hash(key), amount))
    &&& spend.coin_spends.len() == count + 3
    &&& spend.coin_spends.take(count) == before
    &&& spend.coin_spends[count].coin == launcher_coin(creation.funding_coin.id(), amount)
    &&& launches_coin(spend.coin_spends[count], creation.eve(key).coin.id())
    &&& coins_of(spend.coin_spends[count]) == Some(seq![creation.eve(key).coin])
    &&& requires_no_signature(spend.coin_spends[count])
    &&& spend.coin_spends[count + 1].coin == creation.eve(key).coin
    &&& coins_of(spend.coin_spends[count + 1]) matches Some(coins) ==> coins == seq![
        creation.eve(key).child(standard_puzzle_hash(key), amount).coin,
    ]
    &&& singleton_emits(
        spend.coin_spends[count + 1].puzzle_reveal,
        spend.coin_spends[count + 1].solution,
    ) is Some ==> recreates_as(
        spend.coin_spends[count + 1],
        creation.eve(key).info.launcher_id,
        creation.eve(key).child(standard_puzzle_hash(key), amount).coin,
    )
    &&& is_valid_key(key) ==> requires_owner_signature(spend.coin_spends[count + 1], key, Seq::empty())
    &&& funds_launcher(creation, key, spend.coin_spends[count + 2])
    &&& is_valid_key(key) ==> requires_owner_signature(spend.coin_spends[count + 2], key, Seq::empty())
    &&& reads_back_as(
        spend.coin_spends[count + 1],
        creation.eve(key),
        inner,
        creation.eve(key).child(standard_puzzle_hash(key), amount),
    )
}

/// The values that a DID is created with, as bytes.
pub open spec fn creation_of(
    funding_coin: Coin,
    recovery_list_hash: Option<Bytes32>,
    num_verifications_required: u64,
    metadata: Metadata,
) -> Creation {
    Creation {
        funding_coin: funding_coin@,
        recovery_list_hash: optional_hash_bytes(recovery_list_hash),
        num_verifications_required,
        metadata: metadata@,
    }
}

/// Mints a new DID, settled and wallet-parseable, from a funding coin. The returned `child` is the
/// created DID.
///
/// The singleton's amount is the funding coin's whole amount: no change output is emitted. It must be
/// odd, and any excess is locked in the identity coin, so pass a coin split to exactly the amount that
/// the DID should carry.
///
/// Two `AGG_SIG_ME` signatures are required, both under the owner's key: one for the funding coin and
/// one for the settle spend.
///
/// # Errors
///
/// - [`DidError::UnsupportedOwner`] for a custom owner.
/// - [`DidError::EvenSingletonAmount`] if the funding coin's amount is even.
/// - [`DidError::Driver`] for a driver failure.
pub fn create_did(
    context: &mut SpendContext,
    funding_coin: Coin,
    owner: Owner,
    recovery_list_hash: Option<Bytes32>,
    num_verifications_required: u64,
    metadata: Metadata,
) -> (created: DidResult<DidSpend>)
    ensures
        (Step { staged: final(context)@, result: outcome(created) }) == creating(
            old(context)@,
            creation_of(funding_coin, recovery_list_hash, num_verifications_required, metadata),
            owner@,
        ),
        created matches Ok(spend) ==> is_created(
            old(context)@,
            creation_of(funding_coin, recovery_list_hash, num_verifications_required, metadata),
            owner@,
            spend@,
        ),
{
    let owner_puzzle_hash = match standard_owner_puzzle_hash(
        &owner,
        "create_did requires Owner::Standard; a pre-built custom inner spend cannot emit both the launcher conditions and the DID's recreation — build the launch yourself with Launcher::create_eve_did",
    ) {
        Ok(hash) => hash,
        Err(error) => {
            return Err(error);
        },
    };
    let (launch_conditions, eve) = match launch(
        context,
        &funding_coin,
        owner_puzzle_hash,
        recovery_list_hash,
        num_verifications_required,
        metadata,
    ) {
        Ok(launched) => launched,
        Err(error) => {
            return Err(error);
        },
    };
    let ghost eve_view = eve@;
    let settled = match settle(context, eve, owner.clone()) {
        Ok(settled) => settled,
        Err(error) => {
            return Err(error);
        },
    };
    match spend_funding_coin(context, funding_coin, &owner, &launch_conditions) {
        Ok(_) => {},
        Err(error) => {
            return Err(error);
        },
    }
    proof {
        lemma_launch_creates_launcher(launch_conditions@, funding_coin.amount);
        lemma_funding_creates_launcher(
            funding_coin@,
            owner_spend(owner@, launch_conditions@)->Ok_0,
            launcher_coin(funding_coin@.id(), funding_coin.amount),
        );
        assert(seq![recreation(eve_view)] + Seq::<Seq<u8>>::empty() =~= seq![recreation(eve_view)]);
        assert(seq![None, Some(recreated_coin(eve_view))] + created_by_all(Seq::empty()) =~= seq![
            None,
            Some(recreated_coin(eve_view)),
        ]);
        assert(context@.take(old(context)@.len() as int) =~= old(context)@);
        assert(context@.drop_last().last() == context@[old(context)@.len() as int + 1]);
        let funding = owner_spend(owner@, launch_conditions@)->Ok_0;
        assert(is_valid_key(owner@->Standard_0) ==> requires_owner_signature(
            coin_spend(funding_coin@, funding),
            owner@->Standard_0,
            Seq::empty(),
        ));
    }
    Ok(DidSpend::new(drain_coin_spends(context), Some(settled)))
}

/// [`create_did`] with the common defaults: no recovery list, one required verification, and nil
/// metadata.
pub fn create_simple_did(
    context: &mut SpendContext,
    funding_coin: Coin,
    owner: Owner,
) -> (created: DidResult<DidSpend>)
    ensures
        (Step { staged: final(context)@, result: outcome(created) }) == creating(
            old(context)@,
            Creation {
                funding_coin: funding_coin@,
                recovery_list_hash: None,
                num_verifications_required: 1,
                metadata: seq![0x80u8],
            },
            owner@,
        ),
        created matches Ok(spend) ==> is_created(
            old(context)@,
            Creation {
                funding_coin: funding_coin@,
                recovery_list_hash: None,
                num_verifications_required: 1,
                metadata: seq![0x80u8],
            },
            owner@,
            spend@,
        ),
{
    create_did(context, funding_coin, owner, None, 1, Metadata::nil())
}

/// Launches the eve DID without the settle step, for a caller that performs its own follow-up spend on
/// it. Exactly one `AGG_SIG_ME` is required, for the funding coin. The funding coin's contract and the
/// errors are those of [`create_did`].
pub fn create_eve_did_only(
    context: &mut SpendContext,
    funding_coin: Coin,
    owner: Owner,
    recovery_list_hash: Option<Bytes32>,
    num_verifications_required: u64,
    metadata: Metadata,
) -> (created: DidResult<DidSpend>)
    ensures
        (Step { staged: final(context)@, result: outcome(created) }) == creating_eve(
            old(context)@,
            creation_of(funding_coin, recovery_list_hash, num_verifications_required, metadata),
            owner@,
        ),
        created matches Ok(spend) ==> is_created_eve(
            old(context)@,
            creation_of(funding_coin, recovery_list_hash, num_verifications_required, metadata),
            owner@,
            spend@,
        ),
{
    let owner_puzzle_hash = match standard_owner_puzzle_hash(
        &owner,
        "create_eve_did_only requires Owner::Standard; a pre-built custom inner spend cannot emit the launcher conditions, which are only computable inside this call — build the launch yourself with Launcher::create_eve_did",
    ) {
        Ok(hash) => hash,
        Err(error) => {
            return Err(error);
        },
    };
    let (launch_conditions, eve) = match launch(
        context,
        &funding_coin,
        owner_puzzle_hash,
        recovery_list_hash,
        num_verifications_required,
        metadata,
    ) {
        Ok(launched) => launched,
        Err(error) => {
            return Err(error);
        },
    };
    match spend_funding_coin(context, funding_coin, &owner, &launch_conditions) {
        Ok(_) => {},
        Err(error) => {
            return Err(error);
        },
    }
    proof {
        lemma_launch_creates_launcher(launch_conditions@, funding_coin.amount);
        lemma_funding_creates_launcher(
            funding_coin@,
            owner_spend(owner@, launch_conditions@)->Ok_0,
            launcher_coin(funding_coin@.id(), funding_coin.amount),
        );
        assert(context@.take(old(context)@.len() as int) =~= old(context)@);
        let funding = owner_spend(owner@, launch_conditions@)->Ok_0;
        assert(is_valid_key(owner@->Standard_0) ==> requires_owner_signature(
            coin_spend(funding_coin@, funding),
            owner@->Standard_0,
            Seq::empty(),
        ));
    }
    Ok(DidSpend::new(drain_coin_spends(context), Some(eve)))
}

/// A funding spend whose second condition creates the launcher creates nothing else.
proof fn lemma_funding_creates_launcher(funding_coin: CoinView, spend: SpendView, launcher: CoinView)
    requires
        launcher.parent_coin_info == funding_coin.id(),
        emitted(spend.puzzle, spend.solution) matches Ok(created) ==> created == seq![
            None,
            Some(
                CreatedCoinView {
                    puzzle_hash: launcher.puzzle_hash,
                    amount: launcher.amount,
                    memo: None,
                },
            ),
            None,
        ],
    ensures
        coins_of(coin_spend(funding_coin, spend)) matches Some(coins) ==> coins == seq![launcher],
{
    if let Ok(created) = emitted(spend.puzzle, spend.solution) {
        reveal_with_fuel(coins_created, 4);
        assert(coins_created(funding_coin, created) =~= seq![launcher]);
    }
}

/// A launcher's spend creates the eve coin, and nothing else.
proof fn lemma_launcher_creates_eve(launcher: CoinView, spend: SpendView, eve: CoinView)
    requires
        creates_only(spend, eve),
        launcher.puzzle_hash == launcher_puzzle_hash(),
        eve.parent_coin_info == launcher.id(),
    ensures
        launches_coin(coin_spend(launcher, spend), eve.id()),
        coins_of(coin_spend(launcher, spend)) == Some(seq![eve]),
{
    let created = created_by_all(run_conditions(spend.puzzle, spend.solution)->Ok_0);
    assert(created[0] is Some && created[1] is None);
    reveal_with_fuel(coins_created, 3);
    assert(created.drop_last().drop_last() =~= Seq::<Option<CreatedCoinView>>::empty());
    assert(coins_created(launcher, created) =~= seq![eve]);
    assert(CoinView {
        parent_coin_info: launcher.id(),
        puzzle_hash: created[0]->Some_0.puzzle_hash,
        amount: created[0]->Some_0.amount,
    } == eve);
}

/// The settle spend creates the settled DID's coin, and nothing else.
proof fn lemma_settle_creates_child(
    before: Seq<CoinSpendView>,
    after: Seq<CoinSpendView>,
    did: DidView,
    owner: OwnerView,
    child: DidView,
)
    requires
        is_preserved(before, after, did, owner, Seq::empty(), child),
    ensures
        coins_of(after.last()) matches Some(coins) ==> coins == seq![child.coin],
{
    if let Ok(created) = emitted(after.last().puzzle_reveal, after.last().solution) {
        assert(created =~= seq![None, None, None, Some(wrapped_coin(did))]);
        reveal_with_fuel(coins_created, 5);
        assert(coins_created(did.coin, created) =~= seq![child.coin]);
    }
}

/// The conditions of a launch create the launcher with the whole amount and nothing else, and require no
/// signature.
proof fn lemma_launch_creates_launcher(conditions: Seq<Seq<u8>>, amount: u64)
    requires
        launches(conditions, amount),
    ensures
        seq![None::<CreatedCoinView>] + created_by_all(conditions) == seq![
            None,
            Some(
                CreatedCoinView { puzzle_hash: launcher_puzzle_hash(), amount, memo: None },
            ),
            None,
        ],
        agg_sigs(conditions) == Seq::<i8>::empty(),
{
    reveal_with_fuel(agg_sigs, 3);
    assert(seq![None::<CreatedCoinView>] + created_by_all(conditions) =~= seq![
        None,
        Some(CreatedCoinView { puzzle_hash: launcher_puzzle_hash(), amount, memo: None }),
        None,
    ]);
}

/// Launches an eve DID from `funding_coin`: the one place that builds a launcher, which keeps an even
/// amount out of every launch. Stages the launcher's spend, and returns the conditions that the funding
/// coin has to emit together with the eve DID.
fn launch(
    context: &mut SpendContext,
    funding_coin: &Coin,
    owner_puzzle_hash: Bytes32,
    recovery_list_hash: Option<Bytes32>,
    num_verifications_required: u64,
    metadata: Metadata,
) -> (launched: DidResult<(Conditions, Did)>)
    ensures
        ({
            let eve = eve_did(
                funding_coin@.id(),
                funding_coin.amount,
                hash_bytes(owner_puzzle_hash),
                optional_hash_bytes(recovery_list_hash),
                num_verifications_required,
                metadata@,
            );
            match singleton_amount(funding_coin.amount) {
                Err(fault) => {
                    &&& launched matches Err(error) && error@ == fault
                    &&& final(context)@ == old(context)@
                },
                Ok(amount) => match eve_launch(eve) {
                    Err(text) => {
                        &&& launched matches Err(error) && error@ == Fault::Driver(text)
                        &&& final(context)@ == old(context)@
                    },
                    Ok(launch) => {
                        &&& launched matches Ok((conditions, did)) && conditions@
                            == launch.conditions && did@ == eve
                        &&& launches(launch.conditions, amount)
                        &&& launches_coin(
                            coin_spend(launcher_coin(funding_coin@.id(), amount), launch.launcher),
                            eve.coin.id(),
                        )
                        &&& coins_of(
                            coin_spend(launcher_coin(funding_coin@.id(), amount), launch.launcher),
                        ) == Some(seq![eve.coin])
                        &&& requires_no_signature(
                            coin_spend(launcher_coin(funding_coin@.id(), amount), launch.launcher),
                        )
                        &&& final(context)@ == old(context)@.push(
                            coin_spend(launcher_coin(funding_coin@.id(), amount), launch.launcher),
                        )
                    },
                },
            }
        }),
{
    let amount = match SingletonAmount::from_funding_coin(funding_coin) {
        Ok(amount) => amount,
        Err(error) => {
            return Err(error);
        },
    };
    let funding_coin_id = funding_coin.coin_id();
    let launch = match launch_eve(
        &funding_coin_id,
        amount.get(),
        &owner_puzzle_hash,
        recovery_list_hash,
        num_verifications_required,
        &metadata,
    ) {
        Ok(launch) => launch,
        Err(error) => {
            return Err(DidError::Driver(error));
        },
    };
    let launcher = Coin {
        parent_coin_info: funding_coin_id,
        puzzle_hash: launcher_hash(),
        amount: amount.get(),
    };
    let launcher_id = launcher.coin_id();
    proof {
        lemma_launcher_creates_eve(launcher@, launch.launcher@, launch.eve_coin@);
    }
    context.spend(launcher, launch.launcher);
    let info = DidInfo {
        launcher_id,
        recovery_list_hash,
        num_verifications_required,
        metadata,
        p2_puzzle_hash: owner_puzzle_hash,
    };
    let eve = Did { coin: launch.eve_coin, proof: launch.eve_proof, info };
    Ok((Conditions::from_programs(launch.conditions), eve))
}

/// The `p2_puzzle_hash` of a DID that `owner` creates. A custom owner is refused, with `refusal` as the
/// reason.
fn standard_owner_puzzle_hash(owner: &Owner, refusal: &'static str) -> (hash: DidResult<Bytes32>)
    ensures
        match owner@ {
            OwnerView::Standard(key) => hash matches Ok(hash) && hash_bytes(hash)
                == standard_puzzle_hash(key),
            OwnerView::Custom(_) => hash matches Err(error) && error@
                == Fault::UnsupportedOwner(refusal@),
        },
{
    match owner {
        Owner::Standard(key) => Ok(standard_hash(key)),
        Owner::Custom(_) => Err(DidError::UnsupportedOwner(refusal)),
    }
}

/// The owner's settle spend, which leaves the DID unchanged but makes it wallet-parseable: the case of
/// [`spend_did_with_conditions`] with no condition.
fn settle(context: &mut SpendContext, did: Did, owner: Owner) -> (settled: DidResult<Did>)
    ensures
        (Preserved { staged: final(context)@, child: outcome(settled) }) == preserving_spend(
            old(context)@,
            did@,
            owner@,
            Seq::empty(),
        ),
        settled matches Ok(left) ==> is_preserved(
            old(context)@,
            final(context)@,
            did@,
            owner@,
            Seq::empty(),
            left@,
        ) && (coins_of(final(context)@.last()) matches Some(coins) ==> coins == seq![left@.coin]),
{
    let settled = spend_did_with_conditions(context, did, owner, Conditions::new());
    proof {
        if settled is Ok {
            lemma_settle_creates_child(old(context)@, context@, did@, owner@, settled->Ok_0@);
        }
    }
    settled
}

/// Stages the spend of the funding coin under `owner`, emitting the launcher's conditions.
fn spend_funding_coin(
    context: &mut SpendContext,
    funding_coin: Coin,
    owner: &Owner,
    launch_conditions: &Conditions,
) -> (spent: DidResult<()>)
    ensures
        match owner_spend(owner@, launch_conditions@) {
            Ok(spend) => {
                &&& spent is Ok
                &&& final(context)@ == old(context)@.push(coin_spend(funding_coin@, spend))
                &&& owner@ matches OwnerView::Standard(key) ==> {
                    &&& creates_after_one(spend, launch_conditions@)
                    &&& is_valid_key(key) ==> is_signed_by(
                        spend,
                        key,
                        agg_sigs(launch_conditions@),
                    )
                }
            },
            Err(fault) => spent matches Err(error) && error@ == fault && final(context)@ == old(
                context,
            )@,
        },
{
    match inner_spend(owner, launch_conditions) {
        Ok(spend) => {
            context.spend(funding_coin, spend);
            Ok(())
        },
        Err(error) => Err(error),
    }
}

/// A creation that is refused stages nothing: for a custom owner, and for an even funding amount.
pub proof fn refused_creations_stage_nothing(
    staged: Seq<CoinSpendView>,
    creation: Creation,
    owner: OwnerView,
)
    requires
        owner is Custom || creation.funding_coin.amount % 2 == 0,
    ensures
        creating(staged, creation, owner).staged == staged,
        creating(staged, creation, owner).result is Err,
        creating_eve(staged, creation, owner).staged == staged,
        creating_eve(staged, creation, owner).result is Err,
{
}

/// A standard owner's creation reports an even funding amount exactly where the amount is even, and
/// names it.
pub proof fn even_funding_amounts_are_named(
    staged: Seq<CoinSpendView>,
    creation: Creation,
    key: Seq<u8>,
    amount: u64,
)
    ensures
        creating(staged, creation, OwnerView::Standard(key)).result == Err::<DidSpendView, Fault>(
            Fault::EvenSingletonAmount(amount),
        ) <==> creation.funding_coin.amount % 2 == 0 && creation.funding_coin.amount == amount,
        creating_eve(staged, creation, OwnerView::Standard(key)).result == Err::<
            DidSpendView,
            Fault,
        >(Fault::EvenSingletonAmount(amount)) <==> creation.funding_coin.amount % 2 == 0
            && creation.funding_coin.amount == amount,
{
}

/// A created DID carries the funding coin's whole amount, which is odd, and the recovery configuration,
/// metadata and owner that it was created with. Its identity is the launcher that the funding coin
/// creates.
pub proof fn created_dids_are_as_asked(
    staged: Seq<CoinSpendView>,
    creation: Creation,
    owner: OwnerView,
    spend: DidSpendView,
)
    requires
        creating(staged, creation, owner).result == Ok::<DidSpendView, Fault>(spend) || creating_eve(
            staged,
            creation,
            owner,
        ).result == Ok::<DidSpendView, Fault>(spend),
    ensures
        owner matches OwnerView::Standard(key) && spend.child matches Some(child) && {
            &&& child.coin.amount == creation.funding_coin.amount
            &&& child.coin.amount % 2 == 1
            &&& child.coin.puzzle_hash == child.info.puzzle_hash()
            &&& child.info.launcher_id == launcher_coin(
                creation.funding_coin.id(),
                creation.funding_coin.amount,
            ).id()
            &&& child.info.recovery_list_hash == creation.recovery_list_hash
            &&& child.info.num_verifications_required == creation.num_verifications_required
            &&& child.info.metadata == creation.metadata
            &&& child.info.p2_puzzle_hash == standard_puzzle_hash(key)
        },
{
}

/// A creation adds exactly two signatures to those that were required before it, both `AGG_SIG_ME` of
/// the owner: over the eve DID's coin, and over the funding coin.
pub proof fn creations_require_two_owner_signatures(
    before: Seq<CoinSpendView>,
    creation: Creation,
    owner: OwnerView,
    spend: DidSpendView,
    constants: AggSigConstants,
    signatures: Seq<RequiredSignatureView>,
)
    requires
        is_created(before, creation, owner, spend),
        owner.has_valid_key(),
        signatures_of_all(spend.coin_spends, domain_strings(constants)) == Ok::<
            Seq<RequiredSignatureView>,
            Fault,
        >(signatures),
    ensures
        owner matches OwnerView::Standard(key) && signatures_of_all(
            before,
            domain_strings(constants),
        ) matches Ok(prior) && {
            &&& signatures.len() == prior.len() + 2
            &&& signatures.take(prior.len() as int) == prior
            &&& is_owner_signature(
                signatures[prior.len() as int],
                key,
                creation.eve(key).coin,
                domain_strings(constants),
            )
            &&& is_owner_signature(
                signatures[prior.len() as int + 1],
                key,
                creation.funding_coin,
                domain_strings(constants),
            )
        },
{
    let domains = domain_strings(constants);
    let count = before.len() as int;
    let settled = spend.coin_spends.drop_last();
    let launched = settled.drop_last();
    reveal_with_fuel(signatures_of_all, 4);
    assert(launched.drop_last() =~= before);
    assert(launched.last() == spend.coin_spends[count]);
    assert(settled.last() == spend.coin_spends[count + 1]);
    assert(spend.coin_spends.last() == spend.coin_spends[count + 2]);
    let prior = signatures_of_all(before, domains)->Ok_0;
    assert(prior + Seq::<RequiredSignatureView>::empty() =~= prior);
    assert(signatures_of_all(launched, domains) == Ok::<Seq<RequiredSignatureView>, Fault>(prior));
    assert(signatures.take(prior.len() as int) =~= prior);
}

/// A creation of an eve DID adds exactly one signature to those that were required before it: an
/// `AGG_SIG_ME` of the owner over the funding coin.
pub proof fn eve_creations_require_one_owner_signature(
    before: Seq<CoinSpendView>,
    creation: Creation,
    owner: OwnerView,
    spend: DidSpendView,
    constants: AggSigConstants,
    signatures: Seq<RequiredSignatureView>,
)
    requires
        is_created_eve(before, creation, owner, spend),
        owner.has_valid_key(),
        signatures_of_all(spend.coin_spends, domain_strings(constants)) == Ok::<
            Seq<RequiredSignatureView>,
            Fault,
        >(signatures),
    ensures
        owner matches OwnerView::Standard(key) && signatures_of_all(
            before,
            domain_strings(constants),
        ) matches Ok(prior) && {
            &&& signatures.len() == prior.len() + 1
            &&& signatures.take(prior.len() as int) == prior
            &&& is_owner_signature(
                signatures[prior.len() as int],
                key,
                creation.funding_coin,
                domain_strings(constants),
            )
        },
{
    let domains = domain_strings(constants);
    let count = before.len() as int;
    let launched = spend.coin_spends.drop_last();
    assert(launched.drop_last() =~= before);
    assert(launched.last() == spend.coin_spends[count]);
    assert(spend.coin_spends.last() == spend.coin_spends[count + 1]);
    let prior = signatures_of_all(before, domains)->Ok_0;
    assert(prior + Seq::<RequiredSignatureView>::empty() =~= prior);
    assert(signatures_of_all(launched, domains) == Ok::<Seq<RequiredSignatureView>, Fault>(prior));
    assert(signatures.take(prior.len() as int) =~= prior);
}

/// A creation creates nothing but the DID. Where its spends run, the funding coin creates the launcher,
/// the launcher the eve coin and the eve coin the settled one, each nothing else and each with the
/// funding coin's whole amount: of the coins created, only the settled one is left unspent.
pub proof fn creations_create_nothing_but_the_did(
    before: Seq<CoinSpendView>,
    creation: Creation,
    owner: OwnerView,
    spend: DidSpendView,
)
    requires
        is_created(before, creation, owner, spend),
        coins_of(spend.coin_spends[before.len() as int + 1]) is Some,
        coins_of(spend.coin_spends[before.len() as int + 2]) is Some,
    ensures
        spend.child matches Some(child) && {
            let launcher = spend.coin_spends[before.len() as int];
            let settle = spend.coin_spends[before.len() as int + 1];
            let funding = spend.coin_spends[before.len() as int + 2];
            &&& funding.coin == creation.funding_coin
            &&& coins_of(funding) == Some(seq![launcher.coin])
            &&& coins_of(launcher) == Some(seq![settle.coin])
            &&& coins_of(settle) == Some(seq![child.coin])
            &&& launcher.coin.amount == creation.funding_coin.amount
            &&& settle.coin.amount == creation.funding_coin.amount
            &&& child.coin.amount == creation.funding_coin.amount
        },
{
}

/// A created DID authenticates. Its eve coin descends from the launcher that the creation spends, and
/// where the settle spend runs, so does the settled coin: a walk over the two spends ends at that
/// launcher, whose id is the DID's launcher id.
pub proof fn created_dids_authenticate(
    before: Seq<CoinSpendView>,
    creation: Creation,
    owner: OwnerView,
    spend: DidSpendView,
)
    requires
        is_created(before, creation, owner, spend),
        runs_as_singleton(spend.coin_spends[before.len() as int + 1]),
    ensures
        spend.child matches Some(child) && {
            let lineage = seq![
                spend.coin_spends[before.len() as int + 1],
                spend.coin_spends[before.len() as int],
            ];
            &&& is_genuine(child.coin.id(), lineage)
            &&& child.info.launcher_id == lineage.last().coin.id()
            &&& walking(
                WalkView::from_coin(child.coin.id()),
                known_replies(lineage),
                MAX_LINEAGE_DEPTH as nat,
            ) == Some(
                Ok::<AuthenticatedLineageView, Fault>(report_of(seq![child.coin.id()], lineage)),
            )
        },
{
    let child = spend.child->Some_0;
    let launcher = seq![spend.coin_spends[before.len() as int]];
    let settle = spend.coin_spends[before.len() as int + 1];
    lineages_grow_by_one_spend(child.coin.id(), settle, launcher);
    assert(seq![settle] + launcher =~= seq![settle, launcher[0]]);
    authentication_is_complete(child.coin.id(), seq![settle, launcher[0]]);
}

/// A created eve DID authenticates: a walk over the launcher's spend ends at the launcher, whose id is
/// the DID's launcher id.
pub proof fn created_eve_dids_authenticate(
    before: Seq<CoinSpendView>,
    creation: Creation,
    owner: OwnerView,
    spend: DidSpendView,
)
    requires
        is_created_eve(before, creation, owner, spend),
    ensures
        spend.child matches Some(child) && {
            let lineage = seq![spend.coin_spends[before.len() as int]];
            &&& is_genuine(child.coin.id(), lineage)
            &&& child.info.launcher_id == lineage.last().coin.id()
            &&& walking(
                WalkView::from_coin(child.coin.id()),
                known_replies(lineage),
                MAX_LINEAGE_DEPTH as nat,
            ) == Some(
                Ok::<AuthenticatedLineageView, Fault>(report_of(seq![child.coin.id()], lineage)),
            )
        },
{
    let child = spend.child->Some_0;
    authentication_is_complete(child.coin.id(), seq![spend.coin_spends[before.len() as int]]);
}

/// A created DID is exactly the DID that the settle spend hydrates to, and the one that is found at its
/// tip, where that spend's inner puzzle runs.
pub proof fn created_dids_are_found_at_their_tip(
    before: Seq<CoinSpendView>,
    creation: Creation,
    owner: OwnerView,
    spend: DidSpendView,
)
    requires
        is_created(before, creation, owner, spend),
        singleton_emits(
            spend.coin_spends[before.len() as int + 1].puzzle_reveal,
            spend.coin_spends[before.len() as int + 1].solution,
        ) is Some,
    ensures
        spend.child matches Some(child) && {
            let settle = spend.coin_spends[before.len() as int + 1];
            &&& hydrating(settle.coin, settle.puzzle_reveal, settle.solution, child.coin) == Ok::<
                DidView,
                Fault,
            >(child)
            &&& tip_in(child.coin.id(), settle) == Ok::<DidView, Fault>(child)
        },
{
    let key = owner->Standard_0;
    let inner = standard_spend(key, seq![recreation(creation.eve(key))])->Ok_0;
    staged_dids_are_found_at_their_tip(
        spend.coin_spends[before.len() as int + 1],
        creation.eve(key),
        inner,
        spend.child->Some_0,
    );
}

/// A creation succeeds exactly where a standard owner funds it with a coin of odd amount and the driver builds
/// every spend. What comes out is everything that was staged, then the launcher's spend, the eve DID's with
/// its recreation alone, and the funding coin's with what the launch asks for; the DID is the eve DID one
/// generation on, and nothing stays staged.
pub proof fn creations_succeed_exactly_with_an_odd_amount(
    staged: Seq<CoinSpendView>,
    creation: Creation,
    owner: OwnerView,
    spend: DidSpendView,
)
    ensures
        creating(staged, creation, owner).result == Ok::<DidSpendView, Fault>(spend) <==> {
            let amount = creation.funding_coin.amount;
            &&& owner matches OwnerView::Standard(key)
            &&& amount % 2 == 1
            &&& {
                let eve = eve_did(
                    coin_id_of(creation.funding_coin),
                    amount,
                    standard_puzzle_hash(key),
                    creation.recovery_list_hash,
                    creation.num_verifications_required,
                    creation.metadata,
                );
                let recreation = hinted_create_coin(
                    did_inner_puzzle_hash(eve.info),
                    amount,
                    standard_puzzle_hash(key),
                );
                &&& eve_launch(eve) matches Ok(launch)
                &&& standard_spend(key, seq![recreation]) matches Ok(inner)
                &&& did_spend(eve, inner).child is Ok
                &&& standard_spend(key, launch.conditions) matches Ok(funding)
                &&& spend.coin_spends == staged + seq![
                    coin_spend(
                        launcher_coin(coin_id_of(creation.funding_coin), amount),
                        launch.launcher,
                    ),
                ] + coin_spends(eve.coin, did_spend(eve, inner).staged) + seq![
                    coin_spend(creation.funding_coin, funding),
                ]
                &&& spend.child == Some(eve.child(standard_puzzle_hash(key), amount))
            }
        },
        creating(staged, creation, owner).result is Ok ==> creating(staged, creation, owner).staged.len()
            == 0,
{
    if let OwnerView::Standard(key) = owner {
        let eve = creation.eve(key);
        let alone = seq![recreation(eve)];
        let none = Seq::<Seq<u8>>::empty();
        assert(alone + none =~= alone);
        assert(first_refusal(none) is None);
        if creation.funding_coin.amount % 2 == 1 {
            if let Ok(launch) = eve_launch(eve) {
                let launcher = coin_spend(
                    launcher_coin(creation.funding_coin.id(), creation.funding_coin.amount),
                    launch.launcher,
                );
                assert(staged.push(launcher) =~= staged + seq![launcher]);
                if let Ok(inner) = standard_spend(key, alone) {
                    let settled = staged + seq![launcher] + coin_spends(
                        eve.coin,
                        did_spend(eve, inner).staged,
                    );
                    if let Ok(funding) = standard_spend(key, launch.conditions) {
                        let last = coin_spend(creation.funding_coin, funding);
                        assert(settled.push(last) =~= settled + seq![last]);
                    }
                }
            }
        }
        if let Ok(built) = creating(staged, creation, owner).result {
            assert(built.coin_spends == spend.coin_spends && built.child == spend.child ==> built
                == spend);
        }
    }
}

/// A creation of an eve DID succeeds exactly where a standard owner funds it with a coin of odd amount and the
/// driver builds both spends. What comes out is everything that was staged, then the launcher's spend and the
/// funding coin's with what the launch asks for; the DID is the eve DID, and nothing stays staged.
pub proof fn eve_creations_succeed_exactly_with_an_odd_amount(
    staged: Seq<CoinSpendView>,
    creation: Creation,
    owner: OwnerView,
    spend: DidSpendView,
)
    ensures
        creating_eve(staged, creation, owner).result == Ok::<DidSpendView, Fault>(spend) <==> {
            let amount = creation.funding_coin.amount;
            &&& owner matches OwnerView::Standard(key)
            &&& amount % 2 == 1
            &&& {
                let eve = eve_did(
                    coin_id_of(creation.funding_coin),
                    amount,
                    standard_puzzle_hash(key),
                    creation.recovery_list_hash,
                    creation.num_verifications_required,
                    creation.metadata,
                );
                &&& eve_launch(eve) matches Ok(launch)
                &&& standard_spend(key, launch.conditions) matches Ok(funding)
                &&& spend.coin_spends == staged + seq![
                    coin_spend(
                        launcher_coin(coin_id_of(creation.funding_coin), amount),
                        launch.launcher,
                    ),
                    coin_spend(creation.funding_coin, funding),
                ]
                &&& spend.child == Some(eve)
            }
        },
        creating_eve(staged, creation, owner).result is Ok ==> creating_eve(
            staged,
            creation,
            owner,
        ).staged.len() == 0,
{
    if let OwnerView::Standard(key) = owner {
        if let Ok(launch) = eve_launch(creation.eve(key)) {
            let launcher = coin_spend(
                launcher_coin(creation.funding_coin.id(), creation.funding_coin.amount),
                launch.launcher,
            );
            if let Ok(funding) = standard_spend(key, launch.conditions) {
                let last = coin_spend(creation.funding_coin, funding);
                assert(staged.push(launcher).push(last) =~= staged + seq![launcher, last]);
            }
        }
        if let Ok(built) = creating_eve(staged, creation, owner).result {
            assert(built.coin_spends == spend.coin_spends && built.child == spend.child ==> built
                == spend);
        }
    }
}

/// A creation that fails tells why: a custom owner is unsupported, an even amount is named, and otherwise it is
/// the driver's own error for the first spend that it does not build. What was staged before stays staged.
pub proof fn failed_creations_tell_why(
    staged: Seq<CoinSpendView>,
    creation: Creation,
    owner: OwnerView,
)
    ensures
        creating(staged, creation, owner).result matches Err(fault) ==> {
            &&& staged.is_prefix_of(creating(staged, creation, owner).staged)
            &&& match owner {
                OwnerView::Custom(_) => fault is UnsupportedOwner,
                OwnerView::Standard(key) => if creation.funding_coin.amount % 2 == 0 {
                    fault == Fault::EvenSingletonAmount(creation.funding_coin.amount)
                } else {
                    match eve_launch(creation.eve(key)) {
                        Err(text) => fault == Fault::Driver(text),
                        Ok(launch) => match standard_spend(key, seq![recreation(creation.eve(key))]) {
                            Err(text) => fault == Fault::Driver(text),
                            Ok(inner) => match did_spend(creation.eve(key), inner).child {
                                Err(text) => fault == Fault::Driver(text),
                                Ok(_) => standard_spend(key, launch.conditions) matches Err(text)
                                    && fault == Fault::Driver(text),
                            },
                        },
                    }
                },
            }
        },
        creating_eve(staged, creation, owner).result matches Err(fault) ==> {
            &&& staged.is_prefix_of(creating_eve(staged, creation, owner).staged)
            &&& match owner {
                OwnerView::Custom(_) => fault is UnsupportedOwner,
                OwnerView::Standard(key) => if creation.funding_coin.amount % 2 == 0 {
                    fault == Fault::EvenSingletonAmount(creation.funding_coin.amount)
                } else {
                    match eve_launch(creation.eve(key)) {
                        Err(text) => fault == Fault::Driver(text),
                        Ok(launch) => standard_spend(key, launch.conditions) matches Err(text) && fault
                            == Fault::Driver(text),
                    }
                },
            }
        },
{
    let after = creating(staged, creation, owner);
    let eve_after = creating_eve(staged, creation, owner);
    let count = staged.len() as int;
    if let OwnerView::Standard(key) = owner {
        let alone = seq![recreation(creation.eve(key))];
        assert(alone + Seq::<Seq<u8>>::empty() =~= alone);
        assert(first_refusal(Seq::<Seq<u8>>::empty()) is None);
    }
    if after.result is Err {
        assert(after.staged.subrange(0, count) =~= staged);
    }
    if eve_after.result is Err {
        assert(eve_after.staged.subrange(0, count) =~= staged);
    }
}

/// The eve DID's spend of a creation, parsed, is the eve DID, authorized by the owner's spend with the
/// recreation alone.
pub proof fn creations_show_the_eve_did_and_its_owner(
    before: Seq<CoinSpendView>,
    creation: Creation,
    owner: OwnerView,
    spend: DidSpendView,
)
    requires
        is_created(before, creation, owner, spend),
    ensures
        owner matches OwnerView::Standard(key) && {
            let eve = creation.eve(key);
            let settle = spend.coin_spends[before.len() as int + 1];
            let recreation = hinted_create_coin(
                did_inner_puzzle_hash(eve.info),
                eve.coin.amount,
                eve.info.p2_puzzle_hash,
            );
            &&& standard_spend(key, seq![recreation]) matches Ok(inner)
            &&& parsing(eve.coin, settle.puzzle_reveal, settle.solution) == Ok::<
                Option<ParsedSpend>,
                Fault,
            >(Some(ParsedSpend { did: eve, p2_spend: Some(inner) }))
        },
{
}

/// A DID is created with exactly the values given: no hash, number or metadata is changed on the way.
pub proof fn creations_are_of_the_values_given(
    funding_coin: Coin,
    recovery_list_hash: Option<Bytes32>,
    num_verifications_required: u64,
    metadata: Metadata,
)
    ensures
        ({
            let creation = creation_of(
                funding_coin,
                recovery_list_hash,
                num_verifications_required,
                metadata,
            );
            &&& creation.funding_coin == funding_coin@
            &&& creation.recovery_list_hash == (match recovery_list_hash {
                Some(hash) => Some(hash_bytes(hash)),
                None => None,
            })
            &&& creation.num_verifications_required == num_verifications_required
            &&& creation.metadata == metadata@
        }),
{
}

} // verus!
