//! The chia-wallet-sdk driver: hashes of puzzles, and the building and parsing of spends.
use vstd::prelude::*;

use chia_protocol::{Bytes32, Coin as SdkCoin, Program};
use chia_puzzle_types::singleton::SingletonArgs;
use chia_puzzle_types::standard::StandardArgs;
use chia_puzzle_types::{LineageProof, Proof};
use chia_puzzles::SINGLETON_LAUNCHER_HASH;
use chia_wallet_sdk::driver::{
    Did as SdkDid, DidInfo as SdkInfo, DriverError, Launcher, Layer, Puzzle, SingletonInfo,
    SingletonLayer, Spend as SdkSpend, SpendContext as SdkContext, SpendWithConditions,
    StandardLayer,
};
use chia_wallet_sdk::prelude::{Allocator, PublicKey};
use chia_wallet_sdk::types::Condition as SdkCondition;
use clvm_traits::ToClvm;
use clvmr::serde::node_to_bytes_limit;

use crate::clvm::Metadata;
use crate::types::{Coin, DidInfo, Spend};

#[allow(unused_imports)]
use crate::bytes::{
    all_program_bytes, hash_bytes, int_atom, is_valid_key, key_bytes, optional_hash_bytes,
    program_bytes,
};
#[allow(unused_imports)]
use crate::clvm::{
    canonical_clvm, clvm_fault, emitted, is_canonical, run_conditions, CreatedCoinView,
};
#[allow(unused_imports)]
use crate::conditions::{
    agg_sigs, condition_in, created_by, hinted_create_coin, hinted_reads_back, melt_condition, reads_as,
    ConditionView, CreateCoinView,
};
#[allow(unused_imports)]
use crate::context::coin_spend;
#[allow(unused_imports)]
use crate::error::driver_error_text;
#[allow(unused_imports)]
use crate::sign::{requires_no_signature, requires_owner_signature, requires_same_signatures};
#[allow(unused_imports)]
use crate::types::{
    lineage_atoms, proof_atoms, views, CoinSpendView, CoinView, DidInfoView, DidView, SpendView,
};

verus! {

/// The id of a coin.
pub uninterp spec fn coin_id_of(coin: CoinView) -> Seq<u8>;

/// The hash of the standard puzzle of a key.
pub uninterp spec fn standard_puzzle_hash(key: Seq<u8>) -> Seq<u8>;

/// The hash of a DID's puzzle inside the singleton layer.
pub uninterp spec fn did_inner_puzzle_hash(info: DidInfoView) -> Seq<u8>;

/// The hash of the singleton puzzle of a launcher around an inner puzzle.
pub uninterp spec fn singleton_puzzle_hash(launcher_id: Seq<u8>, inner_puzzle_hash: Seq<u8>) -> Seq<u8>;

/// `chia_protocol::Coin::coin_id`: the coin's id, which depends on its three parts alone.
#[verifier::external_body]
pub(crate) fn coin_id(coin: &Coin) -> (id: Bytes32)
    ensures
        hash_bytes(id) == coin_id_of(coin@),
{
    SdkCoin::new(coin.parent_coin_info, coin.puzzle_hash, coin.amount).coin_id()
}

/// `StandardArgs::curry_tree_hash`: the hash of the standard puzzle of `key`.
#[verifier::external_body]
pub(crate) fn standard_hash(key: &PublicKey) -> (hash: Bytes32)
    ensures
        hash_bytes(hash) == standard_puzzle_hash(key_bytes(*key)),
{
    StandardArgs::curry_tree_hash(*key).into()
}

/// `SingletonArgs::curry_tree_hash`: the hash of the singleton puzzle of `launcher_id` around the
/// puzzle that hashes to `inner_puzzle_hash`.
#[verifier::external_body]
pub(crate) fn singleton_hash(launcher_id: &Bytes32, inner_puzzle_hash: &Bytes32) -> (hash: Bytes32)
    ensures
        hash_bytes(hash) == singleton_puzzle_hash(
            hash_bytes(*launcher_id),
            hash_bytes(*inner_puzzle_hash),
        ),
{
    SingletonArgs::curry_tree_hash(*launcher_id, (*inner_puzzle_hash).into()).into()
}

/// `DidInfo::inner_puzzle_hash`: the hash of the DID layer that the info describes. The metadata is
/// a serialized tree, so it can be allocated.
#[verifier::external_body]
pub(crate) fn inner_hash(info: &DidInfo) -> (hash: Bytes32)
    ensures
        hash_bytes(hash) == did_inner_puzzle_hash(info@),
{
    let metadata = SdkContext::new().alloc_hashed(&info.metadata.program).unwrap();
    SdkInfo::new(
        info.launcher_id,
        info.recovery_list_hash,
        info.num_verifications_required,
        metadata,
        info.p2_puzzle_hash,
    ).inner_puzzle_hash().into()
}

/// `Proof::Lineage`: the proof that a singleton's child shows.
#[verifier::external_body]
pub(crate) fn lineage_proof(coin: &Coin, inner_puzzle_hash: &Bytes32) -> (proof: Proof)
    ensures
        proof_atoms(proof) == lineage_atoms(coin@, hash_bytes(*inner_puzzle_hash)),
{
    Proof::Lineage(LineageProof {
        parent_parent_coin_info: coin.parent_coin_info,
        parent_inner_puzzle_hash: *inner_puzzle_hash,
        parent_amount: coin.amount,
    })
}

/// The hash of the singleton launcher puzzle.
pub open spec fn launcher_puzzle_hash() -> Seq<u8> {
    seq![
        0xefu8, 0xf0u8, 0x75u8, 0x22u8, 0x49u8, 0x50u8, 0x60u8, 0xc0u8,
        0x66u8, 0xf6u8, 0x6fu8, 0x32u8, 0xacu8, 0xc2u8, 0xa7u8, 0x7eu8,
        0x3au8, 0x3eu8, 0x73u8, 0x7au8, 0xcau8, 0x8bu8, 0xaeu8, 0xa4u8,
        0xd1u8, 0xa6u8, 0x4eu8, 0xa4u8, 0xcdu8, 0xc1u8, 0x3du8, 0xa9u8,
    ]
}

/// `chia_puzzles::SINGLETON_LAUNCHER_HASH`.
#[verifier::external_body]
pub(crate) fn launcher_hash() -> (hash: Bytes32)
    ensures
        hash_bytes(hash) == launcher_puzzle_hash(),
{
    SINGLETON_LAUNCHER_HASH.into()
}

/// The hash of a serialized puzzle, as `Puzzle::parse` gives it.
pub uninterp spec fn puzzle_tree_hash(puzzle: Seq<u8>) -> Seq<u8>;

/// `Puzzle::parse`: the hash that it gives the puzzle.
#[verifier::external_body]
pub(crate) fn tree_hash_of(puzzle: &Program) -> (hash: Bytes32)
    requires
        clvm_fault(program_bytes(*puzzle)) is None,
    ensures
        hash_bytes(hash) == puzzle_tree_hash(program_bytes(*puzzle)),
{
    let mut a = Allocator::new();
    let node = puzzle.to_clvm(&mut a).unwrap();
    Puzzle::parse(&a, node).curried_puzzle_hash().into()
}

/// The spend of a key's standard puzzle that emits the given conditions, or the text of the driver
/// error.
pub uninterp spec fn standard_spend(key: Seq<u8>, conditions: Seq<Seq<u8>>) -> Result<
    SpendView,
    Seq<char>,
>;

/// What the conditions of a list create, one by one.
pub open spec fn created_by_all(conditions: Seq<Seq<u8>>) -> Seq<Option<CreatedCoinView>> {
    conditions.map_values(|condition: Seq<u8>| created_by(condition))
}

/// Whether what a run of `spend` creates is what the conditions that it emits create.
pub open spec fn creates_by_conditions(spend: SpendView) -> bool {
    emitted(spend.puzzle, spend.solution) == (match run_conditions(spend.puzzle, spend.solution) {
        Ok(conditions) => Ok(created_by_all(conditions)),
        Err(text) => Err(text),
    })
}

/// Whether `form` is the canonical form of a condition, and reads as the condition does.
pub open spec fn reads_alike(form: Seq<u8>, condition: Seq<u8>) -> bool {
    &&& canonical_clvm(condition) == Ok::<Seq<u8>, Seq<char>>(form)
    &&& condition_in(form) == condition_in(condition)
}

/// Whether a serialized condition starts with the opcode of `AGG_SIG_ME`, and creates no coin.
pub open spec fn starts_as_agg_sig_me(condition: Seq<u8>) -> bool {
    &&& condition.len() >= 2
    &&& condition[0] == 0xff
    &&& condition[1] == 50
    &&& created_by(condition) == None::<CreatedCoinView>
}

/// Whether `all` are an `AGG_SIG_ME` and then `conditions`, in their order.
pub open spec fn follows_signature(all: Seq<Seq<u8>>, conditions: Seq<Seq<u8>>) -> bool {
    &&& all.len() == conditions.len() + 1
    &&& starts_as_agg_sig_me(all[0])
    &&& forall|i: int|
        0 <= i < conditions.len() ==> reads_alike(all[i + 1], #[trigger] conditions[i])
}

/// Whether running `spend` emits an `AGG_SIG_ME` and then `conditions`, where it runs at all.
pub open spec fn emits_behind_signature(spend: SpendView, conditions: Seq<Seq<u8>>) -> bool {
    &&& creates_by_conditions(spend)
    &&& run_conditions(spend.puzzle, spend.solution) matches Ok(all) ==> follows_signature(
        all,
        conditions,
    )
}

/// Whether running `spend` creates nothing by its first condition and then what `conditions` create,
/// where it runs at all.
pub open spec fn creates_after_one(spend: SpendView, conditions: Seq<Seq<u8>>) -> bool {
    emitted(spend.puzzle, spend.solution) matches Ok(created) ==> created == seq![
        None::<CreatedCoinView>,
    ] + created_by_all(conditions)
}

/// A spend that emits conditions behind an `AGG_SIG_ME` creates what they create.
pub(crate) proof fn lemma_creates_after_one(spend: SpendView, conditions: Seq<Seq<u8>>)
    requires
        emits_behind_signature(spend, conditions),
    ensures
        creates_after_one(spend, conditions),
{
    if let Ok(all) = run_conditions(spend.puzzle, spend.solution) {
        let created = seq![None::<CreatedCoinView>] + created_by_all(conditions);
        assert forall|i: int| 0 <= i < all.len() implies created_by(#[trigger] all[i])
            == created[i] by {
            if i > 0 {
                assert(reads_alike(all[i - 1 + 1], conditions[i - 1]));
            }
        }
        assert(created_by_all(all) =~= created);
    }
}

/// What the singleton puzzle of a launcher makes of a condition that its inner puzzle emits: a condition
/// of another opcode than `CREATE_COIN` and a coin of even amount pass as they are, a hinted coin of odd
/// amount is wrapped, and the condition that ends the singleton is dropped. Of other conditions nothing
/// is said.
pub open spec fn wrapped(launcher_id: Seq<u8>, condition: Seq<u8>) -> Option<Seq<Seq<u8>>> {
    if condition.len() >= 2 && condition[0] == 0xff && condition[1] < 0x80 && condition[1] != 51 {
        Some(seq![condition])
    } else {
        match condition_in(condition) {
            Ok(ConditionView::Named(opcode)) => if opcode != 51 {
                Some(seq![condition])
            } else if condition == melt_condition() {
                Some(Seq::empty())
            } else {
                None
            },
            Ok(ConditionView::CreateCoin(create)) => if create.amount % 2 == 0 {
                Some(seq![condition])
            } else {
                match create.memo {
                    Some(Some(hint)) if condition == hinted_create_coin(
                        create.puzzle_hash,
                        create.amount,
                        hint,
                    ) => Some(
                        seq![
                            hinted_create_coin(
                                singleton_puzzle_hash(launcher_id, create.puzzle_hash),
                                create.amount,
                                hint,
                            ),
                        ],
                    ),
                    _ => None,
                }
            },
            _ => None,
        }
    }
}

/// What the singleton puzzle makes of a list of conditions, where it is said of each.
pub open spec fn wrapped_all(launcher_id: Seq<u8>, conditions: Seq<Seq<u8>>) -> Option<Seq<Seq<u8>>>
    decreases conditions.len(),
{
    if conditions.len() == 0 {
        Some(Seq::empty())
    } else {
        match (
            wrapped_all(launcher_id, conditions.drop_last()),
            wrapped(launcher_id, conditions.last()),
        ) {
            (Some(before), Some(last)) => Some(before + last),
            _ => None,
        }
    }
}

/// Conditions that each become one condition become the list of these.
pub(crate) proof fn lemma_wrapped_one_by_one(
    launcher_id: Seq<u8>,
    conditions: Seq<Seq<u8>>,
    outer: Seq<Seq<u8>>,
)
    requires
        conditions.len() == outer.len(),
        forall|i: int|
            0 <= i < conditions.len() ==> wrapped(launcher_id, #[trigger] conditions[i]) == Some(
                seq![outer[i]],
            ),
    ensures
        wrapped_all(launcher_id, conditions) == Some(outer),
    decreases conditions.len(),
{
    if conditions.len() == 0 {
        assert(outer =~= Seq::<Seq<u8>>::empty());
    } else {
        lemma_wrapped_one_by_one(launcher_id, conditions.drop_last(), outer.drop_last());
        assert(conditions.last() == conditions[conditions.len() - 1]);
        assert(outer.drop_last() + seq![outer.last()] =~= outer);
    }
}

/// Whether `all` are what the singleton puzzle emits around an inner puzzle that emits `inner`: the
/// assertions of its own amount and parent, then what it makes of these conditions, where that is said.
pub open spec fn wraps(launcher_id: Seq<u8>, inner: Seq<Seq<u8>>, all: Seq<Seq<u8>>) -> bool {
    wrapped_all(launcher_id, inner) matches Some(outer) ==> {
        &&& all.len() == 2 + outer.len()
        &&& reads_as(all[0], ConditionView::Named(73))
        &&& reads_as(all[1], ConditionView::Named(71))
        &&& all.skip(2) == outer
    }
}

/// The coins that a parent creates.
pub open spec fn coins_created(parent: CoinView, created: Seq<Option<CreatedCoinView>>) -> Seq<
    CoinView,
>
    decreases created.len(),
{
    if created.len() == 0 {
        Seq::empty()
    } else {
        let before = coins_created(parent, created.drop_last());
        match created.last() {
            Some(coin) => before.push(
                CoinView {
                    parent_coin_info: parent.id(),
                    puzzle_hash: coin.puzzle_hash,
                    amount: coin.amount,
                },
            ),
            None => before,
        }
    }
}

/// The coins that a coin spend creates, where it runs.
pub open spec fn coins_of(spend: CoinSpendView) -> Option<Seq<CoinView>> {
    match emitted(spend.puzzle_reveal, spend.solution) {
        Ok(created) => Some(coins_created(spend.coin, created)),
        Err(_) => None,
    }
}

/// Whether a spend, of whatever coin, requires an `AGG_SIG_ME` under `key`, then the signatures of the
/// opcodes in `more`.
pub open spec fn is_signed_by(spend: SpendView, key: Seq<u8>, more: Seq<i8>) -> bool {
    forall|coin: Coin| #[trigger]
        requires_owner_signature(coin_spend(coin@, spend), key, more)
}

/// `StandardLayer::spend_with_conditions` on the key's layer, each condition handed over as the tree
/// that it is, and the spend serialized. The standard puzzle emits its `AGG_SIG_ME` under the key, then
/// the conditions, and `RequiredSignature::from_coin_spend` collects the signature requirements among
/// these in this order; that of an invalid key it does not read. The puzzle hashes to
/// [`standard_puzzle_hash`] of the key.
#[verifier::external_body]
pub(crate) fn spend_standard(key: &PublicKey, conditions: &Vec<Program>) -> (built: Result<
    Spend,
    DriverError,
>)
    ensures
        standard_spend(key_bytes(*key), all_program_bytes(conditions@)) == (match built {
            Ok(spend) => Ok(spend@),
            Err(error) => Err(driver_error_text(error)),
        }),
        built matches Ok(spend) ==> {
            &&& creates_by_conditions(spend@)
            &&& run_conditions(spend@.puzzle, spend@.solution) matches Ok(all)
                ==> follows_signature(all, all_program_bytes(conditions@))
            &&& is_valid_key(key_bytes(*key)) ==> is_signed_by(
                spend@,
                key_bytes(*key),
                agg_sigs(all_program_bytes(conditions@)),
            )
            &&& puzzle_tree_hash(spend@.puzzle) == standard_puzzle_hash(key_bytes(*key))
            &&& is_canonical(spend@.puzzle)
            &&& is_canonical(spend@.solution)
        },
{
    let ctx = &mut SdkContext::new();
    let conditions = conditions.iter().map(|c| Ok(SdkCondition::Other(ctx.alloc(c)?)));
    let conditions = conditions.collect::<Result<Vec<_>, DriverError>>()?;
    let spend = StandardLayer::new(*key).spend_with_conditions(ctx, conditions.into())?;
    let (puzzle, solution) = (ctx.serialize(&spend.puzzle)?, ctx.serialize(&spend.solution)?);
    Ok(Spend { puzzle, solution })
}

/// What a launch stages and what its parent must emit.
pub struct EveLaunch {
    /// The conditions that the launcher's parent emits.
    pub conditions: Vec<Program>,
    /// The spend of the launcher.
    pub launcher: Spend,
    /// The first coin of the singleton.
    pub eve_coin: Coin,
    /// The proof that a spend of the first coin shows.
    pub eve_proof: Proof,
}

/// What an [`EveLaunch`] leaves open: the conditions and the launcher's spend.
#[verifier::ext_equal]
pub struct EveLaunchView {
    pub conditions: Seq<Seq<u8>>,
    pub launcher: SpendView,
}

/// The launcher coin of a parent: the launcher puzzle with the whole of `amount`.
pub open spec fn launcher_coin(parent_coin_id: Seq<u8>, amount: u64) -> CoinView {
    CoinView { parent_coin_info: parent_coin_id, puzzle_hash: launcher_puzzle_hash(), amount }
}

/// The DID that a launch from `parent_coin_id` creates.
pub open spec fn eve_did(
    parent_coin_id: Seq<u8>,
    amount: u64,
    p2_puzzle_hash: Seq<u8>,
    recovery_list_hash: Option<Seq<u8>>,
    num_verifications_required: u64,
    metadata: Seq<u8>,
) -> DidView {
    let launcher_id = launcher_coin(parent_coin_id, amount).id();
    let info = DidInfoView {
        launcher_id,
        recovery_list_hash,
        num_verifications_required,
        metadata,
        p2_puzzle_hash,
    };
    DidView {
        coin: CoinView { parent_coin_info: launcher_id, puzzle_hash: info.puzzle_hash(), amount },
        proof: seq![parent_coin_id, int_atom(amount as nat)],
        info,
    }
}

/// What the launch of a DID stages and asks its parent to emit, or the text of the driver error. The
/// DID is given as it will be.
pub uninterp spec fn eve_launch(eve: DidView) -> Result<EveLaunchView, Seq<char>>;

/// Whether a launcher's parent is asked for exactly two conditions: the `CREATE_COIN` of the
/// launcher, unhinted, and the assertion of the launcher's announcement.
pub open spec fn launches(conditions: Seq<Seq<u8>>, amount: u64) -> bool {
    &&& conditions.len() == 2
    &&& reads_as(
        conditions[0],
        ConditionView::CreateCoin(
            CreateCoinView {
                puzzle_hash: launcher_puzzle_hash(),
                amount,
                amount_atom: int_atom(amount as nat),
                memo: None,
            },
        ),
    )
    &&& reads_as(conditions[1], ConditionView::Named(61))
}

/// Whether a launcher's spend is made of CLVM trees, and running it emits exactly two conditions: the
/// `CREATE_COIN` of the coin `eve`, unhinted, and an announcement.
pub open spec fn creates_only(spend: SpendView, eve: CoinView) -> bool {
    &&& clvm_fault(spend.puzzle) is None
    &&& clvm_fault(spend.solution) is None
    &&& creates_by_conditions(spend)
    &&& run_conditions(spend.puzzle, spend.solution) matches Ok(all)
    &&& all.len() == 2
    &&& reads_as(
        all[0],
        ConditionView::CreateCoin(
            CreateCoinView {
                puzzle_hash: eve.puzzle_hash,
                amount: eve.amount,
                amount_atom: int_atom(eve.amount as nat),
                memo: None,
            },
        ),
    )
    &&& reads_as(all[1], ConditionView::Named(60))
}

/// `Launcher::new`, then `Launcher::create_eve_did`: a launcher coin with the whole of `amount`, its
/// spend, the DID that it creates, and the conditions that its parent has to emit. The launcher puzzle
/// emits a `CREATE_COIN` of the DID's coin and an announcement, so its spend requires no signature.
#[verifier::external_body]
pub(crate) fn launch_eve(
    parent_coin_id: &Bytes32,
    amount: u64,
    p2_puzzle_hash: &Bytes32,
    recovery_list_hash: Option<Bytes32>,
    num_verifications_required: u64,
    metadata: &Metadata,
) -> (launched: Result<EveLaunch, DriverError>)
    ensures
        eve_launch(
            eve_did(
                hash_bytes(*parent_coin_id),
                amount,
                hash_bytes(*p2_puzzle_hash),
                optional_hash_bytes(recovery_list_hash),
                num_verifications_required,
                metadata@,
            ),
        ) == (match launched {
            Ok(launch) => Ok(
                EveLaunchView {
                    conditions: all_program_bytes(launch.conditions@),
                    launcher: launch.launcher@,
                },
            ),
            Err(error) => Err(driver_error_text(error)),
        }),
        launched matches Ok(launch) ==> {
            let eve = eve_did(
                hash_bytes(*parent_coin_id),
                amount,
                hash_bytes(*p2_puzzle_hash),
                optional_hash_bytes(recovery_list_hash),
                num_verifications_required,
                metadata@,
            );
            &&& launch.eve_coin@ == eve.coin
            &&& proof_atoms(launch.eve_proof) == eve.proof
            &&& launches(all_program_bytes(launch.conditions@), amount)
            &&& creates_only(launch.launcher@, eve.coin)
            &&& requires_no_signature(
                coin_spend(launcher_coin(hash_bytes(*parent_coin_id), amount), launch.launcher@),
            )
        },
{
    let ctx = &mut SdkContext::new();
    let metadata = ctx.alloc_hashed(&metadata.program)?;
    let launcher = Launcher::new(*parent_coin_id, amount);
    let (conditions, eve) = launcher.create_eve_did(
        ctx, *p2_puzzle_hash, recovery_list_hash, num_verifications_required, metadata)?;
    let conditions = conditions.into_iter().map(|c| ctx.serialize(&c)).collect::<Result<_, _>>()?;
    let (s, c) = (ctx.take().remove(0), eve.coin);
    let launcher = Spend { puzzle: s.puzzle_reveal, solution: s.solution };
    let (parent_coin_info, puzzle_hash, amount) = (c.parent_coin_info, c.puzzle_hash, c.amount);
    let eve_coin = Coin { parent_coin_info, puzzle_hash, amount };
    Ok(EveLaunch { conditions, launcher, eve_coin, eve_proof: eve.proof })
}

/// What spending a DID does: the spends that it stages, and the owner hint and amount of the DID
/// that it leaves, if it leaves one, or the text of the driver error.
#[verifier::ext_equal]
pub struct DidSpent {
    pub staged: Seq<SpendView>,
    pub child: Result<Option<(Seq<u8>, u64)>, Seq<char>>,
}

/// What spending a DID with an inner spend does.
pub uninterp spec fn did_spend(did: DidView, inner: SpendView) -> DidSpent;

/// The info of the DID that a puzzle is of, `None` where it is no DID, or the text of the driver
/// error.
pub uninterp spec fn did_info_in(puzzle: Seq<u8>) -> Result<Option<DidInfoView>, Seq<char>>;

/// What the solution of a DID coin shows beside the info in its puzzle: the proof, and the owner's
/// spend, `None` where the DID is recovered.
#[verifier::ext_equal]
pub struct DidSolutionView {
    pub proof: Seq<Seq<u8>>,
    pub p2_spend: Option<SpendView>,
}

/// What a DID coin's solution shows, `None` where the puzzle is no DID, or the text of the driver
/// error.
pub uninterp spec fn did_solution_in(puzzle: Seq<u8>, solution: Seq<u8>) -> Result<
    Option<DidSolutionView>,
    Seq<char>,
>;

/// The info and the proof of the DID that a parent's spend creates, `None` where the parent is no
/// DID, or the text of the driver error.
pub uninterp spec fn did_child_in(parent: CoinView, puzzle: Seq<u8>, solution: Seq<u8>) -> Result<
    Option<(DidInfoView, Seq<Seq<u8>>)>,
    Seq<char>,
>;

/// The first coin of odd amount among what conditions create.
pub open spec fn first_odd(created: Seq<Option<CreatedCoinView>>) -> Option<CreatedCoinView>
    decreases created.len(),
{
    if created.len() == 0 {
        None
    } else {
        match created[0] {
            Some(coin) if coin.amount % 2 == 1 => Some(coin),
            _ => first_odd(created.drop_first()),
        }
    }
}

/// A coin of odd amount is the first among what conditions create exactly where no coin of odd amount stands
/// before it, and there is none exactly where none is created.
pub proof fn first_odd_coins_come_first(created: Seq<Option<CreatedCoinView>>, coin: CreatedCoinView)
    ensures
        first_odd(created) == Some(coin) <==> exists|i: int|
            {
                &&& 0 <= i < created.len()
                &&& #[trigger] created[i] == Some(coin)
                &&& coin.amount % 2 == 1
                &&& forall|j: int|
                    0 <= j < i ==> !(#[trigger] created[j] matches Some(other) && other.amount % 2 == 1)
            },
        first_odd(created) is None <==> forall|i: int|
            0 <= i < created.len() ==> !(#[trigger] created[i] matches Some(other) && other.amount % 2
                == 1),
    decreases created.len(),
{
    if created.len() > 0 {
        let rest = created.drop_first();
        first_odd_coins_come_first(rest, coin);
        assert forall|i: int| 0 <= i < rest.len() implies #[trigger] rest[i] == created[i + 1] by {}
        if !(created[0] matches Some(other) && other.amount % 2 == 1) {
            if first_odd(rest) == Some(coin) {
                let i = choose|i: int|
                    {
                        &&& 0 <= i < rest.len()
                        &&& #[trigger] rest[i] == Some(coin)
                        &&& coin.amount % 2 == 1
                        &&& forall|j: int|
                            0 <= j < i ==> !(#[trigger] rest[j] matches Some(other) && other.amount % 2
                                == 1)
                    };
                assert(created[i + 1] == Some(coin));
                assert forall|j: int| 0 <= j < i + 1 implies !(#[trigger] created[j] matches Some(other)
                    && other.amount % 2 == 1) by {
                    if j > 0 {
                        assert(rest[j - 1] == created[j]);
                    }
                }
            }
            if exists|i: int|
                {
                    &&& 0 <= i < created.len()
                    &&& #[trigger] created[i] == Some(coin)
                    &&& coin.amount % 2 == 1
                    &&& forall|j: int|
                        0 <= j < i ==> !(#[trigger] created[j] matches Some(other) && other.amount % 2
                            == 1)
                } {
                let i = choose|i: int|
                    {
                        &&& 0 <= i < created.len()
                        &&& #[trigger] created[i] == Some(coin)
                        &&& coin.amount % 2 == 1
                        &&& forall|j: int|
                            0 <= j < i ==> !(#[trigger] created[j] matches Some(other)
                                && other.amount % 2 == 1)
                    };
                assert(rest[i - 1] == Some(coin));
                assert forall|j: int| 0 <= j < i - 1 implies !(#[trigger] rest[j] matches Some(other)
                    && other.amount % 2 == 1) by {
                    assert(rest[j] == created[j + 1]);
                }
            }
            if forall|i: int|
                0 <= i < rest.len() ==> !(#[trigger] rest[i] matches Some(other) && other.amount % 2
                    == 1) {
                assert forall|i: int| 0 <= i < created.len() implies !(#[trigger] created[i] matches Some(
                    other,
                ) && other.amount % 2 == 1) by {
                    if i > 0 {
                        assert(rest[i - 1] == created[i]);
                    }
                }
            }
        }
    }
}

/// Whether the coin that a DID's spend creates is the DID itself, hinted to `owner`.
pub open spec fn recreates(did: DidView, coin: CreatedCoinView, owner: Seq<u8>) -> bool {
    &&& coin.memo == Some(Some(owner))
    &&& coin.puzzle_hash == did.info.owned_by(owner).inner_puzzle_hash()
}

/// Whether a DID spend that emits `created` does what it must: it leaves no DID where it creates no
/// coin of odd amount, and where the first such coin recreates the DID, it leaves that.
pub open spec fn follows_created(
    did: DidView,
    created: Seq<Option<CreatedCoinView>>,
    child: Option<(Seq<u8>, u64)>,
) -> bool {
    match first_odd(created) {
        None => child == None::<(Seq<u8>, u64)>,
        Some(coin) => forall|owner: Seq<u8>| #[trigger]
            recreates(did, coin, owner) ==> child == Some((owner, coin.amount)),
    }
}

/// Whether a staged DID spend is made of CLVM trees and reads back as what was spent: the DID under the
/// puzzle that was run, its proof, and the inner spend. It also reads back as a singleton of the DID's
/// launcher, whose inner puzzle emits what the inner spend emits, where it can be run.
pub open spec fn reads_back(did: DidView, inner: SpendView, staged: SpendView) -> bool {
    &&& clvm_fault(staged.puzzle) is None
    &&& clvm_fault(staged.solution) is None
    &&& did_info_in(staged.puzzle) == Ok::<Option<DidInfoView>, Seq<char>>(
        Some(did.info.owned_by(puzzle_tree_hash(inner.puzzle))),
    )
    &&& did_solution_in(staged.puzzle, staged.solution) == Ok::<Option<DidSolutionView>, Seq<char>>(
        Some(DidSolutionView { proof: did.proof, p2_spend: Some(inner) }),
    )
    &&& singleton_puzzle_in(staged.puzzle) matches Ok(Some(layer))
    &&& layer.launcher_id == did.info.launcher_id
    &&& singleton_solution_in(staged.solution) matches Ok(inner_solution)
    &&& emitted(layer.inner_puzzle, inner_solution) matches Ok(created) ==> emitted(
        inner.puzzle,
        inner.solution,
    ) == Ok::<Seq<Option<CreatedCoinView>>, Seq<char>>(created)
}

/// What the inner puzzle of a singleton's spend creates, where the layer reads it and it runs.
pub open spec fn singleton_emits(puzzle: Seq<u8>, solution: Seq<u8>) -> Option<
    Seq<Option<CreatedCoinView>>,
> {
    match (singleton_puzzle_in(puzzle), singleton_solution_in(solution)) {
        (Ok(Some(layer)), Ok(inner_solution)) => match emitted(layer.inner_puzzle, inner_solution) {
            Ok(created) => Some(created),
            Err(_) => None,
        },
        _ => None,
    }
}

/// Whether the child of a staged DID spend reads back as the recreated DID, where its inner puzzle runs;
/// a failure to run it is neither a missing child nor a missing hint.
pub open spec fn child_reads_back(
    did: DidView,
    inner: SpendView,
    staged: SpendView,
    owner: Seq<u8>,
) -> bool {
    match did_child_in(did.coin, staged.puzzle, staged.solution) {
        Ok(child) => child == Some(
            (
                did.info.owned_by(owner),
                lineage_atoms(
                    did.coin,
                    did.info.owned_by(puzzle_tree_hash(inner.puzzle)).inner_puzzle_hash(),
                ),
            ),
        ),
        Err(text) => {
            &&& singleton_emits(staged.puzzle, staged.solution) is None
            &&& text != "missing child"@
            &&& text != "missing hint"@
        },
    }
}

/// Whether a staged DID spend that leaves no DID is refused as one without a child, where its inner
/// puzzle runs.
pub open spec fn child_is_missing(did: DidView, staged: SpendView) -> bool {
    singleton_emits(staged.puzzle, staged.solution) is Some ==> did_child_in(
        did.coin,
        staged.puzzle,
        staged.solution,
    ) == Err::<Option<(DidInfoView, Seq<Seq<u8>>)>, Seq<char>>("missing child"@)
}

/// What [`did_spend`] of a DID says, in full: when it succeeds it stages one spend, which reads back,
/// requires the signatures of the inner spend and emits what that emits with the odd coin wrapped, and
/// what it leaves follows from what the inner spend emits.
pub open spec fn spends_did(did: DidView, inner: SpendView, spent: DidSpent) -> bool {
    &&& spent.staged.len() <= 1
    &&& spent.child matches Ok(child) ==> {
        &&& spent.staged.len() == 1
        &&& reads_back(did, inner, spent.staged[0])
        &&& requires_same_signatures(
            coin_spend(did.coin, spent.staged[0]),
            coin_spend(did.coin, inner),
        )
        &&& creates_by_conditions(inner)
        &&& creates_by_conditions(spent.staged[0])
        &&& run_conditions(spent.staged[0].puzzle, spent.staged[0].solution) matches Ok(all)
            ==> run_conditions(inner.puzzle, inner.solution) matches Ok(inner_all) && wraps(
            did.info.launcher_id,
            inner_all,
            all,
        )
        &&& emitted(inner.puzzle, inner.solution) matches Ok(created) && {
            &&& follows_created(did, created, child)
            &&& match first_odd(created) {
                None => child_is_missing(did, spent.staged[0]),
                Some(coin) => forall|owner: Seq<u8>| #[trigger]
                    recreates(did, coin, owner) ==> {
                        &&& child_reads_back(did, inner, spent.staged[0], owner)
                        &&& hinted_reads_back(
                            did.info.owned_by(owner).puzzle_hash(),
                            coin.amount,
                            owner,
                        )
                    },
            }
        }
    }
}

/// The DID of a coin, a proof and an info.
pub open spec fn did_view(coin: CoinView, proof: Proof, info: DidInfoView) -> DidView {
    DidView { coin, proof: proof_atoms(proof), info }
}

/// The spend of a puzzle and a solution.
pub open spec fn spend_view(puzzle: Program, solution: Program) -> SpendView {
    SpendView { puzzle: program_bytes(puzzle), solution: program_bytes(solution) }
}

/// The [`DidSpent`] of what [`spend_did`] returns.
pub open spec fn spent_view(
    spent: (Vec<Spend>, Result<Option<(Bytes32, u64)>, DriverError>),
) -> DidSpent {
    DidSpent {
        staged: views(spent.0@),
        child: match spent.1 {
            Ok(Some((owner, amount))) => Ok(Some((hash_bytes(owner), amount))),
            Ok(None) => Ok(None),
            Err(error) => Err(driver_error_text(error)),
        },
    }
}

/// `Did::spend` in a new `SpendContext`: the spends that it stages there, and the owner hint and the
/// amount of the successor that it returns. It builds the DID's layers around the inner spend, runs
/// the inner spend and looks for the successor among the coins that it creates: the first coin of odd
/// amount decides, where it has no hint or is the DID. The staged spend is parsed back by `Did::parse`,
/// `Did::parse_child` and `SingletonLayer`. The singleton puzzle passes on what the inner spend emits
/// but for the coin of odd amount, which it wraps, and the DID puzzle passes on everything, so the staged
/// spend has the signature requirements of the inner spend.
#[verifier::external_body]
pub(crate) fn spend_did(
    coin: &Coin,
    proof: &Proof,
    info: &DidInfo,
    puzzle: &Program,
    solution: &Program,
) -> (spent: (Vec<Spend>, Result<Option<(Bytes32, u64)>, DriverError>))
    requires
        is_canonical(program_bytes(*puzzle)),
        is_canonical(program_bytes(*solution)),
    ensures
        spent_view(spent) == did_spend(
            did_view(coin@, *proof, info@),
            spend_view(*puzzle, *solution),
        ),
        spends_did(
            did_view(coin@, *proof, info@),
            spend_view(*puzzle, *solution),
            spent_view(spent),
        ),
{
    let ctx = &mut SdkContext::new();
    let child = (|| {
        let inner = SdkSpend::new(ctx.alloc(puzzle)?, ctx.alloc(solution)?);
        let metadata = ctx.alloc_hashed(&info.metadata.program)?;
        let info = SdkInfo::new(info.launcher_id, info.recovery_list_hash,
            info.num_verifications_required, metadata, info.p2_puzzle_hash);
        let coin = SdkCoin::new(coin.parent_coin_info, coin.puzzle_hash, coin.amount);
        SdkDid::new(coin, *proof, info).spend(ctx, inner)
    })();
    let staged = ctx.take().into_iter().map(|s| Spend { puzzle: s.puzzle_reveal, solution: s.solution });
    (staged.collect(), child.map(|did| did.map(|did| (did.info.p2_puzzle_hash, did.coin.amount))))
}

/// The [`DidInfoView`] of an info that may be absent.
pub open spec fn optional_info_view(info: Option<DidInfo>) -> Option<DidInfoView> {
    match info {
        Some(info) => Some(info@),
        None => None,
    }
}

/// `DidInfo::parse`: what the DID puzzle is made of. The metadata is serialized anew, by
/// `node_to_bytes_limit` without a limit.
#[verifier::external_body]
pub(crate) fn read_info(puzzle: &Program) -> (read: Result<Option<DidInfo>, DriverError>)
    ensures
        did_info_in(program_bytes(*puzzle)) == (match read {
            Ok(info) => Ok(optional_info_view(info)),
            Err(error) => Err(driver_error_text(error)),
        }),
{
    let mut a = Allocator::new();
    let puzzle = puzzle.to_clvm(&mut a)?;
    let parsed = SdkInfo::parse(&a, Puzzle::parse(&a, puzzle))?;
    parsed.map(|(info, _)| Ok(DidInfo {
        launcher_id: info.launcher_id,
        recovery_list_hash: info.recovery_list_hash,
        num_verifications_required: info.num_verifications_required,
        metadata: Metadata { program: node_to_bytes_limit(&a, info.metadata.ptr(), usize::MAX)?.into() },
        p2_puzzle_hash: info.p2_puzzle_hash,
    })).transpose()
}

/// The [`DidSolutionView`] of what [`read_did`] returns.
pub open spec fn solution_view(read: Option<(Proof, Option<Spend>)>) -> Option<DidSolutionView> {
    match read {
        Some((proof, p2_spend)) => Some(
            DidSolutionView {
                proof: proof_atoms(proof),
                p2_spend: match p2_spend {
                    Some(spend) => Some(spend@),
                    None => None,
                },
            },
        ),
        None => None,
    }
}

/// What [`read_did`] returns, with everything in it as bytes.
pub open spec fn solution_outcome(read: Result<Option<(Proof, Option<Spend>)>, DriverError>) -> Result<
    Option<DidSolutionView>,
    Seq<char>,
> {
    match read {
        Ok(did) => Ok(solution_view(did)),
        Err(error) => Err(driver_error_text(error)),
    }
}

/// Whether a coin's puzzle is no DID exactly where its info says so.
pub open spec fn is_no_did_by_info<T>(puzzle: Seq<u8>, read: Result<Option<T>, Seq<char>>) -> bool {
    read == Ok::<Option<T>, Seq<char>>(None) <==> did_info_in(puzzle) == Ok::<
        Option<DidInfoView>,
        Seq<char>,
    >(None)
}

/// `Did::parse`, but for the info, which that function reads as [`read_info`] does: the proof in the
/// solution and the owner's spend. The coin is carried into the result by that function and decides
/// nothing. The owner's spend is serialized anew, by `node_to_bytes_limit` without a limit. A puzzle is no
/// DID for that function exactly where it is none for `DidInfo::parse`, which it calls first.
#[verifier::external_body]
pub(crate) fn read_did(coin: &Coin, puzzle: &Program, solution: &Program) -> (read: Result<
    Option<(Proof, Option<Spend>)>,
    DriverError,
>)
    requires
        clvm_fault(program_bytes(*puzzle)) is None,
        clvm_fault(program_bytes(*solution)) is None,
    ensures
        did_solution_in(program_bytes(*puzzle), program_bytes(*solution)) == solution_outcome(read),
        is_no_did_by_info(program_bytes(*puzzle), solution_outcome(read)),
{
    let mut a = Allocator::new();
    let (puzzle, solution) = (puzzle.to_clvm(&mut a)?, solution.to_clvm(&mut a)?);
    let coin = SdkCoin::new(coin.parent_coin_info, coin.puzzle_hash, coin.amount);
    let parsed = SdkDid::parse(&a, coin, Puzzle::parse(&a, puzzle), solution)?;
    let write = |(p, s): (Puzzle, _)| Ok::<_, DriverError>(Spend {
        puzzle: node_to_bytes_limit(&a, p.ptr(), usize::MAX)?.into(),
        solution: node_to_bytes_limit(&a, s, usize::MAX)?.into(),
    });
    parsed.map(|(did, p2)| Ok((did.proof, p2.map(write).transpose()?))).transpose()
}

/// The [`DidInfoView`] and the atoms of the proof of what [`read_child`] returns.
pub open spec fn child_view(read: Option<(DidInfo, Proof)>) -> Option<
    (DidInfoView, Seq<Seq<u8>>),
> {
    match read {
        Some((info, proof)) => Some((info@, proof_atoms(proof))),
        None => None,
    }
}

/// What [`read_child`] returns, with everything in it as bytes.
pub open spec fn child_outcome(read: Result<Option<(DidInfo, Proof)>, DriverError>) -> Result<
    Option<(DidInfoView, Seq<Seq<u8>>)>,
    Seq<char>,
> {
    match read {
        Ok(child) => Ok(child_view(child)),
        Err(error) => Err(driver_error_text(error)),
    }
}

/// Whether a child follows from the parent's own info and from what its inner puzzle emits: it is the
/// parent's DID under the hint of the first coin of odd amount, with the proof of the parent.
pub open spec fn is_child_of(
    parent: CoinView,
    puzzle: Seq<u8>,
    solution: Seq<u8>,
    info: DidInfoView,
    proof: Seq<Seq<u8>>,
) -> bool {
    &&& did_info_in(puzzle) matches Ok(Some(own))
    &&& singleton_puzzle_in(puzzle) matches Ok(Some(layer))
    &&& own.launcher_id == layer.launcher_id
    &&& info == own.owned_by(info.p2_puzzle_hash)
    &&& proof == lineage_atoms(parent, own.inner_puzzle_hash())
    &&& singleton_emits(puzzle, solution) matches Some(created)
    &&& first_odd(created) matches Some(coin)
    &&& coin.memo == Some(Some(info.p2_puzzle_hash))
}

/// What [`did_child_in`] of a parent's spend says, in full: a child follows from the parent, a missing
/// child means that no coin of odd amount is created, and a missing hint that the first such coin has
/// no memos. Where the parent is a DID whose inner puzzle runs, and the launchers in its two layers are the
/// same, what it creates decides.
pub open spec fn child_follows(
    parent: CoinView,
    puzzle: Seq<u8>,
    solution: Seq<u8>,
    child: Result<Option<(DidInfoView, Seq<Seq<u8>>)>, Seq<char>>,
) -> bool {
    &&& is_no_did_by_info(puzzle, child)
    &&& child matches Ok(Some((info, proof))) ==> is_child_of(parent, puzzle, solution, info, proof)
    &&& child matches Err(text) ==> text == "missing child"@ ==> (singleton_emits(
        puzzle,
        solution,
    ) matches Some(created) && first_odd(created) is None)
    &&& child matches Err(text) ==> text == "missing hint"@ ==> (singleton_emits(
        puzzle,
        solution,
    ) matches Some(created) && first_odd(created) matches Some(coin) && coin.memo is None)
    &&& did_info_in(puzzle) matches Ok(Some(_)) ==> singleton_emits(
        puzzle,
        solution,
    ) matches Some(created) ==> decides(created, child)
}

/// Whether what a DID's inner puzzle creates decides what its child is read as, unless the launchers in
/// the two layers of its puzzle differ.
pub open spec fn decides(
    created: Seq<Option<CreatedCoinView>>,
    child: Result<Option<(DidInfoView, Seq<Seq<u8>>)>, Seq<char>>,
) -> bool {
    match first_odd(created) {
        None => child matches Err(text) && (text == "missing child"@ || text
            == "invalid singleton struct"@),
        Some(coin) => match coin.memo {
            Some(Some(_)) => child matches Err(text) ==> text == "invalid singleton struct"@,
            Some(None) => child matches Err(text) && text != "missing hint"@,
            None => child matches Err(text) && (text == "missing hint"@ || text
                == "invalid singleton struct"@),
        },
    }
}

/// `Did::parse_child`: the info and the proof of the DID that a parent's spend creates. The child's
/// coin is carried into the result by that function and decides nothing. It reads the parent's two
/// layers, runs the inner puzzle and takes the first coin of odd amount, by whose hint the child is
/// owned.
#[verifier::external_body]
pub(crate) fn read_child(parent: &Coin, puzzle: &Program, solution: &Program, child: &Coin) -> (read:
    Result<Option<(DidInfo, Proof)>, DriverError>)
    requires
        clvm_fault(program_bytes(*puzzle)) is None,
        clvm_fault(program_bytes(*solution)) is None,
    ensures
        did_child_in(parent@, program_bytes(*puzzle), program_bytes(*solution)) == child_outcome(
            read,
        ),
        child_follows(
            parent@,
            program_bytes(*puzzle),
            program_bytes(*solution),
            child_outcome(read),
        ),
{
    let a = &mut Allocator::new();
    let (puzzle, solution) = (puzzle.to_clvm(a)?, solution.to_clvm(a)?);
    let puzzle = Puzzle::parse(a, puzzle);
    let [parent, child] = [parent, child].map(|c| SdkCoin::new(c.parent_coin_info, c.puzzle_hash, c.amount));
    let parsed = SdkDid::parse_child(a, parent, puzzle, solution, child)?;
    parsed.map(|d| Ok((
        DidInfo {
            launcher_id: d.info.launcher_id,
            recovery_list_hash: d.info.recovery_list_hash,
            num_verifications_required: d.info.num_verifications_required,
            metadata: Metadata { program: node_to_bytes_limit(a, d.info.metadata.ptr(), usize::MAX)?.into() },
            p2_puzzle_hash: d.info.p2_puzzle_hash,
        },
        d.proof,
    ))).transpose()
}

/// A singleton puzzle taken apart.
pub struct SingletonPuzzle {
    /// The launcher that the puzzle is curried with.
    pub launcher_id: Bytes32,
    /// The puzzle inside the singleton layer.
    pub inner_puzzle: Program,
}

/// A [`SingletonPuzzle`] with everything in it as bytes.
#[verifier::ext_equal]
pub struct SingletonPuzzleView {
    pub launcher_id: Seq<u8>,
    pub inner_puzzle: Seq<u8>,
}

impl View for SingletonPuzzle {
    type V = SingletonPuzzleView;

    open spec fn view(&self) -> SingletonPuzzleView {
        SingletonPuzzleView {
            launcher_id: hash_bytes(self.launcher_id),
            inner_puzzle: program_bytes(self.inner_puzzle),
        }
    }
}

/// The singleton layer of a puzzle, `None` where it has none, or the text of the driver error.
pub uninterp spec fn singleton_puzzle_in(puzzle: Seq<u8>) -> Result<
    Option<SingletonPuzzleView>,
    Seq<char>,
>;

/// The solution inside the solution of a singleton, or the text of the driver error.
pub uninterp spec fn singleton_solution_in(solution: Seq<u8>) -> Result<Seq<u8>, Seq<char>>;

/// `SingletonLayer::parse_puzzle`: the launcher that the puzzle is curried with, and the puzzle inside
/// it, serialized anew by `node_to_bytes_limit` without a limit.
#[verifier::external_body]
pub(crate) fn read_singleton_puzzle(puzzle: &Program) -> (read: Result<
    Option<SingletonPuzzle>,
    DriverError,
>)
    ensures
        singleton_puzzle_in(program_bytes(*puzzle)) == (match read {
            Ok(Some(layer)) => Ok(Some(layer@)),
            Ok(None) => Ok(None),
            Err(error) => Err(driver_error_text(error)),
        }),
{
    let mut a = Allocator::new();
    let puzzle = puzzle.to_clvm(&mut a)?;
    let layer = SingletonLayer::<Puzzle>::parse_puzzle(&a, Puzzle::parse(&a, puzzle))?;
    layer.map(|layer| Ok(SingletonPuzzle {
        launcher_id: layer.launcher_id,
        inner_puzzle: node_to_bytes_limit(&a, layer.inner_puzzle.ptr(), usize::MAX)?.into(),
    })).transpose()
}

/// `SingletonLayer::parse_solution`: the solution of the puzzle inside the singleton layer, serialized
/// anew by `node_to_bytes_limit` without a limit.
#[verifier::external_body]
pub(crate) fn read_singleton_solution(solution: &Program) -> (read: Result<Program, DriverError>)
    ensures
        singleton_solution_in(program_bytes(*solution)) == (match read {
            Ok(inner) => Ok(program_bytes(inner)),
            Err(error) => Err(driver_error_text(error)),
        }),
{
    let mut a = Allocator::new();
    let solution = solution.to_clvm(&mut a)?;
    let solution = SingletonLayer::<Puzzle>::parse_solution(&a, solution)?;
    Ok(node_to_bytes_limit(&a, solution.inner_solution, usize::MAX)?.into())
}

} // verus!
