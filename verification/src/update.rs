//! DID owner spends that leave the DID itself unchanged.
//!
//! The DID's inner puzzle is spent, the DID recreates itself, and the caller's conditions ride along
//! in the same spend. This is how a caller binds another operation to an authenticated act of the DID
//! it controls, in one atomic bundle.
//!
//! # One odd-amount output
//!
//! A singleton's inner puzzle may emit exactly one odd-amount `CREATE_COIN`, and the DID's own
//! recreation occupies it. A singleton launcher is an odd-amount coin, so a foreign singleton cannot be
//! parented to the DID coin: parent its launcher to an ordinary coin and bind it to the DID by an
//! announcement that this spend asserts, or by the launched singleton's owner puzzle hash.
use vstd::prelude::*;

use chia_protocol::Program;
#[allow(unused_imports)]
use chia_wallet_sdk::signer::AggSigConstants;

use crate::conditions::{
    create_hinted_coin, read_condition, render_condition, Condition, Conditions,
};
use crate::context::{inner_spend, SpendContext};
use crate::driver::spend_did;
use crate::error::{DidError, DidResult};
use crate::types::{Did, Owner};

#[allow(unused_imports)]
use crate::bytes::{
    big_endian_value, int_atom, is_shortest_amount, is_valid_key, program_bytes,
};
#[allow(unused_imports)]
use crate::clvm::{canonical_clvm, emitted, is_canonical, run_conditions, CreatedCoinView};
#[allow(unused_imports)]
use crate::conditions::{
    agg_sigs, condition_in, condition_text, created_by, hinted_create_coin, hinted_reads_back,
    lemma_agg_sigs_behind, reads_as, ConditionView,
};
#[allow(unused_imports)]
use crate::context::{coin_spend, coin_spends};
#[allow(unused_imports)]
use crate::driver::{
    coin_id_of, created_by_all, creates_by_conditions, did_inner_puzzle_hash, did_spend,
    emits_behind_signature, first_odd, lemma_wrapped_one_by_one, reads_alike, recreates,
    singleton_emits, singleton_puzzle_hash, standard_puzzle_hash, standard_spend,
    starts_as_agg_sig_me, wrapped, wraps,
};
#[allow(unused_imports)]
use crate::error::{outcome, Fault};
#[allow(unused_imports)]
use crate::hydrate::{hydrating, parsing, reads_back_as, ParsedSpend};
#[allow(unused_imports)]
use crate::resolve::{staged_dids_are_found_at_their_tip, tip_in};
#[allow(unused_imports)]
use crate::sign::{
    bound_info, domain_strings, is_bound, is_owner_signature, requires_owner_signature,
    requires_same_signatures, signatures_of, signatures_of_all, RequiredSignatureView,
};
#[allow(unused_imports)]
use crate::walk::{is_genuine, lineages_grow_by_one_spend, recreates_as, runs_as_singleton};
#[allow(unused_imports)]
use crate::types::{CoinSpendView, CoinView, DidView, OwnerView, SpendView};

verus! {

/// What is wrong with an amount atom as an encoding of a coin amount, or `None` where it is the
/// canonical encoding of an amount. The rule is the chain's own: the sign bit is clear, a leading zero
/// byte only guards a byte whose top bit is set, and eight more bytes are the most.
pub open spec fn amount_fault(atom: Seq<u8>) -> Option<Seq<char>> {
    if atom.len() > 0 && atom[0] >= 0x80 {
        Some("the sign bit of the leading byte is set"@)
    } else if atom.len() > 0 && atom[0] == 0 && (atom.len() == 1 || atom[1] < 0x80) {
        Some("the leading zero byte is redundant"@)
    } else if atom.len() > 9 || (atom.len() == 9 && atom[0] != 0) {
        Some("the amount does not fit in eight bytes"@)
    } else {
        None
    }
}

/// Whether the SDK's name for this opcode stands for a condition that a DID-preserving spend may
/// carry: `REMARK`; the signature requirements bound to the coin's id or its parent's (43, 47, 48,
/// 50); `RESERVE_FEE`; announcements, concurrency assertions and messages (60 to 67); assertions on
/// the coin itself (70 to 76); and timelocks (80 to 87).
pub open spec fn is_permitted_opcode(opcode: i8) -> bool {
    ||| opcode == 1
    ||| opcode == 43
    ||| opcode == 47
    ||| opcode == 48
    ||| opcode == 50
    ||| opcode == 52
    ||| 60 <= opcode <= 67
    ||| 70 <= opcode <= 76
    ||| 80 <= opcode <= 87
}

/// Why a DID-preserving spend may not carry a condition, or `None` where it may. Whatever is not
/// explicitly permitted is refused, `text` then being its rendering.
pub open spec fn refusal(condition: ConditionView, text: Seq<char>) -> Option<Fault> {
    match condition {
        ConditionView::CreateCoin(create) => if create.amount % 2 == 1 {
            Some(Fault::OddAmountCreateCoin)
        } else {
            match amount_fault(create.amount_atom) {
                Some(reason) => Some(Fault::NonCanonicalCreateCoinAmount(reason)),
                None => None,
            }
        },
        ConditionView::Named(opcode) => if opcode == 49 {
            Some(Fault::AggSigUnsafeInConditions)
        } else if is_permitted_opcode(opcode) {
            None
        } else {
            Some(Fault::DisallowedCondition(text))
        },
        ConditionView::Unnamed => Some(Fault::DisallowedCondition(text)),
    }
}

/// Why a DID-preserving spend may not carry the condition in `bytes`, judged as it reads on the chain
/// and not by what a caller calls it.
pub open spec fn refusal_of(bytes: Seq<u8>) -> Option<Fault> {
    match condition_in(bytes) {
        Ok(condition) => refusal(condition, condition_text(bytes)),
        Err(text) => Some(Fault::Driver(text)),
    }
}

/// Why a DID-preserving spend may not carry a list of conditions: the first refusal in it.
pub open spec fn first_refusal(conditions: Seq<Seq<u8>>) -> Option<Fault>
    decreases conditions.len(),
{
    if conditions.len() == 0 {
        None
    } else {
        match refusal_of(conditions[0]) {
            Some(fault) => Some(fault),
            None => first_refusal(conditions.drop_first()),
        }
    }
}

/// Refuses an amount atom that is not the canonical encoding of a coin amount.
fn check_amount_atom(atom: &Vec<u8>) -> (checked: DidResult<()>)
    ensures
        outcome(checked) == (match amount_fault(atom@) {
            Some(reason) => Err(Fault::NonCanonicalCreateCoinAmount(reason)),
            None => Ok(()),
        }),
{
    if atom.len() > 0 && atom[0] >= 0x80 {
        return Err(
            DidError::NonCanonicalCreateCoinAmount(
                "the sign bit of the leading byte is set".to_owned(),
            ),
        );
    }
    if atom.len() > 0 && atom[0] == 0 && (atom.len() == 1 || atom[1] < 0x80) {
        return Err(
            DidError::NonCanonicalCreateCoinAmount("the leading zero byte is redundant".to_owned()),
        );
    }
    if atom.len() > 9 || (atom.len() == 9 && atom[0] != 0) {
        return Err(
            DidError::NonCanonicalCreateCoinAmount(
                "the amount does not fit in eight bytes".to_owned(),
            ),
        );
    }
    Ok(())
}

/// Judges one condition: see [`permit_only_conditions_a_did_may_carry`].
fn permit_condition(bytes: &Program) -> (permitted: DidResult<()>)
    ensures
        outcome(permitted) == (match refusal_of(program_bytes(*bytes)) {
            Some(fault) => Err(fault),
            None => Ok(()),
        }),
{
    match read_condition(bytes) {
        Err(error) => Err(DidError::Driver(error)),
        Ok(Condition::CreateCoin(create)) => {
            // The singleton's one odd-amount output is the recreation.
            if create.amount % 2 == 1 {
                return Err(DidError::OddAmountCreateCoin);
            }
            check_amount_atom(&create.amount_atom)
        },
        Ok(Condition::Named(opcode)) => {
            if opcode == 49 {
                return Err(DidError::AggSigUnsafeInConditions);
            }
            if opcode == 1 || opcode == 43 || opcode == 47 || opcode == 48 || opcode == 50 || opcode
                == 52 || (60 <= opcode && opcode <= 67) || (70 <= opcode && opcode <= 76) || (80
                <= opcode && opcode <= 87) {
                return Ok(());
            }
            Err(DidError::DisallowedCondition(render_condition(bytes)))
        },
        Ok(Condition::Unnamed) => Err(DidError::DisallowedCondition(render_condition(bytes))),
    }
}

/// Permits only the condition shapes that a DID-preserving spend legitimately carries, and refuses
/// everything else, including anything that the SDK cannot name.
///
/// The conditions are judged as they read in serialized form, so a forbidden condition cannot be
/// handed over under another name; and what is not explicitly permitted is refused, so the guard fails
/// closed. The first condition that is refused decides.
///
/// Announcements and assertions only constrain when and beside what the spend may run; even-amount
/// `CREATE_COIN`s and `RESERVE_FEE` are ordinary payments; `REMARK` is inert. Of the `AGG_SIG_*` family
/// only those bound to the coin's id or its parent's are permitted: the puzzle hash and the amount of a
/// self-recreating DID never change, so signatures bound to those alone could be replayed.
pub fn permit_only_conditions_a_did_may_carry(conditions: &Conditions) -> (permitted: DidResult<()>)
    ensures
        outcome(permitted) == (match first_refusal(conditions@) {
            Some(fault) => Err(fault),
            None => Ok(()),
        }),
{
    let mut index: usize = 0;
    assert(conditions@.skip(0) =~= conditions@);
    while index < conditions.len()
        invariant
            index <= conditions@.len(),
            first_refusal(conditions@) == first_refusal(conditions@.skip(index as int)),
        decreases conditions@.len() - index,
    {
        let ghost rest = conditions@.skip(index as int);
        assert(rest[0] == conditions@[index as int]);
        assert(rest.drop_first() =~= conditions@.skip(index as int + 1));
        match permit_condition(conditions.get(index)) {
            Ok(_) => {},
            Err(error) => {
                return Err(error);
            },
        }
        index = index + 1;
    }
    Ok(())
}

/// The condition that recreates a DID: its own inner puzzle hash and amount, hinted to its owner.
pub open spec fn recreation(did: DidView) -> Seq<u8> {
    hinted_create_coin(did.info.inner_puzzle_hash(), did.coin.amount, did.info.p2_puzzle_hash)
}

/// What a DID-preserving spend does: what is staged afterwards, and the DID that is left.
#[verifier::ext_equal]
pub struct Preserved {
    pub staged: Seq<CoinSpendView>,
    pub child: Result<DidView, Fault>,
}

/// Why [`spend_did_with_conditions`] refuses a custom owner.
pub open spec fn custom_owner_refusal() -> Seq<char> {
    "spend_did_with_conditions requires Owner::Standard; a pre-built custom inner spend cannot carry the DID's recreation condition — build the spend yourself and call Did::spend"@
}

/// What [`spend_did_with_conditions`] does: an owner that is not standard and a condition that is not
/// permitted are refused; otherwise the DID is spent with its recreation first and the caller's
/// conditions behind it, and what is left is the DID itself. A coin of even amount is no singleton and
/// leaves none.
pub open spec fn preserving_spend(
    staged: Seq<CoinSpendView>,
    did: DidView,
    owner: OwnerView,
    conditions: Seq<Seq<u8>>,
) -> Preserved {
    match owner {
        OwnerView::Custom(_) => Preserved {
            staged,
            child: Err(Fault::UnsupportedOwner(custom_owner_refusal())),
        },
        OwnerView::Standard(key) => match first_refusal(conditions) {
            Some(fault) => Preserved { staged, child: Err(fault) },
            None => match standard_spend(key, seq![recreation(did)] + conditions) {
                Err(text) => Preserved { staged, child: Err(Fault::Driver(text)) },
                Ok(inner) => Preserved {
                    staged: staged + coin_spends(did.coin, did_spend(did, inner).staged),
                    child: match did_spend(did, inner).child {
                        Err(text) => Err(Fault::Driver(text)),
                        Ok(_) => if did.coin.amount % 2 == 1 {
                            Ok(did.child(did.info.p2_puzzle_hash, did.coin.amount))
                        } else {
                            Err(Fault::Parse("DID spend produced no successor DID"@))
                        },
                    },
                },
            },
        },
    }
}

/// Whether `all` are what the spend of a preserved DID emits: the singleton's assertions of its own
/// amount and parent, the owner's `AGG_SIG_ME`, the DID's next coin hinted to its owner, and then each
/// of the caller's conditions, in their order and as they read.
pub open spec fn emits_preserved(
    did: DidView,
    conditions: Seq<Seq<u8>>,
    all: Seq<Seq<u8>>,
) -> bool {
    &&& all.len() == conditions.len() + 4
    &&& reads_as(all[0], ConditionView::Named(73))
    &&& reads_as(all[1], ConditionView::Named(71))
    &&& starts_as_agg_sig_me(all[2])
    &&& all[3] == hinted_create_coin(
        did.info.puzzle_hash(),
        did.coin.amount,
        did.info.p2_puzzle_hash,
    )
    &&& forall|i: int|
        0 <= i < conditions.len() ==> reads_alike(all[i + 4], #[trigger] conditions[i])
}

/// The DID's next coin, as its whole puzzle creates it.
pub open spec fn wrapped_coin(did: DidView) -> CreatedCoinView {
    CreatedCoinView {
        puzzle_hash: did.info.puzzle_hash(),
        amount: did.coin.amount,
        memo: Some(Some(did.info.p2_puzzle_hash)),
    }
}

/// What a DID-preserving spend that succeeds leaves behind: the DID itself in its next coin, and exactly
/// one more staged spend, that of the DID's coin. It emits the DID's next coin and then the caller's
/// conditions in their order, behind conditions that create nothing. Where the owner is the
/// DID's, the staged spend reads back as the DID that was spent and the DID that is left. It is a step
/// of the DID's lineage. It requires the signatures that the owner's spend requires, and where the owner's
/// key is valid, one `AGG_SIG_ME` under it and the signatures that the caller's conditions ask for.
pub open spec fn is_preserved(
    before: Seq<CoinSpendView>,
    after: Seq<CoinSpendView>,
    did: DidView,
    owner: OwnerView,
    conditions: Seq<Seq<u8>>,
    child: DidView,
) -> bool {
    &&& owner matches OwnerView::Standard(key)
    &&& standard_spend(key, seq![recreation(did)] + conditions) matches Ok(inner)
    &&& child == did.child(did.info.p2_puzzle_hash, did.coin.amount)
    &&& after.len() == before.len() + 1
    &&& after.drop_last() == before
    &&& after.last().coin == did.coin
    &&& emitted(inner.puzzle, inner.solution) == Ok::<Seq<Option<CreatedCoinView>>, Seq<char>>(
        seq![None, Some(recreated_coin(did))] + created_by_all(conditions),
    )
    &&& run_conditions(after.last().puzzle_reveal, after.last().solution) matches Ok(all)
        ==> emits_preserved(did, conditions, all)
    &&& emitted(after.last().puzzle_reveal, after.last().solution) matches Ok(created) ==> created
        == seq![None, None, None, Some(wrapped_coin(did))] + created_by_all(conditions)
    &&& standard_puzzle_hash(key) == did.info.p2_puzzle_hash ==> reads_back_as(
        after.last(),
        did,
        inner,
        child,
    )
    &&& singleton_emits(after.last().puzzle_reveal, after.last().solution) is Some ==> recreates_as(
        after.last(),
        did.info.launcher_id,
        child.coin,
    )
    &&& requires_same_signatures(after.last(), coin_spend(did.coin, inner))
    &&& is_valid_key(key) ==> requires_owner_signature(after.last(), key, agg_sigs(conditions))
}

/// The coin that recreates a DID, as its inner puzzle creates it.
pub open spec fn recreated_coin(did: DidView) -> CreatedCoinView {
    CreatedCoinView {
        puzzle_hash: did.info.inner_puzzle_hash(),
        amount: did.coin.amount,
        memo: Some(Some(did.info.p2_puzzle_hash)),
    }
}

/// Nothing in a list that creates no coin of odd amount is its first coin of odd amount.
proof fn lemma_no_odd_coin(created: Seq<Option<CreatedCoinView>>)
    requires
        forall|i: int|
            0 <= i < created.len() ==> (#[trigger] created[i] matches Some(coin) ==> coin.amount % 2
                == 0),
    ensures
        first_odd(created) == None::<CreatedCoinView>,
    decreases created.len(),
{
    if created.len() > 0 {
        let rest = created.drop_first();
        assert forall|i: int| 0 <= i < rest.len() implies (#[trigger] rest[i] matches Some(coin)
            ==> coin.amount % 2 == 0) by {
            assert(rest[i] == created[i + 1]);
        }
        lemma_no_odd_coin(rest);
    }
}

/// Conditions that are all permitted create no coin of odd amount.
pub proof fn permitted_conditions_create_no_odd_coin(conditions: Seq<Seq<u8>>)
    requires
        first_refusal(conditions) is None,
    ensures
        forall|i: int|
            0 <= i < conditions.len() ==> (created_by(#[trigger] conditions[i]) matches Some(coin)
                ==> coin.amount % 2 == 0),
    decreases conditions.len(),
{
    if conditions.len() > 0 {
        let rest = conditions.drop_first();
        permitted_conditions_create_no_odd_coin(rest);
        assert forall|i: int| 0 <= i < conditions.len() implies (created_by(
            #[trigger] conditions[i],
        ) matches Some(coin) ==> coin.amount % 2 == 0) by {
            if i > 0 {
                assert(conditions[i] == rest[i - 1]);
            }
        }
    }
}

/// Behind the owner's signature requirement and the recreation of a DID, permitted conditions leave
/// the recreation the first coin of odd amount, or none where the DID's amount is even.
proof fn lemma_recreation_comes_first(
    did: DidView,
    recreated: Seq<u8>,
    conditions: Seq<Seq<u8>>,
)
    requires
        first_refusal(conditions) is None,
        created_by(recreated) == Some(recreated_coin(did)),
    ensures
        first_odd(
            seq![None::<CreatedCoinView>] + created_by_all(seq![recreated] + conditions),
        ) == (if did.coin.amount % 2 == 1 {
            created_by(recreated)
        } else {
            None
        }),
{
    let all = seq![recreated] + conditions;
    let created = seq![None::<CreatedCoinView>] + created_by_all(all);
    permitted_conditions_create_no_odd_coin(conditions);
    assert(created[0] == None::<CreatedCoinView>);
    let behind = created.drop_first();
    assert(behind =~= created_by_all(all));
    assert(behind[0] == created_by(recreated));
    assert(first_odd(created) == first_odd(behind));
    if did.coin.amount % 2 == 0 {
        assert forall|i: int| 0 <= i < behind.len() implies (#[trigger] behind[i] matches Some(coin)
            ==> coin.amount % 2 == 0) by {
            if i > 0 {
                assert(all[i] == conditions[i - 1]);
                assert(behind[i] == created_by(conditions[i - 1]));
            }
        }
        lemma_no_odd_coin(behind);
    }
}

/// The spend of a preserved DID emits its next coin and the caller's conditions.
proof fn lemma_emits_preserved(
    did: DidView,
    conditions: Seq<Seq<u8>>,
    inner: SpendView,
    staged: SpendView,
)
    requires
        first_refusal(conditions) is None,
        did.coin.amount % 2 == 1,
        is_canonical(recreation(did)),
        hinted_reads_back(did.info.inner_puzzle_hash(), did.coin.amount, did.info.p2_puzzle_hash),
        hinted_reads_back(did.info.puzzle_hash(), did.coin.amount, did.info.p2_puzzle_hash),
        emits_behind_signature(inner, seq![recreation(did)] + conditions),
        creates_by_conditions(staged),
        run_conditions(staged.puzzle, staged.solution) matches Ok(all) ==> run_conditions(
            inner.puzzle,
            inner.solution,
        ) matches Ok(inner_all) && wraps(did.info.launcher_id, inner_all, all),
    ensures
        run_conditions(staged.puzzle, staged.solution) matches Ok(all) ==> emits_preserved(
            did,
            conditions,
            all,
        ),
        emitted(staged.puzzle, staged.solution) matches Ok(created) ==> created == seq![
            None,
            None,
            None,
            Some(wrapped_coin(did)),
        ] + created_by_all(conditions),
{
    if let Ok(all) = run_conditions(staged.puzzle, staged.solution) {
        let inner_all = run_conditions(inner.puzzle, inner.solution)->Ok_0;
        let emitting = seq![recreation(did)] + conditions;
        let next = hinted_create_coin(
            did.info.puzzle_hash(),
            did.coin.amount,
            did.info.p2_puzzle_hash,
        );
        let outer = inner_all.update(1, next);
        assert(reads_alike(inner_all[0int + 1], emitting[0]));
        assert(inner_all[1] == recreation(did));
        assert(recreation(did)[1] == 51);
        conditions_are_judged_one_by_one(conditions);
        assert forall|i: int| 0 <= i < conditions.len() implies reads_alike(
            inner_all[i + 2],
            #[trigger] conditions[i],
        ) && wrapped(did.info.launcher_id, inner_all[i + 2]) == Some(seq![inner_all[i + 2]]) by {
            assert(emitting[i + 1] == conditions[i]);
            assert(reads_alike(inner_all[i + 1 + 1], emitting[i + 1]));
            assert(refusal_of(conditions[i]) is None);
        }
        assert forall|i: int| 0 <= i < inner_all.len() implies wrapped(
            did.info.launcher_id,
            #[trigger] inner_all[i],
        ) == Some(seq![outer[i]]) by {
            if i >= 2 {
                let condition = conditions[i - 2];
                assert(inner_all[i - 2 + 2] == inner_all[i]);
            }
        }
        lemma_wrapped_one_by_one(did.info.launcher_id, inner_all, outer);
        assert forall|i: int| 0 <= i < outer.len() implies all[i + 2] == #[trigger] outer[i] by {
            assert(all.skip(2)[i] == all[i + 2]);
        }
        assert(all[0int + 2] == outer[0]);
        assert(all[1int + 2] == outer[1]);
        assert forall|i: int| 0 <= i < conditions.len() implies reads_alike(
            all[i + 4],
            #[trigger] conditions[i],
        ) by {
            assert(all[i + 2 + 2] == outer[i + 2]);
        }
        let created = seq![None, None, None, Some(wrapped_coin(did))] + created_by_all(conditions);
        assert forall|i: int| 0 <= i < all.len() implies created_by(#[trigger] all[i])
            == created[i] by {
            if i >= 4 {
                assert(reads_alike(all[i - 4 + 4], conditions[i - 4]));
            }
        }
        assert(created_by_all(all) =~= created);
    }
}

/// Spends `did`, emitting `conditions` in addition to the recreation condition that preserves the DID
/// unchanged, and returns the recreated child DID. The spend is staged into `context`.
///
/// The recreation comes first and the caller's conditions follow it, in their order. The order is
/// load-bearing: the driver finds the successor by looking for the first odd-amount `CREATE_COIN`.
///
/// The DID's own spend requires exactly one `AGG_SIG_ME` under the owner's key. The caller's conditions
/// may add coin-bound signature requirements of their own.
///
/// # Errors
///
/// - [`DidError::UnsupportedOwner`] for a custom owner, whose pre-built spend cannot carry the
///   recreation.
/// - [`DidError::OddAmountCreateCoin`], [`DidError::AggSigUnsafeInConditions`],
///   [`DidError::NonCanonicalCreateCoinAmount`] or [`DidError::DisallowedCondition`] for a condition
///   that is not permitted: see [`permit_only_conditions_a_did_may_carry`].
/// - [`DidError::Parse`] if the spend leaves no successor DID, as for a coin of even amount.
/// - [`DidError::Driver`] for a driver failure, a condition that is no CLVM tree among them.
pub fn spend_did_with_conditions(
    context: &mut SpendContext,
    did: Did,
    owner: Owner,
    conditions: Conditions,
) -> (child: DidResult<Did>)
    ensures
        (Preserved { staged: final(context)@, child: outcome(child) }) == preserving_spend(
            old(context)@,
            did@,
            owner@,
            conditions@,
        ),
        child matches Ok(left) ==> is_preserved(
            old(context)@,
            final(context)@,
            did@,
            owner@,
            conditions@,
            left@,
        ),
{
    if let Owner::Custom(_) = owner {
        return Err(
            DidError::UnsupportedOwner(
                "spend_did_with_conditions requires Owner::Standard; a pre-built custom inner spend cannot carry the DID's recreation condition — build the spend yourself and call Did::spend",
            ),
        );
    }
    match permit_only_conditions_a_did_may_carry(&conditions) {
        Ok(_) => {},
        Err(error) => {
            return Err(error);
        },
    }
    let unchanged_inner_puzzle_hash = did.info.inner_puzzle_hash();
    let recreated = create_hinted_coin(
        &unchanged_inner_puzzle_hash,
        did.coin.amount,
        &did.info.p2_puzzle_hash,
    );
    let ghost recreated_bytes = program_bytes(recreated);
    let with_recreation = Conditions::new().with(recreated).extend(conditions);
    assert(with_recreation@ =~= seq![recreation(did@)] + conditions@);
    let inner = match inner_spend(&owner, &with_recreation) {
        Ok(inner) => inner,
        Err(error) => {
            return Err(error);
        },
    };
    let (staged, successor) = spend_did(
        &did.coin,
        &did.proof,
        &did.info,
        &inner.puzzle,
        &inner.solution,
    );
    context.spend_all(did.coin, staged);
    proof {
        lemma_recreation_comes_first(did@, recreated_bytes, conditions@);
        assert(recreates(did@, recreated_coin(did@), did@.info.p2_puzzle_hash));
        if successor matches Ok(Some(_)) {
            let spent = did_spend(did@, inner@);
            assert(spent.staged.len() == 1);
            assert(context@ =~= old(context)@.push(coin_spend(did.coin@, spent.staged[0])));
            assert(context@.drop_last() =~= old(context)@);
            assert(did@.info.owned_by(did@.info.p2_puzzle_hash) =~= did@.info);
            assert(seq![recreated_bytes].drop_last() =~= Seq::<Seq<u8>>::empty());
            reveal_with_fuel(agg_sigs, 2);
            lemma_agg_sigs_behind(recreated_bytes, conditions@);
            assert(is_valid_key(owner@->Standard_0) ==> requires_owner_signature(
                coin_spend(did.coin@, inner@),
                owner@->Standard_0,
                agg_sigs(conditions@),
            ));
            lemma_emits_preserved(did@, conditions@, inner@, spent.staged[0]);
            assert(seq![None::<CreatedCoinView>] + created_by_all(
                seq![recreated_bytes] + conditions@,
            ) =~= seq![None, Some(recreated_coin(did@))] + created_by_all(conditions@));
        }
    }
    match successor {
        Err(error) => Err(DidError::Driver(error)),
        Ok(None) => Err(DidError::Parse("DID spend produced no successor DID".to_owned())),
        Ok(Some((owner_hash, amount))) => Ok(did.child(owner_hash, amount)),
    }
}

/// An amount atom passes exactly where it is the encoding of some amount.
pub proof fn canonical_amounts_are_the_encodings(atom: Seq<u8>)
    ensures
        amount_fault(atom) is None <==> exists|amount: u64|
            atom == #[trigger] int_atom(amount as nat),
{
    assert(amount_fault(atom) is None <==> is_shortest_amount(atom));
    if amount_fault(atom) is None {
        crate::bytes::shortest_atoms_encode_their_amount(atom);
        let amount = big_endian_value(atom) as u64;
        assert(atom == int_atom(amount as nat));
    }
    if exists|amount: u64| atom == #[trigger] int_atom(amount as nat) {
        let amount = choose|amount: u64| atom == #[trigger] int_atom(amount as nat);
        crate::bytes::amounts_have_one_encoding(amount);
    }
}

/// A list is permitted exactly where each of its conditions is.
pub proof fn conditions_are_judged_one_by_one(conditions: Seq<Seq<u8>>)
    ensures
        first_refusal(conditions) is None <==> forall|i: int|
            0 <= i < conditions.len() ==> refusal_of(#[trigger] conditions[i]) is None,
    decreases conditions.len(),
{
    if conditions.len() > 0 {
        let rest = conditions.drop_first();
        conditions_are_judged_one_by_one(rest);
        assert forall|i: int| 0 <= i < rest.len() implies rest[i] == #[trigger] conditions[i
            + 1] by {}
        if first_refusal(conditions) is None {
            assert forall|i: int| 0 <= i < conditions.len() implies refusal_of(
                #[trigger] conditions[i],
            ) is None by {
                if i > 0 {
                    assert(conditions[i] == rest[i - 1]);
                }
            }
        }
        if forall|i: int|
            0 <= i < conditions.len() ==> refusal_of(#[trigger] conditions[i]) is None {
            assert(refusal_of(conditions[0]) is None);
            assert forall|i: int| 0 <= i < rest.len() implies refusal_of(
                #[trigger] rest[i],
            ) is None by {
                assert(rest[i] == conditions[i + 1]);
            }
        }
    }
}

/// The guard fails closed: a permitted condition is one that the SDK names and the allowlist holds, or
/// a `CREATE_COIN` of even amount whose amount is canonically encoded. It is never an `AGG_SIG_UNSAFE`,
/// never a magic `CREATE_COIN`, and never a condition without a name.
pub proof fn permitted_conditions_are_on_the_allowlist(bytes: Seq<u8>)
    requires
        refusal_of(bytes) is None,
    ensures
        match condition_in(bytes) {
            Ok(ConditionView::CreateCoin(create)) => {
                &&& create.amount % 2 == 0
                &&& exists|amount: u64| create.amount_atom == #[trigger] int_atom(amount as nat)
            },
            Ok(ConditionView::Named(opcode)) => {
                &&& is_permitted_opcode(opcode)
                &&& opcode != 49
                &&& opcode != 51
            },
            _ => false,
        },
{
    if let Ok(ConditionView::CreateCoin(create)) = condition_in(bytes) {
        canonical_amounts_are_the_encodings(create.amount_atom);
    }
}

/// A DID-preserving spend that is refused stages nothing: for a custom owner, whatever the conditions,
/// and for a condition that is not permitted.
pub proof fn refused_spends_stage_nothing(
    staged: Seq<CoinSpendView>,
    did: DidView,
    owner: OwnerView,
    conditions: Seq<Seq<u8>>,
)
    requires
        owner is Custom || first_refusal(conditions) is Some,
    ensures
        preserving_spend(staged, did, owner, conditions).staged == staged,
        preserving_spend(staged, did, owner, conditions).child is Err,
{
}

/// The DID that a DID-preserving spend leaves is the DID that was spent: same identity, same owner, same
/// recovery configuration and metadata, same puzzle and same amount, one generation on. Its amount is
/// odd, as every singleton's is.
pub proof fn preserving_spends_preserve_the_did(
    staged: Seq<CoinSpendView>,
    did: DidView,
    owner: OwnerView,
    conditions: Seq<Seq<u8>>,
    child: DidView,
)
    requires
        preserving_spend(staged, did, owner, conditions).child == Ok::<DidView, Fault>(child),
    ensures
        child.info == did.info,
        child.coin.parent_coin_info == did.coin.id(),
        child.coin.puzzle_hash == did.info.puzzle_hash(),
        child.coin.amount == did.coin.amount,
        child.coin.amount % 2 == 1,
{
    assert(did.info.owned_by(did.info.p2_puzzle_hash) =~= did.info);
}

/// A preserving spend adds to the signatures that were required before it one `AGG_SIG_ME` of the owner
/// over the DID's coin, then what the signature requirements among the caller's conditions ask for, one
/// by one and in their order, and nothing else. They are those that the signer calculates for the DID's
/// spend, unchanged, and for the owner's spend of the DID's coin.
pub proof fn preserving_spends_require_the_owners_signature(
    before: Seq<CoinSpendView>,
    after: Seq<CoinSpendView>,
    did: DidView,
    owner: OwnerView,
    conditions: Seq<Seq<u8>>,
    child: DidView,
    constants: AggSigConstants,
    signatures: Seq<RequiredSignatureView>,
)
    requires
        is_preserved(before, after, did, owner, conditions, child),
        owner.has_valid_key(),
        signatures_of_all(after, domain_strings(constants)) == Ok::<
            Seq<RequiredSignatureView>,
            Fault,
        >(signatures),
    ensures
        owner matches OwnerView::Standard(key) && signatures_of_all(
            before,
            domain_strings(constants),
        ) matches Ok(prior) && signatures_of(after.last(), domain_strings(constants)) matches Ok(
            calculated,
        ) && {
            &&& signatures == prior + calculated
            &&& standard_spend(key, seq![recreation(did)] + conditions) matches Ok(inner)
            &&& signatures_of(coin_spend(did.coin, inner), domain_strings(constants)) == Ok::<
                Seq<RequiredSignatureView>,
                Seq<char>,
            >(calculated)
            &&& signatures.len() == prior.len() + 1 + agg_sigs(conditions).len()
            &&& signatures.take(prior.len() as int) == prior
            &&& is_owner_signature(
                signatures[prior.len() as int],
                key,
                did.coin,
                domain_strings(constants),
            )
            &&& forall|i: int|
                prior.len() < i < signatures.len() ==> is_bound(
                    #[trigger] signatures[i],
                    agg_sigs(conditions)[i - prior.len() - 1],
                    did.coin,
                    domain_strings(constants),
                )
        },
{
    let domains = domain_strings(constants);
    let prior = signatures_of_all(before, domains)->Ok_0;
    let added = signatures_of(after.last(), domains)->Ok_0;
    assert(after.drop_last() == before);
    assert(signatures.take(prior.len() as int) =~= prior);
    assert forall|i: int| prior.len() < i < signatures.len() implies is_bound(
        #[trigger] signatures[i],
        agg_sigs(conditions)[i - prior.len() - 1],
        did.coin,
        domains,
    ) by {
        assert(signatures[i] == added[i - prior.len()]);
    }
}

/// The signature requirements among permitted conditions are those bound to the coin's id or its
/// parent's.
proof fn lemma_permitted_agg_sigs(conditions: Seq<Seq<u8>>)
    requires
        forall|i: int| 0 <= i < conditions.len() ==> refusal_of(#[trigger] conditions[i]) is None,
    ensures
        forall|i: int|
            0 <= i < agg_sigs(conditions).len() ==> {
                let opcode = #[trigger] agg_sigs(conditions)[i];
                opcode == 43 || opcode == 47 || opcode == 48 || opcode == 50
            },
    decreases conditions.len(),
{
    if conditions.len() > 0 {
        let rest = conditions.drop_last();
        assert forall|i: int| 0 <= i < rest.len() implies refusal_of(#[trigger] rest[i]) is None by {
            assert(rest[i] == conditions[i]);
        }
        lemma_permitted_agg_sigs(rest);
        assert(refusal_of(conditions[conditions.len() - 1]) is None);
        assert forall|i: int| 0 <= i < agg_sigs(conditions).len() implies {
            let opcode = #[trigger] agg_sigs(conditions)[i];
            opcode == 43 || opcode == 47 || opcode == 48 || opcode == 50
        } by {
            if i < agg_sigs(rest).len() {
                assert(agg_sigs(conditions)[i] == agg_sigs(rest)[i]);
            }
        }
    }
}

/// Every signature that a preserving spend adds is bound: it commits to the DID coin's id or to its
/// parent's, and to the network by a domain string. None is that of an `AGG_SIG_UNSAFE`.
pub proof fn preserving_spends_require_only_bound_signatures(
    before: Seq<CoinSpendView>,
    after: Seq<CoinSpendView>,
    did: DidView,
    owner: OwnerView,
    conditions: Seq<Seq<u8>>,
    child: DidView,
    constants: AggSigConstants,
    signatures: Seq<RequiredSignatureView>,
)
    requires
        preserving_spend(before, did, owner, conditions).child == Ok::<DidView, Fault>(child),
        is_preserved(before, after, did, owner, conditions, child),
        owner.has_valid_key(),
        signatures_of_all(after, domain_strings(constants)) == Ok::<
            Seq<RequiredSignatureView>,
            Fault,
        >(signatures),
    ensures
        signatures_of_all(before, domain_strings(constants)) matches Ok(prior) && forall|i: int|
            prior.len() <= i < signatures.len() ==> {
                &&& #[trigger] signatures[i] matches RequiredSignatureView::Bls {
                    public_key,
                    raw_message,
                    appended_info,
                    domain_string,
                }
                &&& domain_string is Some
                &&& appended_info == did.coin.id() || did.coin.parent_coin_info.is_prefix_of(
                    appended_info,
                )
            },
{
    preserving_spends_require_the_owners_signature(
        before,
        after,
        did,
        owner,
        conditions,
        child,
        constants,
        signatures,
    );
    conditions_are_judged_one_by_one(conditions);
    lemma_permitted_agg_sigs(conditions);
    let prior = signatures_of_all(before, domain_strings(constants))->Ok_0;
    let parent = did.coin.parent_coin_info;
    assert forall|i: int| prior.len() <= i < signatures.len() implies {
        &&& #[trigger] signatures[i] matches RequiredSignatureView::Bls {
            public_key,
            raw_message,
            appended_info,
            domain_string,
        }
        &&& domain_string is Some
        &&& appended_info == did.coin.id() || parent.is_prefix_of(appended_info)
    } by {
        if i > prior.len() {
            let opcode = agg_sigs(conditions)[i - prior.len() - 1];
            let info = bound_info(opcode, did.coin);
            assert(is_bound(signatures[i], opcode, did.coin, domain_strings(constants)));
            if opcode != 50 {
                assert(info.take(parent.len() as int) =~= parent);
            }
        }
    }
}

/// A preserving spend of a DID with a genuine lineage leaves a DID with a genuine lineage, longer by that
/// spend.
pub proof fn preserving_spends_extend_the_lineage(
    before: Seq<CoinSpendView>,
    after: Seq<CoinSpendView>,
    did: DidView,
    owner: OwnerView,
    conditions: Seq<Seq<u8>>,
    child: DidView,
    lineage: Seq<CoinSpendView>,
)
    requires
        is_preserved(before, after, did, owner, conditions, child),
        is_genuine(did.coin.id(), lineage),
        did.info.launcher_id == lineage.last().coin.id(),
        runs_as_singleton(after.last()),
    ensures
        is_genuine(child.coin.id(), seq![after.last()] + lineage),
        child.info.launcher_id == lineage.last().coin.id(),
{
    lineages_grow_by_one_spend(child.coin.id(), after.last(), lineage);
}

/// The DID that the owner's preserving spend leaves is exactly the DID that the spend hydrates to, and the
/// one that is found at its tip, where its inner puzzle runs.
pub proof fn preserved_dids_are_found_at_their_tip(
    before: Seq<CoinSpendView>,
    after: Seq<CoinSpendView>,
    did: DidView,
    key: Seq<u8>,
    conditions: Seq<Seq<u8>>,
    child: DidView,
)
    requires
        is_preserved(before, after, did, OwnerView::Standard(key), conditions, child),
        standard_puzzle_hash(key) == did.info.p2_puzzle_hash,
        singleton_emits(after.last().puzzle_reveal, after.last().solution) is Some,
    ensures
        hydrating(did.coin, after.last().puzzle_reveal, after.last().solution, child.coin) == Ok::<
            DidView,
            Fault,
        >(child),
        tip_in(child.coin.id(), after.last()) == Ok::<DidView, Fault>(child),
{
    let inner = standard_spend(key, seq![recreation(did)] + conditions)->Ok_0;
    staged_dids_are_found_at_their_tip(after.last(), did, inner, child);
}

/// A condition is permitted exactly where it reads as a `CREATE_COIN` of even amount, whatever its puzzle hash
/// and its memos, whose amount atom encodes some amount, or as a condition of a listed opcode: `REMARK`,
/// `AGG_SIG_PARENT`, `AGG_SIG_PARENT_AMOUNT`, `AGG_SIG_PARENT_PUZZLE`, `AGG_SIG_ME`, `RESERVE_FEE`, the
/// announcements, the concurrency assertions and the messages, the assertions on the coin itself, and the
/// timelocks.
pub proof fn conditions_are_permitted_exactly_by_the_allowlist(bytes: Seq<u8>)
    ensures
        refusal_of(bytes) is None <==> match condition_in(bytes) {
            Ok(ConditionView::CreateCoin(create)) => {
                &&& create.amount % 2 == 0
                &&& exists|amount: u64| create.amount_atom == #[trigger] int_atom(amount as nat)
            },
            Ok(ConditionView::Named(opcode)) => seq![
                1i8, 43, 47, 48, 50, 52, 60, 61, 62, 63, 64, 65, 66, 67, 70, 71, 72, 73, 74, 75, 76, 80,
                81, 82, 83, 84, 85, 86, 87,
            ].contains(opcode),
            _ => false,
        },
{
    if let Ok(ConditionView::CreateCoin(create)) = condition_in(bytes) {
        canonical_amounts_are_the_encodings(create.amount_atom);
    }
    if let Ok(ConditionView::Named(opcode)) = condition_in(bytes) {
        let listed = seq![
            1i8, 43, 47, 48, 50, 52, 60, 61, 62, 63, 64, 65, 66, 67, 70, 71, 72, 73, 74, 75, 76, 80, 81,
            82, 83, 84, 85, 86, 87,
        ];
        if is_permitted_opcode(opcode) {
            let index: int = if opcode == 1 {
                0
            } else if opcode == 43 {
                1
            } else if opcode == 47 {
                2
            } else if opcode == 48 {
                3
            } else if opcode == 50 {
                4
            } else if opcode == 52 {
                5
            } else if opcode <= 67 {
                opcode - 54
            } else if opcode <= 76 {
                opcode - 56
            } else {
                opcode - 59
            };
            assert(listed[index] == opcode);
        }
    }
}

/// What a condition is refused for: an odd amount for a `CREATE_COIN` of odd amount, a signature without a
/// binding for an `AGG_SIG_UNSAFE`, the encoding for a `CREATE_COIN` of even amount whose amount atom encodes
/// no amount, and otherwise, by its rendering, for a condition that is not listed or has no name. Bytes that
/// are no condition are a driver error.
pub proof fn refusals_name_their_cause(bytes: Seq<u8>, text: Seq<char>)
    ensures
        refusal_of(bytes) == Some(Fault::OddAmountCreateCoin) <==> {
            &&& condition_in(bytes) matches Ok(ConditionView::CreateCoin(create))
            &&& create.amount % 2 == 1
        },
        refusal_of(bytes) == Some(Fault::AggSigUnsafeInConditions) <==> condition_in(bytes) == Ok::<
            ConditionView,
            Seq<char>,
        >(ConditionView::Named(49)),
        refusal_of(bytes) matches Some(Fault::NonCanonicalCreateCoinAmount(_)) <==> {
            &&& condition_in(bytes) matches Ok(ConditionView::CreateCoin(create))
            &&& create.amount % 2 == 0
            &&& forall|amount: u64| create.amount_atom != #[trigger] int_atom(amount as nat)
        },
        refusal_of(bytes) == Some(Fault::DisallowedCondition(text)) ==> text == condition_text(bytes),
        refusal_of(bytes) matches Some(Fault::DisallowedCondition(_)) <==> match condition_in(bytes) {
            Ok(ConditionView::Named(opcode)) => opcode != 49 && refusal_of(bytes) is Some,
            Ok(ConditionView::Unnamed) => true,
            _ => false,
        },
        refusal_of(bytes) == Some(Fault::Driver(text)) <==> condition_in(bytes) == Err::<
            ConditionView,
            Seq<char>,
        >(text),
{
    if let Ok(ConditionView::CreateCoin(create)) = condition_in(bytes) {
        canonical_amounts_are_the_encodings(create.amount_atom);
    }
}

/// Of an amount atom that encodes no amount it is said what is wrong with it: its sign bit, else a leading zero
/// byte that guards no sign bit, else that its value does not fit an amount.
pub proof fn amount_faults_name_their_cause(atom: Seq<u8>)
    ensures
        amount_fault(atom) == Some("the sign bit of the leading byte is set"@) <==> atom.len() > 0
            && atom[0] >= 0x80,
        amount_fault(atom) == Some("the leading zero byte is redundant"@) <==> atom.len() > 0 && atom[0]
            == 0 && (atom.len() > 1 ==> atom[1] < 0x80),
        amount_fault(atom) == Some("the amount does not fit in eight bytes"@) <==> {
            &&& atom.len() > 8
            &&& 0 <= atom[0] < 0x80
            &&& atom[0] == 0 ==> atom.len() > 9 && atom[1] >= 0x80
        },
        amount_fault(atom) matches Some(text) ==> text == "the sign bit of the leading byte is set"@
            || text == "the leading zero byte is redundant"@ || text
            == "the amount does not fit in eight bytes"@,
{
    reveal_strlit("the sign bit of the leading byte is set");
    reveal_strlit("the leading zero byte is redundant");
    reveal_strlit("the amount does not fit in eight bytes");
    assert("the sign bit of the leading byte is set"@[4] != "the leading zero byte is redundant"@[4]);
    assert("the sign bit of the leading byte is set"@[4]
        != "the amount does not fit in eight bytes"@[4]);
    assert("the leading zero byte is redundant"@[4] != "the amount does not fit in eight bytes"@[4]);
}

/// A list is refused for the first condition in it that is, whatever stands behind that.
pub proof fn the_first_refusal_decides(conditions: Seq<Seq<u8>>, fault: Fault)
    ensures
        first_refusal(conditions) == Some(fault) <==> exists|i: int|
            {
                &&& 0 <= i < conditions.len()
                &&& refusal_of(#[trigger] conditions[i]) == Some(fault)
                &&& forall|j: int| 0 <= j < i ==> refusal_of(#[trigger] conditions[j]) is None
            },
    decreases conditions.len(),
{
    if conditions.len() > 0 {
        let rest = conditions.drop_first();
        the_first_refusal_decides(rest, fault);
        if first_refusal(conditions) == Some(fault) && refusal_of(conditions[0]) is None {
            let i = choose|i: int|
                {
                    &&& 0 <= i < rest.len()
                    &&& refusal_of(#[trigger] rest[i]) == Some(fault)
                    &&& forall|j: int| 0 <= j < i ==> refusal_of(#[trigger] rest[j]) is None
                };
            assert(conditions[i + 1] == rest[i]);
            assert forall|j: int| 0 <= j < i + 1 implies refusal_of(#[trigger] conditions[j]) is None by {
                if j > 0 {
                    assert(conditions[j] == rest[j - 1]);
                }
            }
        }
        if exists|i: int|
            {
                &&& 0 <= i < conditions.len()
                &&& refusal_of(#[trigger] conditions[i]) == Some(fault)
                &&& forall|j: int| 0 <= j < i ==> refusal_of(#[trigger] conditions[j]) is None
            } {
            let i = choose|i: int|
                {
                    &&& 0 <= i < conditions.len()
                    &&& refusal_of(#[trigger] conditions[i]) == Some(fault)
                    &&& forall|j: int| 0 <= j < i ==> refusal_of(#[trigger] conditions[j]) is None
                };
            if i > 0 {
                assert(refusal_of(conditions[0]) is None);
                assert(rest[i - 1] == conditions[i]);
                assert forall|j: int| 0 <= j < i - 1 implies refusal_of(#[trigger] rest[j]) is None by {
                    assert(rest[j] == conditions[j + 1]);
                }
            }
        }
    }
}

/// A preserving spend succeeds exactly where a standard owner spends a DID of odd amount with conditions that
/// are each permitted, and the driver builds both spends: the owner's with the DID's recreation and then the
/// conditions, and the DID's around it. What is left is the DID in its next coin, under its own hash, proven
/// by the coin that was spent, and what is staged behind the rest is the DID's spend.
pub proof fn preserving_spends_succeed_exactly_where_permitted(
    staged: Seq<CoinSpendView>,
    did: DidView,
    owner: OwnerView,
    conditions: Seq<Seq<u8>>,
    child: DidView,
)
    ensures
        preserving_spend(staged, did, owner, conditions).child == Ok::<DidView, Fault>(child) <==> {
            let recreation = hinted_create_coin(
                did_inner_puzzle_hash(did.info),
                did.coin.amount,
                did.info.p2_puzzle_hash,
            );
            &&& owner matches OwnerView::Standard(key)
            &&& forall|i: int|
                0 <= i < conditions.len() ==> refusal_of(#[trigger] conditions[i]) is None
            &&& did.coin.amount % 2 == 1
            &&& standard_spend(key, seq![recreation] + conditions) matches Ok(inner)
            &&& did_spend(did, inner).child is Ok
            &&& child.info == did.info
            &&& child.coin == CoinView {
                parent_coin_info: coin_id_of(did.coin),
                puzzle_hash: singleton_puzzle_hash(
                    did.info.launcher_id,
                    did_inner_puzzle_hash(did.info),
                ),
                amount: did.coin.amount,
            }
            &&& child.proof == seq![
                did.coin.parent_coin_info,
                did_inner_puzzle_hash(did.info),
                int_atom(did.coin.amount as nat),
            ]
        },
        preserving_spend(staged, did, owner, conditions).child is Ok ==> {
            let recreation = hinted_create_coin(
                did_inner_puzzle_hash(did.info),
                did.coin.amount,
                did.info.p2_puzzle_hash,
            );
            &&& standard_spend(owner->Standard_0, seq![recreation] + conditions) matches Ok(inner)
            &&& preserving_spend(staged, did, owner, conditions).staged == staged + coin_spends(
                did.coin,
                did_spend(did, inner).staged,
            )
        },
{
    conditions_are_judged_one_by_one(conditions);
    assert(did.info.owned_by(did.info.p2_puzzle_hash) =~= did.info);
    if let Ok(left) = preserving_spend(staged, did, owner, conditions).child {
        assert(left.coin == child.coin && left.proof == child.proof && left.info == child.info ==> left
            == child);
    }
}

/// A preserving spend that fails tells why: a custom owner is unsupported, else the first condition that is
/// refused decides, else it is the driver's own error, or the DID's amount is even. What was staged before
/// stays staged, and nothing is added before the driver spends the DID.
pub proof fn failed_preserving_spends_tell_why(
    staged: Seq<CoinSpendView>,
    did: DidView,
    owner: OwnerView,
    conditions: Seq<Seq<u8>>,
    fault: Fault,
)
    requires
        preserving_spend(staged, did, owner, conditions).child == Err::<DidView, Fault>(fault),
    ensures
        staged.is_prefix_of(preserving_spend(staged, did, owner, conditions).staged),
        match owner {
            OwnerView::Custom(_) => fault is UnsupportedOwner,
            OwnerView::Standard(key) => {
                let recreation = hinted_create_coin(
                    did_inner_puzzle_hash(did.info),
                    did.coin.amount,
                    did.info.p2_puzzle_hash,
                );
                ||| first_refusal(conditions) == Some(fault)
                ||| {
                    &&& first_refusal(conditions) is None
                    &&& match standard_spend(key, seq![recreation] + conditions) {
                        Err(text) => fault == Fault::Driver(text),
                        Ok(inner) => match did_spend(did, inner).child {
                            Err(text) => fault == Fault::Driver(text),
                            Ok(_) => fault is Parse && did.coin.amount % 2 == 0,
                        },
                    }
                }
            },
        },
        owner is Custom || first_refusal(conditions) is Some ==> preserving_spend(
            staged,
            did,
            owner,
            conditions,
        ).staged == staged,
{
    let after = preserving_spend(staged, did, owner, conditions).staged;
    assert(after.subrange(0, staged.len() as int) =~= staged);
}

/// What the spend of a preserved DID emits, where it runs: behind two assertions and the owner's `AGG_SIG_ME`
/// the DID's next coin, and then each of the caller's conditions in its canonical form, reading as it did,
/// in their order and nothing else. So the coins that it creates are the DID's next coin and those that the
/// caller's conditions create.
pub proof fn preserving_spends_emit_the_callers_conditions(
    before: Seq<CoinSpendView>,
    after: Seq<CoinSpendView>,
    did: DidView,
    owner: OwnerView,
    conditions: Seq<Seq<u8>>,
    child: DidView,
)
    requires
        is_preserved(before, after, did, owner, conditions, child),
    ensures
        run_conditions(after.last().puzzle_reveal, after.last().solution) matches Ok(all) ==> {
            &&& all.len() == conditions.len() + 4
            &&& created_by(all[0]) is None && created_by(all[1]) is None && created_by(all[2]) is None
            &&& all[3] == hinted_create_coin(
                singleton_puzzle_hash(did.info.launcher_id, did_inner_puzzle_hash(did.info)),
                did.coin.amount,
                did.info.p2_puzzle_hash,
            )
            &&& forall|i: int|
                0 <= i < conditions.len() ==> {
                    &&& canonical_clvm(#[trigger] conditions[i]) == Ok::<Seq<u8>, Seq<char>>(all[i + 4])
                    &&& condition_in(all[i + 4]) == condition_in(conditions[i])
                }
        },
        emitted(after.last().puzzle_reveal, after.last().solution) matches Ok(created) ==> {
            &&& created.len() == conditions.len() + 4
            &&& created[0] is None && created[1] is None && created[2] is None
            &&& created[3] matches Some(coin) && {
                &&& coin.puzzle_hash == child.coin.puzzle_hash
                &&& coin.amount == child.coin.amount
                &&& coin.memo == Some(Some(did.info.p2_puzzle_hash))
            }
            &&& forall|i: int|
                0 <= i < conditions.len() ==> created[i + 4] == created_by(#[trigger] conditions[i])
        },
{
    assert(did.info.owned_by(did.info.p2_puzzle_hash) =~= did.info);
    if let Ok(all) = run_conditions(after.last().puzzle_reveal, after.last().solution) {
        assert forall|i: int| 0 <= i < conditions.len() implies {
            &&& canonical_clvm(#[trigger] conditions[i]) == Ok::<Seq<u8>, Seq<char>>(all[i + 4])
            &&& condition_in(all[i + 4]) == condition_in(conditions[i])
        } by {
            assert(reads_alike(all[i + 4], conditions[i]));
        }
    }
    if let Ok(created) = emitted(after.last().puzzle_reveal, after.last().solution) {
        assert forall|i: int| 0 <= i < conditions.len() implies created[i + 4] == created_by(
            #[trigger] conditions[i],
        ) by {
            assert(created_by_all(conditions)[i] == created_by(conditions[i]));
        }
    }
}

/// The owner's preserving spend, parsed, is the DID that was spent, authorized by the owner's spend with the
/// recreation and the caller's conditions.
pub proof fn preserving_spends_show_the_did_and_its_owner(
    before: Seq<CoinSpendView>,
    after: Seq<CoinSpendView>,
    did: DidView,
    key: Seq<u8>,
    conditions: Seq<Seq<u8>>,
    child: DidView,
)
    requires
        is_preserved(before, after, did, OwnerView::Standard(key), conditions, child),
        standard_puzzle_hash(key) == did.info.p2_puzzle_hash,
    ensures
        after.len() == before.len() + 1,
        forall|i: int| 0 <= i < before.len() ==> #[trigger] after[i] == before[i],
        after.last().coin == did.coin,
        ({
            let recreation = hinted_create_coin(
                did_inner_puzzle_hash(did.info),
                did.coin.amount,
                did.info.p2_puzzle_hash,
            );
            &&& standard_spend(key, seq![recreation] + conditions) matches Ok(inner)
            &&& parsing(did.coin, after.last().puzzle_reveal, after.last().solution) == Ok::<
                Option<ParsedSpend>,
                Fault,
            >(Some(ParsedSpend { did, p2_spend: Some(inner) }))
        }),
{
    assert forall|i: int| 0 <= i < before.len() implies #[trigger] after[i] == before[i] by {
        assert(after.drop_last()[i] == before[i]);
    }
}

} // verus!
