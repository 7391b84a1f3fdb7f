use chia_bls::SecretKey;
use chia_protocol::{Bytes, Bytes32, Coin as SdkCoin, CoinSpend as SdkCoinSpend, Program};
use chia_puzzle_types::singleton::SingletonArgs;
use chia_puzzle_types::Memos;
use chia_wallet_sdk::driver::{Launcher, SpendContext as SdkContext};
use chia_wallet_sdk::prelude::{Allocator, NodePtr, PublicKey, MAINNET_CONSTANTS};
use chia_wallet_sdk::test::Simulator;
use chia_wallet_sdk::types::conditions::{AggSig, AggSigKind, CreateCoin};
use chia_wallet_sdk::types::{run_puzzle, Condition, Conditions as SdkConditions};
use clvm_traits::{FromClvm, ToClvm};

use dig_did::clvm::{self, MAX_LIST_LENGTH};
use dig_did::context::inner_spend;
use dig_did::update::permit_only_conditions_a_did_may_carry;
use dig_did::{
    create_simple_did, required_signatures, spend_did_with_conditions, AggSigConstants, Coin,
    CoinSpend, Conditions, Did, DidError, DidResult, Owner, RequiredSignature, SpendContext,
};

/// The coin as the SDK holds it.
fn sdk_coin(coin: Coin) -> SdkCoin {
    SdkCoin::new(coin.parent_coin_info, coin.puzzle_hash, coin.amount)
}

/// The SDK's coin as the library holds it.
fn lib_coin(coin: SdkCoin) -> Coin {
    Coin::new(coin.parent_coin_info, coin.puzzle_hash, coin.amount)
}

/// The coin spends as the SDK holds them.
fn sdk_spends(coin_spends: &[CoinSpend]) -> Vec<SdkCoinSpend> {
    coin_spends
        .iter()
        .map(|spend| {
            SdkCoinSpend::new(
                sdk_coin(spend.coin),
                spend.puzzle_reveal.clone(),
                spend.solution.clone(),
            )
        })
        .collect()
}

/// A result of the library as one of `anyhow`.
fn ok<T>(result: DidResult<T>) -> anyhow::Result<T> {
    result.map_err(|error| anyhow::Error::msg(error.to_string()))
}

/// Runs the coin spend's revealed puzzle against its solution and returns the conditions it emits.
fn emitted_conditions(coin_spend: &CoinSpend) -> anyhow::Result<Vec<Condition>> {
    let ctx = &mut SdkContext::new();
    let puzzle = ctx.alloc(&coin_spend.puzzle_reveal)?;
    let solution = ctx.alloc(&coin_spend.solution)?;
    let output = run_puzzle(ctx, puzzle, solution)?;
    Ok(Vec::<Condition>::from_clvm(ctx, output)?)
}

/// Every condition emitted by every spend, in spend order.
fn all_emitted_conditions(coin_spends: &[CoinSpend]) -> anyhow::Result<Vec<Condition>> {
    let mut conditions = Vec::new();
    for coin_spend in coin_spends {
        conditions.extend(emitted_conditions(coin_spend)?);
    }
    Ok(conditions)
}

/// Whether any spend emits a `CREATE_COIN` to `puzzle_hash`.
fn creates_coin_to(coin_spends: &[CoinSpend], puzzle_hash: Bytes32) -> anyhow::Result<bool> {
    Ok(all_emitted_conditions(coin_spends)?
        .into_iter()
        .any(|condition| {
            matches!(condition.into_create_coin(), Some(create) if create.puzzle_hash == puzzle_hash)
        }))
}

/// The SDK's conditions, each serialized.
fn conditions(list: SdkConditions) -> anyhow::Result<Conditions> {
    let ctx = &mut SdkContext::new();
    let mut conditions = Conditions::new();
    for condition in list {
        conditions = conditions.with(ctx.serialize(&condition)?);
    }
    Ok(conditions)
}

/// A DID minted and confirmed on the simulator, with the owner key material needed to spend it again.
struct MintedDid {
    did: Did,
    pk: PublicKey,
    sk: SecretKey,
    puzzle_hash: Bytes32,
}

/// The puzzle hash that the DID's recreation `CREATE_COIN` must carry, by the SDK's own currying.
fn singleton_puzzle_hash(did: &Did) -> Bytes32 {
    SingletonArgs::curry_tree_hash(did.info.launcher_id, did.info.inner_puzzle_hash().into()).into()
}

fn mint(sim: &mut Simulator) -> anyhow::Result<MintedDid> {
    let ctx = &mut SpendContext::new();
    let owner = sim.bls(1);
    let spend = ok(create_simple_did(
        ctx,
        lib_coin(owner.coin),
        Owner::Standard(owner.pk),
    ))?;
    let did = spend.child.expect("create always returns a child DID");
    sim.spend_coins(
        sdk_spends(&spend.coin_spends),
        std::slice::from_ref(&owner.sk),
    )?;
    Ok(MintedDid {
        did,
        pk: owner.pk,
        sk: owner.sk,
        puzzle_hash: owner.puzzle_hash,
    })
}

#[test]
fn spend_did_with_conditions_recreates_the_did_and_emits_the_callers_conditions(
) -> anyhow::Result<()> {
    let mut sim = Simulator::new();
    let ctx = &mut SpendContext::new();
    let owner = mint(&mut sim)?;

    // A distinctive, caller-chosen condition that the library would never emit on its own.
    let marker = Bytes::from(b"dig-did::update::marker".to_vec());
    let child = ok(spend_did_with_conditions(
        ctx,
        owner.did.clone(),
        Owner::Standard(owner.pk),
        conditions(SdkConditions::new().create_puzzle_announcement(marker.clone()))?,
    ))?;

    let coin_spends = ctx.take();
    let emitted = all_emitted_conditions(&coin_spends)?;
    assert!(
        emitted.iter().any(|condition| matches!(
            condition.as_create_puzzle_announcement(),
            Some(announcement) if announcement.message == marker
        )),
        "the caller's condition must reach the wire"
    );

    assert_eq!(child.info.launcher_id, owner.did.info.launcher_id);
    assert_eq!(child.info.p2_puzzle_hash, owner.did.info.p2_puzzle_hash);
    assert_eq!(child.coin.amount, owner.did.coin.amount);

    sim.spend_coins(sdk_spends(&coin_spends), &[owner.sk])?;
    Ok(())
}

#[test]
fn callers_conditions_do_not_displace_the_recreation() -> anyhow::Result<()> {
    let mut sim = Simulator::new();
    let ctx = &mut SpendContext::new();
    let owner = mint(&mut sim)?;

    let recreated_puzzle_hash = singleton_puzzle_hash(&owner.did);
    let child = ok(spend_did_with_conditions(
        ctx,
        owner.did.clone(),
        Owner::Standard(owner.pk),
        conditions(
            SdkConditions::new()
                .create_puzzle_announcement(Bytes::from(b"noise".to_vec()))
                .create_puzzle_announcement(Bytes::from(b"more noise".to_vec())),
        )?,
    ))?;
    assert_eq!(child.coin.puzzle_hash, recreated_puzzle_hash);

    let coin_spends = ctx.take();
    assert!(
        creates_coin_to(&coin_spends, recreated_puzzle_hash)?,
        "the recreation CREATE_COIN must survive the caller's conditions"
    );
    sim.spend_coins(sdk_spends(&coin_spends), &[owner.sk])?;
    Ok(())
}

/// Whether `condition` is a `CREATE_COIN` paying `puzzle_hash`.
fn creates_coin_with_puzzle_hash(condition: &Condition, puzzle_hash: Bytes32) -> bool {
    condition
        .as_create_coin()
        .is_some_and(|create| create.puzzle_hash == puzzle_hash)
}

/// Whether `condition` is a `CREATE_PUZZLE_ANNOUNCEMENT` carrying exactly `message`.
fn announces(condition: &Condition, message: &Bytes) -> bool {
    condition
        .as_create_puzzle_announcement()
        .is_some_and(|announcement| announcement.message == *message)
}

/// The recreation opens the composed list, and the caller's conditions follow it immediately and in
/// order.
#[test]
fn the_recreation_is_emitted_before_the_callers_conditions() -> anyhow::Result<()> {
    let mut sim = Simulator::new();
    let ctx = &mut SpendContext::new();
    let owner = mint(&mut sim)?;

    let recreated_puzzle_hash = singleton_puzzle_hash(&owner.did);
    let first = Bytes::from(b"dig-did::ordering::first".to_vec());
    let second = Bytes::from(b"dig-did::ordering::second".to_vec());
    let _child = ok(spend_did_with_conditions(
        ctx,
        owner.did.clone(),
        Owner::Standard(owner.pk),
        conditions(
            SdkConditions::new()
                .create_puzzle_announcement(first.clone())
                .create_puzzle_announcement(second.clone()),
        )?,
    ))?;

    let coin_spends = ctx.take();
    let emitted = all_emitted_conditions(&coin_spends)?;

    let index_of = |what: &str, predicate: &dyn Fn(&Condition) -> bool| {
        emitted
            .iter()
            .position(predicate)
            .unwrap_or_else(|| panic!("{what} must reach the wire, got {emitted:?}"))
    };

    let recreation = index_of("the DID's recreation", &|condition| {
        creates_coin_with_puzzle_hash(condition, recreated_puzzle_hash)
    });
    let first = index_of("the caller's first condition", &|condition| {
        announces(condition, &first)
    });
    let second = index_of("the caller's second condition", &|condition| {
        announces(condition, &second)
    });

    assert_eq!(
        (first, second),
        (recreation + 1, recreation + 2),
        "the recreation must open the composed list, with the caller's conditions following it \
         in order, got {emitted:?}"
    );

    sim.spend_coins(sdk_spends(&coin_spends), &[owner.sk])?;
    Ok(())
}

#[test]
fn spend_did_with_conditions_requires_exactly_one_agg_sig_me_under_the_owner() -> anyhow::Result<()>
{
    let mut sim = Simulator::new();
    let ctx = &mut SpendContext::new();
    let owner = mint(&mut sim)?;

    let _child = ok(spend_did_with_conditions(
        ctx,
        owner.did.clone(),
        Owner::Standard(owner.pk),
        conditions(
            SdkConditions::new().create_puzzle_announcement(Bytes::from(b"benign".to_vec())),
        )?,
    ))?;
    let coin_spends = ctx.take();

    let constants = AggSigConstants::from(&*MAINNET_CONSTANTS);
    let required = required_signatures(&coin_spends, &constants)
        .expect("signature calculation must succeed for a well-formed DID spend");

    assert_eq!(required.len(), 1, "one owner spend, one AGG_SIG_ME");
    match &required[0] {
        RequiredSignature::Bls(bls) => assert_eq!(bls.public_key, owner.pk),
        RequiredSignature::Secp(_) => panic!("a standard owner signs with BLS, not secp"),
    }
    Ok(())
}

#[test]
fn spend_did_with_conditions_refuses_a_custom_owner() -> anyhow::Result<()> {
    let mut sim = Simulator::new();
    let ctx = &mut SpendContext::new();
    let owner = mint(&mut sim)?;

    let prebuilt = ok(inner_spend(&Owner::Standard(owner.pk), &Conditions::new()))?;
    let result =
        spend_did_with_conditions(ctx, owner.did, Owner::Custom(prebuilt), Conditions::new());

    assert!(matches!(result, Err(DidError::UnsupportedOwner(_))));
    Ok(())
}

#[test]
fn composes_with_caller_conditions_that_create_a_coin() -> anyhow::Result<()> {
    let mut sim = Simulator::new();
    let ctx = &mut SpendContext::new();
    let owner = mint(&mut sim)?;

    // The DID coin must recreate itself with all of its mojo, so the extra coin is balanced by a second
    // coin spent in the same bundle.
    let funder = sim.bls(2);
    let funder_spend = ok(inner_spend(&Owner::Standard(funder.pk), &Conditions::new()))?;
    ctx.spend(lib_coin(funder.coin), funder_spend);

    let recreated_puzzle_hash = singleton_puzzle_hash(&owner.did);
    let child = ok(spend_did_with_conditions(
        ctx,
        owner.did.clone(),
        Owner::Standard(owner.pk),
        conditions(SdkConditions::new().create_coin(owner.puzzle_hash, 2, Memos::None))?,
    ))?;
    assert_eq!(child.coin.puzzle_hash, recreated_puzzle_hash);

    let coin_spends = ctx.take();
    assert!(
        creates_coin_to(&coin_spends, recreated_puzzle_hash)?,
        "the DID must still recreate itself"
    );
    assert!(
        creates_coin_to(&coin_spends, owner.puzzle_hash)?,
        "and the caller's coin must actually be created"
    );
    sim.spend_coins(sdk_spends(&coin_spends), &[owner.sk, funder.sk])?;
    Ok(())
}

#[test]
fn a_foreign_singleton_launcher_cannot_be_parented_to_the_did_coin() -> anyhow::Result<()> {
    let mut sim = Simulator::new();
    let ctx = &mut SpendContext::new();
    let owner = mint(&mut sim)?;

    let sdk = &mut SdkContext::new();
    let launcher = Launcher::new(owner.did.coin.coin_id(), 1);
    let (launch_conditions, _eve_coin) = launcher.spend(sdk, owner.puzzle_hash, ())?;

    // The launcher's amount-1 `CREATE_COIN` is the singleton's second odd-amount output.
    let result = spend_did_with_conditions(
        ctx,
        owner.did,
        Owner::Standard(owner.pk),
        conditions(launch_conditions)?,
    );
    assert!(
        matches!(result, Err(DidError::OddAmountCreateCoin)),
        "an odd-amount CREATE_COIN must be refused at build time, got {result:?}"
    );
    assert!(ctx.take().is_empty(), "a refusal stages nothing");
    Ok(())
}

#[test]
fn spend_did_with_conditions_refuses_an_agg_sig_unsafe_condition() -> anyhow::Result<()> {
    let mut sim = Simulator::new();
    let ctx = &mut SpendContext::new();
    let owner = mint(&mut sim)?;

    let result = spend_did_with_conditions(
        ctx,
        owner.did,
        Owner::Standard(owner.pk),
        conditions(
            SdkConditions::new()
                .agg_sig_unsafe(owner.pk, Bytes::from(b"ATTACKER-CHOSEN-MESSAGE".to_vec())),
        )?,
    );
    assert!(
        matches!(result, Err(DidError::AggSigUnsafeInConditions)),
        "an AGG_SIG_UNSAFE must be refused at build time, got {result:?}"
    );
    Ok(())
}

/// The raw CLVM of `value` as `Condition::Other`, which serializes verbatim.
fn smuggled(value: &impl ToClvm<Allocator>) -> anyhow::Result<Conditions> {
    let ctx = &mut SdkContext::new();
    let disguised: Condition = Condition::Other(ctx.alloc(value)?);
    Ok(Conditions::new().with(ctx.serialize(&disguised)?))
}

#[test]
fn refuses_an_agg_sig_unsafe_smuggled_as_an_unrecognized_condition() -> anyhow::Result<()> {
    let mut sim = Simulator::new();
    let ctx = &mut SpendContext::new();
    let owner = mint(&mut sim)?;

    let unsafe_sig = AggSig::new(
        AggSigKind::Unsafe,
        owner.pk,
        Bytes::from(b"I, the DID owner, authorize the transfer of everything".to_vec()),
    );
    let disguised = smuggled(&unsafe_sig)?;

    let result =
        spend_did_with_conditions(ctx, owner.did, Owner::Standard(owner.pk), disguised);
    assert!(
        matches!(result, Err(DidError::AggSigUnsafeInConditions)),
        "an AGG_SIG_UNSAFE must be refused however the caller types it, got {result:?}"
    );
    Ok(())
}

#[test]
fn refuses_an_odd_amount_create_coin_smuggled_as_an_unrecognized_condition() -> anyhow::Result<()> {
    let mut sim = Simulator::new();
    let ctx = &mut SpendContext::new();
    let owner = mint(&mut sim)?;

    let odd: CreateCoin<NodePtr> = CreateCoin::new(owner.puzzle_hash, 1, Memos::None);
    let disguised = smuggled(&odd)?;

    let result =
        spend_did_with_conditions(ctx, owner.did, Owner::Standard(owner.pk), disguised);
    assert!(
        matches!(result, Err(DidError::OddAmountCreateCoin)),
        "an odd-amount CREATE_COIN must be refused however the caller types it, got {result:?}"
    );
    Ok(())
}

#[test]
fn refuses_a_condition_the_sdk_cannot_name() -> anyhow::Result<()> {
    let mut sim = Simulator::new();
    let ctx = &mut SpendContext::new();
    let owner = mint(&mut sim)?;

    // Opcode 12345 is not a condition the SDK knows.
    let unknown = smuggled(&(12345_u32, (Bytes::from(b"payload".to_vec()), ())))?;

    let result = spend_did_with_conditions(ctx, owner.did, Owner::Standard(owner.pk), unknown);
    assert!(
        matches!(result, Err(DidError::DisallowedCondition(_))),
        "a condition outside the allowlist must be refused, got {result:?}"
    );
    Ok(())
}

#[test]
fn refuses_agg_sig_kinds_bound_only_to_lifetime_constant_attributes() -> anyhow::Result<()> {
    let mut sim = Simulator::new();
    let owner = mint(&mut sim)?;

    for kind in [
        AggSigKind::Puzzle,
        AggSigKind::Amount,
        AggSigKind::PuzzleAmount,
    ] {
        let mut replay_ctx = SpendContext::new();
        let sig = AggSig::new(kind, owner.pk, Bytes::from(b"replayable".to_vec()));
        let condition = smuggled(&sig)?;
        let result = spend_did_with_conditions(
            &mut replay_ctx,
            owner.did.clone(),
            Owner::Standard(owner.pk),
            condition,
        );
        assert!(
            matches!(result, Err(DidError::DisallowedCondition(_))),
            "{kind:?} binds only to attributes constant across the DID's lifetime and must be \
             refused, got {result:?}"
        );
    }
    Ok(())
}

#[test]
fn permits_the_conditions_a_did_spend_legitimately_carries() -> anyhow::Result<()> {
    let mut sim = Simulator::new();
    let ctx = &mut SpendContext::new();
    let owner = mint(&mut sim)?;

    let _child = ok(spend_did_with_conditions(
        ctx,
        owner.did.clone(),
        Owner::Standard(owner.pk),
        conditions(
            SdkConditions::new()
                .create_puzzle_announcement(Bytes::from(b"bind-me".to_vec()))
                .assert_my_amount(owner.did.coin.amount)
                .assert_height_relative(0)
                .agg_sig_me(owner.pk, Bytes::from(b"coin-bound".to_vec())),
        )?,
    ))?;

    let coin_spends = ctx.take();
    let constants = AggSigConstants::from(&*MAINNET_CONSTANTS);
    let required = required_signatures(&coin_spends, &constants)
        .expect("signature calculation must succeed for a well-formed DID spend");
    assert_eq!(
        required.len(),
        2,
        "the DID's own AGG_SIG_ME plus the caller's coin-bound one"
    );

    sim.spend_coins(sdk_spends(&coin_spends), &[owner.sk])?;
    Ok(())
}

/// One condition with the given opcode and arguments that fit the SDK's shape for it.
fn condition_of_opcode(opcode: i8) -> anyhow::Result<Program> {
    let ctx = &mut SdkContext::new();
    let key = PublicKey::default();
    let hash = Bytes32::new([7; 32]);
    let message = Bytes::from(vec![1, 2, 3]);
    Ok(match opcode {
        43..=50 => ctx.serialize(&(opcode, (key, (message, ()))))?,
        60 | 62 => ctx.serialize(&(opcode, (message, ())))?,
        61 | 63 | 64 | 65 | 70 | 71 | 72 => ctx.serialize(&(opcode, (hash, ())))?,
        66 | 67 => ctx.serialize(&(opcode, (0_u8, (message, ()))))?,
        76 => ctx.serialize(&(opcode, ()))?,
        _ => ctx.serialize(&(opcode, (4_u32, ())))?,
    })
}

/// The allowlist, opcode by opcode: exactly these named conditions are permitted.
#[test]
fn the_allowlist_is_exact() -> anyhow::Result<()> {
    let permitted: Vec<i8> = vec![
        1, 43, 47, 48, 50, 52, 60, 61, 62, 63, 64, 65, 66, 67, 70, 71, 72, 73, 74, 75, 76, 80, 81,
        82, 83, 84, 85, 86, 87,
    ];
    for opcode in -128..=127_i8 {
        if opcode == 51 {
            continue;
        }
        let list = Conditions::new().with(condition_of_opcode(opcode)?);
        let judged = permit_only_conditions_a_did_may_carry(&list);
        if permitted.contains(&opcode) {
            assert!(judged.is_ok(), "opcode {opcode} must be permitted, got {judged:?}");
        } else if opcode == 49 {
            assert!(matches!(judged, Err(DidError::AggSigUnsafeInConditions)));
        } else {
            assert!(
                matches!(judged, Err(DidError::DisallowedCondition(_))),
                "opcode {opcode} must be refused, got {judged:?}"
            );
        }
    }
    Ok(())
}

/// The melt condition would burn the DID, and the condition that mints tokens shares its shape.
#[test]
fn magic_create_coins_are_refused() -> anyhow::Result<()> {
    let melt = conditions(SdkConditions::new().melt_singleton())?;
    let judged = permit_only_conditions_a_did_may_carry(&melt);
    assert!(matches!(judged, Err(DidError::DisallowedCondition(text)) if text.contains("Melt")));

    let tail = conditions(SdkConditions::new().run_cat_tail(NodePtr::NIL, NodePtr::NIL))?;
    let judged = permit_only_conditions_a_did_may_carry(&tail);
    assert!(matches!(judged, Err(DidError::DisallowedCondition(_))));
    Ok(())
}

/// A `CREATE_COIN` whose amount is the given atom.
fn create_coin_of_atom(atom: Vec<u8>) -> anyhow::Result<Conditions> {
    let ctx = &mut SdkContext::new();
    let condition = ctx.serialize(&(51, (Bytes32::new([7; 32]), (Bytes::from(atom), ()))))?;
    Ok(Conditions::new().with(condition))
}

#[test]
fn a_create_coin_amount_must_be_canonically_encoded() -> anyhow::Result<()> {
    for atom in [
        vec![],
        vec![2],
        vec![0x7e],
        vec![0, 0x80],
        vec![1, 0],
        vec![0x7f, 0xff, 0xff, 0xff, 0xff, 0xff, 0xff, 0xfe],
        vec![0, 0xff, 0xff, 0xff, 0xff, 0xff, 0xff, 0xff, 0xfe],
    ] {
        let judged = permit_only_conditions_a_did_may_carry(&create_coin_of_atom(atom.clone())?);
        assert!(judged.is_ok(), "{atom:?} is canonical, got {judged:?}");
    }
    for (atom, reason) in [
        (vec![0x80], "the sign bit of the leading byte is set"),
        (vec![0xfe], "the sign bit of the leading byte is set"),
        (
            vec![0xff, 0xff, 0xff, 0xff, 0xff, 0xff, 0xff, 0xfe],
            "the sign bit of the leading byte is set",
        ),
        (vec![0], "the leading zero byte is redundant"),
        (vec![0, 2], "the leading zero byte is redundant"),
        (vec![0, 0, 2], "the leading zero byte is redundant"),
        (vec![0, 0, 0x80], "the leading zero byte is redundant"),
    ] {
        let judged = permit_only_conditions_a_did_may_carry(&create_coin_of_atom(atom.clone())?);
        assert!(
            matches!(&judged, Err(DidError::NonCanonicalCreateCoinAmount(text)) if text == reason),
            "{atom:?} is not canonical, got {judged:?}"
        );
    }
    // More than eight significant bytes: the SDK reads the last eight of an atom with a leading zero.
    let long = vec![0, 0x80, 0, 0, 0, 0, 0, 0, 0, 2];
    let judged = permit_only_conditions_a_did_may_carry(&create_coin_of_atom(long)?);
    assert!(
        matches!(&judged, Err(DidError::NonCanonicalCreateCoinAmount(text))
            if text == "the amount does not fit in eight bytes"),
        "got {judged:?}"
    );
    Ok(())
}

/// The first refusal in the list decides, and a condition that is no tree is a driver error.
#[test]
fn the_first_refused_condition_decides() -> anyhow::Result<()> {
    let key = PublicKey::default();
    let first = conditions(
        SdkConditions::new()
            .reserve_fee(1)
            .create_coin(Bytes32::new([7; 32]), 3, Memos::None)
            .agg_sig_unsafe(key, Bytes::from(vec![1])),
    )?;
    assert!(matches!(
        permit_only_conditions_a_did_may_carry(&first),
        Err(DidError::OddAmountCreateCoin)
    ));

    let torn = Conditions::new().with(vec![0xff].into());
    assert!(matches!(
        permit_only_conditions_a_did_may_carry(&torn),
        Err(DidError::Driver(_))
    ));
    Ok(())
}

/// A coin of even amount is no singleton, so its spend leaves no DID.
#[test]
fn an_even_did_coin_leaves_no_successor() -> anyhow::Result<()> {
    let mut sim = Simulator::new();
    let ctx = &mut SpendContext::new();
    let owner = mint(&mut sim)?;

    let mut even = owner.did.clone();
    even.coin.amount = 2;
    let result = spend_did_with_conditions(
        ctx,
        even,
        Owner::Standard(owner.pk),
        Conditions::new(),
    );
    assert!(
        matches!(&result, Err(DidError::Parse(text)) if text == "DID spend produced no successor DID"),
        "got {result:?}"
    );
    assert_eq!(ctx.take().len(), 1, "the spend itself was staged");
    Ok(())
}

/// A DID keeps its identity over many spends, each of which the chain accepts.
#[test]
fn a_did_preserves_itself_generation_after_generation() -> anyhow::Result<()> {
    let mut sim = Simulator::new();
    let owner = mint(&mut sim)?;
    let mut did = owner.did.clone();
    for generation in 0..4_u8 {
        let ctx = &mut SpendContext::new();
        let note = Bytes::from(vec![generation]);
        let child = ok(spend_did_with_conditions(
            ctx,
            did.clone(),
            Owner::Standard(owner.pk),
            conditions(SdkConditions::new().create_coin_announcement(note))?,
        ))?;
        assert_eq!(child.info, did.info);
        assert_eq!(child.coin.puzzle_hash, did.coin.puzzle_hash);
        assert_eq!(child.coin.parent_coin_info, did.coin.coin_id());
        assert_eq!(child.coin.amount, did.coin.amount);
        sim.spend_coins(
            sdk_spends(&ctx.take()),
            std::slice::from_ref(&owner.sk),
        )?;
        did = child;
    }
    Ok(())
}

/// Whether `bytes` hold `part` somewhere.
fn holds(bytes: &[u8], part: &[u8]) -> bool {
    bytes.windows(part.len()).any(|window| window == part)
}

/// The recreation stands in the staged solution byte for byte, and the caller's condition behind it.
#[test]
fn the_recreation_is_serialized_in_front_of_the_callers_conditions() -> anyhow::Result<()> {
    let mut sim = Simulator::new();
    let ctx = &mut SpendContext::new();
    let owner = mint(&mut sim)?;
    ok(spend_did_with_conditions(
        ctx,
        owner.did.clone(),
        Owner::Standard(owner.pk),
        conditions(SdkConditions::new().reserve_fee(7))?,
    ))?;
    let coin_spends = ctx.take();

    // (CREATE_COIN inner_puzzle_hash 1 (p2_puzzle_hash)), then (RESERVE_FEE 7).
    let mut expected = vec![0xff, 0xff, 51, 0xff, 0xa0];
    expected.extend(owner.did.info.inner_puzzle_hash().to_vec());
    expected.extend([0xff, 0x01, 0xff, 0xff, 0xa0]);
    expected.extend(owner.puzzle_hash.to_vec());
    expected.extend([0x80, 0x80, 0xff, 0xff, 52, 0xff, 0x07, 0x80, 0x80]);
    assert!(holds(coin_spends[0].solution.as_slice(), &expected));
    Ok(())
}

/// Beside the owner's signature a preserving spend requires those of the caller's conditions, in their
/// order, and each commits to the DID coin's id or to its parent's.
#[test]
fn a_preserving_spend_requires_only_bound_signatures() -> anyhow::Result<()> {
    let mut sim = Simulator::new();
    let ctx = &mut SpendContext::new();
    let owner = mint(&mut sim)?;
    let message = Bytes::from(b"message".to_vec());
    ok(spend_did_with_conditions(
        ctx,
        owner.did.clone(),
        Owner::Standard(owner.pk),
        conditions(
            SdkConditions::new()
                .agg_sig_parent_puzzle(owner.pk, message.clone())
                .agg_sig_me(owner.pk, message.clone())
                .reserve_fee(0)
                .agg_sig_parent(owner.pk, message.clone())
                .agg_sig_parent_amount(owner.pk, message.clone()),
        )?,
    ))?;
    let constants = AggSigConstants::from(&*MAINNET_CONSTANTS);
    let required = ok(required_signatures(&ctx.take(), &constants))?;

    let coin = owner.did.coin;
    let (id, parent) = (coin.coin_id().to_vec(), coin.parent_coin_info.to_vec());
    let expected = [
        (id.clone(), constants.me()),
        (
            [parent.clone(), coin.puzzle_hash.to_vec()].concat(),
            constants.parent_puzzle(),
        ),
        (id, constants.me()),
        (parent.clone(), constants.parent()),
        ([parent, vec![1]].concat(), constants.parent_amount()),
    ];
    assert_eq!(required.len(), expected.len());
    for (signature, (info, domain)) in required.iter().zip(expected) {
        match signature {
            RequiredSignature::Bls(bls) => {
                assert_eq!(bls.public_key, owner.pk);
                assert_eq!(bls.appended_info, info);
                assert_eq!(bls.domain_string, Some(domain));
            }
            RequiredSignature::Secp(_) => panic!("the conditions name a BLS key"),
        }
    }
    Ok(())
}

/// The staged spend emits the singleton's assertions, the owner's `AGG_SIG_ME`, the next coin hinted to
/// its owner, and then the caller's conditions.
#[test]
fn the_staged_spend_emits_the_callers_conditions_in_order() -> anyhow::Result<()> {
    let mut sim = Simulator::new();
    let ctx = &mut SpendContext::new();
    let owner = mint(&mut sim)?;
    let mine = conditions(
        SdkConditions::new()
            .reserve_fee(7)
            .create_coin(Bytes32::new([5; 32]), 2, Memos::None)
            .create_puzzle_announcement(Bytes::from(b"third".to_vec())),
    )?;
    let expected: Vec<Program> = (0..mine.len()).map(|i| mine.get(i).clone()).collect();
    let child = ok(spend_did_with_conditions(
        ctx,
        owner.did.clone(),
        Owner::Standard(owner.pk),
        mine,
    ))?;
    let staged = ctx.take().remove(0);
    let emitted = ok(clvm::emitted_conditions(&staged.puzzle_reveal, &staged.solution))?;
    assert_eq!(emitted.len(), 7);
    assert_eq!(emitted[0].as_slice()[..2], [0xff, 73]);
    assert_eq!(emitted[1].as_slice()[..2], [0xff, 71]);
    assert_eq!(emitted[2].as_slice()[..2], [0xff, 50]);
    let mut next = vec![0xff, 51, 0xff, 0xa0];
    next.extend(child.coin.puzzle_hash.to_vec());
    next.extend([0xff, 0x01, 0xff, 0xff, 0xa0]);
    next.extend(owner.puzzle_hash.to_vec());
    next.extend([0x80, 0x80]);
    assert_eq!(emitted[3].as_slice(), next);
    assert_eq!(emitted[4..], expected[..]);
    Ok(())
}

/// A run that fails and a list that is too long are refused.
#[test]
fn emitted_conditions_are_listed_or_refused() -> anyhow::Result<()> {
    // (x), which raises, and 1, which gives its solution.
    let raise: Program = vec![0xff, 0x08, 0x80].into();
    let echo: Program = vec![0x01].into();
    let nil: Program = vec![0x80].into();
    assert!(matches!(
        clvm::emitted_conditions(&raise, &nil),
        Err(DidError::Parse(_))
    ));
    assert!(ok(clvm::emitted_conditions(&echo, &nil))?.is_empty());
    // A list of one atom, whose head takes four bytes: just as long as is serialized, and one longer.
    for (over, listed) in [(0, true), (1, false)] {
        let length = MAX_LIST_LENGTH + over - 6;
        let head = (0xf000_0000 | length as u32).to_be_bytes();
        let mut list = vec![0xff];
        list.extend(head);
        list.extend(vec![7; length]);
        list.push(0x80);
        assert_eq!(list.len(), MAX_LIST_LENGTH + over);
        let emitted = clvm::emitted_conditions(&echo, &list.into());
        assert_eq!(emitted.is_ok(), listed);
    }
    Ok(())
}

/// An owner's puzzle hash is that of its puzzle, built or handed over.
#[test]
fn owners_have_the_hash_of_their_puzzle() -> anyhow::Result<()> {
    let mut sim = Simulator::new();
    let owner = sim.bls(1);
    let standard = Owner::Standard(owner.pk);
    assert_eq!(ok(standard.puzzle_hash())?, owner.puzzle_hash);
    let spend = ok(inner_spend(&standard, &Conditions::new()))?;
    assert_eq!(ok(Owner::Custom(spend.clone()).puzzle_hash())?, owner.puzzle_hash);
    let mut torn = spend;
    torn.puzzle = vec![0xff].into();
    assert!(matches!(
        Owner::Custom(torn).puzzle_hash(),
        Err(DidError::Parse(_))
    ));
    Ok(())
}
