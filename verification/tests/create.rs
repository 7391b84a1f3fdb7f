use chia_protocol::{Bytes32, Coin as SdkCoin, CoinSpend as SdkCoinSpend};
use chia_puzzles::SINGLETON_LAUNCHER_HASH;
use chia_wallet_sdk::driver::{HashedPtr, Launcher, SpendContext as SdkContext};
use chia_wallet_sdk::prelude::{PublicKey, MAINNET_CONSTANTS};
use chia_wallet_sdk::test::Simulator;
use chia_wallet_sdk::types::{run_puzzle, Condition, Conditions as SdkConditions};
use clvm_traits::FromClvm;

use dig_did::context::{drain_coin_spends, inner_spend};
use dig_did::{
    create_did, create_eve_did_only, create_simple_did, required_signatures, AggSigConstants, Coin,
    CoinSpend, Conditions, DidError, DidResult, DidSpend, Metadata, Owner, RequiredSignature,
    Spend, SpendContext,
};

/// The coin as the SDK holds it.
fn sdk_coin(coin: Coin) -> SdkCoin {
    SdkCoin::new(coin.parent_coin_info, coin.puzzle_hash, coin.amount)
}

/// The SDK's coin as the library holds it.
fn lib_coin(coin: SdkCoin) -> Coin {
    Coin::new(coin.parent_coin_info, coin.puzzle_hash, coin.amount)
}

/// The coin spends as the SDK holds them.
fn sdk_spends(coin_spends: &[CoinSpend]) -> Vec<SdkCoinSpend> {
    coin_spends
        .iter()
        .map(|spend| {
            SdkCoinSpend::new(
                sdk_coin(spend.coin),
                spend.puzzle_reveal.clone(),
                spend.solution.clone(),
            )
        })
        .collect()
}

/// A result of the library as one of `anyhow`.
fn ok<T>(result: DidResult<T>) -> anyhow::Result<T> {
    result.map_err(|error| anyhow::Error::msg(error.to_string()))
}

/// Runs the coin spend's revealed puzzle against its solution and returns the conditions it emits.
fn emitted_conditions(coin_spend: &CoinSpend) -> anyhow::Result<Vec<Condition>> {
    let ctx = &mut SdkContext::new();
    let puzzle = ctx.alloc(&coin_spend.puzzle_reveal)?;
    let solution = ctx.alloc(&coin_spend.solution)?;
    let output = run_puzzle(ctx, puzzle, solution)?;
    Ok(Vec::<Condition>::from_clvm(ctx, output)?)
}

/// Every condition emitted by every spend, in spend order.
fn all_emitted_conditions(coin_spends: &[CoinSpend]) -> anyhow::Result<Vec<Condition>> {
    let mut conditions = Vec::new();
    for coin_spend in coin_spends {
        conditions.extend(emitted_conditions(coin_spend)?);
    }
    Ok(conditions)
}

/// Whether any spend emits a `CREATE_COIN` to `puzzle_hash`.
fn creates_coin_to(coin_spends: &[CoinSpend], puzzle_hash: Bytes32) -> anyhow::Result<bool> {
    Ok(all_emitted_conditions(coin_spends)?
        .into_iter()
        .any(|condition| {
            matches!(condition.into_create_coin(), Some(create) if create.puzzle_hash == puzzle_hash)
        }))
}

/// The SDK's conditions, each serialized.
fn conditions(list: SdkConditions) -> anyhow::Result<Conditions> {
    let ctx = &mut SdkContext::new();
    let mut conditions = Conditions::new();
    for condition in list {
        conditions = conditions.with(ctx.serialize(&condition)?);
    }
    Ok(conditions)
}

/// A syntactically valid inner spend that emits a condition of its own.
fn prebuilt_inner_spend(public_key: PublicKey) -> anyhow::Result<Spend> {
    ok(inner_spend(
        &Owner::Standard(public_key),
        &conditions(SdkConditions::new().reserve_fee(0))?,
    ))
}

#[test]
fn create_simple_did_produces_a_spendable_settled_did() -> anyhow::Result<()> {
    let mut sim = Simulator::new();
    let ctx = &mut SpendContext::new();

    let owner = sim.bls(1);
    let spend = ok(create_simple_did(
        ctx,
        lib_coin(owner.coin),
        Owner::Standard(owner.pk),
    ))?;

    let child = spend.child.expect("create always returns a child DID");
    assert_eq!(child.info.recovery_list_hash, None);
    assert_eq!(child.info.num_verifications_required, 1);
    assert_eq!(child.info.p2_puzzle_hash, owner.puzzle_hash);

    sim.spend_coins(sdk_spends(&spend.coin_spends), &[owner.sk])?;
    assert!(ctx.take().is_empty(), "the bundle was taken out of the context");
    Ok(())
}

#[test]
fn create_did_requires_two_agg_sig_mes_over_the_owner_key() -> anyhow::Result<()> {
    let mut sim = Simulator::new();
    let ctx = &mut SpendContext::new();

    let owner = sim.bls(1);
    let spend = ok(create_simple_did(
        ctx,
        lib_coin(owner.coin),
        Owner::Standard(owner.pk),
    ))?;

    let constants = AggSigConstants::from(&*MAINNET_CONSTANTS);
    let required = required_signatures(&spend.coin_spends, &constants)
        .expect("signature calculation must succeed for a well-formed create spend");

    assert_eq!(
        required.len(),
        2,
        "the funding-coin spend AND the settle spend each require one AGG_SIG_ME"
    );
    for signature in &required {
        match signature {
            RequiredSignature::Bls(bls) => assert_eq!(bls.public_key, owner.pk),
            RequiredSignature::Secp(_) => panic!("a standard owner signs with BLS, not secp"),
        }
    }
    Ok(())
}

#[test]
fn create_did_refuses_a_custom_owner() -> anyhow::Result<()> {
    let mut sim = Simulator::new();
    let ctx = &mut SpendContext::new();

    let owner = sim.bls(1);
    let prebuilt = prebuilt_inner_spend(owner.pk)?;

    assert!(matches!(
        create_simple_did(ctx, lib_coin(owner.coin), Owner::Custom(prebuilt.clone())),
        Err(DidError::UnsupportedOwner(_))
    ));
    assert!(matches!(
        create_eve_did_only(
            ctx,
            lib_coin(owner.coin),
            Owner::Custom(prebuilt),
            None,
            1,
            Metadata::nil()
        ),
        Err(DidError::UnsupportedOwner(_))
    ));
    assert!(ctx.take().is_empty(), "a refusal stages nothing");
    Ok(())
}

/// The control that makes the refusal load-bearing: the same custom spend, used verbatim, produces a
/// bundle with no launcher `CREATE_COIN`.
#[test]
fn a_custom_inner_spend_would_silently_drop_the_launcher_conditions() -> anyhow::Result<()> {
    let mut sim = Simulator::new();

    let owner = sim.bls(1);
    let prebuilt = prebuilt_inner_spend(owner.pk)?;

    let sdk = &mut SdkContext::new();
    let launcher = Launcher::new(owner.coin.coin_id(), owner.coin.amount);
    let (_dropped_launch_conditions, _eve) =
        launcher.create_eve_did(sdk, owner.puzzle_hash, None, 1, HashedPtr::NIL)?;

    let ctx = &mut SpendContext::new();
    for spend in sdk.take() {
        ctx.insert(CoinSpend::new(
            lib_coin(spend.coin),
            spend.puzzle_reveal,
            spend.solution,
        ));
    }
    let spend = ok(inner_spend(&Owner::Custom(prebuilt), &Conditions::new()))?;
    ctx.spend(lib_coin(owner.coin), spend);

    let coin_spends = drain_coin_spends(ctx);
    assert_eq!(coin_spends.len(), 2);
    assert!(
        !creates_coin_to(&coin_spends, SINGLETON_LAUNCHER_HASH.into())?,
        "nothing in the bundle creates the launcher the eve DID was supposedly launched from"
    );
    Ok(())
}

#[test]
fn every_creation_entry_point_refuses_an_even_funding_coin() -> anyhow::Result<()> {
    let mut sim = Simulator::new();
    let ctx = &mut SpendContext::new();

    let owner = sim.bls(2);
    assert_eq!(owner.coin.amount, 2, "the fixture must be genuinely even");

    assert!(matches!(
        create_simple_did(ctx, lib_coin(owner.coin), Owner::Standard(owner.pk)),
        Err(DidError::EvenSingletonAmount(2))
    ));
    assert!(matches!(
        create_did(
            ctx,
            lib_coin(owner.coin),
            Owner::Standard(owner.pk),
            None,
            1,
            Metadata::nil()
        ),
        Err(DidError::EvenSingletonAmount(2))
    ));
    assert!(matches!(
        create_eve_did_only(
            ctx,
            lib_coin(owner.coin),
            Owner::Standard(owner.pk),
            None,
            1,
            Metadata::nil()
        ),
        Err(DidError::EvenSingletonAmount(2))
    ));
    Ok(())
}

#[test]
fn every_creation_entry_point_accepts_an_odd_funding_coin() -> anyhow::Result<()> {
    for build in [
        (|ctx: &mut SpendContext, coin, owner| create_simple_did(ctx, coin, owner))
            as fn(&mut SpendContext, Coin, Owner) -> DidResult<DidSpend>,
        |ctx, coin, owner| create_did(ctx, coin, owner, None, 1, Metadata::nil()),
        |ctx, coin, owner| create_eve_did_only(ctx, coin, owner, None, 1, Metadata::nil()),
    ] {
        let mut sim = Simulator::new();
        let ctx = &mut SpendContext::new();

        let owner = sim.bls(3);
        assert_eq!(owner.coin.amount, 3, "the fixture must be genuinely odd");

        let spend = ok(build(ctx, lib_coin(owner.coin), Owner::Standard(owner.pk)))?;
        let child = spend.child.expect("create always returns a child DID");
        assert_eq!(
            child.coin.amount, 3,
            "the singleton carries the funding coin's ENTIRE amount"
        );

        sim.spend_coins(sdk_spends(&spend.coin_spends), &[owner.sk])?;
    }
    Ok(())
}

#[test]
fn create_did_preserves_a_custom_recovery_configuration() -> anyhow::Result<()> {
    let mut sim = Simulator::new();
    let ctx = &mut SpendContext::new();

    let owner = sim.bls(1);
    let recovery_list_hash =
        Some(clvm_utils::tree_hash_atom(b"dig-did::create::recovery-list").into());

    let spend = ok(create_did(
        ctx,
        lib_coin(owner.coin),
        Owner::Standard(owner.pk),
        recovery_list_hash,
        2,
        Metadata::nil(),
    ))?;
    let child = spend.child.expect("create always returns a child DID");

    assert_eq!(child.info.recovery_list_hash, recovery_list_hash);
    assert_eq!(child.info.num_verifications_required, 2);

    sim.spend_coins(sdk_spends(&spend.coin_spends), &[owner.sk])?;
    Ok(())
}

#[test]
fn create_eve_did_only_skips_the_settle_spend() -> anyhow::Result<()> {
    let mut sim = Simulator::new();
    let ctx = &mut SpendContext::new();

    let owner = sim.bls(1);
    let spend = ok(create_eve_did_only(
        ctx,
        lib_coin(owner.coin),
        Owner::Standard(owner.pk),
        None,
        1,
        Metadata::nil(),
    ))?;

    // Two spends: funding coin + launcher, no separate settle spend.
    assert_eq!(spend.coin_spends.len(), 2);

    let eve = spend.child.expect("create always returns a child DID");
    assert_eq!(eve.info.p2_puzzle_hash, owner.puzzle_hash);

    sim.spend_coins(sdk_spends(&spend.coin_spends), &[owner.sk])?;
    Ok(())
}

/// The launcher is spent first, then the eve DID, then the funding coin, and the launcher takes the
/// whole amount. Spends staged before are kept in front.
#[test]
fn a_creation_stages_launcher_settle_and_funding_in_this_order() -> anyhow::Result<()> {
    let mut sim = Simulator::new();
    let ctx = &mut SpendContext::new();
    let owner = sim.bls(5);
    let other = sim.bls(2);

    let earlier = ok(inner_spend(&Owner::Standard(other.pk), &Conditions::new()))?;
    ctx.spend(lib_coin(other.coin), earlier);

    let spend = ok(create_simple_did(
        ctx,
        lib_coin(owner.coin),
        Owner::Standard(owner.pk),
    ))?;
    let child = spend.child.clone().expect("create always returns a child DID");
    let coins: Vec<Coin> = spend.coin_spends.iter().map(|spend| spend.coin).collect();

    let launcher = Coin::new(owner.coin.coin_id(), SINGLETON_LAUNCHER_HASH.into(), 5);
    assert_eq!(coins.len(), 4);
    assert_eq!(coins[0], lib_coin(other.coin));
    assert_eq!(coins[1], launcher);
    assert_eq!(coins[2].parent_coin_info, launcher.coin_id());
    assert_eq!(coins[2].amount, 5);
    assert_eq!(coins[3], lib_coin(owner.coin));
    assert_eq!(child.info.launcher_id, launcher.coin_id());
    assert_eq!(child.coin.parent_coin_info, coins[2].coin_id());
    assert_eq!(child.coin.puzzle_hash, child.info.puzzle_hash());

    sim.spend_coins(sdk_spends(&spend.coin_spends), &[owner.sk, other.sk])?;
    Ok(())
}

/// Metadata is kept as the tree that it is, in its canonical serialization.
#[test]
fn a_created_did_keeps_its_metadata() -> anyhow::Result<()> {
    let mut sim = Simulator::new();
    let ctx = &mut SpendContext::new();
    let owner = sim.bls(1);

    // ("name") with the atom's length written in an overlong form.
    let overlong = vec![0xff, 0xc0, 0x04, b'n', b'a', b'm', b'e', 0x80];
    let metadata = ok(Metadata::new(&overlong.into()))?;
    assert_eq!(
        metadata.to_program().to_vec(),
        vec![0xff, 0x84, b'n', b'a', b'm', b'e', 0x80]
    );

    let spend = ok(create_did(
        ctx,
        lib_coin(owner.coin),
        Owner::Standard(owner.pk),
        None,
        1,
        metadata.clone(),
    ))?;
    let child = spend.child.expect("create always returns a child DID");
    assert_eq!(child.info.metadata, metadata);

    sim.spend_coins(sdk_spends(&spend.coin_spends), &[owner.sk])?;
    Ok(())
}

#[test]
fn metadata_that_is_no_tree_is_refused() {
    assert!(matches!(
        Metadata::new(&vec![0xff].into()),
        Err(DidError::Parse(_))
    ));
    assert_eq!(Metadata::nil().to_program().to_vec(), vec![0x80]);
}
