use chia_protocol::{Coin as SdkCoin, CoinSpend as SdkCoinSpend};
use chia_puzzle_types::singleton::SingletonArgs;
use chia_wallet_sdk::driver::SpendContext as SdkContext;
use chia_wallet_sdk::prelude::MAINNET_CONSTANTS;
use chia_wallet_sdk::test::{BlsPairWithCoin, Simulator};
use chia_wallet_sdk::types::{run_puzzle, Condition};
use clvm_traits::FromClvm;

use dig_did::context::inner_spend;
use dig_did::melt::gate_owner_controls_did;
use dig_did::{
    create_simple_did, hydrate_did_from_parent_spend, melt, required_signatures,
    spend_did_with_conditions, AggSigConstants, Coin, CoinSpend, Conditions, Did, DidError,
    DidResult, Owner, RequiredSignature, SpendContext,
};

/// The coin as the SDK holds it.
fn sdk_coin(coin: Coin) -> SdkCoin {
    SdkCoin::new(coin.parent_coin_info, coin.puzzle_hash, coin.amount)
}

/// The SDK's coin as the library holds it.
fn lib_coin(coin: SdkCoin) -> Coin {
    Coin::new(coin.parent_coin_info, coin.puzzle_hash, coin.amount)
}

/// The coin spends as the SDK holds them.
fn sdk_spends(coin_spends: &[CoinSpend]) -> Vec<SdkCoinSpend> {
    coin_spends
        .iter()
        .map(|spend| {
            SdkCoinSpend::new(
                sdk_coin(spend.coin),
                spend.puzzle_reveal.clone(),
                spend.solution.clone(),
            )
        })
        .collect()
}

/// A result of the library as one of `anyhow`.
fn ok<T>(result: DidResult<T>) -> anyhow::Result<T> {
    result.map_err(|error| anyhow::Error::msg(error.to_string()))
}

/// Runs the coin spend's revealed puzzle against its solution and returns the conditions it emits.
fn emitted_conditions(coin_spend: &CoinSpend) -> anyhow::Result<Vec<Condition>> {
    let ctx = &mut SdkContext::new();
    let puzzle = ctx.alloc(&coin_spend.puzzle_reveal)?;
    let solution = ctx.alloc(&coin_spend.solution)?;
    let output = run_puzzle(ctx, puzzle, solution)?;
    Ok(Vec::<Condition>::from_clvm(ctx, output)?)
}

/// Every condition emitted by every spend, in spend order.
fn all_emitted_conditions(coin_spends: &[CoinSpend]) -> anyhow::Result<Vec<Condition>> {
    let mut conditions = Vec::new();
    for coin_spend in coin_spends {
        conditions.extend(emitted_conditions(coin_spend)?);
    }
    Ok(conditions)
}

/// Creates and settles a DID on the simulator, returning the owner keypair and the settled DID.
fn settled_did(sim: &mut Simulator) -> anyhow::Result<(BlsPairWithCoin, Did)> {
    let owner = sim.bls(1);
    let ctx = &mut SpendContext::new();
    let spend = ok(create_simple_did(
        ctx,
        lib_coin(owner.coin),
        Owner::Standard(owner.pk),
    ))?;
    let did = spend.child.expect("create returns a child DID");
    sim.spend_coins(
        sdk_spends(&spend.coin_spends),
        std::slice::from_ref(&owner.sk),
    )?;
    Ok((owner, did))
}

/// The coin that the DID's next generation would occupy if a spend recreated the singleton.
fn would_be_successor(did: &Did) -> Coin {
    let wrapped = SingletonArgs::curry_tree_hash(
        did.info.launcher_id,
        did.info.inner_puzzle_hash().into(),
    );
    Coin::new(did.coin.coin_id(), wrapped.into(), did.coin.amount)
}

#[test]
fn a_melted_did_has_no_next_generation_on_chain() -> anyhow::Result<()> {
    let mut sim = Simulator::new();
    let (owner, did) = settled_did(&mut sim)?;
    let successor = would_be_successor(&did);

    assert!(
        sim.coin_state(did.coin.coin_id())
            .is_some_and(|state| state.spent_height.is_none()),
        "the DID must be live before it is melted"
    );

    let ctx = &mut SpendContext::new();
    let built = ok(melt(ctx, did.clone(), Owner::Standard(owner.pk)))?;
    assert!(built.child.is_none(), "a melt reports no successor DID");
    sim.spend_coins(
        sdk_spends(&built.coin_spends),
        std::slice::from_ref(&owner.sk),
    )?;

    assert!(
        sim.coin_state(did.coin.coin_id())
            .is_some_and(|state| state.spent_height.is_some()),
        "the melt must actually have spent the DID coin"
    );
    assert!(
        sim.coin_state(successor.coin_id()).is_none(),
        "the lineage must terminate: no next-generation singleton may exist"
    );
    Ok(())
}

#[test]
fn a_non_melting_spend_does_create_the_next_generation() -> anyhow::Result<()> {
    let mut sim = Simulator::new();
    let (owner, did) = settled_did(&mut sim)?;
    let successor = would_be_successor(&did);

    let ctx = &mut SpendContext::new();
    let _recreated = ok(spend_did_with_conditions(
        ctx,
        did,
        Owner::Standard(owner.pk),
        Conditions::new(),
    ))?;
    let coin_spends = ctx.take();
    sim.spend_coins(sdk_spends(&coin_spends), std::slice::from_ref(&owner.sk))?;

    assert!(
        sim.coin_state(successor.coin_id()).is_some(),
        "the reconstructed successor id must be the one a live spend really creates"
    );
    Ok(())
}

#[test]
fn the_executed_melt_creates_no_coin_at_all() -> anyhow::Result<()> {
    let mut sim = Simulator::new();
    let (owner, did) = settled_did(&mut sim)?;

    let ctx = &mut SpendContext::new();
    let built = ok(melt(ctx, did, Owner::Standard(owner.pk)))?;

    let conditions = all_emitted_conditions(&built.coin_spends)?;
    let created: Vec<_> = conditions
        .iter()
        .filter_map(|condition| condition.clone().into_create_coin())
        .collect();
    assert!(
        created.is_empty(),
        "a melt creates no coin: no successor, and the amount becomes an implicit fee, got: {created:?}"
    );
    Ok(())
}

#[test]
fn a_key_that_does_not_control_the_did_is_refused() -> anyhow::Result<()> {
    let mut sim = Simulator::new();
    let (_owner, did) = settled_did(&mut sim)?;
    let stranger = sim.bls(1);

    let ctx = &mut SpendContext::new();
    let result = melt(ctx, did, Owner::Standard(stranger.pk));

    assert!(
        matches!(result, Err(DidError::NotTheOwner)),
        "a stranger's melt must be refused, got: {result:?}"
    );
    assert!(
        ctx.take().is_empty(),
        "the refusal must happen before any spend is built"
    );
    Ok(())
}

#[test]
fn a_custom_owner_melt_is_refused() -> anyhow::Result<()> {
    let mut sim = Simulator::new();
    let (owner, did) = settled_did(&mut sim)?;

    let ctx = &mut SpendContext::new();
    let prebuilt = ok(inner_spend(&Owner::Standard(owner.pk), &Conditions::new()))?;
    let result = melt(ctx, did, Owner::Custom(prebuilt));

    assert!(
        matches!(result, Err(DidError::UnsupportedOwner(_))),
        "a custom-owner melt must refuse, got: {result:?}"
    );
    Ok(())
}

#[test]
fn the_melt_requires_a_single_agg_sig_me() -> anyhow::Result<()> {
    let mut sim = Simulator::new();
    let (owner, did) = settled_did(&mut sim)?;

    let ctx = &mut SpendContext::new();
    let built = ok(melt(ctx, did, Owner::Standard(owner.pk)))?;

    let constants = AggSigConstants::from(&*MAINNET_CONSTANTS);
    let required = ok(required_signatures(&built.coin_spends, &constants))?;
    assert_eq!(required.len(), 1, "one AGG_SIG_ME expected");
    match &required[0] {
        RequiredSignature::Bls(bls) => assert_eq!(bls.public_key, owner.pk),
        RequiredSignature::Secp(_) => panic!("a standard owner signs with a BLS key"),
    }
    Ok(())
}

/// Control of a DID is proven by its owner's key and by nothing else.
#[test]
fn only_the_owners_key_passes_the_control_test() -> anyhow::Result<()> {
    let mut sim = Simulator::new();
    let (owner, did) = settled_did(&mut sim)?;
    let stranger = sim.bls(1);

    assert!(gate_owner_controls_did(&did, &Owner::Standard(owner.pk)).is_ok());
    assert!(matches!(
        gate_owner_controls_did(&did, &Owner::Standard(stranger.pk)),
        Err(DidError::NotTheOwner)
    ));
    let prebuilt = ok(inner_spend(&Owner::Standard(owner.pk), &Conditions::new()))?;
    assert!(matches!(
        gate_owner_controls_did(&did, &Owner::Custom(prebuilt)),
        Err(DidError::UnsupportedOwner(_))
    ));
    Ok(())
}

/// The melt condition stands in the staged solution byte for byte, alone.
#[test]
fn the_melt_condition_is_serialized_alone() -> anyhow::Result<()> {
    let mut sim = Simulator::new();
    let (owner, did) = settled_did(&mut sim)?;
    let spend = ok(melt(&mut SpendContext::new(), did, Owner::Standard(owner.pk)))?;

    // (q . ((CREATE_COIN () -113)))
    let expected = [0xff, 0x01, 0xff, 0xff, 51, 0xff, 0x80, 0xff, 0x81, 0x8f, 0x80, 0x80];
    let solution = spend.coin_spends[0].solution.as_slice();
    assert!(solution.windows(expected.len()).any(|window| window == expected));
    Ok(())
}

/// No coin hydrates as the child of a melted DID.
#[test]
fn a_melted_did_has_no_child_to_hydrate() -> anyhow::Result<()> {
    let mut sim = Simulator::new();
    let (owner, did) = settled_did(&mut sim)?;
    let successor = would_be_successor(&did);
    let spend = ok(melt(&mut SpendContext::new(), did, Owner::Standard(owner.pk)))?;
    let melted = &spend.coin_spends[0];
    for child in [successor, melted.coin] {
        assert!(matches!(
            hydrate_did_from_parent_spend(
                melted.coin,
                &melted.puzzle_reveal,
                &melted.solution,
                child
            ),
            Err(DidError::MissingLineage)
        ));
    }
    Ok(())
}
