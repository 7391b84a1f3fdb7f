use chia_protocol::{Bytes32, Coin as SdkCoin, CoinSpend as SdkCoinSpend, Program};
use chia_puzzle_types::Memos;
use chia_wallet_sdk::driver::{
    Did as SdkDid, Launcher, SpendContext as SdkContext, StandardLayer,
};
use chia_wallet_sdk::test::Simulator;
use chia_wallet_sdk::types::Conditions;

use dig_did::context::inner_spend;
use dig_did::{
    create_did, create_simple_did, did_info_from_puzzle, hydrate_did_from_parent_spend,
    parse_did_coin_spend, spend_did_with_conditions, Coin, CoinSpend, Did, DidError, DidInfo,
    DidResult, Metadata, Owner, SpendContext,
};

/// The coin as the SDK holds it.
fn sdk_coin(coin: Coin) -> SdkCoin {
    SdkCoin::new(coin.parent_coin_info, coin.puzzle_hash, coin.amount)
}

/// The SDK's coin as the library holds it.
fn lib_coin(coin: SdkCoin) -> Coin {
    Coin::new(coin.parent_coin_info, coin.puzzle_hash, coin.amount)
}

/// The coin spends as the SDK holds them.
fn sdk_spends(coin_spends: &[CoinSpend]) -> Vec<SdkCoinSpend> {
    coin_spends
        .iter()
        .map(|spend| {
            SdkCoinSpend::new(
                sdk_coin(spend.coin),
                spend.puzzle_reveal.clone(),
                spend.solution.clone(),
            )
        })
        .collect()
}

/// A result of the library as one of `anyhow`.
fn ok<T>(result: DidResult<T>) -> anyhow::Result<T> {
    result.map_err(|error| anyhow::Error::msg(error.to_string()))
}

/// The SDK's DID as the library holds it.
fn lib_did(ctx: &mut SdkContext, did: SdkDid) -> anyhow::Result<Did> {
    let metadata = ctx.serialize(&did.info.metadata)?;
    Ok(Did {
        coin: lib_coin(did.coin),
        proof: did.proof,
        info: DidInfo {
            launcher_id: did.info.launcher_id,
            recovery_list_hash: did.info.recovery_list_hash,
            num_verifications_required: did.info.num_verifications_required,
            metadata: ok(Metadata::new(&metadata))?,
            p2_puzzle_hash: did.info.p2_puzzle_hash,
        },
    })
}

#[test]
fn hydrates_the_exact_did_the_sdk_produced() -> anyhow::Result<()> {
    let mut sim = Simulator::new();
    let ctx = &mut SdkContext::new();

    let owner = sim.bls(1);
    let owner_p2 = StandardLayer::new(owner.pk);

    let (create_did, expected_did) =
        Launcher::new(owner.coin.coin_id(), 1).create_simple_did(ctx, &owner_p2)?;
    owner_p2.spend(ctx, owner.coin, create_did)?;
    sim.spend_coins(ctx.take(), &[owner.sk])?;

    let parent_coin = sim
        .coin_state(expected_did.coin.parent_coin_info)
        .expect("the launcher coin must be tracked by the simulator")
        .coin;
    let parent_puzzle_reveal = sim
        .puzzle_reveal(expected_did.coin.parent_coin_info)
        .expect("the launcher spend must have a recorded puzzle reveal");
    let parent_solution = sim
        .solution(expected_did.coin.parent_coin_info)
        .expect("the launcher spend must have a recorded solution");

    let hydrated = hydrate_did_from_parent_spend(
        lib_coin(parent_coin),
        &parent_puzzle_reveal,
        &parent_solution,
        lib_coin(expected_did.coin),
    )
    .expect("a real create-spend must hydrate cleanly");

    assert_eq!(
        hydrated,
        lib_did(ctx, expected_did)?,
        "hydration must byte-agree with the SDK's own Did"
    );
    Ok(())
}

#[test]
fn fails_closed_when_the_parent_spend_creates_no_child() -> anyhow::Result<()> {
    let mut sim = Simulator::new();
    let ctx = &mut SdkContext::new();

    let owner = sim.bls(1);
    let owner_p2 = StandardLayer::new(owner.pk);

    let (create_did, did) =
        Launcher::new(owner.coin.coin_id(), 1).create_simple_did(ctx, &owner_p2)?;
    owner_p2.spend(ctx, owner.coin, create_did)?;
    sim.spend_coins(ctx.take(), &[owner.sk])?;

    // Build (never broadcast) a follow-up DID spend whose inner puzzle emits no conditions at all.
    did.spend_with(ctx, &owner_p2, Conditions::new())?;
    let coin_spends = ctx.take();
    let melt_spend = coin_spends
        .into_iter()
        .find(|coin_spend| coin_spend.coin == did.coin)
        .expect("the no-successor DID spend must be present");

    // No child was ever created by that spend; make up a plausible (but nonexistent) one.
    let bogus_child = Coin::new(did.coin.coin_id(), owner.puzzle_hash, 1);

    let error = hydrate_did_from_parent_spend(
        lib_coin(did.coin),
        &melt_spend.puzzle_reveal,
        &melt_spend.solution,
        bogus_child,
    )
    .expect_err("a melt spend creates no child DID to hydrate");

    assert!(matches!(error, DidError::MissingLineage));
    Ok(())
}

#[test]
fn parse_did_coin_spend_returns_none_for_a_non_did_puzzle() -> anyhow::Result<()> {
    let mut sim = Simulator::new();
    let ctx = &mut SdkContext::new();

    let alice = sim.bls(1);
    let alice_p2 = StandardLayer::new(alice.pk);
    alice_p2.spend(
        ctx,
        alice.coin,
        Conditions::new().create_coin(alice.puzzle_hash, 1, Memos::None),
    )?;
    sim.spend_coins(ctx.take(), &[alice.sk])?;

    let puzzle_reveal = sim
        .puzzle_reveal(alice.coin.coin_id())
        .expect("the standard spend must have a recorded puzzle reveal");
    let solution = sim
        .solution(alice.coin.coin_id())
        .expect("the standard spend must have a recorded solution");

    let parsed = parse_did_coin_spend(lib_coin(alice.coin), &puzzle_reveal, &solution)
        .expect("parsing a non-DID puzzle is not an error");
    assert!(parsed.is_none());
    assert!(ok(did_info_from_puzzle(&puzzle_reveal))?.is_none());

    // Nor can a child be hydrated from it.
    let error = hydrate_did_from_parent_spend(
        lib_coin(alice.coin),
        &puzzle_reveal,
        &solution,
        Coin::new(alice.coin.coin_id(), alice.puzzle_hash, 1),
    )
    .expect_err("a standard coin is no DID");
    assert!(matches!(error, DidError::NotDid));
    Ok(())
}

/// An odd-amount successor without memos has no owner that could be recovered.
#[test]
fn fails_closed_when_the_successor_is_not_hinted() -> anyhow::Result<()> {
    let mut sim = Simulator::new();
    let ctx = &mut SdkContext::new();
    let owner = sim.bls(1);
    let owner_p2 = StandardLayer::new(owner.pk);
    let (_create_did, did) =
        Launcher::new(owner.coin.coin_id(), 1).create_simple_did(ctx, &owner_p2)?;
    ctx.take();

    let unhinted = Conditions::new().create_coin(Bytes32::new([9; 32]), 1, Memos::None);
    did.spend_with(ctx, &owner_p2, unhinted)?;
    let spend = ctx.take().remove(0);
    let error = hydrate_did_from_parent_spend(
        lib_coin(did.coin),
        &spend.puzzle_reveal,
        &spend.solution,
        Coin::new(did.coin.coin_id(), owner.puzzle_hash, 1),
    )
    .expect_err("an unhinted child has no owner");
    assert!(matches!(error, DidError::MissingHint));
    Ok(())
}

/// Any other failure of the driver keeps its cause: here a solution that is no singleton solution.
#[test]
fn other_driver_failures_are_reported_as_such() -> anyhow::Result<()> {
    let mut sim = Simulator::new();
    let ctx = &mut SpendContext::new();
    let owner = sim.bls(1);
    let spend = ok(create_simple_did(
        ctx,
        lib_coin(owner.coin),
        Owner::Standard(owner.pk),
    ))?;
    let settle = &spend.coin_spends[1];
    let nil = Program::default();

    let child = spend.child.clone().expect("create returns a child DID");
    let hydrated =
        hydrate_did_from_parent_spend(settle.coin, &settle.puzzle_reveal, &nil, child.coin);
    assert!(matches!(hydrated, Err(DidError::Driver(_))));
    let parsed = parse_did_coin_spend(settle.coin, &settle.puzzle_reveal, &nil);
    assert!(matches!(parsed, Err(DidError::Driver(_))));
    Ok(())
}

/// Bytes that are no CLVM tree are refused before anything else is looked at.
#[test]
fn bytes_that_are_no_tree_are_refused() {
    let coin = Coin::new(Bytes32::new([1; 32]), Bytes32::new([2; 32]), 1);
    let torn: Program = vec![0xff].into();
    let nil = Program::default();
    for (puzzle, solution) in [(&torn, &nil), (&nil, &torn)] {
        assert!(matches!(
            hydrate_did_from_parent_spend(coin, puzzle, solution, coin),
            Err(DidError::Parse(_))
        ));
        assert!(matches!(
            parse_did_coin_spend(coin, puzzle, solution),
            Err(DidError::Parse(_))
        ));
    }
    assert!(matches!(
        did_info_from_puzzle(&torn),
        Err(DidError::Parse(_))
    ));
}

/// Reading gives back what was written: each spend that a creation or an update stages hydrates to the
/// DID that was returned, and parses to the DID that was spent, with the owner's spend in it.
#[test]
fn staged_spends_read_back_as_the_dids_they_are_of() -> anyhow::Result<()> {
    let mut sim = Simulator::new();
    let ctx = &mut SpendContext::new();
    let owner = sim.bls(3);
    let metadata = ok(Metadata::new(&vec![0xff, 0x84, b'n', b'o', b't', b'e', 0x80].into()))?;
    let recovery = Some(Bytes32::new([5; 32]));
    let created = ok(create_did(
        ctx,
        lib_coin(owner.coin),
        Owner::Standard(owner.pk),
        recovery,
        7,
        metadata.clone(),
    ))?;
    let did = created.child.expect("create returns a child DID");
    let settle = &created.coin_spends[1];
    let hydrated = ok(hydrate_did_from_parent_spend(
        settle.coin,
        &settle.puzzle_reveal,
        &settle.solution,
        did.coin,
    ))?;
    assert_eq!(hydrated, did);

    let child = ok(spend_did_with_conditions(
        ctx,
        did.clone(),
        Owner::Standard(owner.pk),
        dig_did::Conditions::new(),
    ))?;
    let staged = ctx.take().remove(0);
    let hydrated = ok(hydrate_did_from_parent_spend(
        staged.coin,
        &staged.puzzle_reveal,
        &staged.solution,
        child.coin,
    ))?;
    assert_eq!(hydrated, child);

    let (parsed, p2_spend) = ok(parse_did_coin_spend(
        staged.coin,
        &staged.puzzle_reveal,
        &staged.solution,
    ))?
    .expect("a DID spend parses as one");
    assert_eq!(parsed, did);
    let p2_spend = p2_spend.expect("the owner authorized the spend");
    assert_ne!(p2_spend.puzzle, staged.puzzle_reveal);
    let standard = ok(inner_spend(
        &Owner::Standard(owner.pk),
        &dig_did::Conditions::new(),
    ))?;
    assert_eq!(
        p2_spend.puzzle, standard.puzzle,
        "the owner's puzzle is the standard one"
    );

    let info = ok(did_info_from_puzzle(&staged.puzzle_reveal))?.expect("the puzzle is a DID");
    assert_eq!(info, did.info);
    assert_eq!(info.recovery_list_hash, recovery);
    assert_eq!(info.num_verifications_required, 7);
    assert_eq!(info.metadata, metadata);

    sim.spend_coins(sdk_spends(&created.coin_spends), &[owner.sk])?;
    Ok(())
}
