use chia_bls::{PublicKey, SecretKey};
use chia_protocol::{Bytes32, Coin as SdkCoin, CoinSpend as SdkCoinSpend};
use chia_puzzle_types::standard::StandardArgs;
use chia_wallet_sdk::driver::{Launcher, SpendContext as SdkContext, StandardLayer};

use dig_did::{
    create_simple_did, parse_did_coin_spend, Coin, CoinSpend, DidResult, Owner, SpendContext,
};

/// The coin as the SDK holds it.
fn sdk_coin(coin: Coin) -> SdkCoin {
    SdkCoin::new(coin.parent_coin_info, coin.puzzle_hash, coin.amount)
}


/// The coin spends as the SDK holds them.
fn sdk_spends(coin_spends: &[CoinSpend]) -> Vec<SdkCoinSpend> {
    coin_spends
        .iter()
        .map(|spend| {
            SdkCoinSpend::new(
                sdk_coin(spend.coin),
                spend.puzzle_reveal.clone(),
                spend.solution.clone(),
            )
        })
        .collect()
}

/// A result of the library as one of `anyhow`.
fn ok<T>(result: DidResult<T>) -> anyhow::Result<T> {
    result.map_err(|error| anyhow::Error::msg(error.to_string()))
}

/// A deterministic BLS key.
fn owner_key() -> PublicKey {
    SecretKey::from_seed(b"dig-did::golden::create_simple_did::v1").public_key()
}

/// A deterministic funding coin owned by [`owner_key`], sized to fund a 1-mojo DID launch.
fn funding_coin() -> Coin {
    let parent_coin_info: Bytes32 =
        clvm_utils::tree_hash_atom(b"dig-did::golden::funding-coin-parent").into();
    let puzzle_hash: Bytes32 = StandardArgs::curry_tree_hash(owner_key()).into();
    Coin::new(parent_coin_info, puzzle_hash, 1)
}

/// The launcher, settle and funding spends that the SDK itself builds for the same inputs.
fn golden_spends() -> anyhow::Result<Vec<SdkCoinSpend>> {
    let ctx = &mut SdkContext::new();
    let owner = StandardLayer::new(owner_key());
    let coin = sdk_coin(funding_coin());
    let launcher = Launcher::new(coin.coin_id(), coin.amount);
    let (conditions, _did) = launcher.create_simple_did(ctx, &owner)?;
    owner.spend(ctx, coin, conditions)?;
    Ok(ctx.take())
}

#[test]
fn create_simple_did_reproduces_the_golden_fixture_byte_identically() -> anyhow::Result<()> {
    let ctx = &mut SpendContext::new();
    let spend = ok(create_simple_did(
        ctx,
        funding_coin(),
        Owner::Standard(owner_key()),
    ))?;

    assert_eq!(spend.coin_spends.len(), 3, "funding + launcher + settle");
    let actual = sdk_spends(&spend.coin_spends);
    let golden = golden_spends()?;

    assert_eq!(actual[0], golden[0], "launcher spend bytes changed");
    assert_eq!(actual[1], golden[1], "settle spend bytes changed");
    assert_eq!(actual[2], golden[2], "funding-coin spend bytes changed");
    Ok(())
}

#[test]
fn the_current_reader_decodes_the_golden_settle_spend() -> anyhow::Result<()> {
    let ctx = &mut SpendContext::new();
    let spend = ok(create_simple_did(
        ctx,
        funding_coin(),
        Owner::Standard(owner_key()),
    ))?;
    let settle_spend = &spend.coin_spends[1];

    let parsed = ok(parse_did_coin_spend(
        settle_spend.coin,
        &settle_spend.puzzle_reveal,
        &settle_spend.solution,
    ))?
    .expect("the golden settle spend is a real DID spend");

    let (parsed_did, _p2_spend) = parsed;
    assert_eq!(
        parsed_did.info,
        spend.child.expect("create always returns a child DID").info,
        "the reader must reconstruct the exact DidInfo the builder produced"
    );
    Ok(())
}
