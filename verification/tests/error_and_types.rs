use chia_protocol::{Bytes32, Coin as SdkCoin, Program};
use chia_wallet_sdk::driver::DriverError;
use chia_wallet_sdk::prelude::PublicKey;

use dig_did::{Coin, CoinSpend, DidError, DidSpend, Owner, SpendContext};

#[test]
fn display_messages_are_descriptive() {
    assert_eq!(DidError::NotDid.to_string(), "coin is not a DID singleton");
    assert_eq!(
        DidError::MissingLineage.to_string(),
        "missing lineage proof for DID"
    );
    assert_eq!(
        DidError::MissingHint.to_string(),
        "missing owner hint on DID coin"
    );
    assert_eq!(
        DidError::Parse("bad".into()).to_string(),
        "failed to parse DID: bad"
    );
    assert_eq!(
        DidError::InvalidDidString("nope".into()).to_string(),
        "invalid did:chia string: nope"
    );
    assert_eq!(
        DidError::InvalidRecovery("mismatch".into()).to_string(),
        "invalid recovery configuration: mismatch"
    );
    assert_eq!(
        DidError::Signer("boom".into()).to_string(),
        "signature calculation failed: boom"
    );
    assert_eq!(
        DidError::Chain("wrong launcher".into()).to_string(),
        "chain precondition failed: wrong launcher"
    );
}

#[test]
fn wraps_driver_errors_via_from() {
    let driver = DriverError::InvalidSingletonStruct;
    let err: DidError = driver.into();
    assert!(matches!(err, DidError::Driver(_)));
    assert!(err.to_string().starts_with("chia driver error:"));
    assert_eq!(err.to_string(), "chia driver error: invalid singleton struct");
}

#[test]
fn the_other_messages_name_the_cause() {
    for (error, message) in [
        (
            DidError::NotTheOwner,
            "the supplied owner key does not control this DID: it does not match the DID's current          inner puzzle hash",
        ),
        (
            DidError::UnsupportedOwner("use another"),
            "unsupported owner for this operation: use another",
        ),
        (
            DidError::EvenSingletonAmount(1_234_567_890),
            "funding coin amount 1234567890 is even: a singleton is the odd-amount output of its launcher, so this launch would spend the coin and create no DID — split the funding coin to an exact odd amount (1 mojo is conventional) first",
        ),
        (
            DidError::EvenSingletonAmount(0),
            "funding coin amount 0 is even: a singleton is the odd-amount output of its launcher, so this launch would spend the coin and create no DID — split the funding coin to an exact odd amount (1 mojo is conventional) first",
        ),
        (
            DidError::EvenSingletonAmount(u64::MAX - 1),
            "funding coin amount 18446744073709551614 is even: a singleton is the odd-amount output of its launcher, so this launch would spend the coin and create no DID — split the funding coin to an exact odd amount (1 mojo is conventional) first",
        ),
        (
            DidError::OddAmountCreateCoin,
            "caller supplied an odd-amount CREATE_COIN: a singleton may emit exactly one odd-amount output and the DID's recreation occupies it, so this spend could never be valid on chain — parent any singleton launcher to an ordinary coin and bind it to the DID by announcement",
        ),
        (
            DidError::AggSigUnsafeInConditions,
            "caller supplied an AGG_SIG_UNSAFE condition: it is signed with no coin binding and no domain separation, so the resulting signature is replayable against any other spend — a DID spend must never carry one",
        ),
        (
            DidError::NonCanonicalCreateCoinAmount("why".into()),
            "caller supplied a CREATE_COIN whose amount is not canonically encoded: why — CLVM integers are signed and chia requires a canonical encoding, so this amount would be rejected at mempool admission",
        ),
        (
            DidError::DisallowedCondition("what".into()),
            "caller supplied a condition a DID spend may not carry: what — a DID-preserving spend permits only announcements, assertions, even-amount CREATE_COINs, fees, and coin-bound signature requirements",
        ),
        (
            DidError::NoIdentitySingleton,
            "DID singleton has no current on-chain coin (unlaunched or melted)",
        ),
        (DidError::NotASingleton, "coin is not a genuine singleton"),
        (
            DidError::NotDidRooted,
            "coin is not rooted in the DID's singleton lineage",
        ),
        (
            DidError::LauncherMismatch,
            "the DID tip's authenticated launcher does not match the requested launcher",
        ),
        (
            DidError::LineageTooDeep,
            "singleton lineage exceeds the maximum authenticated depth",
        ),
    ] {
        assert_eq!(error.to_string(), message);
    }
}

#[test]
fn did_spend_carries_its_coin_spends_and_child() {
    let spend = DidSpend::new(Vec::new(), None);
    assert!(spend.coin_spends.is_empty());
    assert!(spend.child.is_none());
}

#[test]
fn owner_standard_holds_the_given_key() {
    let key = PublicKey::default();
    let owner = Owner::Standard(key);
    match owner {
        Owner::Standard(k) => assert_eq!(k, key),
        Owner::Custom(_) => panic!("expected a standard owner"),
    }
}

/// The coin id is the SDK's, for amounts of every encoded length.
#[test]
fn coin_ids_are_those_of_the_sdk() {
    let parent = Bytes32::new([3; 32]);
    let puzzle_hash = Bytes32::new([4; 32]);
    for amount in [0, 1, 0x7f, 0x80, 0xffff, 1 << 40, u64::MAX] {
        let coin = Coin::new(parent, puzzle_hash, amount);
        assert_eq!(
            coin.coin_id(),
            SdkCoin::new(parent, puzzle_hash, amount).coin_id()
        );
        assert_ne!(coin.coin_id(), parent);
    }
}

/// What is staged comes out in order, once.
#[test]
fn a_context_hands_out_what_was_staged() {
    let coin = Coin::new(Bytes32::new([1; 32]), Bytes32::new([2; 32]), 1);
    let other = Coin::new(Bytes32::new([1; 32]), Bytes32::new([2; 32]), 2);
    let mut ctx = SpendContext::new();
    ctx.insert(CoinSpend::new(coin, Program::default(), Program::default()));
    ctx.insert(CoinSpend::new(other, Program::default(), Program::default()));
    let taken = ctx.take();
    assert_eq!(taken.len(), 2);
    assert_eq!(taken[0].coin, coin);
    assert_eq!(taken[1].coin, other);
    assert!(ctx.take().is_empty());
}
