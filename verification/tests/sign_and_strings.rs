use chia_protocol::{Bytes, Bytes32, Coin as SdkCoin, CoinSpend as SdkCoinSpend, Program};
use chia_wallet_sdk::driver::SpendContext as SdkContext;
use chia_wallet_sdk::prelude::{Allocator, PublicKey, MAINNET_CONSTANTS};
use chia_wallet_sdk::signer::RequiredSignature as SdkSignature;
use chia_wallet_sdk::test::Simulator;
use chia_wallet_sdk::types::Conditions as SdkConditions;
use chia_wallet_sdk::utils::Address as SdkAddress;

use dig_did::context::inner_spend;
use dig_did::sign::SecpCurve;
use dig_did::{
    create_simple_did, did_string_from_launcher_id, launcher_id_from_did_string,
    required_signatures, Address, AggSigConstants, Coin, CoinSpend, Conditions, DidError,
    DidResult, Owner, RequiredSignature, SpendContext, DID_CHIA_PREFIX,
};

/// The coin as the SDK holds it.
fn sdk_coin(coin: Coin) -> SdkCoin {
    SdkCoin::new(coin.parent_coin_info, coin.puzzle_hash, coin.amount)
}

/// The SDK's coin as the library holds it.
fn lib_coin(coin: SdkCoin) -> Coin {
    Coin::new(coin.parent_coin_info, coin.puzzle_hash, coin.amount)
}

/// The coin spends as the SDK holds them.
fn sdk_spends(coin_spends: &[CoinSpend]) -> Vec<SdkCoinSpend> {
    coin_spends
        .iter()
        .map(|spend| {
            SdkCoinSpend::new(
                sdk_coin(spend.coin),
                spend.puzzle_reveal.clone(),
                spend.solution.clone(),
            )
        })
        .collect()
}

/// A result of the library as one of `anyhow`.
fn ok<T>(result: DidResult<T>) -> anyhow::Result<T> {
    result.map_err(|error| anyhow::Error::msg(error.to_string()))
}

/// The SDK's conditions, each serialized.
fn conditions(list: SdkConditions) -> anyhow::Result<Conditions> {
    let ctx = &mut SdkContext::new();
    let mut conditions = Conditions::new();
    for condition in list {
        conditions = conditions.with(ctx.serialize(&condition)?);
    }
    Ok(conditions)
}

/// The requirements are those of the SDK's signer, message by message.
#[test]
fn required_signatures_agree_with_the_sdk() -> anyhow::Result<()> {
    let mut sim = Simulator::new();
    let ctx = &mut SpendContext::new();
    let owner = sim.bls(1);
    let other = sim.bls(2);
    let spend = ok(inner_spend(
        &Owner::Standard(other.pk),
        &conditions(
            SdkConditions::new()
                .agg_sig_unsafe(other.pk, Bytes::from(b"unbound".to_vec()))
                .agg_sig_parent(other.pk, Bytes::from(b"parent".to_vec())),
        )?,
    ))?;
    ctx.spend(lib_coin(other.coin), spend);
    let created = ok(create_simple_did(
        ctx,
        lib_coin(owner.coin),
        Owner::Standard(owner.pk),
    ))?;

    let constants = AggSigConstants::from(&*MAINNET_CONSTANTS);
    let required = ok(required_signatures(&created.coin_spends, &constants))?;
    let expected = SdkSignature::from_coin_spends(
        &mut Allocator::new(),
        &sdk_spends(&created.coin_spends),
        &constants,
    )?;
    assert_eq!(required.len(), 5);
    assert_eq!(required.len(), expected.len());
    for (ours, theirs) in required.iter().zip(&expected) {
        match (ours, theirs) {
            (RequiredSignature::Bls(ours), SdkSignature::Bls(theirs)) => {
                assert_eq!(ours.public_key, theirs.public_key);
                assert_eq!(ours.raw_message, theirs.raw_message.to_vec());
                assert_eq!(ours.appended_info, theirs.appended_info);
                assert_eq!(ours.domain_string, theirs.domain_string);
                assert_eq!(ours.message(), theirs.message());
            }
            _ => panic!("standard owners sign with BLS keys"),
        }
    }
    // The message of an AGG_SIG_ME is bound to the coin and the network.
    match &required[0] {
        RequiredSignature::Bls(bls) => {
            assert_eq!(bls.appended_info, other.coin.coin_id().to_vec());
            assert_eq!(bls.domain_string, Some(constants.me()));
            assert_eq!(bls.message().len(), bls.raw_message.len() + 64);
        }
        RequiredSignature::Secp(_) => panic!("a standard owner signs with a BLS key"),
    }
    // An AGG_SIG_UNSAFE is bound to nothing.
    match &required[1] {
        RequiredSignature::Bls(bls) => assert_eq!(bls.message(), b"unbound".to_vec()),
        RequiredSignature::Secp(_) => panic!("a standard owner signs with a BLS key"),
    }
    Ok(())
}

/// Nothing to spend, nothing to sign; and a spend that does not run is an error, whatever stands beside
/// it.
#[test]
fn signing_fails_closed() -> anyhow::Result<()> {
    let mut sim = Simulator::new();
    let constants = AggSigConstants::from(&*MAINNET_CONSTANTS);
    assert!(ok(required_signatures(&[], &constants))?.is_empty());

    let owner = sim.bls(1);
    let spend = ok(inner_spend(&Owner::Standard(owner.pk), &Conditions::new()))?;
    let good = CoinSpend::new(lib_coin(owner.coin), spend.puzzle, spend.solution);
    // (x), which raises.
    let raise: Program = vec![0xff, 0x08, 0x80].into();
    let bad = CoinSpend::new(lib_coin(owner.coin), raise, Program::default());
    assert!(matches!(
        required_signatures(&[good.clone(), bad.clone()], &constants),
        Err(DidError::Signer(_))
    ));
    assert!(matches!(
        required_signatures(&[bad, good], &constants),
        Err(DidError::Signer(_))
    ));

    // A condition under the infinity key.
    let spend = ok(inner_spend(
        &Owner::Standard(owner.pk),
        &conditions(
            SdkConditions::new().agg_sig_me(PublicKey::default(), Bytes::from(vec![1])),
        )?,
    ))?;
    let infinite = CoinSpend::new(lib_coin(owner.coin), spend.puzzle, spend.solution);
    assert!(matches!(
        required_signatures(&[infinite], &constants),
        Err(DidError::Signer(text)) if text == "Infinity public key"
    ));
    Ok(())
}

/// The string of a launcher id is the SDK's address under the DID prefix, and reads back.
#[test]
fn did_strings_round_trip() -> anyhow::Result<()> {
    assert_eq!(DID_CHIA_PREFIX, "did:chia:");
    for byte in [0_u8, 1, 0x7f, 0x80, 0xff] {
        let launcher_id = Bytes32::new([byte; 32]);
        let text = did_string_from_launcher_id(launcher_id);
        assert_eq!(
            text,
            SdkAddress::new(launcher_id, "did:chia:".to_string()).encode()?
        );
        assert!(text.starts_with("did:chia:1"));
        assert_eq!(ok(launcher_id_from_did_string(&text))?, launcher_id);
        assert_eq!(
            ok(launcher_id_from_did_string(&text.to_uppercase()))?,
            launcher_id
        );
    }
    Ok(())
}

#[test]
fn malformed_did_strings_are_refused() {
    let text = did_string_from_launcher_id(Bytes32::new([3; 32]));
    let mut garbled = text.clone();
    garbled.pop();
    for bad in ["", "hello there!", "did:chia:", garbled.as_str()] {
        assert!(matches!(
            launcher_id_from_did_string(bad),
            Err(DidError::InvalidDidString(_))
        ));
    }
    // A valid address under another prefix.
    let address = Address::new(Bytes32::new([3; 32]), "xch".to_string());
    let text = address.encode().expect("xch is a prefix");
    assert!(matches!(
        launcher_id_from_did_string(&text),
        Err(DidError::InvalidDidString(reason)) if reason == "the prefix is not did:chia:"
    ));
    let decoded = Address::decode(&text).expect("the string was encoded");
    assert_eq!(decoded.puzzle_hash, address.puzzle_hash);
    assert_eq!(decoded.prefix, address.prefix);
    // A prefix of mixed case has no string.
    assert!(Address::new(Bytes32::new([3; 32]), "xCh".to_string())
        .encode()
        .is_err());
    assert!(Address::decode("bc1qar0srrr7xfkvy5l643lydnw9re59gtzzwf5mdq").is_err());
}

/// Each kind of signature requirement binds its message to what its opcode says.
#[test]
fn each_signature_kind_is_bound_as_its_opcode_says() -> anyhow::Result<()> {
    let mut sim = Simulator::new();
    let owner = sim.bls(200);
    let coin = lib_coin(owner.coin);
    let (pk, message) = (owner.pk, Bytes::from(b"message".to_vec()));
    let spend = ok(inner_spend(
        &Owner::Standard(pk),
        &conditions(
            SdkConditions::new()
                .agg_sig_parent(pk, message.clone())
                .agg_sig_puzzle(pk, message.clone())
                .agg_sig_amount(pk, message.clone())
                .agg_sig_puzzle_amount(pk, message.clone())
                .agg_sig_parent_amount(pk, message.clone())
                .agg_sig_parent_puzzle(pk, message.clone())
                .agg_sig_unsafe(pk, message.clone())
                .remark(SdkContext::new().alloc(&())?)
                .agg_sig_me(pk, message.clone()),
        )?,
    ))?;
    let constants = AggSigConstants::from(&*MAINNET_CONSTANTS);
    let coin_spend = CoinSpend::new(coin, spend.puzzle, spend.solution);
    let required = ok(required_signatures(&[coin_spend], &constants))?;

    let (id, parent) = (coin.coin_id().to_vec(), coin.parent_coin_info.to_vec());
    let (puzzle, amount) = (coin.puzzle_hash.to_vec(), vec![0, 200]);
    let expected = [
        (id.clone(), Some(constants.me())),
        (parent.clone(), Some(constants.parent())),
        (puzzle.clone(), Some(constants.puzzle())),
        (amount.clone(), Some(constants.amount())),
        ([puzzle.clone(), amount.clone()].concat(), Some(constants.puzzle_amount())),
        ([parent.clone(), amount].concat(), Some(constants.parent_amount())),
        ([parent, puzzle].concat(), Some(constants.parent_puzzle())),
        (Vec::new(), None),
        (id, Some(constants.me())),
    ];
    assert_eq!(required.len(), expected.len());
    for (signature, (info, domain)) in required.iter().zip(expected) {
        match signature {
            RequiredSignature::Bls(bls) => {
                assert_eq!(bls.public_key, pk);
                assert_eq!(bls.appended_info, info);
                assert_eq!(bls.domain_string, domain);
            }
            RequiredSignature::Secp(_) => panic!("the conditions name a BLS key"),
        }
    }
    Ok(())
}

/// A puzzle that verifies a secp signature: `(opcode (q . key) (q . hash) (q))`.
fn secp_puzzle(opcode: [u8; 4], key: &[u8], hash: [u8; 32]) -> Program {
    let mut bytes = vec![0xff, 0x84];
    bytes.extend(opcode);
    bytes.extend([0xff, 0xff, 0x01, 0xa1]);
    bytes.extend(key);
    bytes.extend([0xff, 0xff, 0x01, 0xa0]);
    bytes.extend(hash);
    bytes.extend([0xff, 0xff, 0x01, 0x80, 0x80]);
    bytes.into()
}

/// The secp signatures that a puzzle verifies are required too, under the key in its compressed form.
#[test]
fn secp_signatures_are_required_under_their_key() -> anyhow::Result<()> {
    let constants = AggSigConstants::from(&*MAINNET_CONSTANTS);
    let coin = Coin::new(Bytes32::default(), Bytes32::default(), 1);
    // The generators of the two curves.
    let k1: [u8; 33] = [
        0x02, 0x79, 0xbe, 0x66, 0x7e, 0xf9, 0xdc, 0xbb, 0xac, 0x55, 0xa0, 0x62, 0x95, 0xce, 0x87,
        0x0b, 0x07, 0x02, 0x9b, 0xfc, 0xdb, 0x2d, 0xce, 0x28, 0xd9, 0x59, 0xf2, 0x81, 0x5b, 0x16,
        0xf8, 0x17, 0x98,
    ];
    let r1: [u8; 33] = [
        0x03, 0x6b, 0x17, 0xd1, 0xf2, 0xe1, 0x2c, 0x42, 0x47, 0xf8, 0xbc, 0xe6, 0xe5, 0x63, 0xa4,
        0x40, 0xf2, 0x77, 0x03, 0x7d, 0x81, 0x2d, 0xeb, 0x33, 0xa0, 0xf4, 0xa1, 0x39, 0x45, 0xd8,
        0x98, 0xc2, 0x96,
    ];
    for (opcode, key, curve) in [
        ([0x13, 0xd6, 0x1f, 0x00], k1, SecpCurve::K1),
        ([0x1c, 0x3a, 0x8f, 0x00], r1, SecpCurve::R1),
    ] {
        let puzzle = secp_puzzle(opcode, &key, [42; 32]);
        let spend = CoinSpend::new(coin, puzzle, Program::default());
        let required = ok(required_signatures(&[spend], &constants))?;
        assert_eq!(required.len(), 1);
        match &required[0] {
            RequiredSignature::Secp(secp) => {
                assert_eq!(secp.public_key_bytes(), key.to_vec());
                assert_eq!(secp.curve(), curve);
                assert_eq!(secp.message_hash, [42; 32]);
            }
            RequiredSignature::Bls(_) => panic!("the puzzle verifies a secp signature"),
        }
    }
    Ok(())
}

/// A key outside the group that signatures are made in is told from a valid one: its owner's
/// `AGG_SIG_ME` is emitted but not among the signatures that are reported.
#[test]
fn signatures_under_an_invalid_key_are_not_reported() -> anyhow::Result<()> {
    let mut sim = Simulator::new();
    let valid = sim.bls(1);
    assert!(Owner::Standard(valid.pk).has_valid_key());

    // A point of the curve, of no use to sign under.
    let mut bytes = [0; 48];
    bytes[0] = 0x80;
    bytes[47] = 4;
    let owner = Owner::Standard(PublicKey::from_bytes_unchecked(&bytes)?);
    assert!(!owner.has_valid_key());
    let spend = ok(inner_spend(&owner, &Conditions::new()))?;
    let constants = AggSigConstants::from(&*MAINNET_CONSTANTS);
    let coin_spend = CoinSpend::new(lib_coin(valid.coin), spend.puzzle, spend.solution);
    assert!(ok(required_signatures(&[coin_spend], &constants))?.is_empty());
    Ok(())
}
