use std::cell::RefCell;
use std::collections::HashMap;

use chia_protocol::{Bytes32, Coin as SdkCoin, CoinSpend as SdkCoinSpend};
use chia_puzzle_types::singleton::{SingletonArgs, SingletonStruct};
use chia_puzzle_types::Memos;
use chia_puzzles::SINGLETON_LAUNCHER_HASH;
use chia_wallet_sdk::driver::{Launcher, SpendContext as SdkContext, StandardLayer};
use chia_wallet_sdk::test::{BlsPairWithCoin, Simulator};
use chia_wallet_sdk::types::Conditions as SdkConditions;

use dig_did::lineage::lineage_model;
use dig_did::resolve::owner_address;
use dig_did::walk::{authenticate_singleton, step, Walk, WalkStep};
use dig_did::{
    create_simple_did, did_string_from_launcher_id, melt, prove_lineage, resolve_xch_address,
    resolve_xch_address_from_did_string, spend_did_with_conditions, walk_did_lineage_to_tip,
    ChainSource, Coin, CoinSpend, Conditions, Did, DidError, DidResult, LineageModel, Owner,
    SingletonLineage, SpendContext, MAX_LINEAGE_DEPTH,
};

/// The coin as the SDK holds it.
fn sdk_coin(coin: Coin) -> SdkCoin {
    SdkCoin::new(coin.parent_coin_info, coin.puzzle_hash, coin.amount)
}

/// The SDK's coin as the library holds it.
fn lib_coin(coin: SdkCoin) -> Coin {
    Coin::new(coin.parent_coin_info, coin.puzzle_hash, coin.amount)
}

/// The coin spends as the SDK holds them.
fn sdk_spends(coin_spends: &[CoinSpend]) -> Vec<SdkCoinSpend> {
    coin_spends
        .iter()
        .map(|spend| {
            SdkCoinSpend::new(
                sdk_coin(spend.coin),
                spend.puzzle_reveal.clone(),
                spend.solution.clone(),
            )
        })
        .collect()
}

/// A result of the library as one of `anyhow`.
fn ok<T>(result: DidResult<T>) -> anyhow::Result<T> {
    result.map_err(|error| anyhow::Error::msg(error.to_string()))
}

/// A chain on the simulator, with the lineages that it is told of. It remembers what it was asked.
struct Chain {
    sim: Simulator,
    lineages: HashMap<Bytes32, SingletonLineage>,
    asked: RefCell<Vec<Bytes32>>,
}

impl Chain {
    fn new() -> Chain {
        Chain {
            sim: Simulator::new(),
            lineages: HashMap::new(),
            asked: RefCell::new(Vec::new()),
        }
    }

    /// The recorded spend of a coin.
    fn spend_of(&self, coin_id: Bytes32) -> Option<CoinSpend> {
        let coin = self.sim.coin_state(coin_id)?.coin;
        Some(CoinSpend::new(
            lib_coin(coin),
            self.sim.puzzle_reveal(coin_id)?,
            self.sim.solution(coin_id)?,
        ))
    }
}

impl ChainSource for Chain {
    fn resolve_singleton_lineage(
        &self,
        launcher_id: Bytes32,
    ) -> Result<Option<SingletonLineage>, String> {
        Ok(self.lineages.get(&launcher_id).cloned())
    }

    fn parent_spend(&self, coin_id: Bytes32) -> Result<Option<CoinSpend>, String> {
        self.asked.borrow_mut().push(coin_id);
        let Some(state) = self.sim.coin_state(coin_id) else {
            return Ok(None);
        };
        Ok(self.spend_of(state.coin.parent_coin_info))
    }
}

/// A source whose every read fails.
struct Broken;

impl ChainSource for Broken {
    fn resolve_singleton_lineage(&self, _: Bytes32) -> Result<Option<SingletonLineage>, String> {
        Err("no connection".to_string())
    }

    fn parent_spend(&self, _: Bytes32) -> Result<Option<CoinSpend>, String> {
        Err("no connection".to_string())
    }
}

/// A DID with `generations` spends after its creation, and the lineage of its coins.
fn grown_did(chain: &mut Chain, generations: usize) -> anyhow::Result<(BlsPairWithCoin, Vec<Did>)> {
    let owner = chain.sim.bls(1);
    let ctx = &mut SpendContext::new();
    let created = ok(create_simple_did(
        ctx,
        lib_coin(owner.coin),
        Owner::Standard(owner.pk),
    ))?;
    let eve_coin = created.coin_spends[1].coin;
    let mut states = vec![created.child.expect("create returns a child DID")];
    chain.sim.spend_coins(
        sdk_spends(&created.coin_spends),
        std::slice::from_ref(&owner.sk),
    )?;
    for _ in 0..generations {
        let did = states[states.len() - 1].clone();
        let child = ok(spend_did_with_conditions(
            ctx,
            did,
            Owner::Standard(owner.pk),
            Conditions::new(),
        ))?;
        chain
            .sim
            .spend_coins(sdk_spends(&ctx.take()), std::slice::from_ref(&owner.sk))?;
        states.push(child);
    }
    let launcher_id = states[0].info.launcher_id;
    let mut members = vec![launcher_id, eve_coin.coin_id()];
    members.extend(states.iter().map(|did| did.coin.coin_id()));
    let tip = states[states.len() - 1].coin.coin_id();
    chain
        .lineages
        .insert(launcher_id, SingletonLineage::new(tip, members));
    Ok((owner, states))
}

#[test]
fn lineage_membership_includes_tip_and_ancestors() {
    let launcher = Bytes32::new([1u8; 32]);
    let cn = Bytes32::new([2u8; 32]);
    let tip = Bytes32::new([3u8; 32]);
    let lineage = SingletonLineage::new(tip, vec![launcher, cn]);

    assert!(lineage.contains(launcher));
    assert!(lineage.contains(cn));
    assert!(lineage.contains(tip));
    assert!(!lineage.contains(Bytes32::new([9u8; 32])));
    assert_eq!(lineage.tip(), tip);
    assert_eq!(lineage.len(), 3);
    assert!(!lineage.is_empty());
}

#[test]
fn single_lineage_is_tip_only() {
    let tip = Bytes32::new([7u8; 32]);
    let lineage = SingletonLineage::single(tip);
    assert_eq!(lineage.len(), 1);
    assert!(lineage.contains(tip));
}

/// A lineage is a set of coins with a tip: neither order nor repetition matters.
#[test]
fn lineages_are_equal_as_sets() {
    let [a, b, c] = [1u8, 2, 3].map(|byte| Bytes32::new([byte; 32]));
    let lineage = SingletonLineage::new(c, vec![a, b]);
    assert_eq!(lineage, SingletonLineage::new(c, vec![b, a, c, a]));
    assert_eq!(lineage.len(), 3);
    assert_eq!(lineage, lineage.clone());
    assert_ne!(lineage, SingletonLineage::new(b, vec![a, c]));
    assert_ne!(lineage, SingletonLineage::new(c, vec![a]));
    assert_ne!(lineage, SingletonLineage::new(c, vec![a, Bytes32::new([4; 32])]));
    assert_eq!(SingletonLineage::single(a), SingletonLineage::new(a, vec![]));
}

/// Every state of a DID is rooted in it directly, and the trail leads from the coin to the launcher.
#[test]
fn every_state_of_a_did_is_directly_rooted() -> anyhow::Result<()> {
    let mut chain = Chain::new();
    let (_owner, states) = grown_did(&mut chain, 3)?;
    let did = &states[3];
    let launcher_id = did.info.launcher_id;
    for (index, state) in states.iter().enumerate() {
        let coin_id = state.coin.coin_id();
        let proof = ok(prove_lineage(coin_id, did, &chain))?;
        assert_eq!(proof.coin_id(), coin_id);
        assert_eq!(proof.did_launcher_id(), launcher_id);
        assert_eq!(proof.model(), LineageModel::Direct);
        assert_eq!(proof.did_lineage_tip(), did.coin.coin_id());
        assert_eq!(proof.authenticated_launcher(), launcher_id);

        let mut trail: Vec<Bytes32> = states[..=index]
            .iter()
            .rev()
            .map(|state| state.coin.coin_id())
            .collect();
        trail.push(states[0].coin.parent_coin_info);
        trail.push(launcher_id);
        assert_eq!(proof.chain(), &trail[..]);
        assert_eq!(proof.clone(), proof);
    }
    Ok(())
}

/// The walk asks for the parent of each coin on the trail in turn.
#[test]
fn the_walk_asks_along_the_trail() -> anyhow::Result<()> {
    let mut chain = Chain::new();
    let (_owner, states) = grown_did(&mut chain, 2)?;
    chain.asked.borrow_mut().clear();
    let tip = states[2].coin.coin_id();
    let lineage = ok(authenticate_singleton(tip, &chain))?;
    let asked = chain.asked.borrow().clone();
    assert_eq!(lineage.trail().len(), asked.len() + 1);
    assert_eq!(lineage.trail()[..asked.len()], asked[..]);
    assert_eq!(lineage.trail()[asked.len()], lineage.launcher_id());
    assert_eq!(
        lineage.launcher_coin().puzzle_hash,
        SINGLETON_LAUNCHER_HASH.into()
    );
    assert_eq!(lineage.launcher_coin().coin_id(), lineage.launcher_id());
    Ok(())
}

/// A coin that a DID owner was merely paid is no singleton, whatever its parent.
#[test]
fn a_payment_coin_is_not_a_singleton() -> anyhow::Result<()> {
    let mut chain = Chain::new();
    let (owner, states) = grown_did(&mut chain, 0)?;
    let did = states[0].clone();
    let funder = chain.sim.bls(2);
    let sdk = &mut SdkContext::new();
    let paid = sdk.serialize(
        &SdkConditions::new()
            .create_coin(owner.puzzle_hash, 2, Memos::None)
            .into_vec()[0],
    )?;

    let ctx = &mut SpendContext::new();
    let child = ok(spend_did_with_conditions(
        ctx,
        did.clone(),
        Owner::Standard(owner.pk),
        Conditions::new().with(paid),
    ))?;
    StandardLayer::new(funder.pk).spend(sdk, funder.coin, SdkConditions::new())?;
    let mut spends = sdk_spends(&ctx.take());
    spends.extend(sdk.take());
    chain.sim.spend_coins(spends, &[owner.sk, funder.sk])?;

    let payment = Coin::new(did.coin.coin_id(), owner.puzzle_hash, 2);
    assert!(chain.sim.coin_state(payment.coin_id()).is_some());
    let result = prove_lineage(payment.coin_id(), &child, &chain);
    assert!(matches!(result, Err(DidError::NotASingleton)), "{result:?}");
    Ok(())
}

/// A coin that wears a DID's puzzle hash but was only paid to has no recreation behind it.
#[test]
fn a_coin_wearing_a_singleton_puzzle_hash_is_not_one() -> anyhow::Result<()> {
    let mut chain = Chain::new();
    let (_owner, states) = grown_did(&mut chain, 1)?;
    let did = &states[1];
    let attacker = chain.sim.bls(1);
    let sdk = &mut SdkContext::new();
    StandardLayer::new(attacker.pk).spend(
        sdk,
        attacker.coin,
        SdkConditions::new().create_coin(did.coin.puzzle_hash, 1, Memos::None),
    )?;
    chain.sim.spend_coins(sdk.take(), &[attacker.sk])?;
    let fake = Coin::new(attacker.coin.coin_id(), did.coin.puzzle_hash, 1);
    assert!(chain.sim.coin_state(fake.coin_id()).is_some());

    let result = prove_lineage(fake.coin_id(), did, &chain);
    assert!(matches!(result, Err(DidError::NotASingleton)), "{result:?}");
    Ok(())
}

/// A singleton launched by another coin authenticates, but is rooted only where that coin is a member
/// of the DID's lineage.
#[test]
fn a_foreign_singleton_is_rooted_by_membership_alone() -> anyhow::Result<()> {
    let mut chain = Chain::new();
    let (_owner, states) = grown_did(&mut chain, 1)?;
    let did = &states[1];

    let other = chain.sim.bls(1);
    let sdk = &mut SdkContext::new();
    let launcher = Launcher::new(other.coin.coin_id(), 1);
    let (conditions, foreign) =
        launcher.create_simple_did(sdk, &StandardLayer::new(other.pk))?;
    StandardLayer::new(other.pk).spend(sdk, other.coin, conditions)?;
    chain.sim.spend_coins(sdk.take(), &[other.sk])?;
    let coin_id = foreign.coin.coin_id();

    let result = prove_lineage(coin_id, did, &chain);
    assert!(matches!(result, Err(DidError::NotDidRooted)), "{result:?}");

    // The same singleton, where the DID's lineage holds the coin that created its launcher.
    let tip = did.coin.coin_id();
    chain.lineages.insert(
        did.info.launcher_id,
        SingletonLineage::new(tip, vec![other.coin.coin_id()]),
    );
    let proof = ok(prove_lineage(coin_id, did, &chain))?;
    assert_eq!(
        proof.model(),
        LineageModel::LaunchedFrom {
            launcher: foreign.info.launcher_id,
            did_parent: other.coin.coin_id(),
        }
    );
    assert_eq!(proof.authenticated_launcher(), foreign.info.launcher_id);
    assert_eq!(proof.did_launcher_id(), did.info.launcher_id);
    Ok(())
}

#[test]
fn a_did_without_a_lineage_proves_nothing() -> anyhow::Result<()> {
    let mut chain = Chain::new();
    let (_owner, states) = grown_did(&mut chain, 0)?;
    chain.lineages.clear();
    let did = &states[0];
    let result = prove_lineage(did.coin.coin_id(), did, &chain);
    assert!(matches!(result, Err(DidError::NoIdentitySingleton)));
    assert!(ok(walk_did_lineage_to_tip(&chain, did.info.launcher_id))?.is_none());
    assert!(ok(resolve_xch_address(&chain, did.info.launcher_id))?.is_none());
    Ok(())
}

#[test]
fn a_failed_read_is_never_an_answer() -> anyhow::Result<()> {
    let mut chain = Chain::new();
    let (_owner, states) = grown_did(&mut chain, 0)?;
    let did = &states[0];
    let coin_id = did.coin.coin_id();
    assert!(matches!(
        prove_lineage(coin_id, did, &Broken),
        Err(DidError::Chain(text)) if text == "no connection"
    ));
    assert!(matches!(
        authenticate_singleton(coin_id, &Broken),
        Err(DidError::Chain(text)) if text == "no connection"
    ));
    assert!(matches!(
        walk_did_lineage_to_tip(&Broken, did.info.launcher_id),
        Err(DidError::Chain(_))
    ));
    assert!(matches!(
        resolve_xch_address(&Broken, did.info.launcher_id),
        Err(DidError::Chain(_))
    ));
    Ok(())
}

/// A source that invents an endless lineage: the same genuine parent spend for every coin breaks the
/// structure at once, so the depth bound is met only by genuine chains.
#[test]
fn a_broken_step_ends_the_walk() -> anyhow::Result<()> {
    let mut chain = Chain::new();
    let (_owner, states) = grown_did(&mut chain, 1)?;
    assert_eq!(MAX_LINEAGE_DEPTH, 100_000);

    let start = |coin_id: Bytes32, expected_launcher: Option<Bytes32>| Walk {
        current: coin_id,
        expected_launcher,
        trail: vec![coin_id],
    };
    let child = states[1].coin.coin_id();
    let spend = chain
        .parent_spend(child)
        .expect("the chain is readable")
        .expect("the parent was spent");

    // The genuine step goes on to the parent.
    match ok(step(start(child, None), Ok(Some(spend.clone()))))? {
        WalkStep::Next(walk) => {
            assert_eq!(walk.current, spend.coin.coin_id());
            assert_eq!(walk.expected_launcher, Some(states[0].info.launcher_id));
            assert_eq!(walk.trail, vec![child, spend.coin.coin_id()]);
        }
        WalkStep::Done(_) => panic!("the parent is no launcher"),
    }
    // Another coin, another launcher, and no parent at all.
    let stranger = Bytes32::new([8; 32]);
    assert!(matches!(
        step(start(stranger, None), Ok(Some(spend.clone()))),
        Err(DidError::NotASingleton)
    ));
    assert!(matches!(
        step(start(child, Some(stranger)), Ok(Some(spend.clone()))),
        Err(DidError::NotASingleton)
    ));
    assert!(matches!(
        step(start(child, None), Ok(None)),
        Err(DidError::NotASingleton)
    ));
    // A singleton whose launcher has a foreign puzzle, and a solution that is no singleton's.
    let ctx = &mut SdkContext::new();
    let inner_puzzle = ctx.alloc(&spend.puzzle_reveal)?;
    let foreign = ctx.curry(SingletonArgs {
        singleton_struct: SingletonStruct {
            launcher_puzzle_hash: stranger,
            ..SingletonStruct::new(states[0].info.launcher_id)
        },
        inner_puzzle,
    })?;
    let mut foreign_launcher = spend.clone();
    foreign_launcher.puzzle_reveal = ctx.serialize(&foreign)?;
    assert!(matches!(
        step(start(child, None), Ok(Some(foreign_launcher))),
        Err(DidError::NotASingleton)
    ));
    let mut unsolved = spend.clone();
    unsolved.solution = vec![0x80].into();
    assert!(matches!(
        step(start(child, None), Ok(Some(unsolved))),
        Err(DidError::NotASingleton)
    ));
    // A torn puzzle.
    let mut torn = spend;
    torn.puzzle_reveal = vec![0xff].into();
    assert!(matches!(
        step(start(child, None), Ok(Some(torn))),
        Err(DidError::Parse(_))
    ));
    Ok(())
}

/// The launcher ends the walk, but only where it creates the coin and agrees with what was named.
#[test]
fn the_launcher_ends_the_walk() -> anyhow::Result<()> {
    let mut chain = Chain::new();
    let (_owner, states) = grown_did(&mut chain, 0)?;
    let launcher_id = states[0].info.launcher_id;
    let eve = states[0].coin.parent_coin_info;
    let spend = chain
        .parent_spend(eve)
        .expect("the chain is readable")
        .expect("the launcher was spent");
    let walk = |current: Bytes32, expected_launcher: Option<Bytes32>| Walk {
        current,
        expected_launcher,
        trail: vec![current],
    };
    match ok(step(walk(eve, Some(launcher_id)), Ok(Some(spend.clone()))))? {
        WalkStep::Done(lineage) => {
            assert_eq!(lineage.launcher_id(), launcher_id);
            assert_eq!(lineage.launcher_coin(), spend.coin);
            assert_eq!(lineage.trail(), vec![eve, launcher_id]);
        }
        WalkStep::Next(_) => panic!("the parent is the launcher"),
    }
    let stranger = Bytes32::new([8; 32]);
    assert!(matches!(
        step(walk(stranger, None), Ok(Some(spend.clone()))),
        Err(DidError::NotASingleton)
    ));
    assert!(matches!(
        step(walk(eve, Some(stranger)), Ok(Some(spend))),
        Err(DidError::NotASingleton)
    ));
    Ok(())
}

#[test]
fn the_tip_is_reconstructed_as_it_was_built() -> anyhow::Result<()> {
    let mut chain = Chain::new();
    let (owner, states) = grown_did(&mut chain, 2)?;
    let did = &states[2];
    let tip = ok(walk_did_lineage_to_tip(&chain, did.info.launcher_id))?
        .expect("the DID has a current coin");
    assert_eq!(tip.did(), *did);
    assert_eq!(tip.clone().did(), tip.did());

    // The reconstructed DID can be spent.
    let ctx = &mut SpendContext::new();
    let built = ok(melt(ctx, tip.did(), Owner::Standard(owner.pk)))?;
    chain
        .sim
        .spend_coins(sdk_spends(&built.coin_spends), &[owner.sk])?;
    Ok(())
}

/// A tip that the lineage names but that the parent does not create, and a tip whose parent is the
/// launcher, are refused.
#[test]
fn a_tip_that_is_no_recreated_did_is_refused() -> anyhow::Result<()> {
    let mut chain = Chain::new();
    let (owner, states) = grown_did(&mut chain, 0)?;
    let launcher_id = states[0].info.launcher_id;

    let eve = states[0].coin.parent_coin_info;
    chain
        .lineages
        .insert(launcher_id, SingletonLineage::single(eve));
    assert!(matches!(
        walk_did_lineage_to_tip(&chain, launcher_id),
        Err(DidError::NotDid)
    ));

    chain.lineages.insert(
        launcher_id,
        SingletonLineage::single(owner.coin.coin_id()),
    );
    assert!(matches!(
        walk_did_lineage_to_tip(&chain, launcher_id),
        Err(DidError::NoIdentitySingleton)
    ));
    Ok(())
}

#[test]
fn a_did_resolves_to_its_owners_address() -> anyhow::Result<()> {
    let mut chain = Chain::new();
    let (owner, states) = grown_did(&mut chain, 2)?;
    let launcher_id = states[2].info.launcher_id;
    let address = ok(resolve_xch_address(&chain, launcher_id))?.expect("the DID is live");
    assert_eq!(address.puzzle_hash, owner.puzzle_hash);
    assert_eq!(address.prefix, "xch");
    let text = address.encode().expect("xch is a prefix");
    assert!(text.starts_with("xch1"));

    let named =
        resolve_xch_address_from_did_string(&chain, &did_string_from_launcher_id(launcher_id));
    let named = ok(named)?.expect("the DID is live");
    assert_eq!(named.puzzle_hash, owner.puzzle_hash);
    assert!(matches!(
        resolve_xch_address_from_did_string(&chain, "did:chia:1nothing"),
        Err(DidError::InvalidDidString(_))
    ));
    Ok(())
}

/// A source that shows an attacker's tip for a victim's launcher resolves to nobody.
#[test]
fn a_tip_of_another_launcher_is_refused() -> anyhow::Result<()> {
    let mut chain = Chain::new();
    let (_victim, victims) = grown_did(&mut chain, 1)?;
    let (_attacker, attackers) = grown_did(&mut chain, 1)?;
    let victim_launcher = victims[1].info.launcher_id;
    let attacker_tip = attackers[1].coin.coin_id();
    chain
        .lineages
        .insert(victim_launcher, SingletonLineage::single(attacker_tip));

    let result = resolve_xch_address(&chain, victim_launcher);
    assert!(matches!(result, Err(DidError::LauncherMismatch)));

    let tip = ok(walk_did_lineage_to_tip(&chain, victim_launcher))?.expect("a tip was shown");
    let authenticated = ok(authenticate_singleton(attacker_tip, &chain))?;
    assert!(matches!(
        owner_address(&tip, &authenticated, &victim_launcher),
        Err(DidError::LauncherMismatch)
    ));
    assert!(owner_address(&tip, &authenticated, &attackers[1].info.launcher_id).is_ok());
    Ok(())
}

/// The model is decided by the launcher, then by membership in the DID's lineage, for any lineage.
#[test]
fn the_lineage_model_is_decided_by_launcher_and_membership() -> anyhow::Result<()> {
    let mut chain = Chain::new();
    let (_owner, states) = grown_did(&mut chain, 0)?;
    let coin_id = states[0].coin.coin_id();
    let walked = ok(authenticate_singleton(coin_id, &chain))?;
    let launcher = walked.launcher_id();
    let did_parent = walked.launcher_coin().parent_coin_info;
    let stranger = Bytes32::new([8; 32]);
    let empty = SingletonLineage::single(stranger);
    let member = SingletonLineage::new(stranger, vec![did_parent]);

    assert_eq!(
        ok(lineage_model(&launcher, &empty, &walked))?,
        LineageModel::Direct
    );
    assert_eq!(
        ok(lineage_model(&stranger, &member, &walked))?,
        LineageModel::LaunchedFrom {
            launcher,
            did_parent
        }
    );
    assert!(matches!(
        lineage_model(&stranger, &empty, &walked),
        Err(DidError::NotDidRooted)
    ));
    Ok(())
}

/// A lineage as long as a busy singleton's keeps its members apart, and each once.
#[test]
fn a_long_lineage_counts_each_member_once() {
    let id = |number: u32| {
        let mut bytes = [0; 32];
        bytes[..4].copy_from_slice(&number.wrapping_mul(0x9e37_79b1).to_be_bytes());
        Bytes32::new(bytes)
    };
    let mut members: Vec<Bytes32> = (0..20_000).map(id).collect();
    members.extend((0..20_000).map(id));
    let lineage = SingletonLineage::new(id(20_000), members);
    assert_eq!(lineage.len(), 20_001);
    assert!(lineage.contains(id(0)));
    assert!(lineage.contains(id(19_999)));
    assert!(lineage.contains(id(20_000)));
    assert!(!lineage.contains(id(20_001)));
}
