//! The authentication of singletons.
//!
//! A coin's puzzle hash is chosen by whoever pays to it, so a puzzle hash alone proves nothing. The
//! authentication walks the parent spends instead: each parent is parsed as a singleton, its inner
//! puzzle is run, and the successor that it creates has to be the child under authentication. The walk
//! ends at the launcher coin, which yields an authenticated launcher id. Every gap and every failed
//! read fails closed.
use vstd::prelude::*;

use chia_protocol::{Bytes32, Program};

use crate::bytes::same_hash;
use crate::chain::{ChainSource, MAX_LINEAGE_DEPTH};
use crate::clvm::{run, CreatedCoin};
use crate::driver::{
    launcher_hash, read_singleton_puzzle, read_singleton_solution, singleton_hash, SingletonPuzzle,
};
use crate::error::{DidError, DidResult};
use crate::hydrate::check_spend;
use crate::types::{Coin, CoinSpend};

#[allow(unused_imports)]
use crate::bytes::{hash_bytes, optional_hash_bytes, program_bytes};
#[allow(unused_imports)]
use crate::chain::all_hash_bytes;
#[allow(unused_imports)]
use crate::clvm::{clvm_fault, created_views, emitted, CreatedCoinView};
#[allow(unused_imports)]
use crate::driver::{
    coin_id_of, coins_created, coins_of, first_odd, launcher_puzzle_hash, singleton_emits, singleton_puzzle_hash, singleton_puzzle_in,
    singleton_solution_in, SingletonPuzzleView,
};
#[allow(unused_imports)]
use crate::error::{outcome, Fault};
#[allow(unused_imports)]
use crate::hydrate::spend_fault;
#[allow(unused_imports)]
use crate::types::{CoinSpendView, CoinView};

verus! {

/// What a [`ChainSource`] answers when it is asked for a coin's parent spend.
pub type ParentReply = Result<Option<CoinSpendView>, Seq<char>>;

/// The [`ParentReply`] of what [`ChainSource::parent_spend`] returns.
pub open spec fn parent_reply(reply: Result<Option<CoinSpend>, String>) -> ParentReply {
    match reply {
        Ok(Some(spend)) => Ok(Some(spend@)),
        Ok(None) => Ok(None),
        Err(text) => Err(text@),
    }
}

/// The singleton that a parent of the layer `layer` creates with `solution`: the first coin of odd
/// amount that its inner puzzle creates, wrapped in the singleton puzzle of its launcher. The puzzle
/// hash is computed, never read from a field that an attacker chooses. `None` where there is no such
/// coin.
pub open spec fn successor_of(
    parent: CoinView,
    layer: SingletonPuzzleView,
    solution: Seq<u8>,
) -> Result<Option<CoinView>, Fault> {
    match singleton_solution_in(solution) {
        Err(text) => Err(Fault::Driver(text)),
        Ok(inner_solution) => match emitted(layer.inner_puzzle, inner_solution) {
            Err(text) => Err(Fault::Parse(text)),
            Ok(created) => match first_odd(created) {
                None => Ok(None),
                Some(coin) => Ok(
                    Some(
                        CoinView {
                            parent_coin_info: parent.id(),
                            puzzle_hash: singleton_puzzle_hash(layer.launcher_id, coin.puzzle_hash),
                            amount: coin.amount,
                        },
                    ),
                ),
            },
        },
    }
}

/// Whether a launcher that creates `created` creates the coin `eve_id`. A launcher's `CREATE_COIN`
/// holds the whole puzzle hash of the coin.
pub open spec fn creates_eve(
    launcher: CoinView,
    created: Seq<Option<CreatedCoinView>>,
    eve_id: Seq<u8>,
) -> bool {
    exists|i: int|
        0 <= i < created.len() && (#[trigger] created[i] matches Some(coin) && CoinView {
            parent_coin_info: launcher.id(),
            puzzle_hash: coin.puzzle_hash,
            amount: coin.amount,
        }.id() == eve_id)
}

/// How far a walk has come: the coin whose parent is asked for next, the launcher that every singleton
/// on the way has named, and the coins walked so far.
#[derive(Debug)]
pub struct Walk {
    /// The coin whose parent spend is read next.
    pub current: Bytes32,
    /// The launcher id that each singleton parent so far agrees on.
    pub expected_launcher: Option<Bytes32>,
    /// The coins from the one under proof to `current`.
    pub trail: Vec<Bytes32>,
}

/// A [`Walk`] with its ids as bytes.
#[verifier::ext_equal]
pub struct WalkView {
    pub current: Seq<u8>,
    pub expected_launcher: Option<Seq<u8>>,
    pub trail: Seq<Seq<u8>>,
}

impl View for Walk {
    type V = WalkView;

    open spec fn view(&self) -> WalkView {
        WalkView {
            current: hash_bytes(self.current),
            expected_launcher: optional_hash_bytes(self.expected_launcher),
            trail: all_hash_bytes(self.trail@),
        }
    }
}

impl WalkView {
    /// A walk that starts at `coin_id`.
    pub open spec fn from_coin(coin_id: Seq<u8>) -> WalkView {
        WalkView { current: coin_id, expected_launcher: None, trail: seq![coin_id] }
    }

    /// Whether `launcher_id` agrees with the launcher named so far.
    pub open spec fn agrees(self, launcher_id: Seq<u8>) -> bool {
        match self.expected_launcher {
            Some(expected) => expected == launcher_id,
            None => true,
        }
    }
}

/// The launcher that a coin provably descends from. Its fields are private: only the last step of a
/// walk gives one.
#[derive(Debug)]
pub struct AuthenticatedLineage {
    launcher_id: Bytes32,
    launcher_coin: Coin,
    trail: Vec<Bytes32>,
}

/// An [`AuthenticatedLineage`] with everything in it as bytes.
#[verifier::ext_equal]
pub struct AuthenticatedLineageView {
    pub launcher_id: Seq<u8>,
    pub launcher_coin: CoinView,
    pub trail: Seq<Seq<u8>>,
}

impl View for AuthenticatedLineage {
    type V = AuthenticatedLineageView;

    closed spec fn view(&self) -> AuthenticatedLineageView {
        AuthenticatedLineageView {
            launcher_id: hash_bytes(self.launcher_id),
            launcher_coin: self.launcher_coin@,
            trail: all_hash_bytes(self.trail@),
        }
    }
}

impl AuthenticatedLineage {
    /// The launcher id.
    pub fn launcher_id(&self) -> (id: Bytes32)
        ensures
            hash_bytes(id) == self@.launcher_id,
    {
        self.launcher_id
    }

    /// The launcher coin. Its parent is the coin that created the launcher.
    pub fn launcher_coin(&self) -> (coin: Coin)
        ensures
            coin@ == self@.launcher_coin,
    {
        self.launcher_coin
    }

    /// The coins walked, from the one under proof to the launcher, both included.
    pub fn trail(&self) -> (ids: &[Bytes32])
        ensures
            all_hash_bytes(ids@) == self@.trail,
    {
        self.trail.as_slice()
    }

    /// The coins walked, as a list of its own.
    pub(crate) fn into_trail(self) -> (ids: Vec<Bytes32>)
        ensures
            all_hash_bytes(ids@) == self@.trail,
    {
        self.trail
    }
}

/// What one step of a walk comes to.
#[derive(Debug)]
pub enum WalkStep {
    /// The parent is a singleton: the walk goes on from it.
    Next(Walk),
    /// The parent is the launcher: the walk is over.
    Done(AuthenticatedLineage),
}

/// A [`WalkStep`] with everything in it as bytes.
#[verifier::ext_equal]
pub enum WalkStepView {
    Next(WalkView),
    Done(AuthenticatedLineageView),
}

impl View for WalkStep {
    type V = WalkStepView;

    open spec fn view(&self) -> WalkStepView {
        match *self {
            WalkStep::Next(walk) => WalkStepView::Next(walk@),
            WalkStep::Done(lineage) => WalkStepView::Done(lineage@),
        }
    }
}

/// The step of a walk from a coin to its parent, whose spend is `spend`. A parent that is neither the
/// launcher nor a singleton is no step, and nor is one whose puzzle or solution the singleton layer
/// refuses.
pub open spec fn step_to_parent(walk: WalkView, spend: CoinSpendView) -> Result<
    WalkStepView,
    Fault,
> {
    let parent = spend.coin;
    match spend_fault(spend.puzzle_reveal, spend.solution) {
        Some(fault) => Err(fault),
        None => if parent.puzzle_hash == launcher_puzzle_hash() {
            if !walk.agrees(parent.id()) {
                Err(Fault::NotASingleton)
            } else {
                match emitted(spend.puzzle_reveal, spend.solution) {
                    Err(text) => Err(Fault::Parse(text)),
                    Ok(created) => if creates_eve(parent, created, walk.current) {
                        Ok(
                            WalkStepView::Done(
                                AuthenticatedLineageView {
                                    launcher_id: parent.id(),
                                    launcher_coin: parent,
                                    trail: walk.trail.push(parent.id()),
                                },
                            ),
                        )
                    } else {
                        Err(Fault::NotASingleton)
                    },
                }
            }
        } else {
            match singleton_puzzle_in(spend.puzzle_reveal) {
                Err(_) => Err(Fault::NotASingleton),
                Ok(None) => Err(Fault::NotASingleton),
                Ok(Some(layer)) => if !walk.agrees(layer.launcher_id) {
                    Err(Fault::NotASingleton)
                } else {
                    match successor_of(parent, layer, spend.solution) {
                        Err(Fault::Driver(_)) => Err(Fault::NotASingleton),
                        Err(fault) => Err(fault),
                        Ok(None) => Err(Fault::NotASingleton),
                        Ok(Some(successor)) => if successor.id() != walk.current {
                            Err(Fault::NotASingleton)
                        } else {
                            Ok(
                                WalkStepView::Next(
                                    WalkView {
                                        current: parent.id(),
                                        expected_launcher: Some(layer.launcher_id),
                                        trail: walk.trail.push(parent.id()),
                                    },
                                ),
                            )
                        },
                    }
                },
            }
        },
    }
}

/// The step of a walk that a source's reply leads to. A failed read is an error of its own, and a
/// parent that is not known breaks the structure.
pub open spec fn walk_step(walk: WalkView, reply: ParentReply) -> Result<WalkStepView, Fault> {
    match reply {
        Err(text) => Err(Fault::Chain(text)),
        Ok(None) => Err(Fault::NotASingleton),
        Ok(Some(spend)) => step_to_parent(walk, spend),
    }
}

/// What a walk comes to when its source replies as in `replies` and `hops` more steps are allowed, or
/// `None` where the replies do not reach that far.
pub open spec fn walking(walk: WalkView, replies: Seq<ParentReply>, hops: nat) -> Option<
    Result<AuthenticatedLineageView, Fault>,
>
    decreases hops,
{
    if hops == 0 {
        Some(Err(Fault::LineageTooDeep))
    } else if replies.len() == 0 {
        None
    } else {
        match walk_step(walk, replies[0]) {
            Err(fault) => Some(Err(fault)),
            Ok(WalkStepView::Done(lineage)) => Some(Ok(lineage)),
            Ok(WalkStepView::Next(next)) => walking(next, replies.drop_first(), (hops - 1) as nat),
        }
    }
}

/// Whether `source` may reply so when it is asked for the parent spend of `coin_id`.
pub open spec fn may_reply<S: ChainSource>(
    source: &S,
    coin_id: Seq<u8>,
    reply: ParentReply,
) -> bool {
    exists|id: Bytes32, answer: Result<Option<CoinSpend>, String>|
        hash_bytes(id) == coin_id && parent_reply(answer) == reply && #[trigger] call_ensures(
            S::parent_spend,
            (source, id),
            answer,
        )
}

/// Whether `source` may reply as in `replies` to the questions of a walk, each of which asks for the
/// parent of the coin that the reply before it led to.
pub open spec fn may_reply_along<S: ChainSource>(
    source: &S,
    walk: WalkView,
    replies: Seq<ParentReply>,
) -> bool
    decreases replies.len(),
{
    replies.len() > 0 ==> {
        &&& may_reply(source, walk.current, replies[0])
        &&& walk_step(walk, replies[0]) matches Ok(WalkStepView::Next(next)) ==> may_reply_along(
            source,
            next,
            replies.drop_first(),
        )
    }
}

/// Whether `found` is what a walk from `coin_id` comes to when `source` answers its questions.
pub open spec fn authenticates<S: ChainSource>(
    source: &S,
    coin_id: Seq<u8>,
    found: Result<AuthenticatedLineageView, Fault>,
) -> bool {
    exists|replies: Seq<ParentReply>|
        may_reply_along(source, WalkView::from_coin(coin_id), replies) && #[trigger] walking(
            WalkView::from_coin(coin_id),
            replies,
            MAX_LINEAGE_DEPTH as nat,
        ) == Some(found)
}

/// Reconstructs the exact successor coin that `parent` creates: runs its inner puzzle and wraps the
/// first coin of odd amount in the singleton puzzle. `None` where it creates none.
pub fn singleton_successor(parent: &Coin, layer: &SingletonPuzzle, solution: &Program) -> (successor:
    DidResult<Option<Coin>>)
    ensures
        (match successor {
            Ok(Some(coin)) => Ok(Some(coin@)),
            Ok(None) => Ok(None),
            Err(error) => Err(error@),
        }) == successor_of(parent@, layer@, program_bytes(*solution)),
{
    let inner_solution = match read_singleton_solution(solution) {
        Ok(inner_solution) => inner_solution,
        Err(error) => {
            return Err(DidError::Driver(error));
        },
    };
    let created = match run(&layer.inner_puzzle, &inner_solution) {
        Ok(created) => created,
        Err(text) => {
            return Err(DidError::Parse(text));
        },
    };
    match first_odd_coin(&created) {
        None => Ok(None),
        Some(coin) => Ok(
            Some(
                Coin {
                    parent_coin_info: parent.coin_id(),
                    puzzle_hash: singleton_hash(&layer.launcher_id, &coin.puzzle_hash),
                    amount: coin.amount,
                },
            ),
        ),
    }
}

/// The first coin of odd amount in `created`.
fn first_odd_coin(created: &Vec<Option<CreatedCoin>>) -> (first: Option<CreatedCoin>)
    ensures
        (match first {
            Some(coin) => Some(coin@),
            None => None,
        }) == first_odd(created_views(created@)),
{
    let ghost all = created_views(created@);
    let mut index: usize = 0;
    assert(all.skip(0) =~= all);
    while index < created.len()
        invariant
            index <= created@.len(),
            all == created_views(created@),
            first_odd(all) == first_odd(all.skip(index as int)),
        decreases created@.len() - index,
    {
        let ghost rest = all.skip(index as int);
        assert(rest[0] == all[index as int]);
        assert(rest.drop_first() =~= all.skip(index as int + 1));
        if let Some(coin) = created[index] {
            if coin.amount % 2 == 1 {
                return Some(coin);
            }
        }
        index = index + 1;
    }
    None
}

/// Whether the launcher's spend creates exactly the coin `eve_id`: the coin is reconstructed and its id
/// compared, which binds it to a genuine launcher spend.
pub fn launcher_creates(
    launcher: &Coin,
    launcher_puzzle: &Program,
    launcher_solution: &Program,
    eve_id: &Bytes32,
) -> (creates: DidResult<bool>)
    ensures
        (match creates {
            Ok(creates) => Ok(creates),
            Err(error) => Err(error@),
        }) == (match emitted(program_bytes(*launcher_puzzle), program_bytes(*launcher_solution)) {
            Ok(created) => Ok(creates_eve(launcher@, created, hash_bytes(*eve_id))),
            Err(text) => Err(Fault::Parse(text)),
        }),
{
    let created = match run(launcher_puzzle, launcher_solution) {
        Ok(created) => created,
        Err(text) => {
            return Err(DidError::Parse(text));
        },
    };
    let ghost all = created_views(created@);
    let launcher_id = launcher.coin_id();
    let mut index: usize = 0;
    while index < created.len()
        invariant
            index <= created@.len(),
            all == created_views(created@),
            emitted(program_bytes(*launcher_puzzle), program_bytes(*launcher_solution)) == Ok::<
                Seq<Option<CreatedCoinView>>,
                Seq<char>,
            >(all),
            hash_bytes(launcher_id) == launcher@.id(),
            forall|i: int|
                0 <= i < index ==> !(#[trigger] all[i] matches Some(coin) && CoinView {
                    parent_coin_info: launcher@.id(),
                    puzzle_hash: coin.puzzle_hash,
                    amount: coin.amount,
                }.id() == hash_bytes(*eve_id)),
        decreases created@.len() - index,
    {
        assert(all[index as int] == (match created@[index as int] {
            Some(coin) => Some(coin@),
            None => None,
        }));
        if let Some(coin) = created[index] {
            let eve = Coin {
                parent_coin_info: launcher_id,
                puzzle_hash: coin.puzzle_hash,
                amount: coin.amount,
            };
            if same_hash(&eve.coin_id(), eve_id) {
                return Ok(true);
            }
        }
        index = index + 1;
    }
    Ok(false)
}

/// Takes the step of a walk that the source's reply leads to: the whole of the trust logic, for any
/// reply.
pub fn step(walk: Walk, reply: Result<Option<CoinSpend>, String>) -> (stepped: DidResult<WalkStep>)
    ensures
        outcome(stepped) == walk_step(walk@, parent_reply(reply)),
{
    let spend = match reply {
        Ok(Some(spend)) => spend,
        Ok(None) => {
            return Err(DidError::NotASingleton);
        },
        Err(text) => {
            return Err(DidError::Chain(text));
        },
    };
    let parent = spend.coin;
    match check_spend(&spend.puzzle_reveal, &spend.solution) {
        Ok(_) => {},
        Err(error) => {
            return Err(error);
        },
    }
    let parent_id = parent.coin_id();
    if same_hash(&parent.puzzle_hash, &launcher_hash()) {
        // The parent is the launcher, so the current coin is the singleton's first.
        if let Some(expected) = walk.expected_launcher {
            if !same_hash(&expected, &parent_id) {
                return Err(DidError::NotASingleton);
            }
        }
        return match launcher_creates(
            &parent,
            &spend.puzzle_reveal,
            &spend.solution,
            &walk.current,
        ) {
            Err(error) => Err(error),
            Ok(false) => Err(DidError::NotASingleton),
            Ok(true) => {
                let trail = extended(walk.trail, parent_id);
                Ok(
                    WalkStep::Done(
                        AuthenticatedLineage { launcher_id: parent_id, launcher_coin: parent, trail },
                    ),
                )
            },
        };
    }
    // Otherwise the parent has to be a singleton itself, which recreates the current coin.
    let layer = match read_singleton_puzzle(&spend.puzzle_reveal) {
        Ok(Some(layer)) => layer,
        Ok(None) | Err(_) => {
            return Err(DidError::NotASingleton);
        },
    };
    if let Some(expected) = walk.expected_launcher {
        if !same_hash(&expected, &layer.launcher_id) {
            return Err(DidError::NotASingleton);
        }
    }
    let successor = match singleton_successor(&parent, &layer, &spend.solution) {
        Ok(Some(successor)) => successor,
        Ok(None) | Err(DidError::Driver(_)) => {
            return Err(DidError::NotASingleton);
        },
        Err(error) => {
            return Err(error);
        },
    };
    if !same_hash(&successor.coin_id(), &walk.current) {
        return Err(DidError::NotASingleton);
    }
    let trail = extended(walk.trail, parent_id);
    Ok(
        WalkStep::Next(
            Walk { current: parent_id, expected_launcher: Some(layer.launcher_id), trail },
        ),
    )
}

/// `trail` with `coin_id` at its end.
fn extended(trail: Vec<Bytes32>, coin_id: Bytes32) -> (longer: Vec<Bytes32>)
    ensures
        all_hash_bytes(longer@) == all_hash_bytes(trail@).push(hash_bytes(coin_id)),
{
    let mut longer = trail;
    longer.push(coin_id);
    assert(all_hash_bytes(longer@) =~= all_hash_bytes(trail@).push(hash_bytes(coin_id)));
    longer
}

/// Authenticates `coin_id` as a genuine singleton by walking its parent spends to the launcher.
///
/// # Errors
///
/// [`DidError::NotASingleton`] on any break in the singleton structure, [`DidError::LineageTooDeep`]
/// past [`MAX_LINEAGE_DEPTH`], [`DidError::Chain`] for a failed read, [`DidError::Parse`] for a spend
/// that is no CLVM tree or does not run.
pub fn authenticate_singleton<S: ChainSource>(coin_id: Bytes32, source: &S) -> (authenticated:
    DidResult<AuthenticatedLineage>)
    ensures
        authenticates(source, hash_bytes(coin_id), outcome(authenticated)),
{
    let mut trail: Vec<Bytes32> = Vec::new();
    trail.push(coin_id);
    let mut walk = Walk { current: coin_id, expected_launcher: None, trail };
    let ghost start = walk@;
    let ghost mut replies: Seq<ParentReply> = Seq::empty();
    assert(start =~= WalkView::from_coin(hash_bytes(coin_id)));
    let mut hop: usize = 0;
    proof {
        assert forall|rest: Seq<ParentReply>| #[trigger]
            (replies + rest) == rest by {
            assert(replies + rest =~= rest);
        }
    }
    while hop < MAX_LINEAGE_DEPTH
        invariant
            hop <= MAX_LINEAGE_DEPTH,
            start == WalkView::from_coin(hash_bytes(coin_id)),
            forall|rest: Seq<ParentReply>|
                walking(start, #[trigger] (replies + rest), MAX_LINEAGE_DEPTH as nat) == walking(
                    walk@,
                    rest,
                    (MAX_LINEAGE_DEPTH - hop) as nat,
                ),
            forall|rest: Seq<ParentReply>|
                may_reply_along(source, walk@, rest) ==> may_reply_along(
                    source,
                    start,
                    #[trigger] (replies + rest),
                ),
        decreases MAX_LINEAGE_DEPTH - hop,
    {
        let ghost before = walk@;
        let reply = source.parent_spend(walk.current);
        let ghost answer = parent_reply(reply);
        assert(may_reply(source, before.current, answer));
        let ghost last = seq![answer];
        let stepped = step(walk, reply);
        proof {
            // What the walk comes to if it ends here.
            assert(last.drop_first() =~= Seq::<ParentReply>::empty());
            assert(walking(start, replies + last, MAX_LINEAGE_DEPTH as nat) == walking(
                before,
                last,
                (MAX_LINEAGE_DEPTH - hop) as nat,
            ));
            if !(walk_step(before, answer) matches Ok(WalkStepView::Next(_))) {
                assert(may_reply_along(source, before, last));
                assert(may_reply_along(source, start, replies + last));
            }
        }
        match stepped {
            Err(error) => {
                return Err(error);
            },
            Ok(WalkStep::Done(lineage)) => {
                return Ok(lineage);
            },
            Ok(WalkStep::Next(next)) => {
                proof {
                    let so_far = replies.push(answer);
                    assert forall|rest: Seq<ParentReply>|
                        walking(start, #[trigger] (so_far + rest), MAX_LINEAGE_DEPTH as nat)
                            == walking(next@, rest, (MAX_LINEAGE_DEPTH - hop - 1) as nat) by {
                        let more = last + rest;
                        assert(so_far + rest =~= replies + more);
                        assert(more.drop_first() =~= rest);
                    }
                    assert forall|rest: Seq<ParentReply>|
                        may_reply_along(source, next@, rest) implies may_reply_along(
                        source,
                        start,
                        #[trigger] (so_far + rest),
                    ) by {
                        let more = last + rest;
                        assert(so_far + rest =~= replies + more);
                        assert(more.drop_first() =~= rest);
                        assert(may_reply_along(source, before, more));
                    }
                    replies = so_far;
                }
                walk = next;
            },
        }
        hop = hop + 1;
    }
    proof {
        let none = Seq::<ParentReply>::empty();
        assert(may_reply_along(source, walk@, none));
        assert(may_reply_along(source, start, replies + none));
        assert(walking(start, replies + none, MAX_LINEAGE_DEPTH as nat) == Some(
            Err::<AuthenticatedLineageView, Fault>(Fault::LineageTooDeep),
        ));
    }
    Err(DidError::LineageTooDeep)
}

/// Whether `spend` is that of a singleton of `launcher_id`, not of a launcher, which recreates the
/// singleton as `child_id`.
pub open spec fn recreates_coin(
    spend: CoinSpendView,
    launcher_id: Seq<u8>,
    child_id: Seq<u8>,
) -> bool {
    &&& spend_fault(spend.puzzle_reveal, spend.solution) is None
    &&& spend.coin.puzzle_hash != launcher_puzzle_hash()
    &&& singleton_puzzle_in(spend.puzzle_reveal) matches Ok(Some(layer))
    &&& layer.launcher_id == launcher_id
    &&& successor_of(spend.coin, layer, spend.solution) matches Ok(Some(successor))
    &&& successor.id() == child_id
}

/// Whether `spend` is that of a launcher which creates `eve_id`.
pub open spec fn launches_coin(spend: CoinSpendView, eve_id: Seq<u8>) -> bool {
    &&& spend_fault(spend.puzzle_reveal, spend.solution) is None
    &&& spend.coin.puzzle_hash == launcher_puzzle_hash()
    &&& emitted(spend.puzzle_reveal, spend.solution) matches Ok(created)
    &&& creates_eve(spend.coin, created, eve_id)
}

/// Whether `spend` is that of a singleton of `launcher_id` whose successor is the coin `child`.
pub open spec fn recreates_as(spend: CoinSpendView, launcher_id: Seq<u8>, child: CoinView) -> bool {
    &&& spend_fault(spend.puzzle_reveal, spend.solution) is None
    &&& singleton_puzzle_in(spend.puzzle_reveal) matches Ok(Some(layer))
    &&& layer.launcher_id == launcher_id
    &&& successor_of(spend.coin, layer, spend.solution) == Ok::<Option<CoinView>, Fault>(
        Some(child),
    )
}

/// Whether a walk can run `spend` as that of a singleton: its coin does not pass for a launcher, and its
/// inner puzzle runs.
pub open spec fn runs_as_singleton(spend: CoinSpendView) -> bool {
    &&& spend.coin.puzzle_hash != launcher_puzzle_hash()
    &&& singleton_emits(spend.puzzle_reveal, spend.solution) is Some
}

/// The ids of the coins that `spends` are of.
pub open spec fn spent_ids(spends: Seq<CoinSpendView>) -> Seq<Seq<u8>> {
    spends.map_values(|spend: CoinSpendView| spend.coin.id())
}

/// Whether `spends` are the genuine lineage of `coin_id`, from its parent to its launcher: each coin is
/// recreated by a singleton of that one launcher, and the first is created by the launcher itself.
pub open spec fn is_genuine(coin_id: Seq<u8>, spends: Seq<CoinSpendView>) -> bool {
    let ids = seq![coin_id] + spent_ids(spends);
    &&& spends.len() > 0
    &&& launches_coin(spends.last(), ids[spends.len() - 1])
    &&& forall|i: int|
        0 <= i < spends.len() - 1 ==> recreates_coin(
            #[trigger] spends[i],
            spends.last().coin.id(),
            ids[i],
        )
}

/// What a walk along a genuine lineage reports.
pub open spec fn report_of(
    trail: Seq<Seq<u8>>,
    spends: Seq<CoinSpendView>,
) -> AuthenticatedLineageView {
    AuthenticatedLineageView {
        launcher_id: spends.last().coin.id(),
        launcher_coin: spends.last().coin,
        trail: trail + spent_ids(spends),
    }
}

/// The replies of a source that knows `spends`.
pub open spec fn known_replies(spends: Seq<CoinSpendView>) -> Seq<ParentReply> {
    spends.map_values(|spend: CoinSpendView| -> ParentReply { Ok(Some(spend)) })
}

/// A lineage grows by one spend: a coin that a singleton of the same launcher recreates from a coin with
/// a genuine lineage has a genuine lineage, longer by that spend, and there is no other way to one.
pub proof fn lineages_grow_by_one_spend(
    coin_id: Seq<u8>,
    spend: CoinSpendView,
    spends: Seq<CoinSpendView>,
)
    requires
        spends.len() > 0,
    ensures
        is_genuine(coin_id, seq![spend] + spends) <==> {
            &&& recreates_coin(spend, spends.last().coin.id(), coin_id)
            &&& is_genuine(spend.coin.id(), spends)
        },
{
    let all = seq![spend] + spends;
    let ids = seq![coin_id] + spent_ids(all);
    let rest_ids = seq![spend.coin.id()] + spent_ids(spends);
    assert(all.last() == spends.last());
    assert forall|i: int| 0 <= i < rest_ids.len() implies rest_ids[i] == #[trigger] ids[i + 1] by {
        if i > 0 {
            assert(all[i] == spends[i - 1]);
        }
    }
    assert(rest_ids[spends.len() - 1] == ids[spends.len() - 1 + 1]);
    if is_genuine(coin_id, all) {
        assert(recreates_coin(all[0], all.last().coin.id(), ids[0]));
        assert forall|i: int| 0 <= i < spends.len() - 1 implies recreates_coin(
            #[trigger] spends[i],
            spends.last().coin.id(),
            rest_ids[i],
        ) by {
            assert(all[i + 1] == spends[i]);
            assert(rest_ids[i] == ids[i + 1]);
        }
    }
    if recreates_coin(spend, spends.last().coin.id(), coin_id) && is_genuine(
        spend.coin.id(),
        spends,
    ) {
        assert forall|i: int| 0 <= i < all.len() - 1 implies recreates_coin(
            #[trigger] all[i],
            all.last().coin.id(),
            ids[i],
        ) by {
            if i > 0 {
                assert(all[i] == spends[i - 1]);
                assert(rest_ids[i - 1] == ids[i]);
            }
        }
    }
}

/// A walk that succeeds has followed a genuine lineage.
proof fn lemma_walk_is_sound(walk: WalkView, replies: Seq<ParentReply>, hops: nat) -> (spends: Seq<
    CoinSpendView,
>)
    requires
        walking(walk, replies, hops) matches Some(Ok(_)),
    ensures
        is_genuine(walk.current, spends),
        walk.agrees(spends.last().coin.id()),
        walking(walk, replies, hops) == Some(
            Ok::<AuthenticatedLineageView, Fault>(report_of(walk.trail, spends)),
        ),
        spends.len() <= hops,
        spends.len() <= replies.len(),
        known_replies(spends) == replies.take(spends.len() as int),
    decreases hops,
{
    let spend = replies[0]->Ok_0->Some_0;
    match walk_step(walk, replies[0]) {
        Ok(WalkStepView::Next(next)) => {
            let rest = lemma_walk_is_sound(next, replies.drop_first(), (hops - 1) as nat);
            let spends = seq![spend] + rest;
            lineages_grow_by_one_spend(walk.current, spend, rest);
            assert(spends.last() == rest.last());
            assert(next.trail + spent_ids(rest) =~= walk.trail + spent_ids(spends));
            assert(known_replies(spends) =~= replies.take(spends.len() as int)) by {
                assert forall|i: int| 0 <= i < spends.len() implies known_replies(spends)[i]
                    == #[trigger] replies[i] by {
                    if i > 0 {
                        assert(known_replies(rest)[i - 1] == replies.drop_first()[i - 1]);
                    }
                }
            }
            spends
        },
        _ => {
            let spends = seq![spend];
            assert(spent_ids(spends) =~= seq![spend.coin.id()]);
            assert(walk.trail.push(spend.coin.id()) =~= walk.trail + spent_ids(spends));
            assert(known_replies(spends) =~= replies.take(1));
            spends
        },
    }
}

/// Along a walk that succeeds, each reply answers the question for the parent of the coin before it.
proof fn lemma_replies_follow_the_trail<S: ChainSource>(
    source: &S,
    walk: WalkView,
    replies: Seq<ParentReply>,
    spends: Seq<CoinSpendView>,
)
    requires
        may_reply_along(source, walk, replies),
        is_genuine(walk.current, spends),
        walk.agrees(spends.last().coin.id()),
        spends.len() <= replies.len(),
        known_replies(spends) == replies.take(spends.len() as int),
    ensures
        forall|i: int|
            0 <= i < spends.len() ==> may_reply(
                source,
                (seq![walk.current] + spent_ids(spends))[i],
                Ok(Some(#[trigger] spends[i])),
            ),
    decreases spends.len(),
{
    let spend = spends[0];
    let ids = seq![walk.current] + spent_ids(spends);
    assert(known_replies(spends)[0] == replies.take(spends.len() as int)[0]);
    assert(replies[0] == Ok::<Option<CoinSpendView>, Seq<char>>(Some(spend)));
    if spends.len() > 1 {
        let rest = spends.drop_first();
        let rest_ids = seq![spend.coin.id()] + spent_ids(rest);
        assert(spends =~= seq![spend] + rest);
        lineages_grow_by_one_spend(walk.current, spend, rest);
        let next = WalkView {
            current: spend.coin.id(),
            expected_launcher: Some(rest.last().coin.id()),
            trail: walk.trail.push(spend.coin.id()),
        };
        assert(walk_step(walk, replies[0]) == Ok::<WalkStepView, Fault>(WalkStepView::Next(next)));
        let others = replies.drop_first();
        assert(known_replies(rest) =~= others.take(rest.len() as int)) by {
            assert forall|i: int| 0 <= i < rest.len() implies known_replies(rest)[i]
                == #[trigger] others[i] by {
                assert(known_replies(spends)[i + 1] == replies.take(spends.len() as int)[i + 1]);
            }
        }
        lemma_replies_follow_the_trail(source, next, others, rest);
        assert forall|i: int| 0 <= i < spends.len() implies may_reply(
            source,
            ids[i],
            Ok(Some(#[trigger] spends[i])),
        ) by {
            if i > 0 {
                assert(spends[i] == rest[i - 1]);
                assert(rest_ids[i - 1] == ids[i]) by {
                    if i > 1 {
                        assert(rest[i - 2] == spends[i - 1]);
                    }
                }
            }
        }
    }
}

/// A walk along a genuine lineage succeeds.
proof fn lemma_walk_is_complete(walk: WalkView, spends: Seq<CoinSpendView>, hops: nat)
    requires
        is_genuine(walk.current, spends),
        walk.agrees(spends.last().coin.id()),
        spends.len() <= hops,
    ensures
        walking(walk, known_replies(spends), hops) == Some(
            Ok::<AuthenticatedLineageView, Fault>(report_of(walk.trail, spends)),
        ),
    decreases spends.len(),
{
    let spend = spends[0];
    let replies = known_replies(spends);
    let ids = seq![walk.current] + spent_ids(spends);
    assert(replies[0] == Ok::<Option<CoinSpendView>, Seq<char>>(Some(spend)));
    assert(ids[0] == walk.current);
    if spends.len() == 1 {
        assert(spent_ids(spends) =~= seq![spend.coin.id()]);
        assert(walk.trail.push(spend.coin.id()) =~= walk.trail + spent_ids(spends));
    } else {
        let rest = spends.drop_first();
        assert(spends =~= seq![spend] + rest);
        lineages_grow_by_one_spend(walk.current, spend, rest);
        let launcher_id = rest.last().coin.id();
        let next = WalkView {
            current: spend.coin.id(),
            expected_launcher: Some(launcher_id),
            trail: walk.trail.push(spend.coin.id()),
        };
        assert(walk_step(walk, replies[0]) == Ok::<WalkStepView, Fault>(WalkStepView::Next(next)));
        assert(replies.drop_first() =~= known_replies(rest));
        lemma_walk_is_complete(next, rest, (hops - 1) as nat);
        assert(next.trail + spent_ids(rest) =~= walk.trail + spent_ids(spends));
    }
}

/// A coin authenticates exactly along a genuine lineage. Where a walk over `replies` succeeds, the
/// replies begin with the spends of a genuine lineage of the coin, no deeper than the bound, and the
/// walk reports that lineage: its launcher, and the trail from the coin to the launcher.
pub proof fn authentication_is_sound(coin_id: Seq<u8>, replies: Seq<ParentReply>) -> (spends: Seq<
    CoinSpendView,
>)
    requires
        walking(WalkView::from_coin(coin_id), replies, MAX_LINEAGE_DEPTH as nat) matches Some(Ok(_)),
    ensures
        is_genuine(coin_id, spends),
        walking(WalkView::from_coin(coin_id), replies, MAX_LINEAGE_DEPTH as nat) == Some(
            Ok::<AuthenticatedLineageView, Fault>(report_of(seq![coin_id], spends)),
        ),
        spends.len() <= MAX_LINEAGE_DEPTH,
        spends.len() <= replies.len(),
        known_replies(spends) == replies.take(spends.len() as int),
{
    lemma_walk_is_sound(WalkView::from_coin(coin_id), replies, MAX_LINEAGE_DEPTH as nat)
}

/// Every coin with a genuine lineage no deeper than the bound authenticates when the source knows the
/// lineage, and the walk reports it.
pub proof fn authentication_is_complete(coin_id: Seq<u8>, spends: Seq<CoinSpendView>)
    requires
        is_genuine(coin_id, spends),
        spends.len() <= MAX_LINEAGE_DEPTH,
    ensures
        walking(
            WalkView::from_coin(coin_id),
            known_replies(spends),
            MAX_LINEAGE_DEPTH as nat,
        ) == Some(Ok::<AuthenticatedLineageView, Fault>(report_of(seq![coin_id], spends))),
{
    lemma_walk_is_complete(WalkView::from_coin(coin_id), spends, MAX_LINEAGE_DEPTH as nat);
}

/// Whatever a source replies, a coin that it leads to a launcher for has a genuine lineage, made of the
/// parent spends that the source gave for each coin of the trail in turn. The report is that lineage's:
/// the launcher coin is one, its id is the launcher id, and the trail leads from the coin to it.
pub proof fn authenticated_lineages_are_genuine<S: ChainSource>(
    source: &S,
    coin_id: Seq<u8>,
    lineage: AuthenticatedLineageView,
) -> (spends: Seq<CoinSpendView>)
    requires
        authenticates(source, coin_id, Ok(lineage)),
    ensures
        is_genuine(coin_id, spends),
        lineage == report_of(seq![coin_id], spends),
        spends.len() <= MAX_LINEAGE_DEPTH,
        forall|i: int|
            0 <= i < spends.len() ==> may_reply(
                source,
                lineage.trail[i],
                Ok(Some(#[trigger] spends[i])),
            ),
        lineage.launcher_coin.puzzle_hash == launcher_puzzle_hash(),
        lineage.launcher_id == lineage.launcher_coin.id(),
        lineage.trail.first() == coin_id,
        lineage.trail.last() == lineage.launcher_id,
{
    let start = WalkView::from_coin(coin_id);
    let replies = choose|replies: Seq<ParentReply>|
        may_reply_along(source, start, replies) && #[trigger] walking(
            start,
            replies,
            MAX_LINEAGE_DEPTH as nat,
        ) == Some(Ok::<AuthenticatedLineageView, Fault>(lineage));
    let spends = authentication_is_sound(coin_id, replies);
    lemma_replies_follow_the_trail(source, start, replies, spends);
    spends
}

/// The successor of a singleton is the first coin of odd amount that its inner puzzle creates, by the
/// singleton itself, in the singleton puzzle of its launcher. It has none exactly where no coin of odd amount
/// is created, and it is not told exactly where the solution is refused or the inner puzzle does not run.
pub proof fn successors_are_the_first_odd_coins(
    parent: CoinView,
    layer: SingletonPuzzleView,
    solution: Seq<u8>,
    successor: CoinView,
    text: Seq<char>,
)
    ensures
        successor_of(parent, layer, solution) == Ok::<Option<CoinView>, Fault>(Some(successor)) <==> {
            &&& singleton_solution_in(solution) matches Ok(inner)
            &&& emitted(layer.inner_puzzle, inner) matches Ok(created)
            &&& first_odd(created) matches Some(coin)
            &&& successor.parent_coin_info == coin_id_of(parent)
            &&& successor.puzzle_hash == singleton_puzzle_hash(layer.launcher_id, coin.puzzle_hash)
            &&& successor.amount == coin.amount
        },
        successor_of(parent, layer, solution) == Ok::<Option<CoinView>, Fault>(None) <==> {
            &&& singleton_solution_in(solution) matches Ok(inner)
            &&& emitted(layer.inner_puzzle, inner) matches Ok(created)
            &&& first_odd(created) is None
        },
        successor_of(parent, layer, solution) == Err::<Option<CoinView>, Fault>(Fault::Driver(text))
            <==> singleton_solution_in(solution) == Err::<Seq<u8>, Seq<char>>(text),
        successor_of(parent, layer, solution) == Err::<Option<CoinView>, Fault>(Fault::Parse(text)) <==> {
            &&& singleton_solution_in(solution) matches Ok(inner)
            &&& emitted(layer.inner_puzzle, inner) matches Err(reason)
            &&& reason == text
        },
        successor_of(parent, layer, solution) matches Err(fault) ==> fault is Driver || fault is Parse,
{
}

/// A singleton's spend recreates it as a coin exactly where its two programs are CLVM trees, its coin does not
/// pass for a launcher, its puzzle names the launcher, and the coin is the first of odd amount that its
/// inner puzzle creates, in the singleton puzzle of that launcher. A walk can run it exactly where its coin
/// does not pass for a launcher and its inner puzzle runs.
pub proof fn recreations_are_of_the_first_odd_coin(
    spend: CoinSpendView,
    launcher_id: Seq<u8>,
    child_id: Seq<u8>,
    child: CoinView,
)
    ensures
        recreates_as(spend, launcher_id, child) <==> {
            &&& clvm_fault(spend.puzzle_reveal) is None
            &&& clvm_fault(spend.solution) is None
            &&& singleton_puzzle_in(spend.puzzle_reveal) matches Ok(Some(layer))
            &&& layer.launcher_id == launcher_id
            &&& singleton_solution_in(spend.solution) matches Ok(inner)
            &&& emitted(layer.inner_puzzle, inner) matches Ok(created)
            &&& first_odd(created) matches Some(coin)
            &&& child.parent_coin_info == coin_id_of(spend.coin)
            &&& child.puzzle_hash == singleton_puzzle_hash(launcher_id, coin.puzzle_hash)
            &&& child.amount == coin.amount
        },
        runs_as_singleton(spend) <==> {
            &&& spend.coin.puzzle_hash != launcher_puzzle_hash()
            &&& singleton_puzzle_in(spend.puzzle_reveal) matches Ok(Some(layer))
            &&& singleton_solution_in(spend.solution) matches Ok(inner)
            &&& emitted(layer.inner_puzzle, inner) is Ok
        },
        recreates_coin(spend, launcher_id, child_id) <==> {
            &&& clvm_fault(spend.puzzle_reveal) is None
            &&& clvm_fault(spend.solution) is None
            &&& spend.coin.puzzle_hash != launcher_puzzle_hash()
            &&& singleton_puzzle_in(spend.puzzle_reveal) matches Ok(Some(layer))
            &&& layer.launcher_id == launcher_id
            &&& singleton_solution_in(spend.solution) matches Ok(inner)
            &&& emitted(layer.inner_puzzle, inner) matches Ok(created)
            &&& first_odd(created) matches Some(coin)
            &&& child_id == coin_id_of(
                CoinView {
                    parent_coin_info: coin_id_of(spend.coin),
                    puzzle_hash: singleton_puzzle_hash(launcher_id, coin.puzzle_hash),
                    amount: coin.amount,
                },
            )
        },
{
}

/// What a list of conditions creates and the coins of it are the same coins.
proof fn lemma_created_coins(parent: CoinView, created: Seq<Option<CreatedCoinView>>, coin: CoinView)
    ensures
        coins_created(parent, created).contains(coin) <==> exists|i: int|
            0 <= i < created.len() && (#[trigger] created[i] matches Some(said) && coin == CoinView {
                parent_coin_info: parent.id(),
                puzzle_hash: said.puzzle_hash,
                amount: said.amount,
            }),
    decreases created.len(),
{
    if created.len() > 0 {
        let fewer = created.drop_last();
        let before = coins_created(parent, fewer);
        let all = coins_created(parent, created);
        lemma_created_coins(parent, fewer, coin);
        assert forall|i: int| 0 <= i < fewer.len() implies #[trigger] fewer[i] == created[i] by {}
        if before.contains(coin) {
            let i = before.index_of(coin);
            assert(all[i] == coin);
        }
        match created.last() {
            Some(said) => {
                assert(all[before.len() as int] == all.last());
                if all.contains(coin) && !before.contains(coin) {
                    let i = all.index_of(coin);
                    assert(i < before.len() ==> before[i] == coin);
                    assert(created[created.len() - 1] == created.last());
                }
            },
            None => {},
        }
        if exists|i: int|
            0 <= i < created.len() && (#[trigger] created[i] matches Some(said) && coin == CoinView {
                parent_coin_info: parent.id(),
                puzzle_hash: said.puzzle_hash,
                amount: said.amount,
            }) {
            let i = choose|i: int|
                0 <= i < created.len() && (#[trigger] created[i] matches Some(said) && coin == CoinView {
                    parent_coin_info: parent.id(),
                    puzzle_hash: said.puzzle_hash,
                    amount: said.amount,
                });
            if i < fewer.len() {
                assert(fewer[i] == created[i]);
            }
        }
    } else {
        assert(!coins_created(parent, created).contains(coin));
    }
}

/// Among what a coin's conditions create is a coin of an id exactly where the coin itself is among the coins
/// that it creates.
pub proof fn coins_are_created_as_conditions_say(
    parent: CoinView,
    created: Seq<Option<CreatedCoinView>>,
    id: Seq<u8>,
)
    ensures
        creates_eve(parent, created, id) <==> exists|coin: CoinView| #[trigger]
            coins_created(parent, created).contains(coin) && coin_id_of(coin) == id,
        forall|coin: CoinView| #[trigger]
            coins_created(parent, created).contains(coin) <==> exists|i: int|
                0 <= i < created.len() && (#[trigger] created[i] matches Some(said) && {
                    &&& coin.parent_coin_info == coin_id_of(parent)
                    &&& coin.puzzle_hash == said.puzzle_hash
                    &&& coin.amount == said.amount
                }),
{
    let coins = coins_created(parent, created);
    assert forall|coin: CoinView| #[trigger] coins.contains(coin) <==> exists|i: int|
        0 <= i < created.len() && (#[trigger] created[i] matches Some(said) && {
            &&& coin.parent_coin_info == coin_id_of(parent)
            &&& coin.puzzle_hash == said.puzzle_hash
            &&& coin.amount == said.amount
        }) by {
        lemma_created_coins(parent, created, coin);
        if coins.contains(coin) {
            let i = choose|i: int|
                0 <= i < created.len() && (#[trigger] created[i] matches Some(said) && coin == CoinView {
                    parent_coin_info: parent.id(),
                    puzzle_hash: said.puzzle_hash,
                    amount: said.amount,
                });
            assert(created[i] is Some);
        }
        if exists|i: int|
            0 <= i < created.len() && (#[trigger] created[i] matches Some(said) && {
                &&& coin.parent_coin_info == coin_id_of(parent)
                &&& coin.puzzle_hash == said.puzzle_hash
                &&& coin.amount == said.amount
            }) {
            let i = choose|i: int|
                0 <= i < created.len() && (#[trigger] created[i] matches Some(said) && {
                    &&& coin.parent_coin_info == coin_id_of(parent)
                    &&& coin.puzzle_hash == said.puzzle_hash
                    &&& coin.amount == said.amount
                });
            let said = created[i]->Some_0;
            assert(coin =~= CoinView {
                parent_coin_info: parent.id(),
                puzzle_hash: said.puzzle_hash,
                amount: said.amount,
            });
        }
    }
    if creates_eve(parent, created, id) {
        let i = choose|i: int|
            0 <= i < created.len() && (#[trigger] created[i] matches Some(coin) && CoinView {
                parent_coin_info: parent.id(),
                puzzle_hash: coin.puzzle_hash,
                amount: coin.amount,
            }.id() == id);
        let said = created[i]->Some_0;
        let coin = CoinView {
            parent_coin_info: parent.id(),
            puzzle_hash: said.puzzle_hash,
            amount: said.amount,
        };
        lemma_created_coins(parent, created, coin);
        assert(coins.contains(coin));
    }
    if exists|coin: CoinView| #[trigger] coins.contains(coin) && coin_id_of(coin) == id {
        let coin = choose|coin: CoinView| #[trigger] coins.contains(coin) && coin_id_of(coin) == id;
        lemma_created_coins(parent, created, coin);
    }
}

/// A launcher's spend launches a coin exactly where its two programs are CLVM trees, its coin has the launcher
/// puzzle, it runs, and the coin is among all those that it creates.
pub proof fn launches_are_of_a_created_coin(spend: CoinSpendView, eve_id: Seq<u8>)
    ensures
        launches_coin(spend, eve_id) <==> {
            &&& clvm_fault(spend.puzzle_reveal) is None
            &&& clvm_fault(spend.solution) is None
            &&& spend.coin.puzzle_hash == launcher_puzzle_hash()
            &&& coins_of(spend) matches Some(coins)
            &&& exists|coin: CoinView| #[trigger] coins.contains(coin) && coin_id_of(coin) == eve_id
        },
{
    if launches_coin(spend, eve_id) {
        let created = emitted(spend.puzzle_reveal, spend.solution)->Ok_0;
        coins_are_created_as_conditions_say(spend.coin, created, eve_id);
        let coin = choose|coin: CoinView| #[trigger]
            coins_created(spend.coin, created).contains(coin) && coin_id_of(coin) == eve_id;
        assert(coins_of(spend)->Some_0.contains(coin));
    }
    if let Some(coins) = coins_of(spend) {
        let created = emitted(spend.puzzle_reveal, spend.solution)->Ok_0;
        if exists|coin: CoinView| #[trigger] coins.contains(coin) && coin_id_of(coin) == eve_id {
            coins_are_created_as_conditions_say(spend.coin, created, eve_id);
            assert(creates_eve(spend.coin, created, eve_id));
        }
    }
}

/// A lineage is genuine exactly where its last spend launches the coin behind it, and each other recreates the
/// coin behind it as a singleton of that last spend's coin. The coin behind the first is the one in question.
pub proof fn genuine_lineages_lead_to_one_launcher(coin_id: Seq<u8>, spends: Seq<CoinSpendView>)
    requires
        spends.len() > 0,
    ensures
        is_genuine(coin_id, spends) <==> {
            &&& launches_coin(
                spends.last(),
                if spends.len() == 1 {
                    coin_id
                } else {
                    coin_id_of(spends[spends.len() - 2].coin)
                },
            )
            &&& forall|i: int|
                0 <= i < spends.len() - 1 ==> recreates_coin(
                    #[trigger] spends[i],
                    coin_id_of(spends.last().coin),
                    if i == 0 {
                        coin_id
                    } else {
                        coin_id_of(spends[i - 1].coin)
                    },
                )
        },
{
    let ids = seq![coin_id] + spent_ids(spends);
    assert forall|i: int| 0 <= i < spends.len() implies #[trigger] ids[i] == (if i == 0 {
        coin_id
    } else {
        coin_id_of(spends[i - 1].coin)
    }) by {}
    if is_genuine(coin_id, spends) {
        assert forall|i: int| 0 <= i < spends.len() - 1 implies recreates_coin(
            #[trigger] spends[i],
            coin_id_of(spends.last().coin),
            if i == 0 {
                coin_id
            } else {
                coin_id_of(spends[i - 1].coin)
            },
        ) by {
            assert(recreates_coin(spends[i], spends.last().coin.id(), ids[i]));
        }
    }
}

/// Whether the text says why a parent's spend cannot be read, where `launcher_id` is the launcher named so far:
/// one of its programs is no CLVM tree, the launcher does not run, or a singleton's inner puzzle does not.
pub open spec fn is_unreadable(
    spend: CoinSpendView,
    launcher_id: Option<Seq<u8>>,
    text: Seq<char>,
) -> bool {
    ||| clvm_fault(spend.puzzle_reveal) == Some(text)
    ||| clvm_fault(spend.puzzle_reveal) is None && clvm_fault(spend.solution) == Some(text)
    ||| {
        &&& clvm_fault(spend.puzzle_reveal) is None
        &&& clvm_fault(spend.solution) is None
        &&& spend.coin.puzzle_hash == launcher_puzzle_hash()
        &&& launcher_id is None || launcher_id == Some(coin_id_of(spend.coin))
        &&& emitted(spend.puzzle_reveal, spend.solution) == Err::<
            Seq<Option<CreatedCoinView>>,
            Seq<char>,
        >(text)
    }
    ||| {
        &&& clvm_fault(spend.puzzle_reveal) is None
        &&& clvm_fault(spend.solution) is None
        &&& spend.coin.puzzle_hash != launcher_puzzle_hash()
        &&& singleton_puzzle_in(spend.puzzle_reveal) matches Ok(Some(layer))
        &&& launcher_id is None || launcher_id == Some(layer.launcher_id)
        &&& singleton_solution_in(spend.solution) matches Ok(inner)
        &&& emitted(layer.inner_puzzle, inner) == Err::<Seq<Option<CreatedCoinView>>, Seq<char>>(text)
    }
}

/// Whether `fault` is what a walk breaks off with at `current`, where `launcher_id` is the launcher named so
/// far and the source replies `reply`: a failed read is told as such, and a parent that is not known, or
/// that is neither the launcher nor a singleton of it which created the coin, breaks the structure, unless
/// it cannot be read.
pub open spec fn breaks_off(
    current: Seq<u8>,
    launcher_id: Option<Seq<u8>>,
    reply: ParentReply,
    fault: Fault,
) -> bool {
    match reply {
        Err(text) => fault == Fault::Chain(text),
        Ok(None) => fault == Fault::NotASingleton,
        Ok(Some(spend)) => {
            &&& launches_coin(spend, current) ==> launcher_id is Some && launcher_id != Some(
                coin_id_of(spend.coin),
            )
            &&& forall|named: Seq<u8>| #[trigger]
                recreates_coin(spend, named, current) ==> launcher_id is Some && launcher_id != Some(named)
            &&& match fault {
                Fault::Parse(text) => is_unreadable(spend, launcher_id, text),
                Fault::NotASingleton => forall|text: Seq<char>| !#[trigger]
                    is_unreadable(spend, launcher_id, text),
                _ => false,
            }
        },
    }
}

/// A step of a walk goes on exactly where the reply is the spend of a singleton which recreates the current
/// coin and names the launcher named so far, and then from that singleton. It is the last exactly where the
/// reply is the spend of that launcher, which creates the current coin. Every other step fails, and tells
/// why.
pub proof fn steps_lead_to_the_parent(
    walk: WalkView,
    reply: ParentReply,
    next: WalkView,
    lineage: AuthenticatedLineageView,
    fault: Fault,
    text: Seq<char>,
)
    ensures
        walk_step(walk, reply) == Ok::<WalkStepView, Fault>(WalkStepView::Next(next)) <==> {
            &&& reply matches Ok(Some(spend))
            &&& next.expected_launcher matches Some(launcher_id)
            &&& recreates_coin(spend, launcher_id, walk.current)
            &&& walk.expected_launcher is None || walk.expected_launcher == Some(launcher_id)
            &&& next.current == coin_id_of(spend.coin)
            &&& next.trail == walk.trail.push(coin_id_of(spend.coin))
        },
        walk_step(walk, reply) == Ok::<WalkStepView, Fault>(WalkStepView::Done(lineage)) <==> {
            &&& reply matches Ok(Some(spend))
            &&& launches_coin(spend, walk.current)
            &&& walk.expected_launcher is None || walk.expected_launcher == Some(coin_id_of(spend.coin))
            &&& lineage.launcher_id == coin_id_of(spend.coin)
            &&& lineage.launcher_coin == spend.coin
            &&& lineage.trail == walk.trail.push(coin_id_of(spend.coin))
        },
        walk_step(walk, reply) == Err::<WalkStepView, Fault>(Fault::Chain(text)) <==> reply == Err::<
            Option<CoinSpendView>,
            Seq<char>,
        >(text),
        walk_step(walk, reply) == Err::<WalkStepView, Fault>(Fault::Parse(text)) <==> {
            &&& reply matches Ok(Some(spend))
            &&& match (clvm_fault(spend.puzzle_reveal), clvm_fault(spend.solution)) {
                (Some(reason), _) => reason == text,
                (None, Some(reason)) => reason == text,
                (None, None) => {
                    ||| {
                        &&& spend.coin.puzzle_hash == launcher_puzzle_hash()
                        &&& walk.expected_launcher is None || walk.expected_launcher == Some(
                            coin_id_of(spend.coin),
                        )
                        &&& emitted(spend.puzzle_reveal, spend.solution) matches Err(reason)
                        &&& reason == text
                    }
                    ||| {
                        &&& spend.coin.puzzle_hash != launcher_puzzle_hash()
                        &&& singleton_puzzle_in(spend.puzzle_reveal) matches Ok(Some(layer))
                        &&& walk.expected_launcher is None || walk.expected_launcher == Some(
                            layer.launcher_id,
                        )
                        &&& singleton_solution_in(spend.solution) matches Ok(inner)
                        &&& emitted(layer.inner_puzzle, inner) matches Err(reason)
                        &&& reason == text
                    }
                },
            }
        },
        walk_step(walk, reply) matches Err(told) ==> told is Chain || told is Parse
            || told is NotASingleton,
        walk_step(walk, reply) == Err::<WalkStepView, Fault>(fault) <==> breaks_off(
            walk.current,
            walk.expected_launcher,
            reply,
            fault,
        ),
{
    if let Ok(Some(spend)) = reply {
        if let Ok(WalkStepView::Next(led)) = walk_step(walk, reply) {
            if next.expected_launcher == led.expected_launcher {
                assert(led.current == next.current && led.trail == next.trail ==> led =~= next);
            }
            assert(recreates_coin(spend, led.expected_launcher->Some_0, walk.current));
        }
        if let Err(told) = walk_step(walk, reply) {
            lemma_failed_steps_tell_why(walk, spend, told);
            if breaks_off(walk.current, walk.expected_launcher, reply, fault) {
                match (told, fault) {
                    (Fault::Parse(_), Fault::NotASingleton) => {
                        assert(is_unreadable(spend, walk.expected_launcher, told->Parse_0));
                    },
                    (Fault::NotASingleton, Fault::Parse(_)) => {
                        assert(is_unreadable(spend, walk.expected_launcher, fault->Parse_0));
                    },
                    _ => {},
                }
            }
        }
    }
}

/// A step to a known parent that fails tells why.
proof fn lemma_failed_steps_tell_why(walk: WalkView, spend: CoinSpendView, fault: Fault)
    requires
        step_to_parent(walk, spend) == Err::<WalkStepView, Fault>(fault),
    ensures
        breaks_off(walk.current, walk.expected_launcher, Ok(Some(spend)), fault),
{
    if let Fault::Parse(text) = fault {
        assert(is_unreadable(spend, walk.expected_launcher, text));
    }
}

/// Whether `source` knows the lineage of `coin_id`: asked for the parent spend of a coin of it, it replies with
/// that spend and nothing else.
pub open spec fn knows_lineage<S: ChainSource>(
    source: &S,
    coin_id: Seq<u8>,
    spends: Seq<CoinSpendView>,
) -> bool {
    forall|i: int, reply: ParentReply|
        0 <= i < spends.len() && #[trigger] may_reply(
            source,
            (seq![coin_id] + spent_ids(spends))[i],
            reply,
        ) ==> reply == Ok::<Option<CoinSpendView>, Seq<char>>(Some(spends[i]))
}

/// A walk over a lineage that its source knows follows it.
proof fn lemma_walk_follows_known_lineage<S: ChainSource>(
    source: &S,
    walk: WalkView,
    replies: Seq<ParentReply>,
    spends: Seq<CoinSpendView>,
    hops: nat,
)
    requires
        may_reply_along(source, walk, replies),
        walking(walk, replies, hops) is Some,
        is_genuine(walk.current, spends),
        walk.agrees(spends.last().coin.id()),
        knows_lineage(source, walk.current, spends),
        spends.len() <= hops,
    ensures
        walking(walk, replies, hops) == Some(
            Ok::<AuthenticatedLineageView, Fault>(report_of(walk.trail, spends)),
        ),
    decreases spends.len(),
{
    let spend = spends[0];
    let ids = seq![walk.current] + spent_ids(spends);
    assert(ids[0] == walk.current);
    assert(may_reply(source, ids[0], replies[0]));
    assert(replies[0] == Ok::<Option<CoinSpendView>, Seq<char>>(Some(spend)));
    if spends.len() == 1 {
        assert(spent_ids(spends) =~= seq![spend.coin.id()]);
        assert(walk.trail.push(spend.coin.id()) =~= walk.trail + spent_ids(spends));
    } else {
        let rest = spends.drop_first();
        let rest_ids = seq![spend.coin.id()] + spent_ids(rest);
        assert(spends =~= seq![spend] + rest);
        lineages_grow_by_one_spend(walk.current, spend, rest);
        let next = WalkView {
            current: spend.coin.id(),
            expected_launcher: Some(rest.last().coin.id()),
            trail: walk.trail.push(spend.coin.id()),
        };
        assert(walk_step(walk, replies[0]) == Ok::<WalkStepView, Fault>(WalkStepView::Next(next)));
        assert forall|i: int, reply: ParentReply|
            0 <= i < rest.len() && #[trigger] may_reply(source, rest_ids[i], reply) implies reply == Ok::<
            Option<CoinSpendView>,
            Seq<char>,
        >(Some(rest[i])) by {
            assert(rest_ids[i] == ids[i + 1]) by {
                if i > 0 {
                    assert(rest[i - 1] == spends[i]);
                }
            }
            assert(may_reply(source, ids[i + 1], reply));
        }
        lemma_walk_follows_known_lineage(source, next, replies.drop_first(), rest, (hops - 1) as nat);
        assert(next.trail + spent_ids(rest) =~= walk.trail + spent_ids(spends));
    }
}

/// With a source that knows the genuine lineage of a coin, no deeper than the bound, the coin authenticates,
/// however long the lineage is: to the launcher that the last spend is of, along the coins that the spends
/// are of.
pub proof fn known_lineages_authenticate<S: ChainSource>(
    source: &S,
    coin_id: Seq<u8>,
    spends: Seq<CoinSpendView>,
    found: Result<AuthenticatedLineageView, Fault>,
)
    requires
        authenticates(source, coin_id, found),
        is_genuine(coin_id, spends),
        knows_lineage(source, coin_id, spends),
        spends.len() <= 100_000,
    ensures
        found matches Ok(lineage) && {
            &&& lineage.launcher_id == coin_id_of(spends.last().coin)
            &&& lineage.launcher_coin == spends.last().coin
            &&& lineage.trail.len() == spends.len() + 1
            &&& lineage.trail[0] == coin_id
            &&& forall|i: int|
                0 <= i < spends.len() ==> lineage.trail[i + 1] == coin_id_of((#[trigger] spends[i]).coin)
        },
{
    let start = WalkView::from_coin(coin_id);
    let replies = choose|replies: Seq<ParentReply>|
        may_reply_along(source, start, replies) && #[trigger] walking(
            start,
            replies,
            MAX_LINEAGE_DEPTH as nat,
        ) == Some(found);
    lemma_walk_follows_known_lineage(source, start, replies, spends, MAX_LINEAGE_DEPTH as nat);
}

/// Whether `spends` lead from `coin_id` up through singletons of `launcher_id` alone, and the source replied
/// with each.
pub open spec fn descends<S: ChainSource>(
    source: &S,
    coin_id: Seq<u8>,
    spends: Seq<CoinSpendView>,
    launcher_id: Seq<u8>,
) -> bool {
    forall|i: int|
        0 <= i < spends.len() ==> {
            let child_id = if i == 0 {
                coin_id
            } else {
                coin_id_of(spends[i - 1].coin)
            };
            &&& recreates_coin(#[trigger] spends[i], launcher_id, child_id)
            &&& may_reply(source, child_id, Ok(Some(spends[i])))
        }
}

/// A walk that fails has followed singletons of one launcher up to a reply that led no further.
proof fn lemma_walk_fails_for_a_reason<S: ChainSource>(
    source: &S,
    walk: WalkView,
    replies: Seq<ParentReply>,
    hops: nat,
    fault: Fault,
) -> (met: (Seq<CoinSpendView>, Option<Seq<u8>>, ParentReply))
    requires
        may_reply_along(source, walk, replies),
        walking(walk, replies, hops) == Some(Err::<AuthenticatedLineageView, Fault>(fault)),
    ensures
        met.0.len() <= hops,
        met.0.len() == 0 ==> met.1 == walk.expected_launcher,
        met.0.len() > 0 ==> met.1 is Some && walk.agrees(met.1->Some_0) && descends(
            source,
            walk.current,
            met.0,
            met.1->Some_0,
        ),
        met.0.len() == hops ==> fault == Fault::LineageTooDeep,
        met.0.len() < hops ==> {
            let current = if met.0.len() == 0 {
                walk.current
            } else {
                coin_id_of(met.0.last().coin)
            };
            may_reply(source, current, met.2) && breaks_off(current, met.1, met.2, fault)
        },
    decreases hops,
{
    let none = Seq::<CoinSpendView>::empty();
    if hops == 0 {
        (none, walk.expected_launcher, Ok(None))
    } else {
        let reply = replies[0];
        match walk_step(walk, reply) {
            Ok(WalkStepView::Next(next)) => {
                let spend = reply->Ok_0->Some_0;
                let rest = lemma_walk_fails_for_a_reason(
                    source,
                    next,
                    replies.drop_first(),
                    (hops - 1) as nat,
                    fault,
                );
                let spends = seq![spend] + rest.0;
                let launcher_id = next.expected_launcher->Some_0;
                assert(rest.1 == Some(launcher_id));
                assert forall|i: int| 0 <= i < spends.len() implies {
                    let child_id = if i == 0 {
                        walk.current
                    } else {
                        coin_id_of(spends[i - 1].coin)
                    };
                    &&& recreates_coin(#[trigger] spends[i], launcher_id, child_id)
                    &&& may_reply(source, child_id, Ok(Some(spends[i])))
                } by {
                    if i > 0 {
                        assert(spends[i] == rest.0[i - 1]);
                        if i > 1 {
                            assert(spends[i - 1] == rest.0[i - 2]);
                        }
                    }
                }
                if rest.0.len() > 0 {
                    assert(spends.last() == rest.0.last());
                }
                (spends, rest.1, rest.2)
            },
            Err(told) => {
                steps_lead_to_the_parent(
                    walk,
                    reply,
                    walk,
                    AuthenticatedLineageView {
                        launcher_id: walk.current,
                        launcher_coin: reply->Ok_0->Some_0.coin,
                        trail: walk.trail,
                    },
                    told,
                    Seq::empty(),
                );
                (none, walk.expected_launcher, reply)
            },
            Ok(WalkStepView::Done(_)) => (none, walk.expected_launcher, reply),
        }
    }
}

/// An authentication that fails tells why, whatever the source replies: the walk followed singletons of one
/// launcher, each recreating the coin below it, and either came to the bound or to a reply that led no
/// further, and reports the bound exactly where it came to it.
pub proof fn failed_authentications_tell_why<S: ChainSource>(
    source: &S,
    coin_id: Seq<u8>,
    fault: Fault,
) -> (met: (Seq<CoinSpendView>, Option<Seq<u8>>, ParentReply))
    requires
        authenticates(source, coin_id, Err(fault)),
    ensures
        met.0.len() == 0 ==> met.1 is None,
        met.0.len() > 0 ==> met.1 is Some && descends(source, coin_id, met.0, met.1->Some_0),
        met.0.len() <= MAX_LINEAGE_DEPTH,
        met.0.len() == MAX_LINEAGE_DEPTH <==> fault == Fault::LineageTooDeep,
        met.0.len() < MAX_LINEAGE_DEPTH ==> {
            let current = if met.0.len() == 0 {
                coin_id
            } else {
                coin_id_of(met.0.last().coin)
            };
            may_reply(source, current, met.2) && breaks_off(current, met.1, met.2, fault)
        },
        fault is Chain || fault is Parse || fault is NotASingleton || fault is LineageTooDeep,
{
    let start = WalkView::from_coin(coin_id);
    let replies = choose|replies: Seq<ParentReply>|
        may_reply_along(source, start, replies) && #[trigger] walking(
            start,
            replies,
            MAX_LINEAGE_DEPTH as nat,
        ) == Some(Err::<AuthenticatedLineageView, Fault>(fault));
    lemma_walk_fails_for_a_reason(source, start, replies, MAX_LINEAGE_DEPTH as nat, fault)
}

/// A source may reply with what it returns when it is asked for the parent spend of that very coin, and with
/// nothing else.
pub proof fn parent_replies_are_for_the_coin_asked_for<S: ChainSource>(
    source: &S,
    id: Bytes32,
    answer: Result<Option<CoinSpend>, String>,
    coin_id: Seq<u8>,
    reply: ParentReply,
) -> (asked: (Bytes32, Result<Option<CoinSpend>, String>))
    ensures
        call_ensures(S::parent_spend, (source, id), answer) ==> may_reply(
            source,
            hash_bytes(id),
            match answer {
                Ok(Some(spend)) => Ok(Some(spend@)),
                Ok(None) => Ok(None),
                Err(text) => Err(text@),
            },
        ),
        may_reply(source, coin_id, reply) ==> {
            &&& hash_bytes(asked.0) == coin_id
            &&& call_ensures(S::parent_spend, (source, asked.0), asked.1)
            &&& match (asked.1, reply) {
                (Ok(Some(spend)), Ok(Some(told))) => told == spend@,
                (Ok(None), Ok(None)) => true,
                (Err(text), Err(told)) => told == text@,
                _ => false,
            }
        },
{
    if call_ensures(S::parent_spend, (source, id), answer) {
        assert(may_reply(source, hash_bytes(id), parent_reply(answer)));
    }
    choose|id: Bytes32, answer: Result<Option<CoinSpend>, String>|
        hash_bytes(id) == coin_id && parent_reply(answer) == reply && #[trigger] call_ensures(
            S::parent_spend,
            (source, id),
            answer,
        )
}

} // verus!
