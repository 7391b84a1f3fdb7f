//! Resolving a DID from chain reads: its current tip, and its owner's payment address.
use vstd::prelude::*;

use chia_protocol::Bytes32;
use chia_puzzle_types::Proof;

use crate::bytes::same_hash;
use crate::did_string::{launcher_id_from_did_string, Address, XCH_PREFIX};
use crate::driver::{read_child, read_singleton_puzzle};
use crate::error::{DidError, DidResult};
use crate::hydrate::check_spend;
use crate::types::{Coin, CoinSpend, Did, DidInfo};
use crate::walk::{authenticate_singleton, singleton_successor, AuthenticatedLineage};

pub use crate::chain::{ChainSource, SingletonLineage, MAX_LINEAGE_DEPTH};

#[allow(unused_imports)]
use crate::bytes::{hash_bytes, int_atom};
#[allow(unused_imports)]
use crate::chain::SingletonLineageView;
#[allow(unused_imports)]
use crate::clvm::{clvm_fault, emitted, CreatedCoinView};
#[allow(unused_imports)]
use crate::did_string::{launcher_id_in, AddressView};
#[allow(unused_imports)]
use crate::driver::{
    coin_id_of, did_child_in, did_info_in, did_inner_puzzle_hash, first_odd, is_child_of, singleton_emits,
    singleton_puzzle_hash, singleton_puzzle_in, singleton_solution_in,
};
#[allow(unused_imports)]
use crate::error::{outcome, Fault};
#[allow(unused_imports)]
use crate::hydrate::{children_are_hydrated_as_read, hydrating, reads_back_as, spend_fault};
#[allow(unused_imports)]
use crate::types::{proof_atoms, CoinSpendView, CoinView, DidInfoView, DidView, SpendView};
#[allow(unused_imports)]
use crate::walk::{
    authenticates, is_genuine, known_lineages_authenticate, knows_lineage, may_reply, parent_reply,
    recreates_as, recreates_coin, spent_ids, successor_of, AuthenticatedLineageView, ParentReply,
};

verus! {

/// The current unspent tip of a DID singleton, reconstructed from chain reads.
#[derive(Debug)]
pub struct DidTip {
    /// The tip coin.
    pub coin: Coin,
    /// What the DID's puzzle is made of at the tip.
    pub info: DidInfo,
    /// The proof that a spend of the tip shows.
    pub proof: Proof,
}

impl View for DidTip {
    type V = DidView;

    open spec fn view(&self) -> DidView {
        DidView { coin: self.coin@, proof: proof_atoms(self.proof), info: self.info@ }
    }
}

impl Clone for DidTip {
    fn clone(&self) -> (copy: DidTip)
        ensures
            copy@ == self@,
    {
        DidTip { coin: self.coin, info: self.info.clone(), proof: self.proof }
    }
}

impl DidTip {
    /// The tip as a spendable [`Did`].
    pub fn did(&self) -> (did: Did)
        ensures
            did@ == self@,
    {
        Did { coin: self.coin, proof: self.proof, info: self.info.clone() }
    }
}

/// The DID at the tip `tip_id`, when `spend` is the spend that created the tip: its parent has to be a
/// singleton whose genuine successor is the tip, and a DID.
pub open spec fn tip_in(tip_id: Seq<u8>, spend: CoinSpendView) -> Result<DidView, Fault> {
    match spend_fault(spend.puzzle_reveal, spend.solution) {
        Some(fault) => Err(fault),
        None => match singleton_puzzle_in(spend.puzzle_reveal) {
            Err(text) => Err(Fault::Driver(text)),
            Ok(None) => Err(Fault::NotDid),
            Ok(Some(layer)) => match successor_of(spend.coin, layer, spend.solution) {
                Err(fault) => Err(fault),
                Ok(None) => Err(Fault::NotDid),
                Ok(Some(tip)) => if tip.id() != tip_id {
                    Err(Fault::NotDid)
                } else {
                    match did_child_in(spend.coin, spend.puzzle_reveal, spend.solution) {
                        Err(text) => Err(Fault::Driver(text)),
                        Ok(None) => Err(Fault::NotDid),
                        Ok(Some((info, proof))) => Ok(DidView { coin: tip, proof, info }),
                    }
                },
            },
        },
    }
}

/// Reconstructs the DID at the tip `tip_id` from the spend that created it, for any such spend.
pub fn tip_from_parent_spend(tip_id: Bytes32, spend: CoinSpend) -> (tip: DidResult<DidTip>)
    ensures
        outcome(tip) == tip_in(hash_bytes(tip_id), spend@),
        tip matches Ok(tip) ==> tip_names_launcher(spend@, tip@),
        tip matches Ok(tip) ==> is_child_of(
            spend@.coin,
            spend@.puzzle_reveal,
            spend@.solution,
            tip@.info,
            tip@.proof,
        ),
{
    let parent = spend.coin;
    match check_spend(&spend.puzzle_reveal, &spend.solution) {
        Ok(_) => {},
        Err(error) => {
            return Err(error);
        },
    }
    let layer = match read_singleton_puzzle(&spend.puzzle_reveal) {
        Ok(Some(layer)) => layer,
        Ok(None) => {
            return Err(DidError::NotDid);
        },
        Err(error) => {
            return Err(DidError::Driver(error));
        },
    };
    let coin = match singleton_successor(&parent, &layer, &spend.solution) {
        Ok(Some(coin)) => coin,
        Ok(None) => {
            return Err(DidError::NotDid);
        },
        Err(error) => {
            return Err(error);
        },
    };
    if !same_hash(&coin.coin_id(), &tip_id) {
        return Err(DidError::NotDid);
    }
    match read_child(&parent, &spend.puzzle_reveal, &spend.solution, &coin) {
        Ok(Some((info, proof))) => Ok(DidTip { coin, info, proof }),
        Ok(None) => Err(DidError::NotDid),
        Err(error) => Err(DidError::Driver(error)),
    }
}

/// What a [`ChainSource`] answers when it is asked for a singleton's lineage.
pub type LineageReply = Result<Option<SingletonLineageView>, Seq<char>>;

/// The [`LineageReply`] of what [`ChainSource::resolve_singleton_lineage`] returns.
pub open spec fn lineage_reply(reply: Result<Option<SingletonLineage>, String>) -> LineageReply {
    match reply {
        Ok(Some(lineage)) => Ok(Some(lineage@)),
        Ok(None) => Ok(None),
        Err(text) => Err(text@),
    }
}

/// Whether `source` may reply so when it is asked for the lineage of `launcher_id`.
pub open spec fn may_resolve<S: ChainSource>(
    source: &S,
    launcher_id: Seq<u8>,
    reply: LineageReply,
) -> bool {
    exists|id: Bytes32, answer: Result<Option<SingletonLineage>, String>|
        hash_bytes(id) == launcher_id && lineage_reply(answer) == reply && #[trigger] call_ensures(
            S::resolve_singleton_lineage,
            (source, id),
            answer,
        )
}

/// What [`walk_did_lineage_to_tip`] answers when the source replies `lineage`, and then `parent` when
/// it is asked for the spend that created the tip.
pub open spec fn tip_of_replies(lineage: LineageReply, parent: ParentReply) -> Result<
    Option<DidView>,
    Fault,
> {
    match lineage {
        Err(text) => Err(Fault::Chain(text)),
        Ok(None) => Ok(None),
        Ok(Some(lineage)) => match parent {
            Err(text) => Err(Fault::Chain(text)),
            Ok(None) => Err(Fault::NoIdentitySingleton),
            Ok(Some(spend)) => match tip_in(lineage.tip, spend) {
                Ok(tip) => Ok(Some(tip)),
                Err(fault) => Err(fault),
            },
        },
    }
}

/// Whether the DID at a tip names the launcher of the singleton that `spend` is of.
pub open spec fn tip_names_launcher(spend: CoinSpendView, tip: DidView) -> bool {
    singleton_puzzle_in(spend.puzzle_reveal) matches Ok(Some(layer)) && tip.info.launcher_id
        == layer.launcher_id
}

/// Whether a DID that is found at a tip names the launcher of the parent that the source replied with.
pub open spec fn names_launcher(parent: ParentReply, found: Result<Option<DidView>, Fault>) -> bool {
    parent matches Ok(Some(spend)) ==> found matches Ok(Some(tip)) ==> tip_names_launcher(spend, tip)
}

/// Whether a DID that is found at a tip follows from the parent spend that the source replied with: it names
/// that parent's launcher, and it is the parent's DID under the hint of the coin that the parent creates.
pub open spec fn follows_from_parent(
    parent: ParentReply,
    found: Result<Option<DidView>, Fault>,
) -> bool {
    &&& names_launcher(parent, found)
    &&& parent matches Ok(Some(spend)) ==> found matches Ok(Some(tip)) ==> is_child_of(
        spend.coin,
        spend.puzzle_reveal,
        spend.solution,
        tip.info,
        tip.proof,
    )
}

/// Whether `found` is what a walk to the tip of `launcher_id` comes to when `source` answers: it is
/// asked for the lineage, and then for the parent spend of the lineage's tip. The DID that is found
/// follows from that parent.
pub open spec fn reaches_tip<S: ChainSource>(
    source: &S,
    launcher_id: Seq<u8>,
    found: Result<Option<DidView>, Fault>,
) -> bool {
    exists|lineage: LineageReply, parent: ParentReply|
        may_resolve(source, launcher_id, lineage) && (lineage matches Ok(Some(known)) ==> may_reply(
            source,
            known.tip,
            parent,
        )) && follows_from_parent(parent, found) && #[trigger] tip_of_replies(lineage, parent) == found
}

/// The view of a tip that may be absent.
pub open spec fn optional_tip_view(tip: Option<DidTip>) -> Option<DidView> {
    match tip {
        Some(tip) => Some(tip@),
        None => None,
    }
}

/// A result with its tip and its error replaced by their views.
pub open spec fn tip_outcome(found: DidResult<Option<DidTip>>) -> Result<Option<DidView>, Fault> {
    match found {
        Ok(tip) => Ok(optional_tip_view(tip)),
        Err(error) => Err(error@),
    }
}

/// Walks a DID singleton to its current unspent tip and reconstructs the DID there. `None` means that
/// the DID has no current on-chain coin: it was never launched, or it is melted.
///
/// # Errors
///
/// [`DidError::Chain`] for a failed read, [`DidError::NoIdentitySingleton`] if the spend that created
/// the tip is not known, [`DidError::NotDid`] if that spend's parent is no DID or does not create the
/// tip, [`DidError::Parse`] and [`DidError::Driver`] for a spend that cannot be read.
pub fn walk_did_lineage_to_tip<S: ChainSource>(source: &S, launcher_id: Bytes32) -> (tip: DidResult<
    Option<DidTip>,
>)
    ensures
        reaches_tip(source, hash_bytes(launcher_id), tip_outcome(tip)),
{
    let reply = source.resolve_singleton_lineage(launcher_id);
    let ghost known = lineage_reply(reply);
    assert(may_resolve(source, hash_bytes(launcher_id), known));
    let ghost unasked: ParentReply = Ok(None);
    let lineage = match reply {
        Ok(Some(lineage)) => lineage,
        Ok(None) => {
            assert(tip_of_replies(known, unasked) == Ok::<Option<DidView>, Fault>(None));
            return Ok(None);
        },
        Err(text) => {
            assert(tip_of_replies(known, unasked) == Err::<Option<DidView>, Fault>(
                Fault::Chain(text@),
            ));
            return Err(DidError::Chain(text));
        },
    };
    let tip_id = lineage.tip();
    let reply = source.parent_spend(tip_id);
    let ghost parent = parent_reply(reply);
    assert(may_reply(source, lineage@.tip, parent));
    let spend = match reply {
        Ok(Some(spend)) => spend,
        Ok(None) => {
            return Err(DidError::NoIdentitySingleton);
        },
        Err(text) => {
            return Err(DidError::Chain(text));
        },
    };
    match tip_from_parent_spend(tip_id, spend) {
        Ok(tip) => Ok(Some(tip)),
        Err(error) => Err(error),
    }
}

/// The payment address of a tip's owner, given the launcher that the tip was authenticated to descend
/// from. The launcher id that a tip's puzzle names is the choice of whoever created it; only the
/// authenticated one counts.
pub open spec fn address_of_tip(
    tip: DidView,
    authenticated: AuthenticatedLineageView,
    launcher_id: Seq<u8>,
) -> Result<AddressView, Fault> {
    if authenticated.launcher_id != launcher_id {
        Err(Fault::LauncherMismatch)
    } else {
        Ok(AddressView { puzzle_hash: tip.info.p2_puzzle_hash, prefix: "xch"@ })
    }
}

/// The payment address of the owner of `tip`, or [`DidError::LauncherMismatch`] where the launcher
/// that the tip descends from is not the one asked for.
pub fn owner_address(
    tip: &DidTip,
    authenticated: &AuthenticatedLineage,
    launcher_id: &Bytes32,
) -> (address: DidResult<Address>)
    ensures
        outcome(address) == address_of_tip(tip@, authenticated@, hash_bytes(*launcher_id)),
{
    if !same_hash(&authenticated.launcher_id(), launcher_id) {
        return Err(DidError::LauncherMismatch);
    }
    Ok(Address { puzzle_hash: tip.info.p2_puzzle_hash, prefix: XCH_PREFIX.to_owned() })
}

/// What an address resolves to when the walk from the tip's coin came to `walked`.
pub open spec fn address_of_walk(
    tip: DidView,
    walked: Result<AuthenticatedLineageView, Fault>,
    launcher_id: Seq<u8>,
) -> Result<Option<AddressView>, Fault> {
    match walked {
        Err(fault) => Err(fault),
        Ok(lineage) => match address_of_tip(tip, lineage, launcher_id) {
            Err(fault) => Err(fault),
            Ok(address) => Ok(Some(address)),
        },
    }
}

/// Whether `found` is what the address of `launcher_id` resolves to when the walk to its tip came to
/// `tip`, and `source` answers for the parent spends along the tip's lineage.
pub open spec fn resolves_from<S: ChainSource>(
    source: &S,
    launcher_id: Seq<u8>,
    tip: Result<Option<DidView>, Fault>,
    found: Result<Option<AddressView>, Fault>,
) -> bool {
    match tip {
        Err(fault) => found == Err::<Option<AddressView>, Fault>(fault),
        Ok(None) => found == Ok::<Option<AddressView>, Fault>(None),
        Ok(Some(tip)) => exists|walked: Result<AuthenticatedLineageView, Fault>| #[trigger]
            authenticates(source, tip.coin.id(), walked) && found == address_of_walk(
                tip,
                walked,
                launcher_id,
            ),
    }
}

/// Whether `found` is what the address of `launcher_id` resolves to when `source` answers: the tip is
/// walked to, the tip's coin is authenticated, and only the launcher that it descends from decides.
pub open spec fn resolves_address<S: ChainSource>(
    source: &S,
    launcher_id: Seq<u8>,
    found: Result<Option<AddressView>, Fault>,
) -> bool {
    exists|tip: Result<Option<DidView>, Fault>| #[trigger]
        reaches_tip(source, launcher_id, tip) && resolves_from(source, launcher_id, tip, found)
}

/// A result with its address and its error replaced by their views.
pub open spec fn address_outcome(found: DidResult<Option<Address>>) -> Result<
    Option<AddressView>,
    Fault,
> {
    match found {
        Ok(Some(address)) => Ok(Some(address@)),
        Ok(None) => Ok(None),
        Err(error) => Err(error@),
    }
}

/// Resolves the current owner's XCH payment address of the DID launched as `launcher_id`. `None` means
/// that the DID has no current on-chain coin.
///
/// A source can show the tip of another DID, so the tip is authenticated by the parent-spend walk
/// before its owner is paid: [`DidError::LauncherMismatch`] where it descends from another launcher.
/// The other errors are those of [`walk_did_lineage_to_tip`] and [`authenticate_singleton`].
pub fn resolve_xch_address<S: ChainSource>(source: &S, launcher_id: Bytes32) -> (address: DidResult<
    Option<Address>,
>)
    ensures
        resolves_address(source, hash_bytes(launcher_id), address_outcome(address)),
{
    let walked = walk_did_lineage_to_tip(source, launcher_id);
    let ghost reached = tip_outcome(walked);
    assert(reaches_tip(source, hash_bytes(launcher_id), reached));
    let tip = match walked {
        Ok(Some(tip)) => tip,
        Ok(None) => {
            return Ok(None);
        },
        Err(error) => {
            return Err(error);
        },
    };
    let authenticated = authenticate_singleton(tip.coin.coin_id(), source);
    assert(authenticates(source, tip@.coin.id(), outcome(authenticated)));
    match authenticated {
        Err(error) => Err(error),
        Ok(lineage) => match owner_address(&tip, &lineage, &launcher_id) {
            Err(error) => Err(error),
            Ok(address) => Ok(Some(address)),
        },
    }
}

/// [`resolve_xch_address`] of the DID that a `did:chia:` string names, or
/// [`DidError::InvalidDidString`] where the string is malformed.
pub fn resolve_xch_address_from_did_string<S: ChainSource>(source: &S, text: &str) -> (address:
    DidResult<Option<Address>>)
    ensures
        match launcher_id_in(text@) {
            Err(fault) => address_outcome(address) == Err::<Option<AddressView>, Fault>(fault),
            Ok(launcher_id) => resolves_address(source, launcher_id, address_outcome(address)),
        },
{
    match launcher_id_from_did_string(text) {
        Err(error) => Err(error),
        Ok(launcher_id) => resolve_xch_address(source, launcher_id),
    }
}

/// A staged spend that reads back as the DID `child`, and recreates the singleton as its coin, hydrates to
/// `child`, and leads to it as the spend that created the tip.
pub proof fn staged_dids_are_found_at_their_tip(
    staged: CoinSpendView,
    did: DidView,
    inner: SpendView,
    child: DidView,
)
    requires
        reads_back_as(staged, did, inner, child),
        recreates_as(staged, did.info.launcher_id, child.coin),
    ensures
        hydrating(staged.coin, staged.puzzle_reveal, staged.solution, child.coin) == Ok::<
            DidView,
            Fault,
        >(child),
        tip_in(child.coin.id(), staged) == Ok::<DidView, Fault>(child),
{
}

/// The first coin of odd amount is of odd amount.
proof fn lemma_first_odd_is_odd(created: Seq<Option<CreatedCoinView>>)
    ensures
        first_odd(created) matches Some(coin) ==> coin.amount % 2 == 1,
    decreases created.len(),
{
    if created.len() > 0 {
        lemma_first_odd_is_odd(created.drop_first());
    }
}

/// A reconstructed tip is the coin that was asked for, of odd amount, and the DID that the spend which
/// created it hydrates to.
pub proof fn tips_are_the_coins_asked_for(tip_id: Seq<u8>, spend: CoinSpendView, tip: DidView)
    requires
        tip_in(tip_id, spend) == Ok::<DidView, Fault>(tip),
    ensures
        tip.coin.id() == tip_id,
        tip.coin.parent_coin_info == spend.coin.id(),
        tip.coin.amount % 2 == 1,
        hydrating(spend.coin, spend.puzzle_reveal, spend.solution, tip.coin) == Ok::<DidView, Fault>(
            tip,
        ),
{
    let layer = singleton_puzzle_in(spend.puzzle_reveal)->Ok_0->Some_0;
    let inner_solution = singleton_solution_in(spend.solution)->Ok_0;
    lemma_first_odd_is_odd(emitted(layer.inner_puzzle, inner_solution)->Ok_0);
}

/// With a source whose parent spends of the tip are those of the singleton that was asked for, the DID at
/// the tip is of that launcher.
pub proof fn tips_of_honest_sources_name_the_launcher<S: ChainSource>(
    source: &S,
    launcher_id: Seq<u8>,
    tip: DidView,
)
    requires
        reaches_tip(source, launcher_id, Ok(Some(tip))),
        forall|spend: CoinSpendView| #[trigger]
            may_reply(source, tip.coin.id(), Ok(Some(spend))) ==> recreates_coin(
                spend,
                launcher_id,
                tip.coin.id(),
            ),
    ensures
        tip.info.launcher_id == launcher_id,
{
    let found = Ok::<Option<DidView>, Fault>(Some(tip));
    let (lineage, parent) = choose|lineage: LineageReply, parent: ParentReply|
        may_resolve(source, launcher_id, lineage) && (lineage matches Ok(Some(known)) ==> may_reply(
            source,
            known.tip,
            parent,
        )) && follows_from_parent(parent, found) && #[trigger] tip_of_replies(lineage, parent) == found;
    let spend = parent->Ok_0->Some_0;
    tips_are_the_coins_asked_for(lineage->Ok_0->Some_0.tip, spend, tip);
    assert(may_reply(source, tip.coin.id(), Ok(Some(spend))));
}

/// Whatever a source replies, an address that is resolved for a launcher is the owner's address of a tip
/// whose genuine lineage ends at exactly that launcher.
pub proof fn addresses_are_of_the_launcher_asked_for<S: ChainSource>(
    source: &S,
    launcher_id: Seq<u8>,
    address: AddressView,
) -> (found: (DidView, Seq<CoinSpendView>))
    requires
        resolves_address(source, launcher_id, Ok(Some(address))),
    ensures
        address.puzzle_hash == found.0.info.p2_puzzle_hash,
        address.prefix == "xch"@,
        reaches_tip(source, launcher_id, Ok(Some(found.0))),
        is_genuine(found.0.coin.id(), found.1),
        found.1.last().coin.id() == launcher_id,
{
    let found = Ok::<Option<AddressView>, Fault>(Some(address));
    let reached = choose|tip: Result<Option<DidView>, Fault>| #[trigger]
        reaches_tip(source, launcher_id, tip) && resolves_from(source, launcher_id, tip, found);
    let tip = reached->Ok_0->Some_0;
    let walked = choose|walked: Result<AuthenticatedLineageView, Fault>| #[trigger]
        authenticates(source, tip.coin.id(), walked) && found == address_of_walk(
            tip,
            walked,
            launcher_id,
        );
    let spends = crate::walk::authenticated_lineages_are_genuine(
        source,
        tip.coin.id(),
        walked->Ok_0,
    );
    (tip, spends)
}

/// A tip is reconstructed exactly where the two programs of its parent's spend are CLVM trees, the parent's
/// puzzle has a singleton layer, the tip is the first coin of odd amount that its inner puzzle creates, in the
/// singleton puzzle of its launcher, and the driver reads a DID out of the spend; and then as that DID in
/// that coin. Each refusal has one cause.
pub proof fn tips_are_reconstructed_as_read(
    tip_id: Seq<u8>,
    spend: CoinSpendView,
    tip: DidView,
    text: Seq<char>,
)
    ensures
        tip_in(tip_id, spend) == Ok::<DidView, Fault>(tip) <==> {
            &&& clvm_fault(spend.puzzle_reveal) is None
            &&& clvm_fault(spend.solution) is None
            &&& singleton_puzzle_in(spend.puzzle_reveal) matches Ok(Some(layer))
            &&& singleton_solution_in(spend.solution) matches Ok(inner)
            &&& emitted(layer.inner_puzzle, inner) matches Ok(created)
            &&& first_odd(created) matches Some(coin)
            &&& tip.coin == CoinView {
                parent_coin_info: coin_id_of(spend.coin),
                puzzle_hash: singleton_puzzle_hash(layer.launcher_id, coin.puzzle_hash),
                amount: coin.amount,
            }
            &&& coin_id_of(tip.coin) == tip_id
            &&& did_child_in(spend.coin, spend.puzzle_reveal, spend.solution) == Ok::<
                Option<(DidInfoView, Seq<Seq<u8>>)>,
                Seq<char>,
            >(Some((tip.info, tip.proof)))
        },
        tip_in(tip_id, spend) == Err::<DidView, Fault>(Fault::Parse(text)) <==> {
            ||| clvm_fault(spend.puzzle_reveal) == Some(text)
            ||| clvm_fault(spend.puzzle_reveal) is None && clvm_fault(spend.solution) == Some(text)
            ||| {
                &&& clvm_fault(spend.puzzle_reveal) is None
                &&& clvm_fault(spend.solution) is None
                &&& singleton_puzzle_in(spend.puzzle_reveal) matches Ok(Some(layer))
                &&& singleton_solution_in(spend.solution) matches Ok(inner)
                &&& emitted(layer.inner_puzzle, inner) matches Err(reason)
                &&& reason == text
            }
        },
        tip_in(tip_id, spend) == Err::<DidView, Fault>(Fault::Driver(text)) <==> {
            &&& clvm_fault(spend.puzzle_reveal) is None
            &&& clvm_fault(spend.solution) is None
            &&& {
                ||| singleton_puzzle_in(spend.puzzle_reveal) matches Err(reason) && reason == text
                ||| singleton_puzzle_in(spend.puzzle_reveal) matches Ok(Some(layer))
                    && singleton_solution_in(spend.solution) matches Err(reason) && reason == text
                ||| {
                    &&& singleton_puzzle_in(spend.puzzle_reveal) matches Ok(Some(layer))
                    &&& successor_of(spend.coin, layer, spend.solution) matches Ok(Some(successor))
                    &&& coin_id_of(successor) == tip_id
                    &&& did_child_in(spend.coin, spend.puzzle_reveal, spend.solution) matches Err(reason)
                    &&& reason == text
                }
            }
        },
        tip_in(tip_id, spend) == Err::<DidView, Fault>(Fault::NotDid) <==> {
            &&& clvm_fault(spend.puzzle_reveal) is None
            &&& clvm_fault(spend.solution) is None
            &&& singleton_puzzle_in(spend.puzzle_reveal) matches Ok(read)
            &&& read matches Some(layer) ==> successor_of(spend.coin, layer, spend.solution) matches Ok(
                found,
            ) && (found matches Some(successor) ==> coin_id_of(successor) == tip_id ==> did_child_in(
                spend.coin,
                spend.puzzle_reveal,
                spend.solution,
            ) == Ok::<Option<(DidInfoView, Seq<Seq<u8>>)>, Seq<char>>(None))
        },
        tip_in(tip_id, spend) matches Err(fault) ==> fault is Parse || fault is Driver || fault is NotDid,
{
    if let Ok(found) = tip_in(tip_id, spend) {
        assert(found.coin == tip.coin && found.proof == tip.proof && found.info == tip.info ==> found
            == tip);
    }
}

/// Whatever a source replies, a DID that is found at a tip is exactly the DID that the parent spend which the
/// source gave for the tip hydrates to: the parent's DID, proven by the parent's coin, and owned by the hint
/// of the first coin of odd amount that the parent's inner puzzle creates, which is the tip. So the owner is
/// the one at the tip and not the parent's, and wherever the created coin is the DID, the tip's coin has the
/// hash of the tip's info.
pub proof fn tips_are_of_their_current_owner<S: ChainSource>(
    source: &S,
    launcher_id: Seq<u8>,
    tip: DidView,
) -> (met: (SingletonLineageView, CoinSpendView, CreatedCoinView))
    requires
        reaches_tip(source, launcher_id, Ok(Some(tip))),
    ensures
        may_resolve(source, launcher_id, Ok(Some(met.0))),
        may_reply(source, met.0.tip, Ok(Some(met.1))),
        coin_id_of(tip.coin) == met.0.tip,
        hydrating(met.1.coin, met.1.puzzle_reveal, met.1.solution, tip.coin) == Ok::<DidView, Fault>(tip),
        did_child_in(met.1.coin, met.1.puzzle_reveal, met.1.solution) == Ok::<
            Option<(DidInfoView, Seq<Seq<u8>>)>,
            Seq<char>,
        >(Some((tip.info, tip.proof))),
        singleton_emits(met.1.puzzle_reveal, met.1.solution) matches Some(created) && first_odd(created)
            == Some(met.2),
        met.2.memo == Some(Some(tip.info.p2_puzzle_hash)),
        did_info_in(met.1.puzzle_reveal) matches Ok(Some(own)) && {
            &&& tip.info.launcher_id == own.launcher_id
            &&& tip.info.recovery_list_hash == own.recovery_list_hash
            &&& tip.info.num_verifications_required == own.num_verifications_required
            &&& tip.info.metadata == own.metadata
            &&& tip.proof == seq![
                met.1.coin.parent_coin_info,
                did_inner_puzzle_hash(own),
                int_atom(met.1.coin.amount as nat),
            ]
        },
        tip.coin.parent_coin_info == coin_id_of(met.1.coin),
        tip.coin.puzzle_hash == singleton_puzzle_hash(tip.info.launcher_id, met.2.puzzle_hash),
        tip.coin.amount == met.2.amount,
        met.2.puzzle_hash == tip.info.inner_puzzle_hash() ==> tip.coin.puzzle_hash
            == tip.info.puzzle_hash(),
{
    let found = Ok::<Option<DidView>, Fault>(Some(tip));
    let (reply, parent) = choose|lineage: LineageReply, parent: ParentReply|
        may_resolve(source, launcher_id, lineage) && (lineage matches Ok(Some(known)) ==> may_reply(
            source,
            known.tip,
            parent,
        )) && follows_from_parent(parent, found) && #[trigger] tip_of_replies(lineage, parent) == found;
    let lineage = reply->Ok_0->Some_0;
    let spend = parent->Ok_0->Some_0;
    tips_are_reconstructed_as_read(lineage.tip, spend, tip, Seq::empty());
    children_are_hydrated_as_read(
        spend.coin,
        spend.puzzle_reveal,
        spend.solution,
        tip.coin,
        tip,
        Seq::empty(),
    );
    let created = singleton_emits(spend.puzzle_reveal, spend.solution)->Some_0;
    (lineage, spend, first_odd(created)->Some_0)
}

/// Whatever a source replies, a walk to the tip that finds none tells why. There is no current coin exactly
/// where the source reports no lineage; a failed read is told as such; a tip without a parent spend is no
/// identity; and otherwise the spend that the source gave for the tip does not lead to a DID there.
pub proof fn walks_without_a_tip_tell_why<S: ChainSource>(
    source: &S,
    launcher_id: Seq<u8>,
    found: Result<Option<DidView>, Fault>,
) -> (met: (LineageReply, ParentReply))
    requires
        reaches_tip(source, launcher_id, found),
        !(found matches Ok(Some(_))),
    ensures
        may_resolve(source, launcher_id, met.0),
        match met.0 {
            Err(text) => found == Err::<Option<DidView>, Fault>(Fault::Chain(text)),
            Ok(None) => found == Ok::<Option<DidView>, Fault>(None),
            Ok(Some(lineage)) => {
                &&& may_reply(source, lineage.tip, met.1)
                &&& match met.1 {
                    Err(text) => found == Err::<Option<DidView>, Fault>(Fault::Chain(text)),
                    Ok(None) => found == Err::<Option<DidView>, Fault>(Fault::NoIdentitySingleton),
                    Ok(Some(spend)) => found matches Err(fault) && tip_in(lineage.tip, spend) == Err::<
                        DidView,
                        Fault,
                    >(fault),
                }
            },
        },
{
    choose|lineage: LineageReply, parent: ParentReply|
        may_resolve(source, launcher_id, lineage) && (lineage matches Ok(Some(known)) ==> may_reply(
            source,
            known.tip,
            parent,
        )) && follows_from_parent(parent, found) && #[trigger] tip_of_replies(lineage, parent) == found
}

/// With a source that reports one lineage, and for its tip the spend that recreates the singleton as the tip's
/// coin and hydrates to `did` there, the walk to the tip finds exactly `did`.
pub proof fn known_dids_are_found_at_their_tip<S: ChainSource>(
    source: &S,
    launcher_id: Seq<u8>,
    lineage: SingletonLineageView,
    spend: CoinSpendView,
    did: DidView,
    found: Result<Option<DidView>, Fault>,
)
    requires
        reaches_tip(source, launcher_id, found),
        forall|reply: LineageReply| #[trigger]
            may_resolve(source, launcher_id, reply) ==> reply == Ok::<
                Option<SingletonLineageView>,
                Seq<char>,
            >(Some(lineage)),
        forall|reply: ParentReply| #[trigger]
            may_reply(source, lineage.tip, reply) ==> reply == Ok::<Option<CoinSpendView>, Seq<char>>(
                Some(spend),
            ),
        lineage.tip == did.coin.id(),
        exists|named: Seq<u8>| #[trigger] recreates_as(spend, named, did.coin),
        hydrating(spend.coin, spend.puzzle_reveal, spend.solution, did.coin) == Ok::<DidView, Fault>(did),
    ensures
        found == Ok::<Option<DidView>, Fault>(Some(did)),
{
    tips_are_reconstructed_as_read(lineage.tip, spend, did, Seq::empty());
    children_are_hydrated_as_read(
        spend.coin,
        spend.puzzle_reveal,
        spend.solution,
        did.coin,
        did,
        Seq::empty(),
    );
    assert(tip_in(lineage.tip, spend) == Ok::<DidView, Fault>(did));
}

/// The owner's address of a tip is given exactly where the tip descends from the launcher asked for, and is the
/// tip's owner hash as a payment address; otherwise the launchers do not match.
pub proof fn only_the_authenticated_launcher_decides(
    tip: DidView,
    authenticated: AuthenticatedLineageView,
    launcher_id: Seq<u8>,
    address: AddressView,
)
    ensures
        address_of_tip(tip, authenticated, launcher_id) == Ok::<AddressView, Fault>(address) <==> {
            &&& authenticated.launcher_id == launcher_id
            &&& address.puzzle_hash == tip.info.p2_puzzle_hash
            &&& address.prefix == "xch"@
        },
        address_of_tip(tip, authenticated, launcher_id) is Err <==> authenticated.launcher_id
            != launcher_id,
        address_of_tip(tip, authenticated, launcher_id) matches Err(fault) ==> fault
            == Fault::LauncherMismatch,
{
    if let Ok(given) = address_of_tip(tip, authenticated, launcher_id) {
        assert(given.puzzle_hash == address.puzzle_hash && given.prefix == address.prefix ==> given
            == address);
    }
}

/// Whatever a source replies, an address that is resolved is the current owner's: the hint of the first coin of
/// odd amount that the inner puzzle of the tip's parent creates, in the spend that the source gave for the
/// tip.
pub proof fn addresses_are_of_the_current_owner<S: ChainSource>(
    source: &S,
    launcher_id: Seq<u8>,
    address: AddressView,
) -> (met: (DidView, CoinSpendView, CreatedCoinView))
    requires
        resolves_address(source, launcher_id, Ok(Some(address))),
    ensures
        address.prefix == "xch"@,
        met.2.memo == Some(Some(address.puzzle_hash)),
        may_reply(source, met.0.coin.id(), Ok(Some(met.1))),
        hydrating(met.1.coin, met.1.puzzle_reveal, met.1.solution, met.0.coin) == Ok::<DidView, Fault>(
            met.0,
        ),
        met.0.info.p2_puzzle_hash == address.puzzle_hash,
        singleton_emits(met.1.puzzle_reveal, met.1.solution) matches Some(created) && first_odd(created)
            == Some(met.2),
{
    let found = addresses_are_of_the_launcher_asked_for(source, launcher_id, address);
    let met = tips_are_of_their_current_owner(source, launcher_id, found.0);
    (found.0, met.1, met.2)
}

/// Whatever a source replies, an address that is not resolved has its reason. There is none to resolve exactly
/// where the walk to the tip finds no current coin. An error is that of this walk, or that of the
/// authentication of the tip's coin, or the tip has a genuine lineage that ends at another launcher.
pub proof fn unresolved_addresses_tell_why<S: ChainSource>(
    source: &S,
    launcher_id: Seq<u8>,
    found: Result<Option<AddressView>, Fault>,
) -> (met: (Result<Option<DidView>, Fault>, Seq<CoinSpendView>))
    requires
        resolves_address(source, launcher_id, found),
        !(found matches Ok(Some(_))),
    ensures
        reaches_tip(source, launcher_id, met.0),
        match met.0 {
            Err(fault) => found == Err::<Option<AddressView>, Fault>(fault),
            Ok(None) => found == Ok::<Option<AddressView>, Fault>(None),
            Ok(Some(tip)) => found matches Err(fault) && {
                ||| authenticates(source, tip.coin.id(), Err(fault))
                ||| {
                    &&& fault == Fault::LauncherMismatch
                    &&& is_genuine(tip.coin.id(), met.1)
                    &&& coin_id_of(met.1.last().coin) != launcher_id
                }
            },
        },
{
    let reached = choose|tip: Result<Option<DidView>, Fault>| #[trigger]
        reaches_tip(source, launcher_id, tip) && resolves_from(source, launcher_id, tip, found);
    match reached {
        Ok(Some(tip)) => {
            let walked = choose|walked: Result<AuthenticatedLineageView, Fault>| #[trigger]
                authenticates(source, tip.coin.id(), walked) && found == address_of_walk(
                    tip,
                    walked,
                    launcher_id,
                );
            match walked {
                Ok(lineage) => {
                    let spends = crate::walk::authenticated_lineages_are_genuine(
                        source,
                        tip.coin.id(),
                        lineage,
                    );
                    (reached, spends)
                },
                Err(_) => (reached, Seq::empty()),
            }
        },
        _ => (reached, Seq::empty()),
    }
}

/// With a source that reports one lineage, and knows the genuine lineage of its tip, no deeper than the bound,
/// whose newest spend recreates the singleton as the tip's coin and hydrates to `did` there, the address of
/// the launcher that the lineage ends at is the current owner's, however long the lineage is, and no other
/// launcher has one.
pub proof fn addresses_of_known_dids_resolve<S: ChainSource>(
    source: &S,
    launcher_id: Seq<u8>,
    lineage: SingletonLineageView,
    spends: Seq<CoinSpendView>,
    did: DidView,
    found: Result<Option<AddressView>, Fault>,
)
    requires
        resolves_address(source, launcher_id, found),
        forall|reply: LineageReply| #[trigger]
            may_resolve(source, launcher_id, reply) ==> reply == Ok::<
                Option<SingletonLineageView>,
                Seq<char>,
            >(Some(lineage)),
        lineage.tip == did.coin.id(),
        is_genuine(did.coin.id(), spends),
        knows_lineage(source, did.coin.id(), spends),
        spends.len() <= MAX_LINEAGE_DEPTH,
        exists|named: Seq<u8>| #[trigger] recreates_as(spends[0], named, did.coin),
        hydrating(spends[0].coin, spends[0].puzzle_reveal, spends[0].solution, did.coin) == Ok::<
            DidView,
            Fault,
        >(did),
    ensures
        if coin_id_of(spends.last().coin) == launcher_id {
            found matches Ok(Some(address)) && {
                &&& address.puzzle_hash == did.info.p2_puzzle_hash
                &&& address.prefix == "xch"@
            }
        } else {
            found == Err::<Option<AddressView>, Fault>(Fault::LauncherMismatch)
        },
{
    let reached = choose|tip: Result<Option<DidView>, Fault>| #[trigger]
        reaches_tip(source, launcher_id, tip) && resolves_from(source, launcher_id, tip, found);
    let ids = seq![did.coin.id()] + spent_ids(spends);
    assert(ids[0] == lineage.tip);
    assert forall|reply: ParentReply| #[trigger] may_reply(source, lineage.tip, reply) implies reply
        == Ok::<Option<CoinSpendView>, Seq<char>>(Some(spends[0])) by {
        assert(may_reply(source, ids[0], reply));
    }
    known_dids_are_found_at_their_tip(source, launcher_id, lineage, spends[0], did, reached);
    let walked = choose|walked: Result<AuthenticatedLineageView, Fault>| #[trigger]
        authenticates(source, did.coin.id(), walked) && found == address_of_walk(
            did,
            walked,
            launcher_id,
        );
    known_lineages_authenticate(source, did.coin.id(), spends, walked);
}

/// A source may reply with what it returns when it is asked for the lineage of that very launcher, and with
/// nothing else.
pub proof fn lineage_replies_are_for_the_launcher_asked_for<S: ChainSource>(
    source: &S,
    id: Bytes32,
    answer: Result<Option<SingletonLineage>, String>,
    launcher_id: Seq<u8>,
    reply: LineageReply,
) -> (asked: (Bytes32, Result<Option<SingletonLineage>, String>))
    ensures
        call_ensures(S::resolve_singleton_lineage, (source, id), answer) ==> may_resolve(
            source,
            hash_bytes(id),
            match answer {
                Ok(Some(lineage)) => Ok(Some(lineage@)),
                Ok(None) => Ok(None),
                Err(text) => Err(text@),
            },
        ),
        may_resolve(source, launcher_id, reply) ==> {
            &&& hash_bytes(asked.0) == launcher_id
            &&& call_ensures(S::resolve_singleton_lineage, (source, asked.0), asked.1)
            &&& match (asked.1, reply) {
                (Ok(Some(lineage)), Ok(Some(told))) => told == lineage@,
                (Ok(None), Ok(None)) => true,
                (Err(text), Err(told)) => told == text@,
                _ => false,
            }
        },
{
    if call_ensures(S::resolve_singleton_lineage, (source, id), answer) {
        assert(may_resolve(source, hash_bytes(id), lineage_reply(answer)));
    }
    choose|id: Bytes32, answer: Result<Option<SingletonLineage>, String>|
        hash_bytes(id) == launcher_id && lineage_reply(answer) == reply && #[trigger] call_ensures(
            S::resolve_singleton_lineage,
            (source, id),
            answer,
        )
}

/// What a walk to a tip and a resolution of an address return is told as it is: a tip as a tip, an address as an
/// address, none as none, and an error as that error.
pub proof fn tips_and_addresses_are_told_as_returned(
    tip: DidResult<Option<DidTip>>,
    address: DidResult<Option<Address>>,
)
    ensures
        match tip {
            Ok(Some(found)) => tip_outcome(tip) == Ok::<Option<DidView>, Fault>(Some(found@)),
            Ok(None) => tip_outcome(tip) == Ok::<Option<DidView>, Fault>(None),
            Err(error) => tip_outcome(tip) == Err::<Option<DidView>, Fault>(error@),
        },
        match address {
            Ok(Some(found)) => address_outcome(address) == Ok::<Option<AddressView>, Fault>(
                Some(found@),
            ),
            Ok(None) => address_outcome(address) == Ok::<Option<AddressView>, Fault>(None),
            Err(error) => address_outcome(address) == Err::<Option<AddressView>, Fault>(error@),
        },
{
}

} // verus!
