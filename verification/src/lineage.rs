//! Lineage proof: authenticating that a coin belongs to a DID's identity.
//!
//! [`prove_lineage`] answers one question, whether a coin is rooted in a DID, by exactly two models:
//! the coin is a state of the DID singleton itself, or it is a distinct singleton whose launcher was
//! created by a coin of the DID's lineage. Membership counts, not equality with the tip: launching from
//! a DID recreates the DID coin in the same spend. Everything else fails closed; in particular a coin
//! that a DID coin merely paid to someone has no singleton structure and is refused.
use vstd::prelude::*;

use chia_protocol::Bytes32;

use crate::bytes::same_hash;
use crate::error::{DidError, DidResult};
use crate::chain::{copy_hashes, ChainSource, SingletonLineage};
use crate::walk::{authenticate_singleton, AuthenticatedLineage};
use crate::types::Did;

#[allow(unused_imports)]
use crate::bytes::hash_bytes;
#[allow(unused_imports)]
use crate::error::{outcome, Fault};
#[allow(unused_imports)]
use crate::chain::{all_hash_bytes, SingletonLineageView, MAX_LINEAGE_DEPTH};
#[allow(unused_imports)]
use crate::driver::coin_id_of;
#[allow(unused_imports)]
use crate::resolve::{lineage_reply, may_resolve, LineageReply};
#[allow(unused_imports)]
use crate::walk::{
    authenticated_lineages_are_genuine, authenticates, is_genuine, known_lineages_authenticate,
    knows_lineage, spent_ids, AuthenticatedLineageView,
};
#[allow(unused_imports)]
use crate::types::CoinSpendView;

verus! {

/// How a coin is rooted in a DID's identity.
#[derive(Debug, Clone, Copy, PartialEq, Eq)]
pub enum LineageModel {
    /// The coin is a state of the DID singleton itself.
    Direct,
    /// The coin is a distinct singleton that was launched from the DID.
    LaunchedFrom {
        /// The authenticated launcher id of the distinct singleton.
        launcher: Bytes32,
        /// The coin of the DID's lineage that created that launcher.
        did_parent: Bytes32,
    },
}

/// A [`LineageModel`] with its ids as bytes.
#[verifier::ext_equal]
pub enum LineageModelView {
    Direct,
    LaunchedFrom { launcher: Seq<u8>, did_parent: Seq<u8> },
}

impl View for LineageModel {
    type V = LineageModelView;

    open spec fn view(&self) -> LineageModelView {
        match *self {
            LineageModel::Direct => LineageModelView::Direct,
            LineageModel::LaunchedFrom { launcher, did_parent } => LineageModelView::LaunchedFrom {
                launcher: hash_bytes(launcher),
                did_parent: hash_bytes(did_parent),
            },
        }
    }
}

/// A chain-authenticated proof that a coin is rooted in a DID's identity. Its fields are private: the
/// only way to one is [`prove_lineage`].
#[derive(Debug, PartialEq, Eq)]
pub struct AncestryProof {
    coin_id: Bytes32,
    did_launcher_id: Bytes32,
    model: LineageModel,
    did_lineage_tip: Bytes32,
    authenticated_launcher: Bytes32,
    chain: Vec<Bytes32>,
}

/// An [`AncestryProof`] with its ids as bytes.
#[verifier::ext_equal]
pub struct AncestryProofView {
    pub coin_id: Seq<u8>,
    pub did_launcher_id: Seq<u8>,
    pub model: LineageModelView,
    pub did_lineage_tip: Seq<u8>,
    pub authenticated_launcher: Seq<u8>,
    pub chain: Seq<Seq<u8>>,
}

impl View for AncestryProof {
    type V = AncestryProofView;

    closed spec fn view(&self) -> AncestryProofView {
        AncestryProofView {
            coin_id: hash_bytes(self.coin_id),
            did_launcher_id: hash_bytes(self.did_launcher_id),
            model: self.model@,
            did_lineage_tip: hash_bytes(self.did_lineage_tip),
            authenticated_launcher: hash_bytes(self.authenticated_launcher),
            chain: all_hash_bytes(self.chain@),
        }
    }
}

/// Whether a proof's model fits its launchers: the coin's own launcher is the DID's exactly in the
/// direct model, and in the other it is the launched singleton's.
pub open spec fn model_fits(proof: AncestryProofView) -> bool {
    match proof.model {
        LineageModelView::Direct => proof.authenticated_launcher == proof.did_launcher_id,
        LineageModelView::LaunchedFrom { launcher, .. } => {
            &&& launcher == proof.authenticated_launcher
            &&& launcher != proof.did_launcher_id
        },
    }
}

impl AncestryProof {
    /// The model fits the launchers.
    #[verifier::type_invariant]
    pub(crate) closed spec fn well_formed(self) -> bool {
        model_fits(self@)
    }

    /// The coin that this proof authenticates.
    pub fn coin_id(&self) -> (id: Bytes32)
        ensures
            hash_bytes(id) == self@.coin_id,
    {
        self.coin_id
    }

    /// The launcher id of the DID that the coin is rooted in.
    pub fn did_launcher_id(&self) -> (id: Bytes32)
        ensures
            hash_bytes(id) == self@.did_launcher_id,
    {
        self.did_launcher_id
    }

    /// Which model roots the coin in the DID. It always fits the launchers.
    pub fn model(&self) -> (model: LineageModel)
        ensures
            model@ == self@.model,
            model_fits(self@),
    {
        proof {
            use_type_invariant(self);
        }
        self.model
    }

    /// The DID singleton's unspent tip at the time of the proof.
    pub fn did_lineage_tip(&self) -> (id: Bytes32)
        ensures
            hash_bytes(id) == self@.did_lineage_tip,
    {
        self.did_lineage_tip
    }

    /// The launcher id that the coin itself authenticated to.
    pub fn authenticated_launcher(&self) -> (id: Bytes32)
        ensures
            hash_bytes(id) == self@.authenticated_launcher,
    {
        self.authenticated_launcher
    }

    /// The coin ids walked, from the proven coin to its launcher, both included.
    pub fn chain(&self) -> (ids: &[Bytes32])
        ensures
            all_hash_bytes(ids@) == self@.chain,
    {
        self.chain.as_slice()
    }
}

impl Clone for AncestryProof {
    fn clone(&self) -> (copy: AncestryProof)
        ensures
            copy@ == self@,
    {
        proof {
            use_type_invariant(self);
        }
        AncestryProof {
            coin_id: self.coin_id,
            did_launcher_id: self.did_launcher_id,
            model: self.model,
            did_lineage_tip: self.did_lineage_tip,
            authenticated_launcher: self.authenticated_launcher,
            chain: copy_hashes(&self.chain),
        }
    }
}

/// Which model roots a coin of an authenticated lineage in the DID launched as `did_launcher_id`, whose
/// own lineage has the members `members`.
pub open spec fn modelling(
    did_launcher_id: Seq<u8>,
    members: Set<Seq<u8>>,
    authenticated: AuthenticatedLineageView,
) -> Result<LineageModelView, Fault> {
    let did_parent = authenticated.launcher_coin.parent_coin_info;
    if authenticated.launcher_id == did_launcher_id {
        Ok(LineageModelView::Direct)
    } else if members.contains(did_parent) {
        Ok(LineageModelView::LaunchedFrom { launcher: authenticated.launcher_id, did_parent })
    } else {
        Err(Fault::NotDidRooted)
    }
}

/// Which model roots a coin of an authenticated lineage in a DID, or [`DidError::NotDidRooted`] where
/// none does. It proves nothing by itself: only [`prove_lineage`] gives an [`AncestryProof`].
pub fn lineage_model(
    did_launcher_id: &Bytes32,
    did_lineage: &SingletonLineage,
    authenticated: &AuthenticatedLineage,
) -> (model: DidResult<LineageModel>)
    ensures
        outcome(model) == modelling(
            hash_bytes(*did_launcher_id),
            did_lineage@.members,
            authenticated@,
        ),
{
    let launcher = authenticated.launcher_id();
    if same_hash(&launcher, did_launcher_id) {
        return Ok(LineageModel::Direct);
    }
    let did_parent = authenticated.launcher_coin().parent_coin_info;
    if !did_lineage.contains(did_parent) {
        return Err(DidError::NotDidRooted);
    }
    Ok(LineageModel::LaunchedFrom { launcher, did_parent })
}

/// The proof that a coin of an authenticated lineage is rooted in the DID launched as
/// `did_launcher_id`, whose own lineage is `did_lineage`.
pub open spec fn rooting(
    coin_id: Seq<u8>,
    did_launcher_id: Seq<u8>,
    did_lineage: SingletonLineageView,
    authenticated: AuthenticatedLineageView,
) -> Result<AncestryProofView, Fault> {
    match modelling(did_launcher_id, did_lineage.members, authenticated) {
        Err(fault) => Err(fault),
        Ok(model) => Ok(
            AncestryProofView {
                coin_id,
                did_launcher_id,
                model,
                did_lineage_tip: did_lineage.tip,
                authenticated_launcher: authenticated.launcher_id,
                chain: authenticated.trail,
            },
        ),
    }
}

/// Roots a coin of an authenticated lineage in a DID, or refuses it with [`DidError::NotDidRooted`].
fn root_in_did(
    coin_id: Bytes32,
    did_launcher_id: Bytes32,
    did_lineage: &SingletonLineage,
    authenticated: AuthenticatedLineage,
) -> (rooted: DidResult<AncestryProof>)
    ensures
        outcome(rooted) == rooting(
            hash_bytes(coin_id),
            hash_bytes(did_launcher_id),
            did_lineage@,
            authenticated@,
        ),
{
    match lineage_model(&did_launcher_id, did_lineage, &authenticated) {
        Err(error) => Err(error),
        Ok(model) => {
            let authenticated_launcher = authenticated.launcher_id();
            Ok(
                AncestryProof {
                    coin_id,
                    did_launcher_id,
                    model,
                    did_lineage_tip: did_lineage.tip(),
                    authenticated_launcher,
                    chain: authenticated.into_trail(),
                },
            )
        },
    }
}

/// What proving a coin's lineage comes to when the walk from it came to `walked`.
pub open spec fn proof_of_walk(
    coin_id: Seq<u8>,
    did_launcher_id: Seq<u8>,
    did_lineage: SingletonLineageView,
    walked: Result<AuthenticatedLineageView, Fault>,
) -> Result<AncestryProofView, Fault> {
    match walked {
        Err(fault) => Err(fault),
        Ok(authenticated) => rooting(coin_id, did_launcher_id, did_lineage, authenticated),
    }
}

/// Whether `found` is what proving the lineage of `coin_id` comes to when `source` has answered
/// `lineage` for the DID's own, and answers for the parent spends along the coin's.
pub open spec fn proves_with<S: ChainSource>(
    source: &S,
    coin_id: Seq<u8>,
    did_launcher_id: Seq<u8>,
    lineage: LineageReply,
    found: Result<AncestryProofView, Fault>,
) -> bool {
    match lineage {
        Err(text) => found == Err::<AncestryProofView, Fault>(Fault::Chain(text)),
        Ok(None) => found == Err::<AncestryProofView, Fault>(Fault::NoIdentitySingleton),
        Ok(Some(did_lineage)) => exists|walked: Result<AuthenticatedLineageView, Fault>| #[trigger]
            authenticates(source, coin_id, walked) && found == proof_of_walk(
                coin_id,
                did_launcher_id,
                did_lineage,
                walked,
            ),
    }
}

/// Whether `found` is what proving the lineage of `coin_id` comes to when `source` answers: it is asked
/// for the DID's own lineage, and then for the parent spends along the coin's.
pub open spec fn proves<S: ChainSource>(
    source: &S,
    coin_id: Seq<u8>,
    did_launcher_id: Seq<u8>,
    found: Result<AncestryProofView, Fault>,
) -> bool {
    exists|lineage: LineageReply| #[trigger]
        may_resolve(source, did_launcher_id, lineage) && proves_with(
            source,
            coin_id,
            did_launcher_id,
            lineage,
            found,
        )
}

/// Proves that `coin_id` is rooted in `did`'s identity, reading chain state through `chain`.
///
/// # Errors
///
/// - [`DidError::NoIdentitySingleton`] if the DID has no current on-chain coin.
/// - [`DidError::NotDidRooted`] if the coin is a genuine singleton but neither the DID nor launched from
///   a coin of its lineage.
/// - [`DidError::Chain`] if a read failed.
/// - The errors of [`authenticate_singleton`], [`DidError::NotASingleton`] and
///   [`DidError::LineageTooDeep`] among them.
pub fn prove_lineage<S: ChainSource>(coin_id: Bytes32, did: &Did, chain: &S) -> (proven: DidResult<
    AncestryProof,
>)
    ensures
        proves(chain, hash_bytes(coin_id), did@.info.launcher_id, outcome(proven)),
{
    let did_launcher_id = did.info.launcher_id;
    // The DID's own lineage anchors the proof. A missing one is fail-closed.
    let reply = chain.resolve_singleton_lineage(did_launcher_id);
    let ghost known = lineage_reply(reply);
    assert(may_resolve(chain, hash_bytes(did_launcher_id), known));
    let did_lineage = match reply {
        Ok(Some(lineage)) => lineage,
        Ok(None) => {
            return Err(DidError::NoIdentitySingleton);
        },
        Err(text) => {
            return Err(DidError::Chain(text));
        },
    };
    let authenticated = authenticate_singleton(coin_id, chain);
    assert(authenticates(chain, hash_bytes(coin_id), outcome(authenticated)));
    match authenticated {
        Err(error) => Err(error),
        Ok(lineage) => root_in_did(coin_id, did_launcher_id, &did_lineage, lineage),
    }
}

/// Whatever a source replies, a proof of lineage stands on a genuine lineage of the coin and on the
/// lineage that the source reported for the DID. The trail leads from the coin to its launcher. In the
/// direct model that launcher is the DID's; in the other it is another launcher, and the coin that
/// created it is a member of the DID's lineage.
pub proof fn proofs_root_the_coin_in_the_did<S: ChainSource>(
    source: &S,
    coin_id: Seq<u8>,
    did_launcher_id: Seq<u8>,
    proof: AncestryProofView,
) -> (found: (SingletonLineageView, Seq<CoinSpendView>))
    requires
        proves(source, coin_id, did_launcher_id, Ok(proof)),
    ensures
        may_resolve(source, did_launcher_id, Ok(Some(found.0))),
        is_genuine(coin_id, found.1),
        proof.coin_id == coin_id,
        proof.did_launcher_id == did_launcher_id,
        proof.did_lineage_tip == found.0.tip,
        proof.authenticated_launcher == found.1.last().coin.id(),
        proof.chain == seq![coin_id] + spent_ids(found.1),
        match proof.model {
            LineageModelView::Direct => proof.authenticated_launcher == did_launcher_id,
            LineageModelView::LaunchedFrom { launcher, did_parent } => {
                &&& launcher == proof.authenticated_launcher
                &&& launcher != did_launcher_id
                &&& did_parent == found.1.last().coin.parent_coin_info
                &&& found.0.members.contains(did_parent)
            },
        },
{
    let found = Ok::<AncestryProofView, Fault>(proof);
    let reply = choose|lineage: LineageReply| #[trigger]
        may_resolve(source, did_launcher_id, lineage) && proves_with(
            source,
            coin_id,
            did_launcher_id,
            lineage,
            found,
        );
    let did_lineage = reply->Ok_0->Some_0;
    let walked = choose|walked: Result<AuthenticatedLineageView, Fault>| #[trigger]
        authenticates(source, coin_id, walked) && found == proof_of_walk(
            coin_id,
            did_launcher_id,
            did_lineage,
            walked,
        );
    let spends = authenticated_lineages_are_genuine(source, coin_id, walked->Ok_0);
    (did_lineage, spends)
}

/// A genuine singleton is rooted in a DID exactly where its launcher is the DID's or was created by a
/// coin of the DID's lineage; every other one is refused.
pub proof fn rooting_is_membership(
    coin_id: Seq<u8>,
    did_launcher_id: Seq<u8>,
    did_lineage: SingletonLineageView,
    authenticated: AuthenticatedLineageView,
)
    ensures
        rooting(coin_id, did_launcher_id, did_lineage, authenticated) is Ok <==> {
            ||| authenticated.launcher_id == did_launcher_id
            ||| did_lineage.members.contains(authenticated.launcher_coin.parent_coin_info)
        },
        rooting(coin_id, did_launcher_id, did_lineage, authenticated) matches Err(fault) ==> fault
            == Fault::NotDidRooted,
        rooting(coin_id, did_launcher_id, did_lineage, authenticated) matches Ok(proof) ==>
            model_fits(proof),
{
}

/// The model of a coin is direct exactly where its launcher is the DID's. It is launched from the DID exactly
/// where its launcher is another, created by a member of the DID's lineage, and then names both. Every other
/// coin has none.
pub proof fn models_tell_how_a_coin_is_rooted(
    did_launcher_id: Seq<u8>,
    members: Set<Seq<u8>>,
    authenticated: AuthenticatedLineageView,
    launcher: Seq<u8>,
    did_parent: Seq<u8>,
)
    ensures
        modelling(did_launcher_id, members, authenticated) == Ok::<LineageModelView, Fault>(
            LineageModelView::Direct,
        ) <==> authenticated.launcher_id == did_launcher_id,
        modelling(did_launcher_id, members, authenticated) == Ok::<LineageModelView, Fault>(
            LineageModelView::LaunchedFrom { launcher, did_parent },
        ) <==> {
            &&& launcher == authenticated.launcher_id
            &&& launcher != did_launcher_id
            &&& did_parent == authenticated.launcher_coin.parent_coin_info
            &&& members.contains(did_parent)
        },
        modelling(did_launcher_id, members, authenticated) is Err <==> {
            &&& authenticated.launcher_id != did_launcher_id
            &&& !members.contains(authenticated.launcher_coin.parent_coin_info)
        },
        modelling(did_launcher_id, members, authenticated) matches Err(fault) ==> fault
            == Fault::NotDidRooted,
{
}

/// With a source that reports one lineage for the DID, and knows the genuine lineage of a coin, no deeper than
/// the bound, the coin is proven exactly where the launcher that its lineage ends at is the DID's or was
/// created by a member of the DID's lineage, however long the coin's lineage is. The proof tells which of the
/// two holds, and every coin from the one proven to its launcher. Any other coin is not rooted in the DID.
pub proof fn known_singletons_of_a_did_are_proven<S: ChainSource>(
    source: &S,
    coin_id: Seq<u8>,
    did_launcher_id: Seq<u8>,
    did_lineage: SingletonLineageView,
    spends: Seq<CoinSpendView>,
    found: Result<AncestryProofView, Fault>,
)
    requires
        proves(source, coin_id, did_launcher_id, found),
        forall|reply: LineageReply| #[trigger]
            may_resolve(source, did_launcher_id, reply) ==> reply == Ok::<
                Option<SingletonLineageView>,
                Seq<char>,
            >(Some(did_lineage)),
        is_genuine(coin_id, spends),
        knows_lineage(source, coin_id, spends),
        spends.len() <= MAX_LINEAGE_DEPTH,
    ensures
        ({
            let launcher = spends.last().coin;
            let launcher_id = coin_id_of(launcher);
            if launcher_id == did_launcher_id || did_lineage.members.contains(launcher.parent_coin_info) {
                found matches Ok(proof) && {
                    &&& proof.coin_id == coin_id
                    &&& proof.did_launcher_id == did_launcher_id
                    &&& proof.did_lineage_tip == did_lineage.tip
                    &&& proof.authenticated_launcher == launcher_id
                    &&& proof.model == (if launcher_id == did_launcher_id {
                        LineageModelView::Direct
                    } else {
                        LineageModelView::LaunchedFrom {
                            launcher: launcher_id,
                            did_parent: launcher.parent_coin_info,
                        }
                    })
                    &&& proof.chain.len() == spends.len() + 1
                    &&& proof.chain[0] == coin_id
                    &&& forall|i: int|
                        0 <= i < spends.len() ==> proof.chain[i + 1] == coin_id_of(
                            (#[trigger] spends[i]).coin,
                        )
                }
            } else {
                found == Err::<AncestryProofView, Fault>(Fault::NotDidRooted)
            }
        }),
{
    let reply = choose|lineage: LineageReply| #[trigger]
        may_resolve(source, did_launcher_id, lineage) && proves_with(
            source,
            coin_id,
            did_launcher_id,
            lineage,
            found,
        );
    let walked = choose|walked: Result<AuthenticatedLineageView, Fault>| #[trigger]
        authenticates(source, coin_id, walked) && found == proof_of_walk(
            coin_id,
            did_launcher_id,
            did_lineage,
            walked,
        );
    known_lineages_authenticate(source, coin_id, spends, walked);
}

/// Whatever a source replies, a coin that is not proven has its reason. A failed read of the DID's lineage is
/// told as such, and without one there is no identity. Otherwise the coin did not authenticate, with the
/// error of that, or it has a genuine lineage, whose launcher is neither the DID's nor created by a member of
/// the lineage that the source reported.
pub proof fn unproven_coins_tell_why<S: ChainSource>(
    source: &S,
    coin_id: Seq<u8>,
    did_launcher_id: Seq<u8>,
    fault: Fault,
) -> (met: (LineageReply, Seq<CoinSpendView>))
    requires
        proves(source, coin_id, did_launcher_id, Err(fault)),
    ensures
        may_resolve(source, did_launcher_id, met.0),
        match met.0 {
            Err(text) => fault == Fault::Chain(text),
            Ok(None) => fault == Fault::NoIdentitySingleton,
            Ok(Some(did_lineage)) => {
                ||| authenticates(source, coin_id, Err(fault))
                ||| {
                    &&& fault == Fault::NotDidRooted
                    &&& is_genuine(coin_id, met.1)
                    &&& met.1.len() <= MAX_LINEAGE_DEPTH
                    &&& coin_id_of(met.1.last().coin) != did_launcher_id
                    &&& !did_lineage.members.contains(met.1.last().coin.parent_coin_info)
                }
            },
        },
{
    let found = Err::<AncestryProofView, Fault>(fault);
    let reply = choose|lineage: LineageReply| #[trigger]
        may_resolve(source, did_launcher_id, lineage) && proves_with(
            source,
            coin_id,
            did_launcher_id,
            lineage,
            found,
        );
    match reply {
        Ok(Some(did_lineage)) => {
            let walked = choose|walked: Result<AuthenticatedLineageView, Fault>| #[trigger]
                authenticates(source, coin_id, walked) && found == proof_of_walk(
                    coin_id,
                    did_launcher_id,
                    did_lineage,
                    walked,
                );
            match walked {
                Ok(lineage) => (
                    reply,
                    authenticated_lineages_are_genuine(source, coin_id, lineage),
                ),
                Err(_) => (reply, Seq::empty()),
            }
        },
        _ => (reply, Seq::empty()),
    }
}

} // verus!
