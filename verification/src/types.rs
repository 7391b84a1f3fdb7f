//! The public types: coins and spends, DIDs, and the unsigned result of an operation.
//!
//! Each type comes with a view in which every hash, program and proof is replaced by its bytes.
//! Contracts speak of these views.
use vstd::prelude::*;

pub use chia_protocol::{Bytes32, Program};
pub use chia_puzzle_types::{EveProof, LineageProof, Proof};
pub use chia_wallet_sdk::prelude::PublicKey;

use crate::clvm::Metadata;

#[allow(unused_imports)]
use crate::bytes::{hash_bytes, int_atom, is_valid_key, optional_hash_bytes, program_bytes};
#[allow(unused_imports)]
use crate::driver::{coin_id_of, did_inner_puzzle_hash, singleton_puzzle_hash};

verus! {

/// `chia_puzzle_types::Proof`, what a singleton shows in its solution of its parent.
#[verifier::external_type_specification]
#[verifier::external_body]
pub struct ExProof(chia_puzzle_types::Proof);

/// The atoms of a proof's list form: the parent's parent, the parent's inner puzzle hash (a lineage
/// proof has it, an eve proof does not) and the parent's amount.
pub uninterp spec fn proof_atoms(proof: Proof) -> Seq<Seq<u8>>;

/// The views of the elements of a list.
pub open spec fn views<T: View>(items: Seq<T>) -> Seq<T::V> {
    items.map_values(|item: T| item@)
}

/// A coin: an amount, locked by a puzzle, created by a parent.
#[derive(Debug, Clone, Copy, PartialEq, Eq)]
pub struct Coin {
    /// The id of the coin that created this one.
    pub parent_coin_info: Bytes32,
    /// The hash of the puzzle that locks the coin.
    pub puzzle_hash: Bytes32,
    /// The amount, in mojos.
    pub amount: u64,
}

/// A [`Coin`] with its hashes as bytes.
#[verifier::ext_equal]
pub struct CoinView {
    pub parent_coin_info: Seq<u8>,
    pub puzzle_hash: Seq<u8>,
    pub amount: u64,
}

impl View for Coin {
    type V = CoinView;

    open spec fn view(&self) -> CoinView {
        CoinView {
            parent_coin_info: hash_bytes(self.parent_coin_info),
            puzzle_hash: hash_bytes(self.puzzle_hash),
            amount: self.amount,
        }
    }
}

impl Coin {
    /// A coin of its three parts.
    pub fn new(parent_coin_info: Bytes32, puzzle_hash: Bytes32, amount: u64) -> (coin: Coin)
        ensures
            coin.parent_coin_info == parent_coin_info,
            coin.puzzle_hash == puzzle_hash,
            coin.amount == amount,
    {
        Coin { parent_coin_info, puzzle_hash, amount }
    }
}

/// A puzzle with the solution that it is run with.
#[derive(Debug, PartialEq, Eq)]
pub struct Spend {
    /// The puzzle.
    pub puzzle: Program,
    /// Its solution.
    pub solution: Program,
}

/// A [`Spend`] with its programs as bytes.
#[verifier::ext_equal]
pub struct SpendView {
    pub puzzle: Seq<u8>,
    pub solution: Seq<u8>,
}

impl View for Spend {
    type V = SpendView;

    open spec fn view(&self) -> SpendView {
        SpendView {
            puzzle: program_bytes(self.puzzle),
            solution: program_bytes(self.solution),
        }
    }
}

impl Clone for Spend {
    fn clone(&self) -> (copy: Spend)
        ensures
            copy@ == self@,
    {
        Spend { puzzle: self.puzzle.clone(), solution: self.solution.clone() }
    }
}

/// An unsigned spend of a coin.
#[derive(Debug, PartialEq, Eq)]
pub struct CoinSpend {
    /// The coin that is spent.
    pub coin: Coin,
    /// The puzzle that its puzzle hash commits to.
    pub puzzle_reveal: Program,
    /// The solution to that puzzle.
    pub solution: Program,
}

/// A [`CoinSpend`] with its hashes and programs as bytes.
#[verifier::ext_equal]
pub struct CoinSpendView {
    pub coin: CoinView,
    pub puzzle_reveal: Seq<u8>,
    pub solution: Seq<u8>,
}

impl View for CoinSpend {
    type V = CoinSpendView;

    open spec fn view(&self) -> CoinSpendView {
        CoinSpendView {
            coin: self.coin@,
            puzzle_reveal: program_bytes(self.puzzle_reveal),
            solution: program_bytes(self.solution),
        }
    }
}

impl Clone for CoinSpend {
    fn clone(&self) -> (copy: CoinSpend)
        ensures
            copy@ == self@,
    {
        CoinSpend {
            coin: self.coin,
            puzzle_reveal: self.puzzle_reveal.clone(),
            solution: self.solution.clone(),
        }
    }
}

impl CoinSpend {
    /// A coin spend of its three parts.
    pub fn new(coin: Coin, puzzle_reveal: Program, solution: Program) -> (spend: CoinSpend)
        ensures
            spend.coin == coin,
            spend.puzzle_reveal == puzzle_reveal,
            spend.solution == solution,
    {
        CoinSpend { coin, puzzle_reveal, solution }
    }
}

/// What the outer puzzle of a DID is made of.
#[derive(Debug, PartialEq, Eq)]
pub struct DidInfo {
    /// The id of the launcher coin: the identity of the DID, for life.
    pub launcher_id: Bytes32,
    /// The hash of the recovery list, where there is one.
    pub recovery_list_hash: Option<Bytes32>,
    /// How many recoverers must attest to a recovery.
    pub num_verifications_required: u64,
    /// The metadata of the DID layer.
    pub metadata: Metadata,
    /// The hash of the owner's puzzle.
    pub p2_puzzle_hash: Bytes32,
}

/// A [`DidInfo`] with its hashes and its metadata as bytes.
#[verifier::ext_equal]
pub struct DidInfoView {
    pub launcher_id: Seq<u8>,
    pub recovery_list_hash: Option<Seq<u8>>,
    pub num_verifications_required: u64,
    pub metadata: Seq<u8>,
    pub p2_puzzle_hash: Seq<u8>,
}

impl View for DidInfo {
    type V = DidInfoView;

    open spec fn view(&self) -> DidInfoView {
        DidInfoView {
            launcher_id: hash_bytes(self.launcher_id),
            recovery_list_hash: optional_hash_bytes(self.recovery_list_hash),
            num_verifications_required: self.num_verifications_required,
            metadata: self.metadata@,
            p2_puzzle_hash: hash_bytes(self.p2_puzzle_hash),
        }
    }
}

impl Clone for DidInfo {
    fn clone(&self) -> (copy: DidInfo)
        ensures
            copy@ == self@,
    {
        DidInfo {
            launcher_id: self.launcher_id,
            recovery_list_hash: self.recovery_list_hash,
            num_verifications_required: self.num_verifications_required,
            metadata: self.metadata.clone(),
            p2_puzzle_hash: self.p2_puzzle_hash,
        }
    }
}

/// A DID singleton: its coin, the proof that spending it takes, and what its puzzle is made of.
#[derive(Debug, PartialEq, Eq)]
#[must_use]
pub struct Did {
    /// The coin that carries the DID.
    pub coin: Coin,
    /// The proof of the coin's parent.
    pub proof: Proof,
    /// What the outer puzzle is made of.
    pub info: DidInfo,
}

/// A [`Did`] with everything in it as bytes.
#[verifier::ext_equal]
pub struct DidView {
    pub coin: CoinView,
    pub proof: Seq<Seq<u8>>,
    pub info: DidInfoView,
}

impl View for Did {
    type V = DidView;

    open spec fn view(&self) -> DidView {
        DidView { coin: self.coin@, proof: proof_atoms(self.proof), info: self.info@ }
    }
}

impl Clone for Did {
    fn clone(&self) -> (copy: Did)
        ensures
            copy@ == self@,
    {
        Did { coin: self.coin, proof: self.proof, info: self.info.clone() }
    }
}

impl CoinView {
    /// The id of the coin.
    pub open spec fn id(self) -> Seq<u8> {
        coin_id_of(self)
    }
}

impl DidInfoView {
    /// The DID with another owner.
    pub open spec fn owned_by(self, p2_puzzle_hash: Seq<u8>) -> DidInfoView {
        DidInfoView { p2_puzzle_hash, ..self }
    }

    /// The hash of the DID's puzzle inside the singleton layer.
    pub open spec fn inner_puzzle_hash(self) -> Seq<u8> {
        did_inner_puzzle_hash(self)
    }

    /// The hash of the DID's whole puzzle.
    pub open spec fn puzzle_hash(self) -> Seq<u8> {
        singleton_puzzle_hash(self.launcher_id, did_inner_puzzle_hash(self))
    }
}

/// The atoms of the proof that a singleton's child shows: the singleton's parent, its inner puzzle
/// hash and its amount.
pub open spec fn lineage_atoms(coin: CoinView, inner_puzzle_hash: Seq<u8>) -> Seq<Seq<u8>> {
    seq![coin.parent_coin_info, inner_puzzle_hash, int_atom(coin.amount as nat)]
}

impl DidView {
    /// The DID that a spend of this one leaves, when it recreates the singleton with `amount` under
    /// the owner `p2_puzzle_hash` and changes nothing else.
    pub open spec fn child(self, p2_puzzle_hash: Seq<u8>, amount: u64) -> DidView {
        let info = self.info.owned_by(p2_puzzle_hash);
        DidView {
            coin: CoinView {
                parent_coin_info: self.coin.id(),
                puzzle_hash: info.puzzle_hash(),
                amount,
            },
            proof: lineage_atoms(self.coin, self.info.inner_puzzle_hash()),
            info,
        }
    }
}

impl DidInfo {
    /// The hash of the DID's puzzle inside the singleton layer.
    pub fn inner_puzzle_hash(&self) -> (hash: Bytes32)
        ensures
            hash_bytes(hash) == self@.inner_puzzle_hash(),
    {
        crate::driver::inner_hash(self)
    }

    /// The hash of the DID's whole puzzle.
    pub fn puzzle_hash(&self) -> (hash: Bytes32)
        ensures
            hash_bytes(hash) == self@.puzzle_hash(),
    {
        let inner = self.inner_puzzle_hash();
        crate::driver::singleton_hash(&self.launcher_id, &inner)
    }
}

impl Coin {
    /// The id of the coin.
    pub fn coin_id(&self) -> (id: Bytes32)
        ensures
            hash_bytes(id) == self@.id(),
    {
        crate::driver::coin_id(self)
    }
}

impl Did {
    /// The DID that a spend of this one leaves, when it recreates the singleton with `amount` under
    /// the owner `p2_puzzle_hash` and changes nothing else.
    pub fn child(&self, p2_puzzle_hash: Bytes32, amount: u64) -> (child: Did)
        ensures
            child@ == self@.child(hash_bytes(p2_puzzle_hash), amount),
    {
        let mut info = self.info.clone();
        info.p2_puzzle_hash = p2_puzzle_hash;
        let coin = Coin {
            parent_coin_info: self.coin.coin_id(),
            puzzle_hash: info.puzzle_hash(),
            amount,
        };
        let inner_puzzle_hash = self.info.inner_puzzle_hash();
        let proof = crate::driver::lineage_proof(&self.coin, &inner_puzzle_hash);
        Did { coin, proof, info }
    }
}

/// The result of building a DID operation: the unsigned coin spends, and the DID as it will exist
/// once they confirm (`None` for an operation that ends it). It carries no signature.
#[derive(Debug)]
#[must_use]
pub struct DidSpend {
    /// The unsigned coin spends, in spend order.
    pub coin_spends: Vec<CoinSpend>,
    /// The DID after the spends confirm, or `None` for a terminal operation.
    pub child: Option<Did>,
}

/// A [`DidSpend`] with everything in it as bytes.
#[verifier::ext_equal]
pub struct DidSpendView {
    pub coin_spends: Seq<CoinSpendView>,
    pub child: Option<DidView>,
}

impl View for DidSpend {
    type V = DidSpendView;

    open spec fn view(&self) -> DidSpendView {
        DidSpendView {
            coin_spends: views(self.coin_spends@),
            child: match self.child {
                Some(did) => Some(did@),
                None => None,
            },
        }
    }
}

impl Clone for DidSpend {
    fn clone(&self) -> (copy: DidSpend)
        ensures
            copy@ == self@,
    {
        let mut coin_spends: Vec<CoinSpend> = Vec::new();
        let mut index: usize = 0;
        assert(views(coin_spends@) =~= views(self.coin_spends@).take(0));
        while index < self.coin_spends.len()
            invariant
                index <= self.coin_spends@.len(),
                views(coin_spends@) == views(self.coin_spends@).take(index as int),
            decreases self.coin_spends@.len() - index,
        {
            let ghost before = views(coin_spends@);
            coin_spends.push(self.coin_spends[index].clone());
            assert(views(coin_spends@) =~= before.push(self.coin_spends@[index as int]@));
            assert(views(self.coin_spends@).take(index as int + 1) =~= before.push(
                self.coin_spends@[index as int]@,
            ));
            index = index + 1;
        }
        assert(views(self.coin_spends@).take(index as int) =~= views(self.coin_spends@));
        let child = match &self.child {
            Some(did) => Some(did.clone()),
            None => None,
        };
        DidSpend { coin_spends, child }
    }
}

impl DidSpend {
    /// A result of its coin spends and its child.
    pub fn new(coin_spends: Vec<CoinSpend>, child: Option<Did>) -> (spend: DidSpend)
        ensures
            spend.coin_spends == coin_spends,
            spend.child == child,
    {
        DidSpend { coin_spends, child }
    }
}

/// Who is authorized to spend a DID: the p2 puzzle that guards it.
#[derive(Debug)]
pub enum Owner {
    /// The standard single-key puzzle of the given (synthetic) key. A spend requires one
    /// `AGG_SIG_ME` under it.
    Standard(PublicKey),
    /// A pre-built inner spend of a custom puzzle, passed through unchanged.
    Custom(Spend),
}

impl Clone for Owner {
    fn clone(&self) -> (copy: Owner)
        ensures
            copy@ == self@,
    {
        match self {
            Owner::Standard(key) => Owner::Standard(*key),
            Owner::Custom(spend) => Owner::Custom(spend.clone()),
        }
    }
}

/// An [`Owner`] with its key and its spend as bytes.
pub enum OwnerView {
    Standard(Seq<u8>),
    Custom(SpendView),
}

impl OwnerView {
    /// Whether the owner's key, where it has one, is valid.
    pub open spec fn has_valid_key(self) -> bool {
        match self {
            OwnerView::Standard(key) => is_valid_key(key),
            OwnerView::Custom(_) => true,
        }
    }
}

impl Owner {
    /// Whether the owner's key, where it has one, is valid. The signatures that a spend requires are read
    /// under valid keys only: under another key the owner's `AGG_SIG_ME` is emitted but not reported.
    pub fn has_valid_key(&self) -> (valid: bool)
        ensures
            valid == self@.has_valid_key(),
    {
        match self {
            Owner::Standard(key) => crate::bytes::key_is_valid(key),
            Owner::Custom(_) => true,
        }
    }
}

impl View for Owner {
    type V = OwnerView;

    open spec fn view(&self) -> OwnerView {
        match *self {
            Owner::Standard(key) => OwnerView::Standard(crate::bytes::key_bytes(key)),
            Owner::Custom(spend) => OwnerView::Custom(spend@),
        }
    }
}

/// The DID that a spend leaves is the same DID one generation on: its info but for the owner, in a coin that the
/// spent one creates under the hash of that info, proven by the spent coin's parent, inner puzzle hash and
/// amount.
pub proof fn children_are_one_generation_on(did: DidView, p2_puzzle_hash: Seq<u8>, amount: u64)
    ensures
        ({
            let child = did.child(p2_puzzle_hash, amount);
            &&& child.info.launcher_id == did.info.launcher_id
            &&& child.info.recovery_list_hash == did.info.recovery_list_hash
            &&& child.info.num_verifications_required == did.info.num_verifications_required
            &&& child.info.metadata == did.info.metadata
            &&& child.info.p2_puzzle_hash == p2_puzzle_hash
            &&& child.coin.parent_coin_info == coin_id_of(did.coin)
            &&& child.coin.puzzle_hash == singleton_puzzle_hash(
                did.info.launcher_id,
                did_inner_puzzle_hash(child.info),
            )
            &&& child.coin.amount == amount
            &&& child.proof == seq![
                did.coin.parent_coin_info,
                did_inner_puzzle_hash(did.info),
                int_atom(did.coin.amount as nat),
            ]
        }),
{
}

/// An owner has a valid key exactly where the key is one; an owner that brings its own spend has none to be
/// invalid.
pub proof fn only_keys_are_invalid(owner: OwnerView)
    ensures
        owner.has_valid_key() <==> match owner {
            OwnerView::Standard(key) => is_valid_key(key),
            OwnerView::Custom(_) => true,
        },
{
}

} // verus!
