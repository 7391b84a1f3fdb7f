//! The conditions that a spend emits, one by one in serialized form, and how each reads.
use vstd::prelude::*;

use chia_protocol::{Bytes, Bytes32, Program};
use chia_puzzle_types::Memos;
use chia_wallet_sdk::driver::{DriverError, SpendContext as SdkContext};
use chia_wallet_sdk::prelude::{Allocator, NodePtr};
use chia_wallet_sdk::types::conditions::{CreateCoin as SdkCreateCoin, MeltSingleton};
use chia_wallet_sdk::types::Condition as SdkCondition;
use clvm_traits::{FromClvm, ToClvm};

#[allow(unused_imports)]
use crate::bytes::{
    all_program_bytes, big_endian_value, hash_bytes, int_atom, memo_bytes, program_bytes,
    serialized_atom,
};
#[allow(unused_imports)]
use crate::clvm::{is_canonical, CreatedCoinView};
#[allow(unused_imports)]
use crate::error::driver_error_text;

verus! {

/// A list of conditions, each a serialized CLVM tree, in the order in which they are emitted.
#[derive(Debug)]
pub struct Conditions {
    items: Vec<Program>,
}

impl View for Conditions {
    type V = Seq<Seq<u8>>;

    closed spec fn view(&self) -> Seq<Seq<u8>> {
        all_program_bytes(self.items@)
    }
}

impl Conditions {
    /// No conditions.
    pub fn new() -> (conditions: Conditions)
        ensures
            conditions@ == Seq::<Seq<u8>>::empty(),
    {
        let conditions = Conditions { items: Vec::new() };
        assert(conditions@ =~= Seq::<Seq<u8>>::empty());
        conditions
    }

    /// The conditions that `items` serialize, in order.
    pub fn from_programs(items: Vec<Program>) -> (conditions: Conditions)
        ensures
            conditions@ == all_program_bytes(items@),
    {
        Conditions { items }
    }

    /// How many there are.
    pub fn len(&self) -> (count: usize)
        ensures
            count == self@.len(),
    {
        self.items.len()
    }

    /// Whether there are none.
    pub fn is_empty(&self) -> (empty: bool)
        ensures
            empty == (self@.len() == 0),
    {
        self.items.len() == 0
    }

    /// The condition at `index`.
    pub fn get(&self, index: usize) -> (condition: &Program)
        requires
            index < self@.len(),
        ensures
            program_bytes(*condition) == self@[index as int],
    {
        &self.items[index]
    }

    /// The list with `condition` at its end.
    pub fn with(self, condition: Program) -> (conditions: Conditions)
        ensures
            conditions@ == self@.push(program_bytes(condition)),
    {
        let mut items = self.items;
        items.push(condition);
        let conditions = Conditions { items };
        assert(conditions@ =~= self@.push(program_bytes(condition)));
        conditions
    }

    /// The list with the conditions of `more` at its end.
    pub fn extend(self, more: Conditions) -> (conditions: Conditions)
        ensures
            conditions@ == self@ + more@,
    {
        let mut items = self.items;
        let mut rest = more.items;
        items.append(&mut rest);
        let conditions = Conditions { items };
        assert(conditions@ =~= self@ + more@);
        conditions
    }

    /// The conditions of the list.
    pub(crate) fn items(&self) -> (items: &Vec<Program>)
        ensures
            all_program_bytes(items@) == self@,
    {
        &self.items
    }
}

/// A condition as chia-wallet-sdk reads it.
#[derive(Debug)]
pub enum Condition {
    /// `CREATE_COIN`.
    CreateCoin(CreateCoin),
    /// Another condition that the SDK names, by its opcode.
    Named(i8),
    /// A condition that the SDK has no name for.
    Unnamed,
}

/// What a `CREATE_COIN` says.
#[derive(Debug)]
pub struct CreateCoin {
    /// The puzzle hash of the created coin.
    pub puzzle_hash: Bytes32,
    /// Its amount, read from the atom without regard to a sign.
    pub amount: u64,
    /// The atom that the amount was read from.
    pub amount_atom: Vec<u8>,
    /// `None` without memos, else the first memo where it is a hash.
    pub memo: Option<Option<Bytes32>>,
}

/// A [`Condition`] with everything in it as bytes.
pub enum ConditionView {
    CreateCoin(CreateCoinView),
    Named(i8),
    Unnamed,
}

/// A [`CreateCoin`] with its hashes as bytes.
#[verifier::ext_equal]
pub struct CreateCoinView {
    pub puzzle_hash: Seq<u8>,
    pub amount: u64,
    pub amount_atom: Seq<u8>,
    pub memo: Option<Option<Seq<u8>>>,
}

impl View for Condition {
    type V = ConditionView;

    open spec fn view(&self) -> ConditionView {
        match *self {
            Condition::CreateCoin(create) => ConditionView::CreateCoin(
                CreateCoinView {
                    puzzle_hash: hash_bytes(create.puzzle_hash),
                    amount: create.amount,
                    amount_atom: create.amount_atom@,
                    memo: memo_bytes(create.memo),
                },
            ),
            Condition::Named(opcode) => ConditionView::Named(opcode),
            Condition::Unnamed => ConditionView::Unnamed,
        }
    }
}

/// The condition that serialized bytes read as, or the text of the driver error where they are no
/// CLVM tree.
pub uninterp spec fn condition_in(bytes: Seq<u8>) -> Result<ConditionView, Seq<char>>;

/// Whether `bytes` read as `condition`.
pub open spec fn reads_as(bytes: Seq<u8>, condition: ConditionView) -> bool {
    condition_in(bytes) == Ok::<ConditionView, Seq<char>>(condition)
}

/// How the condition in serialized bytes is rendered for people to read.
pub uninterp spec fn condition_text(bytes: Seq<u8>) -> Seq<char>;

/// Whether an amount atom fits eight bytes, not counting a zero in front of eight more.
pub open spec fn fits_amount(atom: Seq<u8>) -> bool {
    atom.len() <= 8 || (atom.len() == 9 && atom[0] == 0)
}

/// The coin that a condition creates, if it is a `CREATE_COIN`.
pub open spec fn created_by(condition: Seq<u8>) -> Option<CreatedCoinView> {
    match condition_in(condition) {
        Ok(ConditionView::CreateCoin(create)) => Some(
            CreatedCoinView {
                puzzle_hash: create.puzzle_hash,
                amount: create.amount,
                memo: create.memo,
            },
        ),
        _ => None,
    }
}

/// The opcodes of the signature requirements in a list, in their order.
pub open spec fn agg_sigs(conditions: Seq<Seq<u8>>) -> Seq<i8>
    decreases conditions.len(),
{
    if conditions.len() == 0 {
        Seq::empty()
    } else {
        match condition_in(conditions.last()) {
            Ok(ConditionView::Named(opcode)) if 43 <= opcode <= 50 => agg_sigs(
                conditions.drop_last(),
            ).push(opcode),
            _ => agg_sigs(conditions.drop_last()),
        }
    }
}

/// A condition in front of a list that is no signature requirement adds none.
pub(crate) proof fn lemma_agg_sigs_behind(condition: Seq<u8>, conditions: Seq<Seq<u8>>)
    requires
        agg_sigs(seq![condition]) == Seq::<i8>::empty(),
    ensures
        agg_sigs(seq![condition] + conditions) == agg_sigs(conditions),
    decreases conditions.len(),
{
    let all = seq![condition] + conditions;
    if conditions.len() == 0 {
        assert(all =~= seq![condition]);
    } else {
        assert(all.drop_last() =~= seq![condition] + conditions.drop_last());
        assert(all.last() == conditions.last());
        lemma_agg_sigs_behind(condition, conditions.drop_last());
    }
}

/// A list that starts with a hash.
pub(crate) type HashFirst = (Bytes32, NodePtr);

/// A list whose third element is an atom.
type AmountThird = (NodePtr, (NodePtr, (Bytes, NodePtr)));

/// `Condition::from_clvm` on the tree: which condition the SDK takes it for. Every variant but
/// `CreateCoin` and the catch-all `Other` is told by its opcode. An amount atom that fits eight bytes
/// is read as the big-endian value of its bytes.
#[verifier::external_body]
pub(crate) fn read_condition(condition: &Program) -> (read: Result<Condition, DriverError>)
    ensures
        condition_in(program_bytes(*condition)) == (match read {
            Ok(condition) => Ok(condition@),
            Err(error) => Err(driver_error_text(error)),
        }),
        read matches Ok(Condition::CreateCoin(create)) ==> fits_amount(create.amount_atom@) ==>
            create.amount as nat == big_endian_value(create.amount_atom@),
{
    let mut a = Allocator::new();
    let node = condition.to_clvm(&mut a)?;
    Ok(match SdkCondition::<NodePtr>::from_clvm(&a, node)? {
        SdkCondition::CreateCoin(create) => Condition::CreateCoin(CreateCoin {
            puzzle_hash: create.puzzle_hash,
            amount: create.amount,
            amount_atom: AmountThird::from_clvm(&a, node)?.1 .1 .0.into(),
            memo: match create.memos {
                Memos::Some(memos) => Some(HashFirst::from_clvm(&a, memos).ok().map(|m| m.0)),
                Memos::None => None,
            },
        }),
        SdkCondition::Other(_) => Condition::Unnamed,
        _ => Condition::Named(<(i8, NodePtr)>::from_clvm(&a, node)?.0),
    })
}

/// `Debug` of the SDK's `Condition`: a rendering of the condition in the bytes.
#[verifier::external_body]
pub(crate) fn render_condition(condition: &Program) -> (text: String)
    requires
        condition_in(program_bytes(*condition)) is Ok,
    ensures
        text@ == condition_text(program_bytes(*condition)),
{
    let mut a = Allocator::new();
    let node = condition.to_clvm(&mut a).unwrap();
    format!("{:?}", SdkCondition::<NodePtr>::from_clvm(&a, node).unwrap())
}

/// The bytes of `(CREATE_COIN puzzle_hash amount (hint))`.
pub open spec fn hinted_create_coin(puzzle_hash: Seq<u8>, amount: u64, hint: Seq<u8>) -> Seq<u8> {
    seq![0xffu8, 51u8, 0xffu8] + serialized_atom(puzzle_hash) + seq![0xffu8] + serialized_atom(
        int_atom(amount as nat),
    ) + seq![0xffu8, 0xffu8] + serialized_atom(hint) + seq![0x80u8, 0x80u8]
}

/// Whether the bytes of a hinted `CREATE_COIN` read back as its three values.
pub open spec fn hinted_reads_back(puzzle_hash: Seq<u8>, amount: u64, hint: Seq<u8>) -> bool {
    reads_as(
        hinted_create_coin(puzzle_hash, amount, hint),
        ConditionView::CreateCoin(
            CreateCoinView {
                puzzle_hash,
                amount,
                amount_atom: int_atom(amount as nat),
                memo: Some(Some(hint)),
            },
        ),
    )
}

/// `CreateCoin::new` with `SpendContext::hint`, serialized: the `CREATE_COIN` of these three values,
/// which also reads back as them, in its canonical form.
#[verifier::external_body]
pub(crate) fn create_hinted_coin(puzzle_hash: &Bytes32, amount: u64, hint: &Bytes32) -> (condition:
    Program)
    ensures
        program_bytes(condition) == hinted_create_coin(
            hash_bytes(*puzzle_hash),
            amount,
            hash_bytes(*hint),
        ),
        is_canonical(program_bytes(condition)),
        reads_as(
            program_bytes(condition),
            ConditionView::CreateCoin(
                CreateCoinView {
                    puzzle_hash: hash_bytes(*puzzle_hash),
                    amount,
                    amount_atom: int_atom(amount as nat),
                    memo: Some(Some(hash_bytes(*hint))),
                },
            ),
        ),
{
    let ctx = &mut SdkContext::new();
    let memos = ctx.hint(*hint).unwrap();
    ctx.serialize(&SdkCreateCoin::new(*puzzle_hash, amount, memos)).unwrap()
}

/// The bytes of `(CREATE_COIN () -113)`, the condition that ends a singleton.
pub open spec fn melt_condition() -> Seq<u8> {
    seq![0xffu8, 51u8, 0xffu8, 0x80u8, 0xffu8, 0x81u8, 0x8fu8, 0x80u8]
}

/// `MeltSingleton`, serialized in its canonical form. The SDK reads it back as a condition of opcode 51
/// that is no `CreateCoin`.
#[verifier::external_body]
pub(crate) fn melt_singleton() -> (condition: Program)
    ensures
        program_bytes(condition) == melt_condition(),
        is_canonical(program_bytes(condition)),
        reads_as(program_bytes(condition), ConditionView::Named(51)),
{
    SdkContext::new().serialize(&MeltSingleton::new()).unwrap()
}

} // verus!
