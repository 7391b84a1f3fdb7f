//! CLVM trees in serialized form: whether bytes are one, and what running one emits.
use vstd::prelude::*;

use chia_protocol::{Bytes32, Program};
use chia_puzzle_types::Memos;
use chia_wallet_sdk::prelude::{Allocator, NodePtr};
use chia_wallet_sdk::types::{run_puzzle, Condition as SdkCondition};
use clvm_traits::{FromClvm, ToClvm};
use clvmr::serde::node_to_bytes_limit;

use crate::conditions::HashFirst;
use crate::error::{DidError, DidResult};

#[allow(unused_imports)]
use crate::bytes::{all_program_bytes, hash_bytes, memo_bytes, program_bytes};
#[allow(unused_imports)]
use crate::error::{outcome, Fault};

verus! {

/// Why `bytes` are not a serialized tree, or `None` where they are one.
pub uninterp spec fn clvm_fault(bytes: Seq<u8>) -> Option<Seq<char>>;

/// `Program::to_clvm`: reads the bytes as a tree, or gives the text of the error.
#[verifier::external_body]
fn read_tree(program: &Program) -> (read: Result<(), String>)
    ensures
        match read {
            Ok(_) => clvm_fault(program_bytes(*program)) == None::<Seq<char>>,
            Err(text) => clvm_fault(program_bytes(*program)) == Some(text@),
        },
{
    program.to_clvm(&mut Allocator::new()).map(|_| ()).map_err(|error| error.to_string())
}

/// Refuses bytes that are not a serialized tree with [`DidError::Parse`].
pub fn check_program(program: &Program) -> (checked: DidResult<()>)
    ensures
        outcome(checked) == (match clvm_fault(program_bytes(*program)) {
            None => Ok(()),
            Some(text) => Err(Fault::Parse(text)),
        }),
{
    match read_tree(program) {
        Ok(_) => Ok(()),
        Err(text) => Err(DidError::Parse(text)),
    }
}

/// The canonical serialization of the tree that `bytes` are, or the text of the error where they are
/// none.
pub uninterp spec fn canonical_clvm(bytes: Seq<u8>) -> Result<Seq<u8>, Seq<char>>;

/// Whether `bytes` are a tree in its canonical serialization.
pub open spec fn is_canonical(bytes: Seq<u8>) -> bool {
    canonical_clvm(bytes) == Ok::<Seq<u8>, Seq<char>>(bytes)
}

/// `Program::to_clvm`, then `node_to_bytes_limit` on the tree, without a limit: the serializer's own
/// form of it, which the same two calls leave as it is.
#[verifier::external_body]
fn canonical_program(program: &Program) -> (canonical: Result<Program, String>)
    ensures
        match canonical {
            Ok(form) => {
                &&& canonical_clvm(program_bytes(*program)) == Ok::<Seq<u8>, Seq<char>>(
                    program_bytes(form),
                )
                &&& canonical_clvm(program_bytes(form)) == Ok::<Seq<u8>, Seq<char>>(
                    program_bytes(form),
                )
            },
            Err(text) => canonical_clvm(program_bytes(*program)) == Err::<Seq<u8>, Seq<char>>(
                text@,
            ),
        },
{
    let mut allocator = Allocator::new();
    let node = program.to_clvm(&mut allocator).map_err(|error| error.to_string())?;
    let bytes = node_to_bytes_limit(&allocator, node, usize::MAX);
    Ok(bytes.map_err(|error| error.to_string())?.into())
}

/// `Program::default`: the empty tree, which is the byte `0x80` and is left as it is by the two calls of
/// [`canonical_program`].
#[verifier::external_body]
fn canonical_nil() -> (nil: Program)
    ensures
        program_bytes(nil) == seq![0x80u8],
        canonical_clvm(program_bytes(nil)) == Ok::<Seq<u8>, Seq<char>>(program_bytes(nil)),
{
    Program::default()
}

/// A coin that a puzzle creates: what its `CREATE_COIN` says.
#[derive(Debug, Clone, Copy)]
pub struct CreatedCoin {
    /// The puzzle hash of the coin.
    pub puzzle_hash: Bytes32,
    /// Its amount.
    pub amount: u64,
    /// `None` without memos, else the first memo where it is a hash.
    pub memo: Option<Option<Bytes32>>,
}

/// A [`CreatedCoin`] with its hashes as bytes.
#[verifier::ext_equal]
pub struct CreatedCoinView {
    pub puzzle_hash: Seq<u8>,
    pub amount: u64,
    pub memo: Option<Option<Seq<u8>>>,
}

impl View for CreatedCoin {
    type V = CreatedCoinView;

    open spec fn view(&self) -> CreatedCoinView {
        CreatedCoinView {
            puzzle_hash: hash_bytes(self.puzzle_hash),
            amount: self.amount,
            memo: memo_bytes(self.memo),
        }
    }
}

/// The views of what each condition of a list creates.
pub open spec fn created_views(created: Seq<Option<CreatedCoin>>) -> Seq<Option<CreatedCoinView>> {
    created.map_values(
        |coin: Option<CreatedCoin>|
            match coin {
                Some(coin) => Some(coin@),
                None => None,
            },
    )
}

/// What a puzzle emits when it is run with a solution: for each condition, in order, the coin that
/// it creates, or `None` where it is no `CREATE_COIN`. Where the run fails, or does not give a list
/// of conditions, the text of the error.
pub uninterp spec fn emitted(puzzle: Seq<u8>, solution: Seq<u8>) -> Result<
    Seq<Option<CreatedCoinView>>,
    Seq<char>,
>;

/// The conditions that a puzzle emits when it is run with a solution, each in its canonical
/// serialization, or the text of the error where the run fails or does not give a list. What
/// [`emitted`] says of a run is read from these; it stands beside them because a condition can share
/// parts of its tree, so that it is cheap to run and to read but too long to serialize.
pub uninterp spec fn run_conditions(puzzle: Seq<u8>, solution: Seq<u8>) -> Result<
    Seq<Seq<u8>>,
    Seq<char>,
>;

/// `run_puzzle`, with the output read as conditions by `Condition::from_clvm`.
#[verifier::external_body]
pub(crate) fn run(puzzle: &Program, solution: &Program) -> (ran: Result<
    Vec<Option<CreatedCoin>>,
    String,
>)
    ensures
        emitted(program_bytes(*puzzle), program_bytes(*solution)) == (match ran {
            Ok(created) => Ok(created_views(created@)),
            Err(text) => Err(text@),
        }),
{
    let mut a = Allocator::new();
    let [puzzle, solution] = [puzzle, solution].map(|p| p.to_clvm(&mut a).map_err(|e| e.to_string()));
    let output = run_puzzle(&mut a, puzzle?, solution?).map_err(|e| e.to_string())?;
    Ok(Vec::<SdkCondition>::from_clvm(&a, output).map_err(|e| e.to_string())?.into_iter().map(
        |c| c.into_create_coin().map(|c| CreatedCoin {
            puzzle_hash: c.puzzle_hash,
            amount: c.amount,
            memo: match c.memos {
                Memos::Some(m) => Some(HashFirst::from_clvm(&a, m).map(|m| m.0).ok()),
                _ => None,
            },
        })).collect())
}

/// The length of a list of conditions when it is serialized as one tree.
pub open spec fn list_length(conditions: Seq<Seq<u8>>) -> nat
    decreases conditions.len(),
{
    if conditions.len() == 0 {
        1
    } else {
        list_length(conditions.drop_last()) + 1 + conditions.last().len()
    }
}

/// The longest list of conditions that is serialized.
pub const MAX_LIST_LENGTH: usize = 2_000_000;

/// Whether `ran` is what a run emits, or why it is not given: the run's own error, or that the list is
/// longer than is serialized.
pub open spec fn lists_run(
    puzzle: Seq<u8>,
    solution: Seq<u8>,
    ran: Result<Seq<Seq<u8>>, Seq<char>>,
) -> bool {
    match run_conditions(puzzle, solution) {
        Err(text) => ran == Err::<Seq<Seq<u8>>, Seq<char>>(text),
        Ok(conditions) => if list_length(conditions) <= MAX_LIST_LENGTH {
            ran == Ok::<Seq<Seq<u8>>, Seq<char>>(conditions)
        } else {
            ran is Err
        },
    }
}

/// The conditions of a list, or the text of an error.
pub open spec fn list_outcome(ran: Result<Vec<Program>, String>) -> Result<Seq<Seq<u8>>, Seq<char>> {
    match ran {
        Ok(conditions) => Ok(all_program_bytes(conditions@)),
        Err(text) => Err(text@),
    }
}

/// `run_puzzle`, with each condition of the output serialized by `Program::from_clvm`. That function
/// refuses a tree of more than [`MAX_LIST_LENGTH`] bytes, and is first given the whole list.
#[verifier::external_body]
fn run_to_list(puzzle: &Program, solution: &Program) -> (ran: Result<Vec<Program>, String>)
    ensures
        lists_run(program_bytes(*puzzle), program_bytes(*solution), list_outcome(ran)),
{
    let mut a = Allocator::new();
    let [puzzle, solution] = [puzzle, solution].map(|p| p.to_clvm(&mut a).map_err(|e| e.to_string()));
    let output = run_puzzle(&mut a, puzzle?, solution?).map_err(|e| e.to_string())?;
    let conditions = Vec::<NodePtr>::from_clvm(&a, output).map_err(|e| e.to_string())?;
    Program::from_clvm(&a, output).map_err(|e| e.to_string())?;
    let conditions = conditions.into_iter().map(|c| Program::from_clvm(&a, c));
    conditions.collect::<Result<_, _>>().map_err(|e| e.to_string())
}

/// The conditions that a puzzle emits when it is run with a solution, in their order and each in its
/// canonical form: what a caller looks through before it signs a spend. A run that fails, and a list of
/// more than [`MAX_LIST_LENGTH`] bytes, is refused with [`DidError::Parse`].
pub fn emitted_conditions(puzzle: &Program, solution: &Program) -> (emitted: DidResult<Vec<Program>>)
    ensures
        match emitted {
            Ok(conditions) => lists_run(
                program_bytes(*puzzle),
                program_bytes(*solution),
                Ok(all_program_bytes(conditions@)),
            ),
            Err(error) => error@ matches Fault::Parse(text) && lists_run(
                program_bytes(*puzzle),
                program_bytes(*solution),
                Err(text),
            ),
        },
{
    match run_to_list(puzzle, solution) {
        Ok(conditions) => Ok(conditions),
        Err(text) => Err(DidError::Parse(text)),
    }
}

/// The metadata of a DID: a CLVM tree, held in its canonical serialization.
#[derive(Debug, PartialEq, Eq)]
pub struct Metadata {
    pub(crate) program: Program,
}

impl View for Metadata {
    type V = Seq<u8>;

    closed spec fn view(&self) -> Seq<u8> {
        program_bytes(self.program)
    }
}

impl Clone for Metadata {
    fn clone(&self) -> (copy: Metadata)
        ensures
            copy@ == self@,
    {
        proof {
            use_type_invariant(self);
        }
        Metadata { program: self.program.clone() }
    }
}

impl Metadata {
    #[verifier::type_invariant]
    pub(crate) closed spec fn well_formed(self) -> bool {
        canonical_clvm(program_bytes(self.program)) == Ok::<Seq<u8>, Seq<char>>(
            program_bytes(self.program),
        )
    }

    /// No metadata: the empty tree.
    pub fn nil() -> (metadata: Metadata)
        ensures
            metadata@ == seq![0x80u8],
    {
        Metadata { program: canonical_nil() }
    }

    /// The tree that `program` serializes.
    pub fn new(program: &Program) -> (metadata: DidResult<Metadata>)
        ensures
            outcome(metadata) == (match canonical_clvm(program_bytes(*program)) {
                Ok(bytes) => Ok(bytes),
                Err(text) => Err(Fault::Parse(text)),
            }),
    {
        match canonical_program(program) {
            Ok(program) => Ok(Metadata { program }),
            Err(text) => Err(DidError::Parse(text)),
        }
    }

    /// The canonical serialization of the tree.
    pub fn to_program(&self) -> (program: Program)
        ensures
            program_bytes(program) == self@,
    {
        self.program.clone()
    }
}

} // verus!
