//! DID hydration from chain data.
//!
//! These functions reconstruct a spendable [`Did`], or a [`DidInfo`], from puzzle reveals and solutions
//! that a caller already fetched. Each is a pure parse and fails closed: an ambiguous or
//! under-specified input is an error, never a guessed DID.
use vstd::prelude::*;

use chia_protocol::Program;
use chia_wallet_sdk::driver::DriverError;

use crate::clvm::check_program;
use crate::driver::{read_child, read_did, read_info};
use crate::error::{DidError, DidResult};
use crate::types::{Coin, Did, DidInfo, Spend};

#[allow(unused_imports)]
use crate::bytes::program_bytes;
#[allow(unused_imports)]
use crate::clvm::clvm_fault;
#[allow(unused_imports)]
use crate::driver::{
    did_child_in, did_info_in, did_solution_in, first_odd, is_child_of, optional_info_view,
    singleton_emits, DidSolutionView,
};
#[allow(unused_imports)]
use crate::error::{driver_error_text, outcome, Fault};
#[allow(unused_imports)]
use crate::types::{CoinSpendView, CoinView, DidInfoView, DidView, SpendView};

verus! {

/// The driver errors that hydration tells apart.
enum ChildFault {
    /// The parent creates no coin of odd amount.
    MissingChild,
    /// The coin that it creates has no hint.
    MissingHint,
    /// Anything else.
    Other,
}

/// Which variant of `DriverError` an error is: `MissingChild` and `MissingHint` are the ones that
/// display as "missing child" and "missing hint".
#[verifier::external_body]
fn child_fault(error: &DriverError) -> (fault: ChildFault)
    ensures
        fault is MissingChild <==> driver_error_text(*error) == "missing child"@,
        fault is MissingHint <==> driver_error_text(*error) == "missing hint"@,
{
    match error {
        DriverError::MissingChild => ChildFault::MissingChild,
        DriverError::MissingHint => ChildFault::MissingHint,
        _ => ChildFault::Other,
    }
}

/// The error that a failure to parse a child is reported as.
pub open spec fn hydration_fault(text: Seq<char>) -> Fault {
    if text == "missing child"@ {
        Fault::MissingLineage
    } else if text == "missing hint"@ {
        Fault::MissingHint
    } else {
        Fault::Driver(text)
    }
}

/// Why a puzzle and a solution are not both CLVM trees: the puzzle is looked at first.
pub open spec fn spend_fault(puzzle: Seq<u8>, solution: Seq<u8>) -> Option<Fault> {
    match clvm_fault(puzzle) {
        Some(text) => Some(Fault::Parse(text)),
        None => match clvm_fault(solution) {
            Some(text) => Some(Fault::Parse(text)),
            None => None,
        },
    }
}

/// Refuses a spend whose puzzle or solution is no CLVM tree with [`DidError::Parse`].
pub fn check_spend(puzzle: &Program, solution: &Program) -> (checked: DidResult<()>)
    ensures
        outcome(checked) == (match spend_fault(program_bytes(*puzzle), program_bytes(*solution)) {
            Some(fault) => Err(fault),
            None => Ok(()),
        }),
{
    match check_program(puzzle) {
        Ok(_) => check_program(solution),
        Err(error) => Err(error),
    }
}

/// What [`hydrate_did_from_parent_spend`] answers.
pub open spec fn hydrating(
    parent_coin: CoinView,
    puzzle: Seq<u8>,
    solution: Seq<u8>,
    child_coin: CoinView,
) -> Result<DidView, Fault> {
    match spend_fault(puzzle, solution) {
        Some(fault) => Err(fault),
        None => match did_child_in(parent_coin, puzzle, solution) {
            Ok(Some((info, proof))) => Ok(DidView { coin: child_coin, proof, info }),
            Ok(None) => Err(Fault::NotDid),
            Err(text) => Err(hydration_fault(text)),
        },
    }
}

/// Whether what is hydrated follows from the parent's spend. A parent is no DID exactly where its info
/// says so. A hydrated DID is the parent's, under the hint of the first coin of odd amount that the
/// parent's inner puzzle creates. A missing lineage means that it creates none, a missing hint that the
/// coin has no memos. Where the inner puzzle of a DID runs, unless the launchers in the two layers of its
/// puzzle differ, it is the other way round too: without such a coin no coin is its child, without memos
/// the hint is missing, a first memo that is no hash is a driver error, and any other child hydrates.
pub open spec fn hydration_follows(
    parent_coin: CoinView,
    puzzle: Seq<u8>,
    solution: Seq<u8>,
    hydrated: Result<DidView, Fault>,
) -> bool {
    spend_fault(puzzle, solution) is None ==> {
        &&& hydrated == Err::<DidView, Fault>(Fault::NotDid) <==> did_info_in(puzzle) == Ok::<
            Option<DidInfoView>,
            Seq<char>,
        >(None)
        &&& hydrated matches Ok(did) ==> is_child_of(
            parent_coin,
            puzzle,
            solution,
            did.info,
            did.proof,
        )
        &&& hydrated == Err::<DidView, Fault>(Fault::MissingLineage) ==> (singleton_emits(
            puzzle,
            solution,
        ) matches Some(created) && first_odd(created) is None)
        &&& hydrated == Err::<DidView, Fault>(Fault::MissingHint) ==> (singleton_emits(
            puzzle,
            solution,
        ) matches Some(created) && first_odd(created) matches Some(coin) && coin.memo is None)
        &&& did_info_in(puzzle) matches Ok(Some(_)) ==> singleton_emits(
            puzzle,
            solution,
        ) matches Some(created) ==> hydrated != Err::<DidView, Fault>(
            Fault::Driver("invalid singleton struct"@),
        ) ==> (match first_odd(created) {
            None => hydrated == Err::<DidView, Fault>(Fault::MissingLineage),
            Some(coin) => match coin.memo {
                None => hydrated == Err::<DidView, Fault>(Fault::MissingHint),
                Some(None) => hydrated matches Err(fault) && fault is Driver,
                Some(Some(_)) => hydrated is Ok,
            },
        })
    }
}

/// The texts of the driver errors that hydration tells apart differ.
proof fn lemma_texts_differ()
    ensures
        "missing child"@ != "missing hint"@,
        "missing child"@ != "invalid singleton struct"@,
        "missing hint"@ != "invalid singleton struct"@,
{
    reveal_strlit("missing child");
    reveal_strlit("missing hint");
    reveal_strlit("invalid singleton struct");
    assert("missing child"@[8] != "missing hint"@[8]);
    assert("missing child"@[0] != "invalid singleton struct"@[0]);
    assert("missing hint"@[0] != "invalid singleton struct"@[0]);
}

/// Reconstructs the spendable child [`Did`] that a parent DID's spend created, from the parent's coin,
/// its puzzle reveal and solution, and the child's coin. A lineage proof or an owner hint is never made
/// up.
///
/// # Errors
///
/// - [`DidError::Parse`] if the puzzle or the solution is no CLVM tree.
/// - [`DidError::NotDid`] if the parent's puzzle is no DID singleton.
/// - [`DidError::MissingLineage`] if the parent's spend emits no odd-amount successor.
/// - [`DidError::MissingHint`] if it emits one that carries no memos.
/// - [`DidError::Driver`] for any other driver failure.
pub fn hydrate_did_from_parent_spend(
    parent_coin: Coin,
    parent_puzzle_reveal: &Program,
    parent_solution: &Program,
    child_coin: Coin,
) -> (hydrated: DidResult<Did>)
    ensures
        outcome(hydrated) == hydrating(
            parent_coin@,
            program_bytes(*parent_puzzle_reveal),
            program_bytes(*parent_solution),
            child_coin@,
        ),
        hydration_follows(
            parent_coin@,
            program_bytes(*parent_puzzle_reveal),
            program_bytes(*parent_solution),
            outcome(hydrated),
        ),
{
    proof {
        lemma_texts_differ();
    }
    match check_spend(parent_puzzle_reveal, parent_solution) {
        Ok(_) => {},
        Err(error) => {
            return Err(error);
        },
    }
    match read_child(&parent_coin, parent_puzzle_reveal, parent_solution, &child_coin) {
        Ok(Some((info, proof))) => Ok(Did { coin: child_coin, proof, info }),
        Ok(None) => Err(DidError::NotDid),
        Err(error) => match child_fault(&error) {
            ChildFault::MissingChild => Err(DidError::MissingLineage),
            ChildFault::MissingHint => Err(DidError::MissingHint),
            ChildFault::Other => Err(DidError::Driver(error)),
        },
    }
}

/// A DID coin's own spend, read: the DID that it spent, and the owner's spend that authorized it.
#[verifier::ext_equal]
pub struct ParsedSpend {
    pub did: DidView,
    pub p2_spend: Option<SpendView>,
}

/// The [`ParsedSpend`] of what [`parse_did_coin_spend`] returns.
pub open spec fn parsed_view(parsed: Option<(Did, Option<Spend>)>) -> Option<ParsedSpend> {
    match parsed {
        Some((did, p2_spend)) => Some(
            ParsedSpend {
                did: did@,
                p2_spend: match p2_spend {
                    Some(spend) => Some(spend@),
                    None => None,
                },
            },
        ),
        None => None,
    }
}

/// What [`parse_did_coin_spend`] answers.
pub open spec fn parsing(coin: CoinView, puzzle: Seq<u8>, solution: Seq<u8>) -> Result<
    Option<ParsedSpend>,
    Fault,
> {
    match spend_fault(puzzle, solution) {
        Some(fault) => Err(fault),
        None => match did_info_in(puzzle) {
            Err(text) => Err(Fault::Driver(text)),
            Ok(None) => Ok(None),
            Ok(Some(info)) => match did_solution_in(puzzle, solution) {
                Err(text) => Err(Fault::Driver(text)),
                Ok(None) => Ok(None),
                Ok(Some(shown)) => Ok(
                    Some(
                        ParsedSpend {
                            did: DidView { coin, proof: shown.proof, info },
                            p2_spend: shown.p2_spend,
                        },
                    ),
                ),
            },
        },
    }
}

/// Parses a DID coin's own spend into the [`Did`] that it spent and, where the spend carried one, the
/// owner's [`Spend`] that authorized it. `Ok(None)` means that the puzzle is no DID, which is not an
/// error; `Ok(Some((did, None)))` means that the DID was spent through its recovery path. The info, and
/// whether there is one, are those that [`did_info_from_puzzle`] reads, whatever the coin and the
/// solution. The owner's spend is the one in the solution, whatever the spend creates.
///
/// # Errors
///
/// [`DidError::Parse`] if the puzzle or the solution is no CLVM tree, [`DidError::Driver`] for any
/// driver failure.
pub fn parse_did_coin_spend(
    coin: Coin,
    puzzle_reveal: &Program,
    solution: &Program,
) -> (parsed: DidResult<Option<(Did, Option<Spend>)>>)
    ensures
        (match parsed {
            Ok(spend) => Ok(parsed_view(spend)),
            Err(error) => Err(error@),
        }) == parsing(coin@, program_bytes(*puzzle_reveal), program_bytes(*solution)),
        parsed matches Ok(None) <==> {
            &&& spend_fault(program_bytes(*puzzle_reveal), program_bytes(*solution)) is None
            &&& did_info_in(program_bytes(*puzzle_reveal)) == Ok::<Option<DidInfoView>, Seq<char>>(
                None,
            )
        },
        parsed matches Ok(Some((did, _))) ==> did_info_in(program_bytes(*puzzle_reveal)) == Ok::<
            Option<DidInfoView>,
            Seq<char>,
        >(Some(did@.info)),
        parsed matches Ok(Some((did, p2_spend))) ==> {
            &&& did@.coin == coin@
            &&& did_solution_in(
                program_bytes(*puzzle_reveal),
                program_bytes(*solution),
            ) matches Ok(Some(shown))
            &&& did@.proof == shown.proof
            &&& p2_spend is None <==> shown.p2_spend is None
            &&& p2_spend matches Some(spend) ==> shown.p2_spend == Some(spend@)
        },
{
    match check_spend(puzzle_reveal, solution) {
        Ok(_) => {},
        Err(error) => {
            return Err(error);
        },
    }
    let info = match read_info(puzzle_reveal) {
        Ok(Some(info)) => info,
        Ok(None) => {
            return Ok(None);
        },
        Err(error) => {
            return Err(DidError::Driver(error));
        },
    };
    match read_did(&coin, puzzle_reveal, solution) {
        Ok(Some((proof, p2_spend))) => Ok(Some((Did { coin, proof, info }, p2_spend))),
        Ok(None) => Ok(None),
        Err(error) => Err(DidError::Driver(error)),
    }
}

/// Parses a puzzle reveal into its [`DidInfo`] alone, without a coin or a lineage proof. `Ok(None)`
/// means that the puzzle is no DID, which is not an error.
///
/// # Errors
///
/// [`DidError::Parse`] if the puzzle is no CLVM tree, [`DidError::Driver`] for any driver failure.
pub fn did_info_from_puzzle(puzzle_reveal: &Program) -> (parsed: DidResult<Option<DidInfo>>)
    ensures
        (match parsed {
            Ok(info) => Ok(optional_info_view(info)),
            Err(error) => Err(error@),
        }) == (match clvm_fault(program_bytes(*puzzle_reveal)) {
            Some(text) => Err(Fault::Parse(text)),
            None => match did_info_in(program_bytes(*puzzle_reveal)) {
                Ok(info) => Ok(info),
                Err(text) => Err(Fault::Driver(text)),
            },
        }),
{
    match check_program(puzzle_reveal) {
        Ok(_) => {},
        Err(error) => {
            return Err(error);
        },
    }
    match read_info(puzzle_reveal) {
        Ok(info) => Ok(info),
        Err(error) => Err(DidError::Driver(error)),
    }
}

/// Whether a DID's staged spend reads back: it hydrates to `child`, where its inner puzzle runs, and it
/// parses to the DID that was spent, authorized by `inner`.
pub open spec fn reads_back_as(
    staged: CoinSpendView,
    did: DidView,
    inner: SpendView,
    child: DidView,
) -> bool {
    &&& match hydrating(staged.coin, staged.puzzle_reveal, staged.solution, child.coin) {
        Ok(hydrated) => hydrated == child,
        Err(fault) => fault is Driver && singleton_emits(staged.puzzle_reveal, staged.solution) is None,
    }
    &&& parsing(staged.coin, staged.puzzle_reveal, staged.solution) == Ok::<
        Option<ParsedSpend>,
        Fault,
    >(Some(ParsedSpend { did, p2_spend: Some(inner) }))
}

/// A DID coin's own spend is read as exactly what it shows, whatever it creates: the coin, the info in its
/// puzzle, and the proof and the owner's spend in its solution. The owner's spend is missing exactly where the
/// solution shows none. It is no DID's exactly where its programs are CLVM trees and the driver takes it for
/// none, and every refusal is the reader's or the driver's own.
pub proof fn spends_are_read_as_they_show(
    coin: CoinView,
    puzzle: Seq<u8>,
    solution: Seq<u8>,
    parsed: ParsedSpend,
    text: Seq<char>,
)
    ensures
        parsing(coin, puzzle, solution) == Ok::<Option<ParsedSpend>, Fault>(Some(parsed)) <==> {
            &&& clvm_fault(puzzle) is None
            &&& clvm_fault(solution) is None
            &&& parsed.did.coin == coin
            &&& did_info_in(puzzle) == Ok::<Option<DidInfoView>, Seq<char>>(Some(parsed.did.info))
            &&& did_solution_in(puzzle, solution) matches Ok(Some(shown))
            &&& parsed.did.proof == shown.proof
            &&& parsed.p2_spend == shown.p2_spend
        },
        parsing(coin, puzzle, solution) == Ok::<Option<ParsedSpend>, Fault>(None) <==> {
            &&& clvm_fault(puzzle) is None
            &&& clvm_fault(solution) is None
            &&& did_info_in(puzzle) matches Ok(info)
            &&& info is None || did_solution_in(puzzle, solution) == Ok::<
                Option<DidSolutionView>,
                Seq<char>,
            >(None)
        },
        parsing(coin, puzzle, solution) == Err::<Option<ParsedSpend>, Fault>(Fault::Parse(text)) <==> {
            ||| clvm_fault(puzzle) == Some(text)
            ||| clvm_fault(puzzle) is None && clvm_fault(solution) == Some(text)
        },
        parsing(coin, puzzle, solution) == Err::<Option<ParsedSpend>, Fault>(Fault::Driver(text)) <==> {
            &&& clvm_fault(puzzle) is None
            &&& clvm_fault(solution) is None
            &&& match did_info_in(puzzle) {
                Err(reason) => reason == text,
                Ok(info) => info is Some && did_solution_in(puzzle, solution) == Err::<
                    Option<DidSolutionView>,
                    Seq<char>,
                >(text),
            }
        },
        parsing(coin, puzzle, solution) matches Err(fault) ==> fault is Parse || fault is Driver,
{
    if let Ok(Some(read)) = parsing(coin, puzzle, solution) {
        assert(read.did == parsed.did && read.p2_spend == parsed.p2_spend ==> read == parsed);
    }
}

/// A child is hydrated as exactly the DID that the driver reads out of its parent's spend, in the coin that it
/// is asked for. Each refusal has one cause: no CLVM tree, no DID, no coin of odd amount, no memos, or
/// another driver error.
pub proof fn children_are_hydrated_as_read(
    parent: CoinView,
    puzzle: Seq<u8>,
    solution: Seq<u8>,
    child_coin: CoinView,
    did: DidView,
    text: Seq<char>,
)
    ensures
        hydrating(parent, puzzle, solution, child_coin) == Ok::<DidView, Fault>(did) <==> {
            &&& clvm_fault(puzzle) is None
            &&& clvm_fault(solution) is None
            &&& did.coin == child_coin
            &&& did_child_in(parent, puzzle, solution) == Ok::<
                Option<(DidInfoView, Seq<Seq<u8>>)>,
                Seq<char>,
            >(Some((did.info, did.proof)))
        },
        hydrating(parent, puzzle, solution, child_coin) == Err::<DidView, Fault>(Fault::NotDid) <==> {
            &&& clvm_fault(puzzle) is None
            &&& clvm_fault(solution) is None
            &&& did_child_in(parent, puzzle, solution) == Ok::<
                Option<(DidInfoView, Seq<Seq<u8>>)>,
                Seq<char>,
            >(None)
        },
        hydrating(parent, puzzle, solution, child_coin) == Err::<DidView, Fault>(Fault::MissingLineage)
            <==> {
            &&& clvm_fault(puzzle) is None
            &&& clvm_fault(solution) is None
            &&& did_child_in(parent, puzzle, solution) matches Err(reason)
            &&& reason == "missing child"@
        },
        hydrating(parent, puzzle, solution, child_coin) == Err::<DidView, Fault>(Fault::MissingHint) <==> {
            &&& clvm_fault(puzzle) is None
            &&& clvm_fault(solution) is None
            &&& did_child_in(parent, puzzle, solution) matches Err(reason)
            &&& reason == "missing hint"@
        },
        hydrating(parent, puzzle, solution, child_coin) == Err::<DidView, Fault>(Fault::Driver(text))
            <==> {
            &&& clvm_fault(puzzle) is None
            &&& clvm_fault(solution) is None
            &&& did_child_in(parent, puzzle, solution) matches Err(reason)
            &&& reason == text
            &&& reason != "missing child"@
            &&& reason != "missing hint"@
        },
        hydrating(parent, puzzle, solution, child_coin) == Err::<DidView, Fault>(Fault::Parse(text)) <==> {
            ||| clvm_fault(puzzle) == Some(text)
            ||| clvm_fault(puzzle) is None && clvm_fault(solution) == Some(text)
        },
        hydrating(parent, puzzle, solution, child_coin) matches Err(fault) ==> fault is NotDid
            || fault is MissingLineage || fault is MissingHint || fault is Driver || fault is Parse,
{
    lemma_texts_differ();
    if let Ok(read) = hydrating(parent, puzzle, solution, child_coin) {
        assert(read.coin == did.coin && read.proof == did.proof && read.info == did.info ==> read == did);
    }
}

/// Which coin a child is asked for in changes nothing but the coin: two coins hydrate to the same DID in each,
/// or are refused alike.
pub proof fn hydration_carries_the_coin_along(
    parent: CoinView,
    puzzle: Seq<u8>,
    solution: Seq<u8>,
    first: CoinView,
    second: CoinView,
)
    ensures
        match (
            hydrating(parent, puzzle, solution, first),
            hydrating(parent, puzzle, solution, second),
        ) {
            (Ok(one), Ok(other)) => {
                &&& one.coin == first
                &&& other.coin == second
                &&& one.info == other.info
                &&& one.proof == other.proof
            },
            (Err(one), Err(other)) => one == other,
            _ => false,
        },
{
}

} // verus!
