//! The error taxonomy.
//!
//! Every fallible operation returns [`DidError`]. Its variants split into two families: failures of
//! the Chia driver and signer, wrapped so that the cause is not lost, and failures that this crate
//! raises itself, all of them fail-closed.
use vstd::prelude::*;
use vstd::string::StringExecFns;

pub use chia_wallet_sdk::driver::DriverError;

verus! {

/// The error type of `chia_wallet_sdk::driver`.
#[verifier::external_type_specification]
#[verifier::external_body]
pub struct ExDriverError(chia_wallet_sdk::driver::DriverError);

/// What a driver error displays as.
pub uninterp spec fn driver_error_text(error: DriverError) -> Seq<char>;

/// The result type of every fallible operation.
pub type DidResult<T> = Result<T, DidError>;

/// Everything that can go wrong while building or reading a DID spend.
#[derive(Debug)]
#[non_exhaustive]
pub enum DidError {
    /// A chia-wallet-sdk driver operation failed: currying, spend construction, evaluation.
    Driver(DriverError),
    /// The signatures that a coin spend requires could not be calculated. The text is that of the
    /// signer's own error.
    Signer(String),
    /// A coin, puzzle or solution could not be parsed as the expected shape.
    Parse(String),
    /// The puzzle parsed but is not a DID singleton.
    NotDid,
    /// The owner's key does not curry to the DID's current `p2_puzzle_hash`. Raised by irreversible
    /// operations before any spend is built.
    NotTheOwner,
    /// A `did:chia:` string is malformed or fails bech32m decoding.
    InvalidDidString(String),
    /// The operation must add conditions of its own, and a pre-built inner spend emits one fixed
    /// condition set. The text names the alternative.
    UnsupportedOwner(&'static str),
    /// The funding coin of a launch has this even amount. Only an odd-amount coin is a singleton, so
    /// the launch would spend the coin and create no DID.
    EvenSingletonAmount(u64),
    /// A caller's condition is an odd-amount `CREATE_COIN`. A singleton emits exactly one, and the
    /// DID's recreation is it.
    OddAmountCreateCoin,
    /// A caller's condition is an `AGG_SIG_UNSAFE`, which is signed with no coin binding and no
    /// domain separation.
    AggSigUnsafeInConditions,
    /// A caller's `CREATE_COIN` has an amount atom that is not the canonical integer encoding, so the
    /// chain would refuse it. The text says what is wrong with the atom.
    NonCanonicalCreateCoinAmount(String),
    /// A caller's condition is not on the allowlist of shapes that a DID-preserving spend may carry.
    /// The text renders the condition.
    DisallowedCondition(String),
    /// A recovery list hash and a number of required verifications do not fit together.
    InvalidRecovery(String),
    /// Hydration could not establish the lineage proof that a spend of the DID needs.
    MissingLineage,
    /// A DID coin carries no owner hint to recreate its child from.
    MissingHint,
    /// A chain-level precondition is violated, or a chain read failed. A failed read never degrades
    /// to an assumption.
    Chain(String),
    /// The DID has no current on-chain coin: it was never launched, or it is melted.
    NoIdentitySingleton,
    /// The coin's parent spends do not resolve to a singleton launcher.
    NotASingleton,
    /// The coin is a singleton that neither is the DID nor was launched from a coin of its lineage.
    NotDidRooted,
    /// The launcher that the DID's tip descends from is not the launcher that was asked for.
    LauncherMismatch,
    /// The parent-spend walk is longer than the greatest authenticated depth.
    LineageTooDeep,
}

/// What a [`DidError`] says, with each text as its characters.
pub enum Fault {
    Driver(Seq<char>),
    Signer(Seq<char>),
    Parse(Seq<char>),
    NotDid,
    NotTheOwner,
    InvalidDidString(Seq<char>),
    UnsupportedOwner(Seq<char>),
    EvenSingletonAmount(u64),
    OddAmountCreateCoin,
    AggSigUnsafeInConditions,
    NonCanonicalCreateCoinAmount(Seq<char>),
    DisallowedCondition(Seq<char>),
    InvalidRecovery(Seq<char>),
    MissingLineage,
    MissingHint,
    Chain(Seq<char>),
    NoIdentitySingleton,
    NotASingleton,
    NotDidRooted,
    LauncherMismatch,
    LineageTooDeep,
}

impl View for DidError {
    type V = Fault;

    open spec fn view(&self) -> Fault {
        match *self {
            DidError::Driver(error) => Fault::Driver(driver_error_text(error)),
            DidError::Signer(text) => Fault::Signer(text@),
            DidError::Parse(text) => Fault::Parse(text@),
            DidError::NotDid => Fault::NotDid,
            DidError::NotTheOwner => Fault::NotTheOwner,
            DidError::InvalidDidString(text) => Fault::InvalidDidString(text@),
            DidError::UnsupportedOwner(text) => Fault::UnsupportedOwner(text@),
            DidError::EvenSingletonAmount(amount) => Fault::EvenSingletonAmount(amount),
            DidError::OddAmountCreateCoin => Fault::OddAmountCreateCoin,
            DidError::AggSigUnsafeInConditions => Fault::AggSigUnsafeInConditions,
            DidError::NonCanonicalCreateCoinAmount(text) => Fault::NonCanonicalCreateCoinAmount(
                text@,
            ),
            DidError::DisallowedCondition(text) => Fault::DisallowedCondition(text@),
            DidError::InvalidRecovery(text) => Fault::InvalidRecovery(text@),
            DidError::MissingLineage => Fault::MissingLineage,
            DidError::MissingHint => Fault::MissingHint,
            DidError::Chain(text) => Fault::Chain(text@),
            DidError::NoIdentitySingleton => Fault::NoIdentitySingleton,
            DidError::NotASingleton => Fault::NotASingleton,
            DidError::NotDidRooted => Fault::NotDidRooted,
            DidError::LauncherMismatch => Fault::LauncherMismatch,
            DidError::LineageTooDeep => Fault::LineageTooDeep,
        }
    }
}

/// A result with its value and its error replaced by their views.
pub open spec fn outcome<T: View>(result: DidResult<T>) -> Result<T::V, Fault> {
    match result {
        Ok(value) => Ok(value@),
        Err(error) => Err(error@),
    }
}

/// The decimal digits of `value`.
pub open spec fn decimal(value: nat) -> Seq<char>
    decreases value,
{
    let digit = seq![('0' as u32 + value % 10) as char];
    if value < 10 {
        digit
    } else {
        decimal(value / 10) + digit
    }
}

impl Fault {
    /// The message of an error, for people to read.
    pub open spec fn message(self) -> Seq<char> {
        match self {
            Fault::Driver(text) => "chia driver error: "@ + text,
            Fault::Signer(text) => "signature calculation failed: "@ + text,
            Fault::Parse(text) => "failed to parse DID: "@ + text,
            Fault::NotDid => "coin is not a DID singleton"@,
            Fault::NotTheOwner =>
                "the supplied owner key does not control this DID: it does not match the DID's current          inner puzzle hash"@,
            Fault::InvalidDidString(text) => "invalid did:chia string: "@ + text,
            Fault::UnsupportedOwner(text) => "unsupported owner for this operation: "@ + text,
            Fault::EvenSingletonAmount(amount) => "funding coin amount "@ + decimal(amount as nat)
                + " is even: a singleton is the odd-amount output of its launcher, so this launch would spend the coin and create no DID — split the funding coin to an exact odd amount (1 mojo is conventional) first"@,
            Fault::OddAmountCreateCoin =>
                "caller supplied an odd-amount CREATE_COIN: a singleton may emit exactly one odd-amount output and the DID's recreation occupies it, so this spend could never be valid on chain — parent any singleton launcher to an ordinary coin and bind it to the DID by announcement"@,
            Fault::AggSigUnsafeInConditions =>
                "caller supplied an AGG_SIG_UNSAFE condition: it is signed with no coin binding and no domain separation, so the resulting signature is replayable against any other spend — a DID spend must never carry one"@,
            Fault::NonCanonicalCreateCoinAmount(text) =>
                "caller supplied a CREATE_COIN whose amount is not canonically encoded: "@ + text
                    + " — CLVM integers are signed and chia requires a canonical encoding, so this amount would be rejected at mempool admission"@,
            Fault::DisallowedCondition(text) =>
                "caller supplied a condition a DID spend may not carry: "@ + text
                    + " — a DID-preserving spend permits only announcements, assertions, even-amount CREATE_COINs, fees, and coin-bound signature requirements"@,
            Fault::InvalidRecovery(text) => "invalid recovery configuration: "@ + text,
            Fault::MissingLineage => "missing lineage proof for DID"@,
            Fault::MissingHint => "missing owner hint on DID coin"@,
            Fault::Chain(text) => "chain precondition failed: "@ + text,
            Fault::NoIdentitySingleton =>
                "DID singleton has no current on-chain coin (unlaunched or melted)"@,
            Fault::NotASingleton => "coin is not a genuine singleton"@,
            Fault::NotDidRooted => "coin is not rooted in the DID's singleton lineage"@,
            Fault::LauncherMismatch =>
                "the DID tip's authenticated launcher does not match the requested launcher"@,
            Fault::LineageTooDeep =>
                "singleton lineage exceeds the maximum authenticated depth"@,
        }
    }
}

/// `DriverError`'s `Display`: the text of the error.
#[verifier::external_body]
fn display_driver_error(error: &DriverError) -> (text: String)
    ensures
        text@ == driver_error_text(*error),
{
    format!("{}", error)
}

/// Renders `value` in decimal.
fn decimal_text(value: u64) -> (text: String)
    ensures
        text@ == decimal(value as nat),
    decreases value,
{
    let digit: u64 = value % 10;
    let last: &str = if digit == 0 {
        "0"
    } else if digit == 1 {
        "1"
    } else if digit == 2 {
        "2"
    } else if digit == 3 {
        "3"
    } else if digit == 4 {
        "4"
    } else if digit == 5 {
        "5"
    } else if digit == 6 {
        "6"
    } else if digit == 7 {
        "7"
    } else if digit == 8 {
        "8"
    } else {
        "9"
    };
    proof {
        reveal_strlit("0");
        reveal_strlit("1");
        reveal_strlit("2");
        reveal_strlit("3");
        reveal_strlit("4");
        reveal_strlit("5");
        reveal_strlit("6");
        reveal_strlit("7");
        reveal_strlit("8");
        reveal_strlit("9");
        assert(last@ =~= seq![('0' as u32 + value as nat % 10) as char]);
    }
    if value < 10 {
        last.to_owned()
    } else {
        let rest = decimal_text(value / 10);
        rest.concat(last)
    }
}

/// `prefix`, then `text`, then `suffix`.
fn framed(prefix: &str, text: &str, suffix: &str) -> (message: String)
    ensures
        message@ == prefix@ + text@ + suffix@,
{
    let start = prefix.to_owned();
    let middle = start.concat(text);
    middle.concat(suffix)
}

/// `prefix`, then `text`.
fn prefixed(prefix: &str, text: &str) -> (message: String)
    ensures
        message@ == prefix@ + text@,
{
    let start = prefix.to_owned();
    start.concat(text)
}

impl DidError {
    /// The message of this error.
    pub fn to_string(&self) -> (message: String)
        ensures
            message@ == self@.message(),
    {
        match self {
            DidError::Driver(error) => {
                let text = display_driver_error(error);
                prefixed("chia driver error: ", text.as_str())
            },
            DidError::Signer(text) => prefixed("signature calculation failed: ", text.as_str()),
            DidError::Parse(text) => prefixed("failed to parse DID: ", text.as_str()),
            DidError::NotDid => "coin is not a DID singleton".to_owned(),
            DidError::NotTheOwner =>
                "the supplied owner key does not control this DID: it does not match the DID's current          inner puzzle hash".to_owned(),
            DidError::InvalidDidString(text) => prefixed("invalid did:chia string: ", text.as_str()),
            DidError::UnsupportedOwner(text) => prefixed(
                "unsupported owner for this operation: ",
                text,
            ),
            DidError::EvenSingletonAmount(amount) => {
                let text = decimal_text(*amount);
                framed(
                    "funding coin amount ",
                    text.as_str(),
                    " is even: a singleton is the odd-amount output of its launcher, so this launch would spend the coin and create no DID — split the funding coin to an exact odd amount (1 mojo is conventional) first",
                )
            },
            DidError::OddAmountCreateCoin =>
                "caller supplied an odd-amount CREATE_COIN: a singleton may emit exactly one odd-amount output and the DID's recreation occupies it, so this spend could never be valid on chain — parent any singleton launcher to an ordinary coin and bind it to the DID by announcement".to_owned(),
            DidError::AggSigUnsafeInConditions =>
                "caller supplied an AGG_SIG_UNSAFE condition: it is signed with no coin binding and no domain separation, so the resulting signature is replayable against any other spend — a DID spend must never carry one".to_owned(),
            DidError::NonCanonicalCreateCoinAmount(text) => framed(
                "caller supplied a CREATE_COIN whose amount is not canonically encoded: ",
                text.as_str(),
                " — CLVM integers are signed and chia requires a canonical encoding, so this amount would be rejected at mempool admission",
            ),
            DidError::DisallowedCondition(text) => framed(
                "caller supplied a condition a DID spend may not carry: ",
                text.as_str(),
                " — a DID-preserving spend permits only announcements, assertions, even-amount CREATE_COINs, fees, and coin-bound signature requirements",
            ),
            DidError::InvalidRecovery(text) => prefixed(
                "invalid recovery configuration: ",
                text.as_str(),
            ),
            DidError::MissingLineage => "missing lineage proof for DID".to_owned(),
            DidError::MissingHint => "missing owner hint on DID coin".to_owned(),
            DidError::Chain(text) => prefixed("chain precondition failed: ", text.as_str()),
            DidError::NoIdentitySingleton =>
                "DID singleton has no current on-chain coin (unlaunched or melted)".to_owned(),
            DidError::NotASingleton => "coin is not a genuine singleton".to_owned(),
            DidError::NotDidRooted => "coin is not rooted in the DID's singleton lineage".to_owned(),
            DidError::LauncherMismatch =>
                "the DID tip's authenticated launcher does not match the requested launcher".to_owned(),
            DidError::LineageTooDeep =>
                "singleton lineage exceeds the maximum authenticated depth".to_owned(),
        }
    }
}

impl vstd::std_specs::convert::FromSpecImpl<DriverError> for DidError {
    open spec fn obeys_from_spec() -> bool {
        true
    }

    open spec fn from_spec(error: DriverError) -> DidError {
        DidError::Driver(error)
    }
}

impl From<DriverError> for DidError {
    /// Wraps a driver error unchanged.
    fn from(error: DriverError) -> (wrapped: DidError) {
        DidError::Driver(error)
    }
}

/// The value of decimal digits.
pub open spec fn decimal_value(digits: Seq<char>) -> nat
    decreases digits.len(),
{
    if digits.len() == 0 {
        0
    } else {
        (decimal_value(digits.drop_last()) * 10 + (digits.last() as int - '0' as int)) as nat
    }
}

/// The decimal digits of a value are digits, read back as the value, and start with a zero only where they are
/// those of zero.
pub proof fn decimals_read_back(value: nat)
    ensures
        decimal_value(decimal(value)) == value,
        decimal(value).len() > 0,
        value > 0 ==> decimal(value)[0] != '0',
        forall|i: int| 0 <= i < decimal(value).len() ==> '0' <= #[trigger] decimal(value)[i] <= '9',
    decreases value,
{
    let digits = decimal(value);
    let digit = ('0' as u32 + value % 10) as char;
    assert(digit as int == '0' as int + value % 10);
    if value < 10 {
        assert(digits =~= seq![digit]);
        assert(digits.drop_last() =~= Seq::<char>::empty());
        assert(decimal_value(digits.drop_last()) == 0);
    } else {
        decimals_read_back(value / 10);
        let front = decimal(value / 10);
        assert(digits =~= front.push(digit));
        assert(digits.drop_last() =~= front);
        assert(digits[0] == front[0]);
        assert forall|i: int| 0 <= i < digits.len() implies '0' <= #[trigger] digits[i] <= '9' by {
            if i < front.len() {
                assert(digits[i] == front[i]);
            }
        }
    }
}

/// The message of an error that has a cause holds the cause, whole and unchanged, behind the same words for
/// every cause and in front of the same words.
pub proof fn messages_hold_their_cause(text: Seq<char>, amount: u64)
    ensures
        Fault::Driver(text).message() == "chia driver error: "@ + text,
        Fault::Signer(text).message() == "signature calculation failed: "@ + text,
        Fault::Parse(text).message() == "failed to parse DID: "@ + text,
        Fault::InvalidDidString(text).message() == "invalid did:chia string: "@ + text,
        Fault::UnsupportedOwner(text).message() == "unsupported owner for this operation: "@ + text,
        Fault::InvalidRecovery(text).message() == "invalid recovery configuration: "@ + text,
        Fault::Chain(text).message() == "chain precondition failed: "@ + text,
        ("funding coin amount "@ + decimal(amount as nat)).is_prefix_of(
            Fault::EvenSingletonAmount(amount).message(),
        ),
        ("caller supplied a CREATE_COIN whose amount is not canonically encoded: "@ + text).is_prefix_of(
            Fault::NonCanonicalCreateCoinAmount(text).message(),
        ),
        ("caller supplied a condition a DID spend may not carry: "@ + text).is_prefix_of(
            Fault::DisallowedCondition(text).message(),
        ),
{
    let funding = "funding coin amount "@ + decimal(amount as nat);
    assert(Fault::EvenSingletonAmount(amount).message().subrange(0, funding.len() as int) =~= funding);
    let encoded = "caller supplied a CREATE_COIN whose amount is not canonically encoded: "@ + text;
    assert(Fault::NonCanonicalCreateCoinAmount(text).message().subrange(0, encoded.len() as int)
        =~= encoded);
    let carried = "caller supplied a condition a DID spend may not carry: "@ + text;
    assert(Fault::DisallowedCondition(text).message().subrange(0, carried.len() as int) =~= carried);
}

/// An error is told as what it is, with its cause unchanged, so that errors of two kinds are never told alike.
pub proof fn errors_are_told_as_they_are(error: DidError)
    ensures
        match error {
            DidError::Driver(cause) => error@ == Fault::Driver(driver_error_text(cause)),
            DidError::Signer(text) => error@ == Fault::Signer(text@),
            DidError::Parse(text) => error@ == Fault::Parse(text@),
            DidError::InvalidDidString(text) => error@ == Fault::InvalidDidString(text@),
            DidError::UnsupportedOwner(text) => error@ == Fault::UnsupportedOwner(text@),
            DidError::EvenSingletonAmount(amount) => error@ == Fault::EvenSingletonAmount(amount),
            DidError::NonCanonicalCreateCoinAmount(text) => error@
                == Fault::NonCanonicalCreateCoinAmount(text@),
            DidError::DisallowedCondition(text) => error@ == Fault::DisallowedCondition(text@),
            DidError::InvalidRecovery(text) => error@ == Fault::InvalidRecovery(text@),
            DidError::Chain(text) => error@ == Fault::Chain(text@),
            _ => true,
        },
        error@ is NotDid <==> error is NotDid,
        error@ is NotTheOwner <==> error is NotTheOwner,
        error@ is OddAmountCreateCoin <==> error is OddAmountCreateCoin,
        error@ is AggSigUnsafeInConditions <==> error is AggSigUnsafeInConditions,
        error@ is MissingLineage <==> error is MissingLineage,
        error@ is MissingHint <==> error is MissingHint,
        error@ is NoIdentitySingleton <==> error is NoIdentitySingleton,
        error@ is NotASingleton <==> error is NotASingleton,
        error@ is NotDidRooted <==> error is NotDidRooted,
        error@ is LauncherMismatch <==> error is LauncherMismatch,
        error@ is LineageTooDeep <==> error is LineageTooDeep,
{
}

/// An outcome is the value or the error that was returned, viewed, and never the one for the other.
pub proof fn outcomes_are_what_was_returned<T: View>(result: DidResult<T>)
    ensures
        match result {
            Ok(value) => outcome(result) == Ok::<T::V, Fault>(value@),
            Err(error) => outcome(result) == Err::<T::V, Fault>(error@),
        },
{
}

} // verus!
