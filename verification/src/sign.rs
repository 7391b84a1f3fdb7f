//! The signing boundary: which signatures a list of coin spends requires.
//!
//! This is the only bridge between unsigned spends and a caller's signer. It takes no secret key and
//! computes only what must be signed.
use vstd::prelude::*;

use chia_protocol::{Bytes32, Coin as SdkCoin, CoinSpend as SdkCoinSpend};
use chia_wallet_sdk::prelude::{Allocator, PublicKey};
use chia_wallet_sdk::signer::RequiredSignature as SdkSignature;

pub use chia_wallet_sdk::signer::{AggSigConstants, SecpPublicKey};

use crate::bytes::hash_to_vec;
use crate::error::{DidError, DidResult};
use crate::types::CoinSpend;

#[allow(unused_imports)]
use crate::bytes::{int_atom, key_bytes, optional_hash_bytes};
#[allow(unused_imports)]
use crate::error::Fault;
#[allow(unused_imports)]
use crate::types::{views, CoinSpendView, CoinView};

verus! {

/// The domain strings of a network's signature kinds.
#[verifier::external_type_specification]
#[verifier::external_body]
pub struct ExAggSigConstants(chia_wallet_sdk::signer::AggSigConstants);

/// The domain strings in the constants: that of `AGG_SIG_ME`, then those of the opcodes 43 to 48.
pub uninterp spec fn domain_strings(constants: AggSigConstants) -> Seq<Seq<u8>>;

/// A secp256k1 or secp256r1 public key.
#[verifier::external_type_specification]
#[verifier::external_body]
pub struct ExSecpPublicKey(chia_wallet_sdk::signer::SecpPublicKey);

/// The two curves of secp keys.
#[derive(Debug, Clone, Copy, PartialEq, Eq)]
pub enum SecpCurve {
    /// secp256k1.
    K1,
    /// secp256r1.
    R1,
}

/// A secp key in parts: its curve, and its compressed form.
#[verifier::ext_equal]
pub struct SecpKeyView {
    pub curve: SecpCurve,
    pub bytes: Seq<u8>,
}

/// The curve and the compressed form of a secp key.
pub uninterp spec fn secp_key(key: SecpPublicKey) -> SecpKeyView;

/// `K1PublicKey::to_bytes` or `R1PublicKey::to_bytes`, by the variant that the key is: its curve and its
/// compressed form.
#[verifier::external_body]
fn compress_secp_key(key: &SecpPublicKey) -> (compressed: (SecpCurve, Vec<u8>))
    ensures
        compressed.0 == secp_key(*key).curve,
        compressed.1@ == secp_key(*key).bytes,
{
    match key {
        SecpPublicKey::K1(key) => (SecpCurve::K1, key.to_bytes().to_vec()),
        SecpPublicKey::R1(key) => (SecpCurve::R1, key.to_bytes().to_vec()),
    }
}

/// A signature that a coin spend requires.
#[derive(Debug)]
pub enum RequiredSignature {
    /// A BLS signature.
    Bls(RequiredBlsSignature),
    /// A secp256k1 or secp256r1 signature.
    Secp(RequiredSecpSignature),
}

/// A BLS signature that a coin spend requires.
#[derive(Debug)]
pub struct RequiredBlsSignature {
    /// The key to sign under.
    pub public_key: PublicKey,
    /// The message in the condition.
    pub raw_message: Vec<u8>,
    /// What the condition's kind binds the message to.
    pub appended_info: Vec<u8>,
    /// The domain string of the condition's kind; `AGG_SIG_UNSAFE` has none.
    pub domain_string: Option<Bytes32>,
}

/// A secp signature that a coin spend requires.
#[derive(Debug)]
pub struct RequiredSecpSignature {
    /// The key to sign under.
    pub public_key: SecpPublicKey,
    /// The hash to sign.
    pub message_hash: [u8; 32],
}

/// A [`RequiredSignature`] with everything in it as bytes.
#[verifier::ext_equal]
pub enum RequiredSignatureView {
    Bls {
        public_key: Seq<u8>,
        raw_message: Seq<u8>,
        appended_info: Seq<u8>,
        domain_string: Option<Seq<u8>>,
    },
    Secp { secp_key: SecpKeyView, message_hash: Seq<u8> },
}

impl View for RequiredSignature {
    type V = RequiredSignatureView;

    open spec fn view(&self) -> RequiredSignatureView {
        match *self {
            RequiredSignature::Bls(bls) => RequiredSignatureView::Bls {
                public_key: key_bytes(bls.public_key),
                raw_message: bls.raw_message@,
                appended_info: bls.appended_info@,
                domain_string: optional_hash_bytes(bls.domain_string),
            },
            RequiredSignature::Secp(secp) => RequiredSignatureView::Secp {
                secp_key: secp_key(secp.public_key),
                message_hash: secp.message_hash@,
            },
        }
    }
}

impl RequiredBlsSignature {
    /// The exact bytes to sign: the message, what it is bound to, and the domain string.
    pub fn message(&self) -> (message: Vec<u8>)
        ensures
            message@ == self.raw_message@ + self.appended_info@ + (match optional_hash_bytes(
                self.domain_string,
            ) {
                Some(domain) => domain,
                None => Seq::empty(),
            }),
    {
        let mut message: Vec<u8> = Vec::new();
        append_bytes(&mut message, &self.raw_message);
        append_bytes(&mut message, &self.appended_info);
        if let Some(domain_string) = self.domain_string {
            let bytes = hash_to_vec(&domain_string);
            append_bytes(&mut message, &bytes);
        }
        assert(message@ =~= self.raw_message@ + self.appended_info@ + (match optional_hash_bytes(
            self.domain_string,
        ) {
            Some(domain) => domain,
            None => Seq::empty(),
        }));
        message
    }
}

impl RequiredSecpSignature {
    /// The compressed form of the key.
    pub fn public_key_bytes(&self) -> (bytes: Vec<u8>)
        ensures
            bytes@ == secp_key(self.public_key).bytes,
    {
        compress_secp_key(&self.public_key).1
    }

    /// The curve that the key is on.
    pub fn curve(&self) -> (curve: SecpCurve)
        ensures
            curve == secp_key(self.public_key).curve,
    {
        compress_secp_key(&self.public_key).0
    }
}

/// Adds `more` to the end of `bytes`.
fn append_bytes(bytes: &mut Vec<u8>, more: &Vec<u8>)
    ensures
        final(bytes)@ == old(bytes)@ + more@,
{
    let ghost before = bytes@;
    let mut index: usize = 0;
    while index < more.len()
        invariant
            index <= more@.len(),
            bytes@ == before + more@.take(index as int),
        decreases more@.len() - index,
    {
        bytes.push(more[index]);
        assert(more@.take(index as int + 1) =~= more@.take(index as int).push(more@[index as int]));
        index = index + 1;
    }
    assert(more@.take(index as int) =~= more@);
}

/// The signatures that one coin spend requires under a network's domain strings, or the text of the
/// signer's error.
pub uninterp spec fn signatures_of(spend: CoinSpendView, domains: Seq<Seq<u8>>) -> Result<
    Seq<RequiredSignatureView>,
    Seq<char>,
>;

/// What the signature requirement of an opcode binds its message to: the coin's parent, puzzle hash and
/// amount alone or in pairs (43 to 48), nothing at all (49, `AGG_SIG_UNSAFE`), or the coin's id (50,
/// `AGG_SIG_ME`).
pub open spec fn bound_info(opcode: i8, coin: CoinView) -> Seq<u8> {
    if opcode == 43 {
        coin.parent_coin_info
    } else if opcode == 44 {
        coin.puzzle_hash
    } else if opcode == 45 {
        int_atom(coin.amount as nat)
    } else if opcode == 46 {
        coin.puzzle_hash + int_atom(coin.amount as nat)
    } else if opcode == 47 {
        coin.parent_coin_info + int_atom(coin.amount as nat)
    } else if opcode == 48 {
        coin.parent_coin_info + coin.puzzle_hash
    } else if opcode == 49 {
        Seq::empty()
    } else {
        coin.id()
    }
}

/// The domain string of an opcode's signatures among a network's; `AGG_SIG_UNSAFE` has none.
pub open spec fn bound_domain(opcode: i8, domains: Seq<Seq<u8>>) -> Option<Seq<u8>> {
    if opcode == 49 {
        None
    } else if 43 <= opcode <= 48 {
        Some(domains[opcode - 42])
    } else {
        Some(domains[0])
    }
}

/// Whether a signature is what a requirement of `opcode` in a spend of `coin` asks for.
pub open spec fn is_bound(
    signature: RequiredSignatureView,
    opcode: i8,
    coin: CoinView,
    domains: Seq<Seq<u8>>,
) -> bool {
    &&& signature matches RequiredSignatureView::Bls {
        public_key,
        raw_message,
        appended_info,
        domain_string,
    }
    &&& appended_info == bound_info(opcode, coin)
    &&& domain_string == bound_domain(opcode, domains)
}

/// Whether a signature is an `AGG_SIG_ME` of the owner of `key` over `coin`: bound to the coin's id, and
/// to the network by its domain string.
pub open spec fn is_owner_signature(
    signature: RequiredSignatureView,
    key: Seq<u8>,
    coin: CoinView,
    domains: Seq<Seq<u8>>,
) -> bool {
    &&& is_bound(signature, 50, coin, domains)
    &&& signature->Bls_public_key == key
}

/// Whether `spend`, on every network on which its signatures can be calculated, requires an
/// `AGG_SIG_ME` of the owner of `key`, then what requirements of the opcodes in `more` ask for, and
/// nothing else.
pub open spec fn requires_owner_signature(
    spend: CoinSpendView,
    key: Seq<u8>,
    more: Seq<i8>,
) -> bool {
    forall|constants: AggSigConstants|
        (#[trigger] signatures_of(spend, domain_strings(constants)) matches Ok(signatures) ==> {
            &&& signatures.len() == 1 + more.len()
            &&& is_owner_signature(signatures[0], key, spend.coin, domain_strings(constants))
            &&& forall|i: int|
                1 <= i < signatures.len() ==> is_bound(
                    #[trigger] signatures[i],
                    more[i - 1],
                    spend.coin,
                    domain_strings(constants),
                )
        })
}

/// Whether `spend` requires no signature on any network.
pub open spec fn requires_no_signature(spend: CoinSpendView) -> bool {
    forall|constants: AggSigConstants| #[trigger]
        signatures_of(spend, domain_strings(constants)) == Ok::<
            Seq<RequiredSignatureView>,
            Seq<char>,
        >(Seq::empty())
}

/// Whether `spend` requires the signatures that `inner` requires, on every network on which they can be
/// calculated.
pub open spec fn requires_same_signatures(spend: CoinSpendView, inner: CoinSpendView) -> bool {
    forall|constants: AggSigConstants|
        (#[trigger] signatures_of(spend, domain_strings(constants)) matches Ok(signatures) ==>
            signatures_of(inner, domain_strings(constants)) == Ok::<
            Seq<RequiredSignatureView>,
            Seq<char>,
        >(signatures))
}

/// `RequiredSignature::from_coin_spend`: runs the spend and collects its signature requirements.
#[verifier::external_body]
fn coin_spend_signatures(coin_spend: &CoinSpend, constants: &AggSigConstants) -> (required: Result<
    Vec<RequiredSignature>,
    String,
>)
    ensures
        signatures_of(coin_spend@, domain_strings(*constants)) == (match required {
            Ok(signatures) => Ok(views(signatures@)),
            Err(text) => Err(text@),
        }),
{
    let c = &coin_spend.coin;
    let coin = SdkCoin::new(c.parent_coin_info, c.puzzle_hash, c.amount);
    let (puzzle, solution) = (coin_spend.puzzle_reveal.clone(), coin_spend.solution.clone());
    let spend = SdkCoinSpend::new(coin, puzzle, solution);
    let required = SdkSignature::from_coin_spend(&mut Allocator::new(), &spend, constants);
    Ok(required.map_err(|error| error.to_string())?.into_iter().map(|signature| match signature {
        SdkSignature::Bls(bls) => RequiredSignature::Bls(RequiredBlsSignature {
            public_key: bls.public_key,
            raw_message: bls.raw_message.into(),
            appended_info: bls.appended_info,
            domain_string: bls.domain_string,
        }),
        SdkSignature::Secp(secp) => RequiredSignature::Secp(RequiredSecpSignature {
            public_key: secp.public_key, message_hash: secp.message_hash }),
    }).collect())
}

/// What [`required_signatures`] answers: the signatures of each coin spend in turn, or the error of the
/// first that fails.
pub open spec fn signatures_of_all(spends: Seq<CoinSpendView>, domains: Seq<Seq<u8>>) -> Result<
    Seq<RequiredSignatureView>,
    Fault,
>
    decreases spends.len(),
{
    if spends.len() == 0 {
        Ok(Seq::empty())
    } else {
        match signatures_of_all(spends.drop_last(), domains) {
            Err(fault) => Err(fault),
            Ok(signatures) => match signatures_of(spends.last(), domains) {
                Err(text) => Err(Fault::Signer(text)),
                Ok(more) => Ok(signatures + more),
            },
        }
    }
}

/// The signatures that `coin_spends` require, in spend order: everything that a caller has to sign, and
/// nothing else.
///
/// # Errors
///
/// [`DidError::Signer`] if a puzzle fails to evaluate or a condition carries an infinity key.
pub fn required_signatures(coin_spends: &[CoinSpend], constants: &AggSigConstants) -> (required:
    DidResult<Vec<RequiredSignature>>)
    ensures
        (match required {
            Ok(signatures) => Ok(views(signatures@)),
            Err(error) => Err(error@),
        }) == signatures_of_all(views(coin_spends@), domain_strings(*constants)),
{
    let ghost all = views(coin_spends@);
    let ghost domains = domain_strings(*constants);
    let mut required: Vec<RequiredSignature> = Vec::new();
    let mut index: usize = 0;
    assert(views(required@) =~= Seq::<RequiredSignatureView>::empty());
    while index < coin_spends.len()
        invariant
            index <= coin_spends@.len(),
            all == views(coin_spends@),
            domains == domain_strings(*constants),
            signatures_of_all(all.take(index as int), domains) == Ok::<
                Seq<RequiredSignatureView>,
                Fault,
            >(views(required@)),
        decreases coin_spends@.len() - index,
    {
        let ghost before = required@;
        proof {
            let more = all.take(index as int + 1);
            assert(more.drop_last() =~= all.take(index as int));
            assert(more.last() == coin_spends@[index as int]@);
        }
        match coin_spend_signatures(&coin_spends[index], constants) {
            Err(text) => {
                proof {
                    lemma_error_stays(all, domains, index as int + 1);
                }
                return Err(DidError::Signer(text));
            },
            Ok(signatures) => {
                let mut more = signatures;
                required.append(&mut more);
                assert(views(required@) =~= views(before) + views(signatures@));
            },
        }
        index = index + 1;
    }
    assert(all.take(index as int) =~= all);
    Ok(required)
}

/// An error among the first coin spends of a list is the error of the list.
proof fn lemma_error_stays(spends: Seq<CoinSpendView>, domains: Seq<Seq<u8>>, count: int)
    requires
        0 <= count <= spends.len(),
        signatures_of_all(spends.take(count), domains) is Err,
    ensures
        signatures_of_all(spends, domains) == signatures_of_all(spends.take(count), domains),
    decreases spends.len() - count,
{
    if count == spends.len() {
        assert(spends.take(count) =~= spends);
    } else {
        let more = spends.take(count + 1);
        assert(more.drop_last() =~= spends.take(count));
        lemma_error_stays(spends, domains, count + 1);
    }
}

/// The signatures of two lists of coin spends, one behind the other, are those of the first and then
/// those of the second; an error of the first is the error of both. Nothing is required beside what the
/// spends require one by one.
pub proof fn signatures_of_a_bundle_are_those_of_its_parts(
    first: Seq<CoinSpendView>,
    second: Seq<CoinSpendView>,
    domains: Seq<Seq<u8>>,
)
    ensures
        signatures_of_all(first + second, domains) == (match signatures_of_all(first, domains) {
            Err(fault) => Err(fault),
            Ok(signatures) => match signatures_of_all(second, domains) {
                Err(fault) => Err(fault),
                Ok(more) => Ok(signatures + more),
            },
        }),
    decreases second.len(),
{
    let all = first + second;
    if second.len() == 0 {
        assert(all =~= first);
        if let Ok(signatures) = signatures_of_all(first, domains) {
            assert(signatures + Seq::<RequiredSignatureView>::empty() =~= signatures);
        }
    } else {
        let fewer = second.drop_last();
        assert(all.drop_last() =~= first + fewer);
        assert(all.last() == second.last());
        signatures_of_a_bundle_are_those_of_its_parts(first, fewer, domains);
        if let Ok(signatures) = signatures_of_all(first, domains) {
            if let Ok(more) = signatures_of_all(fewer, domains) {
                if let Ok(last) = signatures_of(second.last(), domains) {
                    assert(signatures + more + last =~= signatures + (more + last));
                }
            }
        }
    }
}

/// The signatures of one coin spend are exactly those that the signer calculates for it, each with its key, its
/// message, what that is bound to and its domain string, in their order. Where the signer fails, so does
/// the list, with the signer's text.
pub proof fn signatures_of_one_spend_are_the_signers(spend: CoinSpendView, domains: Seq<Seq<u8>>)
    ensures
        match signatures_of(spend, domains) {
            Ok(calculated) => signatures_of_all(seq![spend], domains) matches Ok(required) && {
                &&& required.len() == calculated.len()
                &&& forall|i: int| 0 <= i < calculated.len() ==> required[i] == #[trigger] calculated[i]
            },
            Err(text) => signatures_of_all(seq![spend], domains) == Err::<
                Seq<RequiredSignatureView>,
                Fault,
            >(Fault::Signer(text)),
        },
        signatures_of_all(Seq::empty(), domains) == Ok::<Seq<RequiredSignatureView>, Fault>(
            Seq::empty(),
        ),
{
    reveal_with_fuel(signatures_of_all, 2);
    let one = seq![spend];
    assert(one.drop_last() =~= Seq::<CoinSpendView>::empty());
    if let Ok(calculated) = signatures_of(spend, domains) {
        assert(Seq::<RequiredSignatureView>::empty() + calculated =~= calculated);
    }
}

/// The signatures that the signer calculates for each of a list of coin spends.
pub open spec fn signatures_of_each(spends: Seq<CoinSpendView>, domains: Seq<Seq<u8>>) -> Seq<
    Seq<RequiredSignatureView>,
> {
    spends.map_values(|spend: CoinSpendView| signatures_of(spend, domains)->Ok_0)
}

/// The signatures of a list of coin spends are those that the signer calculates for each, one spend behind the
/// other, exactly where it calculates all of them. Otherwise the error is the signer's for the first spend
/// that it fails on.
pub proof fn signatures_of_spends_are_the_signers(spends: Seq<CoinSpendView>, domains: Seq<Seq<u8>>)
    ensures
        match signatures_of_all(spends, domains) {
            Ok(required) => {
                &&& forall|i: int|
                    0 <= i < spends.len() ==> signatures_of(#[trigger] spends[i], domains) is Ok
                &&& required == signatures_of_each(spends, domains).flatten()
            },
            Err(fault) => exists|i: int|
                {
                    &&& 0 <= i < spends.len()
                    &&& signatures_of(#[trigger] spends[i], domains) matches Err(text)
                    &&& fault == Fault::Signer(text)
                    &&& forall|j: int| 0 <= j < i ==> signatures_of(#[trigger] spends[j], domains) is Ok
                },
        },
    decreases spends.len(),
{
    let each = signatures_of_each(spends, domains);
    if spends.len() > 0 {
        let fewer = spends.drop_last();
        signatures_of_spends_are_the_signers(fewer, domains);
        assert forall|i: int| 0 <= i < fewer.len() implies #[trigger] fewer[i] == spends[i] by {}
        match signatures_of_all(fewer, domains) {
            Ok(before) => {
                assert forall|i: int| 0 <= i < fewer.len() implies signatures_of(
                    #[trigger] spends[i],
                    domains,
                ) is Ok by {
                    assert(signatures_of(fewer[i], domains) is Ok);
                }
                assert(spends[spends.len() - 1] == spends.last());
                if let Ok(last) = signatures_of(spends.last(), domains) {
                    assert(signatures_of_each(fewer, domains) =~= each.drop_last());
                    each.lemma_flatten_and_flatten_alt_are_equivalent();
                    each.drop_last().lemma_flatten_and_flatten_alt_are_equivalent();
                    assert(each.last() == last);
                    assert(each.flatten_alt() == each.drop_last().flatten_alt() + last);
                }
            },
            Err(fault) => {
                let i = choose|i: int|
                    {
                        &&& 0 <= i < fewer.len()
                        &&& signatures_of(#[trigger] fewer[i], domains) matches Err(text)
                        &&& fault == Fault::Signer(text)
                        &&& forall|j: int|
                            0 <= j < i ==> signatures_of(#[trigger] fewer[j], domains) is Ok
                    };
                assert(spends[i] == fewer[i]);
                assert forall|j: int| 0 <= j < i implies signatures_of(
                    #[trigger] spends[j],
                    domains,
                ) is Ok by {
                    assert(fewer[j] == spends[j]);
                }
            },
        }
    }
}

} // verus!
