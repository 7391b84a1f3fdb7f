//! Addresses, and the `did:chia:1…` string of a DID.
//!
//! A DID's string is the bech32m encoding of its launcher id under the prefix `did:chia:`, by the
//! address codec of chia-wallet-sdk.
use vstd::prelude::*;

use chia_protocol::Bytes32;
use chia_wallet_sdk::utils::Address as SdkAddress;

use crate::error::{DidError, DidResult};

#[allow(unused_imports)]
use crate::bytes::hash_bytes;
#[allow(unused_imports)]
use crate::error::Fault;

verus! {

/// The prefix of a DID's string.
pub const DID_CHIA_PREFIX: &'static str = "did:chia:";

/// The prefix of an XCH payment address.
pub const XCH_PREFIX: &'static str = "xch";

/// A hash with the prefix that its bech32m string has.
#[derive(Debug)]
pub struct Address {
    /// The hash: a puzzle hash, or a launcher id.
    pub puzzle_hash: Bytes32,
    /// The human-readable prefix.
    pub prefix: String,
}

/// An [`Address`] with its hash as bytes and its prefix as characters.
#[verifier::ext_equal]
pub struct AddressView {
    pub puzzle_hash: Seq<u8>,
    pub prefix: Seq<char>,
}

impl View for Address {
    type V = AddressView;

    open spec fn view(&self) -> AddressView {
        AddressView { puzzle_hash: hash_bytes(self.puzzle_hash), prefix: self.prefix@ }
    }
}

/// The bech32m string of an address, or the text of the error.
pub uninterp spec fn address_text(address: AddressView) -> Result<Seq<char>, Seq<char>>;

/// The address that a bech32m string encodes, or the text of the error.
pub uninterp spec fn address_in(text: Seq<char>) -> Result<AddressView, Seq<char>>;

/// Whether `prefix` can stand in front of a bech32m string and comes back from it unchanged: it is not
/// empty, not too long, printable, and without upper-case letters.
pub open spec fn is_prefix(prefix: Seq<char>) -> bool {
    &&& 1 <= prefix.len() <= 83
    &&& forall|i: int|
        0 <= i < prefix.len() ==> '!' <= #[trigger] prefix[i] <= '~' && !('A' <= prefix[i] <= 'Z')
}

/// Whether `text` reads as `address`.
pub open spec fn text_reads_as(text: Seq<char>, address: AddressView) -> bool {
    address_in(text) == Ok::<AddressView, Seq<char>>(address)
}

/// Whether there is a string, it starts with the address's prefix and a `1`, and it reads as the
/// address.
pub open spec fn encodes(encoded: Result<String, String>, address: AddressView) -> bool {
    encoded matches Ok(text) && text_reads_as(text@, address) && address.prefix.push(
        '1',
    ).is_prefix_of(text@)
}

/// `Address::encode`: the bech32m string. Under a well-formed prefix it exists, starts with the prefix
/// and a `1`, and decodes to the address.
#[verifier::external_body]
fn encode_address(address: &Address) -> (encoded: Result<String, String>)
    ensures
        address_text(address@) == (match encoded {
            Ok(text) => Ok(text@),
            Err(text) => Err(text@),
        }),
        is_prefix(address.prefix@) ==> encodes(encoded, address@),
{
    let address = SdkAddress::new(address.puzzle_hash, address.prefix.clone());
    address.encode().map_err(|error| error.to_string())
}

/// `Address::decode`: the hash and the prefix in a bech32m string.
#[verifier::external_body]
fn decode_address(text: &str) -> (decoded: Result<Address, String>)
    ensures
        address_in(text@) == (match decoded {
            Ok(address) => Ok(address@),
            Err(text) => Err(text@),
        }),
{
    let address = SdkAddress::decode(text).map_err(|error| error.to_string())?;
    Ok(Address { puzzle_hash: address.puzzle_hash, prefix: address.prefix })
}

impl Address {
    /// An address of its two parts.
    pub fn new(puzzle_hash: Bytes32, prefix: String) -> (address: Address)
        ensures
            address.puzzle_hash == puzzle_hash,
            address.prefix == prefix,
    {
        Address { puzzle_hash, prefix }
    }

    /// The bech32m string, or the text of the codec's error. Under a well-formed prefix there is one, and
    /// it reads back as the address.
    pub fn encode(&self) -> (encoded: Result<String, String>)
        ensures
            address_text(self@) == (match encoded {
                Ok(text) => Ok(text@),
                Err(text) => Err(text@),
            }),
            is_prefix(self.prefix@) ==> encodes(encoded, self@),
    {
        encode_address(self)
    }

    /// The address that a bech32m string encodes, or the text of the codec's error.
    pub fn decode(text: &str) -> (decoded: Result<Address, String>)
        ensures
            address_in(text@) == (match decoded {
                Ok(address) => Ok(address@),
                Err(text) => Err(text@),
            }),
    {
        decode_address(text)
    }
}

/// The address whose string is that of the DID launched as `launcher_id`.
pub open spec fn did_address(launcher_id: Seq<u8>) -> AddressView {
    AddressView { puzzle_hash: launcher_id, prefix: "did:chia:"@ }
}

/// The prefix of a DID's string is well-formed.
proof fn lemma_did_prefix()
    ensures
        is_prefix("did:chia:"@),
{
    reveal_strlit("did:chia:");
}

/// The canonical string of the DID launched as `launcher_id`. It reads back as the launcher id.
pub fn did_string_from_launcher_id(launcher_id: Bytes32) -> (text: String)
    ensures
        address_text(did_address(hash_bytes(launcher_id))) == Ok::<Seq<char>, Seq<char>>(text@),
        launcher_id_in(text@) == Ok::<Seq<u8>, Fault>(hash_bytes(launcher_id)),
        "did:chia:"@.push('1').is_prefix_of(text@),
{
    let address = Address { puzzle_hash: launcher_id, prefix: DID_CHIA_PREFIX.to_owned() };
    proof {
        lemma_did_prefix();
    }
    match encode_address(&address) {
        Ok(text) => text,
        Err(text) => text,
    }
}

/// What [`launcher_id_from_did_string`] answers: a string that is no bech32m address and one with
/// another prefix are refused.
pub open spec fn launcher_id_in(text: Seq<char>) -> Result<Seq<u8>, Fault> {
    match address_in(text) {
        Err(reason) => Err(Fault::InvalidDidString(reason)),
        Ok(address) => if address.prefix == "did:chia:"@ {
            Ok(address.puzzle_hash)
        } else {
            Err(Fault::InvalidDidString("the prefix is not did:chia:"@))
        },
    }
}

/// The launcher id in a DID's string, or [`DidError::InvalidDidString`] where it is malformed.
pub fn launcher_id_from_did_string(text: &str) -> (launcher_id: DidResult<Bytes32>)
    ensures
        (match launcher_id {
            Ok(id) => Ok(hash_bytes(id)),
            Err(error) => Err(error@),
        }) == launcher_id_in(text@),
{
    match decode_address(text) {
        Err(reason) => Err(DidError::InvalidDidString(reason)),
        Ok(address) => {
            if address.prefix == DID_CHIA_PREFIX.to_owned() {
                Ok(address.puzzle_hash)
            } else {
                Err(DidError::InvalidDidString("the prefix is not did:chia:".to_owned()))
            }
        },
    }
}

/// A string names a DID exactly where it decodes to an address under the prefix of DIDs, and then the DID whose
/// launcher id that address holds: the address that the DID's own string is encoded from. Every other string
/// is an invalid DID string, for the codec's reason where it does not decode.
pub proof fn did_strings_hold_their_launcher_id(
    text: Seq<char>,
    launcher_id: Seq<u8>,
    reason: Seq<char>,
)
    ensures
        launcher_id_in(text) == Ok::<Seq<u8>, Fault>(launcher_id) <==> {
            &&& address_in(text) matches Ok(address)
            &&& address.prefix == "did:chia:"@
            &&& address.puzzle_hash == launcher_id
        },
        address_in(text) == Err::<AddressView, Seq<char>>(reason) ==> launcher_id_in(text) == Err::<
            Seq<u8>,
            Fault,
        >(Fault::InvalidDidString(reason)),
        launcher_id_in(text) matches Err(fault) ==> fault is InvalidDidString,
        did_address(launcher_id).puzzle_hash == launcher_id,
        did_address(launcher_id).prefix == "did:chia:"@,
{
}

} // verus!
