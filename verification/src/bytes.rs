//! The byte-carrying types of the Chia crates, and what they hold.
//!
//! Hashes, serialized programs and public keys are values of the Chia crates. Contracts never speak
//! of such a value itself but of the bytes in it, through the functions of this module.
use vstd::prelude::*;

pub use chia_protocol::{Bytes32, Program};
pub use chia_wallet_sdk::prelude::PublicKey;

verus! {

/// `chia_protocol::BytesImpl`, the fixed-length byte string behind `Bytes32`.
#[verifier::external_type_specification]
#[verifier::external_body]
pub struct ExBytesImpl<const N: usize>(chia_protocol::BytesImpl<N>);

/// `chia_protocol::Program`, a CLVM tree in serialized form.
#[verifier::external_type_specification]
#[verifier::external_body]
pub struct ExProgram(chia_protocol::Program);

/// The BLS public key of the Chia crates.
#[verifier::external_type_specification]
#[verifier::external_body]
pub struct ExPublicKey(chia_wallet_sdk::prelude::PublicKey);

/// The bytes of a hash.
pub uninterp spec fn hash_bytes(hash: Bytes32) -> Seq<u8>;

/// The bytes of a serialized program.
pub uninterp spec fn program_bytes(program: Program) -> Seq<u8>;

/// The compressed form of a public key.
pub uninterp spec fn key_bytes(key: PublicKey) -> Seq<u8>;

/// Whether a compressed key is infinity or a point of the group that signatures are made in.
pub uninterp spec fn is_valid_key(key: Seq<u8>) -> bool;

/// `PublicKey::is_valid`: whether the key is infinity or a point of the right group. A key that was read
/// without that test may be neither.
#[verifier::external_body]
pub(crate) fn key_is_valid(key: &PublicKey) -> (valid: bool)
    ensures
        valid == is_valid_key(key_bytes(*key)),
{
    key.is_valid()
}

/// The bytes of a hash that may be absent.
pub open spec fn optional_hash_bytes(hash: Option<Bytes32>) -> Option<Seq<u8>> {
    match hash {
        Some(present) => Some(hash_bytes(present)),
        None => None,
    }
}

/// The bytes of the first memo of a coin, where there are memos and it is a hash.
pub open spec fn memo_bytes(memo: Option<Option<Bytes32>>) -> Option<Option<Seq<u8>>> {
    match memo {
        Some(first) => Some(optional_hash_bytes(first)),
        None => None,
    }
}

/// The bytes of each program of a list.
pub open spec fn all_program_bytes(programs: Seq<Program>) -> Seq<Seq<u8>> {
    programs.map_values(|program: Program| program_bytes(program))
}

/// `Program::clone`: the copy holds the same bytes.
pub assume_specification[ <chia_protocol::Program as std::clone::Clone>::clone ](
    program: &chia_protocol::Program,
) -> (copy: chia_protocol::Program)
    ensures
        program_bytes(copy) == program_bytes(*program),
;

/// `==` of `Bytes32`: two hashes are equal when their bytes are.
#[verifier::external_body]
pub(crate) fn same_hash(left: &Bytes32, right: &Bytes32) -> (same: bool)
    ensures
        same == (hash_bytes(*left) == hash_bytes(*right)),
{
    left == right
}

/// `Bytes32::to_vec`: the bytes of the hash, of which there are 32.
#[verifier::external_body]
pub(crate) fn hash_to_vec(hash: &Bytes32) -> (bytes: Vec<u8>)
    ensures
        bytes@ == hash_bytes(*hash),
        bytes@.len() == 32,
{
    hash.to_vec()
}

/// The big-endian digits of `value` in base 256, without a leading zero.
pub open spec fn big_endian(value: nat) -> Seq<u8>
    decreases value,
{
    if value == 0 {
        Seq::empty()
    } else {
        big_endian(value / 256).push((value % 256) as u8)
    }
}

/// The value of big-endian bytes.
pub open spec fn big_endian_value(bytes: Seq<u8>) -> nat
    decreases bytes.len(),
{
    if bytes.len() == 0 {
        0
    } else {
        big_endian_value(bytes.drop_last()) * 256 + bytes.last() as nat
    }
}

/// The CLVM atom of a non-negative integer: its shortest two's complement form. Zero is the empty
/// atom, and a zero byte stands in front only where the sign bit would be set without it.
pub open spec fn int_atom(value: nat) -> Seq<u8> {
    let digits = big_endian(value);
    if digits.len() > 0 && digits[0] >= 0x80 {
        seq![0u8] + digits
    } else {
        digits
    }
}

/// The serialized form of an atom of fewer than 64 bytes.
pub open spec fn serialized_atom(atom: Seq<u8>) -> Seq<u8> {
    if atom.len() == 1 && atom[0] < 0x80 {
        atom
    } else {
        seq![(0x80 + atom.len()) as u8] + atom
    }
}

/// How many values a number of bytes can take.
spec fn byte_capacity(count: nat) -> nat
    decreases count,
{
    if count == 0 {
        1
    } else {
        256 * byte_capacity((count - 1) as nat)
    }
}

/// Digits read back as the value, the first is not zero, and they are as few as the value needs.
proof fn lemma_digits(value: nat, count: nat)
    ensures
        big_endian_value(big_endian(value)) == value,
        value > 0 ==> big_endian(value).len() > 0 && big_endian(value)[0] != 0,
        value < byte_capacity(count) ==> big_endian(value).len() <= count,
    decreases value,
{
    if value > 0 {
        let front = big_endian(value / 256);
        let digits = big_endian(value);
        lemma_digits(value / 256, if count > 0 {
            (count - 1) as nat
        } else {
            0
        });
        assert(digits.drop_last() =~= front);
        assert(digits.last() == (value % 256) as u8);
    }
}

/// Bytes whose first is not zero are the digits of their value.
proof fn lemma_value_of_digits(bytes: Seq<u8>)
    requires
        bytes.len() > 0,
        bytes[0] != 0,
    ensures
        big_endian_value(bytes) > 0,
        big_endian(big_endian_value(bytes)) == bytes,
    decreases bytes.len(),
{
    let front = bytes.drop_last();
    let last = bytes.last() as nat;
    let value = big_endian_value(bytes);
    assert(value == big_endian_value(front) * 256 + last);
    assert(value / 256 == big_endian_value(front) && value % 256 == last);
    if front.len() > 0 {
        lemma_value_of_digits(front);
    } else {
        assert(front =~= Seq::<u8>::empty());
        assert(big_endian(0) =~= front);
    }
    assert(big_endian(value) == front.push(bytes.last()));
    assert(front.push(bytes.last()) =~= bytes);
}

/// A value fits the bytes that it is read from.
proof fn lemma_value_bound(bytes: Seq<u8>)
    ensures
        big_endian_value(bytes) < byte_capacity(bytes.len()),
    decreases bytes.len(),
{
    if bytes.len() > 0 {
        lemma_value_bound(bytes.drop_last());
    }
}

/// A zero byte in front changes no value.
proof fn lemma_leading_zero(bytes: Seq<u8>)
    ensures
        big_endian_value(seq![0u8] + bytes) == big_endian_value(bytes),
    decreases bytes.len(),
{
    let longer = seq![0u8] + bytes;
    if bytes.len() == 0 {
        assert(longer.drop_last() =~= Seq::<u8>::empty());
        assert(big_endian_value(longer.drop_last()) == 0);
    } else {
        assert(longer.drop_last() =~= seq![0u8] + bytes.drop_last());
        lemma_leading_zero(bytes.drop_last());
    }
}

/// What eight bytes hold.
proof fn lemma_eight_bytes()
    ensures
        byte_capacity(8) == u64::MAX + 1,
{
    reveal_with_fuel(byte_capacity, 9);
}

/// Whether an atom is the shortest two's complement form of a non-negative integer that fits eight
/// bytes, a guarding zero not counted.
pub open spec fn is_shortest_amount(atom: Seq<u8>) -> bool {
    ||| atom.len() == 0
    ||| {
        &&& atom[0] < 0x80
        &&& atom[0] == 0 ==> atom.len() > 1 && atom[1] >= 0x80
        &&& atom.len() <= 8 || (atom.len() == 9 && atom[0] == 0)
    }
}

/// Every amount has exactly one encoding that is shortest, and it reads back as the amount.
pub proof fn amounts_have_one_encoding(amount: u64)
    ensures
        is_shortest_amount(int_atom(amount as nat)),
        big_endian_value(int_atom(amount as nat)) == amount,
{
    let digits = big_endian(amount as nat);
    lemma_eight_bytes();
    lemma_digits(amount as nat, 8);
    lemma_leading_zero(digits);
}

/// An atom in shortest form is the encoding of the amount that it reads as.
pub proof fn shortest_atoms_encode_their_amount(atom: Seq<u8>)
    requires
        is_shortest_amount(atom),
    ensures
        big_endian_value(atom) <= u64::MAX,
        int_atom(big_endian_value(atom)) == atom,
{
    lemma_eight_bytes();
    if atom.len() == 0 {
        assert(int_atom(0) =~= atom);
    } else if atom[0] == 0 {
        let digits = atom.drop_first();
        assert(atom =~= seq![0u8] + digits);
        lemma_leading_zero(digits);
        lemma_value_of_digits(digits);
        lemma_value_bound(digits);
        lemma_capacity_grows(digits.len(), 8);
    } else {
        lemma_value_of_digits(atom);
        lemma_value_bound(atom);
        lemma_capacity_grows(atom.len(), 8);
    }
}

/// More bytes hold no fewer values.
proof fn lemma_capacity_grows(fewer: nat, more: nat)
    requires
        fewer <= more,
    ensures
        byte_capacity(fewer) <= byte_capacity(more),
    decreases more,
{
    if fewer < more {
        lemma_capacity_grows(fewer, (more - 1) as nat);
    }
}

} // verus!
