//! The boundary to `hex` and `ethers-core`.
//!
//! Every function here that is marked `external_body` is a single call into
//! one of the two crates. Its contract is taken on trust from that crate's
//! source; nothing in this file is proved about it.

use ethers_core::k256::ecdsa::{RecoveryId, Signature, VerifyingKey};
use ethers_core::k256::elliptic_curve::sec1::ToEncodedPoint;
use ethers_core::k256::PublicKey;
use ethers_core::types::transaction::eip1559::Eip1559TransactionRequest;
use ethers_core::types::{Address, Bytes, U256};
use std::str::FromStr;
use vstd::prelude::*;
use vstd::utf8::encode_utf8;

verus! {

/// Why a byte string is not hexadecimal text.
#[derive(Debug, Clone, Copy, PartialEq, Eq, Structural)]
pub enum HexError {
    /// A byte outside `0-9`, `a-f`, `A-F`, with its position.
    InvalidHexCharacter { c: char, index: usize },
    /// An odd number of digits.
    OddLength,
    /// The text does not fill a container of fixed size.
    InvalidStringLength,
}

/// The value of one hexadecimal digit given as an ASCII byte.
pub open spec fn hex_digit_value(c: u8) -> Option<u8> {
    if 0x30 <= c <= 0x39 {
        Some((c - 0x30) as u8)
    } else if 0x61 <= c <= 0x66 {
        Some((c - 0x61 + 10) as u8)
    } else if 0x41 <= c <= 0x46 {
        Some((c - 0x41 + 10) as u8)
    } else {
        None
    }
}

/// The position of the first byte that is no hexadecimal digit, or the
/// length of the text if there is none.
pub open spec fn first_non_hex(text: Seq<u8>) -> int
    decreases text.len(),
{
    if text.len() == 0 {
        0
    } else if hex_digit_value(text[0]) is None {
        0
    } else {
        1 + first_non_hex(text.drop_first())
    }
}

/// The bytes that an even number of hexadecimal digits spell out.
pub open spec fn hex_bytes(text: Seq<u8>) -> Seq<u8> {
    Seq::new(
        text.len() / 2,
        |i: int| (hex_digit_value(text[2 * i])->0 * 16 + hex_digit_value(text[2 * i + 1])->0) as u8,
    )
}

/// What decoding hexadecimal text gives: the bytes, or the first fault found.
pub open spec fn hex_decoded(text: Seq<u8>) -> Result<Seq<u8>, HexError> {
    if text.len() % 2 != 0 {
        Err(HexError::OddLength)
    } else if first_non_hex(text) < text.len() {
        Err(
            HexError::InvalidHexCharacter {
                c: text[first_non_hex(text)] as char,
                index: first_non_hex(text) as usize,
            },
        )
    } else {
        Ok(hex_bytes(text))
    }
}

/// `hex::decode` on a byte string. Claimed of it: an odd length is refused
/// first; otherwise the first byte that is no digit is reported with its
/// position; otherwise each pair of digits becomes one byte, high digit first.
#[verifier::external_body]
pub(crate) fn hex_decode(text: &[u8]) -> (out: Result<Vec<u8>, HexError>)
    ensures
        match out {
            Ok(bytes) => hex_decoded(text@) == Ok::<Seq<u8>, HexError>(bytes@),
            Err(e) => hex_decoded(text@) == Err::<Seq<u8>, HexError>(e),
        },
{
    match hex::decode(text) {
        Ok(bytes) => Ok(bytes),
        Err(hex::FromHexError::InvalidHexCharacter { c, index }) => Err(
            HexError::InvalidHexCharacter { c, index },
        ),
        Err(hex::FromHexError::OddLength) => Err(HexError::OddLength),
        Err(hex::FromHexError::InvalidStringLength) => Err(HexError::InvalidStringLength),
    }
}

/// The lower-case hexadecimal digit for a value below sixteen.
pub open spec fn hex_char(nibble: u8) -> char {
    if nibble < 10 {
        ((0x30 + nibble) as u8) as char
    } else {
        ((0x57 + nibble) as u8) as char
    }
}

/// The lower-case hexadecimal text of a byte string, two digits per byte.
pub open spec fn hex_text(data: Seq<u8>) -> Seq<char> {
    Seq::new(
        2 * data.len(),
        |i: int|
            if i % 2 == 0 {
                hex_char(data[i / 2] / 16)
            } else {
                hex_char(data[i / 2] % 16)
            },
    )
}

/// `hex::encode`. Claimed of it: every byte becomes two lower-case digits,
/// the high one first, and nothing else is written.
#[verifier::external_body]
pub(crate) fn hex_encode(data: &[u8]) -> (text: String)
    ensures
        text@ == hex_text(data@),
{
    hex::encode(data)
}

/// The Keccak-256 digest of a byte string.
pub uninterp spec fn keccak256_of(data: Seq<u8>) -> Seq<u8>;

/// `ethers_core::utils::keccak256`. Claimed of it: the digest depends on the
/// bytes alone and is 32 bytes long.
#[verifier::external_body]
pub(crate) fn keccak256(data: &[u8]) -> (digest: Vec<u8>)
    ensures
        digest@ == keccak256_of(data@),
        digest@.len() == 32,
{
    ethers_core::utils::keccak256(data).to_vec()
}

/// A 32-bit number as a word of the contract ABI: 32 bytes, most significant
/// first.
pub open spec fn abi_word(value: u32) -> Seq<u8> {
    Seq::new(
        32,
        |i: int|
            if i < 28 {
                0u8
            } else if i == 28 {
                (value / 0x100_0000) as u8
            } else if i == 29 {
                (value / 0x1_0000 % 0x100) as u8
            } else if i == 30 {
                (value / 0x100 % 0x100) as u8
            } else {
                (value % 0x100) as u8
            },
    )
}

/// The number of zero bytes that fill `len` bytes up to whole words.
pub open spec fn abi_padding(len: nat) -> nat {
    ((32 - len % 32) % 32) as nat
}

/// The contract ABI encoding of one string argument: the offset of the
/// string, which is one word, then its length in bytes, then its UTF-8 bytes
/// filled up with zeros to whole words.
pub open spec fn abi_encoded_string(text: Seq<char>) -> Seq<u8> {
    let bytes = encode_utf8(text);
    abi_word(32) + abi_word(bytes.len() as u32) + bytes + Seq::new(
        abi_padding(bytes.len()),
        |i: int| 0u8,
    )
}

/// Whether the encoder takes a text of `len` bytes. It counts the bytes of
/// its output in 32 bits and reserves that many words at once, so the count
/// has to fit in 32 bits and the words in the address space.
pub open spec fn abi_encodable(len: nat) -> bool {
    let count = 64 + 32 * ((len + 31) / 32);
    count <= u32::MAX && 32 * count <= isize::MAX
}

/// `ethers_core::abi::AbiEncode::encode` on a `String`. Claimed of it: the
/// output is the offset word, the length word and the padded bytes, as
/// `ethabi` writes them for a single string. A longer text than
/// [`abi_encodable`] admits is left out because the encoder's arithmetic
/// overflows on it, or its buffer cannot be reserved, and it panics.
#[verifier::external_body]
pub(crate) fn abi_encode_string(text: &str) -> (out: Vec<u8>)
    requires
        abi_encodable(encode_utf8(text@).len()),
    ensures
        out@ == abi_encoded_string(text@),
{
    ethers_core::abi::AbiEncode::encode(text.to_string())
}

/// The 20 bytes that a textual address stands for, if it is one.
pub uninterp spec fn parsed_address(text: Seq<char>) -> Option<Seq<u8>>;

/// `Address::from_str` of `ethers-core`. Claimed of it: whether the text is
/// accepted, and as which bytes, depends on the text alone; an accepted
/// address has 20 bytes.
#[verifier::external_body]
pub(crate) fn parse_address(text: &str) -> (out: Option<Vec<u8>>)
    ensures
        match out {
            Some(address) => parsed_address(text@) == Some(address@) && address@.len() == 20,
            None => parsed_address(text@) is None,
        },
{
    match Address::from_str(text) {
        Ok(address) => Some(address.as_bytes().to_vec()),
        Err(_) => None,
    }
}

/// The upper-case form of a hexadecimal digit.
pub open spec fn upper_hex(c: char) -> char {
    if 'a' <= c && c <= 'f' {
        ((c as u8 - 0x20) as u8) as char
    } else {
        c
    }
}

/// The bytes of a text of ASCII characters.
pub open spec fn ascii_bytes(text: Seq<char>) -> Seq<u8> {
    Seq::new(text.len(), |i: int| text[i] as u8)
}

/// The EIP-55 mixed-case text of an address: `0x` and its hexadecimal
/// digits, a letter in upper case where the digit at the same place in the
/// Keccak-256 digest of the lower-case digits is eight or more.
pub open spec fn checksum_text(address: Seq<u8>) -> Seq<char> {
    let digits = hex_text(address);
    let marks = hex_text(keccak256_of(ascii_bytes(digits)));
    seq!['0', 'x'] + Seq::new(
        digits.len(),
        |i: int|
            if marks[i] as u8 >= 0x38 {
                upper_hex(digits[i])
            } else {
                digits[i]
            },
    )
}

/// `ethers_core::utils::to_checksum` without a chain id. Claimed of it: the
/// text is the EIP-55 form of the 20 bytes, as [`checksum_text`] spells it
/// out. Another length is left out because `Address::from_slice` panics on
/// it.
#[verifier::external_body]
pub(crate) fn to_checksum(address: &[u8]) -> (text: String)
    requires
        address@.len() == 20,
    ensures
        text@ == checksum_text(address@),
{
    ethers_core::utils::to_checksum(&Address::from_slice(address), None)
}

/// The uncompressed SEC1 encoding of the secp256k1 point that a SEC1 byte
/// string, compressed or not, stands for, if it stands for one.
pub uninterp spec fn sec1_point(encoded: Seq<u8>) -> Option<Seq<u8>>;

/// `PublicKey::from_sec1_bytes` of `k256`, the key written back with
/// `to_encoded_point(false)`. Claimed of it: whether the bytes are accepted,
/// and as which point, depends on the bytes alone; a point that comes out
/// has 65 bytes, the tag `0x04` and two coordinates, because a public key is
/// never the point at infinity.
#[verifier::external_body]
pub(crate) fn sec1_uncompressed(encoded: &[u8]) -> (out: Option<Vec<u8>>)
    ensures
        match out {
            Some(point) => sec1_point(encoded@) == Some(point@) && point@.len() == 65 && point@[0]
                == 0x04,
            None => sec1_point(encoded@) is None,
        },
{
    match PublicKey::from_sec1_bytes(encoded) {
        Ok(key) => Some(key.to_encoded_point(false).as_bytes().to_vec()),
        Err(_) => None,
    }
}

/// The uncompressed SEC1 encoding of the key that signed `prehash` with the
/// signature `r || s`, for one choice of the recovery id, if there is such a
/// key.
pub uninterp spec fn recovered_key(prehash: Seq<u8>, signature: Seq<u8>, parity: u8) -> Option<
    Seq<u8>,
>;

/// `VerifyingKey::recover_from_prehash` of `k256`, the key written back with
/// `to_encoded_point(false)`. Claimed of it: whether a key comes out, and
/// which, depends on the three arguments alone. A signature or a recovery id
/// that `k256` refuses gives `None`.
#[verifier::external_body]
pub(crate) fn recover_key(prehash: &[u8], signature: &[u8], parity: u8) -> (out: Option<Vec<u8>>)
    ensures
        match out {
            Some(point) => recovered_key(prehash@, signature@, parity) == Some(point@),
            None => recovered_key(prehash@, signature@, parity) is None,
        },
{
    let signature = Signature::try_from(signature).ok()?;
    let id = RecoveryId::try_from(parity).ok()?;
    let key = VerifyingKey::recover_from_prehash(prehash, &signature, id).ok()?;
    Some(key.to_encoded_point(false).as_bytes().to_vec())
}

/// A transaction that is ready to be encoded: the destination is 20 bytes.
pub struct PendingTransaction {
    pub chain_id: u64,
    pub to: Vec<u8>,
    pub gas: u128,
    pub max_fee_per_gas: u128,
    pub max_priority_fee_per_gas: u128,
    pub value: u128,
    pub nonce: u128,
    pub data: Option<Vec<u8>>,
}

/// The fields of a [`PendingTransaction`] as mathematical values.
pub struct PendingTransactionView {
    pub chain_id: u64,
    pub to: Seq<u8>,
    pub gas: u128,
    pub max_fee_per_gas: u128,
    pub max_priority_fee_per_gas: u128,
    pub value: u128,
    pub nonce: u128,
    pub data: Option<Seq<u8>>,
}

impl View for PendingTransaction {
    type V = PendingTransactionView;

    open spec fn view(&self) -> PendingTransactionView {
        PendingTransactionView {
            chain_id: self.chain_id,
            to: self.to@,
            gas: self.gas,
            max_fee_per_gas: self.max_fee_per_gas,
            max_priority_fee_per_gas: self.max_priority_fee_per_gas,
            value: self.value,
            nonce: self.nonce,
            data: match self.data {
                Some(bytes) => Some(bytes@),
                None => None,
            },
        }
    }
}

/// The RLP list of the nine fields of an unsigned EIP-1559 transaction, with
/// an empty access list.
pub uninterp spec fn eip1559_rlp(tx: PendingTransactionView) -> Seq<u8>;

/// `Eip1559TransactionRequest::rlp` of `ethers-core`. Claimed of it: the
/// encoding depends on the fields alone. A destination of another length is
/// left out because `Address::from_slice` panics on it.
#[verifier::external_body]
pub(crate) fn rlp_unsigned(tx: &PendingTransaction) -> (out: Vec<u8>)
    requires
        tx.to@.len() == 20,
    ensures
        out@ == eip1559_rlp(tx@),
{
    let request = Eip1559TransactionRequest {
        chain_id: Some(tx.chain_id.into()),
        to: Some(Address::from_slice(&tx.to).into()),
        gas: Some(tx.gas.into()),
        value: Some(tx.value.into()),
        nonce: Some(tx.nonce.into()),
        data: tx.data.clone().map(Bytes::from),
        max_priority_fee_per_gas: Some(tx.max_priority_fee_per_gas.into()),
        max_fee_per_gas: Some(tx.max_fee_per_gas.into()),
        ..Default::default()
    };
    request.rlp().to_vec()
}

/// The RLP list of the twelve fields of a signed EIP-1559 transaction.
pub uninterp spec fn eip1559_rlp_signed(
    tx: PendingTransactionView,
    parity: u64,
    r: Seq<u8>,
    s: Seq<u8>,
) -> Seq<u8>;

/// `Eip1559TransactionRequest::rlp_signed` of `ethers-core`, with `r` and `s`
/// read by `U256::from_big_endian`. Claimed of it: the encoding depends on
/// the fields and the signature alone. Left out because the outside code
/// panics there: a destination that has not 20 bytes, an `r` or `s` longer
/// than 32 bytes, and a parity above 1, which `rlp_signed` takes for a legacy
/// `v` and subtracts from.
#[verifier::external_body]
pub(crate) fn rlp_signed(tx: &PendingTransaction, parity: u64, r: &[u8], s: &[u8]) -> (out: Vec<u8>)
    requires
        tx.to@.len() == 20,
        parity <= 1,
        r@.len() <= 32,
        s@.len() <= 32,
    ensures
        out@ == eip1559_rlp_signed(tx@, parity, r@, s@),
{
    let request = Eip1559TransactionRequest {
        chain_id: Some(tx.chain_id.into()),
        to: Some(Address::from_slice(&tx.to).into()),
        gas: Some(tx.gas.into()),
        value: Some(tx.value.into()),
        nonce: Some(tx.nonce.into()),
        data: tx.data.clone().map(Bytes::from),
        max_priority_fee_per_gas: Some(tx.max_priority_fee_per_gas.into()),
        max_fee_per_gas: Some(tx.max_fee_per_gas.into()),
        ..Default::default()
    };
    let (r, s) = (U256::from_big_endian(r), U256::from_big_endian(s));
    let signature = ethers_core::types::Signature { v: parity, r, s };
    request.rlp_signed(&signature).to_vec()
}

} // verus!
