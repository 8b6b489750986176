//! Addresses, signature parity and the encoding of signed transactions.
//!
//! The signing service returns `r || s` without the parity of the curve
//! point. The parity is found here by trial against the known public key, and
//! a signature that fits neither candidate is refused.

use crate::primitives::{
    checksum_text, eip1559_rlp, eip1559_rlp_signed, hex_encode, hex_text, keccak256,
    keccak256_of, parse_address, parsed_address, recover_key, recovered_key, rlp_signed,
    rlp_unsigned, sec1_point, sec1_uncompressed, to_checksum, PendingTransaction,
    PendingTransactionView,
};
use vstd::prelude::*;
use vstd::slice::{slice_subrange, slice_to_vec};
use vstd::string::StringExecFns;

verus! {

/// The type byte that precedes the RLP list of an EIP-1559 transaction.
pub const EIP1559_TX_ID: u8 = 2;

/// The name of the key that the signing service signs with.
pub fn signing_key_name() -> (name: String)
    ensures
        name@ == "dfx_test_key"@,
{
    String::from_str("dfx_test_key")
}

/// What the signing service answers when asked for the public key.
#[derive(Clone, Debug, PartialEq, Eq)]
pub struct PublicKeyReply {
    pub public_key: Vec<u8>,
}

/// What the signing service answers when asked to sign a digest.
#[derive(Clone, Debug, PartialEq, Eq)]
pub struct SignatureReply {
    pub signature: Vec<u8>,
}

/// A transaction as it is asked for: the destination is still text.
#[derive(Clone, Debug, PartialEq, Eq)]
pub struct SignRequest {
    pub chain_id: u64,
    pub to: String,
    pub gas: u128,
    pub max_fee_per_gas: u128,
    pub max_priority_fee_per_gas: u128,
    pub value: u128,
    pub nonce: u128,
    pub data: Option<Vec<u8>>,
}

/// The fields of a [`SignRequest`] as mathematical values.
pub struct SignRequestView {
    pub chain_id: u64,
    pub to: Seq<char>,
    pub gas: u128,
    pub max_fee_per_gas: u128,
    pub max_priority_fee_per_gas: u128,
    pub value: u128,
    pub nonce: u128,
    pub data: Option<Seq<u8>>,
}

impl View for SignRequest {
    type V = SignRequestView;

    open spec fn view(&self) -> SignRequestView {
        SignRequestView {
            chain_id: self.chain_id,
            to: self.to@,
            gas: self.gas,
            max_fee_per_gas: self.max_fee_per_gas,
            max_priority_fee_per_gas: self.max_priority_fee_per_gas,
            value: self.value,
            nonce: self.nonce,
            data: match self.data {
                Some(bytes) => Some(bytes@),
                None => None,
            },
        }
    }
}

/// Why no address or no signed transaction came out.
#[derive(Clone, Copy, Debug, PartialEq, Eq, Structural)]
pub enum SignError {
    /// The destination is not the text of an address.
    InvalidDestination,
    /// The public key is not a SEC1 encoding of a curve point.
    InvalidPublicKey,
    /// The signature has not 64 bytes.
    InvalidSignature,
    /// Neither parity recovers the known public key from the signature.
    ParityNotRecovered,
}

/// The checksummed address of a public key: the last 20 bytes of the
/// Keccak-256 digest of the two coordinates.
pub open spec fn address_of(pubkey: Seq<u8>) -> Option<Seq<char>> {
    match sec1_point(pubkey) {
        Some(point) => Some(
            checksum_text(keccak256_of(point.subrange(1, 65)).subrange(12, 32)),
        ),
        None => None,
    }
}

/// The address of a SEC1-encoded public key, compressed or not, in mixed-case
/// checksum form.
pub fn pubkey_bytes_to_address(pubkey_bytes: &[u8]) -> (res: Result<String, SignError>)
    ensures
        match res {
            Ok(address) => address_of(pubkey_bytes@) == Some(address@),
            Err(e) => e == SignError::InvalidPublicKey && address_of(pubkey_bytes@) is None,
        },
{
    let point: Vec<u8> = match sec1_uncompressed(pubkey_bytes) {
        Some(point) => point,
        None => {
            return Err(SignError::InvalidPublicKey);
        },
    };
    let hash: Vec<u8> = keccak256(slice_subrange(point.as_slice(), 1, 65));
    Ok(to_checksum(slice_subrange(hash.as_slice(), 12, 32)))
}

/// The address is a function of the key: the same key has the same address
/// however often it is derived, whether from the key as given or from the
/// uncompressed form of the same point.
pub proof fn lemma_address_is_stable(first: Seq<u8>, second: Seq<u8>)
    requires
        sec1_point(first) == sec1_point(second),
    ensures
        address_of(first) == address_of(second),
{
}

/// Whether two byte strings are the same.
pub fn same_bytes(a: &[u8], b: &[u8]) -> (same: bool)
    ensures
        same == (a@ == b@),
{
    if a.len() != b.len() {
        return false;
    }
    let mut i: usize = 0;
    while i < a.len()
        invariant
            i <= a.len(),
            a@.len() == b@.len(),
            forall|j: int| 0 <= j < i ==> a@[j] == b@[j],
        decreases a.len() - i,
    {
        if a[i] != b[i] {
            return false;
        }
        i += 1;
    }
    assert(a@ =~= b@);
    true
}

/// The parity under which the signature recovers the given public key.
pub open spec fn y_parity_spec(prehash: Seq<u8>, sig: Seq<u8>, pubkey: Seq<u8>) -> Result<
    u64,
    SignError,
> {
    match sec1_point(pubkey) {
        None => Err(SignError::InvalidPublicKey),
        Some(point) => if recovered_key(prehash, sig, 0) == Some(point) {
            Ok(0)
        } else if recovered_key(prehash, sig, 1) == Some(point) {
            Ok(1)
        } else {
            Err(SignError::ParityNotRecovered)
        },
    }
}

/// Finds the parity bit that the signing service left out: the one under
/// which `sig` over `prehash` recovers `pubkey`. The lower parity is tried
/// first. A signature that recovers the key under neither parity is an error,
/// never a guess.
pub fn y_parity(prehash: &[u8], sig: &[u8], pubkey: &[u8]) -> (res: Result<u64, SignError>)
    ensures
        res == y_parity_spec(prehash@, sig@, pubkey@),
        res matches Ok(parity) ==> parity <= 1 && sec1_point(pubkey@) is Some && recovered_key(
            prehash@,
            sig@,
            parity as u8,
        ) == sec1_point(pubkey@),
        res == Err::<u64, SignError>(SignError::ParityNotRecovered) <==> sec1_point(pubkey@) is Some
            && recovered_key(prehash@, sig@, 0) != sec1_point(pubkey@) && recovered_key(
            prehash@,
            sig@,
            1,
        ) != sec1_point(pubkey@),
{
    let point: Vec<u8> = match sec1_uncompressed(pubkey) {
        Some(point) => point,
        None => {
            return Err(SignError::InvalidPublicKey);
        },
    };
    let mut parity: u8 = 0;
    while parity < 2
        invariant
            parity <= 2,
            sec1_point(pubkey@) == Some(point@),
            forall|p: u8| p < parity ==> recovered_key(prehash@, sig@, p) != Some(point@),
        decreases 2 - parity,
    {
        match recover_key(prehash, sig, parity) {
            Some(candidate) => {
                if same_bytes(candidate.as_slice(), point.as_slice()) {
                    return Ok(parity as u64);
                }
            },
            None => {},
        }
        parity += 1;
    }
    Err(SignError::ParityNotRecovered)
}

/// Where a signature is known to recover the signer's key under one parity
/// and not under the other, that parity is the one found.
pub proof fn lemma_recorded_parity_is_found(
    prehash: Seq<u8>,
    sig: Seq<u8>,
    pubkey: Seq<u8>,
    parity: u64,
)
    requires
        parity <= 1,
        sec1_point(pubkey) is Some,
        recovered_key(prehash, sig, parity as u8) == sec1_point(pubkey),
        recovered_key(prehash, sig, (1 - parity) as u8) != sec1_point(pubkey),
    ensures
        y_parity_spec(prehash, sig, pubkey) == Ok::<u64, SignError>(parity),
{
}

/// The request with its destination resolved to bytes.
pub open spec fn resolved(req: SignRequestView, to: Seq<u8>) -> PendingTransactionView {
    PendingTransactionView {
        chain_id: req.chain_id,
        to: to,
        gas: req.gas,
        max_fee_per_gas: req.max_fee_per_gas,
        max_priority_fee_per_gas: req.max_priority_fee_per_gas,
        value: req.value,
        nonce: req.nonce,
        data: req.data,
    }
}

/// The transaction that a request stands for, if its destination is an
/// address.
pub open spec fn pending_transaction_spec(req: SignRequestView) -> Option<PendingTransactionView> {
    match parsed_address(req.to) {
        Some(to) => Some(resolved(req, to)),
        None => None,
    }
}

/// Resolves the destination of a request.
pub fn pending_transaction(req: &SignRequest) -> (res: Result<PendingTransaction, SignError>)
    ensures
        match res {
            Ok(tx) => pending_transaction_spec(req@) == Some(tx@) && tx.to@.len() == 20,
            Err(e) => e == SignError::InvalidDestination && pending_transaction_spec(req@) is None,
        },
{
    let to: Vec<u8> = match parse_address(req.to.as_str()) {
        Some(to) => to,
        None => {
            return Err(SignError::InvalidDestination);
        },
    };
    let data: Option<Vec<u8>> = match &req.data {
        Some(bytes) => Some(slice_to_vec(bytes.as_slice())),
        None => None,
    };
    Ok(
        PendingTransaction {
            chain_id: req.chain_id,
            to,
            gas: req.gas,
            max_fee_per_gas: req.max_fee_per_gas,
            max_priority_fee_per_gas: req.max_priority_fee_per_gas,
            value: req.value,
            nonce: req.nonce,
            data,
        },
    )
}

/// The bytes that are hashed for signing: the type byte, then the RLP list of
/// the unsigned fields.
pub open spec fn unsigned_bytes(tx: PendingTransactionView) -> Seq<u8> {
    eip1559_rlp(tx).insert(0, EIP1559_TX_ID)
}

/// The digest that the signing service is asked to sign.
pub open spec fn transaction_hash_spec(req: SignRequestView) -> Option<Seq<u8>> {
    match pending_transaction_spec(req) {
        Some(tx) => Some(keccak256_of(unsigned_bytes(tx))),
        None => None,
    }
}

/// Encodes the unsigned transaction and hashes it. The result is the 32-byte
/// digest to hand to the signing service.
pub fn transaction_hash(req: &SignRequest) -> (res: Result<Vec<u8>, SignError>)
    ensures
        match res {
            Ok(hash) => transaction_hash_spec(req@) == Some(hash@) && hash@.len() == 32,
            Err(e) => e == SignError::InvalidDestination && transaction_hash_spec(req@) is None,
        },
{
    let tx: PendingTransaction = match pending_transaction(req) {
        Ok(tx) => tx,
        Err(e) => {
            return Err(e);
        },
    };
    let mut unsigned_tx_bytes: Vec<u8> = rlp_unsigned(&tx);
    unsigned_tx_bytes.insert(0, EIP1559_TX_ID);
    Ok(keccak256(unsigned_tx_bytes.as_slice()))
}

/// The raw signed transaction: the type byte, then the RLP list of the
/// unsigned fields followed by parity, `r` and `s`.
pub open spec fn signed_bytes(tx: PendingTransactionView, parity: u64, sig: Seq<u8>) -> Seq<u8> {
    eip1559_rlp_signed(tx, parity, sig.subrange(0, 32), sig.subrange(32, 64)).insert(
        0,
        EIP1559_TX_ID,
    )
}

/// The text that is sent to the chain: `0x` and the raw bytes in hexadecimal.
pub open spec fn transport_text(raw: Seq<u8>) -> Seq<char> {
    seq!['0', 'x'] + hex_text(raw)
}

/// The signed transaction in transport form, or the reason why there is none.
pub open spec fn sign_transaction_spec(
    req: SignRequestView,
    signature: Seq<u8>,
    pubkey: Seq<u8>,
) -> Result<Seq<char>, SignError> {
    match pending_transaction_spec(req) {
        None => Err(SignError::InvalidDestination),
        Some(tx) => if signature.len() != 64 {
            Err(SignError::InvalidSignature)
        } else {
            match y_parity_spec(keccak256_of(unsigned_bytes(tx)), signature, pubkey) {
                Err(e) => Err(e),
                Ok(parity) => Ok(transport_text(signed_bytes(tx, parity, signature))),
            }
        },
    }
}

/// Assembles the signed transaction from a request, the 64-byte signature
/// `r || s` that the signing service returned for the request's digest, and
/// the service's public key. The parity is recovered against that key; if the
/// signature does not belong to the key, nothing is assembled.
pub fn sign_transaction(req: &SignRequest, signature: &[u8], pubkey: &[u8]) -> (res: Result<
    String,
    SignError,
>)
    ensures
        match res {
            Ok(text) => sign_transaction_spec(req@, signature@, pubkey@) == Ok::<
                Seq<char>,
                SignError,
            >(text@),
            Err(e) => sign_transaction_spec(req@, signature@, pubkey@) == Err::<
                Seq<char>,
                SignError,
            >(e),
        },
{
    let tx: PendingTransaction = match pending_transaction(req) {
        Ok(tx) => tx,
        Err(e) => {
            return Err(e);
        },
    };
    if signature.len() != 64 {
        return Err(SignError::InvalidSignature);
    }
    let mut unsigned_tx_bytes: Vec<u8> = rlp_unsigned(&tx);
    unsigned_tx_bytes.insert(0, EIP1559_TX_ID);
    let txhash: Vec<u8> = keccak256(unsigned_tx_bytes.as_slice());
    let parity: u64 = match y_parity(txhash.as_slice(), signature, pubkey) {
        Ok(parity) => parity,
        Err(e) => {
            return Err(e);
        },
    };
    let r: &[u8] = slice_subrange(signature, 0, 32);
    let s: &[u8] = slice_subrange(signature, 32, 64);
    let mut signed_tx_bytes: Vec<u8> = rlp_signed(&tx, parity, r, s);
    signed_tx_bytes.insert(0, EIP1559_TX_ID);
    let mut text: String = String::from_str("0x");
    proof {
        reveal_strlit("0x");
        assert("0x"@ =~= seq!['0', 'x']);
    }
    text.append(hex_encode(signed_tx_bytes.as_slice()).as_str());
    Ok(text)
}

} // verus!
