//! Event-to-transaction relay for an EVM chain: the verified core.
//!
//! The crate watches nothing and sends nothing by itself. It decides: which
//! block range to ask for, which job a log stands for, what a transaction
//! costs, how it is encoded and signed, and how the persisted cursor and nonce
//! move. The caller performs the remote calls that those decisions name and
//! hands their answers back.

#![allow(non_snake_case)]

pub mod evm_rpc;
pub mod evm_signer;
pub mod memory;
pub mod primitives;
pub mod sync;

use crate::evm_rpc::{FeeHistory, LogEntry};
use crate::evm_signer::{SignRequest, SignRequestView};
use crate::primitives::{
    abi_encodable, abi_encode_string, abi_encoded_string, abi_padding, hex_decode, hex_decoded,
    keccak256, keccak256_of, HexError,
};
use vstd::arithmetic::div_mod::{lemma_add_mod_noop, lemma_mul_mod_noop_left, lemma_small_mod};
use vstd::prelude::*;
use vstd::slice::{slice_subrange, slice_to_vec};
use vstd::string::StringExecFns;
use vstd::utf8::{encode_utf8, is_ascii_chars_encode_utf8};

verus! {

/// Two to the power of 64.
pub open spec fn two_64() -> int {
    0x1_0000_0000_0000_0000
}

/// The number that a byte string spells out, most significant byte first.
pub open spec fn be_value(bytes: Seq<u8>) -> nat
    decreases bytes.len(),
{
    if bytes.len() == 0 {
        0
    } else {
        be_value(bytes.drop_last()) * 256 + bytes.last() as nat
    }
}

/// The text without a leading `0x`, if it has one.
pub open spec fn without_0x(text: Seq<u8>) -> Seq<u8> {
    if text.len() >= 2 && text[0] == 0x30 && text[1] == 0x78 {
        text.skip(2)
    } else {
        text
    }
}

/// The unsigned integer that hexadecimal text stands for, reduced to 64 bits.
pub open spec fn hex_to_u64_spec(text: Seq<u8>) -> Result<u64, HexError> {
    match hex_decoded(without_0x(text)) {
        Ok(bytes) => Ok((be_value(bytes) as int % two_64()) as u64),
        Err(e) => Err(e),
    }
}

proof fn lemma_shift_in(acc: u64, byte: u8)
    ensures
        ((acc << 8) | (byte as u64)) as int == (acc * 256 + byte) % 0x1_0000_0000_0000_0000,
{
    assert(((acc << 8) | (byte as u64)) as int == (acc * 256 + byte) % 0x1_0000_0000_0000_0000)
        by (bit_vector);
}

proof fn lemma_be_value_step(bytes: Seq<u8>, i: int)
    requires
        0 <= i < bytes.len(),
    ensures
        be_value(bytes.take(i + 1)) as int % two_64() == ((be_value(bytes.take(i)) as int
            % two_64()) * 256 + bytes[i]) % two_64(),
{
    let m: int = two_64();
    let v: int = be_value(bytes.take(i)) as int;
    assert(bytes.take(i + 1).drop_last() == bytes.take(i));
    assert(be_value(bytes.take(i + 1)) == v * 256 + bytes[i]);
    lemma_mul_mod_noop_left(v, 256, m);
    lemma_add_mod_noop(v * 256, bytes[i] as int, m);
    lemma_add_mod_noop((v % m) * 256, bytes[i] as int, m);
}

/// Reads hexadecimal text, with or without a leading `0x`, as an unsigned
/// integer, most significant digit first. Digits beyond the sixteenth from the
/// right fall away.
pub fn hex_to_u64(hex_str: &str) -> (res: Result<u64, HexError>)
    ensures
        res == hex_to_u64_spec(encode_utf8(hex_str@)),
{
    let text: &[u8] = hex_str.as_bytes();
    let digits: &[u8] = if text.len() >= 2 && text[0] == 0x30 && text[1] == 0x78 {
        slice_subrange(text, 2, text.len())
    } else {
        text
    };
    assert(digits@ == without_0x(text@));
    let bytes: Vec<u8> = match hex_decode(digits) {
        Ok(bytes) => bytes,
        Err(e) => {
            return Err(e);
        },
    };
    let mut result: u64 = 0;
    let mut i: usize = 0;
    proof {
        lemma_small_mod(0, two_64() as nat);
    }
    while i < bytes.len()
        invariant
            i <= bytes.len(),
            result as int == be_value(bytes@.take(i as int)) as int % two_64(),
        decreases bytes.len() - i,
    {
        let byte: u8 = bytes[i];
        proof {
            lemma_shift_in(result, byte);
            lemma_be_value_step(bytes@, i as int);
        }
        result = (result << 8) | (byte as u64);
        i += 1;
    }
    assert(bytes@.take(bytes.len() as int) == bytes@);
    Ok(result)
}

/// The job that a log asks for: its payload read as a number, and zero where
/// the payload is not hexadecimal text.
pub open spec fn job_id_of(data: Seq<char>) -> u64 {
    match hex_to_u64_spec(encode_utf8(data)) {
        Ok(id) => id,
        Err(_) => 0,
    }
}

/// The identifier of the job that a log asks for.
pub fn job_id(log: &LogEntry) -> (id: u64)
    ensures
        id == job_id_of(log.data@),
{
    match hex_to_u64(log.data.as_str()) {
        Ok(id) => id,
        Err(_) => 0,
    }
}

/// Computes the result of a job. The computation is a stand-in: every job
/// has the result `42`, which is short enough to be written back.
pub fn process_job(job_id: u64) -> (result: String)
    ensures
        result@ == "42"@,
        abi_encodable(encode_utf8(result@).len()),
{
    proof {
        reveal_strlit("42");
        is_ascii_chars_encode_utf8("42"@);
    }
    String::from_str("42")
}

/// The chain that transactions are made for.
pub const CHAIN_ID: u64 = 11155111;

/// The gas limit of every transaction.
pub const GAS_LIMIT: u128 = 50000;

/// The priority fee offered per unit of gas.
pub const PRIORITY_FEE: u128 = 100;

/// The two fee fields of a transaction.
#[derive(Clone, Copy, Debug, PartialEq, Eq, Structural)]
pub struct FeeEstimate {
    pub max_fee_per_gas: u128,
    pub max_priority_fee_per_gas: u128,
}

/// The fees for a given base fee: the fixed priority fee, and the base fee
/// plus the priority fee as the most that is paid, capped at the largest
/// number that fits.
pub open spec fn fees_for(base_fee: u128) -> FeeEstimate {
    FeeEstimate {
        max_fee_per_gas: if base_fee + PRIORITY_FEE > u128::MAX {
            u128::MAX
        } else {
            (base_fee + PRIORITY_FEE) as u128
        },
        max_priority_fee_per_gas: PRIORITY_FEE,
    }
}

/// The fees that a list of base fees, oldest first, leads to.
pub open spec fn estimate_fees_spec(base_fees: Seq<u128>) -> Option<FeeEstimate> {
    if base_fees.len() == 0 {
        None
    } else {
        Some(fees_for(base_fees.last()))
    }
}

/// The most that is paid never falls below the base fee, whatever the base
/// fee is: the sum is capped, it does not wrap around. Where the sum fits it
/// is exact.
pub proof fn lemma_fees_saturate(base_fee: u128)
    ensures
        fees_for(base_fee).max_priority_fee_per_gas == PRIORITY_FEE,
        fees_for(base_fee).max_fee_per_gas >= base_fee,
        base_fee + PRIORITY_FEE <= u128::MAX ==> fees_for(base_fee).max_fee_per_gas == base_fee
            + PRIORITY_FEE,
        base_fee + PRIORITY_FEE > u128::MAX ==> fees_for(base_fee).max_fee_per_gas == u128::MAX,
{
}

/// Estimates the fees of the next transaction from the newest base fee of a
/// fee history. A history without base fees gives no estimate.
pub fn estimate_fees(history: &FeeHistory) -> (res: Option<FeeEstimate>)
    ensures
        res == estimate_fees_spec(history.baseFeePerGas@),
{
    let n: usize = history.baseFeePerGas.len();
    if n == 0 {
        return None;
    }
    let base_fee: u128 = history.baseFeePerGas[n - 1];
    Some(
        FeeEstimate {
            max_fee_per_gas: base_fee.saturating_add(PRIORITY_FEE),
            max_priority_fee_per_gas: PRIORITY_FEE,
        },
    )
}

/// The call data that reports a result: the selector of `callback(string)`
/// and the encoded result.
pub open spec fn callback_calldata_spec(result: Seq<char>) -> Seq<u8> {
    keccak256_of(encode_utf8("callback(string)"@)).subrange(0, 4) + abi_encoded_string(result)
}

/// Whether a result is short enough to be written back, that is, whether
/// [`callback_calldata`] takes it.
pub fn result_is_encodable(result: &str) -> (fits: bool)
    ensures
        fits == abi_encodable(encode_utf8(result@).len()),
{
    let len: usize = result.as_bytes().len();
    let words: usize = len / 32 + if len % 32 == 0 {
        0
    } else {
        1
    };
    let room: usize = (isize::MAX as usize) / 32;
    assert(words == (len + 31) / 32);
    words <= 134217725 && room >= 64 && words <= (room - 64) / 32
}

/// Encodes the call that writes a result back to the contract. The result
/// must not be longer than the encoder can take.
pub fn callback_calldata(result: &str) -> (data: Vec<u8>)
    requires
        abi_encodable(encode_utf8(result@).len()),
    ensures
        data@ == callback_calldata_spec(result@),
        data@.len() == 68 + encode_utf8(result@).len() + abi_padding(encode_utf8(result@).len()),
{
    let function_signature: &str = "callback(string)";
    let hash: Vec<u8> = keccak256(function_signature.as_bytes());
    let mut data: Vec<u8> = slice_to_vec(slice_subrange(hash.as_slice(), 0, 4));
    let mut argument: Vec<u8> = abi_encode_string(result);
    data.append(&mut argument);
    data
}

/// The transaction that reports a result to a contract.
pub open spec fn callback_request_spec(
    contract: Seq<char>,
    nonce: u128,
    fees: FeeEstimate,
    result: Seq<char>,
) -> SignRequestView {
    SignRequestView {
        chain_id: CHAIN_ID,
        to: contract,
        gas: GAS_LIMIT,
        max_fee_per_gas: fees.max_fee_per_gas,
        max_priority_fee_per_gas: fees.max_priority_fee_per_gas,
        value: 0,
        nonce: nonce,
        data: Some(callback_calldata_spec(result)),
    }
}

/// Puts together the transaction that reports a result to a contract: it
/// carries no value, has the fixed gas limit and the given nonce and fees.
/// The result must not be longer than the encoder can take.
pub fn callback_request(contract: &String, nonce: u128, fees: FeeEstimate, result: &str) -> (req:
    SignRequest)
    requires
        abi_encodable(encode_utf8(result@).len()),
    ensures
        req@ == callback_request_spec(contract@, nonce, fees, result@),
{
    SignRequest {
        chain_id: CHAIN_ID,
        to: contract.clone(),
        gas: GAS_LIMIT,
        max_fee_per_gas: fees.max_fee_per_gas,
        max_priority_fee_per_gas: fees.max_priority_fee_per_gas,
        value: 0,
        nonce,
        data: Some(callback_calldata(result)),
    }
}

} // verus!
