//! The two durable records: the configuration and the relay's state.
//!
//! Both are plain values here. Where they are stored is the caller's
//! business; every change to them is one of the functions below.

use crate::evm_rpc::SendRawTransactionStatus;
use crate::evm_signer::{address_of, pubkey_bytes_to_address, PublicKeyReply, SignError};
use vstd::prelude::*;
use vstd::string::StringExecFns;

verus! {

/// The block height from which a fresh installation starts to read logs.
pub const INITIAL_BLOCK_HEIGHT: u128 = 5552046;

/// What an administrator decides: the contract to watch and the network.
#[derive(Clone, Debug, PartialEq, Eq)]
pub struct Config {
    pub evm_contract: Option<String>,
    pub ecdsa_key_name: String,
    pub evm_network: String,
}

impl Default for Config {
    /// No contract yet, the test key, the Sepolia network.
    fn default() -> (config: Config)
        ensures
            config.evm_contract is None,
            config.ecdsa_key_name@ == "dfx_test_key_1"@,
            config.evm_network@ == "EthSepolia"@,
    {
        Config {
            evm_contract: None,
            ecdsa_key_name: String::from_str("dfx_test_key_1"),
            evm_network: String::from_str("EthSepolia"),
        }
    }
}

impl Config {
    /// Sets the contract to watch. The next cycle reads its logs.
    pub fn set_contract(&mut self, contract: String)
        ensures
            final(self).evm_contract == Some(contract),
            final(self).ecdsa_key_name == old(self).ecdsa_key_name,
            final(self).evm_network == old(self).evm_network,
    {
        self.evm_contract = Some(contract);
    }
}

/// What the relay remembers across restarts.
#[derive(Clone, Debug, PartialEq, Eq)]
pub struct State {
    pub ecdsa_pub_key: Option<Vec<u8>>,
    pub evm_address: Option<String>,
    pub evm_block_height: u128,
    pub nonce: u128,
}

/// Why a public key was not recorded.
#[derive(Clone, Copy, Debug, PartialEq, Eq, Structural)]
pub enum IdentityError {
    /// A key is recorded already; it is never replaced.
    AlreadySet,
    /// The bytes are not a public key.
    InvalidPublicKey,
}

impl Default for State {
    /// No key, no address, the initial block height, nonce zero.
    fn default() -> (state: State)
        ensures
            state.ecdsa_pub_key is None,
            state.evm_address is None,
            state.evm_block_height == INITIAL_BLOCK_HEIGHT,
            state.nonce == 0,
            state.wf(),
    {
        State {
            ecdsa_pub_key: None,
            evm_address: None,
            evm_block_height: INITIAL_BLOCK_HEIGHT,
            nonce: 0,
        }
    }
}

impl State {
    /// The key and the address are recorded together, and the address is the
    /// one that belongs to the key.
    pub open spec fn wf(&self) -> bool {
        match (self.ecdsa_pub_key, self.evm_address) {
            (None, None) => true,
            (Some(key), Some(address)) => address_of(key@) == Some(address@),
            _ => false,
        }
    }

    /// The state after the chain has answered a submission: the nonce is one
    /// higher if the transaction was accepted, and the same otherwise.
    pub open spec fn after_submission(self, status: SendRawTransactionStatus) -> State {
        if status == SendRawTransactionStatus::Accepted && self.nonce < u128::MAX {
            State { nonce: (self.nonce + 1) as u128, ..self }
        } else {
            self
        }
    }

    /// The state after a batch of logs whose last one came from `last_block`:
    /// the cursor stands there, unless that would move it back.
    pub open spec fn after_batch(self, last_block: Option<u128>) -> State {
        match last_block {
            Some(block) => if block >= self.evm_block_height {
                State { evm_block_height: block, ..self }
            } else {
                self
            },
            None => self,
        }
    }

    /// Records the public key of the signing service and the address that
    /// belongs to it. This happens once: a later call changes nothing.
    pub fn set_public_key(&mut self, reply: PublicKeyReply) -> (res: Result<(), IdentityError>)
        ensures
            old(self).wf() ==> final(self).wf(),
            final(self).evm_block_height == old(self).evm_block_height,
            final(self).nonce == old(self).nonce,
            match res {
                Ok(_) => old(self).ecdsa_pub_key is None && final(self).ecdsa_pub_key == Some(
                    reply.public_key,
                ) && final(self).evm_address is Some && Some(final(self).evm_address->0@)
                    == address_of(reply.public_key@),
                Err(e) => *final(self) == *old(self) && (e == IdentityError::AlreadySet <==> old(
                    self,
                ).ecdsa_pub_key is Some) && (e == IdentityError::InvalidPublicKey <==> old(
                    self,
                ).ecdsa_pub_key is None && address_of(reply.public_key@) is None),
            },
    {
        if self.ecdsa_pub_key.is_some() {
            return Err(IdentityError::AlreadySet);
        }
        match pubkey_bytes_to_address(reply.public_key.as_slice()) {
            Ok(address) => {
                self.ecdsa_pub_key = Some(reply.public_key);
                self.evm_address = Some(address);
                Ok(())
            },
            Err(_) => Err(IdentityError::InvalidPublicKey),
        }
    }

    /// The address of the relay, or the words `Not initialized` while no key
    /// is recorded.
    pub fn get_evm_address(&self) -> (text: String)
        ensures
            text@ == match self.evm_address {
                Some(address) => address@,
                None => "Not initialized"@,
            },
    {
        match &self.evm_address {
            Some(address) => address.clone(),
            None => String::from_str("Not initialized"),
        }
    }

    /// Takes note of what the chain said of a submitted transaction. The
    /// nonce goes up by one if the transaction was accepted and stays as it
    /// is otherwise. The result says whether it went up.
    pub fn record_submission(&mut self, status: SendRawTransactionStatus) -> (advanced: bool)
        ensures
            *final(self) == old(self).after_submission(status),
            advanced == (status == SendRawTransactionStatus::Accepted && old(self).nonce
                < u128::MAX),
            final(self).nonce == if advanced {
                old(self).nonce + 1
            } else {
                old(self).nonce as int
            },
    {
        match status {
            SendRawTransactionStatus::Accepted => {
                if self.nonce < u128::MAX {
                    self.nonce = self.nonce + 1;
                    true
                } else {
                    false
                }
            },
            _ => false,
        }
    }

    /// Moves the cursor to the block of the last log of a batch. A log
    /// without a block number, or one from before the cursor, leaves the
    /// cursor where it is. The result says whether the cursor stands at the
    /// log's block afterwards.
    pub fn advance_cursor(&mut self, last_block: Option<u128>) -> (reached: bool)
        ensures
            *final(self) == old(self).after_batch(last_block),
            final(self).evm_block_height >= old(self).evm_block_height,
            reached == (last_block is Some && last_block->0 >= old(self).evm_block_height),
            reached ==> final(self).evm_block_height == last_block->0,
    {
        match last_block {
            Some(block) => {
                if block >= self.evm_block_height {
                    self.evm_block_height = block;
                    true
                } else {
                    false
                }
            },
            None => false,
        }
    }
}

} // verus!
