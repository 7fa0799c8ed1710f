//! The decode pipeline: from a transaction record of the inbound stream to
//! the facts that a caller reads.

use crate::base58::{bs58_encode, encoded};
use crate::filter::key_bytes;
use vstd::prelude::*;

verus! {

/// The position in the account keys at which a transaction that creates a
/// token holds the new mint account.
///
/// Position 0 is the fee payer. That position 1 is the mint is how such
/// transactions are observed to be built, not a rule of the ledger: it
/// means something only for a subscription whose filter pins the program
/// that creates mints.
pub const MINT_ACCOUNT_POSITION: usize = 1;

/// The part of a transaction that holds its account keys.
#[derive(Debug, PartialEq, Eq)]
pub struct TransactionMessage {
    pub account_keys: Vec<Vec<u8>>,
}

/// A transaction as the inbound stream delivers it. The first signature
/// identifies the transaction.
#[derive(Debug, PartialEq, Eq)]
pub struct TransactionRecord {
    pub signatures: Vec<Vec<u8>>,
    pub message: Option<TransactionMessage>,
}

/// What the decode pipeline reads from a record of a mint creation.
#[derive(Debug, PartialEq, Eq)]
pub struct DecodedMintEvent {
    /// The first signature, in base-58 text.
    pub tx_hash: String,
    /// The account key at the mint position, in base-58 text, if the
    /// record has one.
    pub mint_address: Option<String>,
}

/// Why a record cannot be decoded.
#[derive(Clone, Copy, Debug, PartialEq, Eq)]
pub enum MalformedRecordError {
    /// The record has no signature.
    MissingSignature,
}

impl TransactionRecord {
    /// The signatures of the record.
    pub open spec fn signatures(&self) -> Seq<Seq<u8>> {
        key_bytes(self.signatures@)
    }

    /// The account keys of the record: those of its message, and none where
    /// it has no message.
    pub open spec fn account_keys(&self) -> Seq<Seq<u8>> {
        match self.message {
            Some(message) => key_bytes(message.account_keys@),
            None => Seq::empty(),
        }
    }
}

/// The mint address that a record with these account keys yields.
pub open spec fn mint_address_of(account_keys: Seq<Seq<u8>>) -> Option<Seq<char>> {
    if account_keys.len() > MINT_ACCOUNT_POSITION {
        Some(encoded(account_keys[MINT_ACCOUNT_POSITION as int]))
    } else {
        None
    }
}

/// The text of an optional string.
pub open spec fn text_of(string: Option<String>) -> Option<Seq<char>> {
    match string {
        Some(string) => Some(string@),
        None => None,
    }
}

/// `item` is what decoding `record` gives.
pub open spec fn decodes_to(
    record: TransactionRecord,
    item: Result<DecodedMintEvent, MalformedRecordError>,
) -> bool {
    match item {
        Ok(event) => {
            &&& record.signatures().len() > 0
            &&& event.tx_hash@ == encoded(record.signatures()[0])
            &&& text_of(event.mint_address) == mint_address_of(record.account_keys())
        },
        Err(MalformedRecordError::MissingSignature) => record.signatures().len() == 0,
    }
}

/// The base-58 text of the account key at the mint position, and `None`
/// for a record with fewer account keys.
pub fn extract_mint_address(record: &TransactionRecord) -> (mint_address: Option<String>)
    ensures
        text_of(mint_address) == mint_address_of(record.account_keys()),
{
    match &record.message {
        Some(message) => {
            if message.account_keys.len() > MINT_ACCOUNT_POSITION {
                Some(bs58_encode(message.account_keys[MINT_ACCOUNT_POSITION].as_slice()))
            } else {
                None
            }
        },
        None => None,
    }
}

/// Decodes a record: its first signature becomes the transaction hash, and
/// the account key at the mint position the mint address. A record without
/// that account key is decoded without a mint address; only a record
/// without a signature is an error.
pub fn decode_mint_event(record: &TransactionRecord,) -> (item: Result<DecodedMintEvent, MalformedRecordError>)
    ensures
        decodes_to(*record, item),
{
    if record.signatures.len() == 0 {
        return Err(MalformedRecordError::MissingSignature);
    }
    let tx_hash = bs58_encode(record.signatures[0].as_slice());
    let mint_address = extract_mint_address(record);
    Ok(DecodedMintEvent { tx_hash, mint_address })
}

} // verus!
