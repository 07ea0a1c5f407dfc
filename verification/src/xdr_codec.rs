use vstd::prelude::*;

use soroban_env_host::xdr::{LedgerKey, Limits, ReadXdr, TransactionEnvelope, WriteXdr};

use crate::error::Error;

verus! {

#[verifier::external_type_specification]
#[verifier::external_body]
pub struct ExTransactionEnvelope(TransactionEnvelope);

#[verifier::external_type_specification]
#[verifier::external_body]
pub struct ExLedgerKey(LedgerKey);

// Every codec call below runs under one fixed pair of limits: a nesting
// depth of 500 (the codec recurses once per nesting level, and an unbounded
// depth lets a crafted input exhaust the stack and abort the process) and a
// 64 MiB byte ceiling. With the limits fixed, what the codec returns is a
// function of the encoded or decoded value alone, so the results can be
// named.

/// The base64 wire form of a transaction envelope: what the XDR codec
/// writes for it, a function of the envelope alone.
pub uninterp spec fn envelope_wire_of(tx: TransactionEnvelope) -> Seq<char>;

/// Whether a transaction envelope encodes within the codec limits the
/// library passes; a function of the envelope alone.
pub uninterp spec fn envelope_encodes(tx: TransactionEnvelope) -> bool;

/// The base64 wire form of a ledger key: what the XDR codec writes for it,
/// a function of the key alone.
pub uninterp spec fn ledger_key_wire_of(key: LedgerKey) -> Seq<char>;

/// Whether a ledger key encodes within the codec limits the library
/// passes; a function of the key alone.
pub uninterp spec fn ledger_key_encodes(key: LedgerKey) -> bool;

/// Whether base64 text decodes, within the same codec limits, to exactly
/// one transaction envelope; a function of the text alone.
pub uninterp spec fn wire_decodes(s: Seq<char>) -> bool;

/// The transaction envelope that base64 wire text decodes to, when it
/// decodes.
pub uninterp spec fn wire_decoded(s: Seq<char>) -> TransactionEnvelope;

/// Relies on stellar_xdr's `WriteXdr::to_xdr_base64` for
/// `TransactionEnvelope`: it writes the envelope's XDR bytes as
/// standard-alphabet base64 (hence ASCII) into a string, failing exactly
/// when the value exceeds the depth or byte limit, and XDR is a canonical
/// codec — reading back what was written under the same limits yields an
/// equal value (each generated read mirrors its write, at the same depth
/// and byte count). The error is the codec's message.
#[verifier::external_body]
fn envelope_to_base64_raw(tx: &TransactionEnvelope) -> (r: Result<String, String>)
    ensures
        r is Ok <==> envelope_encodes(*tx),
        r matches Ok(s) ==> s@ == envelope_wire_of(*tx),
        r matches Ok(s) ==> s.is_ascii(),
        r matches Ok(s) ==> wire_decodes(s@) && wire_decoded(s@) == *tx,
{
    match tx.to_xdr_base64(Limits { depth: 500, len: 67108864 }) {
        Ok(s) => Ok(s),
        Err(e) => Err(format!("{e}")),
    }
}

/// Relies on stellar_xdr's `WriteXdr::to_xdr_base64` for `LedgerKey`: it
/// writes the key's XDR bytes as standard-alphabet base64 (hence ASCII)
/// into a string, failing exactly when the value exceeds the depth or byte
/// limit. The error is the codec's message.
#[verifier::external_body]
fn ledger_key_to_base64_raw(key: &LedgerKey) -> (r: Result<String, String>)
    ensures
        r is Ok <==> ledger_key_encodes(*key),
        r matches Ok(s) ==> s@ == ledger_key_wire_of(*key),
        r matches Ok(s) ==> s.is_ascii(),
{
    match key.to_xdr_base64(Limits { depth: 500, len: 67108864 }) {
        Ok(s) => Ok(s),
        Err(e) => Err(format!("{e}")),
    }
}

/// Relies on stellar_xdr's `ReadXdr::from_xdr_base64` for
/// `TransactionEnvelope`: it decodes base64 XDR text to an envelope,
/// consuming the whole text, and returns an error (rather than aborting:
/// the bounded depth limit guards the stack) on any text that does not so
/// decode. The error is the codec's message.
#[verifier::external_body]
fn envelope_from_base64_raw(s: &str) -> (r: Result<TransactionEnvelope, String>)
    ensures
        r is Ok <==> wire_decodes(s@),
        r matches Ok(tx) ==> tx == wire_decoded(s@),
{
    match TransactionEnvelope::from_xdr_base64(s, Limits { depth: 500, len: 67108864 }) {
        Ok(tx) => Ok(tx),
        Err(e) => Err(format!("{e}")),
    }
}

/// Encodes a transaction envelope to its base64 wire form. Encoding
/// succeeds exactly for the envelopes the codec can write within its
/// limits; the wire text decodes back to an equal envelope (the round trip
/// at the transport boundary); a codec failure surfaces as an XDR
/// processing error, never as any other kind.
pub fn transaction_envelope_to_base64(tx: &TransactionEnvelope) -> (r: Result<String, Error>)
    ensures
        r is Ok <==> envelope_encodes(*tx),
        r matches Ok(s) ==> s@ == envelope_wire_of(*tx),
        r matches Ok(s) ==> s.is_ascii(),
        r matches Ok(s) ==> wire_decodes(s@) && wire_decoded(s@) == *tx,
        r matches Err(e) ==> e matches Error::Xdr(_),
{
    match envelope_to_base64_raw(tx) {
        Ok(s) => Ok(s),
        Err(m) => Err(Error::Xdr(m)),
    }
}

/// Encodes a ledger key to its base64 wire form. Encoding succeeds exactly
/// for the keys the codec can write within its limits; a codec failure
/// surfaces as an XDR processing error, never as any other kind.
pub fn ledger_key_to_base64(key: &LedgerKey) -> (r: Result<String, Error>)
    ensures
        r is Ok <==> ledger_key_encodes(*key),
        r matches Ok(s) ==> s@ == ledger_key_wire_of(*key),
        r matches Ok(s) ==> s.is_ascii(),
        r matches Err(e) ==> e matches Error::Xdr(_),
{
    match ledger_key_to_base64_raw(key) {
        Ok(s) => Ok(s),
        Err(m) => Err(Error::Xdr(m)),
    }
}

/// Decodes a transaction envelope from its base64 wire form. Decoding
/// succeeds exactly for text that is the wire form of one envelope, and
/// yields that envelope; a codec failure surfaces as an XDR processing
/// error, never as any other kind.
pub fn transaction_envelope_from_base64(s: &str) -> (r: Result<TransactionEnvelope, Error>)
    ensures
        r is Ok <==> wire_decodes(s@),
        r matches Ok(tx) ==> tx == wire_decoded(s@),
        r matches Err(e) ==> e matches Error::Xdr(_),
{
    match envelope_from_base64_raw(s) {
        Ok(tx) => Ok(tx),
        Err(m) => Err(Error::Xdr(m)),
    }
}

} // verus!
