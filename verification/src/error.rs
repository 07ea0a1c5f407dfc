use vstd::prelude::*;
use vstd::string::*;

verus! {

/// The failure taxonomy surfaced to callers: binary-encoding failures,
/// transport/decode failures, and the submission-protocol failures that the
/// polling state machine produces.
#[derive(Debug)]
pub enum Error {
    /// The XDR codec rejected a domain object (message from the codec).
    Xdr(String),
    /// The JSON-RPC transport failed (message from the transport).
    JsonRpc(String),
    /// A response body could not be decoded (message from the decoder).
    Serde(String),
    /// The node rejected the transaction or reported an `error` status.
    TransactionSubmissionFailed,
    /// The node returned a status string outside the known set; the literal
    /// value is retained for diagnostics.
    UnexpectedTransactionStatus(String),
    /// The polling ceiling was exceeded while the transaction stayed pending.
    TransactionSubmissionTimeout,
    /// The node's simulation payload carried a domain-level error string.
    TransactionSimulationFailed(String),
}

impl Error {
    /// The diagnostic line for each failure: a fixed phrase, with the
    /// carried detail appended where the variant has one.
    pub open spec fn spec_message(&self) -> Seq<char> {
        match *self {
            Error::Xdr(ref m) => "xdr processing error: "@ + m@,
            Error::JsonRpc(ref m) => "jsonrpc error: "@ + m@,
            Error::Serde(ref m) => "json decoding error: "@ + m@,
            Error::TransactionSubmissionFailed => "transaction submission failed"@,
            Error::UnexpectedTransactionStatus(ref s) => "expected transaction status: "@ + s@,
            Error::TransactionSubmissionTimeout => "transaction submission timeout"@,
            Error::TransactionSimulationFailed(ref m) => "transaction simulation failed: "@
                + m@,
        }
    }

    /// Renders the failure as one diagnostic line.
    pub fn message(&self) -> (r: String)
        ensures
            r@ == self.spec_message(),
    {
        match self {
            Error::Xdr(m) => String::from_str("xdr processing error: ").concat(m.as_str()),
            Error::JsonRpc(m) => String::from_str("jsonrpc error: ").concat(m.as_str()),
            Error::Serde(m) => String::from_str("json decoding error: ").concat(m.as_str()),
            Error::TransactionSubmissionFailed => String::from_str(
                "transaction submission failed",
            ),
            Error::UnexpectedTransactionStatus(s) => String::from_str(
                "expected transaction status: ",
            ).concat(s.as_str()),
            Error::TransactionSubmissionTimeout => String::from_str(
                "transaction submission timeout",
            ),
            Error::TransactionSimulationFailed(m) => String::from_str(
                "transaction simulation failed: ",
            ).concat(m.as_str()),
        }
    }
}

} // verus!
