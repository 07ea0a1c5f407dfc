use vstd::prelude::*;

verus! {

/// Account state returned by the `getAccount` method.
#[derive(Debug)]
pub struct GetAccountResponse {
    pub id: String,
    pub sequence: String,
}

/// Acknowledgment returned by the `sendTransaction` method.
#[derive(Debug)]
pub struct SendTransactionResponse {
    pub id: String,
    pub status: String,
}

/// One XDR-encoded result entry attached to a settled transaction.
#[derive(Debug, Clone)]
pub struct TransactionStatusResult {
    pub xdr: String,
}

/// Per-transaction status returned by the `getTransactionStatus` method.
#[derive(Debug)]
pub struct GetTransactionStatusResponse {
    pub id: String,
    pub status: String,
    pub envelope_xdr: Option<String>,
    pub result_xdr: Option<String>,
    pub result_meta_xdr: Option<String>,
    pub results: Vec<TransactionStatusResult>,
}

/// Contract-data entry returned for a contract-data query.
#[derive(Debug)]
pub struct GetContractDataResponse {
    pub xdr: String,
}

/// Ledger entry returned by the `getLedgerEntry` method.
#[derive(Debug)]
pub struct GetLedgerEntryResponse {
    pub xdr: String,
}

/// Resource cost estimate inside a simulation response.
#[derive(Debug)]
pub struct Cost {
    pub cpu_insns: String,
    pub mem_bytes: String,
}

/// Dry-run result returned by the `simulateTransaction` method.
#[derive(Debug)]
pub struct SimulateTransactionResponse {
    pub footprint: String,
    pub cost: Cost,
    pub error: Option<String>,
}

/// One record of the contract event log.
#[derive(Debug, Clone)]
pub struct Event {
    pub event_type: String,
    pub ledger: String,
    pub ledger_closed_at: String,
    pub id: String,
    pub paging_token: String,
    pub contract_id: String,
    pub topic: Vec<String>,
    pub value: EventValue,
}

/// The XDR-encoded value payload of an event record.
#[derive(Debug, Clone)]
pub struct EventValue {
    pub xdr: String,
}

pub type GetEventsResponse = Vec<Event>;

/// The event-kind filter of the event-log query; `All` is expressed on the
/// wire by omitting the kind field entirely.
#[derive(Clone, Copy, Debug, Eq, Hash, PartialEq)]
pub enum EventType {
    All,
    Contract,
    System,
}

} // verus!
