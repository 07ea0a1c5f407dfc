pub mod client;
pub mod error;
pub mod events;
pub mod responses;
pub mod simulate;
pub mod strutil;
pub mod submit;
pub mod xdr_codec;

pub use client::Client;
pub use error::Error;
pub use responses::{
    Cost, Event, EventType, EventValue, GetAccountResponse, GetContractDataResponse,
    GetEventsResponse, GetLedgerEntryResponse, GetTransactionStatusResponse,
    SendTransactionResponse, SimulateTransactionResponse, TransactionStatusResult,
};
