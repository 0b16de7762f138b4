//! What the gateway answers over JSON-RPC.

use vstd::prelude::*;

verus! {

/// The state of the gateway and of the service behind it.
#[derive(Clone, Debug, PartialEq, Eq)]
pub struct Health {
    pub status: String,
    pub horizon_status: String,
}

/// One closed ledger.
#[derive(Clone, Debug, PartialEq, Eq)]
pub struct Ledger {
    pub hash: String,
    pub sequence: u32,
    pub closed_at: String,
    pub successful_transaction_count: u32,
    pub failed_transaction_count: u32,
    pub operation_count: u32,
    pub tx_set_operation_count: u32,
    pub protocol_version: u32,
}

/// The network that the gateway serves.
#[derive(Clone, Debug, PartialEq, Eq)]
pub struct Network {
    pub passphrase: String,
    pub protocol_version: u32,
}

/// One contract event. `value` is the event's body as JSON text.
#[derive(Clone, Debug, PartialEq, Eq)]
pub struct Event {
    pub type_: String,
    pub ledger: u32,
    pub ledger_closed_at: String,
    pub contract_id: String,
    pub id: String,
    pub paging_token: String,
    pub in_successful_contract_call: bool,
    pub topic: Vec<String>,
    pub value: String,
}

/// A page of events.
#[derive(Clone, Debug, PartialEq, Eq)]
pub struct GetEventsResult {
    pub latest_ledger: u32,
    pub events: Vec<Event>,
    pub cursor: Option<String>,
}

/// One ledger entry: its key and its value, both as base64 text of their XDR.
#[derive(Clone, Debug, PartialEq, Eq)]
pub struct LedgerEntry {
    pub key: String,
    pub xdr: String,
    pub last_modified_ledger: u32,
}

/// The entries found for a list of keys.
#[derive(Clone, Debug, PartialEq, Eq)]
pub struct GetLedgerEntriesResult {
    pub entries: Vec<LedgerEntry>,
    pub latest_ledger: u32,
}

} // verus!
