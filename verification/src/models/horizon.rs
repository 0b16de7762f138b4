//! What the ledger-history service answers.

use vstd::prelude::*;

verus! {

/// The envelope of an answer: a page of records, links to other pages, or
/// one record.
#[derive(Debug)]
pub struct Response<T> {
    pub _embedded: Option<Embedded<T>>,
    pub _links: Option<Links>,
    pub data: Option<T>,
}

/// A page of records.
#[derive(Debug)]
pub struct Embedded<T> {
    pub records: Vec<T>,
}

/// The links of a page.
#[derive(Debug)]
pub struct Links {
    pub next: Option<Link>,
    pub prev: Option<Link>,
    pub self_: Option<Link>,
}

/// One link.
#[derive(Debug)]
pub struct Link {
    pub href: String,
}

/// One closed ledger.
#[derive(Debug)]
pub struct LedgerResponse {
    pub id: String,
    pub paging_token: String,
    pub hash: String,
    pub sequence: u32,
    pub successful_transaction_count: u32,
    pub failed_transaction_count: u32,
    pub operation_count: u32,
    pub tx_set_operation_count: Option<u32>,
    pub closed_at: String,
    pub total_coins: String,
    pub fee_pool: String,
    pub base_fee_in_stroops: u32,
    pub base_reserve_in_stroops: u32,
    pub max_tx_set_size: u32,
    pub protocol_version: u32,
}

/// One effect of an operation.
#[derive(Debug)]
pub struct EffectResponse {
    pub id: String,
    pub paging_token: String,
    pub account: String,
    pub type_: String,
    pub type_i: u32,
    pub created_at: String,
}

/// One account.
#[derive(Debug)]
pub struct AccountResponse {
    pub id: String,
    pub account_id: String,
    pub sequence: String,
    pub subentry_count: u32,
    pub balances: Vec<Balance>,
}

/// One balance of an account.
#[derive(Debug)]
pub struct Balance {
    pub balance: String,
    pub asset_type: String,
    pub asset_code: Option<String>,
    pub asset_issuer: Option<String>,
}

/// What the service says of itself.
#[derive(Debug)]
pub struct RootResponse {
    pub horizon_version: String,
    pub core_version: String,
    pub ingest_latest_ledger: u32,
    pub history_latest_ledger: u32,
    pub history_latest_ledger_closed_at: String,
    pub network_passphrase: String,
}

} // verus!
