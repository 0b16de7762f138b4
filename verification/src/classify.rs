//! What to do with an entry: the retention table, the projection of an entry
//! to its key, the sponsorship predicate and the contract-code predicate.
//!
//! Each table is a match over every kind, so that a new kind cannot be added
//! without a decision here.

use vstd::prelude::*;
use crate::entry::{
    copy_bytes, BucketEntry, BucketEntryView, Hash32, LedgerEntry, LedgerEntryData,
    LedgerEntryDataView, LedgerKey, LedgerKeyView,
};
use crate::kinds::{ConfigSettingEntry, ConfigSettingId, EntryKind};

verus! {

/// The kinds that a slimmed bucket keeps.
pub open spec fn kept_kind(kind: EntryKind) -> bool {
    kind == EntryKind::ContractData || kind == EntryKind::ContractCode || kind
        == EntryKind::ConfigSetting || kind == EntryKind::Trustline || kind == EntryKind::Account
}

/// The kinds that a slimmed bucket leaves out.
pub open spec fn dropped_kind(kind: EntryKind) -> bool {
    kind == EntryKind::Ttl || kind == EntryKind::Offer || kind == EntryKind::Data || kind
        == EntryKind::ClaimableBalance || kind == EntryKind::LiquidityPool
}

/// Whether a slimmed bucket keeps an entry: a ledger entry or a tombstone by
/// its kind, the metadata always.
pub open spec fn retained(entry: BucketEntryView) -> bool {
    match entry {
        BucketEntryView::InitEntry(e) => kept_kind(e.data.kind()),
        BucketEntryView::LiveEntry(e) => kept_kind(e.data.kind()),
        BucketEntryView::DeadEntry(k) => kept_kind(k.kind()),
        BucketEntryView::MetaEntry(_) => true,
    }
}

/// The retention table: whether a slimmed bucket keeps the entry.
pub fn keep(entry: &BucketEntry) -> (r: bool)
    ensures
        r == retained(entry@),
{
    match entry {
        BucketEntry::InitEntry(e) | BucketEntry::LiveEntry(e) => match &e.data {
            LedgerEntryData::ContractData { .. }
            | LedgerEntryData::ContractCode { .. }
            | LedgerEntryData::ConfigSetting { .. }
            | LedgerEntryData::Trustline { .. }
            | LedgerEntryData::Account { .. } => true,
            LedgerEntryData::Ttl { .. }
            | LedgerEntryData::Offer { .. }
            | LedgerEntryData::Data { .. }
            | LedgerEntryData::ClaimableBalance { .. }
            | LedgerEntryData::LiquidityPool { .. } => false,
        },
        BucketEntry::DeadEntry(key) => match key {
            LedgerKey::Account { .. }
            | LedgerKey::Trustline { .. }
            | LedgerKey::ContractData { .. }
            | LedgerKey::ContractCode { .. }
            | LedgerKey::ConfigSetting { .. } => true,
            LedgerKey::Offer { .. }
            | LedgerKey::Data { .. }
            | LedgerKey::ClaimableBalance { .. }
            | LedgerKey::LiquidityPool { .. }
            | LedgerKey::Ttl { .. } => false,
        },
        BucketEntry::MetaEntry(_) => true,
    }
}

/// The setting that a setting entry holds.
pub fn setting_id(setting: ConfigSettingEntry) -> (r: ConfigSettingId)
    ensures
        r == setting.id(),
{
    match setting {
        ConfigSettingEntry::ContractMaxSizeBytes => ConfigSettingId::ContractMaxSizeBytes,
        ConfigSettingEntry::ContractComputeV0 => ConfigSettingId::ContractComputeV0,
        ConfigSettingEntry::ContractLedgerCostV0 => ConfigSettingId::ContractLedgerCostV0,
        ConfigSettingEntry::ContractHistoricalDataV0 => ConfigSettingId::ContractHistoricalDataV0,
        ConfigSettingEntry::ContractEventsV0 => ConfigSettingId::ContractEventsV0,
        ConfigSettingEntry::ContractBandwidthV0 => ConfigSettingId::ContractBandwidthV0,
        ConfigSettingEntry::ContractCostParamsCpuInstructions => {
            ConfigSettingId::ContractCostParamsCpuInstructions
        },
        ConfigSettingEntry::ContractCostParamsMemoryBytes => {
            ConfigSettingId::ContractCostParamsMemoryBytes
        },
        ConfigSettingEntry::ContractDataKeySizeBytes => ConfigSettingId::ContractDataKeySizeBytes,
        ConfigSettingEntry::ContractDataEntrySizeBytes => {
            ConfigSettingId::ContractDataEntrySizeBytes
        },
        ConfigSettingEntry::StateArchival => ConfigSettingId::StateArchival,
        ConfigSettingEntry::ContractExecutionLanes => ConfigSettingId::ContractExecutionLanes,
        ConfigSettingEntry::BucketlistSizeWindow => ConfigSettingId::BucketlistSizeWindow,
        ConfigSettingEntry::EvictionIterator => ConfigSettingId::EvictionIterator,
    }
}

/// The key of an entry with the given data: for each kind, the fields that
/// identify the entry, and nothing of what it holds besides.
pub open spec fn key_of_data(data: LedgerEntryDataView) -> LedgerKeyView {
    match data {
        LedgerEntryDataView::Account { account_id } => LedgerKeyView::Account { account_id },
        LedgerEntryDataView::Trustline { account_id, asset } => LedgerKeyView::Trustline {
            account_id,
            asset,
        },
        LedgerEntryDataView::Offer { seller_id, offer_id } => LedgerKeyView::Offer {
            seller_id,
            offer_id,
        },
        LedgerEntryDataView::Data { account_id, data_name } => LedgerKeyView::Data {
            account_id,
            data_name,
        },
        LedgerEntryDataView::ClaimableBalance { balance_id } => LedgerKeyView::ClaimableBalance {
            balance_id,
        },
        LedgerEntryDataView::LiquidityPool { liquidity_pool_id } => LedgerKeyView::LiquidityPool {
            liquidity_pool_id,
        },
        LedgerEntryDataView::ContractData { contract, key, durability } => LedgerKeyView::ContractData {
            contract,
            key,
            durability,
        },
        LedgerEntryDataView::ContractCode { hash, code } => LedgerKeyView::ContractCode { hash },
        LedgerEntryDataView::ConfigSetting { setting } => LedgerKeyView::ConfigSetting {
            config_setting_id: setting.id(),
        },
        LedgerEntryDataView::Ttl { key_hash } => LedgerKeyView::Ttl { key_hash },
    }
}

/// The key projection: the key under which a ledger entry is stored.
pub fn data_into_key(d: &LedgerEntry) -> (r: LedgerKey)
    ensures
        r@ == key_of_data(d@.data),
{
    match &d.data {
        LedgerEntryData::Account { account_id } => LedgerKey::Account {
            account_id: copy_bytes(account_id),
        },
        LedgerEntryData::Trustline { account_id, asset } => LedgerKey::Trustline {
            account_id: copy_bytes(account_id),
            asset: copy_bytes(asset),
        },
        LedgerEntryData::Offer { seller_id, offer_id } => LedgerKey::Offer {
            seller_id: copy_bytes(seller_id),
            offer_id: *offer_id,
        },
        LedgerEntryData::Data { account_id, data_name } => LedgerKey::Data {
            account_id: copy_bytes(account_id),
            data_name: copy_bytes(data_name),
        },
        LedgerEntryData::ClaimableBalance { balance_id } => LedgerKey::ClaimableBalance {
            balance_id: copy_bytes(balance_id),
        },
        LedgerEntryData::LiquidityPool { liquidity_pool_id } => LedgerKey::LiquidityPool {
            liquidity_pool_id: *liquidity_pool_id,
        },
        LedgerEntryData::ContractData { contract, key, durability } => LedgerKey::ContractData {
            contract: copy_bytes(contract),
            key: copy_bytes(key),
            durability: *durability,
        },
        LedgerEntryData::ContractCode { hash, .. } => LedgerKey::ContractCode { hash: *hash },
        LedgerEntryData::ConfigSetting { setting } => LedgerKey::ConfigSetting {
            config_setting_id: setting_id(*setting),
        },
        LedgerEntryData::Ttl { key_hash } => LedgerKey::Ttl { key_hash: *key_hash },
    }
}

/// The key that an entry occupies: its own projection for a ledger entry,
/// the key it carries for a tombstone, none for the metadata.
pub open spec fn key_of(entry: BucketEntryView) -> Option<LedgerKeyView> {
    match entry {
        BucketEntryView::InitEntry(e) => Some(key_of_data(e.data)),
        BucketEntryView::LiveEntry(e) => Some(key_of_data(e.data)),
        BucketEntryView::DeadEntry(k) => Some(k),
        BucketEntryView::MetaEntry(_) => None,
    }
}

/// Copies a key.
pub fn copy_key(key: &LedgerKey) -> (r: LedgerKey)
    ensures
        r@ == key@,
{
    match key {
        LedgerKey::Account { account_id } => LedgerKey::Account {
            account_id: copy_bytes(account_id),
        },
        LedgerKey::Trustline { account_id, asset } => LedgerKey::Trustline {
            account_id: copy_bytes(account_id),
            asset: copy_bytes(asset),
        },
        LedgerKey::Offer { seller_id, offer_id } => LedgerKey::Offer {
            seller_id: copy_bytes(seller_id),
            offer_id: *offer_id,
        },
        LedgerKey::Data { account_id, data_name } => LedgerKey::Data {
            account_id: copy_bytes(account_id),
            data_name: copy_bytes(data_name),
        },
        LedgerKey::ClaimableBalance { balance_id } => LedgerKey::ClaimableBalance {
            balance_id: copy_bytes(balance_id),
        },
        LedgerKey::LiquidityPool { liquidity_pool_id } => LedgerKey::LiquidityPool {
            liquidity_pool_id: *liquidity_pool_id,
        },
        LedgerKey::ContractData { contract, key, durability } => LedgerKey::ContractData {
            contract: copy_bytes(contract),
            key: copy_bytes(key),
            durability: *durability,
        },
        LedgerKey::ContractCode { hash } => LedgerKey::ContractCode { hash: *hash },
        LedgerKey::ConfigSetting { config_setting_id } => LedgerKey::ConfigSetting {
            config_setting_id: *config_setting_id,
        },
        LedgerKey::Ttl { key_hash } => LedgerKey::Ttl { key_hash: *key_hash },
    }
}

/// The key that an entry occupies in a bucket.
pub fn entry_key(entry: &BucketEntry) -> (r: Option<LedgerKey>)
    ensures
        r is Some <==> key_of(entry@) is Some,
        r matches Some(k) ==> key_of(entry@) == Some(k@),
{
    match entry {
        BucketEntry::InitEntry(e) | BucketEntry::LiveEntry(e) => Some(data_into_key(e)),
        BucketEntry::DeadEntry(key) => Some(copy_key(key)),
        BucketEntry::MetaEntry(_) => None,
    }
}

/// Whether an entry is sponsored by the account with the given address: it
/// is a ledger entry, it names a sponsor, and the sponsor's address is the
/// given one. A tombstone and the metadata have no sponsor.
pub open spec fn sponsored_by(entry: BucketEntryView, sponsor: Seq<char>) -> bool {
    match entry {
        BucketEntryView::InitEntry(e) => e.sponsoring_id == Some(sponsor),
        BucketEntryView::LiveEntry(e) => e.sponsoring_id == Some(sponsor),
        BucketEntryView::DeadEntry(_) => false,
        BucketEntryView::MetaEntry(_) => false,
    }
}

/// The sponsorship predicate.
pub fn is_sponsored_by(entry: &BucketEntry, sponsor: &String) -> (r: bool)
    ensures
        r == sponsored_by(entry@, sponsor@),
{
    match entry {
        BucketEntry::InitEntry(e) | BucketEntry::LiveEntry(e) => match &e.sponsoring_id {
            Some(sponsoring_id) => *sponsoring_id == *sponsor,
            None => false,
        },
        BucketEntry::DeadEntry(_) => false,
        BucketEntry::MetaEntry(_) => false,
    }
}

/// The contract code that an entry holds: the content hash and the code, for
/// a ledger entry of that kind and for no other entry.
pub open spec fn code_of(entry: BucketEntryView) -> Option<(Hash32, Seq<u8>)> {
    match entry {
        BucketEntryView::InitEntry(e) => match e.data {
            LedgerEntryDataView::ContractCode { hash, code } => Some((hash, code)),
            _ => None,
        },
        BucketEntryView::LiveEntry(e) => match e.data {
            LedgerEntryDataView::ContractCode { hash, code } => Some((hash, code)),
            _ => None,
        },
        BucketEntryView::DeadEntry(_) => None,
        BucketEntryView::MetaEntry(_) => None,
    }
}

/// The contract-code predicate: the hash and the code of an entry that holds
/// contract code.
pub fn contract_code(entry: &BucketEntry) -> (r: Option<(&Hash32, &Vec<u8>)>)
    ensures
        r is Some <==> code_of(entry@) is Some,
        r matches Some((hash, code)) ==> code_of(entry@) == Some((*hash, code@)),
{
    match entry {
        BucketEntry::InitEntry(e) | BucketEntry::LiveEntry(e) => match &e.data {
            LedgerEntryData::ContractCode { hash, code } => Some((hash, code)),
            _ => None,
        },
        BucketEntry::DeadEntry(_) => None,
        BucketEntry::MetaEntry(_) => None,
    }
}

/// Every kind is in exactly one of the two columns of the retention table.
pub proof fn lemma_retention_is_total(kind: EntryKind)
    ensures
        kept_kind(kind) != dropped_kind(kind),
{
}

/// The key projection keeps the kind, so an entry and the tombstone of its
/// key are kept or dropped together.
pub proof fn lemma_projection_keeps_kind(data: LedgerEntryDataView)
    ensures
        key_of_data(data).kind() == data.kind(),
        kept_kind(key_of_data(data).kind()) == kept_kind(data.kind()),
{
}

/// The key projection has a case for every kind of entry and reaches every
/// kind of key: each key is the projection of some entry.
pub proof fn lemma_projection_is_onto(key: LedgerKeyView) -> (data: LedgerEntryDataView)
    ensures
        key_of_data(data) == key,
{
    match key {
        LedgerKeyView::Account { account_id } => LedgerEntryDataView::Account { account_id },
        LedgerKeyView::Trustline { account_id, asset } => LedgerEntryDataView::Trustline {
            account_id,
            asset,
        },
        LedgerKeyView::Offer { seller_id, offer_id } => LedgerEntryDataView::Offer {
            seller_id,
            offer_id,
        },
        LedgerKeyView::Data { account_id, data_name } => LedgerEntryDataView::Data {
            account_id,
            data_name,
        },
        LedgerKeyView::ClaimableBalance { balance_id } => LedgerEntryDataView::ClaimableBalance {
            balance_id,
        },
        LedgerKeyView::LiquidityPool { liquidity_pool_id } => LedgerEntryDataView::LiquidityPool {
            liquidity_pool_id,
        },
        LedgerKeyView::ContractData { contract, key, durability } => LedgerEntryDataView::ContractData {
            contract,
            key,
            durability,
        },
        LedgerKeyView::ContractCode { hash } => LedgerEntryDataView::ContractCode {
            hash,
            code: Seq::empty(),
        },
        LedgerKeyView::ConfigSetting { config_setting_id } => LedgerEntryDataView::ConfigSetting {
            setting: ConfigSettingEntry::of_id(config_setting_id),
        },
        LedgerKeyView::Ttl { key_hash } => LedgerEntryDataView::Ttl { key_hash },
    }
}

} // verus!
