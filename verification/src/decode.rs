//! From the payload of a record to the entry it encodes.
//!
//! The codec's answers are put together here: the outline gives the variant
//! and the discriminant of the kind, each discriminant is looked up in its
//! table, and the fields are asked for by kind. A payload whose answers do
//! not fit together is no entry.

use vstd::prelude::*;
use crate::classify::key_of_data;
use crate::entry::{
    BucketEntry, BucketEntryView, BucketMetadata, LedgerEntry, LedgerEntryData,
    LedgerEntryDataView, LedgerEntryView, LedgerKey, LedgerKeyView,
};
use crate::kinds::{ConfigSettingEntry, ConfigSettingId, ContractDataDurability, EntryKind};
use crate::xdr::{
    account_of, claimable_balance_of, config_setting_of, contract_code_of, contract_data_of,
    data_of, liquidity_pool_of, offer_of, outline_of, sponsor_of, trustline_of, ttl_of,
    xdr_account, xdr_claimable_balance, xdr_config_setting, xdr_contract_code, xdr_contract_data,
    xdr_data, xdr_liquidity_pool, xdr_offer, xdr_outline, xdr_sponsor, xdr_trustline, xdr_ttl,
    Outline,
};

verus! {

/// The data of the ledger entry of kind `kind` in a payload.
pub open spec fn data_in(payload: Seq<u8>, kind: EntryKind) -> Option<LedgerEntryDataView> {
    match kind {
        EntryKind::Account => match account_of(payload) {
            Some(account_id) => Some(LedgerEntryDataView::Account { account_id }),
            None => None,
        },
        EntryKind::Trustline => match trustline_of(payload) {
            Some((account_id, asset)) => Some(LedgerEntryDataView::Trustline { account_id, asset }),
            None => None,
        },
        EntryKind::Offer => match offer_of(payload) {
            Some((seller_id, offer_id)) => Some(LedgerEntryDataView::Offer { seller_id, offer_id }),
            None => None,
        },
        EntryKind::Data => match data_of(payload) {
            Some((account_id, data_name)) => Some(
                LedgerEntryDataView::Data { account_id, data_name },
            ),
            None => None,
        },
        EntryKind::ClaimableBalance => match claimable_balance_of(payload) {
            Some(balance_id) => Some(LedgerEntryDataView::ClaimableBalance { balance_id }),
            None => None,
        },
        EntryKind::LiquidityPool => match liquidity_pool_of(payload) {
            Some(liquidity_pool_id) => Some(
                LedgerEntryDataView::LiquidityPool { liquidity_pool_id },
            ),
            None => None,
        },
        EntryKind::ContractData => match contract_data_of(payload) {
            Some((contract, key, code)) => match ContractDataDurability::of_code(code as int) {
                Some(durability) => Some(
                    LedgerEntryDataView::ContractData { contract, key, durability },
                ),
                None => None,
            },
            None => None,
        },
        EntryKind::ContractCode => match contract_code_of(payload) {
            Some((hash, Some(code))) => Some(LedgerEntryDataView::ContractCode { hash, code }),
            _ => None,
        },
        EntryKind::ConfigSetting => match config_setting_of(payload) {
            Some(code) => match ConfigSettingId::of_code(code as int) {
                Some(id) => Some(
                    LedgerEntryDataView::ConfigSetting { setting: ConfigSettingEntry::of_id(id) },
                ),
                None => None,
            },
            None => None,
        },
        EntryKind::Ttl => match ttl_of(payload) {
            Some(key_hash) => Some(LedgerEntryDataView::Ttl { key_hash }),
            None => None,
        },
    }
}

/// The ledger key of kind `kind` in a payload.
pub open spec fn key_in(payload: Seq<u8>, kind: EntryKind) -> Option<LedgerKeyView> {
    match kind {
        EntryKind::Account => match account_of(payload) {
            Some(account_id) => Some(LedgerKeyView::Account { account_id }),
            None => None,
        },
        EntryKind::Trustline => match trustline_of(payload) {
            Some((account_id, asset)) => Some(LedgerKeyView::Trustline { account_id, asset }),
            None => None,
        },
        EntryKind::Offer => match offer_of(payload) {
            Some((seller_id, offer_id)) => Some(LedgerKeyView::Offer { seller_id, offer_id }),
            None => None,
        },
        EntryKind::Data => match data_of(payload) {
            Some((account_id, data_name)) => Some(LedgerKeyView::Data { account_id, data_name }),
            None => None,
        },
        EntryKind::ClaimableBalance => match claimable_balance_of(payload) {
            Some(balance_id) => Some(LedgerKeyView::ClaimableBalance { balance_id }),
            None => None,
        },
        EntryKind::LiquidityPool => match liquidity_pool_of(payload) {
            Some(liquidity_pool_id) => Some(LedgerKeyView::LiquidityPool { liquidity_pool_id }),
            None => None,
        },
        EntryKind::ContractData => match contract_data_of(payload) {
            Some((contract, key, code)) => match ContractDataDurability::of_code(code as int) {
                Some(durability) => Some(LedgerKeyView::ContractData { contract, key, durability }),
                None => None,
            },
            None => None,
        },
        EntryKind::ContractCode => match contract_code_of(payload) {
            Some((hash, _)) => Some(LedgerKeyView::ContractCode { hash }),
            None => None,
        },
        EntryKind::ConfigSetting => match config_setting_of(payload) {
            Some(code) => match ConfigSettingId::of_code(code as int) {
                Some(config_setting_id) => Some(LedgerKeyView::ConfigSetting { config_setting_id }),
                None => None,
            },
            None => None,
        },
        EntryKind::Ttl => match ttl_of(payload) {
            Some(key_hash) => Some(LedgerKeyView::Ttl { key_hash }),
            None => None,
        },
    }
}

/// The ledger entry in a payload whose outline gives `seq` and `code`.
pub open spec fn ledger_entry_in(payload: Seq<u8>, seq: u32, code: i32) -> Option<LedgerEntryView> {
    match EntryKind::of_code(code as int) {
        Some(kind) => match data_in(payload, kind) {
            Some(data) => Some(
                LedgerEntryView {
                    last_modified_ledger_seq: seq,
                    data,
                    sponsoring_id: sponsor_of(payload),
                },
            ),
            None => None,
        },
        None => None,
    }
}

/// The bucket entry that a payload encodes. `None` where the codec does not
/// accept the payload, where a discriminant is in no table, or where the
/// fields of the kind cannot be had.
pub open spec fn decoded(payload: Seq<u8>) -> Option<BucketEntryView> {
    match outline_of(payload) {
        Some(Outline::Init { last_modified_ledger_seq, kind }) => match ledger_entry_in(
            payload,
            last_modified_ledger_seq,
            kind,
        ) {
            Some(entry) => Some(BucketEntryView::InitEntry(entry)),
            None => None,
        },
        Some(Outline::Live { last_modified_ledger_seq, kind }) => match ledger_entry_in(
            payload,
            last_modified_ledger_seq,
            kind,
        ) {
            Some(entry) => Some(BucketEntryView::LiveEntry(entry)),
            None => None,
        },
        Some(Outline::Dead { kind }) => match EntryKind::of_code(kind as int) {
            Some(kind) => match key_in(payload, kind) {
                Some(key) => Some(BucketEntryView::DeadEntry(key)),
                None => None,
            },
            None => None,
        },
        Some(Outline::Meta { ledger_version }) => Some(
            BucketEntryView::MetaEntry(BucketMetadata { ledger_version }),
        ),
        None => None,
    }
}

/// Reads the data of a ledger entry of the given kind from a payload.
pub fn read_data(payload: &[u8], kind: EntryKind) -> (r: Option<LedgerEntryData>)
    ensures
        r is Some <==> data_in(payload@, kind) is Some,
        r matches Some(d) ==> data_in(payload@, kind) == Some(d@),
{
    match kind {
        EntryKind::Account => match xdr_account(payload) {
            Some(account_id) => {
                assert(account_id.deep_view() =~= account_id@);
                Some(LedgerEntryData::Account { account_id })
            },
            None => None,
        },
        EntryKind::Trustline => match xdr_trustline(payload) {
            Some((account_id, asset)) => {
                assert(account_id.deep_view() =~= account_id@);
                assert(asset.deep_view() =~= asset@);
                Some(LedgerEntryData::Trustline { account_id, asset })
            },
            None => None,
        },
        EntryKind::Offer => match xdr_offer(payload) {
            Some((seller_id, offer_id)) => {
                assert(seller_id.deep_view() =~= seller_id@);
                Some(LedgerEntryData::Offer { seller_id, offer_id })
            },
            None => None,
        },
        EntryKind::Data => match xdr_data(payload) {
            Some((account_id, data_name)) => {
                assert(account_id.deep_view() =~= account_id@);
                assert(data_name.deep_view() =~= data_name@);
                Some(LedgerEntryData::Data { account_id, data_name })
            },
            None => None,
        },
        EntryKind::ClaimableBalance => match xdr_claimable_balance(payload) {
            Some(balance_id) => {
                assert(balance_id.deep_view() =~= balance_id@);
                Some(LedgerEntryData::ClaimableBalance { balance_id })
            },
            None => None,
        },
        EntryKind::LiquidityPool => match xdr_liquidity_pool(payload) {
            Some(liquidity_pool_id) => Some(LedgerEntryData::LiquidityPool { liquidity_pool_id }),
            None => None,
        },
        EntryKind::ContractData => match xdr_contract_data(payload) {
            Some((contract, key, code)) => {
                assert(contract.deep_view() =~= contract@);
                assert(key.deep_view() =~= key@);
                match ContractDataDurability::from_code(code) {
                    Some(durability) => Some(
                        LedgerEntryData::ContractData { contract, key, durability },
                    ),
                    None => None,
                }
            },
            None => None,
        },
        EntryKind::ContractCode => match xdr_contract_code(payload) {
            Some((hash, Some(code))) => {
                assert(code.deep_view() =~= code@);
                Some(LedgerEntryData::ContractCode { hash, code })
            },
            _ => None,
        },
        EntryKind::ConfigSetting => match xdr_config_setting(payload) {
            Some(code) => match ConfigSettingEntry::from_code(code) {
                Some(setting) => Some(LedgerEntryData::ConfigSetting { setting }),
                None => None,
            },
            None => None,
        },
        EntryKind::Ttl => match xdr_ttl(payload) {
            Some(key_hash) => Some(LedgerEntryData::Ttl { key_hash }),
            None => None,
        },
    }
}

/// Reads a ledger key of the given kind from a payload.
pub fn read_key(payload: &[u8], kind: EntryKind) -> (r: Option<LedgerKey>)
    ensures
        r is Some <==> key_in(payload@, kind) is Some,
        r matches Some(k) ==> key_in(payload@, kind) == Some(k@),
{
    match kind {
        EntryKind::Account => match xdr_account(payload) {
            Some(account_id) => {
                assert(account_id.deep_view() =~= account_id@);
                Some(LedgerKey::Account { account_id })
            },
            None => None,
        },
        EntryKind::Trustline => match xdr_trustline(payload) {
            Some((account_id, asset)) => {
                assert(account_id.deep_view() =~= account_id@);
                assert(asset.deep_view() =~= asset@);
                Some(LedgerKey::Trustline { account_id, asset })
            },
            None => None,
        },
        EntryKind::Offer => match xdr_offer(payload) {
            Some((seller_id, offer_id)) => {
                assert(seller_id.deep_view() =~= seller_id@);
                Some(LedgerKey::Offer { seller_id, offer_id })
            },
            None => None,
        },
        EntryKind::Data => match xdr_data(payload) {
            Some((account_id, data_name)) => {
                assert(account_id.deep_view() =~= account_id@);
                assert(data_name.deep_view() =~= data_name@);
                Some(LedgerKey::Data { account_id, data_name })
            },
            None => None,
        },
        EntryKind::ClaimableBalance => match xdr_claimable_balance(payload) {
            Some(balance_id) => {
                assert(balance_id.deep_view() =~= balance_id@);
                Some(LedgerKey::ClaimableBalance { balance_id })
            },
            None => None,
        },
        EntryKind::LiquidityPool => match xdr_liquidity_pool(payload) {
            Some(liquidity_pool_id) => Some(LedgerKey::LiquidityPool { liquidity_pool_id }),
            None => None,
        },
        EntryKind::ContractData => match xdr_contract_data(payload) {
            Some((contract, key, code)) => {
                assert(contract.deep_view() =~= contract@);
                assert(key.deep_view() =~= key@);
                match ContractDataDurability::from_code(code) {
                    Some(durability) => Some(LedgerKey::ContractData { contract, key, durability }),
                    None => None,
                }
            },
            None => None,
        },
        EntryKind::ContractCode => match xdr_contract_code(payload) {
            Some((hash, _)) => Some(LedgerKey::ContractCode { hash }),
            None => None,
        },
        EntryKind::ConfigSetting => match xdr_config_setting(payload) {
            Some(code) => match ConfigSettingId::from_code(code) {
                Some(config_setting_id) => Some(LedgerKey::ConfigSetting { config_setting_id }),
                None => None,
            },
            None => None,
        },
        EntryKind::Ttl => match xdr_ttl(payload) {
            Some(key_hash) => Some(LedgerKey::Ttl { key_hash }),
            None => None,
        },
    }
}

/// Reads the ledger entry of a payload whose outline gives `seq` and `code`.
pub fn read_ledger_entry(payload: &[u8], seq: u32, code: i32) -> (r: Option<LedgerEntry>)
    ensures
        r is Some <==> ledger_entry_in(payload@, seq, code) is Some,
        r matches Some(e) ==> ledger_entry_in(payload@, seq, code) == Some(e@),
{
    match EntryKind::from_code(code) {
        Some(kind) => match read_data(payload, kind) {
            Some(data) => {
                let sponsoring_id = xdr_sponsor(payload);
                Some(LedgerEntry { last_modified_ledger_seq: seq, data, sponsoring_id })
            },
            None => None,
        },
        None => None,
    }
}

/// Decodes the payload of one record.
///
/// Gives the entry exactly where the payload encodes one, and `None` for
/// every other payload: one that the codec does not accept, that it does not
/// take up whole, or whose kind is in no table.
pub fn decode_entry(payload: &[u8]) -> (r: Option<BucketEntry>)
    ensures
        r is Some <==> decoded(payload@) is Some,
        r matches Some(e) ==> decoded(payload@) == Some(e@),
{
    match xdr_outline(payload) {
        Some(Outline::Init { last_modified_ledger_seq, kind }) => {
            match read_ledger_entry(payload, last_modified_ledger_seq, kind) {
                Some(entry) => Some(BucketEntry::InitEntry(entry)),
                None => None,
            }
        },
        Some(Outline::Live { last_modified_ledger_seq, kind }) => {
            match read_ledger_entry(payload, last_modified_ledger_seq, kind) {
                Some(entry) => Some(BucketEntry::LiveEntry(entry)),
                None => None,
            }
        },
        Some(Outline::Dead { kind }) => match EntryKind::from_code(kind) {
            Some(kind) => match read_key(payload, kind) {
                Some(key) => Some(BucketEntry::DeadEntry(key)),
                None => None,
            },
            None => None,
        },
        Some(Outline::Meta { ledger_version }) => Some(
            BucketEntry::MetaEntry(BucketMetadata { ledger_version }),
        ),
        None => None,
    }
}

/// The fields that a payload gives to an entry of a kind are the fields
/// that it gives to the key of that kind: where a payload holds the data of
/// an entry, the key read from it is the projection of that data.
pub proof fn lemma_key_is_projection(payload: Seq<u8>, kind: EntryKind)
    ensures
        data_in(payload, kind) matches Some(data) ==> key_in(payload, kind) == Some(
            key_of_data(data),
        ) && data.kind() == kind,
{
}

/// The entry that a payload encodes has the kind that its outline names.
pub proof fn lemma_decoded_kind(payload: Seq<u8>)
    ensures
        match decoded(payload) {
            Some(BucketEntryView::InitEntry(e)) => outline_of(payload) == Some(
                Outline::Init {
                    last_modified_ledger_seq: e.last_modified_ledger_seq,
                    kind: e.data.kind().code() as i32,
                },
            ),
            Some(BucketEntryView::LiveEntry(e)) => outline_of(payload) == Some(
                Outline::Live {
                    last_modified_ledger_seq: e.last_modified_ledger_seq,
                    kind: e.data.kind().code() as i32,
                },
            ),
            Some(BucketEntryView::DeadEntry(k)) => outline_of(payload) == Some(
                Outline::Dead { kind: k.kind().code() as i32 },
            ),
            Some(BucketEntryView::MetaEntry(m)) => outline_of(payload) == Some(
                Outline::Meta { ledger_version: m.ledger_version },
            ),
            None => true,
        },
{
}

} // verus!
