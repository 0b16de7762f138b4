//! The entries of a bucket, as far as this library reads them.
//!
//! A field that identifies an entry (an account, an asset, a contract
//! address, a storage key) is held in its XDR encoding: two such fields name
//! the same thing exactly when their bytes are equal. A hash is held as its
//! 32 bytes. What an entry holds beyond its identity stays in the bytes of
//! its record.

use vstd::prelude::*;
use vstd::slice::slice_to_vec;
use crate::kinds::{ConfigSettingEntry, ConfigSettingId, ContractDataDurability, EntryKind};

verus! {

/// A SHA-256 hash.
pub type Hash32 = [u8; 32];

/// The identity of a ledger entry: one variant for each kind, with the
/// fields that tell two entries of that kind apart.
#[derive(Clone, Debug, PartialEq, Eq, Hash)]
pub enum LedgerKey {
    Account { account_id: Vec<u8> },
    Trustline { account_id: Vec<u8>, asset: Vec<u8> },
    Offer { seller_id: Vec<u8>, offer_id: i64 },
    Data { account_id: Vec<u8>, data_name: Vec<u8> },
    ClaimableBalance { balance_id: Vec<u8> },
    LiquidityPool { liquidity_pool_id: Hash32 },
    ContractData { contract: Vec<u8>, key: Vec<u8>, durability: ContractDataDurability },
    ContractCode { hash: Hash32 },
    ConfigSetting { config_setting_id: ConfigSettingId },
    Ttl { key_hash: Hash32 },
}

/// A ledger key as a mathematical value.
pub enum LedgerKeyView {
    Account { account_id: Seq<u8> },
    Trustline { account_id: Seq<u8>, asset: Seq<u8> },
    Offer { seller_id: Seq<u8>, offer_id: i64 },
    Data { account_id: Seq<u8>, data_name: Seq<u8> },
    ClaimableBalance { balance_id: Seq<u8> },
    LiquidityPool { liquidity_pool_id: Hash32 },
    ContractData { contract: Seq<u8>, key: Seq<u8>, durability: ContractDataDurability },
    ContractCode { hash: Hash32 },
    ConfigSetting { config_setting_id: ConfigSettingId },
    Ttl { key_hash: Hash32 },
}

impl View for LedgerKey {
    type V = LedgerKeyView;

    open spec fn view(&self) -> LedgerKeyView {
        match *self {
            LedgerKey::Account { account_id } => LedgerKeyView::Account { account_id: account_id@ },
            LedgerKey::Trustline { account_id, asset } => LedgerKeyView::Trustline {
                account_id: account_id@,
                asset: asset@,
            },
            LedgerKey::Offer { seller_id, offer_id } => LedgerKeyView::Offer {
                seller_id: seller_id@,
                offer_id,
            },
            LedgerKey::Data { account_id, data_name } => LedgerKeyView::Data {
                account_id: account_id@,
                data_name: data_name@,
            },
            LedgerKey::ClaimableBalance { balance_id } => LedgerKeyView::ClaimableBalance {
                balance_id: balance_id@,
            },
            LedgerKey::LiquidityPool { liquidity_pool_id } => LedgerKeyView::LiquidityPool {
                liquidity_pool_id,
            },
            LedgerKey::ContractData { contract, key, durability } => LedgerKeyView::ContractData {
                contract: contract@,
                key: key@,
                durability,
            },
            LedgerKey::ContractCode { hash } => LedgerKeyView::ContractCode { hash },
            LedgerKey::ConfigSetting { config_setting_id } => LedgerKeyView::ConfigSetting {
                config_setting_id,
            },
            LedgerKey::Ttl { key_hash } => LedgerKeyView::Ttl { key_hash },
        }
    }
}

impl LedgerKeyView {
    /// The kind of entry that this key names.
    pub open spec fn kind(self) -> EntryKind {
        match self {
            LedgerKeyView::Account { .. } => EntryKind::Account,
            LedgerKeyView::Trustline { .. } => EntryKind::Trustline,
            LedgerKeyView::Offer { .. } => EntryKind::Offer,
            LedgerKeyView::Data { .. } => EntryKind::Data,
            LedgerKeyView::ClaimableBalance { .. } => EntryKind::ClaimableBalance,
            LedgerKeyView::LiquidityPool { .. } => EntryKind::LiquidityPool,
            LedgerKeyView::ContractData { .. } => EntryKind::ContractData,
            LedgerKeyView::ContractCode { .. } => EntryKind::ContractCode,
            LedgerKeyView::ConfigSetting { .. } => EntryKind::ConfigSetting,
            LedgerKeyView::Ttl { .. } => EntryKind::Ttl,
        }
    }
}

/// What a ledger entry holds, by kind: the fields of its identity and, for
/// contract code, the code itself.
#[derive(Clone, Debug, PartialEq, Eq)]
pub enum LedgerEntryData {
    Account { account_id: Vec<u8> },
    Trustline { account_id: Vec<u8>, asset: Vec<u8> },
    Offer { seller_id: Vec<u8>, offer_id: i64 },
    Data { account_id: Vec<u8>, data_name: Vec<u8> },
    ClaimableBalance { balance_id: Vec<u8> },
    LiquidityPool { liquidity_pool_id: Hash32 },
    ContractData { contract: Vec<u8>, key: Vec<u8>, durability: ContractDataDurability },
    ContractCode { hash: Hash32, code: Vec<u8> },
    ConfigSetting { setting: ConfigSettingEntry },
    Ttl { key_hash: Hash32 },
}

/// The data of a ledger entry as a mathematical value.
pub enum LedgerEntryDataView {
    Account { account_id: Seq<u8> },
    Trustline { account_id: Seq<u8>, asset: Seq<u8> },
    Offer { seller_id: Seq<u8>, offer_id: i64 },
    Data { account_id: Seq<u8>, data_name: Seq<u8> },
    ClaimableBalance { balance_id: Seq<u8> },
    LiquidityPool { liquidity_pool_id: Hash32 },
    ContractData { contract: Seq<u8>, key: Seq<u8>, durability: ContractDataDurability },
    ContractCode { hash: Hash32, code: Seq<u8> },
    ConfigSetting { setting: ConfigSettingEntry },
    Ttl { key_hash: Hash32 },
}

impl View for LedgerEntryData {
    type V = LedgerEntryDataView;

    open spec fn view(&self) -> LedgerEntryDataView {
        match *self {
            LedgerEntryData::Account { account_id } => LedgerEntryDataView::Account {
                account_id: account_id@,
            },
            LedgerEntryData::Trustline { account_id, asset } => LedgerEntryDataView::Trustline {
                account_id: account_id@,
                asset: asset@,
            },
            LedgerEntryData::Offer { seller_id, offer_id } => LedgerEntryDataView::Offer {
                seller_id: seller_id@,
                offer_id,
            },
            LedgerEntryData::Data { account_id, data_name } => LedgerEntryDataView::Data {
                account_id: account_id@,
                data_name: data_name@,
            },
            LedgerEntryData::ClaimableBalance { balance_id } => LedgerEntryDataView::ClaimableBalance {
                balance_id: balance_id@,
            },
            LedgerEntryData::LiquidityPool { liquidity_pool_id } => LedgerEntryDataView::LiquidityPool {
                liquidity_pool_id,
            },
            LedgerEntryData::ContractData {
                contract,
                key,
                durability,
            } => LedgerEntryDataView::ContractData { contract: contract@, key: key@, durability },
            LedgerEntryData::ContractCode { hash, code } => LedgerEntryDataView::ContractCode {
                hash,
                code: code@,
            },
            LedgerEntryData::ConfigSetting { setting } => LedgerEntryDataView::ConfigSetting {
                setting,
            },
            LedgerEntryData::Ttl { key_hash } => LedgerEntryDataView::Ttl { key_hash },
        }
    }
}

impl LedgerEntryDataView {
    /// The kind of this entry.
    pub open spec fn kind(self) -> EntryKind {
        match self {
            LedgerEntryDataView::Account { .. } => EntryKind::Account,
            LedgerEntryDataView::Trustline { .. } => EntryKind::Trustline,
            LedgerEntryDataView::Offer { .. } => EntryKind::Offer,
            LedgerEntryDataView::Data { .. } => EntryKind::Data,
            LedgerEntryDataView::ClaimableBalance { .. } => EntryKind::ClaimableBalance,
            LedgerEntryDataView::LiquidityPool { .. } => EntryKind::LiquidityPool,
            LedgerEntryDataView::ContractData { .. } => EntryKind::ContractData,
            LedgerEntryDataView::ContractCode { .. } => EntryKind::ContractCode,
            LedgerEntryDataView::ConfigSetting { .. } => EntryKind::ConfigSetting,
            LedgerEntryDataView::Ttl { .. } => EntryKind::Ttl,
        }
    }
}

/// One piece of ledger state.
#[derive(Clone, Debug, PartialEq, Eq)]
pub struct LedgerEntry {
    /// The ledger in which the entry was last changed.
    pub last_modified_ledger_seq: u32,
    /// What the entry holds.
    pub data: LedgerEntryData,
    /// The account that pays for the entry's reserve, as its address, where
    /// the entry has a sponsor.
    pub sponsoring_id: Option<String>,
}

/// A ledger entry as a mathematical value.
pub struct LedgerEntryView {
    pub last_modified_ledger_seq: u32,
    pub data: LedgerEntryDataView,
    pub sponsoring_id: Option<Seq<char>>,
}

impl View for LedgerEntry {
    type V = LedgerEntryView;

    open spec fn view(&self) -> LedgerEntryView {
        LedgerEntryView {
            last_modified_ledger_seq: self.last_modified_ledger_seq,
            data: self.data@,
            sponsoring_id: match self.sponsoring_id {
                Some(s) => Some(s@),
                None => None,
            },
        }
    }
}

/// What a bucket says of itself.
#[derive(Clone, Copy, Debug, PartialEq, Eq, Structural)]
pub struct BucketMetadata {
    /// The protocol version under which the bucket was written.
    pub ledger_version: u32,
}

/// One entry of a bucket.
#[derive(Clone, Debug, PartialEq, Eq)]
pub enum BucketEntry {
    /// An entry that was created in the span of ledgers that the bucket covers.
    InitEntry(LedgerEntry),
    /// An entry that existed before and is still live.
    LiveEntry(LedgerEntry),
    /// A tombstone: the key of an entry that was removed.
    DeadEntry(LedgerKey),
    /// The bucket's metadata.
    MetaEntry(BucketMetadata),
}

/// A bucket entry as a mathematical value.
pub enum BucketEntryView {
    InitEntry(LedgerEntryView),
    LiveEntry(LedgerEntryView),
    DeadEntry(LedgerKeyView),
    MetaEntry(BucketMetadata),
}

impl View for BucketEntry {
    type V = BucketEntryView;

    open spec fn view(&self) -> BucketEntryView {
        match *self {
            BucketEntry::InitEntry(e) => BucketEntryView::InitEntry(e@),
            BucketEntry::LiveEntry(e) => BucketEntryView::LiveEntry(e@),
            BucketEntry::DeadEntry(k) => BucketEntryView::DeadEntry(k@),
            BucketEntry::MetaEntry(m) => BucketEntryView::MetaEntry(m),
        }
    }
}

/// Copies a byte string.
pub fn copy_bytes(bytes: &Vec<u8>) -> (r: Vec<u8>)
    ensures
        r@ == bytes@,
{
    slice_to_vec(bytes.as_slice())
}

/// Whether two byte strings are equal.
pub fn same_bytes(a: &Vec<u8>, b: &Vec<u8>) -> (r: bool)
    ensures
        r == (a@ == b@),
{
    if a.len() != b.len() {
        return false;
    }
    let mut i: usize = 0;
    while i < a.len()
        invariant
            i <= a@.len(),
            a@.len() == b@.len(),
            a@.take(i as int) == b@.take(i as int),
        decreases a@.len() - i,
    {
        if a[i] != b[i] {
            assert(a@[i as int] != b@[i as int]);
            return false;
        }
        assert(a@.take(i + 1) =~= a@.take(i as int).push(a@[i as int]));
        assert(b@.take(i + 1) =~= b@.take(i as int).push(b@[i as int]));
        i = i + 1;
    }
    assert(a@.take(i as int) =~= a@);
    assert(b@.take(i as int) =~= b@);
    true
}

/// Whether two hashes are equal.
pub fn same_hash(a: &Hash32, b: &Hash32) -> (r: bool)
    ensures
        r == (*a == *b),
{
    broadcast use vstd::array::group_array_axioms;

    let mut i: usize = 0;
    while i < 32
        invariant
            i <= 32,
            forall|j: int| 0 <= j < i ==> a@[j] == b@[j],
        decreases 32 - i,
    {
        if a[i] != b[i] {
            assert(a@[i as int] != b@[i as int]);
            return false;
        }
        i = i + 1;
    }
    assert(*a =~= *b);
    true
}

impl LedgerKey {
    /// The kind of entry that this key names.
    pub fn kind(&self) -> (r: EntryKind)
        ensures
            r == self@.kind(),
    {
        match self {
            LedgerKey::Account { .. } => EntryKind::Account,
            LedgerKey::Trustline { .. } => EntryKind::Trustline,
            LedgerKey::Offer { .. } => EntryKind::Offer,
            LedgerKey::Data { .. } => EntryKind::Data,
            LedgerKey::ClaimableBalance { .. } => EntryKind::ClaimableBalance,
            LedgerKey::LiquidityPool { .. } => EntryKind::LiquidityPool,
            LedgerKey::ContractData { .. } => EntryKind::ContractData,
            LedgerKey::ContractCode { .. } => EntryKind::ContractCode,
            LedgerKey::ConfigSetting { .. } => EntryKind::ConfigSetting,
            LedgerKey::Ttl { .. } => EntryKind::Ttl,
        }
    }

    /// Whether two keys name the same entry: the same kind, and every field
    /// equal.
    pub fn same(&self, other: &LedgerKey) -> (r: bool)
        ensures
            r == (self@ == other@),
    {
        match (self, other) {
            (LedgerKey::Account { account_id: a }, LedgerKey::Account { account_id: b }) => {
                same_bytes(a, b)
            },
            (
                LedgerKey::Trustline { account_id: a, asset: s },
                LedgerKey::Trustline { account_id: b, asset: t },
            ) => same_bytes(a, b) && same_bytes(s, t),
            (
                LedgerKey::Offer { seller_id: a, offer_id: m },
                LedgerKey::Offer { seller_id: b, offer_id: n },
            ) => same_bytes(a, b) && *m == *n,
            (
                LedgerKey::Data { account_id: a, data_name: s },
                LedgerKey::Data { account_id: b, data_name: t },
            ) => same_bytes(a, b) && same_bytes(s, t),
            (
                LedgerKey::ClaimableBalance { balance_id: a },
                LedgerKey::ClaimableBalance { balance_id: b },
            ) => same_bytes(a, b),
            (
                LedgerKey::LiquidityPool { liquidity_pool_id: a },
                LedgerKey::LiquidityPool { liquidity_pool_id: b },
            ) => same_hash(a, b),
            (
                LedgerKey::ContractData { contract: a, key: s, durability: m },
                LedgerKey::ContractData { contract: b, key: t, durability: n },
            ) => same_bytes(a, b) && same_bytes(s, t) && *m == *n,
            (LedgerKey::ContractCode { hash: a }, LedgerKey::ContractCode { hash: b }) => {
                same_hash(a, b)
            },
            (
                LedgerKey::ConfigSetting { config_setting_id: m },
                LedgerKey::ConfigSetting { config_setting_id: n },
            ) => *m == *n,
            (LedgerKey::Ttl { key_hash: a }, LedgerKey::Ttl { key_hash: b }) => same_hash(a, b),
            _ => false,
        }
    }
}

impl LedgerEntryData {
    /// The kind of this entry.
    pub fn kind(&self) -> (r: EntryKind)
        ensures
            r == self@.kind(),
    {
        match self {
            LedgerEntryData::Account { .. } => EntryKind::Account,
            LedgerEntryData::Trustline { .. } => EntryKind::Trustline,
            LedgerEntryData::Offer { .. } => EntryKind::Offer,
            LedgerEntryData::Data { .. } => EntryKind::Data,
            LedgerEntryData::ClaimableBalance { .. } => EntryKind::ClaimableBalance,
            LedgerEntryData::LiquidityPool { .. } => EntryKind::LiquidityPool,
            LedgerEntryData::ContractData { .. } => EntryKind::ContractData,
            LedgerEntryData::ContractCode { .. } => EntryKind::ContractCode,
            LedgerEntryData::ConfigSetting { .. } => EntryKind::ConfigSetting,
            LedgerEntryData::Ttl { .. } => EntryKind::Ttl,
        }
    }
}

} // verus!
