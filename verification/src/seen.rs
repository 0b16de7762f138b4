//! The set of keys that a search has met in one bucket.
//!
//! Keys are kept in buckets by a digest of their fields. The digest only
//! decides where a key is looked for; whether two keys are the same is
//! decided by comparing their fields.
//!
//! The buckets hang in a hash map of the standard library under their
//! digest, a number, for which the map's behaviour is specified. A hash set
//! of the keys themselves would rest on the derived `Eq` and `Hash` of the
//! key, of which nothing is specified: it cannot even be shown that a key
//! put into an empty set is new to it.

use vstd::prelude::*;
use std::collections::HashMap;
use crate::entry::{LedgerKey, LedgerKeyView};
use crate::kinds::{ConfigSettingId, ContractDataDurability};

verus! {

/// The modulus of the digest: the largest prime below 2^32.
pub const DIGEST_MODULUS: u64 = 4294967291;

/// The digest after one more number.
pub open spec fn mixed(h: u64, x: int) -> u64 {
    ((h as int * 31 + x + 1) % (DIGEST_MODULUS as int)) as u64
}

/// The digest after a string of bytes, taken first to last.
pub open spec fn mixed_bytes(h: u64, bytes: Seq<u8>) -> u64
    decreases bytes.len(),
{
    if bytes.len() == 0 {
        h
    } else {
        mixed(mixed_bytes(h, bytes.drop_last()), bytes.last() as int)
    }
}

/// The digest of a key: of its kind, then of each of its fields in turn.
pub open spec fn digest(key: LedgerKeyView) -> u64 {
    match key {
        LedgerKeyView::Account { account_id } => mixed_bytes(0, account_id),
        LedgerKeyView::Trustline { account_id, asset } => mixed_bytes(
            mixed_bytes(1, account_id),
            asset,
        ),
        LedgerKeyView::Offer { seller_id, offer_id } => mixed(
            mixed_bytes(2, seller_id),
            offer_id as int % 0x1_0000_0000,
        ),
        LedgerKeyView::Data { account_id, data_name } => mixed_bytes(
            mixed_bytes(3, account_id),
            data_name,
        ),
        LedgerKeyView::ClaimableBalance { balance_id } => mixed_bytes(4, balance_id),
        LedgerKeyView::LiquidityPool { liquidity_pool_id } => mixed_bytes(5, liquidity_pool_id@),
        LedgerKeyView::ContractData { contract, key, durability } => mixed(
            mixed_bytes(mixed_bytes(6, contract), key),
            durability.code(),
        ),
        LedgerKeyView::ContractCode { hash } => mixed_bytes(7, hash@),
        LedgerKeyView::ConfigSetting { config_setting_id } => mixed(8, config_setting_id.code()),
        LedgerKeyView::Ttl { key_hash } => mixed_bytes(9, key_hash@),
    }
}

fn mix(h: u64, x: u64) -> (r: u64)
    requires
        h < DIGEST_MODULUS,
        x < 0x1_0000_0000,
    ensures
        r == mixed(h, x as int),
        r < DIGEST_MODULUS,
{
    (h * 31 + x + 1) % DIGEST_MODULUS
}

fn mix_bytes(h: u64, bytes: &[u8]) -> (r: u64)
    requires
        h < DIGEST_MODULUS,
    ensures
        r == mixed_bytes(h, bytes@),
        r < DIGEST_MODULUS,
{
    let mut acc: u64 = h;
    let mut i: usize = 0;
    while i < bytes.len()
        invariant
            i <= bytes@.len(),
            acc < DIGEST_MODULUS,
            acc == mixed_bytes(h, bytes@.take(i as int)),
        decreases bytes@.len() - i,
    {
        assert(bytes@.take(i + 1).drop_last() =~= bytes@.take(i as int));
        acc = mix(acc, bytes[i] as u64);
        i = i + 1;
    }
    assert(bytes@.take(i as int) =~= bytes@);
    acc
}

fn durability_code(durability: ContractDataDurability) -> (r: u64)
    ensures
        r == durability.code(),
{
    match durability {
        ContractDataDurability::Temporary => 0,
        ContractDataDurability::Persistent => 1,
    }
}

fn setting_code(id: ConfigSettingId) -> (r: u64)
    ensures
        r == id.code(),
{
    match id {
        ConfigSettingId::ContractMaxSizeBytes => 0,
        ConfigSettingId::ContractComputeV0 => 1,
        ConfigSettingId::ContractLedgerCostV0 => 2,
        ConfigSettingId::ContractHistoricalDataV0 => 3,
        ConfigSettingId::ContractEventsV0 => 4,
        ConfigSettingId::ContractBandwidthV0 => 5,
        ConfigSettingId::ContractCostParamsCpuInstructions => 6,
        ConfigSettingId::ContractCostParamsMemoryBytes => 7,
        ConfigSettingId::ContractDataKeySizeBytes => 8,
        ConfigSettingId::ContractDataEntrySizeBytes => 9,
        ConfigSettingId::StateArchival => 10,
        ConfigSettingId::ContractExecutionLanes => 11,
        ConfigSettingId::BucketlistSizeWindow => 12,
        ConfigSettingId::EvictionIterator => 13,
    }
}

/// Computes the digest of a key.
pub fn key_digest(key: &LedgerKey) -> (r: u64)
    ensures
        r == digest(key@),
{
    match key {
        LedgerKey::Account { account_id } => mix_bytes(0, account_id.as_slice()),
        LedgerKey::Trustline { account_id, asset } => mix_bytes(
            mix_bytes(1, account_id.as_slice()),
            asset.as_slice(),
        ),
        LedgerKey::Offer { seller_id, offer_id } => {
            let low: i64 = *offer_id % 0x1_0000_0000;
            let folded: u64 = if low < 0 {
                (low + 0x1_0000_0000) as u64
            } else {
                low as u64
            };
            mix(mix_bytes(2, seller_id.as_slice()), folded)
        },
        LedgerKey::Data { account_id, data_name } => mix_bytes(
            mix_bytes(3, account_id.as_slice()),
            data_name.as_slice(),
        ),
        LedgerKey::ClaimableBalance { balance_id } => mix_bytes(4, balance_id.as_slice()),
        LedgerKey::LiquidityPool { liquidity_pool_id } => mix_bytes(
            5,
            liquidity_pool_id.as_slice(),
        ),
        LedgerKey::ContractData { contract, key, durability } => mix(
            mix_bytes(mix_bytes(6, contract.as_slice()), key.as_slice()),
            durability_code(*durability),
        ),
        LedgerKey::ContractCode { hash } => mix_bytes(7, hash.as_slice()),
        LedgerKey::ConfigSetting { config_setting_id } => mix(8, setting_code(*config_setting_id)),
        LedgerKey::Ttl { key_hash } => mix_bytes(9, key_hash.as_slice()),
    }
}

/// Whether a key is among the keys of one bucket.
pub open spec fn holds(bucket: Seq<LedgerKey>, key: LedgerKeyView) -> bool {
    exists|i: int| 0 <= i < bucket.len() && (#[trigger] bucket[i])@ == key
}

/// The keys met so far.
pub struct SeenKeys {
    buckets: HashMap<u64, Vec<LedgerKey>>,
}

impl View for SeenKeys {
    type V = Set<LedgerKeyView>;

    closed spec fn view(&self) -> Set<LedgerKeyView> {
        Set::new(
            |key: LedgerKeyView|
                self.buckets@.contains_key(digest(key)) && holds(self.buckets@[digest(key)]@, key),
        )
    }
}

fn bucket_holds(bucket: &Vec<LedgerKey>, key: &LedgerKey) -> (r: bool)
    ensures
        r == holds(bucket@, key@),
{
    let mut i: usize = 0;
    while i < bucket.len()
        invariant
            i <= bucket@.len(),
            forall|j: int| 0 <= j < i ==> (#[trigger] bucket@[j])@ != key@,
        decreases bucket@.len() - i,
    {
        if bucket[i].same(key) {
            return true;
        }
        i = i + 1;
    }
    false
}

impl SeenKeys {
    /// The empty set.
    pub fn new() -> (r: SeenKeys)
        ensures
            r@ == Set::<LedgerKeyView>::empty(),
    {
        let r = SeenKeys { buckets: HashMap::new() };
        assert(r@ =~= Set::<LedgerKeyView>::empty());
        r
    }

    /// Whether a key has been met.
    pub fn contains(&self, key: &LedgerKey) -> (r: bool)
        ensures
            r == self@.contains(key@),
    {
        broadcast use vstd::std_specs::hash::group_hash_axioms;

        let h = key_digest(key);
        match self.buckets.get(&h) {
            Some(bucket) => bucket_holds(bucket, key),
            None => false,
        }
    }

    /// Puts a key into the set. Says whether the key is new to the set.
    pub fn insert(&mut self, key: LedgerKey) -> (r: bool)
        ensures
            final(self)@ == old(self)@.insert(key@),
            r == !old(self)@.contains(key@),
    {
        broadcast use vstd::std_specs::hash::group_hash_axioms;

        let h = key_digest(&key);
        let ghost before = self.buckets@;
        let ghost added = key@;
        let mut bucket: Vec<LedgerKey> = match self.buckets.remove(&h) {
            Some(bucket) => bucket,
            None => Vec::new(),
        };
        let ghost old_bucket = bucket@;
        assert(before.contains_key(h) ==> before[h]@ == old_bucket);
        assert(!before.contains_key(h) ==> old_bucket.len() == 0);
        let known = bucket_holds(&bucket, &key);
        if !known {
            bucket.push(key);
        }
        let ghost new_bucket = bucket@;
        self.buckets.insert(h, bucket);
        assert(self.buckets@ == before.remove(h).insert(h, bucket));
        assert forall|k: LedgerKeyView| self@.contains(k) == old(self)@.insert(added).contains(
            k,
        ) by {
            if digest(k) == h {
                if known {
                    assert(holds(new_bucket, k) == holds(old_bucket, k));
                } else {
                    if holds(old_bucket, k) {
                        let i = choose|i: int|
                            0 <= i < old_bucket.len() && (#[trigger] old_bucket[i])@ == k;
                        assert(new_bucket[i]@ == k);
                    }
                    if k == added {
                        assert(new_bucket[old_bucket.len() as int]@ == k);
                    }
                    if holds(new_bucket, k) {
                        let i = choose|i: int|
                            0 <= i < new_bucket.len() && (#[trigger] new_bucket[i])@ == k;
                        if i < old_bucket.len() {
                            assert(old_bucket[i]@ == k);
                        }
                    }
                }
            }
        }
        assert(self@ =~= old(self)@.insert(added));
        !known
    }
}

} // verus!
