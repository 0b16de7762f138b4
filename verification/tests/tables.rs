use bucket_stream::classify::{copy_key, data_into_key, entry_key, keep, setting_id};
use bucket_stream::entry::{
    copy_bytes, same_bytes, BucketEntry, BucketMetadata, LedgerEntry, LedgerEntryData, LedgerKey,
};
use bucket_stream::kinds::{ConfigSettingEntry, ConfigSettingId, ContractDataDurability, EntryKind};
use bucket_stream::report::{
    cause, decode_cause, decode_failure, failure_line, search_failure, FileError,
};
use bucket_stream::codec::DecodeError;
use bucket_stream::rewrite::{slim_extension, Rewritten};
use bucket_stream::search::SearchError;
use bucket_stream::seen::{key_digest, SeenKeys};
use bucket_stream::text::{decimal_text, hex_lower};

fn every_kind() -> Vec<EntryKind> {
    vec![
        EntryKind::Account,
        EntryKind::Trustline,
        EntryKind::Offer,
        EntryKind::Data,
        EntryKind::ClaimableBalance,
        EntryKind::LiquidityPool,
        EntryKind::ContractData,
        EntryKind::ContractCode,
        EntryKind::ConfigSetting,
        EntryKind::Ttl,
    ]
}

fn data_of_kind(kind: EntryKind) -> LedgerEntryData {
    match kind {
        EntryKind::Account => LedgerEntryData::Account { account_id: vec![1] },
        EntryKind::Trustline => LedgerEntryData::Trustline { account_id: vec![1], asset: vec![2] },
        EntryKind::Offer => LedgerEntryData::Offer { seller_id: vec![1], offer_id: 5 },
        EntryKind::Data => LedgerEntryData::Data { account_id: vec![1], data_name: vec![3] },
        EntryKind::ClaimableBalance => LedgerEntryData::ClaimableBalance { balance_id: vec![4] },
        EntryKind::LiquidityPool => LedgerEntryData::LiquidityPool { liquidity_pool_id: [5; 32] },
        EntryKind::ContractData => LedgerEntryData::ContractData {
            contract: vec![6],
            key: vec![7],
            durability: ContractDataDurability::Temporary,
        },
        EntryKind::ContractCode => LedgerEntryData::ContractCode { hash: [8; 32], code: vec![9, 9] },
        EntryKind::ConfigSetting => LedgerEntryData::ConfigSetting {
            setting: ConfigSettingEntry::StateArchival,
        },
        EntryKind::Ttl => LedgerEntryData::Ttl { key_hash: [10; 32] },
    }
}

fn key_of_kind(kind: EntryKind) -> LedgerKey {
    match kind {
        EntryKind::Account => LedgerKey::Account { account_id: vec![1] },
        EntryKind::Trustline => LedgerKey::Trustline { account_id: vec![1], asset: vec![2] },
        EntryKind::Offer => LedgerKey::Offer { seller_id: vec![1], offer_id: 5 },
        EntryKind::Data => LedgerKey::Data { account_id: vec![1], data_name: vec![3] },
        EntryKind::ClaimableBalance => LedgerKey::ClaimableBalance { balance_id: vec![4] },
        EntryKind::LiquidityPool => LedgerKey::LiquidityPool { liquidity_pool_id: [5; 32] },
        EntryKind::ContractData => LedgerKey::ContractData {
            contract: vec![6],
            key: vec![7],
            durability: ContractDataDurability::Temporary,
        },
        EntryKind::ContractCode => LedgerKey::ContractCode { hash: [8; 32] },
        EntryKind::ConfigSetting => LedgerKey::ConfigSetting {
            config_setting_id: ConfigSettingId::StateArchival,
        },
        EntryKind::Ttl => LedgerKey::Ttl { key_hash: [10; 32] },
    }
}

fn entry_of(data: LedgerEntryData) -> LedgerEntry {
    LedgerEntry { last_modified_ledger_seq: 1, data, sponsoring_id: None }
}

#[test]
fn entry_kinds_have_the_discriminants_of_the_encoding() {
    let codes: Vec<i32> = every_kind().into_iter().map(|k| k.to_code()).collect();
    assert_eq!(codes, vec![0, 1, 2, 3, 4, 5, 6, 7, 8, 9]);
    for kind in every_kind() {
        assert_eq!(EntryKind::from_code(kind.to_code()), Some(kind));
    }
    assert_eq!(EntryKind::from_code(10), None);
    assert_eq!(EntryKind::from_code(-1), None);
}

#[test]
fn durability_and_setting_are_read_from_their_discriminants() {
    assert_eq!(ContractDataDurability::from_code(0), Some(ContractDataDurability::Temporary));
    assert_eq!(ContractDataDurability::from_code(1), Some(ContractDataDurability::Persistent));
    assert_eq!(ContractDataDurability::from_code(2), None);
    assert_eq!(ConfigSettingId::from_code(0), Some(ConfigSettingId::ContractMaxSizeBytes));
    assert_eq!(ConfigSettingId::from_code(12), Some(ConfigSettingId::BucketlistSizeWindow));
    assert_eq!(ConfigSettingId::from_code(13), Some(ConfigSettingId::EvictionIterator));
    assert_eq!(ConfigSettingId::from_code(14), None);
    assert_eq!(ConfigSettingEntry::from_code(10), Some(ConfigSettingEntry::StateArchival));
    assert_eq!(ConfigSettingEntry::from_code(-3), None);
}

#[test]
fn each_setting_entry_names_its_setting() {
    for code in 0..14 {
        let entry = ConfigSettingEntry::from_code(code).unwrap();
        assert_eq!(Some(setting_id(entry)), ConfigSettingId::from_code(code));
    }
}

#[test]
fn projection_of_every_kind_is_the_key_of_that_kind() {
    for kind in every_kind() {
        let entry = entry_of(data_of_kind(kind));
        let key = data_into_key(&entry);
        assert_eq!(key, key_of_kind(kind));
        assert_eq!(key.kind(), kind);
        assert_eq!(entry.data.kind(), kind);
    }
}

#[test]
fn projection_leaves_out_what_is_no_identity() {
    let a = entry_of(LedgerEntryData::ContractCode { hash: [8; 32], code: vec![1] });
    let mut b = entry_of(LedgerEntryData::ContractCode { hash: [8; 32], code: vec![2, 3] });
    b.last_modified_ledger_seq = 99;
    b.sponsoring_id = Some("GABC".to_string());
    assert_eq!(data_into_key(&a), data_into_key(&b));
}

#[test]
fn entry_and_tombstone_are_kept_or_dropped_together() {
    let kept = vec![
        EntryKind::ContractData,
        EntryKind::ContractCode,
        EntryKind::ConfigSetting,
        EntryKind::Trustline,
        EntryKind::Account,
    ];
    for kind in every_kind() {
        let expected = kept.contains(&kind);
        assert_eq!(keep(&BucketEntry::LiveEntry(entry_of(data_of_kind(kind)))), expected);
        assert_eq!(keep(&BucketEntry::InitEntry(entry_of(data_of_kind(kind)))), expected);
        assert_eq!(keep(&BucketEntry::DeadEntry(key_of_kind(kind))), expected);
    }
    assert!(keep(&BucketEntry::MetaEntry(BucketMetadata { ledger_version: 1 })));
}

#[test]
fn metadata_occupies_no_key() {
    assert_eq!(entry_key(&BucketEntry::MetaEntry(BucketMetadata { ledger_version: 1 })), None);
    assert_eq!(
        entry_key(&BucketEntry::DeadEntry(key_of_kind(EntryKind::Offer))),
        Some(key_of_kind(EntryKind::Offer)),
    );
    assert_eq!(
        entry_key(&BucketEntry::InitEntry(entry_of(data_of_kind(EntryKind::Ttl)))),
        Some(key_of_kind(EntryKind::Ttl)),
    );
}

#[test]
fn keys_are_the_same_when_kind_and_fields_are() {
    for a in every_kind() {
        for b in every_kind() {
            assert_eq!(key_of_kind(a).same(&key_of_kind(b)), a == b);
        }
        assert!(copy_key(&key_of_kind(a)).same(&key_of_kind(a)));
    }
    let x = LedgerKey::Trustline { account_id: vec![1], asset: vec![2] };
    let y = LedgerKey::Trustline { account_id: vec![1], asset: vec![3] };
    let z = LedgerKey::Data { account_id: vec![1], data_name: vec![2] };
    assert!(!x.same(&y));
    assert!(!x.same(&z));
    let m = LedgerKey::Offer { seller_id: vec![1], offer_id: -1 };
    let n = LedgerKey::Offer { seller_id: vec![1], offer_id: 4294967295 };
    assert!(!m.same(&n));
}

#[test]
fn bytes_are_compared_and_copied_whole() {
    assert!(same_bytes(&vec![], &vec![]));
    assert!(same_bytes(&vec![1, 2, 3], &vec![1, 2, 3]));
    assert!(!same_bytes(&vec![1, 2, 3], &vec![1, 2]));
    assert!(!same_bytes(&vec![1, 2, 3], &vec![1, 2, 4]));
    assert_eq!(copy_bytes(&vec![9, 8, 7]), vec![9, 8, 7]);
}

#[test]
fn seen_set_tells_a_new_key_from_one_it_holds() {
    let mut seen = SeenKeys::new();
    assert!(!seen.contains(&key_of_kind(EntryKind::Account)));
    assert!(seen.insert(key_of_kind(EntryKind::Account)));
    assert!(seen.contains(&key_of_kind(EntryKind::Account)));
    assert!(!seen.contains(&LedgerKey::Ttl { key_hash: [10; 32] }));
    let mut other = [10u8; 32];
    other[31] = 11;
    assert!(seen.insert(LedgerKey::Ttl { key_hash: other }));
    assert!(!seen.contains(&LedgerKey::Ttl { key_hash: [10; 32] }));
    assert!(!seen.insert(key_of_kind(EntryKind::Account)));
    assert!(!seen.contains(&LedgerKey::Account { account_id: vec![2] }));
    for kind in every_kind() {
        seen.insert(key_of_kind(kind));
    }
    for kind in every_kind() {
        assert!(seen.contains(&key_of_kind(kind)));
        assert!(!seen.insert(key_of_kind(kind)));
    }
}

#[test]
fn seen_set_keeps_keys_with_one_digest_apart() {
    let m = LedgerKey::Offer { seller_id: vec![1], offer_id: -1 };
    let n = LedgerKey::Offer { seller_id: vec![1], offer_id: 4294967295 };
    assert_eq!(key_digest(&m), key_digest(&n));
    let mut seen = SeenKeys::new();
    assert!(seen.insert(m.clone()));
    assert!(!seen.contains(&n));
    assert!(seen.insert(n.clone()));
    assert!(seen.contains(&m));
    assert!(seen.contains(&n));
}

#[test]
fn digest_follows_the_formula() {
    assert_eq!(key_digest(&LedgerKey::Account { account_id: vec![] }), 0);
    assert_eq!(key_digest(&LedgerKey::Account { account_id: vec![5] }), 6);
    assert_eq!(key_digest(&LedgerKey::Offer { seller_id: vec![0, 255], offer_id: 3 }), 68483);
    assert_eq!(key_digest(&LedgerKey::Ttl { key_hash: [0; 32] }), 4117418260);
    assert_eq!(
        key_digest(&LedgerKey::ConfigSetting { config_setting_id: ConfigSettingId::EvictionIterator }),
        8 * 31 + 13 + 1,
    );
    assert_eq!(key_digest(&LedgerKey::ContractCode { hash: [255; 32] }), 2610834431);
}

#[test]
fn decimal_and_hex_texts() {
    assert_eq!(decimal_text(0), "0");
    assert_eq!(decimal_text(9), "9");
    assert_eq!(decimal_text(10), "10");
    assert_eq!(decimal_text(4294967295), "4294967295");
    assert_eq!(hex_lower(&[0xde, 0xad, 0x00]), "dead00");
}

#[test]
fn every_failure_has_its_cause_in_words() {
    assert_eq!(
        decode_cause(DecodeError::TruncatedPrefix),
        "Failed to read entry: the length prefix is cut short",
    );
    assert_eq!(
        decode_cause(DecodeError::TruncatedPayload),
        "Failed to read entry: the record is shorter than its length prefix declares",
    );
    assert_eq!(
        decode_cause(DecodeError::Malformed),
        "Failed to read entry: the payload is not one bucket entry, or is nested too deeply",
    );
    assert_eq!(cause(&FileError::Encode), "Failed to encode entry as XDR");
    assert_eq!(
        cause(&FileError::Decode(DecodeError::Malformed)),
        decode_cause(DecodeError::Malformed),
    );
    assert_eq!(
        cause(&FileError::Io("Failed to read input file: gone".to_string())),
        "Failed to read input file: gone",
    );
}

#[test]
fn stopped_reading_and_stopped_search_are_failures_of_the_file() {
    assert_eq!(decode_failure(None), None);
    assert_eq!(
        decode_failure(Some(DecodeError::TruncatedPayload)),
        Some(FileError::Decode(DecodeError::TruncatedPayload)),
    );
    assert_eq!(search_failure(None), None);
    assert_eq!(search_failure(Some(SearchError::Encode)), Some(FileError::Encode));
    assert_eq!(
        search_failure(Some(SearchError::Decode(DecodeError::Malformed))),
        Some(FileError::Decode(DecodeError::Malformed)),
    );
}

#[test]
fn failure_line_names_the_file_and_the_cause() {
    assert_eq!(
        failure_line("a/b.bucket", &FileError::Io("Failed to read input file: gone".to_string())),
        "Error processing a/b.bucket: Failed to read input file: gone",
    );
    assert_eq!(
        failure_line("c.bucket", &FileError::Decode(DecodeError::TruncatedPrefix)),
        "Error processing c.bucket: Failed to read entry: the length prefix is cut short",
    );
}

#[test]
fn failed_bucket_without_kept_records_leaves_no_output() {
    let none = Rewritten { bytes: vec![], error: None };
    let partial = Rewritten { bytes: vec![1], error: Some(DecodeError::Malformed) };
    let nothing = Rewritten { bytes: vec![], error: Some(DecodeError::TruncatedPrefix) };
    assert!(none.has_output());
    assert!(partial.has_output());
    assert!(!nothing.has_output());
    assert_eq!(slim_extension(), "slim");
}
