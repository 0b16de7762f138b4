use bucket_stream::classify::{data_into_key, entry_key, is_sponsored_by, keep};
use bucket_stream::decode::decode_entry;
use bucket_stream::entry::{BucketEntry, BucketMetadata, LedgerEntry, LedgerEntryData, LedgerKey};
use bucket_stream::extract::{extract, wasm_file};
use bucket_stream::text::hex_lower;
use bucket_stream::kinds::{ConfigSettingEntry, ConfigSettingId, ContractDataDurability};
use bucket_stream::codec::{decode_next, encode, DecodeError, EncodeError, Frame};
use bucket_stream::rewrite::rewrite;
use bucket_stream::search::{search, SearchError};
use bucket_stream::reader::{read_all, BucketReader};
use bucket_stream::xdr::MAX_DEPTH;
use stellar_xdr::curr as xdr;
use stellar_xdr::curr::{Limits, ReadXdr, WriteXdr};

fn account(n: u8) -> xdr::AccountId {
    xdr::AccountId(xdr::PublicKey::PublicKeyTypeEd25519(xdr::Uint256([n; 32])))
}

fn bytes_of<T: WriteXdr>(value: &T) -> Vec<u8> {
    value.to_xdr(Limits::none()).unwrap()
}

fn ledger_entry(data: xdr::LedgerEntryData, sponsor: Option<xdr::AccountId>) -> xdr::LedgerEntry {
    let ext = match sponsor {
        Some(id) => xdr::LedgerEntryExt::V1(xdr::LedgerEntryExtensionV1 {
            sponsoring_id: xdr::SponsorshipDescriptor(Some(id)),
            ext: xdr::LedgerEntryExtensionV1Ext::V0,
        }),
        None => xdr::LedgerEntryExt::V0,
    };
    xdr::LedgerEntry { last_modified_ledger_seq: 77, data, ext }
}

fn account_data(n: u8) -> xdr::LedgerEntryData {
    xdr::LedgerEntryData::Account(xdr::AccountEntry {
        account_id: account(n),
        balance: 1000,
        seq_num: xdr::SequenceNumber(5),
        num_sub_entries: 0,
        inflation_dest: None,
        flags: 0,
        home_domain: xdr::String32("example.org".try_into().unwrap()),
        thresholds: xdr::Thresholds([1, 0, 0, 0]),
        signers: Vec::new().try_into().unwrap(),
        ext: xdr::AccountEntryExt::V0,
    })
}

fn usd(issuer: u8) -> xdr::AlphaNum4 {
    xdr::AlphaNum4 { asset_code: xdr::AssetCode4(*b"USD\0"), issuer: account(issuer) }
}

fn trustline_data(n: u8) -> xdr::LedgerEntryData {
    xdr::LedgerEntryData::Trustline(xdr::TrustLineEntry {
        account_id: account(n),
        asset: xdr::TrustLineAsset::CreditAlphanum4(usd(9)),
        balance: 3,
        limit: 10,
        flags: 1,
        ext: xdr::TrustLineEntryExt::V0,
    })
}

fn offer_data(seller: u8, offer_id: i64) -> xdr::LedgerEntryData {
    xdr::LedgerEntryData::Offer(xdr::OfferEntry {
        seller_id: account(seller),
        offer_id,
        selling: xdr::Asset::Native,
        buying: xdr::Asset::CreditAlphanum4(usd(9)),
        amount: 50,
        price: xdr::Price { n: 1, d: 2 },
        flags: 0,
        ext: xdr::OfferEntryExt::V0,
    })
}

fn data_data(n: u8, name: &str) -> xdr::LedgerEntryData {
    xdr::LedgerEntryData::Data(xdr::DataEntry {
        account_id: account(n),
        data_name: xdr::String64(name.try_into().unwrap()),
        data_value: xdr::DataValue(vec![1u8, 2, 3].try_into().unwrap()),
        ext: xdr::DataEntryExt::V0,
    })
}

fn balance_id(n: u8) -> xdr::ClaimableBalanceId {
    xdr::ClaimableBalanceId::ClaimableBalanceIdTypeV0(xdr::Hash([n; 32]))
}

fn claimable_balance_data(n: u8) -> xdr::LedgerEntryData {
    xdr::LedgerEntryData::ClaimableBalance(xdr::ClaimableBalanceEntry {
        balance_id: balance_id(n),
        claimants: Vec::new().try_into().unwrap(),
        asset: xdr::Asset::Native,
        amount: 12,
        ext: xdr::ClaimableBalanceEntryExt::V0,
    })
}

fn liquidity_pool_data(n: u8) -> xdr::LedgerEntryData {
    xdr::LedgerEntryData::LiquidityPool(xdr::LiquidityPoolEntry {
        liquidity_pool_id: xdr::PoolId(xdr::Hash([n; 32])),
        body: xdr::LiquidityPoolEntryBody::LiquidityPoolConstantProduct(
            xdr::LiquidityPoolEntryConstantProduct {
                params: xdr::LiquidityPoolConstantProductParameters {
                    asset_a: xdr::Asset::Native,
                    asset_b: xdr::Asset::CreditAlphanum4(usd(9)),
                    fee: 30,
                },
                reserve_a: 1,
                reserve_b: 2,
                total_pool_shares: 3,
                pool_shares_trust_line_count: 4,
            },
        ),
    })
}

fn contract(n: u8) -> xdr::ScAddress {
    xdr::ScAddress::Contract(xdr::Hash([n; 32]))
}

fn contract_data_data(n: u8, key: u32) -> xdr::LedgerEntryData {
    xdr::LedgerEntryData::ContractData(xdr::ContractDataEntry {
        ext: xdr::ExtensionPoint::V0,
        contract: contract(n),
        key: xdr::ScVal::U32(key),
        durability: xdr::ContractDataDurability::Persistent,
        val: xdr::ScVal::Bool(true),
    })
}

fn contract_code_data(hash: [u8; 32], code: &[u8]) -> xdr::LedgerEntryData {
    xdr::LedgerEntryData::ContractCode(xdr::ContractCodeEntry {
        ext: xdr::ContractCodeEntryExt::V0,
        hash: xdr::Hash(hash),
        code: code.to_vec().try_into().unwrap(),
    })
}

fn config_setting_data() -> xdr::LedgerEntryData {
    xdr::LedgerEntryData::ConfigSetting(xdr::ConfigSettingEntry::ContractDataKeySizeBytes(300))
}

fn ttl_data(n: u8) -> xdr::LedgerEntryData {
    xdr::LedgerEntryData::Ttl(xdr::TtlEntry { key_hash: xdr::Hash([n; 32]), live_until_ledger_seq: 9 })
}

fn live(data: xdr::LedgerEntryData) -> xdr::BucketEntry {
    xdr::BucketEntry::Liveentry(ledger_entry(data, None))
}

fn live_sponsored(data: xdr::LedgerEntryData, sponsor: u8) -> xdr::BucketEntry {
    xdr::BucketEntry::Liveentry(ledger_entry(data, Some(account(sponsor))))
}

fn init(data: xdr::LedgerEntryData) -> xdr::BucketEntry {
    xdr::BucketEntry::Initentry(ledger_entry(data, None))
}

fn dead(key: xdr::LedgerKey) -> xdr::BucketEntry {
    xdr::BucketEntry::Deadentry(key)
}

fn meta(version: u32) -> xdr::BucketEntry {
    xdr::BucketEntry::Metaentry(xdr::BucketMetadata {
        ledger_version: version,
        ext: xdr::BucketMetadataExt::V0,
    })
}

fn contract_data_key(n: u8, key: u32) -> xdr::LedgerKey {
    xdr::LedgerKey::ContractData(xdr::LedgerKeyContractData {
        contract: contract(n),
        key: xdr::ScVal::U32(key),
        durability: xdr::ContractDataDurability::Persistent,
    })
}

fn record(entry: &xdr::BucketEntry) -> Vec<u8> {
    let payload = bytes_of(entry);
    let mut out = ((payload.len() as u32) | 0x8000_0000).to_be_bytes().to_vec();
    out.extend_from_slice(&payload);
    out
}

fn bucket(entries: &[xdr::BucketEntry]) -> Vec<u8> {
    let mut out = Vec::new();
    for entry in entries {
        out.extend_from_slice(&record(entry));
    }
    out
}

fn decoded(entry: &xdr::BucketEntry) -> BucketEntry {
    decode_entry(&bytes_of(entry)).unwrap()
}

fn stored(data: LedgerEntryData) -> LedgerEntry {
    LedgerEntry { last_modified_ledger_seq: 77, data, sponsoring_id: None }
}

#[test]
fn account_entry_is_decoded_with_its_account() {
    let expected = LedgerEntryData::Account { account_id: bytes_of(&account(1)) };
    assert_eq!(decoded(&live(account_data(1))), BucketEntry::LiveEntry(stored(expected.clone())));
    assert_eq!(decoded(&init(account_data(1))), BucketEntry::InitEntry(stored(expected)));
}

#[test]
fn account_id_is_held_in_its_xdr_form() {
    let mut id = vec![0u8, 0, 0, 0];
    id.extend_from_slice(&[1u8; 32]);
    assert_eq!(
        decoded(&live(account_data(1))),
        BucketEntry::LiveEntry(stored(LedgerEntryData::Account { account_id: id })),
    );
}

#[test]
fn trustline_entry_is_decoded_with_account_and_asset() {
    let asset = xdr::TrustLineAsset::CreditAlphanum4(usd(9));
    assert_eq!(
        decoded(&live(trustline_data(2))),
        BucketEntry::LiveEntry(stored(LedgerEntryData::Trustline {
            account_id: bytes_of(&account(2)),
            asset: bytes_of(&asset),
        })),
    );
}

#[test]
fn offer_entry_is_decoded_with_seller_and_number() {
    assert_eq!(
        decoded(&live(offer_data(3, -42))),
        BucketEntry::LiveEntry(stored(LedgerEntryData::Offer {
            seller_id: bytes_of(&account(3)),
            offer_id: -42,
        })),
    );
}

#[test]
fn data_entry_is_decoded_with_account_and_name() {
    let name = xdr::String64("colour".try_into().unwrap());
    assert_eq!(
        decoded(&live(data_data(4, "colour"))),
        BucketEntry::LiveEntry(stored(LedgerEntryData::Data {
            account_id: bytes_of(&account(4)),
            data_name: bytes_of(&name),
        })),
    );
}

#[test]
fn claimable_balance_entry_is_decoded_with_its_id() {
    assert_eq!(
        decoded(&live(claimable_balance_data(5))),
        BucketEntry::LiveEntry(stored(LedgerEntryData::ClaimableBalance {
            balance_id: bytes_of(&balance_id(5)),
        })),
    );
}

#[test]
fn liquidity_pool_entry_is_decoded_with_its_id() {
    assert_eq!(
        decoded(&live(liquidity_pool_data(6))),
        BucketEntry::LiveEntry(stored(LedgerEntryData::LiquidityPool {
            liquidity_pool_id: [6u8; 32],
        })),
    );
}

#[test]
fn contract_data_entry_is_decoded_with_contract_key_and_durability() {
    assert_eq!(
        decoded(&live(contract_data_data(7, 11))),
        BucketEntry::LiveEntry(stored(LedgerEntryData::ContractData {
            contract: bytes_of(&contract(7)),
            key: bytes_of(&xdr::ScVal::U32(11)),
            durability: ContractDataDurability::Persistent,
        })),
    );
}

#[test]
fn contract_code_entry_is_decoded_with_hash_and_code() {
    assert_eq!(
        decoded(&live(contract_code_data([8; 32], &[0, 97, 115, 109]))),
        BucketEntry::LiveEntry(stored(LedgerEntryData::ContractCode {
            hash: [8u8; 32],
            code: vec![0, 97, 115, 109],
        })),
    );
}

#[test]
fn config_setting_entry_is_decoded_with_its_setting() {
    assert_eq!(
        decoded(&live(config_setting_data())),
        BucketEntry::LiveEntry(stored(LedgerEntryData::ConfigSetting {
            setting: ConfigSettingEntry::ContractDataKeySizeBytes,
        })),
    );
}

#[test]
fn ttl_entry_is_decoded_with_its_key_hash() {
    assert_eq!(
        decoded(&live(ttl_data(10))),
        BucketEntry::LiveEntry(stored(LedgerEntryData::Ttl { key_hash: [10u8; 32] })),
    );
}

#[test]
fn every_kind_of_key_is_decoded() {
    let asset = xdr::TrustLineAsset::CreditAlphanum4(usd(9));
    let name = xdr::String64("colour".try_into().unwrap());
    let cases = vec![
        (
            xdr::LedgerKey::Account(xdr::LedgerKeyAccount { account_id: account(1) }),
            LedgerKey::Account { account_id: bytes_of(&account(1)) },
        ),
        (
            xdr::LedgerKey::Trustline(xdr::LedgerKeyTrustLine {
                account_id: account(2),
                asset: asset.clone(),
            }),
            LedgerKey::Trustline { account_id: bytes_of(&account(2)), asset: bytes_of(&asset) },
        ),
        (
            xdr::LedgerKey::Offer(xdr::LedgerKeyOffer { seller_id: account(3), offer_id: 8 }),
            LedgerKey::Offer { seller_id: bytes_of(&account(3)), offer_id: 8 },
        ),
        (
            xdr::LedgerKey::Data(xdr::LedgerKeyData {
                account_id: account(4),
                data_name: name.clone(),
            }),
            LedgerKey::Data { account_id: bytes_of(&account(4)), data_name: bytes_of(&name) },
        ),
        (
            xdr::LedgerKey::ClaimableBalance(xdr::LedgerKeyClaimableBalance {
                balance_id: balance_id(5),
            }),
            LedgerKey::ClaimableBalance { balance_id: bytes_of(&balance_id(5)) },
        ),
        (
            xdr::LedgerKey::LiquidityPool(xdr::LedgerKeyLiquidityPool {
                liquidity_pool_id: xdr::PoolId(xdr::Hash([6; 32])),
            }),
            LedgerKey::LiquidityPool { liquidity_pool_id: [6u8; 32] },
        ),
        (
            xdr::LedgerKey::ContractData(xdr::LedgerKeyContractData {
                contract: contract(7),
                key: xdr::ScVal::U32(11),
                durability: xdr::ContractDataDurability::Temporary,
            }),
            LedgerKey::ContractData {
                contract: bytes_of(&contract(7)),
                key: bytes_of(&xdr::ScVal::U32(11)),
                durability: ContractDataDurability::Temporary,
            },
        ),
        (
            xdr::LedgerKey::ContractCode(xdr::LedgerKeyContractCode { hash: xdr::Hash([8; 32]) }),
            LedgerKey::ContractCode { hash: [8u8; 32] },
        ),
        (
            xdr::LedgerKey::ConfigSetting(xdr::LedgerKeyConfigSetting {
                config_setting_id: xdr::ConfigSettingId::EvictionIterator,
            }),
            LedgerKey::ConfigSetting { config_setting_id: ConfigSettingId::EvictionIterator },
        ),
        (
            xdr::LedgerKey::Ttl(xdr::LedgerKeyTtl { key_hash: xdr::Hash([10; 32]) }),
            LedgerKey::Ttl { key_hash: [10u8; 32] },
        ),
    ];
    for (key, expected) in cases {
        assert_eq!(decoded(&dead(key)), BucketEntry::DeadEntry(expected));
    }
}

#[test]
fn metadata_is_decoded_with_its_version() {
    assert_eq!(decoded(&meta(22)), BucketEntry::MetaEntry(BucketMetadata { ledger_version: 22 }));
}

#[test]
fn sponsor_is_decoded_as_its_address() {
    let entry = decoded(&live_sponsored(account_data(1), 3));
    let address = account(3).to_string();
    assert_eq!(address.len(), 56);
    assert!(address.starts_with('G'));
    match entry {
        BucketEntry::LiveEntry(e) => assert_eq!(e.sponsoring_id, Some(address)),
        _ => panic!("a live entry was encoded"),
    }
}

#[test]
fn extension_without_a_sponsor_gives_none() {
    let mut entry = ledger_entry(account_data(1), None);
    entry.ext = xdr::LedgerEntryExt::V1(xdr::LedgerEntryExtensionV1 {
        sponsoring_id: xdr::SponsorshipDescriptor(None),
        ext: xdr::LedgerEntryExtensionV1Ext::V0,
    });
    match decoded(&xdr::BucketEntry::Initentry(entry)) {
        BucketEntry::InitEntry(e) => {
            assert_eq!(e.sponsoring_id, None);
            assert_eq!(e.last_modified_ledger_seq, 77);
        }
        _ => panic!("a created entry was encoded"),
    }
}

#[test]
fn every_setting_entry_is_decoded_to_its_own_setting() {
    let settings = vec![
        (xdr::ConfigSettingEntry::ContractMaxSizeBytes(1), ConfigSettingEntry::ContractMaxSizeBytes),
        (
            xdr::ConfigSettingEntry::ContractDataEntrySizeBytes(2),
            ConfigSettingEntry::ContractDataEntrySizeBytes,
        ),
        (
            xdr::ConfigSettingEntry::BucketlistSizeWindow(vec![1u64, 2].try_into().unwrap()),
            ConfigSettingEntry::BucketlistSizeWindow,
        ),
        (
            xdr::ConfigSettingEntry::EvictionIterator(xdr::EvictionIterator {
                bucket_list_level: 1,
                is_curr_bucket: true,
                bucket_file_offset: 9,
            }),
            ConfigSettingEntry::EvictionIterator,
        ),
    ];
    for (setting, expected) in settings {
        assert_eq!(
            decoded(&live(xdr::LedgerEntryData::ConfigSetting(setting))),
            BucketEntry::LiveEntry(stored(LedgerEntryData::ConfigSetting { setting: expected })),
        );
    }
}

#[test]
fn nested_storage_key_is_decoded_whole() {
    let inner = xdr::ScVal::Vec(Some(xdr::ScVec(
        vec![xdr::ScVal::Bool(true), xdr::ScVal::I64(-5)].try_into().unwrap(),
    )));
    let key = xdr::ScVal::Vec(Some(xdr::ScVec(vec![inner, xdr::ScVal::Void].try_into().unwrap())));
    let data = xdr::LedgerEntryData::ContractData(xdr::ContractDataEntry {
        ext: xdr::ExtensionPoint::V0,
        contract: xdr::ScAddress::Account(account(4)),
        key: key.clone(),
        durability: xdr::ContractDataDurability::Temporary,
        val: xdr::ScVal::U64(7),
    });
    assert_eq!(
        decoded(&live(data)),
        BucketEntry::LiveEntry(stored(LedgerEntryData::ContractData {
            contract: bytes_of(&xdr::ScAddress::Account(account(4))),
            key: bytes_of(&key),
            durability: ContractDataDurability::Temporary,
        })),
    );
}

#[test]
fn projection_of_each_entry_is_the_key_the_codec_knows() {
    let pairs = vec![
        (account_data(1), xdr::LedgerKey::Account(xdr::LedgerKeyAccount { account_id: account(1) })),
        (offer_data(3, 8), xdr::LedgerKey::Offer(xdr::LedgerKeyOffer { seller_id: account(3), offer_id: 8 })),
        (contract_data_data(7, 11), contract_data_key(7, 11)),
        (
            contract_code_data([8; 32], &[1, 2]),
            xdr::LedgerKey::ContractCode(xdr::LedgerKeyContractCode { hash: xdr::Hash([8; 32]) }),
        ),
        (
            config_setting_data(),
            xdr::LedgerKey::ConfigSetting(xdr::LedgerKeyConfigSetting {
                config_setting_id: xdr::ConfigSettingId::ContractDataKeySizeBytes,
            }),
        ),
        (ttl_data(10), xdr::LedgerKey::Ttl(xdr::LedgerKeyTtl { key_hash: xdr::Hash([10; 32]) })),
    ];
    for (data, key) in pairs {
        let entry = match decoded(&live(data)) {
            BucketEntry::LiveEntry(e) => e,
            _ => panic!("a live entry was encoded"),
        };
        assert_eq!(BucketEntry::DeadEntry(data_into_key(&entry)), decoded(&dead(key)));
    }
}

#[test]
fn payload_that_is_no_entry_is_refused() {
    assert_eq!(decode_entry(&[]), None);
    assert_eq!(decode_entry(&[0, 0, 0, 9]), None);
    assert_eq!(decode_entry(&[1, 2, 3, 4, 5]), None);
}

#[test]
fn payload_with_bytes_left_over_is_refused() {
    let mut payload = bytes_of(&meta(22));
    assert!(decode_entry(&payload).is_some());
    payload.extend_from_slice(&[0, 0, 0, 0]);
    assert_eq!(decode_entry(&payload), None);
}

#[test]
fn payload_cut_short_is_refused() {
    let payload = bytes_of(&live(account_data(1)));
    assert_eq!(decode_entry(&payload[..payload.len() - 4]), None);
}

#[test]
fn unknown_entry_type_is_refused() {
    let mut payload = bytes_of(&live(account_data(1)));
    payload[3] = 7;
    assert_eq!(decode_entry(&payload), None);
}

#[test]
fn decode_next_walks_the_records() {
    let buffer = bucket(&[meta(22), live(account_data(1))]);
    let (first, next) = decode_next(&buffer, 0).unwrap().unwrap();
    assert_eq!(first.entry, BucketEntry::MetaEntry(BucketMetadata { ledger_version: 22 }));
    assert_eq!(first.payload, bytes_of(&meta(22)));
    assert_eq!(next, 4 + first.payload.len());
    let (second, end) = decode_next(&buffer, next).unwrap().unwrap();
    assert_eq!(second.entry, decoded(&live(account_data(1))));
    assert_eq!(end, buffer.len());
    assert_eq!(decode_next(&buffer, end), Ok(None));
    assert_eq!(decode_next(&buffer, end + 10), Ok(None));
}

#[test]
fn decode_next_tells_the_errors_apart() {
    let buffer = record(&meta(22));
    assert_eq!(decode_next(&buffer[..3], 0), Err(DecodeError::TruncatedPrefix));
    assert_eq!(decode_next(&buffer[..buffer.len() - 1], 0), Err(DecodeError::TruncatedPayload));
    let mut wrong = buffer.clone();
    wrong[7] = 5;
    assert_eq!(decode_next(&wrong, 0), Err(DecodeError::Malformed));
    let mut long = buffer.clone();
    long[3] += 4;
    long.extend_from_slice(&[0, 0, 0, 0]);
    assert_eq!(decode_next(&long, 0), Err(DecodeError::Malformed));
}

#[test]
fn encode_then_decode_gives_the_record_back() {
    let entries = vec![
        meta(22),
        init(account_data(1)),
        live(trustline_data(2)),
        live(offer_data(3, 8)),
        live(data_data(4, "colour")),
        live(claimable_balance_data(5)),
        live(liquidity_pool_data(6)),
        live_sponsored(contract_data_data(7, 11), 3),
        live(contract_code_data([8; 32], &[0, 97, 115, 109])),
        live(config_setting_data()),
        live(ttl_data(10)),
        dead(contract_data_key(7, 11)),
    ];
    for entry in entries {
        let (frame, _) = decode_next(&record(&entry), 0).unwrap().unwrap();
        let bytes = encode(&frame).unwrap();
        assert_eq!(bytes, record(&entry));
        let (again, next) = decode_next(&bytes, 0).unwrap().unwrap();
        assert_eq!(again, frame);
        assert_eq!(next, bytes.len());
    }
}

#[test]
fn encoded_record_is_read_by_the_codec_itself() {
    let entry = live(contract_data_data(7, 11));
    let (frame, _) = decode_next(&record(&entry), 0).unwrap().unwrap();
    let bytes = encode(&frame).unwrap();
    assert_eq!(&bytes[..4], &((bytes.len() as u32 - 4) | 0x8000_0000).to_be_bytes());
    assert_eq!(xdr::BucketEntry::from_xdr(&bytes[4..], Limits::none()).unwrap(), entry);
    let framed = xdr::Frame::<xdr::BucketEntry>::from_xdr(&bytes, Limits::none()).unwrap();
    assert_eq!(framed.0, entry);
}

#[test]
fn prefix_without_the_high_bit_is_read_too() {
    let payload = bytes_of(&meta(22));
    let mut buffer = (payload.len() as u32).to_be_bytes().to_vec();
    buffer.extend_from_slice(&payload);
    let (frame, next) = decode_next(&buffer, 0).unwrap().unwrap();
    assert_eq!(frame.payload, payload);
    assert_eq!(next, buffer.len());
}

#[test]
fn record_too_long_for_a_prefix_is_not_encoded() {
    let frame = Frame {
        payload: vec![0u8; 0x8000_0000],
        entry: BucketEntry::MetaEntry(BucketMetadata { ledger_version: 1 }),
    };
    assert_eq!(encode(&frame), Err(EncodeError::TooLong));
}

#[test]
fn reader_yields_each_record_once_and_then_nothing() {
    let buffer = bucket(&[meta(22), live(account_data(1))]);
    let mut reader = BucketReader::new(&buffer);
    assert_eq!(reader.next_entry().unwrap().unwrap().entry, decoded(&meta(22)));
    assert_eq!(reader.next_entry().unwrap().unwrap().entry, decoded(&live(account_data(1))));
    assert_eq!(reader.next_entry(), None);
    assert_eq!(reader.next_entry(), None);
}

#[test]
fn reader_stops_at_the_first_error() {
    let mut buffer = bucket(&[meta(22)]);
    buffer.extend_from_slice(&[0x80, 0, 0, 8, 1, 2]);
    buffer.extend_from_slice(&record(&meta(23)));
    let mut reader = BucketReader::new(&buffer);
    assert!(matches!(reader.next_entry(), Some(Ok(_))));
    assert_eq!(reader.next_entry(), Some(Err(DecodeError::Malformed)));
    assert_eq!(reader.next_entry(), None);
    let (frames, error) = read_all(&buffer);
    assert_eq!(frames.len(), 1);
    assert_eq!(error, Some(DecodeError::Malformed));
}

#[test]
fn read_all_of_an_empty_buffer_is_empty() {
    assert_eq!(read_all(&[]), (Vec::new(), None));
}

#[test]
fn retention_table_keeps_five_kinds_and_drops_five() {
    let kept = vec![
        account_data(1),
        trustline_data(2),
        contract_data_data(7, 11),
        contract_code_data([8; 32], &[1]),
        config_setting_data(),
    ];
    let dropped = vec![
        offer_data(3, 8),
        data_data(4, "colour"),
        claimable_balance_data(5),
        liquidity_pool_data(6),
        ttl_data(10),
    ];
    for data in kept {
        let entry = decoded(&live(data.clone()));
        assert!(keep(&entry));
        assert!(keep(&decoded(&init(data))));
        assert!(keep(&BucketEntry::DeadEntry(entry_key(&entry).unwrap())));
    }
    for data in dropped {
        let entry = decoded(&live(data.clone()));
        assert!(!keep(&entry));
        assert!(!keep(&decoded(&init(data))));
        assert!(!keep(&BucketEntry::DeadEntry(entry_key(&entry).unwrap())));
    }
    assert!(keep(&decoded(&meta(22))));
}

#[test]
fn rewriter_keeps_contract_data_and_its_tombstone_and_drops_the_offer() {
    let a = live(contract_data_data(7, 11));
    let a_dead = dead(contract_data_key(7, 11));
    let b = live(offer_data(3, 8));
    let out = rewrite(&bucket(&[a.clone(), a_dead.clone(), b]));
    assert_eq!(out.error, None);
    assert_eq!(out.bytes, bucket(&[a.clone(), a_dead.clone()]));
    let (frames, error) = read_all(&out.bytes);
    assert_eq!(error, None);
    assert_eq!(frames.len(), 2);
    assert_eq!(frames[0].entry, decoded(&a));
    assert_eq!(frames[1].entry, decoded(&a_dead));
}

#[test]
fn kept_record_is_written_as_it_was_read() {
    let mut payload = bytes_of(&live(contract_data_data(7, 11)));
    let flag = payload.len() - 5;
    assert_eq!(payload[flag], 1);
    payload[flag] = 2;
    let entry = xdr::BucketEntry::from_xdr(&payload, Limits::none()).unwrap();
    assert_ne!(bytes_of(&entry), payload);
    let mut buffer = ((payload.len() as u32) | 0x8000_0000).to_be_bytes().to_vec();
    buffer.extend_from_slice(&payload);
    let out = rewrite(&buffer);
    assert_eq!(out.error, None);
    assert_eq!(out.bytes, buffer);
}

#[test]
fn rewriting_twice_is_rewriting_once() {
    let buffer = bucket(&[
        meta(22),
        live(offer_data(3, 8)),
        init(account_data(1)),
        live(ttl_data(10)),
        dead(contract_data_key(7, 11)),
        live(data_data(4, "colour")),
        live(trustline_data(2)),
    ]);
    let once = rewrite(&buffer);
    let twice = rewrite(&once.bytes);
    assert_eq!(once.error, None);
    assert_eq!(twice.error, None);
    assert_eq!(twice.bytes, once.bytes);
    assert_eq!(
        once.bytes,
        bucket(&[meta(22), init(account_data(1)), dead(contract_data_key(7, 11)), live(trustline_data(2))]),
    );
}

#[test]
fn rewriter_keeps_what_came_before_an_error() {
    let mut buffer = bucket(&[live(account_data(1)), live(offer_data(3, 8))]);
    buffer.extend_from_slice(&[0x80, 0, 0]);
    let out = rewrite(&buffer);
    assert_eq!(out.error, Some(DecodeError::TruncatedPrefix));
    assert_eq!(out.bytes, bucket(&[live(account_data(1))]));
}

#[test]
fn second_of_three_buckets_fails_alone() {
    let first = bucket(&[live(account_data(1)), live(offer_data(3, 8))]);
    let mut second = bucket(&[live(account_data(2))]);
    second[1] = 0xff;
    let third = bucket(&[live(trustline_data(2))]);
    let outs = vec![rewrite(&first), rewrite(&second), rewrite(&third)];
    assert_eq!(outs[0].error, None);
    assert_eq!(outs[0].bytes, bucket(&[live(account_data(1))]));
    assert_eq!(outs[1].error, Some(DecodeError::TruncatedPayload));
    assert_eq!(outs[1].bytes, Vec::<u8>::new());
    assert_eq!(outs[2].error, None);
    assert_eq!(outs[2].bytes, third);
}

#[test]
fn search_reports_a_sponsored_entry_as_base64() {
    let entry = live_sponsored(account_data(1), 3);
    let found = search(&bucket(&[meta(22), entry.clone()]), &account(3).to_string());
    assert_eq!(found.error, None);
    assert_eq!(found.lines, vec![entry.to_xdr_base64(Limits::none()).unwrap()]);
}

#[test]
fn search_passes_over_another_sponsor() {
    let entry = live_sponsored(account_data(1), 3);
    let found = search(&bucket(&[entry]), &account(4).to_string());
    assert_eq!(found.error, None);
    assert_eq!(found.lines, Vec::<String>::new());
}

#[test]
fn first_record_of_a_key_wins_over_a_later_sponsored_one() {
    let buffer = bucket(&[live(account_data(1)), live_sponsored(account_data(1), 3)]);
    let found = search(&buffer, &account(3).to_string());
    assert_eq!(found.error, None);
    assert_eq!(found.lines, Vec::<String>::new());
}

#[test]
fn tombstone_takes_the_key_of_a_later_sponsored_entry() {
    let first = dead(contract_data_key(7, 11));
    let second = live_sponsored(contract_data_data(7, 11), 3);
    let other = live_sponsored(contract_data_data(7, 12), 3);
    let found = search(&bucket(&[first, second, other.clone()]), &account(3).to_string());
    assert_eq!(found.error, None);
    assert_eq!(found.lines, vec![other.to_xdr_base64(Limits::none()).unwrap()]);
}

#[test]
fn sponsored_first_record_is_reported_once() {
    let first = live_sponsored(account_data(1), 3);
    let again = init(account_data(1));
    let third = live_sponsored(account_data(1), 3);
    let found = search(&bucket(&[first.clone(), again, third]), &account(3).to_string());
    assert_eq!(found.lines, vec![first.to_xdr_base64(Limits::none()).unwrap()]);
}

#[test]
fn search_keeps_matches_before_an_error() {
    let first = live_sponsored(account_data(1), 3);
    let mut buffer = bucket(&[first.clone()]);
    buffer.extend_from_slice(&[0x80, 0, 0, 4, 9, 9, 9, 9]);
    let found = search(&buffer, &account(3).to_string());
    assert_eq!(found.error, Some(SearchError::Decode(DecodeError::Malformed)));
    assert_eq!(found.lines, vec![first.to_xdr_base64(Limits::none()).unwrap()]);
}

#[test]
fn sponsorship_predicate_is_false_for_tombstone_and_metadata() {
    let sponsor = account(3).to_string();
    assert!(is_sponsored_by(&decoded(&live_sponsored(account_data(1), 3)), &sponsor));
    assert!(!is_sponsored_by(&decoded(&live(account_data(1))), &sponsor));
    assert!(!is_sponsored_by(&decoded(&dead(contract_data_key(7, 11))), &sponsor));
    assert!(!is_sponsored_by(&decoded(&meta(22)), &sponsor));
}

#[test]
fn extractor_names_the_code_by_its_hash() {
    let mut hash = [0u8; 32];
    hash[0] = 0xab;
    hash[1] = 0x01;
    hash[31] = 0xf0;
    let code = vec![0u8, 97, 115, 109, 1, 0, 0, 0];
    let out = extract(&bucket(&[meta(22), live(contract_code_data(hash, &code)), live(account_data(1))]));
    assert_eq!(out.error, None);
    assert_eq!(out.files.len(), 1);
    assert_eq!(
        out.files[0].name,
        "ab010000000000000000000000000000000000000000000000000000000000f0.wasm",
    );
    assert_eq!(out.files[0].name.len(), 64 + 5);
    assert_eq!(out.files[0].bytes, code);
}

#[test]
fn extractor_yields_the_same_code_twice() {
    let entry = live(contract_code_data([8; 32], &[1, 2, 3]));
    let out = extract(&bucket(&[entry.clone(), init(contract_code_data([8; 32], &[1, 2, 3]))]));
    assert_eq!(out.files.len(), 2);
    assert_eq!(out.files[0], out.files[1]);
    assert_eq!(out.files[0].name, format!("{}.wasm", "08".repeat(32)));
}

#[test]
fn extractor_passes_over_the_tombstone_of_code() {
    let key = xdr::LedgerKey::ContractCode(xdr::LedgerKeyContractCode { hash: xdr::Hash([8; 32]) });
    let out = extract(&bucket(&[dead(key.clone())]));
    assert_eq!(out.files.len(), 0);
    assert_eq!(wasm_file(&decoded(&dead(key))), None);
}

#[test]
fn hex_is_lowercase_and_two_digits_a_byte() {
    assert_eq!(hex_lower(&[]), "");
    assert_eq!(hex_lower(&[0x00, 0x0f, 0xa0, 0xff, 0x9c]), "000fa0ff9c");
}

fn nested_key_payload(levels: usize) -> Vec<u8> {
    let plain = bytes_of(&live(xdr::LedgerEntryData::ContractData(xdr::ContractDataEntry {
        ext: xdr::ExtensionPoint::V0,
        contract: contract(7),
        key: xdr::ScVal::Void,
        durability: xdr::ContractDataDurability::Persistent,
        val: xdr::ScVal::Bool(true),
    })));
    let once = bytes_of(&live(xdr::LedgerEntryData::ContractData(xdr::ContractDataEntry {
        ext: xdr::ExtensionPoint::V0,
        contract: contract(7),
        key: xdr::ScVal::Vec(Some(xdr::ScVec(vec![xdr::ScVal::Void].try_into().unwrap()))),
        durability: xdr::ContractDataDurability::Persistent,
        val: xdr::ScVal::Bool(true),
    })));
    let mut at = 0;
    while plain[at..at + 4] == once[at..at + 4] {
        at += 4;
    }
    let wrap = once[at..at + 12].to_vec();
    let mut payload = plain[..at].to_vec();
    for _ in 0..levels {
        payload.extend_from_slice(&wrap);
    }
    payload.extend_from_slice(&plain[at..]);
    payload
}

fn nested_key(levels: usize) -> xdr::ScVal {
    let mut key = xdr::ScVal::Void;
    for _ in 0..levels {
        key = xdr::ScVal::Vec(Some(xdr::ScVec(vec![key].try_into().unwrap())));
    }
    key
}

fn framed_payload(payload: &[u8]) -> Vec<u8> {
    let mut out = ((payload.len() as u32) | 0x8000_0000).to_be_bytes().to_vec();
    out.extend_from_slice(payload);
    out
}

#[test]
fn storage_key_nested_as_contracts_nest_it_is_decoded() {
    for levels in [1, 5, 20, 100] {
        let payload = nested_key_payload(levels);
        let key = nested_key(levels);
        assert_eq!(
            decode_entry(&payload),
            Some(BucketEntry::LiveEntry(stored(LedgerEntryData::ContractData {
                contract: bytes_of(&contract(7)),
                key: bytes_of(&key),
                durability: ContractDataDurability::Persistent,
            }))),
        );
        let (frame, next) = decode_next(&framed_payload(&payload), 0).unwrap().unwrap();
        assert_eq!(frame.payload, payload);
        assert_eq!(next, payload.len() + 4);
    }
}

#[test]
fn sponsored_entry_with_a_nested_key_is_reported() {
    let entry = live_sponsored(
        xdr::LedgerEntryData::ContractData(xdr::ContractDataEntry {
            ext: xdr::ExtensionPoint::V0,
            contract: contract(7),
            key: nested_key(100),
            durability: xdr::ContractDataDurability::Persistent,
            val: nested_key(100),
        }),
        3,
    );
    let found = search(&bucket(&[entry.clone()]), &account(3).to_string());
    assert_eq!(found.error, None);
    assert_eq!(found.lines, vec![entry.to_xdr_base64(Limits::none()).unwrap()]);
    let slimmed = rewrite(&bucket(&[entry.clone()]));
    assert_eq!(slimmed.error, None);
    assert_eq!(slimmed.bytes, bucket(&[entry]));
}

#[test]
fn payload_nested_deeper_than_the_bound_is_malformed() {
    assert!(MAX_DEPTH == 500);
    for levels in [MAX_DEPTH as usize, 1_000, 100_000] {
        let payload = nested_key_payload(levels);
        assert_eq!(decode_entry(&payload), None);
        assert_eq!(decode_next(&framed_payload(&payload), 0), Err(DecodeError::Malformed));
    }
}

#[test]
fn bucket_with_a_record_nested_too_deeply_fails_alone() {
    let first = live_sponsored(account_data(1), 3);
    let code = live(contract_code_data([8; 32], &[1, 2, 3]));
    let mut buffer = bucket(&[first.clone(), code]);
    buffer.extend_from_slice(&framed_payload(&nested_key_payload(100_000)));
    buffer.extend_from_slice(&record(&live(account_data(2))));

    let slimmed = rewrite(&buffer);
    assert_eq!(slimmed.error, Some(DecodeError::Malformed));
    assert_eq!(slimmed.bytes, bucket(&[first.clone(), live(contract_code_data([8; 32], &[1, 2, 3]))]));

    let found = search(&buffer, &account(3).to_string());
    assert_eq!(found.error, Some(SearchError::Decode(DecodeError::Malformed)));
    assert_eq!(found.lines, vec![first.to_xdr_base64(Limits::none()).unwrap()]);

    let extracted = extract(&buffer);
    assert_eq!(extracted.error, Some(DecodeError::Malformed));
    assert_eq!(extracted.files.len(), 1);

    let other = rewrite(&bucket(&[live(account_data(2))]));
    assert_eq!(other.error, None);
    assert_eq!(other.bytes, bucket(&[live(account_data(2))]));
}
