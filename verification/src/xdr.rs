//! What the XDR codec reads in the payload of a record.
//!
//! The codec is the `stellar_xdr` crate. Each function here puts one
//! question about a payload to it and hands the answer back in plain values:
//! numbers, byte strings and text. None of the answers is proved. Each is
//! named by a function of the payload's bytes, which says that the same bytes
//! always get the same answer, and nothing more.
//!
//! Every question decodes the payload anew, so that its answer depends on
//! the bytes and on nothing that was decoded before.
//!
//! The codec reads a value by calling itself for each value inside it, and
//! a value that is nested too deeply would use up the stack and end the
//! process. So every question gives the codec two limits. The first is
//! [`MAX_DEPTH`], 500 calls inside one another: a payload that is nested
//! more deeply is answered as one that is no bucket entry. The second is the
//! length of the payload, as the most that the lengths inside it may add up
//! to, which refuses no payload that would be accepted without it. What the
//! codec writes here it has read within these limits, and it writes under
//! the same limit of depth.

use vstd::prelude::*;
use crate::entry::Hash32;
use stellar_xdr::curr::{
    BucketEntry as XdrEntry, LedgerEntry as XdrLedgerEntry, LedgerEntryData as XdrData,
    LedgerEntryExt as XdrExt, LedgerKey as XdrKey, Limits, ReadXdr, WriteXdr,
};

verus! {

/// How deeply the codec may call itself while it reads one payload. One
/// value inside another costs a few such calls, so this holds about a
/// hundred vectors inside one another.
pub const MAX_DEPTH: u32 = 500;

/// What a payload is, before the fields of its kind are read.
#[derive(Clone, Copy, Debug, PartialEq, Eq, Structural)]
pub enum Outline {
    /// A created entry: the ledger of its last change and the discriminant of
    /// its kind.
    Init { last_modified_ledger_seq: u32, kind: i32 },
    /// A live entry: the ledger of its last change and the discriminant of
    /// its kind.
    Live { last_modified_ledger_seq: u32, kind: i32 },
    /// A tombstone: the discriminant of its key's kind.
    Dead { kind: i32 },
    /// The bucket's metadata: its protocol version.
    Meta { ledger_version: u32 },
}

/// The outline of the bucket entry that a payload encodes; `None` where the
/// codec does not accept the payload as one bucket entry.
pub uninterp spec fn outline_of(payload: Seq<u8>) -> Option<Outline>;

/// The address of the account that sponsors the ledger entry in a payload.
pub uninterp spec fn sponsor_of(payload: Seq<u8>) -> Option<Seq<char>>;

/// The account of the account entry, or account key, in a payload.
pub uninterp spec fn account_of(payload: Seq<u8>) -> Option<Seq<u8>>;

/// The account and the asset of the trustline in a payload.
pub uninterp spec fn trustline_of(payload: Seq<u8>) -> Option<(Seq<u8>, Seq<u8>)>;

/// The seller and the number of the offer in a payload.
pub uninterp spec fn offer_of(payload: Seq<u8>) -> Option<(Seq<u8>, i64)>;

/// The account and the name of the data entry in a payload.
pub uninterp spec fn data_of(payload: Seq<u8>) -> Option<(Seq<u8>, Seq<u8>)>;

/// The id of the claimable balance in a payload.
pub uninterp spec fn claimable_balance_of(payload: Seq<u8>) -> Option<Seq<u8>>;

/// The id of the liquidity pool in a payload.
pub uninterp spec fn liquidity_pool_of(payload: Seq<u8>) -> Option<Hash32>;

/// The contract, the storage key and the durability's discriminant of the
/// contract data in a payload.
pub uninterp spec fn contract_data_of(payload: Seq<u8>) -> Option<(Seq<u8>, Seq<u8>, i32)>;

/// The hash of the contract code in a payload and, where the payload is an
/// entry and no tombstone, the code.
pub uninterp spec fn contract_code_of(payload: Seq<u8>) -> Option<(Hash32, Option<Seq<u8>>)>;

/// The discriminant of the network setting in a payload.
pub uninterp spec fn config_setting_of(payload: Seq<u8>) -> Option<i32>;

/// The hash of the key whose time to live a payload holds.
pub uninterp spec fn ttl_of(payload: Seq<u8>) -> Option<Hash32>;

/// The base64 text of the bucket entry in a payload.
pub uninterp spec fn base64_of(payload: Seq<u8>) -> Option<Seq<char>>;

/// `BucketEntry::from_xdr`, within [`MAX_DEPTH`] and the payload's length:
/// decodes `payload` as one bucket entry, which must take up all of it, and
/// tells its variant apart. Of an
/// entry it gives `last_modified_ledger_seq` and the number of
/// `LedgerEntryData::discriminant`, of a key the number of
/// `LedgerKey::discriminant`, of metadata `ledger_version`. `None` where
/// `from_xdr` fails.
#[verifier::external_body]
pub(crate) fn xdr_outline(payload: &[u8]) -> (r: Option<Outline>)
    ensures
        r == outline_of(payload@),
{
    let limits = Limits { depth: MAX_DEPTH, len: payload.len() };
    Some(match XdrEntry::from_xdr(payload, limits).ok()? {
        XdrEntry::Initentry(e) => Outline::Init {
            last_modified_ledger_seq: e.last_modified_ledger_seq,
            kind: e.data.discriminant() as i32,
        },
        XdrEntry::Liveentry(e) => Outline::Live {
            last_modified_ledger_seq: e.last_modified_ledger_seq,
            kind: e.data.discriminant() as i32,
        },
        XdrEntry::Deadentry(k) => Outline::Dead { kind: k.discriminant() as i32 },
        XdrEntry::Metaentry(m) => Outline::Meta { ledger_version: m.ledger_version },
    })
}

/// `AccountId::to_string` on the sponsor of the ledger entry that
/// `BucketEntry::from_xdr` decodes from `payload`: the account's address.
/// `None` where the payload is no ledger entry or the entry's extension names
/// no sponsor.
#[verifier::external_body]
pub(crate) fn xdr_sponsor(payload: &[u8]) -> (r: Option<String>)
    ensures
        r.deep_view() == sponsor_of(payload@),
{
    match XdrEntry::from_xdr(payload, Limits { depth: MAX_DEPTH, len: payload.len() }).ok()? {
        XdrEntry::Initentry(e) | XdrEntry::Liveentry(e) => match e.ext {
            XdrExt::V1(v) => v.sponsoring_id.0.map(|a| a.to_string()),
            XdrExt::V0 => None,
        },
        XdrEntry::Deadentry(_) | XdrEntry::Metaentry(_) => None,
    }
}

/// The `account_id` of the account entry, or of the account key, that
/// `BucketEntry::from_xdr` decodes from `payload`, as `to_xdr` writes it.
/// `None` for any other payload.
#[verifier::external_body]
pub(crate) fn xdr_account(payload: &[u8]) -> (r: Option<Vec<u8>>)
    ensures
        r.deep_view() == account_of(payload@),
{
    let within = || Limits::depth(MAX_DEPTH);
    match XdrEntry::from_xdr(payload, Limits { depth: MAX_DEPTH, len: payload.len() }).ok()? {
        XdrEntry::Initentry(XdrLedgerEntry { data: XdrData::Account(a), .. })
        | XdrEntry::Liveentry(XdrLedgerEntry { data: XdrData::Account(a), .. }) => {
            a.account_id.to_xdr(within()).ok()
        }
        XdrEntry::Deadentry(XdrKey::Account(k)) => k.account_id.to_xdr(within()).ok(),
        _ => None,
    }
}

/// The `account_id` and the `asset` of the trustline entry, or trustline key,
/// that `BucketEntry::from_xdr` decodes from `payload`, each as `to_xdr`
/// writes it. `None` for any other payload.
#[verifier::external_body]
pub(crate) fn xdr_trustline(payload: &[u8]) -> (r: Option<(Vec<u8>, Vec<u8>)>)
    ensures
        r.deep_view() == trustline_of(payload@),
{
    let within = || Limits::depth(MAX_DEPTH);
    match XdrEntry::from_xdr(payload, Limits { depth: MAX_DEPTH, len: payload.len() }).ok()? {
        XdrEntry::Initentry(XdrLedgerEntry { data: XdrData::Trustline(t), .. })
        | XdrEntry::Liveentry(XdrLedgerEntry { data: XdrData::Trustline(t), .. }) => {
            Some((t.account_id.to_xdr(within()).ok()?, t.asset.to_xdr(within()).ok()?))
        }
        XdrEntry::Deadentry(XdrKey::Trustline(k)) => {
            Some((k.account_id.to_xdr(within()).ok()?, k.asset.to_xdr(within()).ok()?))
        }
        _ => None,
    }
}

/// The `seller_id`, as `to_xdr` writes it, and the `offer_id` of the offer
/// entry, or offer key, that `BucketEntry::from_xdr` decodes from `payload`.
/// `None` for any other payload.
#[verifier::external_body]
pub(crate) fn xdr_offer(payload: &[u8]) -> (r: Option<(Vec<u8>, i64)>)
    ensures
        r.deep_view() == offer_of(payload@),
{
    let within = || Limits::depth(MAX_DEPTH);
    match XdrEntry::from_xdr(payload, Limits { depth: MAX_DEPTH, len: payload.len() }).ok()? {
        XdrEntry::Initentry(XdrLedgerEntry { data: XdrData::Offer(o), .. })
        | XdrEntry::Liveentry(XdrLedgerEntry { data: XdrData::Offer(o), .. }) => {
            Some((o.seller_id.to_xdr(within()).ok()?, o.offer_id))
        }
        XdrEntry::Deadentry(XdrKey::Offer(k)) => {
            Some((k.seller_id.to_xdr(within()).ok()?, k.offer_id))
        }
        _ => None,
    }
}

/// The `account_id` and the `data_name` of the data entry, or data key, that
/// `BucketEntry::from_xdr` decodes from `payload`, each as `to_xdr` writes
/// it. `None` for any other payload.
#[verifier::external_body]
pub(crate) fn xdr_data(payload: &[u8]) -> (r: Option<(Vec<u8>, Vec<u8>)>)
    ensures
        r.deep_view() == data_of(payload@),
{
    let within = || Limits::depth(MAX_DEPTH);
    match XdrEntry::from_xdr(payload, Limits { depth: MAX_DEPTH, len: payload.len() }).ok()? {
        XdrEntry::Initentry(XdrLedgerEntry { data: XdrData::Data(d), .. })
        | XdrEntry::Liveentry(XdrLedgerEntry { data: XdrData::Data(d), .. }) => {
            Some((d.account_id.to_xdr(within()).ok()?, d.data_name.to_xdr(within()).ok()?))
        }
        XdrEntry::Deadentry(XdrKey::Data(k)) => {
            Some((k.account_id.to_xdr(within()).ok()?, k.data_name.to_xdr(within()).ok()?))
        }
        _ => None,
    }
}

/// The `balance_id` of the claimable balance entry, or key, that
/// `BucketEntry::from_xdr` decodes from `payload`, as `to_xdr` writes it.
/// `None` for any other payload.
#[verifier::external_body]
pub(crate) fn xdr_claimable_balance(payload: &[u8]) -> (r: Option<Vec<u8>>)
    ensures
        r.deep_view() == claimable_balance_of(payload@),
{
    let within = || Limits::depth(MAX_DEPTH);
    match XdrEntry::from_xdr(payload, Limits { depth: MAX_DEPTH, len: payload.len() }).ok()? {
        XdrEntry::Initentry(XdrLedgerEntry { data: XdrData::ClaimableBalance(b), .. })
        | XdrEntry::Liveentry(XdrLedgerEntry { data: XdrData::ClaimableBalance(b), .. }) => {
            b.balance_id.to_xdr(within()).ok()
        }
        XdrEntry::Deadentry(XdrKey::ClaimableBalance(k)) => {
            k.balance_id.to_xdr(within()).ok()
        }
        _ => None,
    }
}

/// The 32 bytes of the `liquidity_pool_id` of the liquidity pool entry, or
/// key, that `BucketEntry::from_xdr` decodes from `payload`. `None` for any
/// other payload.
#[verifier::external_body]
pub(crate) fn xdr_liquidity_pool(payload: &[u8]) -> (r: Option<Hash32>)
    ensures
        r == liquidity_pool_of(payload@),
{
    match XdrEntry::from_xdr(payload, Limits { depth: MAX_DEPTH, len: payload.len() }).ok()? {
        XdrEntry::Initentry(XdrLedgerEntry { data: XdrData::LiquidityPool(p), .. })
        | XdrEntry::Liveentry(XdrLedgerEntry { data: XdrData::LiquidityPool(p), .. }) => {
            Some(p.liquidity_pool_id.0.0)
        }
        XdrEntry::Deadentry(XdrKey::LiquidityPool(k)) => Some(k.liquidity_pool_id.0.0),
        _ => None,
    }
}

/// The `contract` and the `key`, each as `to_xdr` writes it, and the number
/// of the `durability` of the contract data entry, or key, that
/// `BucketEntry::from_xdr` decodes from `payload`. `None` for any other
/// payload.
#[verifier::external_body]
pub(crate) fn xdr_contract_data(payload: &[u8]) -> (r: Option<(Vec<u8>, Vec<u8>, i32)>)
    ensures
        r.deep_view() == contract_data_of(payload@),
{
    let within = || Limits::depth(MAX_DEPTH);
    match XdrEntry::from_xdr(payload, Limits { depth: MAX_DEPTH, len: payload.len() }).ok()? {
        XdrEntry::Initentry(XdrLedgerEntry { data: XdrData::ContractData(c), .. })
        | XdrEntry::Liveentry(XdrLedgerEntry { data: XdrData::ContractData(c), .. }) => {
            Some((c.contract.to_xdr(within()).ok()?, c.key.to_xdr(within()).ok()?, c.durability as i32))
        }
        XdrEntry::Deadentry(XdrKey::ContractData(k)) => {
            Some((k.contract.to_xdr(within()).ok()?, k.key.to_xdr(within()).ok()?, k.durability as i32))
        }
        _ => None,
    }
}

/// The 32 bytes of the `hash` of the contract code entry, or key, that
/// `BucketEntry::from_xdr` decodes from `payload`, and the bytes of the
/// entry's `code`; a key has no code. `None` for any other payload.
#[verifier::external_body]
pub(crate) fn xdr_contract_code(payload: &[u8]) -> (r: Option<(Hash32, Option<Vec<u8>>)>)
    ensures
        r is Some <==> contract_code_of(payload@) is Some,
        r matches Some((hash, code)) ==> contract_code_of(payload@) == Some((hash, code.deep_view())),
{
    match XdrEntry::from_xdr(payload, Limits { depth: MAX_DEPTH, len: payload.len() }).ok()? {
        XdrEntry::Initentry(XdrLedgerEntry { data: XdrData::ContractCode(c), .. })
        | XdrEntry::Liveentry(XdrLedgerEntry { data: XdrData::ContractCode(c), .. }) => {
            Some((c.hash.0, Some(c.code.to_vec())))
        }
        XdrEntry::Deadentry(XdrKey::ContractCode(k)) => Some((k.hash.0, None)),
        _ => None,
    }
}

/// The number of `ConfigSettingEntry::discriminant` of the setting entry, or
/// of the `config_setting_id` of the setting key, that
/// `BucketEntry::from_xdr` decodes from `payload`. `None` for any other
/// payload.
#[verifier::external_body]
pub(crate) fn xdr_config_setting(payload: &[u8]) -> (r: Option<i32>)
    ensures
        r == config_setting_of(payload@),
{
    match XdrEntry::from_xdr(payload, Limits { depth: MAX_DEPTH, len: payload.len() }).ok()? {
        XdrEntry::Initentry(XdrLedgerEntry { data: XdrData::ConfigSetting(c), .. })
        | XdrEntry::Liveentry(XdrLedgerEntry { data: XdrData::ConfigSetting(c), .. }) => {
            Some(c.discriminant() as i32)
        }
        XdrEntry::Deadentry(XdrKey::ConfigSetting(k)) => Some(k.config_setting_id as i32),
        _ => None,
    }
}

/// The 32 bytes of the `key_hash` of the time-to-live entry, or key, that
/// `BucketEntry::from_xdr` decodes from `payload`. `None` for any other
/// payload.
#[verifier::external_body]
pub(crate) fn xdr_ttl(payload: &[u8]) -> (r: Option<Hash32>)
    ensures
        r == ttl_of(payload@),
{
    match XdrEntry::from_xdr(payload, Limits { depth: MAX_DEPTH, len: payload.len() }).ok()? {
        XdrEntry::Initentry(XdrLedgerEntry { data: XdrData::Ttl(t), .. })
        | XdrEntry::Liveentry(XdrLedgerEntry { data: XdrData::Ttl(t), .. }) => {
            Some(t.key_hash.0)
        }
        XdrEntry::Deadentry(XdrKey::Ttl(k)) => Some(k.key_hash.0),
        _ => None,
    }
}

/// `to_xdr_base64` on the bucket entry that `BucketEntry::from_xdr` decodes
/// from `payload`: the entry's encoding in standard base64. `None` where
/// either fails.
#[verifier::external_body]
pub(crate) fn xdr_base64(payload: &[u8]) -> (r: Option<String>)
    ensures
        r.deep_view() == base64_of(payload@),
{
    let limits = Limits { depth: MAX_DEPTH, len: payload.len() };
    let entry = XdrEntry::from_xdr(payload, limits).ok()?;
    entry.to_xdr_base64(Limits::depth(MAX_DEPTH)).ok()
}

} // verus!
