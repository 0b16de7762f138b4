//! The closed sets of tags that a bucket entry carries, each with the
//! number that stands for it in the XDR encoding.

use vstd::prelude::*;

verus! {

/// The kinds of ledger entry. A ledger key has the kind of the entry that it
/// names.
#[derive(Clone, Copy, Debug, PartialEq, Eq, Hash, Structural)]
pub enum EntryKind {
    Account,
    Trustline,
    Offer,
    Data,
    ClaimableBalance,
    LiquidityPool,
    ContractData,
    ContractCode,
    ConfigSetting,
    Ttl,
}

impl EntryKind {
    /// The discriminant of this kind in the encoding.
    pub open spec fn code(self) -> int {
        match self {
            EntryKind::Account => 0,
            EntryKind::Trustline => 1,
            EntryKind::Offer => 2,
            EntryKind::Data => 3,
            EntryKind::ClaimableBalance => 4,
            EntryKind::LiquidityPool => 5,
            EntryKind::ContractData => 6,
            EntryKind::ContractCode => 7,
            EntryKind::ConfigSetting => 8,
            EntryKind::Ttl => 9,
        }
    }

    /// The kind that a discriminant stands for, if it stands for one.
    pub open spec fn of_code(code: int) -> Option<EntryKind> {
        if code == 0 {
            Some(EntryKind::Account)
        } else if code == 1 {
            Some(EntryKind::Trustline)
        } else if code == 2 {
            Some(EntryKind::Offer)
        } else if code == 3 {
            Some(EntryKind::Data)
        } else if code == 4 {
            Some(EntryKind::ClaimableBalance)
        } else if code == 5 {
            Some(EntryKind::LiquidityPool)
        } else if code == 6 {
            Some(EntryKind::ContractData)
        } else if code == 7 {
            Some(EntryKind::ContractCode)
        } else if code == 8 {
            Some(EntryKind::ConfigSetting)
        } else if code == 9 {
            Some(EntryKind::Ttl)
        } else {
            None
        }
    }

    /// Reads a discriminant. `None` for a number that no kind has.
    pub fn from_code(code: i32) -> (r: Option<EntryKind>)
        ensures
            r == EntryKind::of_code(code as int),
    {
        match code {
            0 => Some(EntryKind::Account),
            1 => Some(EntryKind::Trustline),
            2 => Some(EntryKind::Offer),
            3 => Some(EntryKind::Data),
            4 => Some(EntryKind::ClaimableBalance),
            5 => Some(EntryKind::LiquidityPool),
            6 => Some(EntryKind::ContractData),
            7 => Some(EntryKind::ContractCode),
            8 => Some(EntryKind::ConfigSetting),
            9 => Some(EntryKind::Ttl),
            _ => None,
        }
    }

    /// The discriminant of this kind.
    pub fn to_code(self) -> (r: i32)
        ensures
            r == self.code(),
    {
        match self {
            EntryKind::Account => 0,
            EntryKind::Trustline => 1,
            EntryKind::Offer => 2,
            EntryKind::Data => 3,
            EntryKind::ClaimableBalance => 4,
            EntryKind::LiquidityPool => 5,
            EntryKind::ContractData => 6,
            EntryKind::ContractCode => 7,
            EntryKind::ConfigSetting => 8,
            EntryKind::Ttl => 9,
        }
    }
}

/// Every kind is read back from its own discriminant, and a number is the
/// discriminant of at most one kind.
pub proof fn lemma_kind_codes(kind: EntryKind, code: int)
    ensures
        EntryKind::of_code(kind.code()) == Some(kind),
        EntryKind::of_code(code) == Some(kind) <==> code == kind.code(),
        0 <= kind.code() <= 9,
{
}

/// How long a contract's storage entry is kept.
#[derive(Clone, Copy, Debug, PartialEq, Eq, Hash, Structural)]
pub enum ContractDataDurability {
    Temporary,
    Persistent,
}

impl ContractDataDurability {
    /// The discriminant of this durability in the encoding.
    pub open spec fn code(self) -> int {
        match self {
            ContractDataDurability::Temporary => 0,
            ContractDataDurability::Persistent => 1,
        }
    }

    /// The durability that a discriminant stands for, if it stands for one.
    pub open spec fn of_code(code: int) -> Option<ContractDataDurability> {
        if code == 0 {
            Some(ContractDataDurability::Temporary)
        } else if code == 1 {
            Some(ContractDataDurability::Persistent)
        } else {
            None
        }
    }

    /// Reads a discriminant. `None` for a number that no durability has.
    pub fn from_code(code: i32) -> (r: Option<ContractDataDurability>)
        ensures
            r == ContractDataDurability::of_code(code as int),
    {
        match code {
            0 => Some(ContractDataDurability::Temporary),
            1 => Some(ContractDataDurability::Persistent),
            _ => None,
        }
    }
}

/// The network settings that the ledger stores, by name.
#[derive(Clone, Copy, Debug, PartialEq, Eq, Hash, Structural)]
pub enum ConfigSettingId {
    ContractMaxSizeBytes,
    ContractComputeV0,
    ContractLedgerCostV0,
    ContractHistoricalDataV0,
    ContractEventsV0,
    ContractBandwidthV0,
    ContractCostParamsCpuInstructions,
    ContractCostParamsMemoryBytes,
    ContractDataKeySizeBytes,
    ContractDataEntrySizeBytes,
    StateArchival,
    ContractExecutionLanes,
    BucketlistSizeWindow,
    EvictionIterator,
}

impl ConfigSettingId {
    /// The discriminant of this setting in the encoding.
    pub open spec fn code(self) -> int {
        match self {
            ConfigSettingId::ContractMaxSizeBytes => 0,
            ConfigSettingId::ContractComputeV0 => 1,
            ConfigSettingId::ContractLedgerCostV0 => 2,
            ConfigSettingId::ContractHistoricalDataV0 => 3,
            ConfigSettingId::ContractEventsV0 => 4,
            ConfigSettingId::ContractBandwidthV0 => 5,
            ConfigSettingId::ContractCostParamsCpuInstructions => 6,
            ConfigSettingId::ContractCostParamsMemoryBytes => 7,
            ConfigSettingId::ContractDataKeySizeBytes => 8,
            ConfigSettingId::ContractDataEntrySizeBytes => 9,
            ConfigSettingId::StateArchival => 10,
            ConfigSettingId::ContractExecutionLanes => 11,
            ConfigSettingId::BucketlistSizeWindow => 12,
            ConfigSettingId::EvictionIterator => 13,
        }
    }

    /// The setting that a discriminant stands for, if it stands for one.
    pub open spec fn of_code(code: int) -> Option<ConfigSettingId> {
        if code == 0 {
            Some(ConfigSettingId::ContractMaxSizeBytes)
        } else if code == 1 {
            Some(ConfigSettingId::ContractComputeV0)
        } else if code == 2 {
            Some(ConfigSettingId::ContractLedgerCostV0)
        } else if code == 3 {
            Some(ConfigSettingId::ContractHistoricalDataV0)
        } else if code == 4 {
            Some(ConfigSettingId::ContractEventsV0)
        } else if code == 5 {
            Some(ConfigSettingId::ContractBandwidthV0)
        } else if code == 6 {
            Some(ConfigSettingId::ContractCostParamsCpuInstructions)
        } else if code == 7 {
            Some(ConfigSettingId::ContractCostParamsMemoryBytes)
        } else if code == 8 {
            Some(ConfigSettingId::ContractDataKeySizeBytes)
        } else if code == 9 {
            Some(ConfigSettingId::ContractDataEntrySizeBytes)
        } else if code == 10 {
            Some(ConfigSettingId::StateArchival)
        } else if code == 11 {
            Some(ConfigSettingId::ContractExecutionLanes)
        } else if code == 12 {
            Some(ConfigSettingId::BucketlistSizeWindow)
        } else if code == 13 {
            Some(ConfigSettingId::EvictionIterator)
        } else {
            None
        }
    }

    /// Reads a discriminant. `None` for a number that no setting has.
    pub fn from_code(code: i32) -> (r: Option<ConfigSettingId>)
        ensures
            r == ConfigSettingId::of_code(code as int),
    {
        match code {
            0 => Some(ConfigSettingId::ContractMaxSizeBytes),
            1 => Some(ConfigSettingId::ContractComputeV0),
            2 => Some(ConfigSettingId::ContractLedgerCostV0),
            3 => Some(ConfigSettingId::ContractHistoricalDataV0),
            4 => Some(ConfigSettingId::ContractEventsV0),
            5 => Some(ConfigSettingId::ContractBandwidthV0),
            6 => Some(ConfigSettingId::ContractCostParamsCpuInstructions),
            7 => Some(ConfigSettingId::ContractCostParamsMemoryBytes),
            8 => Some(ConfigSettingId::ContractDataKeySizeBytes),
            9 => Some(ConfigSettingId::ContractDataEntrySizeBytes),
            10 => Some(ConfigSettingId::StateArchival),
            11 => Some(ConfigSettingId::ContractExecutionLanes),
            12 => Some(ConfigSettingId::BucketlistSizeWindow),
            13 => Some(ConfigSettingId::EvictionIterator),
            _ => None,
        }
    }
}

/// A stored network setting: which setting the entry holds. The values of
/// the setting stay in the entry's bytes.
#[derive(Clone, Copy, Debug, PartialEq, Eq, Hash, Structural)]
pub enum ConfigSettingEntry {
    ContractMaxSizeBytes,
    ContractComputeV0,
    ContractLedgerCostV0,
    ContractHistoricalDataV0,
    ContractEventsV0,
    ContractBandwidthV0,
    ContractCostParamsCpuInstructions,
    ContractCostParamsMemoryBytes,
    ContractDataKeySizeBytes,
    ContractDataEntrySizeBytes,
    StateArchival,
    ContractExecutionLanes,
    BucketlistSizeWindow,
    EvictionIterator,
}

impl ConfigSettingEntry {
    /// The setting that this entry holds.
    pub open spec fn id(self) -> ConfigSettingId {
        match self {
            ConfigSettingEntry::ContractMaxSizeBytes => ConfigSettingId::ContractMaxSizeBytes,
            ConfigSettingEntry::ContractComputeV0 => ConfigSettingId::ContractComputeV0,
            ConfigSettingEntry::ContractLedgerCostV0 => ConfigSettingId::ContractLedgerCostV0,
            ConfigSettingEntry::ContractHistoricalDataV0 => ConfigSettingId::ContractHistoricalDataV0,
            ConfigSettingEntry::ContractEventsV0 => ConfigSettingId::ContractEventsV0,
            ConfigSettingEntry::ContractBandwidthV0 => ConfigSettingId::ContractBandwidthV0,
            ConfigSettingEntry::ContractCostParamsCpuInstructions => ConfigSettingId::ContractCostParamsCpuInstructions,
            ConfigSettingEntry::ContractCostParamsMemoryBytes => ConfigSettingId::ContractCostParamsMemoryBytes,
            ConfigSettingEntry::ContractDataKeySizeBytes => ConfigSettingId::ContractDataKeySizeBytes,
            ConfigSettingEntry::ContractDataEntrySizeBytes => ConfigSettingId::ContractDataEntrySizeBytes,
            ConfigSettingEntry::StateArchival => ConfigSettingId::StateArchival,
            ConfigSettingEntry::ContractExecutionLanes => ConfigSettingId::ContractExecutionLanes,
            ConfigSettingEntry::BucketlistSizeWindow => ConfigSettingId::BucketlistSizeWindow,
            ConfigSettingEntry::EvictionIterator => ConfigSettingId::EvictionIterator,
        }
    }

    /// The entry that holds a given setting.
    pub open spec fn of_id(id: ConfigSettingId) -> ConfigSettingEntry {
        match id {
            ConfigSettingId::ContractMaxSizeBytes => ConfigSettingEntry::ContractMaxSizeBytes,
            ConfigSettingId::ContractComputeV0 => ConfigSettingEntry::ContractComputeV0,
            ConfigSettingId::ContractLedgerCostV0 => ConfigSettingEntry::ContractLedgerCostV0,
            ConfigSettingId::ContractHistoricalDataV0 => ConfigSettingEntry::ContractHistoricalDataV0,
            ConfigSettingId::ContractEventsV0 => ConfigSettingEntry::ContractEventsV0,
            ConfigSettingId::ContractBandwidthV0 => ConfigSettingEntry::ContractBandwidthV0,
            ConfigSettingId::ContractCostParamsCpuInstructions => ConfigSettingEntry::ContractCostParamsCpuInstructions,
            ConfigSettingId::ContractCostParamsMemoryBytes => ConfigSettingEntry::ContractCostParamsMemoryBytes,
            ConfigSettingId::ContractDataKeySizeBytes => ConfigSettingEntry::ContractDataKeySizeBytes,
            ConfigSettingId::ContractDataEntrySizeBytes => ConfigSettingEntry::ContractDataEntrySizeBytes,
            ConfigSettingId::StateArchival => ConfigSettingEntry::StateArchival,
            ConfigSettingId::ContractExecutionLanes => ConfigSettingEntry::ContractExecutionLanes,
            ConfigSettingId::BucketlistSizeWindow => ConfigSettingEntry::BucketlistSizeWindow,
            ConfigSettingId::EvictionIterator => ConfigSettingEntry::EvictionIterator,
        }
    }

    /// The entry whose setting has the given discriminant.
    pub fn from_code(code: i32) -> (r: Option<ConfigSettingEntry>)
        ensures
            r == match ConfigSettingId::of_code(code as int) {
                Some(id) => Some(ConfigSettingEntry::of_id(id)),
                None => None,
            },
    {
        match code {
            0 => Some(ConfigSettingEntry::ContractMaxSizeBytes),
            1 => Some(ConfigSettingEntry::ContractComputeV0),
            2 => Some(ConfigSettingEntry::ContractLedgerCostV0),
            3 => Some(ConfigSettingEntry::ContractHistoricalDataV0),
            4 => Some(ConfigSettingEntry::ContractEventsV0),
            5 => Some(ConfigSettingEntry::ContractBandwidthV0),
            6 => Some(ConfigSettingEntry::ContractCostParamsCpuInstructions),
            7 => Some(ConfigSettingEntry::ContractCostParamsMemoryBytes),
            8 => Some(ConfigSettingEntry::ContractDataKeySizeBytes),
            9 => Some(ConfigSettingEntry::ContractDataEntrySizeBytes),
            10 => Some(ConfigSettingEntry::StateArchival),
            11 => Some(ConfigSettingEntry::ContractExecutionLanes),
            12 => Some(ConfigSettingEntry::BucketlistSizeWindow),
            13 => Some(ConfigSettingEntry::EvictionIterator),
            _ => None,
        }
    }
}

/// An entry names its own setting, and each setting has its entry.
pub proof fn lemma_setting_entries(entry: ConfigSettingEntry, id: ConfigSettingId)
    ensures
        ConfigSettingEntry::of_id(entry.id()) == entry,
        ConfigSettingEntry::of_id(id).id() == id,
{
}

} // verus!
