use vstd::prelude::*;

verus! {

/// Liveness reported by a device on its status topic.
#[derive(Debug, Clone, Copy, PartialEq, Eq, Structural)]
pub enum DeviceState {
    Up,
    Down,
}

/// Payload of the status topic.
#[derive(Debug, Clone, Copy, PartialEq, Eq, Structural)]
pub struct StatusMessage {
    pub state: DeviceState,
}

/// Progress of a firmware download, reported on the OTA info topic.
#[derive(Debug, Clone, Copy, PartialEq, Eq, Structural)]
pub enum OtaMessage {
    Start,
    InProgress { rx_kb: usize },
    Done,
    Fail,
}

impl OtaMessage {
    /// `Done` and `Fail` end a download; the other events only report on it.
    pub open spec fn spec_is_terminal(self) -> bool {
        self is Done || self is Fail
    }

    pub fn is_terminal(&self) -> (r: bool)
        ensures
            r == self.spec_is_terminal(),
    {
        match self {
            OtaMessage::Start => false,
            OtaMessage::InProgress { .. } => false,
            OtaMessage::Done => true,
            OtaMessage::Fail => true,
        }
    }
}

/// Command published on the OTA command topic.
#[derive(Debug, Clone, PartialEq, Eq)]
pub enum OtaCommand {
    Update { url: String, ca_cert: String },
    Validate,
    Rollback,
}

/// Descriptor of the firmware image a device runs.
#[derive(Debug, Clone, PartialEq, Eq)]
pub struct AppDesc {
    pub project_name: String,
    pub version: String,
    pub secure_version: usize,
    pub date: String,
    pub time: String,
}

#[derive(Debug, Clone, Copy, PartialEq, Eq, Structural)]
pub enum PartitionType {
    App(PartitionAppSubtype),
    Data(PartitionDataSubtype),
}

#[derive(Debug, Clone, Copy, PartialEq, Eq, Structural)]
pub enum PartitionAppSubtype {
    Factory,
    Test,
    Ota { id: usize },
}

#[derive(Debug, Clone, Copy, PartialEq, Eq, Structural)]
pub enum PartitionDataSubtype {
    Ota,
    Phy,
    Nvs,
    CoreDump,
    NvsKeys,
    EfuseEm,
    Esphttpd,
    Fat,
    Spiffs,
}

/// Update-lifecycle tag that the bootloader keeps for each partition.
#[derive(Debug, Clone, Copy, PartialEq, Eq, Structural)]
pub enum OtaState {
    NotPresent,
    New,
    PendingVerify,
    Valid,
    Invalid,
    Aborted,
    Undefined,
}

#[derive(Debug, Clone, PartialEq, Eq)]
pub struct Partition {
    pub flash_chip_id: usize,
    pub part_type: PartitionType,
    pub address: usize,
    pub size: usize,
    pub label: String,
    pub encrypted: bool,
    pub ota_state: OtaState,
}

/// The partition table, with the addresses the bootloader singles out.
#[derive(Debug, Clone, PartialEq, Eq)]
pub struct Partitions {
    pub boot: Option<usize>,
    pub running: Option<usize>,
    pub last_invalid: Option<usize>,
    pub next_update: Option<usize>,
    pub is_rollback_possible: bool,
    pub list: Vec<Partition>,
}

#[derive(Debug, Clone, PartialEq, Eq)]
pub struct Software {
    pub app_desc: AppDesc,
    pub partitions: Partitions,
}

/// Identity payload that a device publishes on its id topic.
#[derive(Debug, Clone, PartialEq, Eq)]
pub struct IdMessage {
    pub software: Software,
}

} // verus!
