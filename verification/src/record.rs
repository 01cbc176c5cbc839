//! The event record: one profiling event, decoded and typed.

use vstd::prelude::*;

verus! {

/// One profiling event as a typed record.
///
/// `offset` and `partition` say where the transport holds the message. A
/// record fresh from the decoder carries whatever the payload said of them;
/// only a stamped record carries the transport's own word.
#[derive(Clone, Debug, PartialEq, Eq)]
pub struct ProfileMessage {
    pub android_api_level: Option<u32>,
    pub architecture: Option<String>,
    pub device_classification: String,
    pub device_locale: String,
    pub device_manufacturer: String,
    pub device_model: String,
    pub device_os_build_number: Option<String>,
    pub device_os_name: String,
    pub device_os_version: String,
    pub duration_ns: u64,
    pub environment: Option<String>,
    pub organization_id: u64,
    pub platform: String,
    pub profile_id: u128,
    pub project_id: u64,
    pub received: i64,
    pub retention_days: u32,
    pub trace_id: u128,
    pub transaction_id: u128,
    pub transaction_name: String,
    pub version_code: String,
    pub version_name: String,
    pub offset: u64,
    pub partition: u16,
}

/// The mathematical content of a [`ProfileMessage`].
pub struct EventRecord {
    pub android_api_level: Option<u32>,
    pub architecture: Option<Seq<char>>,
    pub device_classification: Seq<char>,
    pub device_locale: Seq<char>,
    pub device_manufacturer: Seq<char>,
    pub device_model: Seq<char>,
    pub device_os_build_number: Option<Seq<char>>,
    pub device_os_name: Seq<char>,
    pub device_os_version: Seq<char>,
    pub duration_ns: u64,
    pub environment: Option<Seq<char>>,
    pub organization_id: u64,
    pub platform: Seq<char>,
    pub profile_id: u128,
    pub project_id: u64,
    pub received: i64,
    pub retention_days: u32,
    pub trace_id: u128,
    pub transaction_id: u128,
    pub transaction_name: Seq<char>,
    pub version_code: Seq<char>,
    pub version_name: Seq<char>,
    pub offset: u64,
    pub partition: u16,
}

/// The content of a string that may be absent.
pub open spec fn text_view(text: Option<String>) -> Option<Seq<char>> {
    match text {
        Some(s) => Some(s@),
        None => None,
    }
}

impl View for ProfileMessage {
    type V = EventRecord;

    open spec fn view(&self) -> EventRecord {
        EventRecord {
            android_api_level: self.android_api_level,
            architecture: text_view(self.architecture),
            device_classification: self.device_classification@,
            device_locale: self.device_locale@,
            device_manufacturer: self.device_manufacturer@,
            device_model: self.device_model@,
            device_os_build_number: text_view(self.device_os_build_number),
            device_os_name: self.device_os_name@,
            device_os_version: self.device_os_version@,
            duration_ns: self.duration_ns,
            environment: text_view(self.environment),
            organization_id: self.organization_id,
            platform: self.platform@,
            profile_id: self.profile_id,
            project_id: self.project_id,
            received: self.received,
            retention_days: self.retention_days,
            trace_id: self.trace_id,
            transaction_id: self.transaction_id,
            transaction_name: self.transaction_name@,
            version_code: self.version_code@,
            version_name: self.version_name@,
            offset: self.offset,
            partition: self.partition,
        }
    }
}

impl EventRecord {
    /// The record with its position replaced by `offset` and `partition`,
    /// and every other field as it was.
    pub open spec fn at(self, offset: u64, partition: u16) -> EventRecord {
        EventRecord { offset, partition, ..self }
    }
}

} // verus!
