//! The event schema: which fields a payload may carry, what each must hold,
//! and whether it may be left out.

use vstd::prelude::*;

verus! {

/// A field of the event schema.
#[derive(Clone, Copy, Debug, PartialEq, Eq)]
pub enum Field {
    AndroidApiLevel,
    Architecture,
    DeviceClassification,
    DeviceLocale,
    DeviceManufacturer,
    DeviceModel,
    DeviceOsBuildNumber,
    DeviceOsName,
    DeviceOsVersion,
    DurationNs,
    Environment,
    OrganizationId,
    Platform,
    ProfileId,
    ProjectId,
    Received,
    RetentionDays,
    TraceId,
    TransactionId,
    TransactionName,
    VersionCode,
    VersionName,
    Offset,
    Partition,
}

/// What a field holds.
pub enum Kind {
    /// A string.
    Text,
    /// A string that spells a 128-bit identifier.
    Identifier,
    /// A whole number from 0 to 2^64 - 1.
    Unsigned64,
    /// A whole number from 0 to 2^32 - 1.
    Unsigned32,
    /// A whole number from 0 to 2^16 - 1.
    Unsigned16,
    /// A whole number from -2^63 to 2^63 - 1.
    Signed64,
}

/// Whether a payload may leave a field out.
pub enum Presence {
    /// The payload must carry the field, and not as null.
    Required,
    /// The field may be missing or null; either way it counts as not given.
    Optional,
    /// The field may be missing, but where the payload carries it, it must
    /// hold a value of its kind. The transport's metadata replaces the value.
    Discarded,
}

impl Kind {
    /// The largest number that a field of an unsigned kind accepts.
    pub open spec fn limit(self) -> u64 {
        match self {
            Kind::Unsigned32 => 0xffff_ffff,
            Kind::Unsigned16 => 0xffff,
            _ => u64::MAX,
        }
    }

    /// The largest number that a field of an unsigned kind accepts.
    pub fn ceiling(self) -> (r: u64)
        ensures
            r == self.limit(),
    {
        match self {
            Kind::Unsigned32 => 0xffff_ffff,
            Kind::Unsigned16 => 0xffff,
            _ => u64::MAX,
        }
    }
}

impl Field {
    /// The name under which the payload carries the field.
    pub open spec fn wire_name(self) -> Seq<char> {
        match self {
            Field::AndroidApiLevel => "android_api_level"@,
            Field::Architecture => "architecture"@,
            Field::DeviceClassification => "device_classification"@,
            Field::DeviceLocale => "device_locale"@,
            Field::DeviceManufacturer => "device_manufacturer"@,
            Field::DeviceModel => "device_model"@,
            Field::DeviceOsBuildNumber => "device_os_build_number"@,
            Field::DeviceOsName => "device_os_name"@,
            Field::DeviceOsVersion => "device_os_version"@,
            Field::DurationNs => "duration_ns"@,
            Field::Environment => "environment"@,
            Field::OrganizationId => "organization_id"@,
            Field::Platform => "platform"@,
            Field::ProfileId => "profile_id"@,
            Field::ProjectId => "project_id"@,
            Field::Received => "received"@,
            Field::RetentionDays => "retention_days"@,
            Field::TraceId => "trace_id"@,
            Field::TransactionId => "transaction_id"@,
            Field::TransactionName => "transaction_name"@,
            Field::VersionCode => "version_code"@,
            Field::VersionName => "version_name"@,
            Field::Offset => "offset"@,
            Field::Partition => "partition"@,
        }
    }

    /// What the field holds.
    pub open spec fn kind(self) -> Kind {
        match self {
            Field::AndroidApiLevel | Field::RetentionDays => Kind::Unsigned32,
            Field::DurationNs | Field::OrganizationId | Field::ProjectId | Field::Offset => {
                Kind::Unsigned64
            },
            Field::Partition => Kind::Unsigned16,
            Field::Received => Kind::Signed64,
            Field::ProfileId | Field::TraceId | Field::TransactionId => Kind::Identifier,
            _ => Kind::Text,
        }
    }

    /// Whether the payload may leave the field out.
    pub open spec fn presence(self) -> Presence {
        match self {
            Field::AndroidApiLevel
            | Field::Architecture
            | Field::DeviceClassification
            | Field::DeviceOsBuildNumber
            | Field::Environment => Presence::Optional,
            Field::Offset | Field::Partition => Presence::Discarded,
            _ => Presence::Required,
        }
    }

    /// The place of the field in the schema order, counted from 0.
    pub open spec fn position(self) -> nat {
        match self {
            Field::AndroidApiLevel => 0,
            Field::Architecture => 1,
            Field::DeviceClassification => 2,
            Field::DeviceLocale => 3,
            Field::DeviceManufacturer => 4,
            Field::DeviceModel => 5,
            Field::DeviceOsBuildNumber => 6,
            Field::DeviceOsName => 7,
            Field::DeviceOsVersion => 8,
            Field::DurationNs => 9,
            Field::Environment => 10,
            Field::OrganizationId => 11,
            Field::Platform => 12,
            Field::ProfileId => 13,
            Field::ProjectId => 14,
            Field::Received => 15,
            Field::RetentionDays => 16,
            Field::TraceId => 17,
            Field::TransactionId => 18,
            Field::TransactionName => 19,
            Field::VersionCode => 20,
            Field::VersionName => 21,
            Field::Offset => 22,
            Field::Partition => 23,
        }
    }

    /// The name under which the payload carries the field.
    pub fn name(self) -> (r: &'static str)
        ensures
            r@ == self.wire_name(),
    {
        match self {
            Field::AndroidApiLevel => "android_api_level",
            Field::Architecture => "architecture",
            Field::DeviceClassification => "device_classification",
            Field::DeviceLocale => "device_locale",
            Field::DeviceManufacturer => "device_manufacturer",
            Field::DeviceModel => "device_model",
            Field::DeviceOsBuildNumber => "device_os_build_number",
            Field::DeviceOsName => "device_os_name",
            Field::DeviceOsVersion => "device_os_version",
            Field::DurationNs => "duration_ns",
            Field::Environment => "environment",
            Field::OrganizationId => "organization_id",
            Field::Platform => "platform",
            Field::ProfileId => "profile_id",
            Field::ProjectId => "project_id",
            Field::Received => "received",
            Field::RetentionDays => "retention_days",
            Field::TraceId => "trace_id",
            Field::TransactionId => "transaction_id",
            Field::TransactionName => "transaction_name",
            Field::VersionCode => "version_code",
            Field::VersionName => "version_name",
            Field::Offset => "offset",
            Field::Partition => "partition",
        }
    }

    /// Whether the payload may leave the field out.
    pub fn presence_of(self) -> (r: Presence)
        ensures
            r == self.presence(),
    {
        match self {
            Field::AndroidApiLevel
            | Field::Architecture
            | Field::DeviceClassification
            | Field::DeviceOsBuildNumber
            | Field::Environment => Presence::Optional,
            Field::Offset | Field::Partition => Presence::Discarded,
            _ => Presence::Required,
        }
    }

    /// What the field holds.
    pub fn kind_of(self) -> (r: Kind)
        ensures
            r == self.kind(),
    {
        match self {
            Field::AndroidApiLevel | Field::RetentionDays => Kind::Unsigned32,
            Field::DurationNs | Field::OrganizationId | Field::ProjectId | Field::Offset => {
                Kind::Unsigned64
            },
            Field::Partition => Kind::Unsigned16,
            Field::Received => Kind::Signed64,
            Field::ProfileId | Field::TraceId | Field::TransactionId => Kind::Identifier,
            _ => Kind::Text,
        }
    }
}

/// The fields in the order in which a payload is checked against them: the
/// payload's own fields by name, then the two that the transport overrides.
pub open spec fn schema_order() -> Seq<Field> {
    seq![
        Field::AndroidApiLevel,
        Field::Architecture,
        Field::DeviceClassification,
        Field::DeviceLocale,
        Field::DeviceManufacturer,
        Field::DeviceModel,
        Field::DeviceOsBuildNumber,
        Field::DeviceOsName,
        Field::DeviceOsVersion,
        Field::DurationNs,
        Field::Environment,
        Field::OrganizationId,
        Field::Platform,
        Field::ProfileId,
        Field::ProjectId,
        Field::Received,
        Field::RetentionDays,
        Field::TraceId,
        Field::TransactionId,
        Field::TransactionName,
        Field::VersionCode,
        Field::VersionName,
        Field::Offset,
        Field::Partition,
    ]
}

/// The number of fields in the schema.
pub open spec fn schema_len() -> nat {
    24
}

/// The schema order holds every field once, at its own position.
pub proof fn lemma_schema_order(field: Field)
    ensures
        schema_order().len() == schema_len(),
        field.position() < schema_len(),
        schema_order()[field.position() as int] == field,
{
}

} // verus!
