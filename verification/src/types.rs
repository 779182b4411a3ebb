//! Data model shared by the connection manager and the collector handlers.

use vstd::prelude::*;

verus! {

/// State of the transport connection, published on the connection-state hub.
/// Repeated `Disconnected` events are permitted; the feed is not deduplicated.
#[derive(Clone, Copy, Debug, PartialEq, Eq, Structural)]
pub enum ConnectionState {
    Connected,
    Disconnected,
}

/// Raised by `Client::set_access_token` when the credential text cannot stand
/// as a header value; the previously stored token is left untouched.
#[derive(Debug)]
pub enum TokenError {
    MalformedTokenError(String),
}

#[verifier::external_type_specification]
#[verifier::external_body]
pub struct ExStatus(tonic::Status);

/// Relies on tonic::Status::clone; nothing is assumed of the copy.
pub assume_specification[ <tonic::Status as Clone>::clone ](s: &tonic::Status) -> tonic::Status;

/// Connection-layer failure: either the transport could not be built or an
/// issued call came back with a transport status.
#[derive(Debug, Clone)]
pub enum Error {
    Connection(String),
    Status(tonic::Status),
}

/// Opaque authorization context; every call or stream must carry one, and its
/// absence is rejected before any store interaction.
#[derive(Clone, Copy, Debug, PartialEq, Eq, Structural)]
pub struct Permissions;

impl Permissions {
    /// Context under which every access is permitted.
    pub fn allow_all() -> Permissions {
        Permissions
    }
}

/// Wall-clock instant attached to a datapoint.
#[derive(Clone, Copy, Debug, PartialEq, Eq, Structural)]
pub struct Timestamp {
    pub seconds: i64,
    pub nanos: u32,
}

/// Value carried by a datapoint. The store, not this core, checks it against
/// an entry's type and bounds.
#[derive(Debug, Clone)]
pub enum DataValue {
    Unavailable,
    Bool(bool),
    Int32(i32),
    Int64(i64),
    Uint32(u32),
    Uint64(u64),
    Text(String),
}

/// A timestamped value associated with a signal entry.
#[derive(Debug, Clone)]
pub struct Datapoint {
    pub timestamp: Option<Timestamp>,
    pub value: DataValue,
}

/// Partial update of one entry. Streaming ingestion populates only the
/// `datapoint` field, marking a value-only update as opposed to a metadata
/// update.
#[derive(Debug, Clone)]
pub struct EntryUpdateRecord {
    pub path: Option<String>,
    pub datapoint: Option<Datapoint>,
    pub actuator_target: Option<Datapoint>,
    pub description: Option<String>,
}

/// Per-item failure reported by the store for one datapoint update.
#[derive(Clone, Copy, Debug, PartialEq, Eq, Structural)]
pub enum FailureKind {
    UnknownDatapoint,
    InvalidType,
    AccessDenied,
    InternalError,
    OutOfBounds,
}

/// Failure reported by the store when registering a new entry.
#[derive(Clone, Copy, Debug, PartialEq, Eq, Structural)]
pub enum RegistrationError {
    PermissionDenied,
    PermissionExpired,
    ValidationError,
}

/// Condition carried by a rejected call, mirrored onto the wire status.
#[derive(Clone, Copy, Debug, PartialEq, Eq, Structural)]
pub enum RpcCode {
    InvalidArgument,
    PermissionDenied,
    Unauthenticated,
}

/// Status of a rejected call: a condition and a human-readable message.
#[derive(Debug, Clone)]
pub struct RpcStatus {
    pub code: RpcCode,
    pub message: String,
}

/// A status that rejects a call made without a `Permissions` context.
pub open spec fn is_unauthenticated(s: RpcStatus) -> bool {
    s.code == RpcCode::Unauthenticated && s.message@ == "Unauthenticated"@
}

/// Builds the status returned for a call that carries no `Permissions`.
pub fn unauthenticated_status() -> (r: RpcStatus)
    ensures
        is_unauthenticated(r),
{
    RpcStatus { code: RpcCode::Unauthenticated, message: "Unauthenticated".to_owned() }
}

/// Type of the values a registered entry carries.
#[derive(Clone, Copy, Debug, PartialEq, Eq, Structural)]
pub enum DataType {
    Str,
    Bool,
    Int8,
    Int16,
    Int32,
    Int64,
    Uint8,
    Uint16,
    Uint32,
    Uint64,
    Float,
    Double,
    StrArray,
    BoolArray,
    Int8Array,
    Int16Array,
    Int32Array,
    Int64Array,
    Uint8Array,
    Uint16Array,
    Uint32Array,
    Uint64Array,
    FloatArray,
    DoubleArray,
}

/// How an entry's value is expected to change over time.
#[derive(Clone, Copy, Debug, PartialEq, Eq, Structural)]
pub enum ChangeType {
    Static,
    OnChange,
    Continuous,
}

/// Role of an entry; registration through this core always yields a sensor.
#[derive(Clone, Copy, Debug, PartialEq, Eq, Structural)]
pub enum EntryType {
    Sensor,
    Actuator,
    Attribute,
}

/// Transport-security settings, stored for use at the next channel build; an
/// already-open channel is unaffected. Plumbing these into the transport is
/// the connecting caller's concern, not this core's.
#[derive(Debug, Clone)]
pub struct TlsConfig {
    pub domain_name: Option<String>,
    pub ca_certificate_pem: Option<Vec<u8>>,
}

/// New entry requested from the store: name, coded types, and description,
/// processed strictly in input order.
#[derive(Debug, Clone)]
pub struct RegistrationDescriptor {
    pub name: String,
    pub data_type: i32,
    pub change_type: i32,
    pub description: String,
}

} // verus!
