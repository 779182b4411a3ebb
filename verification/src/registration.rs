//! Registration handler: decodes a batch of new-entry descriptors and
//! registers them through the store, strictly in input order and not
//! transactionally — the first failure aborts the whole request, naming the
//! offending entry, and what already succeeded stays registered.

use vstd::prelude::*;
use vstd::string::StringExecFns;

use crate::store::Store;
use crate::types::ChangeType;
use crate::types::DataType;
use crate::types::EntryType;
use crate::types::Permissions;
use crate::types::RegistrationDescriptor;
use crate::types::RegistrationError;
use crate::types::RpcCode;
use crate::types::RpcStatus;
use crate::types::is_unauthenticated;
use crate::types::unauthenticated_status;

verus! {

/// The data type a wire code names, if any.
pub open spec fn spec_decode_data_type(code: i32) -> Option<DataType> {
    if code == 0 {
        Some(DataType::Str)
    } else if code == 1 {
        Some(DataType::Bool)
    } else if code == 2 {
        Some(DataType::Int8)
    } else if code == 3 {
        Some(DataType::Int16)
    } else if code == 4 {
        Some(DataType::Int32)
    } else if code == 5 {
        Some(DataType::Int64)
    } else if code == 6 {
        Some(DataType::Uint8)
    } else if code == 7 {
        Some(DataType::Uint16)
    } else if code == 8 {
        Some(DataType::Uint32)
    } else if code == 9 {
        Some(DataType::Uint64)
    } else if code == 10 {
        Some(DataType::Float)
    } else if code == 11 {
        Some(DataType::Double)
    } else if code == 20 {
        Some(DataType::StrArray)
    } else if code == 21 {
        Some(DataType::BoolArray)
    } else if code == 22 {
        Some(DataType::Int8Array)
    } else if code == 23 {
        Some(DataType::Int16Array)
    } else if code == 24 {
        Some(DataType::Int32Array)
    } else if code == 25 {
        Some(DataType::Int64Array)
    } else if code == 26 {
        Some(DataType::Uint8Array)
    } else if code == 27 {
        Some(DataType::Uint16Array)
    } else if code == 28 {
        Some(DataType::Uint32Array)
    } else if code == 29 {
        Some(DataType::Uint64Array)
    } else if code == 30 {
        Some(DataType::FloatArray)
    } else if code == 31 {
        Some(DataType::DoubleArray)
    } else {
        None
    }
}

/// Decodes a wire data-type code.
pub fn decode_data_type(code: i32) -> (r: Option<DataType>)
    ensures
        r == spec_decode_data_type(code),
{
    match code {
        0 => Some(DataType::Str),
        1 => Some(DataType::Bool),
        2 => Some(DataType::Int8),
        3 => Some(DataType::Int16),
        4 => Some(DataType::Int32),
        5 => Some(DataType::Int64),
        6 => Some(DataType::Uint8),
        7 => Some(DataType::Uint16),
        8 => Some(DataType::Uint32),
        9 => Some(DataType::Uint64),
        10 => Some(DataType::Float),
        11 => Some(DataType::Double),
        20 => Some(DataType::StrArray),
        21 => Some(DataType::BoolArray),
        22 => Some(DataType::Int8Array),
        23 => Some(DataType::Int16Array),
        24 => Some(DataType::Int32Array),
        25 => Some(DataType::Int64Array),
        26 => Some(DataType::Uint8Array),
        27 => Some(DataType::Uint16Array),
        28 => Some(DataType::Uint32Array),
        29 => Some(DataType::Uint64Array),
        30 => Some(DataType::FloatArray),
        31 => Some(DataType::DoubleArray),
        _ => None,
    }
}

/// The change type a wire code names, if any.
pub open spec fn spec_decode_change_type(code: i32) -> Option<ChangeType> {
    if code == 0 {
        Some(ChangeType::Static)
    } else if code == 1 {
        Some(ChangeType::OnChange)
    } else if code == 2 {
        Some(ChangeType::Continuous)
    } else {
        None
    }
}

/// Decodes a wire change-type code.
pub fn decode_change_type(code: i32) -> (r: Option<ChangeType>)
    ensures
        r == spec_decode_change_type(code),
{
    match code {
        0 => Some(ChangeType::Static),
        1 => Some(ChangeType::OnChange),
        2 => Some(ChangeType::Continuous),
        _ => None,
    }
}

/// Whether both coded types of a descriptor decode.
pub open spec fn descriptor_valid(d: RegistrationDescriptor) -> bool {
    spec_decode_data_type(d.data_type) is Some && spec_decode_change_type(d.change_type) is Some
}

/// The status rejecting a descriptor whose coded types do not decode: an
/// invalid-argument condition naming the entry, the data type checked first.
pub open spec fn is_decode_failure_status(s: RpcStatus, d: RegistrationDescriptor) -> bool {
    s.code == RpcCode::InvalidArgument && if spec_decode_data_type(d.data_type) is None {
        s.message@ == "Unsupported data type provided for "@ + d.name@
    } else {
        s.message@ == "Unsupported change type provided for "@ + d.name@
    }
}

/// Decodes one descriptor's coded types, rejecting the descriptor with a
/// status naming it when either code is unknown.
pub fn decode_descriptor(d: &RegistrationDescriptor) -> (r: Result<(DataType, ChangeType), RpcStatus>)
    ensures
        r is Ok <==> descriptor_valid(*d),
        r matches Ok(t) ==> Some(t.0) == spec_decode_data_type(d.data_type) && Some(t.1)
            == spec_decode_change_type(d.change_type),
        r matches Err(s) ==> is_decode_failure_status(s, *d),
{
    match (decode_data_type(d.data_type), decode_change_type(d.change_type)) {
        (Some(data_type), Some(change_type)) => Ok((data_type, change_type)),
        (None, _) => {
            let mut m: String = "Unsupported data type provided for ".to_owned();
            m.append(d.name.as_str());
            Err(RpcStatus { code: RpcCode::InvalidArgument, message: m })
        },
        (_, None) => {
            let mut m: String = "Unsupported change type provided for ".to_owned();
            m.append(d.name.as_str());
            Err(RpcStatus { code: RpcCode::InvalidArgument, message: m })
        },
    }
}

/// The condition a store registration failure aborts with.
pub open spec fn spec_registration_code(e: RegistrationError) -> RpcCode {
    match e {
        RegistrationError::PermissionDenied => RpcCode::PermissionDenied,
        RegistrationError::PermissionExpired => RpcCode::Unauthenticated,
        RegistrationError::ValidationError => RpcCode::InvalidArgument,
    }
}

/// The status a store registration failure aborts with: its condition, naming
/// the entry that failed.
pub open spec fn is_registration_failure_status(
    s: RpcStatus,
    name: Seq<char>,
    e: RegistrationError,
) -> bool {
    s.code == spec_registration_code(e) && s.message@ == "Failed to register "@ + name
}

/// Builds the status a store registration failure aborts with.
pub fn registration_failure_status(name: &str, err: RegistrationError) -> (r: RpcStatus)
    ensures
        is_registration_failure_status(r, name@, err),
{
    let code = match err {
        RegistrationError::PermissionDenied => RpcCode::PermissionDenied,
        RegistrationError::PermissionExpired => RpcCode::Unauthenticated,
        RegistrationError::ValidationError => RpcCode::InvalidArgument,
    };
    let mut m: String = "Failed to register ".to_owned();
    m.append(name);
    RpcStatus { code, message: m }
}

/// Registers a batch of descriptors through the store, strictly in input
/// order, as sensors with no bounds, unit, or allowed set. Without a
/// `Permissions` context the call is rejected as unauthenticated before any
/// store interaction. The first descriptor that fails — either code not
/// decoding, or the store refusing the entry — aborts the whole request with
/// a status naming it; descriptors after it are never attempted and nothing
/// already registered is rolled back. On success the mapping from each name
/// to its assigned id comes back, in input order.
pub fn register_datapoints<S: Store>(
    store: &mut S,
    permissions: Option<&Permissions>,
    list: Vec<RegistrationDescriptor>,
) -> (r: Result<Vec<(String, i32)>, RpcStatus>)
    ensures
        permissions is None ==> (r matches Err(s) && is_unauthenticated(s)) && *final(store)
            == *old(store),
        list@.len() > 0 && !descriptor_valid(list@[0]) ==> *final(store) == *old(store),
        permissions is Some ==> match r {
            Ok(results) => results@.len() == list@.len() && (forall|i: int|
                0 <= i < list@.len() ==> (#[trigger] results@[i]).0@ == list@[i].name@
                    && descriptor_valid(list@[i])),
            Err(s) => exists|i: int|
                0 <= i < list@.len() && (forall|j: int|
                    0 <= j < i ==> descriptor_valid(#[trigger] list@[j])) && (if descriptor_valid(
                    #[trigger] list@[i],
                ) {
                    exists|e: RegistrationError|
                        is_registration_failure_status(s, list@[i].name@, e)
                } else {
                    is_decode_failure_status(s, list@[i])
                }),
        },
{
    let perm = match permissions {
        Some(p) => p,
        None => { return Err(unauthenticated_status()); },
    };
    let mut rest = list;
    let mut results: Vec<(String, i32)> = Vec::new();
    while rest.len() > 0
        invariant
            permissions is Some,
            rest@.len() <= list@.len(),
            results@.len() + rest@.len() == list@.len(),
            rest@ =~= list@.skip(results@.len() as int),
            forall|i: int|
                0 <= i < results@.len() ==> (#[trigger] results@[i]).0@ == list@[i].name@,
            forall|i: int| 0 <= i < results@.len() ==> descriptor_valid(#[trigger] list@[i]),
            results@.len() == 0 ==> *store == *old(store),
        decreases rest@.len(),
    {
        let ghost k = results@.len() as int;
        let d = rest.remove(0);
        proof {
            assert(d == list@[k]);
            assert(rest@ =~= list@.skip(k + 1));
        }
        let (data_type, change_type) = match decode_descriptor(&d) {
            Ok(t) => t,
            Err(s) => {
                proof {
                    assert(!descriptor_valid(list@[k]));
                    assert(is_decode_failure_status(s, list@[k]));
                    assert(forall|j: int| 0 <= j < k ==> descriptor_valid(#[trigger] list@[j]));
                    // An invalid first descriptor fails here before any store
                    // call: a later iteration would contradict the valid
                    // prefix.
                    assert(!descriptor_valid(list@[0]) ==> k == 0);
                }
                return Err(s);
            },
        };
        match store.add_entry(
            perm,
            d.name.clone(),
            data_type,
            change_type,
            EntryType::Sensor,
            d.description,
            None,
            None,
            None,
            None,
        ) {
            Ok(id) => {
                results.push((d.name, id));
            },
            Err(e) => {
                let s = registration_failure_status(d.name.as_str(), e);
                proof {
                    assert(descriptor_valid(list@[k]));
                    assert(is_registration_failure_status(s, list@[k].name@, e));
                    assert(forall|j: int| 0 <= j < k ==> descriptor_valid(#[trigger] list@[j]));
                    assert(descriptor_valid(list@[0]));
                }
                return Err(s);
            },
        }
    }
    Ok(results)
}

} // verus!
