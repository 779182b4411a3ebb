//! Narrow interface onto the entry store, the external collaborator that owns
//! the entries, their indexing, and their bounds and type validation. This
//! core only calls through it; nothing is assumed of what a call returns, and
//! every handler states what holds of its own result whatever came back.

use vstd::prelude::*;

use crate::types::ChangeType;
use crate::types::DataType;
use crate::types::DataValue;
use crate::types::EntryType;
use crate::types::EntryUpdateRecord;
use crate::types::FailureKind;
use crate::types::Permissions;
use crate::types::RegistrationError;

verus! {

/// The entry store, consumed at signature level only. Every call is made
/// under an authorization context that the handler extracted once.
pub trait Store {
    /// Applies a batch of partial updates. On anything but full success the
    /// mapping from each failing id to its failure comes back; ids absent
    /// from it succeeded.
    fn update_entries(
        &mut self,
        permissions: &Permissions,
        updates: Vec<(i32, EntryUpdateRecord)>,
    ) -> Result<(), Vec<(i32, FailureKind)>>;

    /// Registers one new entry under the given name, yielding its assigned
    /// id.
    fn add_entry(
        &mut self,
        permissions: &Permissions,
        name: String,
        data_type: DataType,
        change_type: ChangeType,
        entry_type: EntryType,
        description: String,
        min: Option<DataValue>,
        max: Option<DataValue>,
        unit: Option<String>,
        allowed: Option<Vec<DataValue>>,
    ) -> Result<i32, RegistrationError>;
}

} // verus!
