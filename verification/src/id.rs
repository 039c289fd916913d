//! Identifiers of queue families and queues.

use vstd::prelude::*;

verus! {

/// Identifies a queue family of a device.
#[derive(Clone, Copy, Debug, PartialEq, Eq, Structural, Hash)]
pub struct FamilyId {
    /// Index of the device that the family belongs to.
    pub device: u64,
    /// Index of the family among the device's families.
    pub index: usize,
}

/// Identifies a queue: its family, and its index within the family.
#[derive(Clone, Copy, Debug, PartialEq, Eq, Structural, Hash)]
pub struct QueueId {
    /// The family that the queue belongs to.
    pub family: FamilyId,
    /// Index of the queue among the family's queues.
    pub index: usize,
}

} // verus!
