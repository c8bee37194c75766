//! Decoded kernel event records.

use vstd::prelude::*;
use crate::flags::spec_mask_has_permission_bits;

verus! {

/// The metadata version this decoder was built against. Every record must
/// carry it; a mismatch means the kernel's binary layout has drifted.
pub const FANOTIFY_METADATA_VERSION: u8 = 3;

/// The sentinel the kernel writes in a record's descriptor field when no
/// descriptor accompanies the event.
pub const FAN_NOFD: i32 = -1;

/// One decoded kernel event. Immutable after decode.
///
/// The descriptor, when present, refers to the file the event is about and
/// is owned by whoever holds the decoded record: it must be closed exactly
/// once. This layer carries it as a raw value; the caller that performs
/// descriptor I/O is responsible for wrapping it in an owning handle as
/// soon as the batch is decoded.
#[derive(Clone, Copy, PartialEq, Eq, Structural, Debug)]
pub struct Event {
    /// The structural version tag of the record this event came from.
    pub metadata_version: u8,
    /// The bitset of operations that occurred, possibly a union if several
    /// operations coalesced before delivery.
    pub mask: u64,
    /// The process that triggered the event.
    pub pid: i32,
    /// The descriptor embedded in the record, absent when the kernel sent
    /// the no-descriptor sentinel.
    pub fd: Option<i32>,
}

impl Event {
    /// Whether this event gates a blocked operation and therefore expects
    /// exactly one response.
    pub open spec fn is_permission_event(self) -> bool {
        spec_mask_has_permission_bits(self.mask)
    }

    /// The structural version tag of the record this event came from.
    pub fn version(&self) -> (r: u8)
        ensures
            r == self.metadata_version,
    {
        self.metadata_version
    }

    /// Whether the record's version tag equals the version this decoder
    /// was built against.
    pub fn check_version(&self) -> (r: bool)
        ensures
            r == (self.metadata_version == FANOTIFY_METADATA_VERSION),
    {
        self.metadata_version == FANOTIFY_METADATA_VERSION
    }

    /// The bitset of operations that occurred.
    pub fn mask(&self) -> (r: u64)
        ensures
            r == self.mask,
    {
        self.mask
    }

    /// The process that triggered the event.
    pub fn pid(&self) -> (r: i32)
        ensures
            r == self.pid,
    {
        self.pid
    }

    /// The descriptor embedded in the record, if any.
    pub fn fd(&self) -> (r: Option<i32>)
        ensures
            r == self.fd,
    {
        self.fd
    }

    /// Whether this event gates a blocked operation and therefore expects
    /// exactly one response.
    pub fn requires_response(&self) -> (r: bool)
        ensures
            r == self.is_permission_event(),
    {
        crate::flags::mask_has_permission_bits(self.mask)
    }
}

} // verus!
