//! The validation policy of a group: which initialization requests name a
//! class, which mark requests are well-formed for a class, and which
//! events a response may answer.
//!
//! The kernel itself holds the mark table; every mark request here is
//! validated locally and then handed through as an independent, idempotent
//! request. Adding the same mark twice merges masks, and removing an
//! absent mark succeeds, by the kernel facility's own semantics — neither
//! is mirrored locally.

use vstd::prelude::*;
use crate::errors::FanotifyError;
use crate::event::Event;
use crate::flags::{spec_class_of_init_flags, spec_mask_has_permission_bits, GroupClass};

verus! {

/// What a mark request must satisfy before it is handed to the kernel:
/// it must name at least one of an anchor descriptor and a path, its mask
/// must be non-empty, and a mask watching permission events is only
/// permitted on a permission-class group.
pub open spec fn spec_validate_mark(
    class: GroupClass,
    mask: u64,
    has_anchor: bool,
    has_path: bool,
) -> Result<(), FanotifyError> {
    if !has_anchor && !has_path {
        Err(FanotifyError::InvalidTarget)
    } else if mask == 0 {
        Err(FanotifyError::InvalidMask)
    } else if spec_mask_has_permission_bits(mask) && !class.is_permission_class() {
        Err(FanotifyError::InvalidMask)
    } else {
        Ok(())
    }
}

/// Validates an initialization request: the class bits must name exactly
/// one class, else the configuration is unsupported.
pub fn validate_init(flags: u32) -> (r: Result<GroupClass, FanotifyError>)
    ensures
        match spec_class_of_init_flags(flags) {
            Some(c) => r == Ok::<GroupClass, FanotifyError>(c),
            None => r == Err::<GroupClass, FanotifyError>(FanotifyError::UnsupportedConfiguration),
        },
{
    match crate::flags::class_of_init_flags(flags) {
        Some(c) => Ok(c),
        None => Err(FanotifyError::UnsupportedConfiguration),
    }
}

/// Validates a mark request against the group's class before it is handed
/// to the kernel. Success here promises only local well-formedness: the
/// kernel remains the source of truth for whether the mark takes effect.
pub fn validate_mark(class: GroupClass, mask: u64, has_anchor: bool, has_path: bool) -> (r: Result<
    (),
    FanotifyError,
>)
    ensures
        r == spec_validate_mark(class, mask, has_anchor, has_path),
{
    if !has_anchor && !has_path {
        Err(FanotifyError::InvalidTarget)
    } else if mask == 0 {
        Err(FanotifyError::InvalidMask)
    } else if crate::flags::mask_has_permission_bits(mask) && class == GroupClass::Notif {
        Err(FanotifyError::InvalidMask)
    } else {
        Ok(())
    }
}

/// Whether a response may answer the given event on a group of the given
/// class: only a permission-class group delivers events that block a
/// caller, and only an event carrying a permission bit does so.
pub open spec fn spec_validate_response(class: GroupClass, event: Event) -> Result<
    (),
    FanotifyError,
> {
    if class.is_permission_class() && event.is_permission_event() {
        Ok(())
    } else {
        Err(FanotifyError::InvalidResponseTarget)
    }
}

/// Validates that a response aims at a permission event of a
/// permission-class group. Answering a notification-only event is a usage
/// error: the kernel has nothing blocked on it.
pub fn validate_response(class: GroupClass, event: &Event) -> (r: Result<(), FanotifyError>)
    ensures
        r == spec_validate_response(class, *event),
        r is Ok <==> class.is_permission_class() && event.is_permission_event(),
{
    if class != GroupClass::Notif && event.requires_response() {
        Ok(())
    } else {
        Err(FanotifyError::InvalidResponseTarget)
    }
}

} // verus!
