//! Flag and mask constants for the kernel event facility, and the group
//! classes they select.
//!
//! All constants mirror the kernel's wire-level values: initialization flags
//! and mark flags are 32-bit bitsets, event masks are 64-bit bitsets.

use vstd::prelude::*;

verus! {

/// Initialization flag: close the group descriptor on exec.
pub const FAN_CLOEXEC: u32 = 0x0000_0001;
/// Initialization flag: non-blocking reads on the group descriptor.
pub const FAN_NONBLOCK: u32 = 0x0000_0002;
/// Initialization class: notification-only events.
pub const FAN_CLASS_NOTIF: u32 = 0x0000_0000;
/// Initialization class: permission events delivered after content is final.
pub const FAN_CLASS_CONTENT: u32 = 0x0000_0004;
/// Initialization class: permission events delivered before content is final.
pub const FAN_CLASS_PRE_CONTENT: u32 = 0x0000_0008;
/// Initialization flag: do not limit the event queue length.
pub const FAN_UNLIMITED_QUEUE: u32 = 0x0000_0010;
/// Initialization flag: do not limit the number of marks.
pub const FAN_UNLIMITED_MARKS: u32 = 0x0000_0020;

/// Event file open flag: read-only.
pub const O_RDONLY: u32 = 0x0000_0000;
/// Event file open flag: write-only.
pub const O_WRONLY: u32 = 0x0000_0001;
/// Event file open flag: read-write.
pub const O_RDWR: u32 = 0x0000_0002;
/// Event file open flag: no size limit on the opened file.
pub const O_LARGEFILE: u32 = 0x0000_8000;
/// Event file open flag: close the event descriptor on exec.
pub const O_CLOEXEC: u32 = 0x0008_0000;

/// Mark flag: register interest (merges with an existing mark).
pub const FAN_MARK_ADD: u32 = 0x0000_0001;
/// Mark flag: remove interest (a no-op if no mark exists).
pub const FAN_MARK_REMOVE: u32 = 0x0000_0002;
/// Mark flag: do not follow a symbolic link target.
pub const FAN_MARK_DONT_FOLLOW: u32 = 0x0000_0004;
/// Mark flag: fail unless the target is a directory.
pub const FAN_MARK_ONLYDIR: u32 = 0x0000_0008;
/// Mark flag: the mark covers the whole mount of the target.
pub const FAN_MARK_MOUNT: u32 = 0x0000_0010;
/// Mark flag: drop every mark of this group.
pub const FAN_MARK_FLUSH: u32 = 0x0000_0080;
/// Mark flag: the mark covers the whole filesystem of the target.
pub const FAN_MARK_FILESYSTEM: u32 = 0x0000_0100;

/// Event mask bit: a file was accessed (read).
pub const FAN_ACCESS: u64 = 0x0000_0001;
/// Event mask bit: a file was modified (written).
pub const FAN_MODIFY: u64 = 0x0000_0002;
/// Event mask bit: a writable file was closed.
pub const FAN_CLOSE_WRITE: u64 = 0x0000_0008;
/// Event mask bit: a read-only file was closed.
pub const FAN_CLOSE_NOWRITE: u64 = 0x0000_0010;
/// Event mask bit: a file was opened.
pub const FAN_OPEN: u64 = 0x0000_0020;
/// Event mask bit: a file was opened for execution.
pub const FAN_OPEN_EXEC: u64 = 0x0000_1000;
/// Event mask bit: a permission decision is required before an open.
pub const FAN_OPEN_PERM: u64 = 0x0001_0000;
/// Event mask bit: a permission decision is required before an access.
pub const FAN_ACCESS_PERM: u64 = 0x0002_0000;
/// Event mask bit: a permission decision is required before an exec open.
pub const FAN_OPEN_EXEC_PERM: u64 = 0x0004_0000;
/// Event mask bit: also watch events on a directory itself.
pub const FAN_ONDIR: u64 = 0x4000_0000;
/// Event mask bit: also watch events on the immediate children of a directory.
pub const FAN_EVENT_ON_CHILD: u64 = 0x0800_0000;
/// Union mask: any close, writable or not.
pub const FAN_CLOSE: u64 = 0x0000_0018;

/// Union mask of every permission-class bit: events carrying one of these
/// block the triggering process until a response is written.
pub const FAN_ALL_PERM_EVENTS: u64 = 0x0007_0000;

/// The event class a group was initialized with. The class is fixed at
/// creation and decides whether events are advisory or permission-gated.
#[derive(Clone, Copy, PartialEq, Eq, Structural, Debug)]
pub enum GroupClass {
    /// Advisory notifications only; events never block the triggering process.
    Notif,
    /// Permission events, delivered when the file content is final.
    Content,
    /// Permission events, delivered before the file content is final.
    PreContent,
}

impl GroupClass {
    /// Whether a group of this class receives permission events and may
    /// write responses.
    pub open spec fn is_permission_class(self) -> bool {
        self != GroupClass::Notif
    }
}

/// The class selected by a set of initialization flags, if the class bits
/// name exactly one class. Both class bits together name none.
pub open spec fn spec_class_of_init_flags(flags: u32) -> Option<GroupClass> {
    if flags & (FAN_CLASS_CONTENT | FAN_CLASS_PRE_CONTENT) == 0 {
        Some(GroupClass::Notif)
    } else if flags & (FAN_CLASS_CONTENT | FAN_CLASS_PRE_CONTENT) == FAN_CLASS_CONTENT {
        Some(GroupClass::Content)
    } else if flags & (FAN_CLASS_CONTENT | FAN_CLASS_PRE_CONTENT) == FAN_CLASS_PRE_CONTENT {
        Some(GroupClass::PreContent)
    } else {
        None
    }
}

/// Reads the group class out of a set of initialization flags.
pub fn class_of_init_flags(flags: u32) -> (r: Option<GroupClass>)
    ensures
        r == spec_class_of_init_flags(flags),
{
    let class_bits: u32 = flags & (FAN_CLASS_CONTENT | FAN_CLASS_PRE_CONTENT);
    if class_bits == 0 {
        Some(GroupClass::Notif)
    } else if class_bits == FAN_CLASS_CONTENT {
        Some(GroupClass::Content)
    } else if class_bits == FAN_CLASS_PRE_CONTENT {
        Some(GroupClass::PreContent)
    } else {
        None
    }
}

/// Whether a mask holds at least one permission-class bit.
pub open spec fn spec_mask_has_permission_bits(mask: u64) -> bool {
    mask & FAN_ALL_PERM_EVENTS != 0
}

/// Tests whether a mask holds at least one permission-class bit.
pub fn mask_has_permission_bits(mask: u64) -> (r: bool)
    ensures
        r == spec_mask_has_permission_bits(mask),
{
    mask & FAN_ALL_PERM_EVENTS != 0
}

/// Tests whether every bit of `mask` is also set in `marked`. A delivered
/// event's mask is expected to stay within what the group marked; this
/// lets a caller check that expectation against a live kernel.
pub fn mask_is_subset_of(mask: u64, marked: u64) -> (r: bool)
    ensures
        r == (mask & marked == mask),
{
    mask & marked == mask
}

} // verus!
