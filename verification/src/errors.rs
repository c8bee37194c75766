//! The error taxonomy of the access layer, and the policy that maps
//! OS-level failures into it and decides which failures are recoverable.

use vstd::prelude::*;

verus! {

/// OS error number: operation not permitted.
pub const EPERM: i32 = 1;
/// OS error number: no such file or directory.
pub const ENOENT: i32 = 2;
/// OS error number: not a directory.
pub const ENOTDIR: i32 = 20;
/// OS error number: invalid argument.
pub const EINVAL: i32 = 22;

/// Every failure the access layer can surface.
#[derive(Clone, Copy, PartialEq, Eq, Structural, Debug)]
pub enum FanotifyError {
    /// The caller lacks the privilege the kernel facility demands.
    PermissionDenied,
    /// The running kernel rejects the requested flag combination, or the
    /// class bits of an initialization request name no single class.
    UnsupportedConfiguration,
    /// A mark request named neither an anchor descriptor nor a path.
    InvalidTarget,
    /// A mark request carried an empty event mask, or one not permitted
    /// for the group's class.
    InvalidMask,
    /// An event buffer failed a structural length check; the whole read is
    /// abandoned, since a byte-offset desynchronization makes every later
    /// record unsafe to trust.
    CorruptStream,
    /// An event record carries a metadata version other than the one this
    /// decoder was built against; its layout must not be guessed.
    UnsupportedVersion,
    /// A response was aimed at a notification-only event.
    InvalidResponseTarget,
    /// A transport-level failure, carrying the OS error number.
    Io(i32),
}

/// The error surfaced when group initialization fails with the given OS
/// error number: a privilege failure, a flag combination the kernel
/// rejects, or any other transport failure.
pub open spec fn spec_init_error_from_os(errno: i32) -> FanotifyError {
    if errno == EPERM {
        FanotifyError::PermissionDenied
    } else if errno == EINVAL {
        FanotifyError::UnsupportedConfiguration
    } else {
        FanotifyError::Io(errno)
    }
}

/// Maps an OS error number from a failed group initialization to the
/// error surfaced to the caller.
pub fn init_error_from_os(errno: i32) -> (r: FanotifyError)
    ensures
        r == spec_init_error_from_os(errno),
{
    if errno == EPERM {
        FanotifyError::PermissionDenied
    } else if errno == EINVAL {
        FanotifyError::UnsupportedConfiguration
    } else {
        FanotifyError::Io(errno)
    }
}

/// The error surfaced when a locally well-formed mark request fails in
/// the kernel: a target that does not resolve, a mask the kernel rejects,
/// a privilege failure, or any other transport failure.
pub open spec fn spec_mark_error_from_os(errno: i32) -> FanotifyError {
    if errno == ENOENT || errno == ENOTDIR {
        FanotifyError::InvalidTarget
    } else if errno == EINVAL {
        FanotifyError::InvalidMask
    } else if errno == EPERM {
        FanotifyError::PermissionDenied
    } else {
        FanotifyError::Io(errno)
    }
}

/// Maps an OS error number from a failed mark request to the error
/// surfaced to the caller.
pub fn mark_error_from_os(errno: i32) -> (r: FanotifyError)
    ensures
        r == spec_mark_error_from_os(errno),
{
    if errno == ENOENT || errno == ENOTDIR {
        FanotifyError::InvalidTarget
    } else if errno == EINVAL {
        FanotifyError::InvalidMask
    } else if errno == EPERM {
        FanotifyError::PermissionDenied
    } else {
        FanotifyError::Io(errno)
    }
}

/// Whether a failed event read may be retried by calling again: true
/// exactly for transport failures, which consume nothing beyond the
/// buffer. Decode failures are not retryable.
pub fn read_may_retry(e: FanotifyError) -> (r: bool)
    ensures
        r == (e matches FanotifyError::Io(_)),
{
    match e {
        FanotifyError::Io(_) => true,
        _ => false,
    }
}

/// Whether a failure is fatal for the whole group: true exactly for a
/// corrupt event stream and for a metadata version mismatch. A caller
/// seeing one should close the group and initialize a new one.
pub fn error_is_fatal_for_group(e: FanotifyError) -> (r: bool)
    ensures
        r == (e == FanotifyError::CorruptStream || e == FanotifyError::UnsupportedVersion),
{
    match e {
        FanotifyError::CorruptStream => true,
        FanotifyError::UnsupportedVersion => true,
        _ => false,
    }
}

} // verus!
