//! Tests of group initialization, mark and response validation, and of
//! the error policy.

use fanotify::errors::{
    error_is_fatal_for_group, init_error_from_os, mark_error_from_os, read_may_retry,
    FanotifyError, EINVAL, ENOENT, ENOTDIR, EPERM,
};
use fanotify::event::{Event, FANOTIFY_METADATA_VERSION};
use fanotify::flags::{
    class_of_init_flags, GroupClass, FAN_CLASS_CONTENT, FAN_CLASS_NOTIF, FAN_CLASS_PRE_CONTENT,
    FAN_CLOEXEC, FAN_NONBLOCK, FAN_OPEN, FAN_OPEN_PERM,
};
use fanotify::group::{validate_init, validate_mark, validate_response};

fn event_with_mask(mask: u64) -> Event {
    Event {
        metadata_version: FANOTIFY_METADATA_VERSION,
        mask,
        pid: 1,
        fd: Some(3),
    }
}

#[test]
fn init_flags_select_the_class() {
    assert_eq!(class_of_init_flags(FAN_CLASS_NOTIF), Some(GroupClass::Notif));
    assert_eq!(
        class_of_init_flags(FAN_CLASS_CONTENT),
        Some(GroupClass::Content)
    );
    assert_eq!(
        class_of_init_flags(FAN_CLASS_PRE_CONTENT),
        Some(GroupClass::PreContent)
    );
    assert_eq!(
        class_of_init_flags(FAN_CLASS_CONTENT | FAN_CLASS_PRE_CONTENT),
        None
    );
}

#[test]
fn init_modifier_flags_leave_the_class_alone() {
    assert_eq!(
        class_of_init_flags(FAN_CLASS_CONTENT | FAN_CLOEXEC | FAN_NONBLOCK),
        Some(GroupClass::Content)
    );
}

#[test]
fn validate_init_accepts_each_single_class() {
    assert_eq!(validate_init(FAN_CLASS_NOTIF), Ok(GroupClass::Notif));
    assert_eq!(validate_init(FAN_CLASS_CONTENT), Ok(GroupClass::Content));
    assert_eq!(
        validate_init(FAN_CLASS_PRE_CONTENT),
        Ok(GroupClass::PreContent)
    );
}

#[test]
fn validate_init_rejects_contradictory_class_bits() {
    assert_eq!(
        validate_init(FAN_CLASS_CONTENT | FAN_CLASS_PRE_CONTENT),
        Err(FanotifyError::UnsupportedConfiguration)
    );
}

#[test]
fn mark_without_anchor_or_path_is_an_invalid_target() {
    assert_eq!(
        validate_mark(GroupClass::Notif, FAN_OPEN, false, false),
        Err(FanotifyError::InvalidTarget)
    );
}

#[test]
fn mark_with_empty_mask_is_an_invalid_mask() {
    assert_eq!(
        validate_mark(GroupClass::Notif, 0, false, true),
        Err(FanotifyError::InvalidMask)
    );
}

#[test]
fn permission_mask_on_notification_group_is_an_invalid_mask() {
    assert_eq!(
        validate_mark(GroupClass::Notif, FAN_OPEN_PERM, false, true),
        Err(FanotifyError::InvalidMask)
    );
}

#[test]
fn permission_mask_on_content_group_is_accepted() {
    assert_eq!(
        validate_mark(GroupClass::Content, FAN_OPEN_PERM, false, true),
        Ok(())
    );
    assert_eq!(
        validate_mark(GroupClass::PreContent, FAN_OPEN_PERM, true, false),
        Ok(())
    );
}

#[test]
fn notification_mask_on_notification_group_is_accepted() {
    assert_eq!(
        validate_mark(GroupClass::Notif, FAN_OPEN, false, true),
        Ok(())
    );
}

#[test]
fn response_to_notification_group_is_rejected() {
    assert_eq!(
        validate_response(GroupClass::Notif, &event_with_mask(FAN_OPEN_PERM)),
        Err(FanotifyError::InvalidResponseTarget)
    );
}

#[test]
fn response_to_notification_only_event_is_rejected() {
    assert_eq!(
        validate_response(GroupClass::Content, &event_with_mask(FAN_OPEN)),
        Err(FanotifyError::InvalidResponseTarget)
    );
}

#[test]
fn response_to_permission_event_is_accepted() {
    assert_eq!(
        validate_response(GroupClass::Content, &event_with_mask(FAN_OPEN_PERM)),
        Ok(())
    );
    let e = event_with_mask(FAN_OPEN_PERM);
    assert!(e.requires_response());
}

#[test]
fn init_errors_map_by_errno() {
    assert_eq!(init_error_from_os(EPERM), FanotifyError::PermissionDenied);
    assert_eq!(
        init_error_from_os(EINVAL),
        FanotifyError::UnsupportedConfiguration
    );
    assert_eq!(init_error_from_os(5), FanotifyError::Io(5));
}

#[test]
fn mark_errors_map_by_errno() {
    assert_eq!(mark_error_from_os(ENOENT), FanotifyError::InvalidTarget);
    assert_eq!(mark_error_from_os(ENOTDIR), FanotifyError::InvalidTarget);
    assert_eq!(mark_error_from_os(EINVAL), FanotifyError::InvalidMask);
    assert_eq!(mark_error_from_os(EPERM), FanotifyError::PermissionDenied);
    assert_eq!(mark_error_from_os(13), FanotifyError::Io(13));
}

#[test]
fn only_transport_errors_are_retryable_reads() {
    assert!(read_may_retry(FanotifyError::Io(4)));
    assert!(!read_may_retry(FanotifyError::CorruptStream));
    assert!(!read_may_retry(FanotifyError::UnsupportedVersion));
    assert!(!read_may_retry(FanotifyError::InvalidMask));
}

#[test]
fn decode_failures_are_fatal_for_the_group() {
    assert!(error_is_fatal_for_group(FanotifyError::CorruptStream));
    assert!(error_is_fatal_for_group(FanotifyError::UnsupportedVersion));
    assert!(!error_is_fatal_for_group(FanotifyError::Io(11)));
    assert!(!error_is_fatal_for_group(FanotifyError::PermissionDenied));
}
