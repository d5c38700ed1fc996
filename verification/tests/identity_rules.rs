//! The all-or-nothing rule for the remote-session identity.

use pursue::identity::resolve_identity;

#[test]
fn identity_present_when_all_reads_succeed() {
    let info = resolve_identity(
        true,
        Some("pursue".to_owned()),
        Some("1000".to_owned()),
        Some("host".to_owned()),
    )
    .unwrap();
    assert_eq!(info.user, "pursue");
    assert_eq!(info.host, "host");
    assert!(!info.is_root);
}

#[test]
fn identity_detects_root_from_uid_zero() {
    let info = resolve_identity(
        true,
        Some("root".to_owned()),
        Some("0".to_owned()),
        Some("host".to_owned()),
    )
    .unwrap();
    assert!(info.is_root);
}

#[test]
fn identity_absent_without_ssh_connection() {
    let info = resolve_identity(
        false,
        Some("pursue".to_owned()),
        Some("1000".to_owned()),
        Some("host".to_owned()),
    );
    assert!(info.is_none());
}

#[test]
fn identity_absent_when_any_read_fails() {
    assert!(resolve_identity(true, None, Some("1000".to_owned()), Some("host".to_owned())).is_none());
    assert!(resolve_identity(true, Some("pursue".to_owned()), None, Some("host".to_owned())).is_none());
    assert!(resolve_identity(true, Some("pursue".to_owned()), Some("1000".to_owned()), None).is_none());
}
