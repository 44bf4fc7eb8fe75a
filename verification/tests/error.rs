use nixos_upgrade::error::{ExitReport, NixosUpgradeError};

#[test]
fn network_check_message() {
    assert_eq!(
        NixosUpgradeError::NetworkCheck("connection timed out".to_string()).message(),
        "Failed to check network connectivity: connection timed out"
    );
}

#[test]
fn network_unavailable_message() {
    assert_eq!(NixosUpgradeError::NetworkUnavailable.message(), "Network is not available");
}

#[test]
fn rebuild_spawn_message() {
    assert_eq!(
        NixosUpgradeError::NixosRebuild("No such file or directory (os error 2)".to_string())
            .message(),
        "Failed to execute nixos-rebuild: No such file or directory (os error 2)"
    );
}

#[test]
fn rebuild_failed_message_keeps_the_status() {
    let report = ExitReport { code: Some(1), text: "exit status: 1".to_string() };
    assert_eq!(
        NixosUpgradeError::NixosRebuildFailed(report).message(),
        "nixos-rebuild failed with exit code: exit status: 1"
    );
}

#[test]
fn config_read_message() {
    assert_eq!(
        NixosUpgradeError::ConfigRead("Permission denied (os error 13)".to_string()).message(),
        "Failed to read config file: Permission denied (os error 13)"
    );
}

#[test]
fn config_parse_message() {
    assert_eq!(
        NixosUpgradeError::ConfigParse("EOF while parsing a value".to_string()).message(),
        "Failed to parse config file: EOF while parsing a value"
    );
}

#[test]
fn empty_cause_leaves_the_prefix() {
    assert_eq!(
        NixosUpgradeError::ConfigRead(String::new()).message(),
        "Failed to read config file: "
    );
}

#[test]
fn only_code_zero_is_success() {
    assert!(ExitReport { code: Some(0), text: "exit status: 0".to_string() }.success());
    assert!(!ExitReport { code: Some(1), text: "exit status: 1".to_string() }.success());
    assert!(!ExitReport { code: Some(-1), text: "exit status: -1".to_string() }.success());
    assert!(!ExitReport { code: None, text: "signal: 9 (SIGKILL)".to_string() }.success());
}
