use nixos_upgrade::error::NixosUpgradeError;
use nixos_upgrade::network::{
    check_network_available, next_endpoint, ProbeOutcome, PROBE_TIMEOUT_SECS,
};

fn failed(cause: &str) -> ProbeOutcome {
    ProbeOutcome::Failed(cause.to_string())
}

#[test]
fn timeout_is_two_seconds() {
    assert_eq!(PROBE_TIMEOUT_SECS, 2);
}

#[test]
fn endpoints_are_tried_in_order() {
    assert_eq!(next_endpoint(&Vec::new()).as_deref(), Some("8.8.8.8:53"));
    assert_eq!(next_endpoint(&vec![failed("invalid port value")]).as_deref(), Some("1.1.1.1:53"));
    assert_eq!(next_endpoint(&vec![ProbeOutcome::Unreachable]).as_deref(), Some("1.1.1.1:53"));
    assert_eq!(next_endpoint(&vec![failed("a"), failed("b")]), None);
}

#[test]
fn probe_stops_at_the_first_connection() {
    assert_eq!(next_endpoint(&vec![ProbeOutcome::Connected]), None);
    assert_eq!(next_endpoint(&vec![failed("a"), ProbeOutcome::Connected]), None);
}

#[test]
fn first_connection_shows_the_network() {
    assert_eq!(check_network_available(&vec![ProbeOutcome::Connected]), Ok(true));
}

#[test]
fn later_connection_outweighs_an_earlier_failure() {
    assert_eq!(
        check_network_available(&vec![failed("invalid port value"), ProbeOutcome::Connected]),
        Ok(true)
    );
    assert_eq!(
        check_network_available(&vec![ProbeOutcome::Unreachable, ProbeOutcome::Connected]),
        Ok(true)
    );
}

#[test]
fn failures_make_the_probe_fail_with_the_last_cause() {
    assert_eq!(
        check_network_available(&vec![failed("invalid address"), failed("invalid port value")]),
        Err(NixosUpgradeError::NetworkCheck("invalid port value".to_string()))
    );
    assert_eq!(
        check_network_available(&vec![failed("invalid address"), ProbeOutcome::Unreachable]),
        Err(NixosUpgradeError::NetworkCheck("invalid address".to_string()))
    );
    assert_eq!(
        check_network_available(&vec![ProbeOutcome::Unreachable, failed("invalid address")]),
        Err(NixosUpgradeError::NetworkCheck("invalid address".to_string()))
    );
}

#[test]
fn no_way_to_any_endpoint_means_unavailable() {
    assert_eq!(
        check_network_available(&vec![ProbeOutcome::Unreachable, ProbeOutcome::Unreachable]),
        Ok(false)
    );
    assert_eq!(check_network_available(&Vec::new()), Ok(false));
}

#[test]
fn probe_loop_reaches_a_verdict() {
    let script = [ProbeOutcome::Unreachable, ProbeOutcome::Connected];
    let mut outcomes = Vec::new();
    let mut tried = Vec::new();
    while let Some(endpoint) = next_endpoint(&outcomes) {
        outcomes.push(script[tried.len()].clone());
        tried.push(endpoint);
    }
    assert_eq!(tried, vec!["8.8.8.8:53", "1.1.1.1:53"]);
    assert_eq!(check_network_available(&outcomes), Ok(true));
}
