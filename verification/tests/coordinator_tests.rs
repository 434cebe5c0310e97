use click_to_call::coordinate::{
    determine_role, forward_message, forward_step, hide_at_start, local_tel_action, ping_message,
    startup_action, ForwardStep, LocalAction, ProbeOutcome, Role, StartAction, WriteResult,
};
use click_to_call::listener::{route_payload, RouteDecision};
use click_to_call::settings::Settings;

fn configured_settings() -> Settings {
    Settings {
        domain: "pbx.example.com".to_string(),
        extension: "100".to_string(),
        key: "abc".to_string(),
        auto_answer: false,
    }
}

#[test]
fn live_listener_means_secondary() {
    let d = determine_role(ProbeOutcome::Accepted);
    assert_eq!(d.role, Role::Secondary);
    assert!(!d.remove_stale);
}

#[test]
fn stale_socket_means_primary_and_removal() {
    let d = determine_role(ProbeOutcome::Stale);
    assert_eq!(d.role, Role::Primary);
    assert!(d.remove_stale);
}

#[test]
fn no_listener_means_primary() {
    let d = determine_role(ProbeOutcome::NoListener);
    assert_eq!(d.role, Role::Primary);
    assert!(!d.remove_stale);
}

#[test]
fn ping_payload_is_ignored_by_the_listener() {
    let ping = ping_message(1234567);
    assert_eq!(ping, "ping-1234567");
    let settings = configured_settings();
    assert!(matches!(
        route_payload(&settings, ping),
        RouteDecision::Discard
    ));
}

#[test]
fn secondary_with_reachable_primary_writes_uri_and_exits() {
    // A secondary process holding tel:5551234567 forwards exactly that URI
    // and, once the write is accepted, exits with status zero. It never
    // builds a call itself.
    let payload = forward_message("5551234567");
    assert_eq!(payload, "tel:5551234567");
    assert_eq!(forward_step(false, WriteResult::Delivered), ForwardStep::ExitSuccess);
}

#[test]
fn undeliverable_hand_off_spawns_then_gives_up() {
    assert_eq!(
        forward_step(false, WriteResult::Undeliverable),
        ForwardStep::SpawnAndRetry
    );
    assert_eq!(forward_step(true, WriteResult::Delivered), ForwardStep::ExitSuccess);
    assert_eq!(
        forward_step(true, WriteResult::Undeliverable),
        ForwardStep::RunInteractive
    );
}

#[test]
fn only_a_secondary_with_a_tel_argument_forwards() {
    assert_eq!(startup_action(Role::Secondary, true), StartAction::ForwardHandOff);
    assert_eq!(startup_action(Role::Secondary, false), StartAction::HandleLocally);
    assert_eq!(startup_action(Role::Primary, true), StartAction::HandleLocally);
    assert_eq!(startup_action(Role::Primary, false), StartAction::HandleLocally);
}

#[test]
fn hide_policy_applies_to_primary_with_tel_argument() {
    assert!(hide_at_start(Role::Primary, true));
    assert!(!hide_at_start(Role::Primary, false));
    assert!(!hide_at_start(Role::Secondary, true));
}

#[test]
fn local_number_dials_directly_only_when_configured() {
    let settings = configured_settings();
    match local_tel_action(&settings, "5551234567") {
        LocalAction::DirectCall(p) => {
            assert_eq!(p.domain, "pbx.example.com");
            assert_eq!(p.extension, "100");
            assert_eq!(p.key, "abc");
            assert_eq!(p.phone_number, "5551234567");
            assert!(!p.auto_answer);
        }
        LocalAction::ShowUi => panic!("expected a direct call"),
    }
    let unconfigured = Settings::empty();
    assert!(matches!(
        local_tel_action(&unconfigured, "5551234567"),
        LocalAction::ShowUi
    ));
    assert!(matches!(
        local_tel_action(&settings, ""),
        LocalAction::ShowUi
    ));
}

#[test]
fn ping_stamp_renders_in_full_decimal() {
    assert_eq!(ping_message(0), "ping-0");
    assert_eq!(ping_message(u64::MAX), "ping-18446744073709551615");
}
