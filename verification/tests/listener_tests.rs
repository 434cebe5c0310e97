use click_to_call::listener::{listener_step, route_payload, ListenerAction, PollEvent, RouteDecision};
use click_to_call::settings::Settings;

fn configured() -> Settings {
    Settings {
        domain: "pbx.example.com".to_string(),
        extension: "100".to_string(),
        key: "abc".to_string(),
        auto_answer: false,
    }
}

#[test]
fn forwarded_uri_with_settings_dials_silently() {
    match route_payload(&configured(), "tel:+1 (555) 123-4567".to_string()) {
        RouteDecision::SilentCall(p) => {
            assert_eq!(p.phone_number, "+15551234567");
            assert_eq!(p.domain, "pbx.example.com");
            assert_eq!(p.extension, "100");
        }
        _ => panic!("expected a silent call"),
    }
}

#[test]
fn forwarded_uri_without_settings_goes_to_the_ui() {
    match route_payload(&Settings::empty(), "tel:5551234567".to_string()) {
        RouteDecision::HandToUi(u) => assert_eq!(u, "tel:5551234567"),
        _ => panic!("expected a hand-off to the interactive flow"),
    }
}

#[test]
fn uri_without_a_number_goes_to_the_ui() {
    assert!(matches!(
        route_payload(&configured(), "tel:".to_string()),
        RouteDecision::HandToUi(_)
    ));
}

#[test]
fn non_tel_payloads_are_discarded() {
    assert!(matches!(
        route_payload(&configured(), "ping-1700000000".to_string()),
        RouteDecision::Discard
    ));
    assert!(matches!(
        route_payload(&configured(), "".to_string()),
        RouteDecision::Discard
    ));
}

#[test]
fn undecodable_payloads_are_discarded_and_the_loop_goes_on() {
    match listener_step(&configured(), PollEvent::Received(None)) {
        ListenerAction::Act(RouteDecision::Discard) => {}
        _ => panic!("expected a discard"),
    }
}

#[test]
fn empty_polls_back_off_and_accept_failures_stop() {
    assert!(matches!(
        listener_step(&configured(), PollEvent::NoConnection),
        ListenerAction::Backoff
    ));
    assert!(matches!(
        listener_step(&configured(), PollEvent::AcceptFailed),
        ListenerAction::Stop
    ));
}

#[test]
fn received_call_request_is_routed() {
    match listener_step(&configured(), PollEvent::Received(Some("tel:42".to_string()))) {
        ListenerAction::Act(RouteDecision::SilentCall(p)) => {
            assert_eq!(p.phone_number, "42");
        }
        _ => panic!("expected a routed silent call"),
    }
}
