use click_to_call::dispatch::{build_call_url, interpret_response, CallOutcome};
use click_to_call::session::{request_call, SessionState};
use click_to_call::settings::Settings;

fn session_with(phone: &str) -> SessionState {
    SessionState {
        phone_number: phone.to_string(),
        status_message: String::new(),
    }
}

fn settings(domain: &str, extension: &str) -> Settings {
    Settings {
        domain: domain.to_string(),
        extension: extension.to_string(),
        key: "abc".to_string(),
        auto_answer: true,
    }
}

#[test]
fn url_carries_number_extension_flag_and_key() {
    let url = build_call_url("pbx.example.com", "100", "abc", "5551234567", true);
    assert_eq!(
        url,
        "https://pbx.example.com/app/click_to_call/click_to_call.php\
         ?src_cid_name=5551234567&src_cid_number=5551234567\
         &dest_cid_name=5551234567&dest_cid_number=5551234567\
         &src=5551234567&dest=100&auto_answer=true\
         &rec=&ringback=us-ring&key=abc"
    );
    assert!(url.starts_with("https://pbx.example.com/app/click_to_call/click_to_call.php"));
    assert!(url.contains("src_cid_name=5551234567"));
    assert!(url.contains("dest=100"));
    assert!(url.contains("auto_answer=true"));
    assert!(url.contains("key=abc"));
}

#[test]
fn explicit_scheme_is_kept_and_flag_renders_false() {
    let url = build_call_url("http://pbx.local", "7", "k", "42", false);
    assert!(url.starts_with("http://pbx.local/app/click_to_call/"));
    assert!(url.contains("auto_answer=false"));
}

#[test]
fn dispatch_happens_only_with_all_three_fields() {
    // The request count stands in for the HTTP layer: it moves only when the
    // gate hands out a snapshot to dispatch.
    let mut requests_issued = 0;

    let mut session = session_with("5551234567");
    if request_call(&settings("", "100"), &mut session).is_some() {
        requests_issued += 1;
    }
    assert_eq!(requests_issued, 0);
    assert_eq!(
        session.status_message,
        "Error: Missing domain, extension or phone number"
    );

    let mut session = session_with("5551234567");
    if request_call(&settings("pbx.example.com", ""), &mut session).is_some() {
        requests_issued += 1;
    }
    assert_eq!(requests_issued, 0);

    let mut session = session_with("");
    if request_call(&settings("pbx.example.com", "100"), &mut session).is_some() {
        requests_issued += 1;
    }
    assert_eq!(requests_issued, 0);
    assert_eq!(
        session.status_message,
        "Error: Missing domain, extension or phone number"
    );

    let mut session = session_with("5551234567");
    let pending = request_call(&settings("pbx.example.com", "100"), &mut session);
    let pending = pending.expect("all fields set, so a call must be dispatched");
    requests_issued += 1;
    assert_eq!(requests_issued, 1);
    assert_eq!(session.status_message, "Initiating call to 5551234567...");
    assert_eq!(pending.domain, "pbx.example.com");
    assert_eq!(pending.extension, "100");
    assert_eq!(pending.phone_number, "5551234567");
    assert!(pending.auto_answer);
}

#[test]
fn http_ok_reports_success_with_the_dialed_number() {
    let report = interpret_response(Ok(200), "5551234567");
    assert_eq!(report.outcome, CallOutcome::Success);
    assert_eq!(report.status_message, "Call initialized to 5551234567");
    assert!(report.status_message.contains("5551234567"));
    assert_eq!(report.notice_title, "Call Initiated");
    assert_eq!(report.notice_body, "Calling 5551234567...");
}

#[test]
fn http_error_reports_the_status_code() {
    let report = interpret_response(Ok(500), "5551234567");
    assert_eq!(report.outcome, CallOutcome::HttpError(500));
    assert_eq!(report.status_message, "Error: HTTP status 500");
    assert_eq!(report.notice_title, "Call Failed");
    assert_eq!(
        report.notice_body,
        "Failed to call 5551234567: HTTP status 500"
    );
}

#[test]
fn connection_refusal_reports_the_error_text() {
    let report = interpret_response(
        Err("connection refused".to_string()),
        "5551234567",
    );
    assert_eq!(
        report.outcome,
        CallOutcome::NetworkError("connection refused".to_string())
    );
    assert_eq!(report.status_message, "Error: connection refused");
    assert_eq!(
        report.notice_body,
        "Failed to call 5551234567: connection refused"
    );
}

#[test]
fn boundary_status_codes_follow_the_success_range() {
    assert_eq!(interpret_response(Ok(299), "1").outcome, CallOutcome::Success);
    assert_eq!(
        interpret_response(Ok(300), "1").outcome,
        CallOutcome::HttpError(300)
    );
    assert_eq!(
        interpret_response(Ok(199), "1").outcome,
        CallOutcome::HttpError(199)
    );
}

#[test]
fn https_scheme_is_not_doubled() {
    let url = build_call_url("https://pbx.example.com", "100", "abc", "42", true);
    assert!(url.starts_with("https://pbx.example.com/app/click_to_call/"));
    assert!(!url.starts_with("https://https://"));
}
