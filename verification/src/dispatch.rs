//! Building the click-to-call request URL, the decision whether a call may be
//! dispatched, and the interpretation of the HTTP outcome.
//!
//! The library never performs the HTTP GET itself: callers hand in the
//! response status code, or the transport's error text, as plain values, and
//! everything from the URL up to the user-visible status line and advisory
//! notification text is computed and specified here.

use vstd::prelude::*;
use crate::settings::SettingsView;
use crate::text::{dec_digits, dec_str, has_prefix, has_prefix_spec};

verus! {

/// The mathematical value of a [`PendingCall`] snapshot.
pub ghost struct PendingCallView {
    pub domain: Seq<char>,
    pub extension: Seq<char>,
    pub key: Seq<char>,
    pub phone_number: Seq<char>,
    pub auto_answer: bool,
}

/// A snapshot of everything one call attempt needs, taken at the moment the
/// call is triggered so that a background attempt is unaffected by later
/// edits of the live settings or session.
#[derive(Clone, Debug)]
pub struct PendingCall {
    pub domain: String,
    pub extension: String,
    pub key: String,
    pub phone_number: String,
    pub auto_answer: bool,
}

impl View for PendingCall {
    type V = PendingCallView;

    open spec fn view(&self) -> PendingCallView {
        PendingCallView {
            domain: self.domain@,
            extension: self.extension@,
            key: self.key@,
            phone_number: self.phone_number@,
            auto_answer: self.auto_answer,
        }
    }
}

/// The snapshot a call of `phone` under settings `s` dispatches with.
pub open spec fn pending_for(s: SettingsView, phone: Seq<char>) -> PendingCallView {
    PendingCallView {
        domain: s.domain,
        extension: s.extension,
        key: s.key,
        phone_number: phone,
        auto_answer: s.auto_answer,
    }
}

/// The domain with an explicit scheme: left alone when it already starts with
/// `http://` or `https://`, prefixed with `https://` otherwise.
pub open spec fn with_scheme(d: Seq<char>) -> Seq<char> {
    if has_prefix_spec(d, "http://"@) || has_prefix_spec(d, "https://"@) {
        d
    } else {
        "https://"@ + d
    }
}

/// The full click-to-call request URL: the fixed endpoint path under the
/// domain, with caller and callee identity both set to the dialed number,
/// the destination extension, the auto-answer flag and the shared key.
pub open spec fn call_url(
    domain: Seq<char>,
    extension: Seq<char>,
    key: Seq<char>,
    phone: Seq<char>,
    auto_answer: bool,
) -> Seq<char> {
    with_scheme(domain) + "/app/click_to_call/click_to_call.php?src_cid_name="@ + phone
        + "&src_cid_number="@ + phone + "&dest_cid_name="@ + phone + "&dest_cid_number="@ + phone
        + "&src="@ + phone + "&dest="@ + extension + "&auto_answer="@ + (if auto_answer {
        "true"@
    } else {
        "false"@
    }) + "&rec=&ringback=us-ring&key="@ + key
}

/// Prefixes `https://` unless the domain already carries an explicit scheme.
pub fn domain_with_scheme(domain: &str) -> (r: String)
    ensures
        r@ == with_scheme(domain@),
{
    proof {
        reveal_strlit("http://");
        reveal_strlit("https://");
    }
    if has_prefix(domain, "http://") || has_prefix(domain, "https://") {
        domain.to_owned()
    } else {
        let mut r = String::new();
        r.append("https://");
        r.append(domain);
        r
    }
}

/// Builds the click-to-call request URL for one call attempt.
pub fn build_call_url(
    domain: &str,
    extension: &str,
    key: &str,
    phone: &str,
    auto_answer: bool,
) -> (r: String)
    ensures
        r@ == call_url(domain@, extension@, key@, phone@, auto_answer),
{
    let mut r = domain_with_scheme(domain);
    r.append("/app/click_to_call/click_to_call.php?src_cid_name=");
    r.append(phone);
    r.append("&src_cid_number=");
    r.append(phone);
    r.append("&dest_cid_name=");
    r.append(phone);
    r.append("&dest_cid_number=");
    r.append(phone);
    r.append("&src=");
    r.append(phone);
    r.append("&dest=");
    r.append(extension);
    r.append("&auto_answer=");
    if auto_answer {
        r.append("true");
    } else {
        r.append("false");
    }
    r.append("&rec=&ringback=us-ring&key=");
    r.append(key);
    r
}

impl PendingCall {
    /// The request URL this snapshot dispatches to.
    pub fn url(&self) -> (r: String)
        ensures
            r@ == call_url(self@.domain, self@.extension, self@.key, self@.phone_number, self@.auto_answer),
    {
        build_call_url(
            self.domain.as_str(),
            self.extension.as_str(),
            self.key.as_str(),
            self.phone_number.as_str(),
            self.auto_answer,
        )
    }
}

/// How one call attempt ended: the server accepted it, the server answered
/// with a non-success HTTP status, or the request never completed.
#[derive(Debug)]
pub enum CallOutcome {
    Success,
    HttpError(u16),
    NetworkError(String),
}

impl PartialEq for CallOutcome {
    fn eq(&self, other: &CallOutcome) -> (r: bool) {
        match self {
            CallOutcome::Success => matches!(other, CallOutcome::Success),
            CallOutcome::HttpError(a) => match other {
                CallOutcome::HttpError(b) => *a == *b,
                _ => false,
            },
            CallOutcome::NetworkError(a) => match other {
                CallOutcome::NetworkError(b) => *a == *b,
                _ => false,
            },
        }
    }
}

impl vstd::std_specs::cmp::PartialEqSpecImpl for CallOutcome {
    open spec fn obeys_eq_spec() -> bool {
        true
    }

    open spec fn eq_spec(&self, other: &CallOutcome) -> bool {
        (self is Success && other is Success) || (self matches CallOutcome::HttpError(a) && other
            matches CallOutcome::HttpError(b) && a == b) || (self matches CallOutcome::NetworkError(
            a,
        ) && other matches CallOutcome::NetworkError(b) && a@ == b@)
    }
}

impl Eq for CallOutcome {}

/// Whether an HTTP status code counts as success.
pub open spec fn is_success_code(code: u16) -> bool {
    200 <= code < 300
}

/// The status line after a call the server accepted.
pub open spec fn success_status(phone: Seq<char>) -> Seq<char> {
    "Call initialized to "@ + phone
}

/// The status line after a non-success HTTP answer.
pub open spec fn http_error_status(code: u16) -> Seq<char> {
    "Error: HTTP status "@ + dec_digits(code as nat)
}

/// The status line after a transport failure.
pub open spec fn network_error_status(err: Seq<char>) -> Seq<char> {
    "Error: "@ + err
}

/// What one finished call attempt reports back: the outcome, the status line
/// for the session, and the advisory notification's title and body.
#[derive(Debug)]
pub struct CallReport {
    pub outcome: CallOutcome,
    pub status_message: String,
    pub notice_title: String,
    pub notice_body: String,
}

/// Turns the raw result of the HTTP GET — `Ok` with the response status code,
/// or `Err` with the transport's error text — into the outcome, status line
/// and notification for the dialed number.
pub fn interpret_response(result: Result<u16, String>, phone: &str) -> (r: CallReport)
    ensures
        match result {
            Ok(code) => {
                if is_success_code(code) {
                    r.outcome == CallOutcome::Success && r.status_message@ == success_status(phone@)
                        && r.notice_title@ == "Call Initiated"@ && r.notice_body@ == "Calling "@
                        + phone@ + "..."@
                } else {
                    r.outcome == CallOutcome::HttpError(code) && r.status_message@
                        == http_error_status(code) && r.notice_title@ == "Call Failed"@
                        && r.notice_body@ == "Failed to call "@ + phone@ + ": HTTP status "@
                        + dec_digits(code as nat)
                }
            },
            Err(e) => r.outcome == CallOutcome::NetworkError(e) && r.status_message@
                == network_error_status(e@) && r.notice_title@ == "Call Failed"@ && r.notice_body@
                == "Failed to call "@ + phone@ + ": "@ + e@,
        },
{
    match result {
        Ok(code) => {
            if 200 <= code && code < 300 {
                let mut status = String::new();
                status.append("Call initialized to ");
                status.append(phone);
                let mut body = String::new();
                body.append("Calling ");
                body.append(phone);
                body.append("...");
                CallReport {
                    outcome: CallOutcome::Success,
                    status_message: status,
                    notice_title: "Call Initiated".to_owned(),
                    notice_body: body,
                }
            } else {
                let digits = dec_str(code as u64);
                let mut status = String::new();
                status.append("Error: HTTP status ");
                status.append(digits.as_str());
                let mut body = String::new();
                body.append("Failed to call ");
                body.append(phone);
                body.append(": HTTP status ");
                body.append(digits.as_str());
                CallReport {
                    outcome: CallOutcome::HttpError(code),
                    status_message: status,
                    notice_title: "Call Failed".to_owned(),
                    notice_body: body,
                }
            }
        },
        Err(e) => {
            let mut status = String::new();
            status.append("Error: ");
            status.append(e.as_str());
            let mut body = String::new();
            body.append("Failed to call ");
            body.append(phone);
            body.append(": ");
            body.append(e.as_str());
            CallReport {
                outcome: CallOutcome::NetworkError(e),
                status_message: status,
                notice_title: "Call Failed".to_owned(),
                notice_body: body,
            }
        },
    }
}

} // verus!
