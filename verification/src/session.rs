//! The transient per-window session state and the decisions that mutate it:
//! triggering a call from the session, applying a completed attempt's status,
//! and reacting to a forwarded or startup `tel:` URI.
//!
//! The session is owned by the interactive context; background work reports
//! back only through [`apply_completion`], the single write path into it,
//! with last-write-wins semantics.

use vstd::prelude::*;
use crate::dispatch::{PendingCall, pending_for};
use crate::settings::{Settings, configured};
use crate::tel::{is_tel, is_tel_uri, normalize, normalized};

verus! {

/// The mathematical value of a [`SessionState`].
pub ghost struct SessionView {
    pub phone_number: Seq<char>,
    pub status_message: Seq<char>,
}

/// What the interactive shell shows and edits besides the settings: the
/// number about to be dialed and the latest status line. Never persisted.
#[derive(Clone, Debug)]
pub struct SessionState {
    pub phone_number: String,
    pub status_message: String,
}

impl View for SessionState {
    type V = SessionView;

    open spec fn view(&self) -> SessionView {
        SessionView { phone_number: self.phone_number@, status_message: self.status_message@ }
    }
}

impl SessionState {
    /// A fresh session: no number, no status.
    pub fn new() -> (r: SessionState)
        ensures
            r@.phone_number.len() == 0,
            r@.status_message.len() == 0,
    {
        SessionState { phone_number: String::new(), status_message: String::new() }
    }
}

/// The status line set when a call is rejected for missing data.
pub open spec fn missing_data_status() -> Seq<char> {
    "Error: Missing domain, extension or phone number"@
}

/// The status line set while a call attempt is in flight.
pub open spec fn initiating_status(phone: Seq<char>) -> Seq<char> {
    "Initiating call to "@ + phone + "..."@
}

/// The status line set when a `tel:` argument triggers a call at startup.
pub open spec fn received_link_status(phone: Seq<char>) -> Seq<char> {
    "Received tel: link. Calling: "@ + phone
}

/// The status line set when a forwarded `tel:` URI is processed interactively.
pub open spec fn processing_url_status(raw: Seq<char>) -> Seq<char> {
    "Processing tel: URL: "@ + raw
}

/// Gate of every call attempt: a call is dispatched if and only if domain,
/// extension and the session's phone number are all non-empty.
///
/// On success the returned snapshot carries the settings and number as they
/// are at this moment, and the status line announces the attempt; otherwise
/// the status line becomes the missing-data error and nothing is returned,
/// so no HTTP request can be issued for this trigger.
pub fn request_call(settings: &Settings, session: &mut SessionState) -> (r: Option<PendingCall>)
    ensures
        (r is Some) <==> (settings@.domain.len() > 0 && settings@.extension.len() > 0 && old(
            session,
        )@.phone_number.len() > 0),
        final(session)@.phone_number == old(session)@.phone_number,
        match r {
            Some(p) => p@ == pending_for(settings@, old(session)@.phone_number)
                && final(session)@.status_message == initiating_status(
                old(session)@.phone_number,
            ),
            None => final(session)@.status_message == missing_data_status(),
        },
{
    if settings.domain.as_str().is_empty() || settings.extension.as_str().is_empty()
        || session.phone_number.as_str().is_empty() {
        session.status_message = "Error: Missing domain, extension or phone number".to_owned();
        None
    } else {
        let mut status = String::new();
        status.append("Initiating call to ");
        status.append(session.phone_number.as_str());
        status.append("...");
        session.status_message = status;
        Some(
            PendingCall {
                domain: settings.domain.clone(),
                extension: settings.extension.clone(),
                key: settings.key.clone(),
                phone_number: session.phone_number.clone(),
                auto_answer: settings.auto_answer,
            },
        )
    }
}

/// The single write path from a finished background attempt into the session:
/// the reported status line replaces the previous one (last write wins) and
/// the number is left alone.
pub fn apply_completion(session: &mut SessionState, status: String)
    ensures
        final(session)@.status_message == status@,
        final(session)@.phone_number == old(session)@.phone_number,
{
    session.status_message = status;
}

/// The startup auto-call decision: when `auto_call` is set, a non-empty
/// normalized number arrived with the process arguments, and domain and
/// extension are configured, the number moves into the session, the status
/// announces the link, and the caller must trigger exactly one call;
/// otherwise nothing changes. Asked once, right after start-up, so an
/// automatic call fires at most once per process.
pub fn startup_auto_call(
    auto_call: bool,
    number: &str,
    settings: &Settings,
    session: &mut SessionState,
) -> (trigger: bool)
    ensures
        trigger == (auto_call && number@.len() > 0 && configured(settings@)),
        trigger ==> final(session)@.phone_number == number@ && final(session)@.status_message
            == received_link_status(number@),
        !trigger ==> *final(session) == *old(session),
{
    if auto_call && number.unicode_len() > 0 && settings.is_configured() {
        session.phone_number = number.to_owned();
        let mut status = String::new();
        status.append("Received tel: link. Calling: ");
        status.append(number);
        session.status_message = status;
        true
    } else {
        false
    }
}

/// Handles a `tel:` URI handed to the interactive context: when the URI is
/// well-formed and domain and extension are configured, the normalized number
/// moves into the session, the status reports the raw number, and the caller
/// must trigger one call; any other input leaves the session alone.
pub fn handle_tel_url(settings: &Settings, session: &mut SessionState, url: &str) -> (trigger:
    bool)
    ensures
        trigger == (is_tel(url@) && configured(settings@)),
        trigger ==> final(session)@.phone_number == normalized(url@)
            && final(session)@.status_message == processing_url_status(url@.skip(4)),
        !trigger ==> *final(session) == *old(session),
{
    proof {
        reveal_strlit("tel:");
    }
    if is_tel_uri(url) && settings.is_configured() {
        let n = url.unicode_len();
        let raw = url.substring_char(4, n).to_owned();
        session.phone_number = normalize(url);
        let mut status = String::new();
        status.append("Processing tel: URL: ");
        status.append(raw.as_str());
        session.status_message = status;
        proof {
            assert(url@.subrange(4, url@.len() as int) =~= url@.skip(4));
        }
        true
    } else {
        false
    }
}

} // verus!
