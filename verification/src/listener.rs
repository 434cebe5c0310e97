//! The primary instance's socket listener, as a pure decision layer: what a
//! received payload means, where a call request is routed, and how the accept
//! loop reacts to each poll result.
//!
//! The loop itself — accepting connections, reading bytes, sleeping between
//! empty polls — runs outside the library and feeds every event in as a plain
//! value.

use vstd::prelude::*;
use crate::dispatch::{PendingCall, pending_for};
use crate::settings::{Settings, configured};
use crate::tel::{is_tel, is_tel_uri, normalize, normalized};

verus! {

/// Where one received payload goes.
///
/// A payload without the `tel:` prefix — the coordinator's liveness pings in
/// particular — is discarded. A call request is dispatched silently, without
/// involving the interactive shell, when domain and extension are configured
/// and the URI carries a number; otherwise the raw URI is handed to the
/// interactive context, whose own gate reports what is missing.
#[derive(Debug)]
pub enum RouteDecision {
    SilentCall(PendingCall),
    HandToUi(String),
    Discard,
}

/// Decides what to do with the payload of one accepted connection.
pub fn route_payload(settings: &Settings, msg: String) -> (r: RouteDecision)
    ensures
        !is_tel(msg@) ==> r is Discard,
        is_tel(msg@) && configured(settings@) && normalized(msg@).len() > 0 ==> (r matches
            RouteDecision::SilentCall(p) && p@ == pending_for(settings@, normalized(msg@))),
        is_tel(msg@) && !(configured(settings@) && normalized(msg@).len() > 0) ==> (r matches
            RouteDecision::HandToUi(u) && u@ == msg@),
{
    proof {
        reveal_strlit("tel:");
    }
    if !is_tel_uri(msg.as_str()) {
        return RouteDecision::Discard;
    }
    let number = normalize(msg.as_str());
    if settings.is_configured() && number.as_str().unicode_len() > 0 {
        RouteDecision::SilentCall(
            PendingCall {
                domain: settings.domain.clone(),
                extension: settings.extension.clone(),
                key: settings.key.clone(),
                phone_number: number,
                auto_answer: settings.auto_answer,
            },
        )
    } else {
        RouteDecision::HandToUi(msg)
    }
}

/// One result of polling the listening socket: a connection whose bytes
/// decoded to text (or `None` when they were not valid text), no pending
/// connection, or a real accept-level failure.
#[derive(Debug)]
pub enum PollEvent {
    Received(Option<String>),
    NoConnection,
    AcceptFailed,
}

/// What the accept loop does next: act on a routed payload, sleep briefly
/// before the next poll, or stop for good.
#[derive(Debug)]
pub enum ListenerAction {
    Act(RouteDecision),
    Backoff,
    Stop,
}

/// One turn of the accept loop.
///
/// Read or decode problems of a single connection are not fatal: an
/// undecodable payload is discarded and the loop goes on. An empty poll backs
/// off briefly so the loop does not spin. Only an accept-level failure stops
/// the listener — and only the listener; the process around it carries on.
pub fn listener_step(settings: &Settings, event: PollEvent) -> (r: ListenerAction)
    ensures
        event matches PollEvent::Received(Some(m)) ==> match r {
            ListenerAction::Act(d) => {
                &&& (!is_tel(m@) ==> d is Discard)
                &&& (is_tel(m@) && configured(settings@) && normalized(m@).len() > 0 ==> (d matches
                    RouteDecision::SilentCall(p) && p@ == pending_for(settings@, normalized(m@))))
                &&& (is_tel(m@) && !(configured(settings@) && normalized(m@).len() > 0) ==> (d
                    matches RouteDecision::HandToUi(u) && u@ == m@))
            },
            _ => false,
        },
        event matches PollEvent::Received(None) ==> (r matches ListenerAction::Act(d) && d
            is Discard),
        event is NoConnection ==> r is Backoff,
        event is AcceptFailed ==> r is Stop,
{
    match event {
        PollEvent::Received(m) => match m {
            Some(msg) => ListenerAction::Act(route_payload(settings, msg)),
            None => ListenerAction::Act(RouteDecision::Discard),
        },
        PollEvent::NoConnection => ListenerAction::Backoff,
        PollEvent::AcceptFailed => ListenerAction::Stop,
    }
}

} // verus!
