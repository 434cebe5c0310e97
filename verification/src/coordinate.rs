//! Single-instance coordination: deciding the process role from a probe of
//! the local socket, the liveness ping a probe writes, and the protocol a
//! secondary instance follows to hand its `tel:` URI to the primary.
//!
//! The socket operations themselves happen outside the library; their results
//! come back as plain values and every decision taken on them is made — and
//! specified — here.

use vstd::prelude::*;
use crate::dispatch::{pending_for, PendingCall};
use crate::settings::{configured, Settings};
use crate::tel::{is_tel, keeps, lemma_kept_chars_are_stable, normalized};
use crate::text::{dec_digits, dec_str};

verus! {

/// The role a process holds for its whole lifetime, decided exactly once at
/// start.
#[derive(Clone, Copy, Debug, PartialEq, Eq, Structural)]
pub enum Role {
    Primary,
    Secondary,
}

/// What probing the well-known socket path found: a listener accepted the
/// liveness ping, the file is there but nothing answers (a stale socket), or
/// there is no socket file at all.
#[derive(Clone, Copy, Debug, PartialEq, Eq, Structural)]
pub enum ProbeOutcome {
    Accepted,
    Stale,
    NoListener,
}

/// What start-up does about the socket file beside taking a role.
#[derive(Clone, Copy, Debug, PartialEq, Eq, Structural)]
pub struct RoleDecision {
    pub role: Role,
    pub remove_stale: bool,
}

/// Decides the process role from the probe of the socket path.
///
/// The process is Secondary exactly when a live listener accepted the probe:
/// another instance owns the socket. A socket file that nobody answers on is
/// stale: it is to be removed before this process binds, and the role is
/// Primary, as it is when no socket exists at all.
pub fn determine_role(probe: ProbeOutcome) -> (r: RoleDecision)
    ensures
        (r.role == Role::Secondary) <==> probe == ProbeOutcome::Accepted,
        r.remove_stale <==> probe == ProbeOutcome::Stale,
{
    match probe {
        ProbeOutcome::Accepted => RoleDecision { role: Role::Secondary, remove_stale: false },
        ProbeOutcome::Stale => RoleDecision { role: Role::Primary, remove_stale: true },
        ProbeOutcome::NoListener => RoleDecision { role: Role::Primary, remove_stale: false },
    }
}

/// The liveness probe payload for a probe stamped `stamp`.
pub open spec fn ping_payload(stamp: nat) -> Seq<char> {
    "ping-"@ + dec_digits(stamp)
}

/// Builds the liveness probe payload: `ping-` followed by the decimal stamp.
/// Deliberately not a `tel:` message, so the listener ignores it.
pub fn ping_message(stamp: u64) -> (r: String)
    ensures
        r@ == ping_payload(stamp as nat),
{
    let mut r = String::new();
    r.append("ping-");
    let digits = dec_str(stamp);
    r.append(digits.as_str());
    r
}

/// A liveness probe is never mistaken for a call request: its payload does
/// not carry the `tel:` prefix, whatever the stamp.
pub proof fn lemma_ping_is_not_a_call(stamp: nat)
    ensures
        !is_tel(ping_payload(stamp)),
{
    reveal_strlit("ping-");
    reveal_strlit("tel:");
    let p = ping_payload(stamp);
    assert(p[0] == 'p');
    if is_tel(p) {
        assert(p.subrange(0, 4)[0] == 't');
    }
}

/// The message a secondary instance writes to hand the number `n` off.
pub open spec fn forward_payload(n: Seq<char>) -> Seq<char> {
    "tel:"@ + n
}

/// Builds the hand-off message for a normalized number: the `tel:` URI the
/// primary's listener recognizes as a call request.
pub fn forward_message(number: &str) -> (r: String)
    ensures
        r@ == forward_payload(number@),
{
    let mut r = String::new();
    r.append("tel:");
    r.append(number);
    r
}

/// A hand-off message always carries the `tel:` prefix, so the primary's
/// listener takes it as a call request, and the number it carries is exactly
/// the one handed in.
pub proof fn lemma_forward_payload_is_a_call(n: Seq<char>)
    ensures
        is_tel(forward_payload(n)),
        forward_payload(n).skip(4) == n,
{
    reveal_strlit("tel:");
    let p = forward_payload(n);
    assert(p.subrange(0, 4) =~= "tel:"@);
    assert(p.skip(4) =~= n);
}

/// How one attempt to write the hand-off message ended.
#[derive(Clone, Copy, Debug, PartialEq, Eq, Structural)]
pub enum WriteResult {
    Delivered,
    Undeliverable,
}

/// What a secondary instance does after one hand-off attempt: exit with
/// status zero, spawn a fresh background instance and retry the hand-off
/// once, or give up forwarding and carry on independently with the
/// interactive flow.
#[derive(Clone, Copy, Debug, PartialEq, Eq, Structural)]
pub enum ForwardStep {
    ExitSuccess,
    SpawnAndRetry,
    RunInteractive,
}

/// The transition of the secondary's forwarding protocol: `retried` says
/// whether a spawn-and-retry already happened.
pub open spec fn forward_transition(retried: bool, w: WriteResult) -> ForwardStep {
    match w {
        WriteResult::Delivered => ForwardStep::ExitSuccess,
        WriteResult::Undeliverable => if retried {
            ForwardStep::RunInteractive
        } else {
            ForwardStep::SpawnAndRetry
        },
    }
}

/// Decides the next step of a secondary instance from the result of a
/// hand-off write. A delivered write always ends the process with exit
/// status zero; an undeliverable one is retried once, behind a freshly
/// spawned instance, and after a failed retry the process falls back to the
/// interactive flow as if it were primary.
pub fn forward_step(retried: bool, w: WriteResult) -> (r: ForwardStep)
    ensures
        r == forward_transition(retried, w),
{
    match w {
        WriteResult::Delivered => ForwardStep::ExitSuccess,
        WriteResult::Undeliverable => if retried {
            ForwardStep::RunInteractive
        } else {
            ForwardStep::SpawnAndRetry
        },
    }
}

/// A secondary instance whose hand-off write is accepted — on the first or
/// on the retried attempt — writes exactly the `tel:` URI of its number and
/// exits with status zero: it never reaches the call dispatcher itself.
pub proof fn lemma_secondary_hand_off(n: Seq<char>, retried: bool)
    ensures
        forward_transition(retried, WriteResult::Delivered) == ForwardStep::ExitSuccess,
        forward_payload(n) == "tel:"@ + n,
        is_tel(forward_payload(n)),
{
    lemma_forward_payload_is_a_call(n);
}

/// The number is not distorted on the way: when a secondary instance
/// normalizes its `tel:` argument and hands the result off, the primary's
/// listener — which normalizes the forwarded URI again — dials exactly the
/// number the secondary extracted.
pub proof fn lemma_forwarded_number_reaches_the_dial(u: Seq<char>)
    ensures
        normalized(forward_payload(normalized(u))) == normalized(u),
{
    let n = normalized(u);
    lemma_forward_payload_is_a_call(n);
    assert forall|i: int| 0 <= i < n.len() implies keeps(n[i]) by {
        u.skip(4).lemma_filter_pred(|c: char| keeps(c), i);
    }
    lemma_kept_chars_are_stable(n);
}

/// What a freshly started process does first with a `tel:` argument.
#[derive(Clone, Copy, Debug, PartialEq, Eq, Structural)]
pub enum StartAction {
    ForwardHandOff,
    HandleLocally,
}

/// The first decision after the role is fixed: a secondary instance holding a
/// `tel:` argument hands it to the primary; every other combination — primary
/// role, or no `tel:` argument — is handled in this process.
pub fn startup_action(role: Role, has_tel_arg: bool) -> (r: StartAction)
    ensures
        (r == StartAction::ForwardHandOff) <==> (role == Role::Secondary && has_tel_arg),
{
    if role == Role::Secondary && has_tel_arg {
        StartAction::ForwardHandOff
    } else {
        StartAction::HandleLocally
    }
}

/// Whether the shell keeps the process out of the dock at start: it does when
/// a `tel:` argument arrived and this process is the primary, so a silent
/// call does not raise a window. Advisory — what the shell does with it is
/// platform policy.
pub fn hide_at_start(role: Role, has_tel_arg: bool) -> (r: bool)
    ensures
        r == (has_tel_arg && role == Role::Primary),
{
    has_tel_arg && role == Role::Primary
}

/// What a process that kept a `tel:` number for itself does with it.
#[derive(Debug)]
pub enum LocalAction {
    DirectCall(PendingCall),
    ShowUi,
}

/// Decides between a silent direct call and the interactive flow for a
/// number handled locally: the call is dispatched without a window exactly
/// when domain and extension are configured and the number is non-empty;
/// otherwise the interactive shell comes up to collect what is missing.
pub fn local_tel_action(settings: &Settings, number: &str) -> (r: LocalAction)
    ensures
        configured(settings@) && number@.len() > 0 ==> (r matches LocalAction::DirectCall(p)
            && p@ == pending_for(settings@, number@)),
        !(configured(settings@) && number@.len() > 0) ==> r is ShowUi,
{
    if settings.is_configured() && number.unicode_len() > 0 {
        LocalAction::DirectCall(
            PendingCall {
                domain: settings.domain.clone(),
                extension: settings.extension.clone(),
                key: settings.key.clone(),
                phone_number: number.to_owned(),
                auto_answer: settings.auto_answer,
            },
        )
    } else {
        LocalAction::ShowUi
    }
}

} // verus!
