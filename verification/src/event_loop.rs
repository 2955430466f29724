//! Decision kernel of the blocking event loop.
//!
//! The loop itself blocks on an OS readiness primitive, reads raw reports
//! and sends decoded button states to a consumer channel; all of that is
//! I/O and lives outside the library. What the library holds is every
//! decision the loop takes: which readiness notifications to act on, what
//! to forward after a successful read, and when to exit. The loop exits
//! only when the consumer has gone away; a failed read is reported and the
//! loop keeps waiting.

use vstd::prelude::*;

use crate::buttons::SteamDeckGamepadButton;
use crate::interface::SteamDeckDeviceInterface;

verus! {

/// What to do with one readiness notification.
#[derive(Debug, Clone, Copy, PartialEq, Eq, Structural)]
pub enum PollDecision {
    /// The notification carries the device's token: read one report.
    ReadReport,
    /// The notification carries some other token: ignore it.
    Ignore,
}

/// Whether the loop keeps running after a delivery attempt.
#[derive(Debug, Clone, Copy, PartialEq, Eq, Structural)]
pub enum LoopControl {
    /// Keep waiting for the next readiness notification.
    Continue,
    /// The consumer is gone: leave the loop without error.
    Exit,
}

/// Relies on rand::random: a process-wide random value used only as a
/// registration token; nothing is assumed of which value comes back.
#[verifier::external_body]
fn random_token() -> usize {
    rand::random::<u64>() as usize
}

/// State of one running event loop: the token its device registration
/// carries.
pub struct EventLoopState {
    pub token: usize,
}

impl EventLoopState {
    /// Fresh loop state under a randomly drawn registration token.
    pub fn new() -> Self {
        EventLoopState { token: random_token() }
    }

    /// Loop state under a caller-chosen registration token.
    pub fn with_token(token: usize) -> (s: Self)
        ensures
            s.token == token,
    {
        EventLoopState { token }
    }

    /// Decides one readiness notification: exactly the notifications that
    /// carry the registered token lead to a read; all others are ignored.
    pub fn on_readiness(&self, event_token: usize) -> (d: PollDecision)
        ensures
            d == (if event_token == self.token {
                PollDecision::ReadReport
            } else {
                PollDecision::Ignore
            }),
    {
        if event_token == self.token {
            PollDecision::ReadReport
        } else {
            PollDecision::Ignore
        }
    }
}

/// Decides what a successfully read report leads to: the decoded button
/// set when it is non-empty, to be forwarded to the consumer, and nothing
/// otherwise. Exactly the reports that decode to a non-empty set are
/// forwarded.
pub fn forwardable_output<T: SteamDeckDeviceInterface>(facade: &T, report: [u8; 64]) -> (o: Option<
    SteamDeckGamepadButton,
>)
    ensures
        match o {
            Some(b) => b.bits == T::spec_decode_report(report@) && b.bits != 0,
            None => T::spec_decode_report(report@) == 0,
        },
{
    let out = facade.parse(report);
    if out.is_empty() {
        None
    } else {
        Some(out)
    }
}

/// Decides whether the loop goes on after a delivery attempt: it continues
/// exactly as long as the consumer accepted the value, and exits when the
/// consumer is gone.
pub fn after_send(delivered: bool) -> (c: LoopControl)
    ensures
        c == (if delivered {
            LoopControl::Continue
        } else {
            LoopControl::Exit
        }),
{
    if delivered {
        LoopControl::Continue
    } else {
        LoopControl::Exit
    }
}

} // verus!
