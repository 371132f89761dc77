//! Session lifecycle of a module: why a session ends, and the degenerate
//! session of the audio tap, whose pipeline runs in background tasks so that
//! only a signal or a read error ends it.

use vstd::prelude::*;

verus! {

/// Why a session ended.
#[derive(Copy, Clone, Debug, PartialEq, Eq, Structural)]
pub enum EndSessionReason {
    /// No session has ended yet.
    NotEnded,
    /// SIGINT or SIGTERM.
    UserInterrupt,
    /// The session's source failed.
    ReadError,
}

/// What the orchestrator observes while a session runs.
#[derive(Copy, Clone, Debug, PartialEq, Eq, Structural)]
pub enum SessionEvent {
    /// The session delivered a message.
    Message,
    /// Reading the session failed.
    ReadFailed,
    /// SIGINT arrived.
    Interrupt,
    /// SIGTERM arrived.
    Terminate,
}

/// The reason to end the session on an event, or `None` to keep reading.
pub open spec fn end_reason_for(ev: SessionEvent) -> Option<EndSessionReason> {
    match ev {
        SessionEvent::Message => None,
        SessionEvent::ReadFailed => Some(EndSessionReason::ReadError),
        SessionEvent::Interrupt => Some(EndSessionReason::UserInterrupt),
        SessionEvent::Terminate => Some(EndSessionReason::UserInterrupt),
    }
}

/// Decides whether an event ends the session, and why.
pub fn end_reason(ev: SessionEvent) -> (r: Option<EndSessionReason>)
    ensures
        r == end_reason_for(ev),
{
    match ev {
        SessionEvent::Message => None,
        SessionEvent::ReadFailed => Some(EndSessionReason::ReadError),
        SessionEvent::Interrupt => Some(EndSessionReason::UserInterrupt),
        SessionEvent::Terminate => Some(EndSessionReason::UserInterrupt),
    }
}

/// The audio tap's session: it carries no state, and never yields a message.
#[derive(Debug, PartialEq, Eq, Structural)]
pub struct AudioTapSession {}

impl AudioTapSession {
    /// A new session.
    pub fn new() -> (r: Self)
        ensures
            r == (AudioTapSession {}),
    {
        AudioTapSession {}
    }
}

impl Default for AudioTapSession {
    fn default() -> (r: Self)
        ensures
            r == (AudioTapSession {}),
    {
        AudioTapSession::new()
    }
}

} // verus!
