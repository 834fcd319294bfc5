//! The session supervisor: one attach-to-detach lifecycle after another.
use crate::attach::CableOrientation;
use vstd::prelude::*;

verus! {

/// The CC line that PD communication runs on.
#[derive(Clone, Copy, Debug, PartialEq, Eq, Structural)]
pub enum CcLine {
    Cc1,
    Cc2,
}

/// Phase of the supervisor.
#[derive(Clone, Copy, Debug, PartialEq, Eq, Structural)]
pub enum SessionPhase {
    /// Waiting for a debounced attach.
    Detecting,
    /// The protocol engine runs on this line, raced against detach.
    Negotiating(CcLine),
    /// A debug accessory was attached: no PD communication at all.
    Halted,
}

/// What ends a wait of the supervisor.
#[derive(Clone, Copy, Debug, PartialEq, Eq, Structural)]
pub enum SessionEvent {
    /// The attach monitor reported this orientation.
    Attached(CableOrientation),
    /// The cable was detached while negotiating.
    Detached,
    /// The protocol engine returned while negotiating.
    EngineStopped,
}

/// What the supervisor does next.
#[derive(Clone, Copy, Debug, PartialEq, Eq, Structural)]
pub enum SessionAction {
    /// Run the attach monitor from scratch.
    DetectAttach,
    /// Build a transport on this line and fresh policy state, and run the
    /// protocol engine against a detach wait.
    Negotiate(CcLine),
    /// Stop: PD must not run over this connection.
    Halt,
}

/// The line that carries PD for an orientation; none for a debug accessory.
pub open spec fn line_of(o: CableOrientation) -> Option<CcLine> {
    match o {
        CableOrientation::Normal => Some(CcLine::Cc1),
        CableOrientation::Flipped => Some(CcLine::Cc2),
        CableOrientation::DebugAccessoryMode => None,
    }
}

/// The line that carries PD for an orientation.
pub fn cc_line(o: CableOrientation) -> (r: Option<CcLine>)
    ensures
        r == line_of(o),
{
    match o {
        CableOrientation::Normal => Some(CcLine::Cc1),
        CableOrientation::Flipped => Some(CcLine::Cc2),
        CableOrientation::DebugAccessoryMode => None,
    }
}

/// One step of the supervisor.
pub open spec fn session_next(p: SessionPhase, e: SessionEvent) -> (SessionPhase, SessionAction) {
    match p {
        SessionPhase::Detecting => match e {
            SessionEvent::Attached(o) => match line_of(o) {
                Some(l) => (SessionPhase::Negotiating(l), SessionAction::Negotiate(l)),
                None => (SessionPhase::Halted, SessionAction::Halt),
            },
            _ => (SessionPhase::Detecting, SessionAction::DetectAttach),
        },
        SessionPhase::Negotiating(l) => match e {
            SessionEvent::Attached(_) => (p, SessionAction::Negotiate(l)),
            _ => (SessionPhase::Detecting, SessionAction::DetectAttach),
        },
        SessionPhase::Halted => (p, SessionAction::Halt),
    }
}

impl SessionPhase {
    /// The supervisor at start-up.
    pub fn new() -> (r: SessionPhase)
        ensures
            r == SessionPhase::Detecting,
    {
        SessionPhase::Detecting
    }

    /// Takes one event; gives the next phase and what to do next.
    pub fn step(self, e: SessionEvent) -> (r: (SessionPhase, SessionAction))
        ensures
            r == session_next(self, e),
    {
        match self {
            SessionPhase::Detecting => match e {
                SessionEvent::Attached(o) => match cc_line(o) {
                    Some(l) => (SessionPhase::Negotiating(l), SessionAction::Negotiate(l)),
                    None => (SessionPhase::Halted, SessionAction::Halt),
                },
                _ => (SessionPhase::Detecting, SessionAction::DetectAttach),
            },
            SessionPhase::Negotiating(l) => match e {
                SessionEvent::Attached(_) => (self, SessionAction::Negotiate(l)),
                _ => (SessionPhase::Detecting, SessionAction::DetectAttach),
            },
            SessionPhase::Halted => (self, SessionAction::Halt),
        }
    }
}

} // verus!
