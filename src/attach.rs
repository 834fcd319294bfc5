//! Cable attach detection on the two CC lines: the orientation mapping, the
//! detach test, and the debounce state machine that reports an attach only
//! after the lines have held still for a whole debounce window.
use vstd::prelude::*;

verus! {

/// Length of the debounce window in milliseconds.
pub const DEBOUNCE_MS: u64 = 100;

/// Voltage tier of one CC line, lowest first; `Lowest` means open.
#[derive(Clone, Copy, Debug, PartialEq, Eq, Structural)]
pub enum CcVState {
    Lowest,
    Low,
    High,
    Highest,
}

/// Which CC line carries the connection.
#[derive(Clone, Copy, Debug, PartialEq, Eq, Structural)]
pub enum CableOrientation {
    /// CC1 is active.
    Normal,
    /// CC2 is active.
    Flipped,
    /// Both lines are active: a debug accessory, not a PD connection.
    DebugAccessoryMode,
}

/// The orientation that a sample of both lines shows; `None` when both are open.
pub open spec fn orientation_of(cc1: CcVState, cc2: CcVState) -> Option<CableOrientation> {
    if cc1 == CcVState::Lowest && cc2 == CcVState::Lowest {
        None
    } else if cc2 == CcVState::Lowest {
        Some(CableOrientation::Normal)
    } else if cc1 == CcVState::Lowest {
        Some(CableOrientation::Flipped)
    } else {
        Some(CableOrientation::DebugAccessoryMode)
    }
}

/// Classifies a sample of both lines.
pub fn orientation(cc1: CcVState, cc2: CcVState) -> (r: Option<CableOrientation>)
    ensures
        r == orientation_of(cc1, cc2),
{
    match (cc1, cc2) {
        (CcVState::Lowest, CcVState::Lowest) => None,
        (_, CcVState::Lowest) => Some(CableOrientation::Normal),
        (CcVState::Lowest, _) => Some(CableOrientation::Flipped),
        _ => Some(CableOrientation::DebugAccessoryMode),
    }
}

/// Both lines open: the cable is detached.
pub fn is_detached(cc1: CcVState, cc2: CcVState) -> (r: bool)
    ensures
        r == (cc1 == CcVState::Lowest && cc2 == CcVState::Lowest),
{
    cc1 == CcVState::Lowest && cc2 == CcVState::Lowest
}

/// State of the attach monitor.
#[derive(Clone, Copy, Debug, PartialEq, Eq, Structural)]
pub enum AttachState {
    /// The lines are to be sampled.
    Sampling,
    /// Both lines read open; waiting for a change.
    Idle,
    /// A connection was sampled; waiting out the debounce window.
    Debouncing { cc1: CcVState, cc2: CcVState },
    /// The connection held still for the whole window.
    Attached(CableOrientation),
}

/// What the environment reports to the monitor.
#[derive(Clone, Copy, Debug, PartialEq, Eq, Structural)]
pub enum AttachEvent {
    /// A sample of both lines.
    Sampled { cc1: CcVState, cc2: CcVState },
    /// The voltage state of a line changed.
    VStateChanged,
    /// The debounce window elapsed with no change.
    DebounceElapsed,
}

/// What the monitor asks of the environment next.
#[derive(Clone, Copy, Debug, PartialEq, Eq, Structural)]
pub enum AttachAction {
    /// Sample both lines.
    Sample,
    /// Wait for a voltage state change.
    WaitForChange,
    /// Wait for a voltage state change, for at most `DEBOUNCE_MS`.
    Debounce,
    /// A cable is attached with this orientation.
    Report(CableOrientation),
    /// Nothing more: the attach was reported.
    Done,
}

/// One step of the attach monitor.
pub open spec fn attach_next(s: AttachState, e: AttachEvent) -> (AttachState, AttachAction) {
    match s {
        AttachState::Sampling => match e {
            AttachEvent::Sampled { cc1, cc2 } => if cc1 == CcVState::Lowest && cc2
                == CcVState::Lowest {
                (AttachState::Idle, AttachAction::WaitForChange)
            } else {
                (AttachState::Debouncing { cc1, cc2 }, AttachAction::Debounce)
            },
            _ => (AttachState::Sampling, AttachAction::Sample),
        },
        AttachState::Idle => match e {
            AttachEvent::VStateChanged => (AttachState::Sampling, AttachAction::Sample),
            _ => (AttachState::Idle, AttachAction::WaitForChange),
        },
        AttachState::Debouncing { cc1, cc2 } => match e {
            AttachEvent::VStateChanged => (AttachState::Sampling, AttachAction::Sample),
            AttachEvent::DebounceElapsed => match orientation_of(cc1, cc2) {
                Some(o) => (AttachState::Attached(o), AttachAction::Report(o)),
                None => (AttachState::Idle, AttachAction::WaitForChange),
            },
            _ => (s, AttachAction::Debounce),
        },
        AttachState::Attached(o) => (s, AttachAction::Done),
    }
}

/// The final state and the actions of the monitor from `s` over `evs`.
pub open spec fn attach_run(s: AttachState, evs: Seq<AttachEvent>) -> (
    AttachState,
    Seq<AttachAction>,
)
    decreases evs.len(),
{
    if evs.len() == 0 {
        (s, seq![])
    } else {
        let (s1, a) = attach_next(s, evs[0]);
        let (sf, acts) = attach_run(s1, evs.drop_first());
        (sf, seq![a] + acts)
    }
}

impl AttachState {
    /// The monitor at the start of an attach attempt.
    pub fn new() -> (r: AttachState)
        ensures
            r == AttachState::Sampling,
    {
        AttachState::Sampling
    }

    /// Takes one event; gives the next state and what to do next.
    pub fn step(self, e: AttachEvent) -> (r: (AttachState, AttachAction))
        ensures
            r == attach_next(self, e),
    {
        match self {
            AttachState::Sampling => match e {
                AttachEvent::Sampled { cc1, cc2 } => if is_detached(cc1, cc2) {
                    (AttachState::Idle, AttachAction::WaitForChange)
                } else {
                    (AttachState::Debouncing { cc1, cc2 }, AttachAction::Debounce)
                },
                _ => (AttachState::Sampling, AttachAction::Sample),
            },
            AttachState::Idle => match e {
                AttachEvent::VStateChanged => (AttachState::Sampling, AttachAction::Sample),
                _ => (AttachState::Idle, AttachAction::WaitForChange),
            },
            AttachState::Debouncing { cc1, cc2 } => match e {
                AttachEvent::VStateChanged => (AttachState::Sampling, AttachAction::Sample),
                AttachEvent::DebounceElapsed => match orientation(cc1, cc2) {
                    Some(o) => (AttachState::Attached(o), AttachAction::Report(o)),
                    None => (AttachState::Idle, AttachAction::WaitForChange),
                },
                _ => (self, AttachAction::Debounce),
            },
            AttachState::Attached(_) => (self, AttachAction::Done),
        }
    }
}

/// A report comes only when the debounce window elapses on a sampled
/// connection, and it gives the orientation of that sample.
pub proof fn lemma_report_only_after_window(s: AttachState, e: AttachEvent)
    requires
        attach_next(s, e).1 is Report,
    ensures
        s is Debouncing,
        e is DebounceElapsed,
        attach_next(s, e).1 == AttachAction::Report(
            orientation_of(s->cc1, s->cc2).unwrap(),
        ),
{
}

/// While the debounce window never elapses, whatever the changes, the monitor
/// reports no attach.
pub proof fn lemma_no_report_without_window(s: AttachState, evs: Seq<AttachEvent>)
    requires
        !(s is Attached),
        forall|k: int| 0 <= k < evs.len() ==> !(evs[k] is DebounceElapsed),
    ensures
        !(attach_run(s, evs).0 is Attached),
        attach_run(s, evs).1.len() == evs.len(),
        forall|k: int| 0 <= k < evs.len() ==> !(attach_run(s, evs).1[k] is Report),
    decreases evs.len(),
{
    if evs.len() > 0 {
        let (s1, a) = attach_next(s, evs[0]);
        let rest = evs.drop_first();
        assert forall|k: int| 0 <= k < rest.len() implies !(rest[k] is DebounceElapsed) by {
            assert(rest[k] == evs[k + 1]);
        }
        lemma_no_report_without_window(s1, rest);
        let acts = attach_run(s, evs).1;
        assert(acts == seq![a] + attach_run(s1, rest).1);
        assert forall|k: int| 0 <= k < evs.len() implies !(acts[k] is Report) by {
            if k > 0 {
                assert(acts[k] == attach_run(s1, rest).1[k - 1]);
            }
        }
    }
}

/// Once attached, the monitor stays attached and reports nothing more.
pub proof fn lemma_attached_is_final(o: CableOrientation, evs: Seq<AttachEvent>)
    ensures
        attach_run(AttachState::Attached(o), evs).0 == AttachState::Attached(o),
        attach_run(AttachState::Attached(o), evs).1.len() == evs.len(),
        forall|k: int|
            0 <= k < evs.len() ==> !(attach_run(AttachState::Attached(o), evs).1[k] is Report),
    decreases evs.len(),
{
    if evs.len() > 0 {
        let rest = evs.drop_first();
        lemma_attached_is_final(o, rest);
        let acts = attach_run(AttachState::Attached(o), evs).1;
        assert forall|k: int| 0 <= k < evs.len() implies !(acts[k] is Report) by {
            if k > 0 {
                assert(acts[k] == attach_run(AttachState::Attached(o), rest).1[k - 1]);
            }
        }
    }
}

/// A connection sampled and then held still for the whole window is
/// reported exactly once, with the orientation of the sample, whatever
/// events follow.
pub proof fn lemma_stable_reported_once(cc1: CcVState, cc2: CcVState, evs: Seq<AttachEvent>)
    requires
        !(cc1 == CcVState::Lowest && cc2 == CcVState::Lowest),
    ensures
        ({
            let all = seq![AttachEvent::Sampled { cc1, cc2 }, AttachEvent::DebounceElapsed] + evs;
            let (sf, acts) = attach_run(AttachState::Sampling, all);
            &&& sf == AttachState::Attached(orientation_of(cc1, cc2).unwrap())
            &&& acts.len() == all.len()
            &&& acts[1] == AttachAction::Report(orientation_of(cc1, cc2).unwrap())
            &&& forall|k: int| 0 <= k < acts.len() && k != 1 ==> !(acts[k] is Report)
        }),
{
    let o = orientation_of(cc1, cc2).unwrap();
    let all = seq![AttachEvent::Sampled { cc1, cc2 }, AttachEvent::DebounceElapsed] + evs;
    let d = AttachState::Debouncing { cc1, cc2 };
    assert(all.drop_first() == seq![AttachEvent::DebounceElapsed] + evs);
    assert(all.drop_first().drop_first() == evs);
    lemma_attached_is_final(o, evs);
    let tail = attach_run(AttachState::Attached(o), evs).1;
    let acts = attach_run(AttachState::Sampling, all).1;
    assert(attach_run(d, all.drop_first()).1 == seq![AttachAction::Report(o)] + tail);
    assert(acts == seq![AttachAction::Debounce] + (seq![AttachAction::Report(o)] + tail));
    assert forall|k: int| 0 <= k < acts.len() && k != 1 implies !(acts[k] is Report) by {
        if k > 1 {
            assert(acts[k] == tail[k - 2]);
        }
    }
}

/// The state of the monitor from `s` after the first `k` events of `evs`.
pub open spec fn attach_state_at(s: AttachState, evs: Seq<AttachEvent>, k: nat) -> AttachState
    decreases k,
{
    if k == 0 {
        s
    } else {
        attach_next(attach_state_at(s, evs, (k - 1) as nat), evs[k - 1]).0
    }
}

/// The action the monitor from `s` takes on event `k` of `evs`.
pub open spec fn attach_action_at(s: AttachState, evs: Seq<AttachEvent>, k: nat) -> AttachAction {
    attach_next(attach_state_at(s, evs, k), evs[k as int]).1
}

/// Event `m` sampled the lines as `(cc1, cc2)`, and no voltage change came
/// after it and before event `k`.
pub open spec fn held_since(
    evs: Seq<AttachEvent>,
    m: int,
    k: int,
    cc1: CcVState,
    cc2: CcVState,
) -> bool {
    &&& 0 <= m < k
    &&& evs[m] == AttachEvent::Sampled { cc1, cc2 }
    &&& forall|j: int| m < j < k ==> !(evs[j] is VStateChanged)
}

proof fn lemma_debouncing_held(evs: Seq<AttachEvent>, k: nat)
    requires
        k <= evs.len(),
    ensures
        attach_state_at(AttachState::Sampling, evs, k) is Debouncing ==> exists|m: int|
            held_since(
                evs,
                m,
                k as int,
                attach_state_at(AttachState::Sampling, evs, k)->cc1,
                attach_state_at(AttachState::Sampling, evs, k)->cc2,
            ),
    decreases k,
{
    if k > 0 {
        let k1 = (k - 1) as nat;
        lemma_debouncing_held(evs, k1);
        let prev = attach_state_at(AttachState::Sampling, evs, k1);
        let cur = attach_state_at(AttachState::Sampling, evs, k);
        if cur is Debouncing {
            if prev is Debouncing {
                let m = choose|m: int| held_since(evs, m, k1 as int, prev->cc1, prev->cc2);
                assert(held_since(evs, m, k as int, cur->cc1, cur->cc2));
            } else {
                assert(held_since(evs, k1 as int, k as int, cur->cc1, cur->cc2));
            }
        }
    }
}

/// Whatever the events, an attach is reported on event `k` only when the
/// debounce window elapses there, after a sample with the reported
/// orientation that no voltage change followed.
pub proof fn lemma_report_needs_held_sample(evs: Seq<AttachEvent>, k: nat)
    requires
        k < evs.len(),
        attach_action_at(AttachState::Sampling, evs, k) is Report,
    ensures
        evs[k as int] is DebounceElapsed,
        exists|m: int, cc1: CcVState, cc2: CcVState|
            held_since(evs, m, k as int, cc1, cc2) && attach_action_at(
                AttachState::Sampling,
                evs,
                k,
            ) == AttachAction::Report(orientation_of(cc1, cc2).unwrap()),
{
    lemma_debouncing_held(evs, k);
    let st = attach_state_at(AttachState::Sampling, evs, k);
    lemma_report_only_after_window(st, evs[k as int]);
    let m = choose|m: int| held_since(evs, m, k as int, st->cc1, st->cc2);
    assert(held_since(evs, m, k as int, st->cc1, st->cc2));
}

} // verus!
