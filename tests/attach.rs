use pd_sink::attach::{
    is_detached, orientation, AttachAction, AttachEvent, AttachState, CableOrientation, CcVState,
};

#[test]
fn orientation_mapping() {
    assert_eq!(
        orientation(CcVState::High, CcVState::Lowest),
        Some(CableOrientation::Normal)
    );
    assert_eq!(
        orientation(CcVState::Lowest, CcVState::Low),
        Some(CableOrientation::Flipped)
    );
    assert_eq!(
        orientation(CcVState::Low, CcVState::Highest),
        Some(CableOrientation::DebugAccessoryMode)
    );
    assert_eq!(orientation(CcVState::Lowest, CcVState::Lowest), None);
}

#[test]
fn detach_only_when_both_open() {
    assert!(is_detached(CcVState::Lowest, CcVState::Lowest));
    assert!(!is_detached(CcVState::Low, CcVState::Lowest));
    assert!(!is_detached(CcVState::Lowest, CcVState::High));
}

fn run(evs: &[AttachEvent]) -> (AttachState, Vec<AttachAction>) {
    let mut s = AttachState::new();
    let mut acts = Vec::new();
    for e in evs {
        let (n, a) = s.step(*e);
        s = n;
        acts.push(a);
    }
    (s, acts)
}

#[test]
fn bouncing_never_reports() {
    let sample = AttachEvent::Sampled { cc1: CcVState::High, cc2: CcVState::Lowest };
    let evs = [
        sample,
        AttachEvent::VStateChanged,
        sample,
        AttachEvent::VStateChanged,
        AttachEvent::Sampled { cc1: CcVState::Lowest, cc2: CcVState::Lowest },
        AttachEvent::VStateChanged,
        sample,
    ];
    let (s, acts) = run(&evs);
    assert_eq!(s, AttachState::Debouncing { cc1: CcVState::High, cc2: CcVState::Lowest });
    assert!(acts.iter().all(|a| !matches!(a, AttachAction::Report(_))));
    assert_eq!(acts[4], AttachAction::WaitForChange);
    assert_eq!(acts[6], AttachAction::Debounce);
}

#[test]
fn stable_sample_reported_once() {
    let evs = [
        AttachEvent::Sampled { cc1: CcVState::Lowest, cc2: CcVState::High },
        AttachEvent::DebounceElapsed,
        AttachEvent::VStateChanged,
        AttachEvent::DebounceElapsed,
    ];
    let (s, acts) = run(&evs);
    assert_eq!(s, AttachState::Attached(CableOrientation::Flipped));
    assert_eq!(
        acts,
        vec![
            AttachAction::Debounce,
            AttachAction::Report(CableOrientation::Flipped),
            AttachAction::Done,
            AttachAction::Done,
        ]
    );
}
