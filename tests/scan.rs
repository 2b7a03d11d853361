use pn532::catalog::{
    fish_catalog, fish_from_random, fish_id_from_random, lookup_fish, random_fish, FISH_COUNT,
    FISH_DATA_EVENT,
};
use pn532::scan::{scan_start, scan_step, ScanAction, ScanEvent, ScanState};
use pn532::tag::decode_identifier;

fn is_emit(a: &ScanAction) -> bool {
    matches!(a, ScanAction::Emit(_))
}

#[test]
fn catalog_lookup() {
    let catalog = fish_catalog();
    assert_eq!(catalog.len(), 5);
    assert_eq!(lookup_fish(3).map(|f| f.name), Some("Arctic Cod"));
    assert_eq!(lookup_fish(1).map(|f| f.image_path), Some("/salmon.jpg"));
    assert!(lookup_fish(0).is_none());
    assert!(lookup_fish(6).is_none());
}

#[test]
fn random_identifier_in_range() {
    assert_eq!(fish_id_from_random(7, 5), 3);
    assert_eq!(fish_id_from_random(0, 5), 1);
    assert_eq!(fish_id_from_random(u32::MAX, 5), 1);
    let catalog = fish_catalog();
    for _ in 0..50 {
        let f = random_fish();
        assert!((1..=FISH_COUNT).contains(&f.id));
        assert_eq!(f.name, catalog[(f.id - 1) as usize].name);
    }
}

#[test]
fn drawn_value_selects_catalog_record() {
    let f = fish_from_random(2);
    assert_eq!(f.id, 3);
    assert_eq!(f.name, "Arctic Cod");
    assert_eq!(f.image_path, "/polar_cod.jpg");
    let catalog = fish_catalog();
    for r in [0u32, 1, 4, 5, 12, 1_000_003, u32::MAX] {
        let f = fish_from_random(r);
        let expected = &catalog[(r % 5) as usize];
        assert_eq!(f.id, r % 5 + 1);
        assert_eq!((f.id, f.name, f.blurb), (expected.id, expected.name, expected.blurb));
    }
}

#[test]
fn one_emission_per_presence() {
    let catalog = fish_catalog();
    let (mut state, action) = scan_start();
    assert_eq!(state, ScanState::Idle);
    assert!(matches!(action, ScanAction::Detect { pause_ms: 0, timeout_ms: 500 }));
    let mut emissions = 0;
    let events = [
        ScanEvent::TargetSeen,
        ScanEvent::Identified(Some(2)),
        ScanEvent::Emitted(true),
        ScanEvent::TargetSeen,
        ScanEvent::TargetSeen,
        ScanEvent::TargetSeen,
    ];
    for e in events {
        let (next, action) = scan_step(state, e, &catalog);
        if is_emit(&action) {
            emissions += 1;
        }
        state = next;
    }
    assert_eq!(state, ScanState::AwaitingRemoval);
    let (next, action) = scan_step(state, ScanEvent::NoTarget, &catalog);
    assert_eq!(next, ScanState::Idle);
    assert!(matches!(action, ScanAction::Detect { pause_ms: 0, timeout_ms: 500 }));
    assert_eq!(emissions, 1);
}

#[test]
fn idle_without_target_backs_off() {
    let catalog = fish_catalog();
    let (next, action) = scan_step(ScanState::Idle, ScanEvent::NoTarget, &catalog);
    assert_eq!(next, ScanState::Idle);
    assert!(matches!(action, ScanAction::Detect { pause_ms: 50, timeout_ms: 500 }));
}

#[test]
fn unreadable_or_unknown_tag_still_awaits_removal() {
    let catalog = fish_catalog();
    for id in [None, Some(99)] {
        let (next, action) =
            scan_step(ScanState::TargetPresent, ScanEvent::Identified(id), &catalog);
        assert_eq!(next, ScanState::AwaitingRemoval);
        assert!(matches!(action, ScanAction::Detect { pause_ms: 0, timeout_ms: 200 }));
    }
}

#[test]
fn removal_polls_while_tag_stays() {
    let catalog = fish_catalog();
    let (next, action) = scan_step(ScanState::AwaitingRemoval, ScanEvent::TargetSeen, &catalog);
    assert_eq!(next, ScanState::AwaitingRemoval);
    assert!(matches!(action, ScanAction::Detect { pause_ms: 100, timeout_ms: 200 }));
}

#[test]
fn failed_emission_stops_scanning() {
    let catalog = fish_catalog();
    let (next, action) =
        scan_step(ScanState::AwaitingRemoval, ScanEvent::Emitted(false), &catalog);
    assert_eq!(next, ScanState::Stopped);
    assert!(matches!(action, ScanAction::Stop));
    let (next, action) = scan_step(next, ScanEvent::TargetSeen, &catalog);
    assert_eq!(next, ScanState::Stopped);
    assert!(matches!(action, ScanAction::Stop));
}

#[test]
fn end_to_end_scan_emits_record_once() {
    let catalog = fish_catalog();
    let memory = b"\x04\x10\x00\x00en3\xfe\x00\x00";
    let id = decode_identifier(memory);
    assert_eq!(id, Some(3));
    let (state, _) = scan_start();
    let (state, action) = scan_step(state, ScanEvent::TargetSeen, &catalog);
    assert!(matches!(action, ScanAction::ReadIdentifier));
    let (state, action) = scan_step(state, ScanEvent::Identified(id), &catalog);
    let mut emitted = Vec::new();
    if let ScanAction::Emit(f) = action {
        emitted.push((FISH_DATA_EVENT, f.id, f.name));
    }
    let (state, action) = scan_step(state, ScanEvent::Emitted(true), &catalog);
    assert!(!is_emit(&action));
    let (state, action) = scan_step(state, ScanEvent::TargetSeen, &catalog);
    assert!(!is_emit(&action));
    assert_eq!(emitted, vec![("fishData", 3, "Arctic Cod")]);
    assert_eq!(state, ScanState::AwaitingRemoval);
}
