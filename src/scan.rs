//! The scan lifecycle: detect a tag, read and decode it once, deliver its record,
//! then wait for the tag to leave before detecting again. The caller performs each
//! action and hands back what came of it.
use vstd::prelude::*;
use crate::catalog::{catalog_find, find_fish, FishInfo};

verus! {

/// Detection timeout while no tag is present.
pub const TAG_DETECT_TIMEOUT_MS: u64 = 500;
/// Detection timeout while waiting for a tag to leave.
pub const TAG_REMOVAL_CHECK_MS: u64 = 200;
/// Pause between removal checks.
pub const TAG_REMOVAL_POLL_MS: u64 = 100;
/// Pause after a detection that found no tag.
pub const MAIN_LOOP_INTERVAL_MS: u64 = 50;

/// Where the lifecycle stands.
#[derive(Clone, Copy, PartialEq, Eq, Structural, Debug)]
pub enum ScanState {
    /// No tag present; detecting.
    Idle,
    /// A tag was detected; its identifier is being read.
    TargetPresent,
    /// The tag has been handled; waiting for it to leave.
    AwaitingRemoval,
    /// Delivery failed: the presentation layer is gone and scanning is over.
    Stopped,
}

/// What came of the last action.
#[derive(Clone, Copy, PartialEq, Eq, Structural, Debug)]
pub enum ScanEvent {
    /// A detection found a tag.
    TargetSeen,
    /// A detection found no tag.
    NoTarget,
    /// The tag's memory was read and decoded, to this identifier if any.
    Identified(Option<u32>),
    /// A record was handed to the presentation layer, successfully or not.
    Emitted(bool),
}

/// What the caller should do next.
#[derive(Clone, Copy, Debug)]
pub enum ScanAction {
    /// Pause `pause_ms`, then detect a target waiting up to `timeout_ms`.
    Detect { pause_ms: u64, timeout_ms: u64 },
    /// Read the tag's memory and decode its identifier.
    ReadIdentifier,
    /// Hand this record to the presentation layer.
    Emit(FishInfo),
    /// Stop scanning.
    Stop,
}

/// The action that a state waits on, repeated when an event does not answer it.
pub open spec fn resume_action(s: ScanState) -> ScanAction {
    match s {
        ScanState::Idle => ScanAction::Detect { pause_ms: 0, timeout_ms: TAG_DETECT_TIMEOUT_MS },
        ScanState::TargetPresent => ScanAction::ReadIdentifier,
        ScanState::AwaitingRemoval => ScanAction::Detect {
            pause_ms: 0,
            timeout_ms: TAG_REMOVAL_CHECK_MS,
        },
        ScanState::Stopped => ScanAction::Stop,
    }
}

/// The next state and action from state `s` on event `e`, with records looked up
/// in `catalog`. An event that does not answer the state's pending action leaves
/// the state as it is and repeats that action.
pub open spec fn scan_next(s: ScanState, e: ScanEvent, catalog: Seq<FishInfo>) -> (
    ScanState,
    ScanAction,
) {
    match (s, e) {
        (ScanState::Idle, ScanEvent::TargetSeen) => (
            ScanState::TargetPresent,
            ScanAction::ReadIdentifier,
        ),
        (ScanState::Idle, ScanEvent::NoTarget) => (
            ScanState::Idle,
            ScanAction::Detect { pause_ms: MAIN_LOOP_INTERVAL_MS, timeout_ms: TAG_DETECT_TIMEOUT_MS },
        ),
        (ScanState::TargetPresent, ScanEvent::Identified(id)) => {
            let found = match id {
                Some(n) => catalog_find(catalog, n),
                None => None,
            };
            match found {
                Some(f) => (ScanState::AwaitingRemoval, ScanAction::Emit(f)),
                None => (ScanState::AwaitingRemoval, resume_action(ScanState::AwaitingRemoval)),
            }
        },
        (ScanState::AwaitingRemoval, ScanEvent::TargetSeen) => (
            ScanState::AwaitingRemoval,
            ScanAction::Detect { pause_ms: TAG_REMOVAL_POLL_MS, timeout_ms: TAG_REMOVAL_CHECK_MS },
        ),
        (ScanState::AwaitingRemoval, ScanEvent::NoTarget) => (
            ScanState::Idle,
            resume_action(ScanState::Idle),
        ),
        (ScanState::AwaitingRemoval, ScanEvent::Emitted(false)) => (
            ScanState::Stopped,
            ScanAction::Stop,
        ),
        _ => (s, resume_action(s)),
    }
}

/// The state reached from `s` through `events`, and how many records were handed
/// out on the way.
pub open spec fn scan_run(s: ScanState, events: Seq<ScanEvent>, catalog: Seq<FishInfo>) -> (
    ScanState,
    nat,
)
    decreases events.len(),
{
    if events.len() == 0 {
        (s, 0)
    } else {
        let (next, action) = scan_next(s, events[0], catalog);
        let (last, n) = scan_run(next, events.drop_first(), catalog);
        (last, n + if action is Emit {
            1nat
        } else {
            0nat
        })
    }
}

/// The lifecycle's first state and action.
pub fn scan_start() -> (r: (ScanState, ScanAction))
    ensures
        r == (ScanState::Idle, resume_action(ScanState::Idle)),
{
    (ScanState::Idle, ScanAction::Detect { pause_ms: 0, timeout_ms: TAG_DETECT_TIMEOUT_MS })
}

fn resume(s: ScanState) -> (r: ScanAction)
    ensures
        r == resume_action(s),
{
    match s {
        ScanState::Idle => ScanAction::Detect { pause_ms: 0, timeout_ms: TAG_DETECT_TIMEOUT_MS },
        ScanState::TargetPresent => ScanAction::ReadIdentifier,
        ScanState::AwaitingRemoval => ScanAction::Detect {
            pause_ms: 0,
            timeout_ms: TAG_REMOVAL_CHECK_MS,
        },
        ScanState::Stopped => ScanAction::Stop,
    }
}

/// Advances the lifecycle from `state` on `event`, looking records up in `catalog`.
pub fn scan_step(state: ScanState, event: ScanEvent, catalog: &Vec<FishInfo>) -> (r: (
    ScanState,
    ScanAction,
))
    ensures
        r == scan_next(state, event, catalog@),
{
    match (state, event) {
        (ScanState::Idle, ScanEvent::TargetSeen) => (
            ScanState::TargetPresent,
            ScanAction::ReadIdentifier,
        ),
        (ScanState::Idle, ScanEvent::NoTarget) => (
            ScanState::Idle,
            ScanAction::Detect { pause_ms: MAIN_LOOP_INTERVAL_MS, timeout_ms: TAG_DETECT_TIMEOUT_MS },
        ),
        (ScanState::TargetPresent, ScanEvent::Identified(id)) => {
            let found = match id {
                Some(n) => find_fish(catalog, n),
                None => None,
            };
            match found {
                Some(f) => (ScanState::AwaitingRemoval, ScanAction::Emit(f)),
                None => (ScanState::AwaitingRemoval, resume(ScanState::AwaitingRemoval)),
            }
        },
        (ScanState::AwaitingRemoval, ScanEvent::TargetSeen) => (
            ScanState::AwaitingRemoval,
            ScanAction::Detect { pause_ms: TAG_REMOVAL_POLL_MS, timeout_ms: TAG_REMOVAL_CHECK_MS },
        ),
        (ScanState::AwaitingRemoval, ScanEvent::NoTarget) => (ScanState::Idle, resume(ScanState::Idle)),
        (ScanState::AwaitingRemoval, ScanEvent::Emitted(false)) => (
            ScanState::Stopped,
            ScanAction::Stop,
        ),
        _ => (state, resume(state)),
    }
}

proof fn lemma_stay_step(e: ScanEvent, catalog: Seq<FishInfo>)
    requires
        e != ScanEvent::NoTarget,
        e != ScanEvent::Emitted(false),
    ensures
        scan_next(ScanState::AwaitingRemoval, e, catalog).0 == ScanState::AwaitingRemoval,
        !(scan_next(ScanState::AwaitingRemoval, e, catalog).1 is Emit),
{
    match e {
        ScanEvent::Emitted(ok) => {
            assert(ok);
        },
        _ => {},
    }
}

/// While a tag stays, nothing is handed out: from `AwaitingRemoval`, events that
/// report no removal and no failed delivery keep the state and emit nothing.
pub proof fn lemma_no_emission_while_present(events: Seq<ScanEvent>, catalog: Seq<FishInfo>)
    requires
        forall|i: int|
            0 <= i < events.len() ==> #[trigger] events[i] != ScanEvent::NoTarget && events[i]
                != ScanEvent::Emitted(false),
    ensures
        scan_run(ScanState::AwaitingRemoval, events, catalog) == (ScanState::AwaitingRemoval, 0nat),
    decreases events.len(),
{
    if events.len() > 0 {
        let rest = events.drop_first();
        assert forall|i: int| 0 <= i < rest.len() implies #[trigger] rest[i]
            != ScanEvent::NoTarget && rest[i] != ScanEvent::Emitted(false) by {
            assert(rest[i] == events[i + 1]);
        }
        lemma_no_emission_while_present(rest, catalog);
        assert(events[0] != ScanEvent::NoTarget && events[0] != ScanEvent::Emitted(false));
        lemma_stay_step(events[0], catalog);
    }
}

/// One presence of a tag gives at most one record: from `Idle`, a detection, the
/// decoded identifier `id`, any events of the tag staying (`during`: no removal, no
/// failed delivery) and then a failed detection bring the lifecycle back to `Idle`
/// having emitted exactly once if `id` names a catalog record, and never otherwise.
pub proof fn lemma_one_emission_per_presence(
    id: Option<u32>,
    during: Seq<ScanEvent>,
    catalog: Seq<FishInfo>,
)
    requires
        forall|i: int|
            0 <= i < during.len() ==> #[trigger] during[i] != ScanEvent::NoTarget && during[i]
                != ScanEvent::Emitted(false),
    ensures
        ({
            let events = seq![ScanEvent::TargetSeen, ScanEvent::Identified(id)] + during + seq![
                ScanEvent::NoTarget,
            ];
            let found = match id {
                Some(n) => catalog_find(catalog, n) is Some,
                None => false,
            };
            scan_run(ScanState::Idle, events, catalog) == (ScanState::Idle, if found {
                1nat
            } else {
                0nat
            })
        }),
    decreases during.len(),
{
    let events = seq![ScanEvent::TargetSeen, ScanEvent::Identified(id)] + during + seq![
        ScanEvent::NoTarget,
    ];
    lemma_removal_ends_presence(during, catalog);
    assert(events[0] == ScanEvent::TargetSeen);
    assert(events.drop_first()[0] == ScanEvent::Identified(id));
    assert(events.drop_first().drop_first() =~= during + seq![ScanEvent::NoTarget]);
    assert(scan_next(ScanState::Idle, ScanEvent::TargetSeen, catalog).0
        == ScanState::TargetPresent);
    let step = scan_next(ScanState::TargetPresent, ScanEvent::Identified(id), catalog);
    assert(step.0 == ScanState::AwaitingRemoval);
    let found = match id {
        Some(n) => catalog_find(catalog, n) is Some,
        None => false,
    };
    assert(step.1 is Emit <==> found);
    let after_detect = events.drop_first();
    assert(scan_run(ScanState::AwaitingRemoval, after_detect.drop_first(), catalog) == (
        ScanState::Idle,
        0nat,
    ));
    assert(scan_run(ScanState::TargetPresent, after_detect, catalog) == (ScanState::Idle, if found {
        1nat
    } else {
        0nat
    }));
}

/// From `AwaitingRemoval`, events of the tag staying followed by a failed
/// detection lead back to `Idle` with nothing emitted.
pub proof fn lemma_removal_ends_presence(during: Seq<ScanEvent>, catalog: Seq<FishInfo>)
    requires
        forall|i: int|
            0 <= i < during.len() ==> #[trigger] during[i] != ScanEvent::NoTarget && during[i]
                != ScanEvent::Emitted(false),
    ensures
        scan_run(ScanState::AwaitingRemoval, during + seq![ScanEvent::NoTarget], catalog) == (
            ScanState::Idle,
            0nat,
        ),
    decreases during.len(),
{
    let events = during + seq![ScanEvent::NoTarget];
    if during.len() == 0 {
        assert(events =~= seq![ScanEvent::NoTarget]);
        assert(events[0] == ScanEvent::NoTarget);
        assert(events.drop_first().len() == 0);
        assert(scan_next(ScanState::AwaitingRemoval, ScanEvent::NoTarget, catalog).0
            == ScanState::Idle);
        assert(!(scan_next(ScanState::AwaitingRemoval, ScanEvent::NoTarget, catalog).1 is Emit));
        assert(scan_run(ScanState::Idle, events.drop_first(), catalog) == (ScanState::Idle, 0nat));
    } else {
        let rest = during.drop_first();
        assert forall|i: int| 0 <= i < rest.len() implies #[trigger] rest[i]
            != ScanEvent::NoTarget && rest[i] != ScanEvent::Emitted(false) by {
            assert(rest[i] == during[i + 1]);
        }
        lemma_removal_ends_presence(rest, catalog);
        assert(events[0] == during[0]);
        assert(during[0] != ScanEvent::NoTarget && during[0] != ScanEvent::Emitted(false));
        lemma_stay_step(during[0], catalog);
        assert(events.drop_first() =~= rest + seq![ScanEvent::NoTarget]);
    }
}

} // verus!
