use vstd::prelude::*;

verus! {

/// The filesystem state of one watched file, as seen by a single poll: either
/// the file is absent, or it exists with a fingerprint identifying its current
/// content version (here, the last-modification time in nanoseconds since the
/// epoch, with zero standing in when the platform reports no such time).
#[derive(Clone, Copy, Debug, PartialEq, Eq, Structural)]
pub enum WatchState {
    Absent,
    Exists(u64),
}

/// The classified change in a target's state between two consecutive polls.
/// Exactly one variant applies to each (previous, current) pair of states.
#[derive(Clone, Copy, Debug, PartialEq, Eq, Structural)]
pub enum Transition {
    Unchanged,
    Created,
    Modified,
    Deleted,
    StillAbsent,
}

/// The classifier's truth table: absent-to-absent is `StillAbsent`,
/// absent-to-exists is `Created`, exists-to-absent is `Deleted`, and
/// exists-to-exists is split by fingerprint equality into `Unchanged`
/// versus `Modified`.
pub open spec fn spec_classify(previous: WatchState, current: WatchState) -> Transition {
    match (previous, current) {
        (WatchState::Absent, WatchState::Absent) => Transition::StillAbsent,
        (WatchState::Absent, WatchState::Exists(_)) => Transition::Created,
        (WatchState::Exists(_), WatchState::Absent) => Transition::Deleted,
        (WatchState::Exists(a), WatchState::Exists(b)) => if a == b {
            Transition::Unchanged
        } else {
            Transition::Modified
        },
    }
}

/// Classify the transition a target underwent between its previously stored
/// state and a freshly observed one. Pure: no I/O, no side effects, total
/// over every pair of states.
pub fn classify(previous: WatchState, current: WatchState) -> (t: Transition)
    ensures
        t == spec_classify(previous, current),
{
    match (previous, current) {
        (WatchState::Absent, WatchState::Absent) => Transition::StillAbsent,
        (WatchState::Absent, WatchState::Exists(_)) => Transition::Created,
        (WatchState::Exists(_), WatchState::Absent) => Transition::Deleted,
        (WatchState::Exists(a), WatchState::Exists(b)) => if a == b {
            Transition::Unchanged
        } else {
            Transition::Modified
        },
    }
}

/// Law: for every pair of states the classifier returns the transition the
/// truth table mandates, spelled out case by case over arbitrary
/// fingerprints, so no pair of states is ambiguous or unhandled.
pub proof fn lemma_classify_table(a: u64, b: u64)
    ensures
        spec_classify(WatchState::Absent, WatchState::Absent) == Transition::StillAbsent,
        spec_classify(WatchState::Absent, WatchState::Exists(b)) == Transition::Created,
        spec_classify(WatchState::Exists(a), WatchState::Absent) == Transition::Deleted,
        a == b ==> spec_classify(WatchState::Exists(a), WatchState::Exists(b))
            == Transition::Unchanged,
        a != b ==> spec_classify(WatchState::Exists(a), WatchState::Exists(b))
            == Transition::Modified,
{
}

/// Law: a fresh target's stored state is `Absent` (see `Target::new`), so
/// classifying its first observation yields `StillAbsent` when the file does
/// not exist and `Created` when it does.
pub proof fn lemma_first_observation(observed: WatchState)
    ensures
        observed is Absent ==> spec_classify(WatchState::Absent, observed)
            == Transition::StillAbsent,
        observed is Exists ==> spec_classify(WatchState::Absent, observed) == Transition::Created,
{
}

/// Law: classification is stable under repeated application. It depends on
/// its two arguments alone, so classifying the same pair of states again
/// (in the same poll or a later one) yields the same transition.
pub proof fn lemma_classify_stable(p1: WatchState, c1: WatchState, p2: WatchState, c2: WatchState)
    requires
        p1 == p2,
        c1 == c2,
    ensures
        spec_classify(p1, c1) == spec_classify(p2, c2),
{
}

} // verus!
