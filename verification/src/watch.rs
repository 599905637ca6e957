use vstd::prelude::*;

use crate::state::spec_classify;
use crate::state::classify;
use crate::state::Transition;
use crate::state::WatchState;

verus! {

/// Polls the filesystem once for the current state of the file at `path`.
///
/// Relies on fwatch's probe: `Watcher::add_target` stats the target's path on
/// insertion and `Watcher::get_state` hands that state back, `Exists` with the
/// last-modification time when the path exists and `DoesNotExist` otherwise.
/// The `SystemTime` fingerprint is converted, via
/// `SystemTime::duration_since` the epoch, to nanoseconds; a missing or
/// pre-epoch modification time becomes fingerprint zero. The result depends
/// on what is on disk at the moment of the call, so nothing is promised of it.
#[verifier::external_body]
fn probe_path(path: &String) -> (s: WatchState) {
    let mut probe: fwatch::Watcher<fwatch::BasicTarget> = fwatch::Watcher::new();
    probe.add_target(fwatch::BasicTarget::new(path.as_str()));
    match probe.get_state(0) {
        Some(fwatch::WatchState::Exists(Some(time))) => {
            match time.duration_since(std::time::UNIX_EPOCH) {
                Ok(since) => WatchState::Exists(since.as_nanos() as u64),
                Err(_) => WatchState::Exists(0),
            }
        },
        Some(fwatch::WatchState::Exists(None)) => WatchState::Exists(0),
        _ => WatchState::Absent,
    }
}

/// One watched file: its path (the target's immutable identity) and the
/// last-observed filesystem state, which only the owning [`Watcher`] updates.
pub struct Target {
    path: String,
    state: WatchState,
}

impl Target {
    /// The target's path, as a sequence of characters.
    pub closed spec fn path_spec(&self) -> Seq<char> {
        self.path@
    }

    /// The state stored by the most recent sweep (`Absent` before any sweep).
    pub closed spec fn state_spec(&self) -> WatchState {
        self.state
    }

    /// Create a target for the file at `path`. The stored state starts out
    /// `Absent`, so the first sweep reports `Created` for a file that exists.
    pub fn new(path: String) -> (t: Target)
        ensures
            t.path_spec() == path@,
            t.state_spec() == WatchState::Absent,
    {
        Target { path, state: WatchState::Absent }
    }

    /// The path this target watches.
    pub fn path(&self) -> (p: &String)
        ensures
            p@ == self.path_spec(),
    {
        &self.path
    }

    /// The state stored for this target.
    pub fn state(&self) -> (s: WatchState)
        ensures
            s == self.state_spec(),
    {
        self.state
    }

    /// Poll the filesystem for this target's current state. Read-only: the
    /// stored state is not touched, so classification of "previous" against
    /// "current" stays the owning watcher's responsibility. The result
    /// depends on what is on disk, so no particular outcome is promised.
    pub fn observe(&self) -> WatchState {
        probe_path(&self.path)
    }
}

/// Watches an ordered collection of targets. Insertion order is significant:
/// sweep results are indexed positionally, entry `i` describing target `i`.
pub struct Watcher {
    targets: Vec<Target>,
}

impl View for Watcher {
    type V = Seq<Target>;

    closed spec fn view(&self) -> Seq<Target> {
        self.targets@
    }
}

impl Watcher {
    /// Create a watcher with no targets.
    pub fn new() -> (w: Watcher)
        ensures
            w@ =~= Seq::<Target>::empty(),
    {
        Watcher { targets: Vec::new() }
    }

    /// Append a target to the ordered collection.
    pub fn add_target(&mut self, target: Target)
        ensures
            final(self)@ =~= old(self)@.push(target),
    {
        self.targets.push(target);
    }

    /// The number of registered targets.
    pub fn len(&self) -> (n: usize)
        ensures
            n == self@.len(),
    {
        self.targets.len()
    }

    /// The stored state of target `index`, or `None` when out of range.
    pub fn get_state(&self, index: usize) -> (s: Option<WatchState>)
        ensures
            match s {
                Some(st) => index < self@.len() && st == self@[index as int].state_spec(),
                None => index >= self@.len(),
            },
    {
        if index < self.targets.len() {
            Some(self.targets[index].state)
        } else {
            None
        }
    }

    /// The path of target `index`, or `None` when out of range.
    pub fn get_path(&self, index: usize) -> (p: Option<&String>)
        ensures
            match p {
                Some(path) => index < self@.len() && path@ == self@[index as int].path_spec(),
                None => index >= self@.len(),
            },
    {
        if index < self.targets.len() {
            Some(&self.targets[index].path)
        } else {
            None
        }
    }

    /// Record one freshly observed state for target `index`: the stored state
    /// becomes exactly the observation, whatever the transition kind, and the
    /// returned transition classifies the observation against the previously
    /// stored state. No other target is touched.
    pub fn record(&mut self, index: usize, observed: WatchState) -> (t: Transition)
        requires
            index < old(self)@.len(),
        ensures
            final(self)@.len() == old(self)@.len(),
            final(self)@[index as int].path_spec() == old(self)@[index as int].path_spec(),
            final(self)@[index as int].state_spec() == observed,
            forall|j: int|
                0 <= j < old(self)@.len() && j != index ==> final(self)@[j] == old(self)@[j],
            t == spec_classify(old(self)@[index as int].state_spec(), observed),
    {
        let previous = self.targets[index].state;
        self.targets[index].state = observed;
        classify(previous, observed)
    }

    /// One sweep: poll every target in order, classify each observation
    /// against the stored state, store the observation, and return the
    /// transitions positionally. The output has one entry per target; each
    /// stored state afterwards is exactly the state that was observed and
    /// classified, and every path is unchanged. A target whose poll reports
    /// it absent (for whatever reason) yields its transition like any other:
    /// no target's outcome affects the rest of the sweep.
    #[verifier::loop_isolation(false)]
    pub fn sweep(&mut self) -> (transitions: Vec<Transition>)
        ensures
            transitions@.len() == old(self)@.len(),
            final(self)@.len() == old(self)@.len(),
            forall|i: int|
                0 <= i < old(self)@.len() ==> final(self)@[i].path_spec()
                    == old(self)@[i].path_spec(),
            forall|i: int|
                0 <= i < old(self)@.len() ==> transitions@[i] == spec_classify(
                    old(self)@[i].state_spec(),
                    final(self)@[i].state_spec(),
                ),
    {
        let mut transitions: Vec<Transition> = Vec::new();
        let mut index: usize = 0;
        while index < self.targets.len()
            invariant
                index <= old(self)@.len(),
                self@.len() == old(self)@.len(),
                transitions@.len() == index,
                forall|j: int| index <= j < old(self)@.len() ==> self@[j] == old(self)@[j],
                forall|j: int|
                    0 <= j < index ==> self@[j].path_spec() == old(self)@[j].path_spec(),
                forall|j: int|
                    0 <= j < index ==> transitions@[j] == spec_classify(
                        old(self)@[j].state_spec(),
                        self@[j].state_spec(),
                    ),
            decreases old(self)@.len() - index,
        {
            let observed = self.targets[index].observe();
            let transition = self.record(index, observed);
            transitions.push(transition);
            index = index + 1;
        }
        transitions
    }
}

} // verus!
