use vstd::prelude::*;

use crate::state::Transition;
use crate::state::WatchState;

verus! {

/// When the poll loop must read a target's file: the target's stored state
/// reports the file present, and the sweep classified it as just created or
/// just modified. `Unchanged`, `StillAbsent` and `Deleted` transitions
/// trigger no read, and nothing is ever read from a target whose file is
/// absent. In particular a failed read or parse is not retried while the
/// file stays unchanged: the next read comes with the next genuine change
/// (and a file already present at startup is read, since a fresh target's
/// first sweep classifies it as `Created`).
pub open spec fn spec_needs_refresh(state: Option<WatchState>, transition: Transition) -> bool {
    &&& state matches Some(WatchState::Exists(_))
    &&& (transition == Transition::Created || transition == Transition::Modified)
}

/// Decide, for one target of one sweep, whether the poll loop must read and
/// re-parse the target's file. `state` is the target's stored state after
/// the sweep and `transition` the transition the sweep reported for it.
pub fn needs_refresh(state: Option<WatchState>, transition: Transition) -> (r: bool)
    ensures
        r == spec_needs_refresh(state, transition),
{
    match state {
        Some(WatchState::Exists(_)) => matches!(
            transition,
            Transition::Created | Transition::Modified,
        ),
        _ => false,
    }
}

/// How one refresh attempt ends: whether the freshly parsed save is forwarded
/// to the sync client, and whether a parsed save is held afterwards.
#[derive(Clone, Copy, Debug, PartialEq, Eq, Structural)]
pub struct RefreshOutcome {
    pub forward: bool,
    pub have_save: bool,
}

/// The outcome of one refresh attempt: the parsed save is forwarded exactly
/// when the read and the parse both succeeded, and a save is held afterwards
/// exactly when one was held before or a new one was just parsed. A read that
/// fails (for instance because the file vanished between classification and
/// read) or a parse that fails is a soft failure: nothing is forwarded and
/// the previously held save, if any, is retained rather than cleared. Whether
/// the forwarding itself later succeeds is no input here: a network failure
/// cannot disturb the held save or any watcher state.
pub open spec fn spec_refresh_outcome(
    have_save: bool,
    read_ok: bool,
    parse_ok: bool,
) -> RefreshOutcome {
    RefreshOutcome { forward: read_ok && parse_ok, have_save: have_save || (read_ok && parse_ok) }
}

/// Settle one refresh attempt, given whether the file could be read and
/// whether its contents parsed. See [`spec_refresh_outcome`] for the policy.
pub fn refresh_outcome(have_save: bool, read_ok: bool, parse_ok: bool) -> (r: RefreshOutcome)
    ensures
        r == spec_refresh_outcome(have_save, read_ok, parse_ok),
{
    let parsed = read_ok && parse_ok;
    RefreshOutcome { forward: parsed, have_save: have_save || parsed }
}

/// Law: a refresh that does not produce a freshly parsed save is never
/// forwarded and never clears the held save; one that does is always
/// forwarded and always leaves a save held. In particular a file that
/// vanished between classification and read (a failed read) is skipped, and
/// a parse failure retains the previous save.
pub proof fn lemma_soft_failure_isolated(have_save: bool, read_ok: bool, parse_ok: bool)
    ensures
        !(read_ok && parse_ok) ==> {
            &&& !spec_refresh_outcome(have_save, read_ok, parse_ok).forward
            &&& spec_refresh_outcome(have_save, read_ok, parse_ok).have_save == have_save
        },
        read_ok && parse_ok ==> {
            &&& spec_refresh_outcome(have_save, read_ok, parse_ok).forward
            &&& spec_refresh_outcome(have_save, read_ok, parse_ok).have_save
        },
{
}

/// Whether a parsed save is held once one target's handling ends, the
/// forwarding attempt included: `outcome` is how the refresh attempt ended
/// and `forward_ok` whether the outbound request (made only when
/// `outcome.forward`) succeeded. The request's result is deliberately
/// ignored: a freshly parsed save is kept, and a previously held one
/// retained, whether the sync client answered with success or failure.
pub open spec fn spec_save_after_forward(outcome: RefreshOutcome, forward_ok: bool) -> bool {
    outcome.have_save
}

/// Settle the held save once the forwarding attempt (if any) has come back.
/// See [`spec_save_after_forward`]: the sync client's answer changes nothing.
pub fn save_after_forward(outcome: RefreshOutcome, forward_ok: bool) -> (held: bool)
    ensures
        held == spec_save_after_forward(outcome, forward_ok),
{
    outcome.have_save
}

/// Law: a sync failure cannot corrupt local state. The save held after one
/// target's handling is the same whether the outbound request succeeded or
/// failed, and no other state of the library takes the request's result as
/// an input at all; the loop merely logs the failure and carries on to the
/// next sweep.
pub proof fn lemma_sync_failure_harmless(outcome: RefreshOutcome, ok1: bool, ok2: bool)
    ensures
        spec_save_after_forward(outcome, ok1) == spec_save_after_forward(outcome, ok2),
{
}

} // verus!
