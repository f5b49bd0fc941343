//! Runs of the supervision machine over whole input sequences, and what
//! holds of every run.

use crate::event::{is_terminal, OutputEvent};
use crate::supervisor::{
    relay_step, spec_step, ActionView, FailureKind, Input, Phase, RunMode,
};
use vstd::prelude::*;

verus! {

/// The phase the machine is in after the first `n` inputs, starting from
/// `start`.
pub open spec fn phase_after(start: Phase, inputs: Seq<Input>, n: int) -> Phase
    decreases n,
{
    if n <= 0 {
        start
    } else {
        spec_step(phase_after(start, inputs, n - 1), inputs[n - 1]).0
    }
}

/// The action the machine asks for on input number `i`, starting from
/// `start`.
pub open spec fn action_at(start: Phase, inputs: Seq<Input>, i: int) -> ActionView {
    spec_step(phase_after(start, inputs, i), inputs[i]).1
}

/// Whether an action relays an event of the process to the log.
pub open spec fn relays(action: ActionView) -> bool {
    action is Forward || action is Finish
}

/// Whether an action touches the system on behalf of supervision: resolves or
/// creates the data directory, or launches the process.
pub open spec fn acts_on_system(action: ActionView) -> bool {
    action is ResolveDataDirectory || action is CreateDirectory || action is EncodePath
        || action is Launch
}

/// Whether the data directory was created and, later, the process launched,
/// both among the actions before input number `n`.
pub open spec fn created_then_launched(inputs: Seq<Input>, n: int) -> bool {
    exists|c: int, l: int|
        0 <= c < l < n && #[trigger] action_at(Phase::NotStarted, inputs, c) is CreateDirectory
            && #[trigger] action_at(Phase::NotStarted, inputs, l) is Launch
}

/// Whether the data directory was created among the actions before input
/// number `n`.
pub open spec fn created_before(inputs: Seq<Input>, n: int) -> bool {
    exists|c: int|
        0 <= c < n && #[trigger] action_at(Phase::NotStarted, inputs, c) is CreateDirectory
}

/// The inputs that hand the machine the given process events, in order.
pub open spec fn process_inputs(events: Seq<OutputEvent>) -> Seq<Input> {
    Seq::new(events.len(), |k: int| Input::Process(events[k]))
}

proof fn lemma_inactive_stays(inputs: Seq<Input>, n: int)
    requires
        1 <= n <= inputs.len(),
        inputs[0] == Input::Startup(RunMode::Development),
    ensures
        phase_after(Phase::NotStarted, inputs, n) == Phase::Inactive,
    decreases n,
{
    if n > 1 {
        lemma_inactive_stays(inputs, n - 1);
    } else {
        assert(phase_after(Phase::NotStarted, inputs, 0) == Phase::NotStarted);
    }
}

/// In development mode the machine asks for a notice and for nothing else:
/// no directory is resolved or created, and nothing is launched or relayed,
/// whatever inputs follow.
pub proof fn development_mode_is_inert(inputs: Seq<Input>, i: int)
    requires
        0 <= i < inputs.len(),
        inputs[0] == Input::Startup(RunMode::Development),
    ensures
        !acts_on_system(action_at(Phase::NotStarted, inputs, i)),
        !relays(action_at(Phase::NotStarted, inputs, i)),
        i == 0 ==> action_at(Phase::NotStarted, inputs, i) is Notice,
        i > 0 ==> action_at(Phase::NotStarted, inputs, i) is Idle,
{
    if i > 0 {
        lemma_inactive_stays(inputs, i);
    }
}

proof fn lemma_history(inputs: Seq<Input>, n: int)
    requires
        0 <= n <= inputs.len(),
    ensures
        ({
            let phase = phase_after(Phase::NotStarted, inputs, n);
            &&& (phase is Creating || phase is Encoding) ==> created_before(inputs, n)
            &&& (phase is Spawning || phase is Running) ==> created_then_launched(inputs, n)
        }),
    decreases n,
{
    if n > 0 {
        lemma_history(inputs, n - 1);
        let before = phase_after(Phase::NotStarted, inputs, n - 1);
        let after = phase_after(Phase::NotStarted, inputs, n);
        let action = action_at(Phase::NotStarted, inputs, n - 1);
        assert(after == spec_step(before, inputs[n - 1]).0);
        if after is Creating || after is Encoding {
            if before is Resolving {
                assert(action is CreateDirectory);
            } else {
                assert(created_before(inputs, n - 1));
                let c = choose|c: int|
                    0 <= c < n - 1 && #[trigger] action_at(Phase::NotStarted, inputs, c)
                        is CreateDirectory;
                assert(0 <= c < n && action_at(Phase::NotStarted, inputs, c) is CreateDirectory);
            }
        }
        if after is Spawning || after is Running {
            if before is Encoding {
                assert(action is Launch);
                let c = choose|c: int|
                    0 <= c < n - 1 && #[trigger] action_at(Phase::NotStarted, inputs, c)
                        is CreateDirectory;
                assert(0 <= c < n - 1 < n && action_at(Phase::NotStarted, inputs, c)
                    is CreateDirectory && action_at(Phase::NotStarted, inputs, n - 1) is Launch);
            } else {
                assert(created_then_launched(inputs, n - 1));
                let (c, l) = choose|c: int, l: int|
                    0 <= c < l < n - 1 && #[trigger] action_at(Phase::NotStarted, inputs, c)
                        is CreateDirectory && #[trigger] action_at(Phase::NotStarted, inputs, l)
                        is Launch;
                assert(0 <= c < l < n && action_at(Phase::NotStarted, inputs, c)
                    is CreateDirectory && action_at(Phase::NotStarted, inputs, l) is Launch);
            }
        }
    }
}

/// Before any event of the process is relayed, the data directory was
/// created and, after that, the process was launched.
pub proof fn relay_follows_provisioning_and_launch(inputs: Seq<Input>, i: int)
    requires
        0 <= i < inputs.len(),
        relays(action_at(Phase::NotStarted, inputs, i)),
    ensures
        phase_after(Phase::NotStarted, inputs, i) is Running,
        created_then_launched(inputs, i),
{
    lemma_history(inputs, i);
}

/// The process is launched only after the data directory was created.
pub proof fn launch_follows_provisioning(inputs: Seq<Input>, i: int)
    requires
        0 <= i < inputs.len(),
        action_at(Phase::NotStarted, inputs, i) is Launch,
    ensures
        created_before(inputs, i),
{
    lemma_history(inputs, i);
}

proof fn lemma_final_phase_stays(start: Phase, inputs: Seq<Input>, n: int, m: int)
    requires
        0 <= n <= m,
        phase_after(start, inputs, n) is Terminated || phase_after(start, inputs, n) is Failed
            || phase_after(start, inputs, n) is Inactive,
    ensures
        phase_after(start, inputs, m) == phase_after(start, inputs, n),
    decreases m - n,
{
    if m > n {
        lemma_final_phase_stays(start, inputs, n, m - 1);
    }
}

/// Once the end of the process has been relayed, nothing more is relayed or
/// asked for: every later input is answered with `Idle`. So a run relays at
/// most one termination.
pub proof fn nothing_follows_termination(start: Phase, inputs: Seq<Input>, i: int, j: int)
    requires
        0 <= i < j < inputs.len(),
        action_at(start, inputs, i) is Finish,
    ensures
        phase_after(start, inputs, i + 1) is Terminated,
        phase_after(start, inputs, j) == phase_after(start, inputs, i + 1),
        action_at(start, inputs, j) is Idle,
{
    assert(phase_after(start, inputs, i + 1) == spec_step(
        phase_after(start, inputs, i),
        inputs[i],
    ).0);
    lemma_final_phase_stays(start, inputs, i + 1, j);
}

/// After a startup failure was reported, every later input is answered
/// with `Idle`: nothing is spawned and nothing is relayed.
pub proof fn nothing_follows_failure(start: Phase, inputs: Seq<Input>, i: int, j: int)
    requires
        0 <= i < j < inputs.len(),
        action_at(start, inputs, i) is Report,
    ensures
        phase_after(start, inputs, i + 1) is Failed,
        action_at(start, inputs, j) is Idle,
{
    assert(phase_after(start, inputs, i + 1) == spec_step(
        phase_after(start, inputs, i),
        inputs[i],
    ).0);
    lemma_final_phase_stays(start, inputs, i + 1, j);
}

/// A run relays the end of the process at most once: two inputs that are
/// both answered with `Finish` are one and the same input.
pub proof fn termination_is_relayed_once(start: Phase, inputs: Seq<Input>, i: int, j: int)
    requires
        0 <= i < inputs.len(),
        0 <= j < inputs.len(),
        action_at(start, inputs, i) is Finish,
        action_at(start, inputs, j) is Finish,
    ensures
        i == j,
{
    if i < j {
        nothing_follows_termination(start, inputs, i, j);
    }
    if j < i {
        nothing_follows_termination(start, inputs, j, i);
    }
}

/// A companion executable that cannot be located is reported as such and
/// goes no further: the machine rests in the failed phase, and every later
/// input is answered with `Idle`.
pub proof fn missing_executable_is_contained(start: Phase, inputs: Seq<Input>, i: int, j: int)
    requires
        0 <= i < j < inputs.len(),
        phase_after(start, inputs, i) is Spawning,
        inputs[i] is ExecutableMissing,
    ensures
        action_at(start, inputs, i) matches ActionView::Report { kind, .. }
            && kind == FailureKind::ExecutableNotFound,
        phase_after(start, inputs, i + 1) == Phase::Failed(FailureKind::ExecutableNotFound),
        phase_after(start, inputs, j) == Phase::Failed(FailureKind::ExecutableNotFound),
        action_at(start, inputs, j) is Idle,
{
    nothing_follows_failure(start, inputs, i, j);
    lemma_final_phase_stays(start, inputs, i + 1, j);
}

proof fn lemma_still_running(events: Seq<OutputEvent>, n: int)
    requires
        0 <= n <= events.len(),
        forall|k: int| 0 <= k < n ==> !is_terminal(#[trigger] events[k]),
    ensures
        phase_after(Phase::Running, process_inputs(events), n) == Phase::Running,
    decreases n,
{
    if n > 0 {
        lemma_still_running(events, n - 1);
        assert(!is_terminal(events[n - 1]));
        assert(process_inputs(events)[n - 1] == Input::Process(events[n - 1]));
    }
}

/// While the process runs, the relay answers each event with that event's
/// own action, in the order of arrival: up to and including the first
/// termination no event is dropped, merged or reordered.
pub proof fn relay_preserves_order(events: Seq<OutputEvent>, i: int)
    requires
        0 <= i < events.len(),
        forall|k: int| 0 <= k < i ==> !is_terminal(#[trigger] events[k]),
    ensures
        action_at(Phase::Running, process_inputs(events), i) == relay_step(events[i]).1,
{
    lemma_still_running(events, i);
    assert(process_inputs(events)[i] == Input::Process(events[i]));
}

} // verus!
