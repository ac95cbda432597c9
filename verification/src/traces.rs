//! Laws of whole engine runs.
//!
//! A run is the engine folded over a sequence of events. The lemmas here
//! state the ordering guarantees of the orchestrator: proposals start only
//! from `Idle`; in manual mode an outcome is delivered between any two
//! proposal starts (so sealing attempts never overlap and command N's outcome
//! is reported before command N+1's proposal begins); and `Shutdown` is
//! absorbing — after a fatal client failure no proposal or import is ever
//! started again and every further command is answered with `EngineShutdown`.

use vstd::prelude::*;

use crate::engine::{emitted_action, next_state, EngineAction, EngineEvent, SealingEngine};
use crate::errors::{SealError, SealOutcome};

verus! {

/// The engine after consuming `events` in order, starting from `engine`.
pub open spec fn run(engine: SealingEngine, events: Seq<EngineEvent>) -> SealingEngine
    decreases events.len(),
{
    if events.len() == 0 {
        engine
    } else {
        next_state(run(engine, events.drop_last()), events.last())
    }
}

/// The engine just before consuming `events[i]`.
pub open spec fn state_at(engine: SealingEngine, events: Seq<EngineEvent>, i: int) -> SealingEngine {
    run(engine, events.take(i))
}

/// The action emitted while consuming `events[i]`.
pub open spec fn action_at(engine: SealingEngine, events: Seq<EngineEvent>, i: int) -> EngineAction {
    emitted_action(state_at(engine, events, i), events[i])
}

/// One step of a run: the state before event `i + 1` is the state before
/// event `i` advanced by `events[i]`.
pub proof fn lemma_state_at_unfold(engine: SealingEngine, events: Seq<EngineEvent>, i: int)
    requires
        0 <= i < events.len(),
    ensures
        state_at(engine, events, i + 1) == next_state(state_at(engine, events, i), events[i]),
{
    assert(events.take(i + 1).drop_last() =~= events.take(i));
    assert(events.take(i + 1).last() == events[i]);
}

/// A single transition keeps the engine well formed and never changes its
/// mode.
pub proof fn lemma_step_preserves_wf(pre: SealingEngine, event: EngineEvent)
    requires
        pre.wf(),
    ensures
        next_state(pre, event).wf(),
        next_state(pre, event).mode == pre.mode,
{
}

/// Every state reached in a run from a well-formed engine is well formed and
/// keeps the engine's mode.
pub proof fn lemma_wf_at(engine: SealingEngine, events: Seq<EngineEvent>, i: int)
    requires
        engine.wf(),
        0 <= i <= events.len(),
    ensures
        state_at(engine, events, i).wf(),
        state_at(engine, events, i).mode == engine.mode,
    decreases i,
{
    if i > 0 {
        lemma_wf_at(engine, events, i - 1);
        lemma_state_at_unfold(engine, events, i - 1);
        lemma_step_preserves_wf(state_at(engine, events, i - 1), events[i - 1]);
    }
}

/// A proposal is only ever started from `Idle`: the first half of the
/// at-most-one-in-flight guarantee.
pub proof fn lemma_propose_requires_idle(pre: SealingEngine, event: EngineEvent)
    ensures
        emitted_action(pre, event) is StartProposal ==> pre.state is Idle,
{
}

/// An import is only ever submitted while a proposal has just completed.
pub proof fn lemma_import_requires_proposing(pre: SealingEngine, event: EngineEvent)
    ensures
        emitted_action(pre, event) is SubmitImport ==> pre.state is Proposing,
{
}

/// In manual mode, a run cannot pass from an in-flight attempt back to
/// `Idle` without delivering an outcome on the way.
proof fn lemma_active_until_deliver(
    engine: SealingEngine,
    events: Seq<EngineEvent>,
    a: int,
    b: int,
)
    requires
        engine.wf(),
        engine.mode is Manual,
        0 <= a <= b <= events.len(),
        state_at(engine, events, a).state is Proposing || state_at(engine, events, a).state is Importing,
        state_at(engine, events, b).state is Idle,
    ensures
        exists|k: int| a <= k < b && action_at(engine, events, k) is Deliver,
    decreases b - a,
{
    assert(a < b);
    lemma_wf_at(engine, events, a);
    lemma_state_at_unfold(engine, events, a);
    let post = state_at(engine, events, a + 1);
    if post.state is Proposing || post.state is Importing {
        lemma_active_until_deliver(engine, events, a + 1, b);
        let k = choose|k: int| a + 1 <= k < b && action_at(engine, events, k) is Deliver;
        assert(a <= k < b && action_at(engine, events, k) is Deliver);
    } else {
        assert(action_at(engine, events, a) is Deliver);
    }
}

/// Law (at most one in flight; FIFO reporting): in manual mode, between any
/// two proposal starts the engine delivers an outcome. Hence no two sealing
/// attempts overlap, and the outcome of the command that triggered the
/// earlier proposal is reported before the next proposal begins.
pub proof fn lemma_outcome_delivered_between_proposals(
    engine: SealingEngine,
    events: Seq<EngineEvent>,
    i: int,
    j: int,
)
    requires
        engine.wf(),
        engine.mode is Manual,
        0 <= i < j < events.len(),
        action_at(engine, events, i) is StartProposal,
        action_at(engine, events, j) is StartProposal,
    ensures
        exists|k: int| i < k < j && action_at(engine, events, k) is Deliver,
{
    lemma_wf_at(engine, events, i);
    lemma_wf_at(engine, events, j);
    lemma_propose_requires_idle(state_at(engine, events, i), events[i]);
    lemma_propose_requires_idle(state_at(engine, events, j), events[j]);
    lemma_state_at_unfold(engine, events, i);
    assert(state_at(engine, events, i + 1).state is Proposing);
    lemma_active_until_deliver(engine, events, i + 1, j);
    let k = choose|k: int| i + 1 <= k < j && action_at(engine, events, k) is Deliver;
    assert(i < k < j && action_at(engine, events, k) is Deliver);
}

/// `Shutdown` is terminal: once reached, every later state of the run is
/// `Shutdown` as well.
pub proof fn lemma_shutdown_is_terminal(
    engine: SealingEngine,
    events: Seq<EngineEvent>,
    i: int,
    j: int,
)
    requires
        engine.wf(),
        0 <= i <= j <= events.len(),
        state_at(engine, events, i).state is Shutdown,
    ensures
        state_at(engine, events, j).state is Shutdown,
    decreases j - i,
{
    if i < j {
        lemma_state_at_unfold(engine, events, i);
        lemma_shutdown_is_terminal(engine, events, i + 1, j);
    }
}

/// Law (fatal escalation): once the engine has shut down, no proposal or
/// import is ever started again, and every command that still reaches it is
/// answered with `EngineShutdown`.
pub proof fn lemma_fatal_escalation(
    engine: SealingEngine,
    events: Seq<EngineEvent>,
    i: int,
    k: int,
)
    requires
        engine.wf(),
        0 <= i <= k < events.len(),
        state_at(engine, events, i).state is Shutdown,
    ensures
        !(action_at(engine, events, k) is StartProposal),
        !(action_at(engine, events, k) is SubmitImport),
        events[k] matches EngineEvent::Command { command } ==> action_at(engine, events, k)
            == (EngineAction::Deliver {
                ticket: Some(command.ticket),
                outcome: SealOutcome::Failed { error: SealError::EngineShutdown },
            }),
{
    lemma_shutdown_is_terminal(engine, events, i, k);
}

} // verus!
