//! A whole manual-mode sealing session, command by command.
//!
//! The proposer and the import queue are external collaborators; a session is
//! verified for every behaviour they may exhibit by taking that behaviour as
//! an argument: one [`AttemptScript`] per command says how its proposal and
//! its import went. [`run_manual_session`] then drives the engine through the
//! drained command backlog strictly in order and returns one outcome per
//! command — exactly as many outcomes as commands, each on its command's
//! ticket, each determined by [`session_outcome`]: the scripted result of its
//! own attempt until a fatal client failure, and `EngineShutdown` for every
//! command after one.

use vstd::pervasive::unreached;
use vstd::prelude::*;

use crate::command::SealCommand;
use crate::engine::{EngineAction, EngineEvent, EngineMode, EngineState, SealingEngine};
use crate::errors::{SealError, SealOutcome};

verus! {

/// How the proposer answered one attempt.
#[derive(Debug, Clone, PartialEq, Eq)]
pub enum ProposalResult {
    /// A candidate was produced, with this many transactions and this many
    /// mandatory inherents.
    Ready { transactions: usize, mandatory_inherents: usize },
    /// The proposer exceeded its deadline.
    TimedOut,
}

/// How the import queue answered one attempt.
#[derive(Debug, Clone, PartialEq, Eq)]
pub enum ImportResult {
    /// The candidate was applied; this is the new block's identifier.
    Imported { block_id: Vec<u8> },
    /// The candidate was declined for this reason.
    Rejected { reason: String },
    /// The chain client failed unrecoverably during the import.
    Fatal,
}

/// The behaviour of the external collaborators during one sealing attempt.
/// The import half is only reached when the proposal completed.
#[derive(Debug, Clone, PartialEq, Eq)]
pub struct AttemptScript {
    pub proposal: ProposalResult,
    pub import: ImportResult,
}

/// The outcome one attempt earns on its own, before any earlier fatal
/// failure is taken into account.
pub open spec fn cycle_outcome(attempt: AttemptScript) -> SealOutcome {
    match attempt.proposal {
        ProposalResult::TimedOut => SealOutcome::Failed { error: SealError::ProposalTimeout },
        ProposalResult::Ready { .. } => match attempt.import {
            ImportResult::Imported { block_id } => SealOutcome::Sealed { block_id },
            ImportResult::Rejected { reason } => SealOutcome::Failed {
                error: SealError::ImportRejected { reason },
            },
            ImportResult::Fatal => SealOutcome::Failed { error: SealError::ClientFatal },
        },
    }
}

/// Whether this attempt ends in an unrecoverable client failure.
pub open spec fn attempt_is_fatal(attempt: AttemptScript) -> bool {
    attempt.proposal is Ready && attempt.import is Fatal
}

/// Whether some attempt before position `i` ended fatally.
pub open spec fn fatal_before(script: Seq<AttemptScript>, i: int) -> bool {
    exists|j: int| 0 <= j < i && attempt_is_fatal(script[j])
}

/// The outcome the session owes the command at position `i`: its own
/// attempt's result, unless an earlier attempt killed the engine.
pub open spec fn session_outcome(script: Seq<AttemptScript>, i: int) -> SealOutcome {
    if fatal_before(script, i) {
        SealOutcome::Failed { error: SealError::EngineShutdown }
    } else {
        cycle_outcome(script[i])
    }
}

/// Drive one command through the engine to completion, feeding the engine
/// the scripted collaborator results and returning the outcome the engine
/// delivered for it.
fn run_cycle(engine: &mut SealingEngine, command: SealCommand, attempt: AttemptScript) -> (outcome:
    SealOutcome)
    requires
        old(engine).wf(),
        old(engine).mode is Manual,
        old(engine).state is Idle || old(engine).state is Shutdown,
    ensures
        final(engine).wf(),
        final(engine).mode is Manual,
        final(engine).state is Idle || final(engine).state is Shutdown,
        old(engine).state is Shutdown ==> {
            &&& outcome == (SealOutcome::Failed { error: SealError::EngineShutdown })
            &&& final(engine).state is Shutdown
        },
        old(engine).state is Idle ==> {
            &&& outcome == cycle_outcome(attempt)
            &&& (final(engine).state is Shutdown <==> attempt_is_fatal(attempt))
        },
{
    let AttemptScript { proposal, import } = attempt;
    if matches!(engine.state, EngineState::Shutdown) {
        let act = engine.step(EngineEvent::Command { command });
        match act {
            EngineAction::Deliver { ticket: _, outcome } => outcome,
            _ => unreached(),
        }
    } else {
        let _ = engine.step(EngineEvent::Command { command });
        match proposal {
            ProposalResult::TimedOut => {
                let act = engine.step(EngineEvent::ProposalTimedOut);
                let out = match act {
                    EngineAction::Deliver { ticket: _, outcome } => outcome,
                    _ => unreached(),
                };
                let _ = engine.step(EngineEvent::OutcomeDelivered);
                out
            },
            ProposalResult::Ready { transactions, mandatory_inherents } => {
                let _ = engine.step(
                    EngineEvent::ProposalReady { transactions, mandatory_inherents },
                );
                match import {
                    ImportResult::Imported { block_id } => {
                        let act = engine.step(EngineEvent::BlockImported { block_id });
                        let out = match act {
                            EngineAction::Deliver { ticket: _, outcome } => outcome,
                            _ => unreached(),
                        };
                        let _ = engine.step(EngineEvent::OutcomeDelivered);
                        out
                    },
                    ImportResult::Rejected { reason } => {
                        let act = engine.step(EngineEvent::ImportRejected { reason });
                        let out = match act {
                            EngineAction::Deliver { ticket: _, outcome } => outcome,
                            _ => unreached(),
                        };
                        let _ = engine.step(EngineEvent::OutcomeDelivered);
                        out
                    },
                    ImportResult::Fatal => {
                        let act = engine.step(EngineEvent::ClientFailure);
                        match act {
                            EngineAction::Deliver { ticket: _, outcome } => outcome,
                            _ => unreached(),
                        }
                    },
                }
            },
        }
    }
}

/// Run a fresh manual-mode engine over a drained command backlog.
///
/// Commands are served strictly in submission order, one propose/import
/// cycle each, never two at once; the result is exactly one outcome per
/// command, on that command's ticket. Once a scripted attempt ends in a
/// fatal client failure, its own command resolves with `ClientFatal` and
/// every later command resolves with `EngineShutdown` without another
/// attempt being started.
pub fn run_manual_session(commands: Vec<SealCommand>, script: Vec<AttemptScript>) -> (outcomes:
    Vec<(u64, SealOutcome)>)
    requires
        commands@.len() == script@.len(),
    ensures
        outcomes@.len() == commands@.len(),
        forall|i: int| 0 <= i < outcomes@.len() ==> outcomes@[i].0 == commands@[i].ticket,
        forall|i: int| 0 <= i < outcomes@.len() ==> outcomes@[i].1 == session_outcome(script@, i),
{
    let ghost all_commands = commands@;
    let ghost all_script = script@;
    let mut commands = commands;
    let mut script = script;
    let mut engine = SealingEngine::new(EngineMode::Manual);
    let mut outcomes: Vec<(u64, SealOutcome)> = Vec::new();
    while script.len() > 0
        invariant
            all_commands.len() == all_script.len(),
            commands@.len() == script@.len(),
            outcomes@.len() + script@.len() == all_script.len(),
            commands@ == all_commands.subrange(
                outcomes@.len() as int,
                all_commands.len() as int,
            ),
            script@ == all_script.subrange(outcomes@.len() as int, all_script.len() as int),
            engine.wf(),
            engine.mode is Manual,
            engine.state is Idle || engine.state is Shutdown,
            engine.state is Shutdown <==> fatal_before(all_script, outcomes@.len() as int),
            forall|i: int| 0 <= i < outcomes@.len() ==> outcomes@[i].0 == all_commands[i].ticket,
            forall|i: int|
                0 <= i < outcomes@.len() ==> outcomes@[i].1 == session_outcome(all_script, i),
        decreases script@.len(),
    {
        let ghost done = outcomes@.len() as int;
        let command = commands.remove(0);
        let attempt = script.remove(0);
        proof {
            assert(command == all_commands[done]);
            assert(attempt == all_script[done]);
            assert(commands@ =~= all_commands.subrange(done + 1, all_commands.len() as int));
            assert(script@ =~= all_script.subrange(done + 1, all_script.len() as int));
        }
        let ticket = command.ticket;
        let outcome = run_cycle(&mut engine, command, attempt);
        outcomes.push((ticket, outcome));
        proof {
            if attempt_is_fatal(all_script[done]) {
                assert(0 <= done < done + 1 && attempt_is_fatal(all_script[done]));
                assert(fatal_before(all_script, done + 1));
            }
            if fatal_before(all_script, done) {
                let j = choose|j: int| 0 <= j < done && attempt_is_fatal(all_script[j]);
                assert(0 <= j < done + 1 && attempt_is_fatal(all_script[j]));
                assert(fatal_before(all_script, done + 1));
            }
            if fatal_before(all_script, done + 1) && !fatal_before(all_script, done)
                && !attempt_is_fatal(all_script[done]) {
                let j = choose|j: int| 0 <= j < done + 1 && attempt_is_fatal(all_script[j]);
                assert(0 <= j < done && attempt_is_fatal(all_script[j]));
                assert(false);
            }
        }
    }
    outcomes
}

} // verus!
