//! The sealing engine: a state machine driving one propose/import cycle at a
//! time.
//!
//! The engine runs on one dedicated background task and is the only writer of
//! chain state. Its surroundings hand it events — a dequeued command, a pool
//! notification, the result of a proposal or an import — and perform the
//! actions it emits in return: start a proposal, submit the candidate block
//! for import, deliver an outcome, or stop. Because the engine is a single
//! state variable stepped serially, at most one sealing attempt is ever in
//! flight.

use vstd::prelude::*;

use crate::command::{InherentOverride, SealCommand};
use crate::errors::{SealError, SealOutcome};

verus! {

/// Which trigger source the engine listens to, fixed at construction.
#[derive(Debug, Clone, Copy, PartialEq, Eq, Structural)]
pub enum EngineMode {
    /// Author a block whenever the transaction pool reports a pending
    /// transaction; empty blocks are never produced.
    Instant,
    /// Author a block only on an explicit sealing command; an explicitly
    /// requested block is produced even when it is empty.
    Manual,
}

/// Where the engine stands in its cycle.
#[derive(Debug, Clone, Copy, PartialEq, Eq, Structural)]
pub enum EngineState {
    /// Waiting for a trigger.
    Idle,
    /// A proposal is outstanding with the proposer.
    Proposing,
    /// A candidate block is outstanding with the import queue.
    Importing,
    /// The outcome of the attempt is being delivered.
    Reporting,
    /// Terminal: the engine consumes no further triggers.
    Shutdown,
}

/// Everything the engine can observe from its surroundings.
#[derive(Debug, Clone, PartialEq, Eq)]
pub enum EngineEvent {
    /// Manual mode: the next command was dequeued from the command channel.
    Command { command: SealCommand },
    /// Instant mode: the transaction pool reported at least one pending
    /// transaction.
    PoolNonEmpty,
    /// The trigger source ended: every producer dropped its handle.
    ChannelClosed,
    /// The proposer finished, yielding a candidate with this many
    /// transactions and this many mandatory inherents.
    ProposalReady { transactions: usize, mandatory_inherents: usize },
    /// The proposer exceeded its deadline.
    ProposalTimedOut,
    /// The import queue accepted the candidate block.
    BlockImported { block_id: Vec<u8> },
    /// The import queue declined the candidate block.
    ImportRejected { reason: String },
    /// The underlying chain client failed unrecoverably.
    ClientFailure,
    /// The outcome of the current attempt has been delivered (or logged).
    OutcomeDelivered,
}

/// What the engine asks its surroundings to do next.
#[derive(Debug, Clone, PartialEq, Eq)]
pub enum EngineAction {
    /// Invoke the proposer against the current best chain head, capping the
    /// transactions taken from the pool and overriding inherent data as the
    /// triggering command requested.
    StartProposal {
        max_transactions: Option<usize>,
        inherent_overrides: Option<Vec<InherentOverride>>,
    },
    /// Submit the pending candidate block to the import queue.
    SubmitImport,
    /// Deliver an outcome: on the one-shot response channel named by the
    /// ticket, or to the log when there is no recipient. Delivery is
    /// best-effort; an abandoned ticket is not an engine error.
    Deliver { ticket: Option<u64>, outcome: SealOutcome },
    /// Nothing to do; keep waiting for the next event.
    Continue,
    /// The engine has terminated; stop feeding it events.
    Halt,
}

/// The sealing engine's whole state: its mode, where it stands in the cycle,
/// and the response ticket of the command currently being served (manual
/// mode only).
pub struct SealingEngine {
    pub mode: EngineMode,
    pub state: EngineState,
    pub current_ticket: Option<u64>,
}

/// The engine's state after consuming `event` in state `pre`.
///
/// Events that cannot occur in the current state (a stray import result
/// while idle, a pool notification in manual mode) leave the engine
/// unchanged.
pub open spec fn next_state(pre: SealingEngine, event: EngineEvent) -> SealingEngine {
    match pre.state {
        EngineState::Idle => match event {
            EngineEvent::Command { command } => if pre.mode is Manual {
                SealingEngine {
                    mode: pre.mode,
                    state: EngineState::Proposing,
                    current_ticket: Some(command.ticket),
                }
            } else {
                pre
            },
            EngineEvent::PoolNonEmpty => if pre.mode is Instant {
                SealingEngine {
                    mode: pre.mode,
                    state: EngineState::Proposing,
                    current_ticket: None,
                }
            } else {
                pre
            },
            EngineEvent::ChannelClosed => SealingEngine {
                mode: pre.mode,
                state: EngineState::Shutdown,
                current_ticket: None,
            },
            EngineEvent::ClientFailure => SealingEngine {
                mode: pre.mode,
                state: EngineState::Shutdown,
                current_ticket: None,
            },
            _ => pre,
        },
        EngineState::Proposing => match event {
            EngineEvent::ProposalReady { transactions, mandatory_inherents } => {
                if pre.mode is Instant && transactions == 0 && mandatory_inherents == 0 {
                    SealingEngine {
                        mode: pre.mode,
                        state: EngineState::Idle,
                        current_ticket: None,
                    }
                } else {
                    SealingEngine {
                        mode: pre.mode,
                        state: EngineState::Importing,
                        current_ticket: pre.current_ticket,
                    }
                }
            },
            EngineEvent::ProposalTimedOut => SealingEngine {
                mode: pre.mode,
                state: EngineState::Reporting,
                current_ticket: pre.current_ticket,
            },
            EngineEvent::ClientFailure => SealingEngine {
                mode: pre.mode,
                state: EngineState::Shutdown,
                current_ticket: None,
            },
            _ => pre,
        },
        EngineState::Importing => match event {
            EngineEvent::BlockImported { .. } => SealingEngine {
                mode: pre.mode,
                state: EngineState::Reporting,
                current_ticket: pre.current_ticket,
            },
            EngineEvent::ImportRejected { .. } => SealingEngine {
                mode: pre.mode,
                state: EngineState::Reporting,
                current_ticket: pre.current_ticket,
            },
            EngineEvent::ClientFailure => SealingEngine {
                mode: pre.mode,
                state: EngineState::Shutdown,
                current_ticket: None,
            },
            _ => pre,
        },
        EngineState::Reporting => match event {
            EngineEvent::OutcomeDelivered => SealingEngine {
                mode: pre.mode,
                state: EngineState::Idle,
                current_ticket: None,
            },
            EngineEvent::ClientFailure => SealingEngine {
                mode: pre.mode,
                state: EngineState::Shutdown,
                current_ticket: None,
            },
            _ => pre,
        },
        EngineState::Shutdown => SealingEngine {
            mode: pre.mode,
            state: EngineState::Shutdown,
            current_ticket: None,
        },
    }
}

/// The action the engine emits when consuming `event` in state `pre`.
pub open spec fn emitted_action(pre: SealingEngine, event: EngineEvent) -> EngineAction {
    match pre.state {
        EngineState::Idle => match event {
            EngineEvent::Command { command } => if pre.mode is Manual {
                EngineAction::StartProposal {
                    max_transactions: command.max_transactions,
                    inherent_overrides: command.inherent_overrides,
                }
            } else {
                EngineAction::Continue
            },
            EngineEvent::PoolNonEmpty => if pre.mode is Instant {
                EngineAction::StartProposal { max_transactions: None, inherent_overrides: None }
            } else {
                EngineAction::Continue
            },
            EngineEvent::ChannelClosed => EngineAction::Halt,
            EngineEvent::ClientFailure => EngineAction::Halt,
            _ => EngineAction::Continue,
        },
        EngineState::Proposing => match event {
            EngineEvent::ProposalReady { transactions, mandatory_inherents } => {
                if pre.mode is Instant && transactions == 0 && mandatory_inherents == 0 {
                    EngineAction::Continue
                } else {
                    EngineAction::SubmitImport
                }
            },
            EngineEvent::ProposalTimedOut => EngineAction::Deliver {
                ticket: pre.current_ticket,
                outcome: SealOutcome::Failed { error: SealError::ProposalTimeout },
            },
            EngineEvent::ClientFailure => EngineAction::Deliver {
                ticket: pre.current_ticket,
                outcome: SealOutcome::Failed { error: SealError::ClientFatal },
            },
            _ => EngineAction::Continue,
        },
        EngineState::Importing => match event {
            EngineEvent::BlockImported { block_id } => EngineAction::Deliver {
                ticket: pre.current_ticket,
                outcome: SealOutcome::Sealed { block_id },
            },
            EngineEvent::ImportRejected { reason } => EngineAction::Deliver {
                ticket: pre.current_ticket,
                outcome: SealOutcome::Failed { error: SealError::ImportRejected { reason } },
            },
            EngineEvent::ClientFailure => EngineAction::Deliver {
                ticket: pre.current_ticket,
                outcome: SealOutcome::Failed { error: SealError::ClientFatal },
            },
            _ => EngineAction::Continue,
        },
        EngineState::Reporting => match event {
            EngineEvent::ClientFailure => EngineAction::Halt,
            _ => EngineAction::Continue,
        },
        EngineState::Shutdown => match event {
            EngineEvent::Command { command } => EngineAction::Deliver {
                ticket: Some(command.ticket),
                outcome: SealOutcome::Failed { error: SealError::EngineShutdown },
            },
            _ => EngineAction::Continue,
        },
    }
}

impl SealingEngine {
    /// The states in which a sealing attempt is in flight.
    pub open spec fn is_active(self) -> bool {
        self.state is Proposing || self.state is Importing || self.state is Reporting
    }

    /// Well-formedness: a response ticket is held exactly while a manual
    /// attempt is in flight, and never in instant mode.
    pub open spec fn wf(self) -> bool {
        &&& (self.mode is Instant ==> self.current_ticket is None)
        &&& (self.current_ticket is Some ==> self.is_active())
        &&& (self.mode is Manual && self.is_active() ==> self.current_ticket is Some)
    }

    /// A fresh engine in the given mode, waiting for its first trigger.
    pub fn new(mode: EngineMode) -> (engine: SealingEngine)
        ensures
            engine.mode == mode,
            engine.state is Idle,
            engine.current_ticket is None,
            engine.wf(),
    {
        SealingEngine { mode, state: EngineState::Idle, current_ticket: None }
    }

    /// Consume one event and emit the action to perform next.
    ///
    /// The transition taken is exactly [`next_state`] and the action emitted
    /// is exactly [`emitted_action`]; every property of the engine follows
    /// from those two functions.
    pub fn step(&mut self, event: EngineEvent) -> (action: EngineAction)
        requires
            old(self).wf(),
        ensures
            *final(self) == next_state(*old(self), event),
            action == emitted_action(*old(self), event),
            final(self).wf(),
    {
        match self.state {
            EngineState::Idle => match event {
                EngineEvent::Command { command } => {
                    if matches!(self.mode, EngineMode::Manual) {
                        self.state = EngineState::Proposing;
                        self.current_ticket = Some(command.ticket);
                        EngineAction::StartProposal {
                            max_transactions: command.max_transactions,
                            inherent_overrides: command.inherent_overrides,
                        }
                    } else {
                        EngineAction::Continue
                    }
                },
                EngineEvent::PoolNonEmpty => {
                    if matches!(self.mode, EngineMode::Instant) {
                        self.state = EngineState::Proposing;
                        self.current_ticket = None;
                        EngineAction::StartProposal {
                            max_transactions: None,
                            inherent_overrides: None,
                        }
                    } else {
                        EngineAction::Continue
                    }
                },
                EngineEvent::ChannelClosed => {
                    self.state = EngineState::Shutdown;
                    self.current_ticket = None;
                    EngineAction::Halt
                },
                EngineEvent::ClientFailure => {
                    self.state = EngineState::Shutdown;
                    self.current_ticket = None;
                    EngineAction::Halt
                },
                _ => EngineAction::Continue,
            },
            EngineState::Proposing => match event {
                EngineEvent::ProposalReady { transactions, mandatory_inherents } => {
                    if matches!(self.mode, EngineMode::Instant) && transactions == 0
                        && mandatory_inherents == 0 {
                        self.state = EngineState::Idle;
                        self.current_ticket = None;
                        EngineAction::Continue
                    } else {
                        self.state = EngineState::Importing;
                        EngineAction::SubmitImport
                    }
                },
                EngineEvent::ProposalTimedOut => {
                    self.state = EngineState::Reporting;
                    EngineAction::Deliver {
                        ticket: self.current_ticket,
                        outcome: SealOutcome::Failed { error: SealError::ProposalTimeout },
                    }
                },
                EngineEvent::ClientFailure => {
                    let ticket = self.current_ticket;
                    self.state = EngineState::Shutdown;
                    self.current_ticket = None;
                    EngineAction::Deliver {
                        ticket,
                        outcome: SealOutcome::Failed { error: SealError::ClientFatal },
                    }
                },
                _ => EngineAction::Continue,
            },
            EngineState::Importing => match event {
                EngineEvent::BlockImported { block_id } => {
                    self.state = EngineState::Reporting;
                    EngineAction::Deliver {
                        ticket: self.current_ticket,
                        outcome: SealOutcome::Sealed { block_id },
                    }
                },
                EngineEvent::ImportRejected { reason } => {
                    self.state = EngineState::Reporting;
                    EngineAction::Deliver {
                        ticket: self.current_ticket,
                        outcome: SealOutcome::Failed { error: SealError::ImportRejected { reason } },
                    }
                },
                EngineEvent::ClientFailure => {
                    let ticket = self.current_ticket;
                    self.state = EngineState::Shutdown;
                    self.current_ticket = None;
                    EngineAction::Deliver {
                        ticket,
                        outcome: SealOutcome::Failed { error: SealError::ClientFatal },
                    }
                },
                _ => EngineAction::Continue,
            },
            EngineState::Reporting => match event {
                EngineEvent::OutcomeDelivered => {
                    self.state = EngineState::Idle;
                    self.current_ticket = None;
                    EngineAction::Continue
                },
                EngineEvent::ClientFailure => {
                    self.state = EngineState::Shutdown;
                    self.current_ticket = None;
                    EngineAction::Halt
                },
                _ => EngineAction::Continue,
            },
            EngineState::Shutdown => match event {
                EngineEvent::Command { command } => {
                    self.current_ticket = None;
                    EngineAction::Deliver {
                        ticket: Some(command.ticket),
                        outcome: SealOutcome::Failed { error: SealError::EngineShutdown },
                    }
                },
                _ => {
                    self.current_ticket = None;
                    EngineAction::Continue
                },
            },
        }
    }
}

/// Law (empty-block suppression): in instant mode the engine never submits a
/// block for import unless the proposal carried at least one transaction or
/// one mandatory inherent; a proposal that carried neither sends the engine
/// straight back to `Idle`.
pub proof fn lemma_instant_empty_block_suppressed(pre: SealingEngine, event: EngineEvent)
    requires
        pre.mode is Instant,
    ensures
        emitted_action(pre, event) is SubmitImport ==> (event matches EngineEvent::ProposalReady {
            transactions,
            mandatory_inherents,
        } && (transactions > 0 || mandatory_inherents > 0)),
        pre.state is Proposing && event == (EngineEvent::ProposalReady {
            transactions: 0,
            mandatory_inherents: 0,
        }) ==> {
            &&& next_state(pre, event).state is Idle
            &&& emitted_action(pre, event) is Continue
        },
{
}

/// Law (explicit empty block): in manual mode every completed proposal is
/// submitted for import, one with no transactions and no mandatory inherents
/// included — the block was explicitly requested.
pub proof fn lemma_manual_empty_block_imported(
    pre: SealingEngine,
    transactions: usize,
    mandatory_inherents: usize,
)
    requires
        pre.mode is Manual,
        pre.state is Proposing,
    ensures
        emitted_action(pre, (EngineEvent::ProposalReady { transactions, mandatory_inherents }))
            is SubmitImport,
        next_state(pre, (EngineEvent::ProposalReady { transactions, mandatory_inherents })).state
            is Importing,
{
}

/// The name under which the authorship task registers itself with the host,
/// for operational identification.
pub fn task_name(mode: EngineMode) -> (name: &'static str)
    ensures
        mode is Instant ==> name@ == "instant-seal"@,
        mode is Manual ==> name@ == "manual-seal"@,
{
    match mode {
        EngineMode::Instant => "instant-seal",
        EngineMode::Manual => "manual-seal",
    }
}

} // verus!
