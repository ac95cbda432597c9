//! Failure taxonomy of the sealing engine.

use vstd::prelude::*;

verus! {

/// Every way a sealing request or a sealing attempt can fail.
///
/// `ChannelSaturated` and `EngineShutdown` are surfaced synchronously to the
/// submitter when a command cannot be delivered; the others are delivered as
/// the outcome of the attempt they belong to. Only `ClientFatal` is
/// unrecoverable: it terminates the engine, after which every queued or newly
/// submitted command resolves with `EngineShutdown`.
#[derive(Debug, Clone, PartialEq, Eq)]
pub enum SealError {
    /// The command backlog was full; the command was rejected at once rather
    /// than queued without bound.
    ChannelSaturated,
    /// The proposer exceeded its deadline; the engine stays usable.
    ProposalTimeout,
    /// The importer declined the candidate block, with its reason; the engine
    /// stays usable.
    ImportRejected { reason: String },
    /// The underlying chain client failed; the engine shuts down.
    ClientFatal,
    /// The engine had already terminated when the command reached it.
    EngineShutdown,
}

/// Result of one sealing attempt: the identifier of the newly imported block,
/// or a structured failure. Delivered exactly once per manual command on that
/// command's one-shot response channel; in instant mode it is only logged.
#[derive(Debug, Clone, PartialEq, Eq)]
pub enum SealOutcome {
    Sealed { block_id: Vec<u8> },
    Failed { error: SealError },
}

} // verus!
