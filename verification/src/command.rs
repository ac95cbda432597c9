//! Sealing commands as they travel from the command surface to the engine.

use vstd::prelude::*;

verus! {

/// One inherent-data override supplied with a manual sealing command: the
/// raw payload to use for the given inherent identifier in place of (or in
/// addition to) what the registered providers would supply.
#[derive(Debug, Clone, PartialEq, Eq)]
pub struct InherentOverride {
    pub identifier: Vec<u8>,
    pub payload: Vec<u8>,
}

/// A request to produce exactly one block.
///
/// Created by the command surface, carried through the command channel, and
/// consumed exactly once by the sealing engine. `ticket` identifies the
/// submitter's one-shot response channel; the outcome of the attempt is
/// delivered on it best-effort (a submitter that abandoned its ticket is not
/// an engine error).
#[derive(Debug, Clone, PartialEq, Eq)]
pub struct SealCommand {
    /// Cap on the number of pool transactions to include; unbounded if absent.
    pub max_transactions: Option<usize>,
    /// Inherent-data overrides for this one attempt, if any.
    pub inherent_overrides: Option<Vec<InherentOverride>>,
    /// Handle of the submitter's one-shot response channel.
    pub ticket: u64,
}

} // verus!
