//! Block-authorship orchestrator for a single-authority development chain.
//!
//! A node in this deployment produces blocks in one of two modes, fixed at
//! startup: in instant mode a block is authored whenever the transaction pool
//! reports a pending transaction, and in manual mode a block is authored only
//! when an explicit sealing command arrives over the node's command surface.
//! The crate holds the verified core of that orchestrator: the bounded FIFO
//! command channel with its backpressure policy, the sealing engine state
//! machine that drives each propose/import cycle, the failure taxonomy, and
//! the command-submission surface. The external collaborators (transaction
//! pool, proposer, import queue) are represented at their interface boundary
//! by the events the engine consumes and the actions it emits.

pub mod channel;
pub mod command;
pub mod engine;
pub mod errors;
pub mod rpc;
pub mod session;
pub mod traces;
