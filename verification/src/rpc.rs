//! The command surface: how a manual sealing request enters the system.
//!
//! The wire transport is out of scope; what is verified here is the one
//! logical operation it must expose — build a [`SealCommand`] from the
//! caller's arguments and enqueue it, reporting at once when it cannot be
//! delivered. The caller then awaits the outcome on the one-shot response
//! channel named by its ticket.

use vstd::prelude::*;

use crate::channel::CommandChannel;
use crate::command::{InherentOverride, SealCommand};
use crate::errors::SealError;

verus! {

/// Submit one sealing request into the command channel.
///
/// On success the command — carrying exactly the caller's transaction cap,
/// inherent overrides and response ticket — stands behind every earlier
/// submission. A full backlog yields `ChannelSaturated`, a closed channel
/// `EngineShutdown`, and in either case nothing is enqueued.
pub fn submit_seal_request(
    chan: &mut CommandChannel,
    max_transactions: Option<usize>,
    inherent_overrides: Option<Vec<InherentOverride>>,
    ticket: u64,
) -> (outcome: Result<(), SealError>)
    requires
        old(chan).wf(),
    ensures
        final(chan).cap() == old(chan).cap(),
        final(chan).is_closed() == old(chan).is_closed(),
        final(chan).wf(),
        old(chan).is_closed() ==> {
            &&& outcome == Err::<(), SealError>(SealError::EngineShutdown)
            &&& final(chan)@ == old(chan)@
        },
        !old(chan).is_closed() && old(chan)@.len() == old(chan).cap() ==> {
            &&& outcome == Err::<(), SealError>(SealError::ChannelSaturated)
            &&& final(chan)@ == old(chan)@
        },
        !old(chan).is_closed() && old(chan)@.len() < old(chan).cap() ==> {
            &&& outcome == Ok::<(), SealError>(())
            &&& final(chan)@ == old(chan)@.push(
                SealCommand { max_transactions, inherent_overrides, ticket },
            )
        },
{
    chan.try_send(SealCommand { max_transactions, inherent_overrides, ticket })
}

} // verus!
