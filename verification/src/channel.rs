//! The bounded FIFO command channel between the command surface and the
//! sealing engine.
//!
//! Any number of producers enqueue [`SealCommand`]s; exactly one consumer
//! (the engine) drains them strictly in submission order. A producer that
//! finds the backlog full fails at once with `ChannelSaturated` instead of
//! blocking: a deliberate backpressure policy that keeps stale sealing
//! requests from piling up behind a busy engine. Once the channel is closed
//! the consumer drains what is left and then receives a terminal signal,
//! while every further submission fails with `EngineShutdown`.

use vstd::prelude::*;

use crate::command::SealCommand;
use crate::errors::SealError;

verus! {

/// Default backlog limit used when the node configuration does not choose one.
pub const DEFAULT_CAPACITY: usize = 1000;

/// What one receive attempt by the consumer yielded.
#[derive(Debug, Clone, PartialEq, Eq)]
pub enum RecvOutcome {
    /// The oldest queued command.
    Received { command: SealCommand },
    /// Nothing queued right now; the channel is still open.
    Empty,
    /// Nothing queued and the channel is closed: the terminal signal, which
    /// the engine treats as a request to shut down.
    Closed,
}

/// Bounded multi-producer single-consumer FIFO queue of sealing commands.
///
/// The view of a channel is the sequence of queued commands, oldest first.
pub struct CommandChannel {
    queue: Vec<SealCommand>,
    capacity: usize,
    closed: bool,
}

impl View for CommandChannel {
    type V = Seq<SealCommand>;

    closed spec fn view(&self) -> Seq<SealCommand> {
        self.queue@
    }
}

impl CommandChannel {
    /// The configured backlog limit.
    pub closed spec fn cap(&self) -> int {
        self.capacity as int
    }

    /// Whether the channel has been closed.
    pub closed spec fn is_closed(&self) -> bool {
        self.closed
    }

    /// A channel never holds more commands than its backlog limit allows.
    pub open spec fn wf(&self) -> bool {
        self@.len() <= self.cap()
    }

    /// Opens a channel with the given backlog limit.
    pub fn with_capacity(capacity: usize) -> (chan: CommandChannel)
        requires
            capacity >= 1,
        ensures
            chan@.len() == 0,
            chan.cap() == capacity,
            !chan.is_closed(),
            chan.wf(),
    {
        CommandChannel { queue: Vec::new(), capacity, closed: false }
    }

    /// Opens a channel with the default backlog limit.
    pub fn with_default_capacity() -> (chan: CommandChannel)
        ensures
            chan@.len() == 0,
            chan.cap() == DEFAULT_CAPACITY as int,
            !chan.is_closed(),
            chan.wf(),
    {
        CommandChannel { queue: Vec::new(), capacity: DEFAULT_CAPACITY, closed: false }
    }

    /// Producer side: enqueue a command, or fail at once.
    ///
    /// Fails with `EngineShutdown` when the channel is closed, with
    /// `ChannelSaturated` when the backlog is full; otherwise the command is
    /// appended behind every earlier submission.
    pub fn try_send(&mut self, command: SealCommand) -> (outcome: Result<(), SealError>)
        requires
            old(self).wf(),
        ensures
            final(self).cap() == old(self).cap(),
            final(self).is_closed() == old(self).is_closed(),
            final(self).wf(),
            old(self).is_closed() ==> {
                &&& outcome == Err::<(), SealError>(SealError::EngineShutdown)
                &&& final(self)@ == old(self)@
            },
            !old(self).is_closed() && old(self)@.len() == old(self).cap() ==> {
                &&& outcome == Err::<(), SealError>(SealError::ChannelSaturated)
                &&& final(self)@ == old(self)@
            },
            !old(self).is_closed() && old(self)@.len() < old(self).cap() ==> {
                &&& outcome == Ok::<(), SealError>(())
                &&& final(self)@ == old(self)@.push(command)
            },
    {
        if self.closed {
            Err(SealError::EngineShutdown)
        } else if self.queue.len() >= self.capacity {
            Err(SealError::ChannelSaturated)
        } else {
            self.queue.push(command);
            Ok(())
        }
    }

    /// Consumer side: take the oldest queued command if there is one;
    /// otherwise report whether the channel is still open.
    pub fn recv(&mut self) -> (outcome: RecvOutcome)
        requires
            old(self).wf(),
        ensures
            final(self).cap() == old(self).cap(),
            final(self).is_closed() == old(self).is_closed(),
            final(self).wf(),
            old(self)@.len() > 0 ==> {
                &&& outcome == (RecvOutcome::Received { command: old(self)@[0] })
                &&& final(self)@ == old(self)@.drop_first()
            },
            old(self)@.len() == 0 ==> final(self)@ == old(self)@,
            old(self)@.len() == 0 && old(self).is_closed() ==> outcome == RecvOutcome::Closed,
            old(self)@.len() == 0 && !old(self).is_closed() ==> outcome == RecvOutcome::Empty,
    {
        if self.queue.len() > 0 {
            let command = self.queue.remove(0);
            proof {
                assert(self.queue@ =~= old(self)@.drop_first());
            }
            RecvOutcome::Received { command }
        } else if self.closed {
            RecvOutcome::Closed
        } else {
            RecvOutcome::Empty
        }
    }

    /// Closes the channel: commands already queued stay receivable, further
    /// submissions fail with `EngineShutdown`, and once the queue is drained
    /// the consumer sees the terminal `Closed` signal.
    pub fn close(&mut self)
        requires
            old(self).wf(),
        ensures
            final(self)@ == old(self)@,
            final(self).cap() == old(self).cap(),
            final(self).is_closed(),
            final(self).wf(),
    {
        self.closed = true;
    }

    /// Number of commands waiting right now.
    pub fn len(&self) -> (n: usize)
        ensures
            n == self@.len(),
    {
        self.queue.len()
    }

    /// The configured backlog limit.
    pub fn capacity(&self) -> (n: usize)
        ensures
            n == self.cap(),
    {
        self.capacity
    }

    /// Whether the channel has been closed.
    pub fn closed(&self) -> (c: bool)
        ensures
            c == self.is_closed(),
    {
        self.closed
    }
}

} // verus!
