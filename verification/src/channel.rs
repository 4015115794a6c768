//! The hand-off between the capture worker and the consumer: one slot for the
//! newest batch and one flag for the shutdown request.
//!
//! The slot has depth one. The producer offers a batch with
//! [`OrbbecRx::publish`] and gets it back when the previous batch is still
//! waiting; the consumer drains the slot with [`OrbbecRx::try_get_data`],
//! which never waits. A value of this type is shared between the two sides
//! behind a lock, so each operation is atomic with respect to the others.

use vstd::prelude::*;
use crate::point::PointRecord;

verus! {

/// What a channel holds, as mathematical values.
pub ghost struct ChannelModel {
    /// The batch that waits for the consumer, if any.
    pub pending: Option<Seq<PointRecord>>,
    /// Whether the owner has asked the worker to stop.
    pub shutdown: bool,
}

impl ChannelModel {
    /// A channel on which nothing was published and no shutdown was asked.
    pub open spec fn empty() -> ChannelModel {
        ChannelModel { pending: None, shutdown: false }
    }

    /// Whether the slot is free, so that a published batch is accepted.
    pub open spec fn accepts(self) -> bool {
        self.pending is None
    }

    /// The channel after the producer offers `batch`: the batch fills a free
    /// slot, and an occupied slot keeps the batch it has.
    pub open spec fn publish(self, batch: Seq<PointRecord>) -> ChannelModel {
        if self.accepts() {
            ChannelModel { pending: Some(batch), ..self }
        } else {
            self
        }
    }

    /// What the consumer receives when it drains the slot.
    pub open spec fn taken(self) -> Option<Seq<PointRecord>> {
        self.pending
    }

    /// The channel after the consumer drained the slot.
    pub open spec fn drained(self) -> ChannelModel {
        ChannelModel { pending: None, ..self }
    }

    /// The channel after the owner asked for shutdown.
    pub open spec fn signalled(self) -> ChannelModel {
        ChannelModel { shutdown: true, ..self }
    }
}

/// The consumer's end of the capture pipeline: the frame slot and the
/// shutdown flag.
pub struct OrbbecRx {
    slot: Option<Vec<PointRecord>>,
    shutdown: bool,
}

impl View for OrbbecRx {
    type V = ChannelModel;

    closed spec fn view(&self) -> ChannelModel {
        ChannelModel {
            pending: match self.slot {
                Some(batch) => Some(batch@),
                None => None,
            },
            shutdown: self.shutdown,
        }
    }
}

impl OrbbecRx {
    /// Creates a channel with a free slot and no shutdown request.
    pub fn new() -> (rx: OrbbecRx)
        ensures
            rx@ == ChannelModel::empty(),
    {
        OrbbecRx { slot: None, shutdown: false }
    }

    /// Offers a batch to the consumer.
    ///
    /// A free slot takes the batch and the call returns `Ok`. While the
    /// previous batch has not been drained the channel is left as it was and
    /// the batch comes back in `Err`, for the producer to offer again.
    pub fn publish(&mut self, batch: Vec<PointRecord>) -> (outcome: Result<(), Vec<PointRecord>>)
        ensures
            final(self)@ == old(self)@.publish(batch@),
            old(self)@.accepts() ==> outcome is Ok,
            !old(self)@.accepts() ==> outcome == Err::<(), Vec<PointRecord>>(batch),
    {
        if self.slot.is_none() {
            self.slot = Some(batch);
            Ok(())
        } else {
            Err(batch)
        }
    }

    /// Whether a batch waits in the slot.
    pub fn has_data(&self) -> (waiting: bool)
        ensures
            waiting == !self@.accepts(),
    {
        self.slot.is_some()
    }

    /// Drains the slot without waiting: the pending batch if there is one,
    /// `None` otherwise. The slot is free afterwards.
    pub fn try_get_data(&mut self) -> (batch: Option<Vec<PointRecord>>)
        ensures
            final(self)@ == old(self)@.drained(),
            match batch {
                Some(points) => old(self)@.taken() == Some(points@),
                None => old(self)@.taken() is None,
            },
    {
        self.slot.take()
    }

    /// Takes the pending batch. The caller has waited until one is there.
    pub fn get_data(&mut self) -> (batch: Vec<PointRecord>)
        requires
            !old(self)@.accepts(),
        ensures
            final(self)@ == old(self)@.drained(),
            old(self)@.taken() == Some(batch@),
    {
        let pending = self.slot.take();
        pending.unwrap()
    }

    /// Asks the worker to stop. Asking again changes nothing.
    pub fn request_shutdown(&mut self)
        ensures
            final(self)@ == old(self)@.signalled(),
    {
        self.shutdown = true;
    }

    /// Whether shutdown was asked for. The worker polls this once per capture
    /// iteration; the answer never goes back to `false`.
    pub fn shutdown_requested(&self) -> (asked: bool)
        ensures
            asked == self@.shutdown,
    {
        self.shutdown
    }
}

impl Default for OrbbecRx {
    /// Creates a channel with a free slot and no shutdown request.
    fn default() -> (rx: OrbbecRx)
        ensures
            rx@ == ChannelModel::empty(),
    {
        OrbbecRx::new()
    }
}

/// A consumer that drains before anything was published receives nothing,
/// and a published batch is delivered to exactly one drain: the first drain
/// after the publish receives that batch, the next one receives nothing.
pub proof fn lemma_publish_then_drain(batch: Seq<PointRecord>)
    ensures
        ChannelModel::empty().taken() is None,
        ChannelModel::empty().publish(batch).taken() == Some(batch),
        ChannelModel::empty().publish(batch).drained().taken() is None,
        ChannelModel::empty().publish(batch).drained() == ChannelModel::empty(),
{
}

/// Whatever the channel holds, a drain leaves the slot free and the next
/// offer is accepted: the consumer never holds the producer back for more
/// than one drain.
pub proof fn lemma_drain_frees_slot(channel: ChannelModel, batch: Seq<PointRecord>)
    ensures
        channel.drained().accepts(),
        channel.drained().publish(batch).taken() == Some(batch),
        channel.drained().shutdown == channel.shutdown,
{
}

/// An occupied slot keeps its batch when another is offered, so the consumer
/// receives batches in the order in which they were accepted.
pub proof fn lemma_pending_batch_is_kept(
    channel: ChannelModel,
    first: Seq<PointRecord>,
    second: Seq<PointRecord>,
)
    requires
        channel.accepts(),
    ensures
        channel.publish(first).publish(second).taken() == Some(first),
        channel.publish(first).drained().publish(second).taken() == Some(second),
{
}

/// A shutdown request is idempotent and leaves the slot as it is.
pub proof fn lemma_shutdown_is_idempotent(channel: ChannelModel)
    ensures
        channel.signalled().shutdown,
        channel.signalled().signalled() == channel.signalled(),
        channel.signalled().pending == channel.pending,
{
}

} // verus!
