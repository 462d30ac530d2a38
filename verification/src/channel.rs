//! The frame hand-off channel: one bounded queue of depth one per stream,
//! fed by the capture callback and drained by the polling consumer.
//!
//! Both halves of a channel stay inside one [`FrameChannel`] and are never
//! cloned, so whoever holds the channel by `&mut` is its only producer and its
//! only consumer. The contracts are stated for that holder.

use vstd::prelude::*;

verus! {

/// One captured batch of interleaved samples, each sample held as the bit
/// pattern of a 32-bit IEEE-754 number.
pub type Frame = Vec<u32>;

/// The sending half of a `crossbeam_channel` channel.
#[verifier::external_type_specification]
#[verifier::external_body]
#[verifier::reject_recursive_types(T)]
pub struct ExSender<T>(crossbeam_channel::Sender<T>);

/// The receiving half of a `crossbeam_channel` channel.
#[verifier::external_type_specification]
#[verifier::external_body]
#[verifier::reject_recursive_types(T)]
pub struct ExReceiver<T>(crossbeam_channel::Receiver<T>);

/// The frames waiting in the channel that `rx` drains, oldest first.
pub uninterp spec fn pending(rx: crossbeam_channel::Receiver<Vec<u32>>) -> Seq<Seq<u32>>;

/// Whether `tx` and `rx` are the two halves of one channel that was made to
/// hold a single frame.
pub uninterp spec fn single_slot(
    tx: crossbeam_channel::Sender<Vec<u32>>,
    rx: crossbeam_channel::Receiver<Vec<u32>>,
) -> bool;

/// Makes a channel that holds a single frame.
///
/// Trusted: calls `crossbeam_channel::bounded`, which for a capacity of one
/// returns the two halves of one empty channel that buffers at most one
/// message. Only that capacity is admitted: zero makes a rendezvous channel,
/// and a very large one makes the call panic.
#[verifier::external_body]
fn channel_bounded(cap: usize) -> (ends: (
    crossbeam_channel::Sender<Vec<u32>>,
    crossbeam_channel::Receiver<Vec<u32>>,
))
    requires
        cap == 1,
    ensures
        single_slot(ends.0, ends.1),
        pending(ends.1) == Seq::<Seq<u32>>::empty(),
{
    crossbeam_channel::bounded(cap)
}

/// Offers `frame` to the channel without blocking.
///
/// Trusted: calls `Sender::try_send`, which appends the message when the
/// channel holds fewer messages than it was made for and a receiver is alive,
/// and otherwise hands the message back and leaves the channel as it was.
/// The receiver is passed because the frames it will yield change; holding it
/// keeps a receiver alive.
#[verifier::external_body]
fn channel_try_send(
    tx: &crossbeam_channel::Sender<Vec<u32>>,
    rx: &mut crossbeam_channel::Receiver<Vec<u32>>,
    frame: Vec<u32>,
) -> (accepted: bool)
    requires
        single_slot(*tx, *old(rx)),
    ensures
        single_slot(*tx, *final(rx)),
        accepted == (pending(*old(rx)).len() < 1),
        pending(*final(rx)) == if accepted {
            pending(*old(rx)).push(frame@)
        } else {
            pending(*old(rx))
        },
{
    tx.try_send(frame).is_ok()
}

/// Takes the oldest waiting frame without blocking.
///
/// Trusted: calls `Receiver::try_recv`, which removes and returns the oldest
/// buffered message, or reports an error and changes nothing when no message
/// is buffered. The halves stay the halves of the same channel.
#[verifier::external_body]
fn channel_try_recv(rx: &mut crossbeam_channel::Receiver<Vec<u32>>) -> (frame: Option<Vec<u32>>)
    ensures
        forall|tx: crossbeam_channel::Sender<Vec<u32>>|
            single_slot(tx, *old(rx)) ==> #[trigger] single_slot(tx, *final(rx)),
        match frame {
            Some(f) => pending(*old(rx)).len() > 0 && f@ == pending(*old(rx)).first() && pending(
                *final(rx),
            ) == pending(*old(rx)).drop_first(),
            None => pending(*old(rx)).len() == 0 && pending(*final(rx)) == pending(*old(rx)),
        },
{
    rx.try_recv().ok()
}

/// What a queue of depth one holds after `frame` is offered to it: the frame
/// is taken when the queue is empty and dropped when it is full.
pub open spec fn offered(queue: Seq<Seq<u32>>, frame: Seq<u32>) -> Seq<Seq<u32>> {
    if queue.len() == 0 {
        queue.push(frame)
    } else {
        queue
    }
}

/// What a queue holds after its oldest frame, if any, is taken.
pub open spec fn drained(queue: Seq<Seq<u32>>) -> Seq<Seq<u32>> {
    if queue.len() == 0 {
        queue
    } else {
        queue.drop_first()
    }
}

/// The oldest frame of a queue, if any.
pub open spec fn oldest(queue: Seq<Seq<u32>>) -> Option<Seq<u32>> {
    if queue.len() == 0 {
        None
    } else {
        Some(queue.first())
    }
}

/// The single-slot hand-off channel of one stream.
pub struct FrameChannel {
    tx: crossbeam_channel::Sender<Vec<u32>>,
    rx: crossbeam_channel::Receiver<Vec<u32>>,
}

impl FrameChannel {
    /// Both halves belong together, the depth is one, and no more than one
    /// frame waits.
    pub closed spec fn wf(&self) -> bool {
        &&& single_slot(self.tx, self.rx)
        &&& pending(self.rx).len() <= 1
    }

    /// The waiting frames, oldest first.
    pub closed spec fn queue(&self) -> Seq<Seq<u32>> {
        pending(self.rx)
    }

    /// A well-formed channel never holds more than one frame.
    pub proof fn lemma_depth(&self)
        requires
            self.wf(),
        ensures
            self.queue().len() <= 1,
    {
    }

    /// Makes an empty channel of depth one.
    pub fn new() -> (ch: Self)
        ensures
            ch.wf(),
            ch.queue() == Seq::<Seq<u32>>::empty(),
    {
        let (tx, rx) = channel_bounded(1);
        FrameChannel { tx, rx }
    }

    /// Offers `frame` without blocking; a full channel drops it.
    pub fn push(&mut self, frame: Frame) -> (accepted: bool)
        requires
            old(self).wf(),
        ensures
            final(self).wf(),
            accepted == (old(self).queue().len() == 0),
            final(self).queue() == offered(old(self).queue(), frame@),
    {
        channel_try_send(&self.tx, &mut self.rx, frame)
    }

    /// Takes the waiting frame without blocking, if there is one.
    pub fn take(&mut self) -> (frame: Option<Frame>)
        requires
            old(self).wf(),
        ensures
            final(self).wf(),
            final(self).queue() == drained(old(self).queue()),
            match frame {
                Some(f) => oldest(old(self).queue()) == Some(f@),
                None => oldest(old(self).queue()).is_none(),
            },
    {
        channel_try_recv(&mut self.rx)
    }
}

} // verus!
