//! The stream registry: every open stream under its handle, each with its
//! own single-slot frame channel.
//!
//! Every change takes the registry by `&mut`. Whoever holds it that way is
//! alone with it, and the contracts say what the registry holds before and
//! after for that holder.
//!
//! The streams are of the platform's own type, which the registry leaves
//! open; they are kept in a standard hash map. The channels are of this
//! crate's type and are kept in a concurrent map.

use vstd::prelude::*;
use std::collections::HashMap;
use crate::channel::{drained, offered, oldest, Frame, FrameChannel};
use crate::handle::StreamId;

verus! {

/// The concurrent hash map of `dashmap`.
#[verifier::external_type_specification]
#[verifier::external_body]
#[verifier::reject_recursive_types(K)]
#[verifier::reject_recursive_types(V)]
#[verifier::reject_recursive_types(S)]
pub struct ExDashMap<K, V, S>(dashmap::DashMap<K, V, S>);

/// The channels the map holds, each under its handle.
pub uninterp spec fn slots(table: dashmap::DashMap<u64, FrameChannel>) -> Map<u64, FrameChannel>;

/// Makes an empty map.
///
/// Trusted: calls `DashMap::new`, which makes a map without entries.
#[verifier::external_body]
fn slots_new() -> (table: dashmap::DashMap<u64, FrameChannel>)
    ensures
        slots(table).dom() == Set::<u64>::empty(),
{
    dashmap::DashMap::new()
}

/// Puts `channel` under `handle`, in place of what was there.
///
/// Trusted: calls `DashMap::insert`, which stores the value under the key and
/// returns the value it replaced, if any; other entries stay.
#[verifier::external_body]
fn slots_insert(
    table: &mut dashmap::DashMap<u64, FrameChannel>,
    handle: u64,
    channel: FrameChannel,
) -> (replaced: Option<FrameChannel>)
    ensures
        slots(*final(table)) == slots(*old(table)).insert(handle, channel),
        replaced == if slots(*old(table)).dom().contains(handle) {
            Some(slots(*old(table))[handle])
        } else {
            None
        },
{
    table.insert(handle, channel)
}

/// Takes out what is under `handle`.
///
/// Trusted: calls `DashMap::remove`, which removes the entry of the key and
/// returns its value, or returns nothing and changes nothing when the key has
/// no entry.
#[verifier::external_body]
fn slots_remove(
    table: &mut dashmap::DashMap<u64, FrameChannel>,
    handle: u64,
) -> (removed: Option<FrameChannel>)
    ensures
        slots(*final(table)) == slots(*old(table)).remove(handle),
        removed == if slots(*old(table)).dom().contains(handle) {
            Some(slots(*old(table))[handle])
        } else {
            None
        },
{
    table.remove(&handle).map(|entry| entry.1)
}

/// Removes every entry.
///
/// Trusted: calls `DashMap::clear`, which empties the map.
#[verifier::external_body]
fn slots_clear(table: &mut dashmap::DashMap<u64, FrameChannel>)
    ensures
        slots(*final(table)).dom() == Set::<u64>::empty(),
{
    table.clear()
}

/// The registry of open streams. `S` is the platform's stream object, which
/// the registry owns and drops on removal.
#[verifier::reject_recursive_types(S)]
pub struct StreamRegistry<S> {
    streams: HashMap<u64, S>,
    channels: dashmap::DashMap<u64, FrameChannel>,
}

impl<S> StreamRegistry<S> {
    /// The open streams, each under its handle.
    pub closed spec fn streams(&self) -> Map<StreamId, S> {
        self.streams@
    }

    /// The frames waiting for each open stream, oldest first.
    pub closed spec fn queues(&self) -> Map<StreamId, Seq<Seq<u32>>> {
        Map::new(
            |h: u64| slots(self.channels).dom().contains(h),
            |h: u64| slots(self.channels)[h].queue(),
        )
    }

    /// Every open stream has exactly one channel, and every channel is sound.
    pub closed spec fn wf(&self) -> bool {
        &&& self.streams@.dom().finite()
        &&& self.streams@.dom() == slots(self.channels).dom()
        &&& forall|h: u64| #[trigger]
            slots(self.channels).dom().contains(h) ==> slots(self.channels)[h].wf()
    }

    /// In a well-formed registry the streams and the queues have the same
    /// handles, finitely many, and no queue holds more than one frame.
    pub proof fn lemma_wf(&self)
        requires
            self.wf(),
        ensures
            self.streams().dom().finite(),
            self.queues().dom() == self.streams().dom(),
            forall|h: StreamId| #[trigger]
                self.queues().dom().contains(h) ==> self.queues()[h].len() <= 1,
    {
        assert forall|h: StreamId| #[trigger]
            self.queues().dom().contains(h) implies self.queues()[h].len() <= 1 by {
            slots(self.channels)[h].lemma_depth();
        }
    }

    /// Makes an empty registry.
    pub fn new() -> (registry: Self)
        ensures
            registry.wf(),
            registry.streams() == Map::<StreamId, S>::empty(),
            registry.queues() == Map::<StreamId, Seq<Seq<u32>>>::empty(),
    {
        StreamRegistry { streams: HashMap::new(), channels: slots_new() }
    }

    /// Stores `stream` under `handle` with a fresh, empty frame channel. A
    /// stream already stored under `handle` is dropped with its channel.
    pub fn insert(&mut self, handle: StreamId, stream: S)
        requires
            old(self).wf(),
        ensures
            final(self).wf(),
            final(self).streams() == old(self).streams().insert(handle, stream),
            final(self).queues() == old(self).queues().insert(handle, Seq::<Seq<u32>>::empty()),
    {
        self.streams.insert(handle, stream);
        let channel = FrameChannel::new();
        slots_insert(&mut self.channels, handle, channel);
    }

    /// Whether a stream is open under `handle`.
    pub fn contains(&self, handle: StreamId) -> (present: bool)
        ensures
            present == self.streams().dom().contains(handle),
    {
        self.streams.contains_key(&handle)
    }

    /// Borrows the stream open under `handle`, if any.
    pub fn get(&self, handle: StreamId) -> (stream: Option<&S>)
        ensures
            match stream {
                Some(s) => self.streams().dom().contains(handle) && *s == self.streams()[handle],
                None => !self.streams().dom().contains(handle),
            },
    {
        self.streams.get(&handle)
    }

    /// Removes the stream under `handle` with its channel and drops both. A
    /// handle without a stream changes nothing.
    pub fn remove(&mut self, handle: StreamId)
        requires
            old(self).wf(),
        ensures
            final(self).wf(),
            final(self).streams() == old(self).streams().remove(handle),
            final(self).queues() == old(self).queues().remove(handle),
    {
        self.streams.remove(&handle);
        slots_remove(&mut self.channels, handle);
    }

    /// The number of open streams.
    pub fn count(&self) -> (n: usize)
        ensures
            n == self.streams().dom().len(),
    {
        self.streams.len()
    }

    /// Drops every stream and every channel.
    pub fn clear(&mut self)
        ensures
            final(self).wf(),
            final(self).streams() == Map::<StreamId, S>::empty(),
            final(self).queues() == Map::<StreamId, Seq<Seq<u32>>>::empty(),
    {
        self.streams.clear();
        slots_clear(&mut self.channels);
    }

    /// Offers `frame` to the channel of `handle` without blocking. The frame
    /// is dropped when the channel is full or when no stream is open under
    /// `handle`.
    pub fn offer(&mut self, handle: StreamId, frame: Frame) -> (accepted: bool)
        requires
            old(self).wf(),
        ensures
            final(self).wf(),
            final(self).streams() == old(self).streams(),
            accepted == (old(self).queues().dom().contains(handle)
                && old(self).queues()[handle].len() == 0),
            final(self).queues() == if old(self).queues().dom().contains(handle) {
                old(self).queues().insert(handle, offered(old(self).queues()[handle], frame@))
            } else {
                old(self).queues()
            },
    {
        match slots_remove(&mut self.channels, handle) {
            Some(mut channel) => {
                let accepted = channel.push(frame);
                slots_insert(&mut self.channels, handle, channel);
                accepted
            },
            None => {
                assert(slots(self.channels) =~= slots(old(self).channels));
                false
            },
        }
    }

    /// Takes the frame waiting for `handle` without blocking, if a stream is
    /// open under `handle` and a frame waits.
    pub fn take(&mut self, handle: StreamId) -> (frame: Option<Frame>)
        requires
            old(self).wf(),
        ensures
            final(self).wf(),
            final(self).streams() == old(self).streams(),
            final(self).queues() == if old(self).queues().dom().contains(handle) {
                old(self).queues().insert(handle, drained(old(self).queues()[handle]))
            } else {
                old(self).queues()
            },
            match frame {
                Some(f) => old(self).queues().dom().contains(handle) && oldest(
                    old(self).queues()[handle],
                ) == Some(f@),
                None => !old(self).queues().dom().contains(handle) || oldest(
                    old(self).queues()[handle],
                ).is_none(),
            },
    {
        match slots_remove(&mut self.channels, handle) {
            Some(mut channel) => {
                let frame = channel.take();
                slots_insert(&mut self.channels, handle, channel);
                frame
            },
            None => {
                assert(slots(self.channels) =~= slots(old(self).channels));
                None
            },
        }
    }
}

} // verus!
