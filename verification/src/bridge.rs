//! The bridge between the world thread and the UI thread: two independent,
//! capacity-bounded, one-directional channels whose senders never block.
//! When a channel is full the new message is dropped, not queued; the UI
//! side drains all buffered state snapshots per redraw and keeps only the
//! most recent one — state is last-value-wins, not an event log.

use vstd::prelude::*;

use crate::error::CoreError;
use crate::render::RawImage;
use crate::world::EntityId;

verus! {

/// Identifies a registered plugin.
pub type PluginId = usize;

/// A plugin's opaque UI-state payload, carried through the bridge without
/// being interpreted by the core.
#[derive(Clone, Debug)]
pub enum UiValue {
    Null,
    Text(String),
}

/// A snapshot of all world state the UI needs to draw itself: each entity's
/// most recently rendered image, the playhead tick, and every plugin's
/// opaque UI state. A snapshot fully replaces the prior one on receipt.
#[derive(Clone, Debug)]
pub struct WorldToUiState {
    /// Each entity's most recently rendered image.
    pub latest_renders: Vec<(EntityId, RawImage)>,
    /// The current frame number of the playhead.
    pub playhead: u64,
    /// Plugin-specific UI states, keyed by plugin id.
    pub plugin_ui_states: Vec<(PluginId, UiValue)>,
}

/// A command from the UI thread to the world thread.
#[derive(Clone, Debug)]
pub enum UiToWorldCommand {
    RequestRender { entity: EntityId, frame: u64 },
    SetPlayhead(u64),
    Quit,
}

/// What became of a non-blocking send. A dropped message is gone: there is
/// no resend or acknowledgment path, so delivery is not at-least-once.
#[derive(Clone, Copy, Debug, PartialEq, Eq, Structural)]
pub enum SendOutcome {
    /// The message was buffered for the receiver.
    Delivered,
    /// The receiver's buffer was full; the message was dropped, and the
    /// sender was not blocked.
    DroppedFull,
    /// The receiving end is gone; the message was dropped, and the sender
    /// was not blocked.
    DroppedClosed,
}

/// A capacity-bounded, one-directional, non-blocking message channel: a
/// send on a full buffer drops the message instead of blocking, so the
/// buffer never grows beyond its capacity.
pub struct Channel<T> {
    buf: Vec<T>,
    capacity: usize,
    closed: bool,
}

impl<T> Channel<T> {
    /// The messages currently buffered, oldest first.
    pub closed spec fn contents(self) -> Seq<T> {
        self.buf@
    }

    /// The fixed capacity the channel was created with.
    pub closed spec fn cap(self) -> usize {
        self.capacity
    }

    /// Whether the receiving end is gone.
    pub closed spec fn spec_closed(self) -> bool {
        self.closed
    }

    /// Marks the receiving end as gone: later sends are dropped, but what
    /// is already buffered can still be drained.
    pub fn close(&mut self)
        ensures
            final(self).spec_closed(),
            final(self).contents() == old(self).contents(),
            final(self).cap() == old(self).cap(),
    {
        self.closed = true;
    }

    /// Whether the receiving end is gone.
    pub fn is_closed(&self) -> (r: bool)
        ensures
            r == self.spec_closed(),
    {
        self.closed
    }

    /// Bounded: the buffer never holds more than the capacity.
    pub open spec fn wf(self) -> bool {
        self.contents().len() <= self.cap()
    }

    /// A new, empty channel with the given capacity.
    pub fn new(capacity: usize) -> (c: Channel<T>)
        ensures
            c.wf(),
            c.contents() =~= Seq::<T>::empty(),
            c.cap() == capacity,
            !c.spec_closed(),
    {
        Channel { buf: Vec::new(), capacity, closed: false }
    }

    /// The number of messages currently buffered.
    pub fn len(&self) -> (n: usize)
        ensures
            n == self.contents().len(),
    {
        self.buf.len()
    }

    /// Sends without blocking: the message is buffered if the receiver is
    /// there and has room, and dropped — leaving the channel unchanged —
    /// if its buffer is full or it is gone. The sender always returns
    /// immediately with the outcome.
    pub fn try_send(&mut self, m: T) -> (r: SendOutcome)
        requires
            old(self).wf(),
        ensures
            final(self).wf(),
            final(self).cap() == old(self).cap(),
            final(self).spec_closed() == old(self).spec_closed(),
            old(self).spec_closed() ==> {
                &&& r == SendOutcome::DroppedClosed
                &&& final(self).contents() == old(self).contents()
            },
            !old(self).spec_closed() && old(self).contents().len() < old(self).cap() ==> {
                &&& r == SendOutcome::Delivered
                &&& final(self).contents() == old(self).contents().push(m)
            },
            !old(self).spec_closed() && old(self).contents().len() >= old(self).cap() ==> {
                &&& r == SendOutcome::DroppedFull
                &&& final(self).contents() == old(self).contents()
            },
    {
        if self.closed {
            SendOutcome::DroppedClosed
        } else if self.buf.len() < self.capacity {
            self.buf.push(m);
            SendOutcome::Delivered
        } else {
            SendOutcome::DroppedFull
        }
    }

    /// Receives the oldest buffered message without blocking, or `None`
    /// when nothing is buffered. Messages arrive in the order they were
    /// accepted.
    pub fn try_recv(&mut self) -> (r: Option<T>)
        requires
            old(self).wf(),
        ensures
            final(self).wf(),
            final(self).cap() == old(self).cap(),
            old(self).contents().len() == 0 ==> r is None && final(self).contents() == old(
                self,
            ).contents(),
            old(self).contents().len() > 0 ==> {
                &&& (r matches Some(m) && m == old(self).contents()[0])
                &&& final(self).contents() == old(self).contents().drop_first()
            },
    {
        if self.buf.len() == 0 {
            Option::None
        } else {
            let m = self.buf.remove(0);
            proof {
                assert(self.buf@ =~= old(self).contents().drop_first());
            }
            Option::Some(m)
        }
    }

    /// Drains every buffered message and keeps only the most recent one:
    /// the receiver observes exactly the latest accepted snapshot, and
    /// nothing stays buffered.
    pub fn drain_latest(&mut self) -> (r: Option<T>)
        requires
            old(self).wf(),
        ensures
            final(self).wf(),
            final(self).cap() == old(self).cap(),
            final(self).contents() =~= Seq::<T>::empty(),
            old(self).contents().len() == 0 ==> r is None,
            old(self).contents().len() > 0 ==> (r matches Some(m) && m == old(
                self,
            ).contents().last()),
    {
        let r = self.buf.pop();
        self.buf.clear();
        r
    }
}

impl<T> Channel<T> {
    /// Receives like `try_recv`, but tells "nothing buffered yet" apart
    /// from "the peer is gone": a closed channel, once drained, yields the
    /// channel-closed error, on which the receiving thread performs an
    /// orderly shutdown instead of waiting forever.
    pub fn recv_or_closed(&mut self) -> (r: Result<Option<T>, CoreError>)
        requires
            old(self).wf(),
        ensures
            final(self).wf(),
            final(self).cap() == old(self).cap(),
            final(self).spec_closed() == old(self).spec_closed(),
            old(self).contents().len() == 0 && old(self).spec_closed() ==> (r matches Err(e) && e
                is ChannelClosed && final(self).contents() == old(self).contents()),
            old(self).contents().len() == 0 && !old(self).spec_closed() ==> r
                == Ok::<Option<T>, CoreError>(Option::None) && final(self).contents() == old(
                self,
            ).contents(),
            old(self).contents().len() > 0 ==> {
                &&& (r matches Ok(m) && m == Option::Some(old(self).contents()[0]))
                &&& final(self).contents() == old(self).contents().drop_first()
            },
    {
        if self.buf.len() == 0 {
            if self.closed {
                Err(CoreError::ChannelClosed)
            } else {
                Ok(Option::None)
            }
        } else {
            let m = self.buf.remove(0);
            proof {
                assert(self.buf@ =~= old(self).contents().drop_first());
            }
            Ok(Option::Some(m))
        }
    }
}

/// The communication channels of the UI-world bridge: commands flow from
/// the UI to the world, state snapshots flow from the world to the UI, and
/// neither direction ever blocks its sender.
pub struct Bridge {
    /// UI to world: commands.
    pub commands: Channel<UiToWorldCommand>,
    /// World to UI: state snapshots.
    pub states: Channel<WorldToUiState>,
}

impl Bridge {
    /// Creates a new bridge whose two channels each hold at most `capacity`
    /// undelivered messages.
    pub fn new(capacity: usize) -> (b: Bridge)
        ensures
            b.commands.wf(),
            b.states.wf(),
            b.commands.contents() =~= Seq::<UiToWorldCommand>::empty(),
            b.states.contents() =~= Seq::<WorldToUiState>::empty(),
            b.commands.cap() == capacity,
            b.states.cap() == capacity,
            !b.commands.spec_closed(),
            !b.states.spec_closed(),
    {
        Bridge { commands: Channel::new(capacity), states: Channel::new(capacity) }
    }
}

} // verus!
