//! The bounded event channel: a multi-producer / single-consumer queue of
//! lifecycle events flowing from the pipeline threads to the UI thread. The
//! surrounding application serializes access with a lock and parks a blocked
//! producer; every operation here is a complete, verified critical section
//! body.

use vstd::prelude::*;

verus! {

/// A lifecycle message from the pipeline bus, in the form the consumer
/// sees.
#[derive(Debug, Clone)]
pub enum PipelineEvent {
    /// Playback completed normally. Terminal for the session.
    Eos,
    /// The pipeline reported a decode error. Terminal for the session.
    Error(String),
    /// A diagnostic message of no consequence to the session's state.
    Other,
}

/// One event carried by the channel.
#[derive(Debug)]
pub enum VideoMessage {
    /// Signal-only delivery: a new frame is waiting in the shared frame
    /// buffer.
    NewSample,
    /// Payload delivery: one decoded frame's RGBA bytes with its width and
    /// height.
    NewSampleData(Vec<u8>, u32, u32),
    /// A classified pipeline bus message.
    PipelineMessage(PipelineEvent),
}

/// Whether an event ends the decode session once the consumer observes it.
pub open spec fn is_terminal_msg(m: VideoMessage) -> bool {
    match m {
        VideoMessage::PipelineMessage(PipelineEvent::Eos) => true,
        VideoMessage::PipelineMessage(PipelineEvent::Error(_)) => true,
        _ => false,
    }
}

/// What a send does to the queued events: appended when there is room,
/// refused (and the queue left as it was) when the channel is full.
pub open spec fn send_model(q: Seq<VideoMessage>, capacity: int, m: VideoMessage) -> Seq<
    VideoMessage,
> {
    if q.len() < capacity {
        q.push(m)
    } else {
        q
    }
}

/// Whether a send on a queue of this fill is accepted.
pub open spec fn send_accepted(q: Seq<VideoMessage>, capacity: int) -> bool {
    q.len() < capacity
}

/// The bounded queue carrying events from the pipeline threads to the UI
/// thread. Events are kept in arrival order; once the capacity is reached a
/// send is refused and the producer must retry after the consumer drains
/// (the bounded-block policy: the producer is applied backpressure, nothing
/// is dropped).
pub struct EventChannel {
    queue: Vec<VideoMessage>,
    capacity: usize,
}

/// Design default for the channel capacity: ten pending events.
pub const DEFAULT_CHANNEL_CAPACITY: usize = 10;

impl View for EventChannel {
    type V = Seq<VideoMessage>;

    closed spec fn view(&self) -> Seq<VideoMessage> {
        self.queue@
    }
}

impl EventChannel {
    #[verifier::type_invariant]
    spec fn inv(self) -> bool {
        self.queue@.len() <= self.capacity && self.capacity >= 1
    }

    /// The channel's bound on pending events.
    pub closed spec fn capacity(self) -> int {
        self.capacity as int
    }

    /// An empty channel with the design-default capacity.
    pub fn new() -> (c: EventChannel)
        ensures
            c@.len() == 0,
            c.capacity() == DEFAULT_CHANNEL_CAPACITY,
    {
        EventChannel { queue: Vec::new(), capacity: DEFAULT_CHANNEL_CAPACITY }
    }

    /// An empty channel bounded at `capacity` pending events.
    pub fn with_capacity(capacity: usize) -> (c: EventChannel)
        requires
            capacity >= 1,
        ensures
            c@.len() == 0,
            c.capacity() == capacity,
    {
        EventChannel { queue: Vec::new(), capacity }
    }

    /// Producer side: enqueue an event. On a full channel nothing changes
    /// and the event comes back to its sender, who must park and retry once
    /// the consumer has drained. A refused send loses nothing.
    pub fn try_send(&mut self, msg: VideoMessage) -> (r: Result<(), VideoMessage>)
        ensures
            r is Ok <==> send_accepted(old(self)@, old(self).capacity()),
            final(self)@ == send_model(old(self)@, old(self).capacity(), msg),
            r matches Err(back) ==> back == msg && final(self)@ == old(self)@,
            final(self).capacity() == old(self).capacity(),
    {
        proof {
            use_type_invariant(&*self);
        }
        if self.queue.len() < self.capacity {
            let mut q: Vec<VideoMessage> = Vec::new();
            core::mem::swap(&mut q, &mut self.queue);
            q.push(msg);
            core::mem::swap(&mut q, &mut self.queue);
            Ok(())
        } else {
            Err(msg)
        }
    }

    /// Consumer side: take every queued event at once, in arrival order,
    /// leaving the channel empty. Non-blocking; called once per UI tick.
    pub fn drain_available(&mut self) -> (msgs: Vec<VideoMessage>)
        ensures
            msgs@ == old(self)@,
            final(self)@.len() == 0,
            final(self).capacity() == old(self).capacity(),
    {
        proof {
            use_type_invariant(&*self);
        }
        let mut msgs: Vec<VideoMessage> = Vec::new();
        core::mem::swap(&mut msgs, &mut self.queue);
        msgs
    }

    /// How many events are pending.
    pub fn len(&self) -> (n: usize)
        ensures
            n == self@.len(),
    {
        self.queue.len()
    }

    /// Whether a send would be refused right now.
    pub fn is_full(&self) -> (full: bool)
        ensures
            full == !send_accepted(self@, self.capacity()),
    {
        proof {
            use_type_invariant(&*self);
        }
        self.queue.len() == self.capacity
    }
}

/// Law: the channel applies backpressure without loss. A send on a full
/// channel changes nothing; a send on a channel with room appends, keeping
/// every earlier event in place and in order. So a stalled consumer costs
/// the producer only waiting, never an event.
pub proof fn lemma_send_loses_nothing(q: Seq<VideoMessage>, capacity: int, m: VideoMessage)
    ensures
        !send_accepted(q, capacity) ==> send_model(q, capacity, m) == q,
        send_accepted(q, capacity) ==> {
            &&& send_model(q, capacity, m).len() == q.len() + 1
            &&& send_model(q, capacity, m)[q.len() as int] == m
            &&& forall|i: int| 0 <= i < q.len() ==> send_model(q, capacity, m)[i] == q[i]
        },
{
}

} // verus!
