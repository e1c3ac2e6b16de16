//! The pipeline lifecycle state machine: how raw bus messages are classified
//! into consumer events, and how the consumer's per-tick drain of the event
//! channel advances the session state and picks the frame to display.

use crate::channel::{is_terminal_msg, PipelineEvent, VideoMessage};
use crate::frame::Frame;
use vstd::prelude::*;

verus! {

/// The session state of one stream instance. `Eos` and `Error` are terminal:
/// a new streamer must be constructed to play again.
#[derive(Clone, Copy, Debug, PartialEq, Eq, Structural)]
pub enum StreamerState {
    /// Constructed; no pipeline work started yet.
    Idle,
    /// The pipeline is being built and probed for capabilities.
    Loading,
    /// Decoding; samples and bus messages are flowing.
    Playing,
    /// Playback completed normally.
    Eos,
    /// The pipeline reported a fatal error.
    Error,
}

/// Whether the session is over for this stream instance.
pub open spec fn state_is_terminal(s: StreamerState) -> bool {
    s == StreamerState::Eos || s == StreamerState::Error
}

/// How one classified pipeline event moves the session state: a terminal
/// state absorbs everything; end-of-stream and errors are terminal;
/// diagnostics change nothing.
pub open spec fn next_state(s: StreamerState, ev: PipelineEvent) -> StreamerState {
    if state_is_terminal(s) {
        s
    } else {
        match ev {
            PipelineEvent::Eos => StreamerState::Eos,
            PipelineEvent::Error(_) => StreamerState::Error,
            PipelineEvent::Other => s,
        }
    }
}

/// Executable form of `next_state`.
pub fn advance(s: StreamerState, ev: PipelineEvent) -> (next: StreamerState)
    ensures
        next == next_state(s, ev),
{
    if s == StreamerState::Eos || s == StreamerState::Error {
        s
    } else {
        match ev {
            PipelineEvent::Eos => StreamerState::Eos,
            PipelineEvent::Error(_) => StreamerState::Error,
            PipelineEvent::Other => s,
        }
    }
}

/// A raw message from the pipeline bus, in the library's own taxonomy. The
/// application maps the pipeline collaborator's message type onto this, one
/// variant per kind it distinguishes.
#[derive(Debug, Clone)]
pub enum BusMessage {
    /// End of stream.
    Eos,
    /// A pipeline error, with its details.
    Error(String),
    /// An element changed state.
    StateChanged,
    /// Stream metadata.
    Tag,
    /// Anything else.
    Other,
}

/// How the bus watch treats each raw message: what event (if any) goes onto
/// the channel, and whether the watch keeps running. End-of-stream and
/// errors are forwarded and end the watch; state changes and tags are
/// routine and ignored; unrecognized messages are forwarded as diagnostics
/// rather than logged out-of-band.
pub open spec fn classify_model(m: BusMessage) -> (Option<PipelineEvent>, bool) {
    match m {
        BusMessage::Eos => (Some(PipelineEvent::Eos), false),
        BusMessage::Error(details) => (Some(PipelineEvent::Error(details)), false),
        BusMessage::StateChanged => (None, true),
        BusMessage::Tag => (None, true),
        BusMessage::Other => (Some(PipelineEvent::Other), true),
    }
}

/// Classify one raw bus message. Returns the event to enqueue, if any, and
/// whether the bus watch should keep running.
pub fn classify_bus_message(m: BusMessage) -> (r: (Option<PipelineEvent>, bool))
    ensures
        r == classify_model(m),
{
    match m {
        BusMessage::Eos => (Some(PipelineEvent::Eos), false),
        BusMessage::Error(details) => (Some(PipelineEvent::Error(details)), false),
        BusMessage::StateChanged => (None, true),
        BusMessage::Tag => (None, true),
        BusMessage::Other => (Some(PipelineEvent::Other), true),
    }
}

/// Ghost image of one consumer tick in progress: the session state so far,
/// the latest sample seen (latest wins for display), how many payload
/// samples were applied, and whether a signal-only sample event was seen.
pub ghost struct DrainModel {
    pub state: StreamerState,
    pub latest: Option<Frame>,
    pub applied: int,
    pub signaled: bool,
}

/// The tick's starting accumulator.
pub open spec fn drain_init(s: StreamerState) -> DrainModel {
    DrainModel { state: s, latest: None, applied: 0, signaled: false }
}

/// One event applied to the tick: once the state is terminal every later
/// event is ignored; before that, payload samples replace the latest frame,
/// signals mark the frame buffer as worth rereading, and pipeline messages
/// advance the state.
pub open spec fn drain_step(acc: DrainModel, m: VideoMessage) -> DrainModel {
    if state_is_terminal(acc.state) {
        acc
    } else {
        match m {
            VideoMessage::NewSample => DrainModel {
                state: acc.state,
                latest: acc.latest,
                applied: acc.applied,
                signaled: true,
            },
            VideoMessage::NewSampleData(data, width, height) => DrainModel {
                state: acc.state,
                latest: Some(Frame { width, height, data }),
                applied: acc.applied + 1,
                signaled: acc.signaled,
            },
            VideoMessage::PipelineMessage(ev) => DrainModel {
                state: next_state(acc.state, ev),
                latest: acc.latest,
                applied: acc.applied,
                signaled: acc.signaled,
            },
        }
    }
}

/// A whole drained batch applied in arrival order.
pub open spec fn drain_model(acc: DrainModel, msgs: Seq<VideoMessage>) -> DrainModel
    decreases msgs.len(),
{
    if msgs.len() == 0 {
        acc
    } else {
        drain_model(drain_step(acc, msgs[0]), msgs.skip(1))
    }
}

/// What one consumer tick produced.
pub struct DrainOutcome {
    /// The session state after the batch.
    pub state: StreamerState,
    /// The frame to display, if any payload sample arrived: the latest one.
    pub latest: Option<Frame>,
    /// How many payload samples were applied.
    pub applied: usize,
    /// Whether a signal-only sample event asked for a frame buffer read.
    pub signaled: bool,
}

/// Consumer side of one UI tick: apply a drained batch of events in arrival
/// order. Samples already enqueued ahead of a terminal event are applied
/// before the terminal event takes effect; everything after it is ignored.
pub fn apply_drained(state: StreamerState, msgs: Vec<VideoMessage>) -> (out: DrainOutcome)
    ensures
        ({
            let m = drain_model(drain_init(state), msgs@);
            &&& out.state == m.state
            &&& out.latest == m.latest
            &&& out.applied == m.applied
            &&& out.signaled == m.signaled
        }),
{
    let ghost all = msgs@;
    let mut rest = msgs;
    let total: usize = rest.len();
    let mut cur = state;
    let mut latest: Option<Frame> = None;
    let mut applied: usize = 0;
    let mut signaled = false;
    proof {
        assert(rest@ =~= all);
    }
    while rest.len() > 0
        invariant
            all.len() == total,
            applied + rest@.len() <= total,
            drain_model(drain_init(state), all) == drain_model(
                (DrainModel { state: cur, latest, applied: applied as int, signaled }),
                rest@,
            ),
        decreases rest@.len(),
    {
        let ghost rest_pre = rest@;
        let m = rest.remove(0);
        proof {
            assert(rest@ =~= rest_pre.skip(1));
        }
        if !(cur == StreamerState::Eos || cur == StreamerState::Error) {
            match m {
                VideoMessage::NewSample => {
                    signaled = true;
                },
                VideoMessage::NewSampleData(data, width, height) => {
                    latest = Some(Frame { width, height, data });
                    applied = applied + 1;
                },
                VideoMessage::PipelineMessage(ev) => {
                    cur = advance(cur, ev);
                },
            }
        }
    }
    proof {
        assert(rest@.len() == 0);
    }
    DrainOutcome { state: cur, latest, applied, signaled }
}

/// How many payload samples a batch holds.
pub open spec fn sample_count(msgs: Seq<VideoMessage>) -> int
    decreases msgs.len(),
{
    if msgs.len() == 0 {
        0
    } else {
        (match msgs[0] {
            VideoMessage::NewSampleData(_, _, _) => 1int,
            _ => 0int,
        }) + sample_count(msgs.skip(1))
    }
}

/// The prefix of a batch that precedes its first terminal event.
pub open spec fn pre_terminal(msgs: Seq<VideoMessage>) -> Seq<VideoMessage>
    decreases msgs.len(),
{
    if msgs.len() == 0 {
        Seq::empty()
    } else if is_terminal_msg(msgs[0]) {
        Seq::empty()
    } else {
        seq![msgs[0]] + pre_terminal(msgs.skip(1))
    }
}

/// The frame a batch leaves on display: its last payload sample, if any
/// (latest wins).
pub open spec fn last_sample(msgs: Seq<VideoMessage>) -> Option<Frame>
    decreases msgs.len(),
{
    if msgs.len() == 0 {
        None
    } else {
        match last_sample(msgs.skip(1)) {
            Some(f) => Some(f),
            None => match msgs[0] {
                VideoMessage::NewSampleData(data, width, height) => Some(
                    (Frame { width, height, data }),
                ),
                _ => None,
            },
        }
    }
}

/// Law: a terminal state absorbs the rest of a batch. Once the consumer has
/// observed end-of-stream or an error, no later event of any kind is applied,
/// even one already enqueued behind the terminal event.
pub proof fn lemma_terminal_absorbs(acc: DrainModel, msgs: Seq<VideoMessage>)
    requires
        state_is_terminal(acc.state),
    ensures
        drain_model(acc, msgs) == acc,
    decreases msgs.len(),
{
    if msgs.len() > 0 {
        lemma_terminal_absorbs(acc, msgs.skip(1));
    }
}

proof fn lemma_applied_counts_pre_terminal(acc: DrainModel, msgs: Seq<VideoMessage>)
    requires
        !state_is_terminal(acc.state),
    ensures
        drain_model(acc, msgs).applied == acc.applied + sample_count(pre_terminal(msgs)),
    decreases msgs.len(),
{
    if msgs.len() > 0 {
        let m = msgs[0];
        let stepped = drain_step(acc, m);
        if is_terminal_msg(m) {
            assert(state_is_terminal(stepped.state));
            lemma_terminal_absorbs(stepped, msgs.skip(1));
        } else {
            assert(!state_is_terminal(stepped.state));
            lemma_applied_counts_pre_terminal(stepped, msgs.skip(1));
            let pre = pre_terminal(msgs);
            assert(pre[0] == m);
            assert(pre.skip(1) =~= pre_terminal(msgs.skip(1)));
        }
    }
}

proof fn lemma_latest_is_last_pre_terminal(acc: DrainModel, msgs: Seq<VideoMessage>)
    requires
        !state_is_terminal(acc.state),
    ensures
        drain_model(acc, msgs).latest == (match last_sample(pre_terminal(msgs)) {
            Some(f) => Some(f),
            None => acc.latest,
        }),
    decreases msgs.len(),
{
    if msgs.len() > 0 {
        let m = msgs[0];
        let stepped = drain_step(acc, m);
        if is_terminal_msg(m) {
            lemma_terminal_absorbs(stepped, msgs.skip(1));
        } else {
            lemma_latest_is_last_pre_terminal(stepped, msgs.skip(1));
            let pre = pre_terminal(msgs);
            assert(pre[0] == m);
            assert(pre.skip(1) =~= pre_terminal(msgs.skip(1)));
        }
    }
}

/// Law: no sample ahead of a terminal event is lost, and the frame left on
/// display is the newest one that counts. Draining the channel fully and
/// applying the batch in order applies exactly the payload samples enqueued
/// before the first end-of-stream or error — none after it — and leaves the
/// last of them as the frame to show.
pub proof fn lemma_no_sample_lost(state: StreamerState, msgs: Seq<VideoMessage>)
    requires
        !state_is_terminal(state),
    ensures
        drain_model(drain_init(state), msgs).applied == sample_count(pre_terminal(msgs)),
        drain_model(drain_init(state), msgs).latest == last_sample(pre_terminal(msgs)),
{
    lemma_applied_counts_pre_terminal(drain_init(state), msgs);
    lemma_latest_is_last_pre_terminal(drain_init(state), msgs);
}

} // verus!
