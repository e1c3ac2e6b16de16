//! The streamer façade: owns the session's state machine, the resolved
//! stream configuration, and the consumer end of the event channel until the
//! UI claims it. The surrounding application owns the pipeline handle and the
//! threads; it reports what the pipeline did through the verified operations
//! here and performs the actions they decide.

use crate::channel::{send_model, EventChannel, VideoMessage, DEFAULT_CHANNEL_CAPACITY};
use crate::frame::{frame_bytes, write_model, FrameBuffer};
use crate::lifecycle::StreamerState;
use crate::uri::{uri_parses, uri_well_formed};
use vstd::prelude::*;

verus! {

/// A span of media time, in whole nanoseconds.
#[derive(Clone, Copy, Debug, PartialEq, Eq, PartialOrd, Ord, Hash, Structural)]
pub struct Duration {
    pub nanos: u64,
}

impl Duration {
    /// The span of `nanos` nanoseconds.
    pub fn from_nanos(nanos: u64) -> (d: Duration)
        ensures
            d.nanos == nanos,
    {
        Duration { nanos }
    }
}

/// Position in the media.
#[derive(Clone, Copy, Debug, PartialEq, Eq, PartialOrd, Ord, Hash, Structural)]
pub enum Position {
    /// Position based on time. Not the most accurate format for videos.
    Time(Duration),
    /// Position based on nth frame.
    Frame(u64),
}

impl From<Duration> for Position {
    fn from(t: Duration) -> (p: Position)
        ensures
            p == Position::Time(t),
    {
        Position::Time(t)
    }
}

impl vstd::std_specs::convert::FromSpecImpl<Duration> for Position {
    open spec fn obeys_from_spec() -> bool {
        true
    }

    open spec fn from_spec(t: Duration) -> Position {
        Position::Time(t)
    }
}

impl From<u64> for Position {
    fn from(f: u64) -> (p: Position)
        ensures
            p == Position::Frame(f),
    {
        Position::Frame(f)
    }
}

impl vstd::std_specs::convert::FromSpecImpl<u64> for Position {
    open spec fn obeys_from_spec() -> bool {
        true
    }

    open spec fn from_spec(f: u64) -> Position {
        Position::Frame(f)
    }
}

/// Why a streamer could not be constructed or torn further. Construction
/// errors are surfaced synchronously: no partial streamer is handed out.
#[derive(Debug, Clone, PartialEq, Eq)]
pub enum Error {
    /// The stream URI is not a well-formed absolute URL.
    MalformedUri,
    /// The pipeline could not be built, with the collaborator's details.
    Init(String),
    /// The pipeline refused a state change within the probe bound.
    StateChange,
    /// Media capabilities were missing or unusable.
    Caps,
    /// The media duration could not be queried.
    Duration,
}

/// The stream's frame rate as the exact fraction the pipeline reported.
/// The application may round it to a float at its own boundary.
#[derive(Clone, Copy, Debug, PartialEq, Eq, Structural)]
pub struct Framerate {
    pub num: i32,
    pub den: i32,
}

/// The configuration resolved by the capability probe during construction,
/// immutable for the life of the session.
#[derive(Clone, Copy, Debug, PartialEq, Eq, Structural)]
pub struct StreamConfig {
    pub width: u32,
    pub height: u32,
    pub framerate: Framerate,
    pub duration: Duration,
}

/// What the application observed when probing the pipeline for capabilities,
/// reported back verbatim for the streamer to judge.
#[derive(Debug, Clone)]
pub enum ProbeOutcome {
    /// The probe resolved raw capability fields within the time bound.
    Resolved {
        width: i32,
        height: i32,
        framerate_num: i32,
        framerate_den: i32,
        duration_nanos: Option<u64>,
    },
    /// The sink pad reported no usable capability structure.
    NoCaps,
    /// The pipeline did not reach the probing state within the time bound.
    StateChangeFailed,
}

/// How a probe observation is judged: negative dimensions or a zero frame
/// rate denominator are unusable capabilities, a missing duration is its own
/// failure, and anything resolved and sane becomes the session configuration.
pub open spec fn probe_result(o: ProbeOutcome) -> Result<StreamConfig, Error> {
    match o {
        ProbeOutcome::StateChangeFailed => Err(Error::StateChange),
        ProbeOutcome::NoCaps => Err(Error::Caps),
        ProbeOutcome::Resolved { width, height, framerate_num, framerate_den, duration_nanos } => {
            if width < 0 || height < 0 {
                Err(Error::Caps)
            } else if framerate_den == 0 {
                Err(Error::Caps)
            } else {
                match duration_nanos {
                    None => Err(Error::Duration),
                    Some(nanos) => Ok(
                        (StreamConfig {
                            width: width as u32,
                            height: height as u32,
                            framerate: (Framerate { num: framerate_num, den: framerate_den }),
                            duration: (Duration { nanos }),
                        }),
                    ),
                }
            }
        },
    }
}

/// Ghost image of the streamer.
pub ghost struct StreamerView {
    pub do_sync: bool,
    pub state: StreamerState,
    pub started: bool,
    pub stopped: bool,
    pub config: Option<StreamConfig>,
    pub receiver: Option<Seq<VideoMessage>>,
}

/// What starting delivery does: only a playing, un-stopped session starts;
/// anything else is left alone.
pub open spec fn start_model(v: StreamerView) -> StreamerView {
    if v.state == StreamerState::Playing && !v.stopped {
        StreamerView { started: true, ..v }
    } else {
        v
    }
}

/// What the teardown decision does: delivery is stopped for good. The state
/// itself is left as it is; `stopped` is what silences the callbacks.
pub open spec fn stop_model(v: StreamerView) -> StreamerView {
    StreamerView { started: false, stopped: true, ..v }
}

/// Video player session which handles multimedia playback decisions. The
/// pipeline handle itself lives with the application; its lifetime must be
/// bounded by this session's stop.
pub struct Streamer {
    do_sync: bool,
    state: StreamerState,
    started: bool,
    stopped: bool,
    config: Option<StreamConfig>,
    receiver: Option<EventChannel>,
}

impl View for Streamer {
    type V = StreamerView;

    closed spec fn view(&self) -> StreamerView {
        StreamerView {
            do_sync: self.do_sync,
            state: self.state,
            started: self.started,
            stopped: self.stopped,
            config: self.config,
            receiver: match self.receiver {
                Some(c) => Some(c@),
                None => None,
            },
        }
    }
}

impl Streamer {
    #[verifier::type_invariant]
    spec fn inv(self) -> bool {
        match self.receiver {
            Some(c) => c.capacity() == DEFAULT_CHANNEL_CAPACITY,
            None => true,
        }
    }

    /// Construct a session for `uri`. A malformed URI is refused
    /// synchronously, before any pipeline work or background thread exists;
    /// otherwise the session starts idle with an empty event channel waiting
    /// to be claimed.
    pub fn new(uri: &str, sync: bool) -> (r: Result<Streamer, Error>)
        ensures
            r is Ok <==> uri_well_formed(uri@),
            r matches Err(e) ==> e == Error::MalformedUri,
            r matches Ok(s) ==> {
                &&& s@.do_sync == sync
                &&& s@.state == StreamerState::Idle
                &&& !s@.started
                &&& !s@.stopped
                &&& s@.config is None
                &&& s@.receiver == Some(Seq::<VideoMessage>::empty())
            },
    {
        if !uri_parses(uri) {
            return Err(Error::MalformedUri);
        }
        let channel = EventChannel::new();
        proof {
            assert(channel@ =~= Seq::<VideoMessage>::empty());
        }
        Ok(
            Streamer {
                do_sync: sync,
                state: StreamerState::Idle,
                started: false,
                stopped: false,
                config: None,
                receiver: Some(channel),
            },
        )
    }

    /// Hand the consumer end of the event channel to the UI. Yields the
    /// channel the first time and nothing after that.
    pub fn take_msg_receiver(&mut self) -> (r: Option<EventChannel>)
        ensures
            final(self)@ == (StreamerView { receiver: None, ..old(self)@ }),
            old(self)@.receiver is None ==> r is None,
            old(self)@.receiver matches Some(q) ==> r matches Some(c) && c@ == q
                && c.capacity() == DEFAULT_CHANNEL_CAPACITY,
    {
        proof {
            use_type_invariant(&*self);
        }
        let mut taken: Option<EventChannel> = None;
        core::mem::swap(&mut taken, &mut self.receiver);
        taken
    }

    /// The application reports that it has begun constructing the pipeline:
    /// the capability probe is under way.
    pub fn begin_loading(&mut self)
        requires
            old(self)@.state == StreamerState::Idle,
        ensures
            final(self)@ == (StreamerView { state: StreamerState::Loading, ..old(self)@ }),
    {
        proof {
            use_type_invariant(&*self);
        }
        self.state = StreamerState::Loading;
    }

    /// The application reports what the bounded-time capability probe
    /// observed. A sane observation resolves the configuration and the
    /// session is playing; any failure is terminal for this construction
    /// attempt and surfaced synchronously.
    pub fn apply_probe(&mut self, outcome: ProbeOutcome) -> (r: Result<(), Error>)
        requires
            old(self)@.state == StreamerState::Loading,
        ensures
            probe_result(outcome) matches Ok(c) ==> r is Ok && final(self)@ == (StreamerView {
                state: StreamerState::Playing,
                config: Some(c),
                ..old(self)@
            }),
            probe_result(outcome) matches Err(e) ==> r == Err::<(), Error>(e) && final(self)@
                == (StreamerView { state: StreamerState::Error, ..old(self)@ }),
    {
        proof {
            use_type_invariant(&*self);
        }
        match outcome {
            ProbeOutcome::StateChangeFailed => {
                self.state = StreamerState::Error;
                Err(Error::StateChange)
            },
            ProbeOutcome::NoCaps => {
                self.state = StreamerState::Error;
                Err(Error::Caps)
            },
            ProbeOutcome::Resolved {
                width,
                height,
                framerate_num,
                framerate_den,
                duration_nanos,
            } => {
                if width < 0 || height < 0 || framerate_den == 0 {
                    self.state = StreamerState::Error;
                    return Err(Error::Caps);
                }
                match duration_nanos {
                    None => {
                        self.state = StreamerState::Error;
                        Err(Error::Duration)
                    },
                    Some(nanos) => {
                        self.config = Some(
                            StreamConfig {
                                width: width as u32,
                                height: height as u32,
                                framerate: Framerate { num: framerate_num, den: framerate_den },
                                duration: Duration { nanos },
                            },
                        );
                        self.state = StreamerState::Playing;
                        Ok(())
                    },
                }
            },
        }
    }

    /// Begin delivery: only a playing, un-stopped session starts. Returns
    /// whether delivery is now running. The application reacts by installing
    /// its callbacks and setting the pipeline playing.
    pub fn start(&mut self) -> (running: bool)
        ensures
            final(self)@ == start_model(old(self)@),
            running == final(self)@.started,
    {
        proof {
            use_type_invariant(&*self);
        }
        if self.state == StreamerState::Playing && !self.stopped {
            self.started = true;
        }
        self.started
    }

    /// The teardown decision: delivery stops for good, whatever the state.
    /// Idempotent. The application reacts by setting the pipeline to its
    /// null state, quitting the bus watch, and closing the handoff buffer —
    /// in that order, so no callback can fire into freed shared state.
    pub fn stop(&mut self)
        ensures
            final(self)@ == stop_model(old(self)@),
    {
        proof {
            use_type_invariant(&*self);
        }
        self.started = false;
        self.stopped = true;
    }

    /// Whether delivery has been stopped. The application captures this
    /// (under its lock) as the guard for late callbacks.
    pub fn is_stopped(&self) -> (stopped: bool)
        ensures
            stopped == self@.stopped,
    {
        self.stopped
    }

    /// The session state.
    pub fn state(&self) -> (s: StreamerState)
        ensures
            s == self@.state,
    {
        self.state
    }

    /// The probed frame size, or zero by zero before the probe resolves.
    pub fn size(&self) -> (wh: (u32, u32))
        ensures
            wh == (match self@.config {
                Some(c) => (c.width, c.height),
                None => (0u32, 0u32),
            }),
    {
        match self.config {
            Some(c) => (c.width, c.height),
            None => (0, 0),
        }
    }

    /// The probed frame rate, or zero before the probe resolves.
    pub fn framerate(&self) -> (fr: Framerate)
        ensures
            fr == (match self@.config {
                Some(c) => c.framerate,
                None => (Framerate { num: 0, den: 1 }),
            }),
    {
        match self.config {
            Some(c) => c.framerate,
            None => Framerate { num: 0, den: 1 },
        }
    }

    /// The probed media duration, or zero before the probe resolves.
    pub fn duration(&self) -> (d: Duration)
        ensures
            d == (match self@.config {
                Some(c) => c.duration,
                None => (Duration { nanos: 0 }),
            }),
    {
        match self.config {
            Some(c) => c.duration,
            None => Duration { nanos: 0 },
        }
    }
}

/// What the producer callback decided for one decoded sample.
#[derive(Debug, PartialEq, Eq)]
pub enum SampleDisposition {
    /// The sample went onto the channel.
    Sent,
    /// The channel is full: here is the payload back; park and retry
    /// (backpressure).
    WouldBlock(Vec<u8>),
    /// Delivery is stopped: the late callback did nothing.
    Stopped,
    /// The sample's dimensions are unusable: the application maps this to
    /// the pipeline's flow error instead of panicking the decode thread.
    Rejected,
}

/// Producer side of the bridge: the per-sample callback body. Runs on the
/// pipeline's own delivery thread, so it never blocks and never panics: a
/// stopped session makes it a no-op, bad dimensions are reported for the
/// application to turn into a flow error, and a full channel hands the
/// payload back so the caller can apply backpressure and retry.
pub fn deliver_sample(
    stopped: bool,
    channel: &mut EventChannel,
    data: Vec<u8>,
    width: i32,
    height: i32,
) -> (d: SampleDisposition)
    ensures
        stopped ==> d == SampleDisposition::Stopped && final(channel)@ == old(channel)@,
        !stopped && (width < 0 || height < 0) ==> d == SampleDisposition::Rejected
            && final(channel)@ == old(channel)@,
        !stopped && width >= 0 && height >= 0 ==> {
            if old(channel)@.len() < old(channel).capacity() {
                &&& d == SampleDisposition::Sent
                &&& final(channel)@ == old(channel)@.push(
                    VideoMessage::NewSampleData(data, width as u32, height as u32),
                )
            } else {
                &&& d == SampleDisposition::WouldBlock(data)
                &&& final(channel)@ == old(channel)@
            }
        },
        final(channel).capacity() == old(channel).capacity(),
{
    if stopped {
        return SampleDisposition::Stopped;
    }
    if width < 0 || height < 0 {
        return SampleDisposition::Rejected;
    }
    let msg = VideoMessage::NewSampleData(data, width as u32, height as u32);
    match channel.try_send(msg) {
        Ok(()) => SampleDisposition::Sent,
        Err(back) => {
            // A refused send hands the very message back.
            match back {
                VideoMessage::NewSampleData(payload, _, _) => SampleDisposition::WouldBlock(
                    payload,
                ),
                _ => unreached(),
            }
        },
    }
}

/// A decoded sample whose payload matches its claimed dimensions, as the
/// pipeline guarantees of every sample it delivers.
pub open spec fn sample_shape_ok(data: Seq<u8>, width: i32, height: i32) -> bool {
    width >= 0 && height >= 0 && data.len() == frame_bytes(width as u32, height as u32)
}

/// Producer side of the bridge in its polling delivery mode: write the
/// decoded sample into the shared frame buffer and put a signal-only token
/// on the channel. Runs on the pipeline's delivery thread, so it never
/// blocks and never panics: a stopped session is a no-op, and a sample whose
/// payload does not match its claimed dimensions is reported for the
/// application to turn into a flow error. A refused token is dropped rather
/// than blocked on: the frame is already in the buffer, and a full channel
/// already holds a wakeup for the consumer.
pub fn deliver_frame(
    stopped: bool,
    buffer: &mut FrameBuffer,
    channel: &mut EventChannel,
    data: &Vec<u8>,
    width: i32,
    height: i32,
) -> (d: SampleDisposition)
    ensures
        stopped ==> d == SampleDisposition::Stopped && final(buffer)@ == old(buffer)@
            && final(channel)@ == old(channel)@,
        !stopped && !sample_shape_ok(data@, width, height) ==> d == SampleDisposition::Rejected
            && final(buffer)@ == old(buffer)@ && final(channel)@ == old(channel)@,
        !stopped && sample_shape_ok(data@, width, height) ==> {
            &&& d == SampleDisposition::Sent
            &&& final(buffer)@ == write_model(old(buffer)@, width as u32, height as u32, data@)
            &&& final(channel)@ == send_model(
                old(channel)@,
                old(channel).capacity(),
                VideoMessage::NewSample,
            )
        },
        final(channel).capacity() == old(channel).capacity(),
{
    if stopped {
        return SampleDisposition::Stopped;
    }
    if width < 0 || height < 0 {
        return SampleDisposition::Rejected;
    }
    let w = width as u32;
    let h = height as u32;
    assert((w as int) * (h as int) * 4 <= u128::MAX as int) by (nonlinear_arith)
        requires
            w <= u32::MAX && h <= u32::MAX,
    ;
    let expected: u128 = (w as u128) * (h as u128) * 4;
    if (data.len() as u128) != expected {
        return SampleDisposition::Rejected;
    }
    buffer.write(w, h, data);
    let _ = channel.try_send(VideoMessage::NewSample);
    SampleDisposition::Sent
}

/// The UI shell's poll period for draining the channel, in nanoseconds:
/// about five ticks per frame at the stream's rate. Yields nothing when the
/// frame rate is degenerate (no positive frames per second).
pub fn tick_interval_nanos(fr: Framerate) -> (r: Option<u64>)
    ensures
        r == (if fr.num > 0 && fr.den > 0 {
            Some((fr.den * 1_000_000_000 / (fr.num * 5)) as u64)
        } else {
            None::<u64>
        }),
{
    if fr.num > 0 && fr.den > 0 {
        let num = fr.num as u64;
        let den = fr.den as u64;
        Some(den * 1_000_000_000 / (num * 5))
    } else {
        None
    }
}

/// Law: teardown is idempotent and absorbing. Stopping twice is stopping
/// once, stopping never changes the session state, a start attempted after a
/// stop does not revive delivery, and a stopped session never delivers: its
/// stop flag stays set, which `deliver_sample` turns into a guaranteed no-op
/// (see its first `ensures` clause).
pub proof fn lemma_teardown_idempotent(v: StreamerView)
    ensures
        stop_model(stop_model(v)) == stop_model(v),
        stop_model(v).state == v.state,
        stop_model(start_model(stop_model(v))) == stop_model(v),
        start_model(stop_model(v)) == stop_model(v),
        stop_model(v).stopped && !stop_model(v).started,
{
}

} // verus!
