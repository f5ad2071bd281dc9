//! The verified parts of the capture engine: the sample adapters that turn a
//! device's interleaved frames into mono 16-bit samples, the stop protocol
//! of the capture thread, and the capture failures.
use vstd::prelude::*;
use vstd::string::*;

verus! {

/// Where frame `k` starts when frames are `channels` samples wide.
pub open spec fn frame_start(k: int, channels: nat) -> int {
    k * channels
}

/// `out` holds the first channel of each frame of `input`, whose frames are
/// `channels` samples wide (the last frame may be short), converted by `f`.
pub open spec fn first_channel_of<T, U>(
    input: Seq<T>,
    channels: nat,
    out: Seq<U>,
    f: spec_fn(T) -> U,
) -> bool {
    &&& out.len() * channels >= input.len()
    &&& forall|k: int|
        0 <= k < out.len() ==> frame_start(k, channels) < input.len() && #[trigger] out[k] == f(
            input[frame_start(k, channels)],
        )
}

/// An unsigned sample recentred on zero: the signed maximum is subtracted,
/// and the one value out of the signed range wraps around to the minimum.
pub open spec fn recentred(v: u16) -> i16 {
    if v == 65535 {
        i16::MIN
    } else {
        (v - 32767) as i16
    }
}

/// Recentres one unsigned 16-bit sample.
pub fn recentre_u16(v: u16) -> (r: i16)
    ensures
        r == recentred(v),
{
    if v == 65535 {
        i16::MIN
    } else {
        (v as i32 - 32767) as i16
    }
}

/// The signed 16-bit adapter: the first channel of each frame, unchanged.
pub fn adapt_i16_frames(input: &[i16], channels: usize) -> (r: Vec<i16>)
    requires
        channels >= 1,
    ensures
        first_channel_of(input@, channels as nat, r@, |x: i16| x),
{
    let n = input.len();
    let mut out: Vec<i16> = Vec::new();
    let mut idx: usize = 0;
    let mut more = n > 0;
    assert(out@.len() * channels == 0);
    while more
        invariant
            n == input@.len(),
            channels >= 1,
            idx <= n,
            more ==> idx < n && idx == out@.len() * channels,
            !more ==> out@.len() * channels >= n,
            out@.len() > 0 ==> (out@.len() - 1) * channels < n,
            forall|k: int|
                0 <= k < out@.len() ==> #[trigger] out@[k] == input@[frame_start(k, channels as nat)],
        decreases n - idx,
    {
        let ghost before = out@;
        out.push(input[idx]);
        proof {
            lemma_next_frame(out@.len() as int, channels as int, idx as int);
            assert forall|k: int| 0 <= k < out@.len() implies #[trigger] out@[k] == input@[frame_start(k, channels as nat)] by {
                if k < before.len() {
                    assert(out@[k] == before[k]);
                }
            }
        }
        if n - idx <= channels {
            idx = n;
            more = false;
        } else {
            idx = idx + channels;
        }
    }
    proof {
        assert forall|k: int| 0 <= k < out@.len() implies #[trigger] frame_start(k, channels as nat) < n by {
            lemma_frame_start_ordered(k, out@.len() - 1, channels as int);
        }
    }
    out
}

/// After frame `count - 1`, which starts at `idx`, the next frame starts
/// `channels` further on.
proof fn lemma_next_frame(count: int, channels: int, idx: int)
    requires
        count >= 1,
        idx == (count - 1) * channels,
    ensures
        count * channels == idx + channels,
{
    assert(count * channels == (count - 1) * channels + channels) by (nonlinear_arith);
}

/// Frames start in order.
proof fn lemma_frame_start_ordered(k: int, last: int, channels: int)
    requires
        0 <= k <= last,
        channels >= 1,
    ensures
        k * channels <= last * channels,
{
    assert(k * channels <= last * channels) by (nonlinear_arith)
        requires
            0 <= k <= last,
            channels >= 1,
    ;
}

/// The unsigned 16-bit adapter: the first channel of each frame, recentred.
pub fn adapt_u16_frames(input: &[u16], channels: usize) -> (r: Vec<i16>)
    requires
        channels >= 1,
    ensures
        first_channel_of(input@, channels as nat, r@, |x: u16| recentred(x)),
{
    let n = input.len();
    let mut out: Vec<i16> = Vec::new();
    let mut idx: usize = 0;
    let mut more = n > 0;
    assert(out@.len() * channels == 0);
    while more
        invariant
            n == input@.len(),
            channels >= 1,
            idx <= n,
            more ==> idx < n && idx == out@.len() * channels,
            !more ==> out@.len() * channels >= n,
            out@.len() > 0 ==> (out@.len() - 1) * channels < n,
            forall|k: int|
                0 <= k < out@.len() ==> #[trigger] out@[k] == recentred(input@[frame_start(k, channels as nat)]),
        decreases n - idx,
    {
        let ghost before = out@;
        let v = recentre_u16(input[idx]);
        out.push(v);
        proof {
            lemma_next_frame(out@.len() as int, channels as int, idx as int);
            assert forall|k: int| 0 <= k < out@.len() implies #[trigger] out@[k] == recentred(input@[frame_start(k, channels as nat)]) by {
                if k < before.len() {
                    assert(out@[k] == before[k]);
                }
            }
        }
        if n - idx <= channels {
            idx = n;
            more = false;
        } else {
            idx = idx + channels;
        }
    }
    proof {
        assert forall|k: int| 0 <= k < out@.len() implies #[trigger] frame_start(k, channels as nat) < n by {
            lemma_frame_start_ordered(k, out@.len() - 1, channels as int);
        }
    }
    out
}

/// Where the capture thread is in its stop protocol.
#[derive(Clone, Copy, Debug, PartialEq, Eq, Structural)]
pub enum CapturePhase {
    /// The device stream delivers frames to the encoder.
    Streaming,
    /// The stream is stopped; the encoder is still open.
    StreamStopped,
    /// The encoder is finalized; the thread is done.
    Finished,
}

/// What one bounded wait on the stop channel gave.
#[derive(Clone, Copy, Debug, PartialEq, Eq, Structural)]
pub enum PollEvent {
    /// No signal within the poll interval.
    Timeout,
    /// The stop signal arrived.
    StopSignal,
    /// The controlling side is gone: no signal can come any more.
    Disconnected,
}

/// What the capture thread does next.
#[derive(Clone, Copy, Debug, PartialEq, Eq, Structural)]
pub enum CaptureAction {
    /// Wait on the stop channel again, for at most the poll interval.
    Poll,
    /// Stop the device stream, so that no callback writes any more.
    StopStream,
    /// Take the encoder and finalize it.
    FinalizeEncoder,
    /// Nothing is left to do.
    Exit,
}

/// The stop protocol, as a transition from phase and event.
pub open spec fn capture_transition(phase: CapturePhase, event: PollEvent) -> (
    CapturePhase,
    CaptureAction,
) {
    match phase {
        CapturePhase::Streaming => match event {
            PollEvent::Timeout => (CapturePhase::Streaming, CaptureAction::Poll),
            _ => (CapturePhase::StreamStopped, CaptureAction::StopStream),
        },
        CapturePhase::StreamStopped => (CapturePhase::Finished, CaptureAction::FinalizeEncoder),
        CapturePhase::Finished => (CapturePhase::Finished, CaptureAction::Exit),
    }
}

/// One step of the stop protocol: keep polling until a stop signal (or the
/// loss of the controlling side), then stop the stream, then finalize.
pub fn capture_step(phase: CapturePhase, event: PollEvent) -> (r: (CapturePhase, CaptureAction))
    ensures
        r == capture_transition(phase, event),
        r.1 == CaptureAction::FinalizeEncoder ==> phase == CapturePhase::StreamStopped,
{
    match phase {
        CapturePhase::Streaming => match event {
            PollEvent::Timeout => (CapturePhase::Streaming, CaptureAction::Poll),
            _ => (CapturePhase::StreamStopped, CaptureAction::StopStream),
        },
        CapturePhase::StreamStopped => (CapturePhase::Finished, CaptureAction::FinalizeEncoder),
        CapturePhase::Finished => (CapturePhase::Finished, CaptureAction::Exit),
    }
}

/// The encoder is finalized only after the stream was stopped: from
/// `Streaming`, no event leads straight to finalizing.
pub proof fn lemma_finalize_follows_stream_stop(event: PollEvent)
    ensures
        capture_transition(CapturePhase::Streaming, event).1 != CaptureAction::FinalizeEncoder,
        capture_transition(CapturePhase::Streaming, event).1 == CaptureAction::StopStream
            || capture_transition(CapturePhase::Streaming, event).0 == CapturePhase::Streaming,
{
}

/// The sample format a device offers, by adapter.
#[derive(Clone, Copy, Debug, PartialEq, Eq, Structural)]
pub enum SampleKind {
    Float32,
    Int16,
    UInt16,
}

/// The short name of a sample format.
pub open spec fn sample_kind_name(k: SampleKind) -> Seq<char> {
    match k {
        SampleKind::Float32 => "f32"@,
        SampleKind::Int16 => "i16"@,
        SampleKind::UInt16 => "u16"@,
    }
}

impl SampleKind {
    /// The short name of this sample format.
    pub fn name(&self) -> (r: &'static str)
        ensures
            r@ == sample_kind_name(*self),
    {
        match *self {
            SampleKind::Float32 => "f32",
            SampleKind::Int16 => "i16",
            SampleKind::UInt16 => "u16",
        }
    }
}

/// Why a capture failed. The details carry the device or encoder's own text.
#[derive(Clone, Debug)]
pub enum CaptureFailure {
    NoInputDevice,
    InputConfig(String),
    CreateWriter(String),
    BuildStream(SampleKind, String),
    UnsupportedFormat(String),
    StartStream(String),
    Finalize(String),
    /// The capture thread panicked; no detail survives.
    ThreadPanicked,
}

/// The message reported for each capture failure.
pub open spec fn capture_failure_text(f: CaptureFailure) -> Seq<char> {
    match f {
        CaptureFailure::NoInputDevice => "no input device found"@,
        CaptureFailure::InputConfig(d) => "failed to get input config: "@ + d@,
        CaptureFailure::CreateWriter(d) => "failed to create wav writer: "@ + d@,
        CaptureFailure::BuildStream(k, d) => "failed to build "@ + sample_kind_name(k)
            + " stream: "@ + d@,
        CaptureFailure::UnsupportedFormat(d) => "unsupported sample format: "@ + d@,
        CaptureFailure::StartStream(d) => "failed to start input stream: "@ + d@,
        CaptureFailure::Finalize(d) => "failed to finalize wav: "@ + d@,
        CaptureFailure::ThreadPanicked => "recording thread panicked"@,
    }
}

impl CaptureFailure {
    /// The message reported for this failure.
    pub fn message(&self) -> (r: String)
        ensures
            r@ == capture_failure_text(*self),
    {
        match self {
            CaptureFailure::NoInputDevice => String::from_str("no input device found"),
            CaptureFailure::InputConfig(d) => String::from_str("failed to get input config: ").concat(d.as_str()),
            CaptureFailure::CreateWriter(d) => String::from_str("failed to create wav writer: ").concat(d.as_str()),
            CaptureFailure::BuildStream(k, d) => String::from_str("failed to build ").concat(
                k.name(),
            ).concat(" stream: ").concat(d.as_str()),
            CaptureFailure::UnsupportedFormat(d) => String::from_str("unsupported sample format: ").concat(d.as_str()),
            CaptureFailure::StartStream(d) => String::from_str("failed to start input stream: ").concat(d.as_str()),
            CaptureFailure::Finalize(d) => String::from_str("failed to finalize wav: ").concat(d.as_str()),
            CaptureFailure::ThreadPanicked => String::from_str("recording thread panicked"),
        }
    }
}

} // verus!
