use session_recorder::capture::{
    adapt_i16_frames, adapt_u16_frames, capture_step, recentre_u16, CaptureAction,
    CaptureFailure, CapturePhase, PollEvent, SampleKind,
};

#[test]
fn i16_adapter_takes_first_channel() {
    assert_eq!(adapt_i16_frames(&[1, 2, 3, 4, 5, 6], 2), vec![1, 3, 5]);
    assert_eq!(adapt_i16_frames(&[1, 2, 3, 4, 5], 2), vec![1, 3, 5]);
    assert_eq!(adapt_i16_frames(&[9, 8, 7], 1), vec![9, 8, 7]);
    assert_eq!(adapt_i16_frames(&[9, 8], 6), vec![9]);
    assert_eq!(adapt_i16_frames(&[], 3), Vec::<i16>::new());
}

#[test]
fn u16_adapter_recentres_first_channel() {
    assert_eq!(adapt_u16_frames(&[32767, 0, 65534, 5, 0], 2), vec![0, 32767, -32767]);
    assert_eq!(adapt_u16_frames(&[], 1), Vec::<i16>::new());
}

#[test]
fn recentre_edges() {
    assert_eq!(recentre_u16(0), -32767);
    assert_eq!(recentre_u16(32767), 0);
    assert_eq!(recentre_u16(65534), 32767);
    assert_eq!(recentre_u16(65535), i16::MIN);
    for v in [0u16, 1, 100, 32767, 32768, 65534, 65535] {
        assert_eq!(recentre_u16(v), (v as i32 - i16::MAX as i32) as i16);
    }
}

#[test]
fn stop_protocol_stops_stream_before_finalizing() {
    let mut phase = CapturePhase::Streaming;
    let mut actions = Vec::new();
    for event in [PollEvent::Timeout, PollEvent::Timeout, PollEvent::StopSignal, PollEvent::Timeout, PollEvent::Timeout] {
        let (next, action) = capture_step(phase, event);
        phase = next;
        actions.push(action);
    }
    assert_eq!(
        actions,
        vec![
            CaptureAction::Poll,
            CaptureAction::Poll,
            CaptureAction::StopStream,
            CaptureAction::FinalizeEncoder,
            CaptureAction::Exit
        ]
    );
    assert_eq!(phase, CapturePhase::Finished);
    assert_eq!(
        capture_step(CapturePhase::Streaming, PollEvent::Disconnected),
        (CapturePhase::StreamStopped, CaptureAction::StopStream)
    );
}

#[test]
fn capture_failure_messages() {
    assert_eq!(CaptureFailure::NoInputDevice.message(), "no input device found");
    assert_eq!(
        CaptureFailure::BuildStream(SampleKind::UInt16, "busy".to_string()).message(),
        "failed to build u16 stream: busy"
    );
    assert_eq!(
        CaptureFailure::UnsupportedFormat("I8".to_string()).message(),
        "unsupported sample format: I8"
    );
    assert_eq!(CaptureFailure::Finalize("disk".to_string()).message(), "failed to finalize wav: disk");
    assert_eq!(CaptureFailure::StartStream("x".to_string()).message(), "failed to start input stream: x");
    assert_eq!(CaptureFailure::InputConfig("y".to_string()).message(), "failed to get input config: y");
    assert_eq!(CaptureFailure::CreateWriter("z".to_string()).message(), "failed to create wav writer: z");
    assert_eq!(CaptureFailure::ThreadPanicked.message(), "recording thread panicked");
    assert_eq!(SampleKind::Float32.name(), "f32");
    assert_eq!(SampleKind::Int16.name(), "i16");
}
