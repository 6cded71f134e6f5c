use mediaplayer::decode::{
    frame_count, CodecParameters, DecodeLoop, DecoderBuilder, DecoderSplit, DropDrain, Flow,
    FrameRoute, PixelFormat, ReceiveOutcome, MAX_DRAIN_ITERATIONS,
};
use mediaplayer::error::Error;
use mediaplayer::resize::Resize;
use mediaplayer::source::{HardwareAccelerationDeviceType, Location, Options};
use mediaplayer::time::{Rational, Time};

const YUV420P: PixelFormat = PixelFormat::Other(0);
const VAAPI_SURFACE: PixelFormat = PixelFormat::Other(44);

fn params(format: PixelFormat, width: u32, height: u32) -> CodecParameters {
    CodecParameters { format, width, height }
}

fn tb() -> Rational {
    Rational::new(1, 90000)
}

#[test]
fn builder_starts_without_settings() {
    let b = DecoderBuilder::new(Location::from_path("file.mp4".to_string()));
    assert!(b.options.is_none());
    assert!(b.resize.is_none());
    assert!(b.hardware_acceleration_device_type.is_none());
    assert!(!b.source.is_network());
}

#[test]
fn builder_records_each_setting() {
    let mut options = Options::new();
    options.set("rtsp_transport".to_string(), "tcp".to_string());
    let b = DecoderBuilder::new(Location::from_path("file.mp4".to_string()))
        .with_options(&options)
        .with_resize(Resize::Fit(640, 360))
        .with_hardware_acceleration(HardwareAccelerationDeviceType::VaApi);
    assert_eq!(b.options.unwrap().len(), 1);
    assert_eq!(b.options.unwrap().entry(0).0, "rtsp_transport");
    assert_eq!(b.resize, Some(Resize::Fit(640, 360)));
    assert_eq!(b.hardware_acceleration_device_type, Some(HardwareAccelerationDeviceType::VaApi));
}

#[test]
fn network_location() {
    let url = url::Url::parse("rtsp://example.com/stream").unwrap();
    assert!(Location::from_url(url).is_network());
}

#[test]
fn fit_720p_into_360p() {
    assert_eq!(Resize::Fit(640, 360).compute_for((1280, 720)), Some((640, 360)));
    let d = DecoderSplit::new(params(YUV420P, 1280, 720), tb(), Some(Resize::Fit(640, 360)), None)
        .unwrap();
    assert_eq!(d.size(), (1280, 720));
    assert_eq!(d.size_out(), (640, 360));
    let s = d.scaler().unwrap();
    assert_eq!(s.output_size, (640, 360));
    assert_eq!(s.output_format, PixelFormat::Rgb24);
    assert_eq!(s.input_format, YUV420P);
    // every frame handed out is 360 rows of 640 RGB pixels
    let route = d.receive_frame_from_decoder(ReceiveOutcome::Frame(YUV420P)).unwrap().unwrap();
    assert_eq!(route.format, PixelFormat::Rgb24);
}

#[test]
fn fit_keeps_frames_that_fit() {
    assert_eq!(Resize::Fit(1920, 1080).compute_for((1280, 720)), Some((1280, 720)));
}

#[test]
fn fit_rounds_the_other_side_down() {
    assert_eq!(Resize::Fit(100, 100).compute_for((300, 200)), Some((100, 66)));
    assert_eq!(Resize::Fit(100, 100).compute_for((200, 300)), Some((66, 100)));
}

#[test]
fn fit_into_nothing_is_invalid() {
    assert_eq!(Resize::Fit(0, 360).compute_for((1280, 720)), None);
    assert_eq!(Resize::Fit(1, 1).compute_for((1000, 1)), None);
    assert_eq!(
        DecoderSplit::new(params(YUV420P, 1280, 720), tb(), Some(Resize::Fit(0, 0)), None).err(),
        Some(Error::InvalidResizeParameters)
    );
}

#[test]
fn exact_resize() {
    assert_eq!(Resize::Exact(320, 240).compute_for((1280, 720)), Some((320, 240)));
    assert_eq!(Resize::Exact(0, 240).compute_for((1280, 720)), None);
}

#[test]
fn no_resize_keeps_size() {
    let d = DecoderSplit::new(params(YUV420P, 1280, 720), tb(), None, None).unwrap();
    assert_eq!(d.size_out(), d.size());
    assert_eq!(d.time_base(), tb());
    assert!(!d.is_draining());
}

#[test]
fn missing_codec_parameters() {
    for p in [
        params(PixelFormat::Unknown, 1280, 720),
        params(YUV420P, 0, 720),
        params(YUV420P, 1280, 0),
    ] {
        assert_eq!(
            DecoderSplit::new(p, tb(), Some(Resize::Fit(640, 360)), None).err(),
            Some(Error::MissingCodecParameters)
        );
    }
}

#[test]
fn no_scaler_for_rgb24_at_output_size() {
    let d = DecoderSplit::new(params(PixelFormat::Rgb24, 640, 360), tb(), None, None).unwrap();
    assert!(d.scaler().is_none());
    let route = d.receive_frame_from_decoder(ReceiveOutcome::Frame(PixelFormat::Rgb24));
    assert_eq!(
        route,
        Ok(Some(FrameRoute { download: false, rescale: false, format: PixelFormat::Rgb24 }))
    );
}

#[test]
fn scaler_for_rgb24_at_other_size() {
    let d = DecoderSplit::new(
        params(PixelFormat::Rgb24, 1280, 720),
        tb(),
        Some(Resize::Exact(640, 360)),
        None,
    )
    .unwrap();
    assert!(d.scaler().is_some());
}

#[test]
fn hardware_frames_are_downloaded_and_scaled() {
    let d = DecoderSplit::new(params(YUV420P, 1280, 720), tb(), None, Some(VAAPI_SURFACE)).unwrap();
    let s = d.scaler().unwrap();
    assert_eq!(s.input_format, PixelFormat::Nv12);
    assert_eq!(s.output_format, PixelFormat::Rgb24);
    let hw = d.receive_frame_from_decoder(ReceiveOutcome::Frame(VAAPI_SURFACE));
    assert_eq!(
        hw,
        Ok(Some(FrameRoute { download: true, rescale: true, format: PixelFormat::Rgb24 }))
    );
    let sw = d.receive_frame_from_decoder(ReceiveOutcome::Frame(YUV420P));
    assert_eq!(
        sw,
        Ok(Some(FrameRoute { download: false, rescale: true, format: PixelFormat::Rgb24 }))
    );
}

#[test]
fn hardware_path_with_rgb24_stream_still_scales() {
    let d = DecoderSplit::new(params(PixelFormat::Rgb24, 640, 360), tb(), None, Some(VAAPI_SURFACE))
        .unwrap();
    assert!(d.scaler().is_some());
}

#[test]
fn receive_outcomes() {
    let d = DecoderSplit::new(params(YUV420P, 1280, 720), tb(), None, None).unwrap();
    assert_eq!(d.receive_frame_from_decoder(ReceiveOutcome::Again), Ok(None));
    assert_eq!(
        d.receive_frame_from_decoder(ReceiveOutcome::EndOfStream),
        Err(Error::ReadExhausted)
    );
    assert_eq!(
        d.receive_frame_from_decoder(ReceiveOutcome::Failed(-22)),
        Err(Error::BackendError(-22))
    );
}

#[test]
fn submit_errors_are_backend_errors() {
    let d = DecoderSplit::new(params(YUV420P, 1280, 720), tb(), None, None).unwrap();
    assert_eq!(d.decode_raw(Ok(())), Ok(()));
    assert_eq!(d.decode_raw(Err(-12)), Err(Error::BackendError(-12)));
}

#[test]
fn draining_starts_once_eof_is_accepted() {
    let mut d = DecoderSplit::new(params(YUV420P, 1280, 720), tb(), None, None).unwrap();
    assert!(d.eof_pending());
    assert_eq!(d.drain_raw(Err(-5)), Err(Error::BackendError(-5)));
    assert!(!d.is_draining());
    assert!(d.eof_pending());
    assert_eq!(d.drain_raw(Ok(())), Ok(()));
    assert!(d.is_draining());
    assert!(!d.eof_pending());
}

#[test]
fn frame_time_is_the_packet_dts() {
    let d = DecoderSplit::new(params(YUV420P, 1280, 720), tb(), None, None).unwrap();
    assert_eq!(d.frame_time(Some(3003)), Time::new(Some(3003), tb()));
    assert_eq!(d.frame_time(None).time(), None);
}

/// A scripted run of the pull loop: three packets, of which the second
/// gives no frame yet, then the end of input and two frames from draining.
#[test]
fn pull_loop_ends_with_decode_exhausted() {
    let mut reads: Vec<Result<u32, Error>> = vec![Ok(1), Ok(2), Ok(3), Err(Error::ReadExhausted)];
    let mut decodes: Vec<Result<Option<u32>, Error>> = vec![Ok(Some(10)), Ok(None), Ok(Some(30))];
    let mut drains: Vec<Result<Option<u32>, Error>> =
        vec![Ok(Some(40)), Ok(Some(50)), Err(Error::ReadExhausted)];
    reads.reverse();
    decodes.reverse();
    drains.reverse();
    let mut state = DecodeLoop::new();
    let mut frames = Vec::new();
    let end = loop {
        let flow = if !state.is_draining() {
            match state.after_read(reads.pop().unwrap()) {
                Flow::Yield(_packet) => state.after_decode(decodes.pop().unwrap()),
                Flow::Continue => Flow::Continue,
                Flow::Stop(e) => Flow::Stop(e),
            }
        } else {
            state.after_drain(drains.pop().unwrap())
        };
        match flow {
            Flow::Yield(f) => frames.push(f),
            Flow::Continue => {}
            Flow::Stop(e) => break e,
        }
    };
    assert_eq!(frames, vec![10, 30, 40, 50]);
    assert_eq!(end, Error::DecodeExhausted);
}

#[test]
fn pull_loop_passes_read_errors_on() {
    let mut state = DecodeLoop::new();
    assert_eq!(state.after_read::<u32>(Err(Error::StreamNotFound)), Flow::Stop(Error::StreamNotFound));
    assert!(!state.is_draining());
    assert_eq!(state.after_read::<u32>(Err(Error::ReadExhausted)), Flow::Continue);
    assert!(state.is_draining());
}

#[test]
fn pull_loop_drain_outcomes() {
    let state = DecodeLoop::new();
    assert_eq!(state.after_drain::<u32>(Ok(None)), Flow::Stop(Error::DecodeExhausted));
    assert_eq!(state.after_drain::<u32>(Err(Error::BackendError(-1))), Flow::Stop(Error::BackendError(-1)));
    assert_eq!(state.after_decode::<u32>(Err(Error::BackendError(-2))), Flow::Stop(Error::BackendError(-2)));
}

#[test]
fn seek_flushes_only_on_success() {
    let state = DecodeLoop::new();
    assert!(state.after_seek(Ok(())));
    assert!(!state.after_seek(Err(Error::BackendError(-1))));
}

const FRAME: ReceiveOutcome = ReceiveOutcome::Frame(PixelFormat::Other(0));

fn drop_drain_calls(eof_sent: bool, outcomes: &[ReceiveOutcome]) -> usize {
    let mut d = DropDrain::new(eof_sent);
    let mut calls = 0;
    while d.should_receive() {
        d.record(outcomes.get(calls).copied().unwrap_or(FRAME));
        calls += 1;
    }
    calls
}

#[test]
fn drop_drain_stops_at_the_limit() {
    assert_eq!(drop_drain_calls(true, &[]), MAX_DRAIN_ITERATIONS as usize);
    assert_eq!(MAX_DRAIN_ITERATIONS, 100);
}

#[test]
fn drop_drain_stops_at_the_first_error() {
    assert_eq!(drop_drain_calls(true, &[FRAME, FRAME, ReceiveOutcome::Failed(-22), FRAME]), 3);
    assert_eq!(drop_drain_calls(true, &[ReceiveOutcome::EndOfStream]), 1);
}

#[test]
fn drop_drain_goes_on_past_again() {
    let again = ReceiveOutcome::Again;
    assert_eq!(drop_drain_calls(true, &[again, FRAME, again, ReceiveOutcome::EndOfStream]), 4);
    assert_eq!(drop_drain_calls(true, &[again; 200]), 100);
}

#[test]
fn drop_drain_needs_the_end_of_input() {
    assert_eq!(drop_drain_calls(false, &[FRAME, FRAME]), 0);
}

#[test]
fn frame_count_of_unknown_is_zero() {
    assert_eq!(frame_count(-1), 0);
    assert_eq!(frame_count(0), 0);
    assert_eq!(frame_count(150), 150);
}

#[test]
fn error_messages() {
    assert_eq!(Error::DecodeExhausted.message(), "decode exhausted");
    assert_eq!(Error::InvalidResizeParameters.message(), "cannot resize frame into provided dimensions");
    assert_eq!(Error::BackendError(-1).message(), "backend error");
}

#[test]
fn time_bases_must_be_positive() {
    assert!(Rational::new(1, 30).is_valid());
    assert!(!Rational::new(0, 1).is_valid());
    assert!(!Rational::new(1, 0).is_valid());
    assert!(!Rational::new(-1, 30).is_valid());
    let t = Time::new(Some(5), Rational::new(1, 1000));
    assert_eq!(t.time(), Some(5));
    assert_eq!(t.time_base(), Rational::new(1, 1000));
}
