use vstd::prelude::*;

use crate::error::Error;
use crate::resize::Resize;
use crate::source::{HardwareAccelerationDeviceType, Location, Options};
use crate::time::{Rational, Time};

verus! {

/// The pixel formats that the decoding logic tells apart. Any other format
/// is carried by its backend code.
#[derive(Clone, Copy, Debug, PartialEq, Eq, Structural)]
pub enum PixelFormat {
    /// No format: the stream's parameters did not give one.
    Unknown,
    /// Packed 8-bit RGB, the format frames are handed out in.
    Rgb24,
    /// Semi-planar YUV 4:2:0, the format hardware surfaces are downloaded to.
    Nv12,
    /// Any other format, by its backend code.
    Other(i32),
}

/// The format in which decoded frames are handed out.
pub open spec fn frame_pixel_format() -> PixelFormat {
    PixelFormat::Rgb24
}

/// The format hardware surfaces are downloaded to before scaling.
pub open spec fn hwaccel_pixel_format() -> PixelFormat {
    PixelFormat::Nv12
}

/// What the stream's codec parameters say of its frames.
#[derive(Clone, Copy, Debug, PartialEq, Eq, Structural)]
pub struct CodecParameters {
    pub format: PixelFormat,
    pub width: u32,
    pub height: u32,
}

/// How the scaler is to be set up: it turns frames of the input format and
/// size into frames of the output format and size, with area filtering.
#[derive(Clone, Copy, Debug)]
pub struct ScalerConfig {
    pub input_format: PixelFormat,
    pub input_size: (u32, u32),
    pub output_format: PixelFormat,
    pub output_size: (u32, u32),
}

/// Builds a [`DecoderSplit`] plan from a source and optional settings.
pub struct DecoderBuilder<'a> {
    pub source: Location,
    pub options: Option<&'a Options>,
    pub resize: Option<Resize>,
    pub hardware_acceleration_device_type: Option<HardwareAccelerationDeviceType>,
}

impl<'a> DecoderBuilder<'a> {
    /// A builder for `source` with no options, no resizing and no hardware
    /// acceleration.
    pub fn new(source: Location) -> (r: DecoderBuilder<'a>)
        ensures
            r.source == source,
            r.options.is_none(),
            r.resize.is_none(),
            r.hardware_acceleration_device_type.is_none(),
    {
        DecoderBuilder {
            source,
            options: None,
            resize: None,
            hardware_acceleration_device_type: None,
        }
    }

    /// Sets the options used when the input is opened.
    pub fn with_options(self, options: &'a Options) -> (r: DecoderBuilder<'a>)
        ensures
            r.source == self.source,
            r.options == Some(options),
            r.resize == self.resize,
            r.hardware_acceleration_device_type == self.hardware_acceleration_device_type,
    {
        DecoderBuilder { options: Some(options), ..self }
    }

    /// Sets how frames are resized.
    pub fn with_resize(self, resize: Resize) -> (r: DecoderBuilder<'a>)
        ensures
            r.source == self.source,
            r.options == self.options,
            r.resize == Some(resize),
            r.hardware_acceleration_device_type == self.hardware_acceleration_device_type,
    {
        DecoderBuilder { resize: Some(resize), ..self }
    }

    /// Asks for decoding on a hardware device of the given type.
    pub fn with_hardware_acceleration(self, device_type: HardwareAccelerationDeviceType) -> (r:
        DecoderBuilder<'a>)
        ensures
            r.source == self.source,
            r.options == self.options,
            r.resize == self.resize,
            r.hardware_acceleration_device_type == Some(device_type),
    {
        DecoderBuilder { hardware_acceleration_device_type: Some(device_type), ..self }
    }
}

/// What a [`DecoderSplit`] is, as seen from outside.
pub struct DecoderModel {
    pub time_base: Rational,
    /// The surface format of the attached hardware context, if one is.
    pub hwaccel_format: Option<PixelFormat>,
    pub scaler: Option<ScalerConfig>,
    pub size: (u32, u32),
    pub size_out: (u32, u32),
    pub draining: bool,
}

/// The output size for a stream of size `size`: the resize policy's, or the
/// input size when there is none.
pub open spec fn resolved_size_out(size: (u32, u32), resize: Option<Resize>) -> Option<(u32, u32)> {
    match resize {
        Some(r) => r.spec_compute_for(size),
        None => Some(size),
    }
}

/// The scaler a decoder needs: none when frames already come in the output
/// format and size, else one from the format frames reach it in (the
/// download format when a hardware context is attached) to the output format
/// and size.
pub open spec fn needed_scaler(
    params: CodecParameters,
    hwaccel: bool,
    size_out: (u32, u32),
) -> Option<ScalerConfig> {
    let input_format = if hwaccel {
        hwaccel_pixel_format()
    } else {
        params.format
    };
    if input_format == frame_pixel_format() && params.width == size_out.0 && params.height
        == size_out.1 {
        None
    } else {
        Some(
            ScalerConfig {
                input_format,
                input_size: (params.width, params.height),
                output_format: frame_pixel_format(),
                output_size: size_out,
            },
        )
    }
}

/// Codec parameters that give a format and a non-empty frame size.
pub open spec fn parameters_complete(params: CodecParameters) -> bool {
    params.format != PixelFormat::Unknown && params.width > 0 && params.height > 0
}

/// The decoder that `DecoderSplit::new` sets up, or the error it reports.
pub open spec fn planned_decoder(
    params: CodecParameters,
    time_base: Rational,
    resize: Option<Resize>,
    hwaccel_format: Option<PixelFormat>,
) -> Result<DecoderModel, Error> {
    if !parameters_complete(params) {
        Err(Error::MissingCodecParameters)
    } else {
        match resolved_size_out((params.width, params.height), resize) {
            None => Err(Error::InvalidResizeParameters),
            Some(size_out) => Ok(
                DecoderModel {
                    time_base,
                    hwaccel_format,
                    scaler: needed_scaler(params, hwaccel_format.is_some(), size_out),
                    size: (params.width, params.height),
                    size_out,
                    draining: false,
                },
            ),
        }
    }
}

/// What the decoder answered when asked for a frame.
#[derive(Clone, Copy, Debug, PartialEq, Eq, Structural)]
pub enum ReceiveOutcome {
    /// A frame, in the given format.
    Frame(PixelFormat),
    /// No frame yet: more input is needed.
    Again,
    /// The decoder has handed out its last frame.
    EndOfStream,
    /// Any other error, by its backend code.
    Failed(i32),
}

/// What is done to a decoded frame before it is handed out.
#[derive(Clone, Copy, Debug, PartialEq, Eq, Structural)]
pub struct FrameRoute {
    /// Transfer the frame from the hardware surface to system memory.
    pub download: bool,
    /// Run the scaler on the frame.
    pub rescale: bool,
    /// The format of the frame that is handed out.
    pub format: PixelFormat,
}

/// The route of a frame of format `format` through a decoder: it is
/// downloaded when its format is the hardware surface format, then scaled
/// when the decoder has a scaler, which leaves it in the scaler's output
/// format.
pub open spec fn frame_route(d: DecoderModel, format: PixelFormat) -> FrameRoute {
    let download = d.hwaccel_format == Some(format);
    let downloaded = if download {
        hwaccel_pixel_format()
    } else {
        format
    };
    match d.scaler {
        Some(s) => FrameRoute { download, rescale: true, format: s.output_format },
        None => FrameRoute { download, rescale: false, format: downloaded },
    }
}

/// How a decoder's answer is reported: a frame with its route, nothing yet,
/// or an error.
pub open spec fn received(d: DecoderModel, outcome: ReceiveOutcome) -> Result<
    Option<FrameRoute>,
    Error,
> {
    match outcome {
        ReceiveOutcome::Frame(format) => Ok(Some(frame_route(d, format))),
        ReceiveOutcome::Again => Ok(None),
        ReceiveOutcome::EndOfStream => Err(Error::ReadExhausted),
        ReceiveOutcome::Failed(code) => Err(Error::BackendError(code)),
    }
}

/// The packet-in / frame-out protocol of one decoder: how it was set up
/// and whether it has been told that the input has ended.
pub struct DecoderSplit {
    time_base: Rational,
    hwaccel_format: Option<PixelFormat>,
    scaler: Option<ScalerConfig>,
    size: (u32, u32),
    size_out: (u32, u32),
    draining: bool,
}

impl View for DecoderSplit {
    type V = DecoderModel;

    closed spec fn view(&self) -> DecoderModel {
        DecoderModel {
            time_base: self.time_base,
            hwaccel_format: self.hwaccel_format,
            scaler: self.scaler,
            size: self.size,
            size_out: self.size_out,
            draining: self.draining,
        }
    }
}

impl DecoderSplit {
    /// Sets up the decoding of a stream with the given codec parameters and
    /// time base. `hwaccel_format` is the surface format of the hardware
    /// context attached to the decoder, if one is.
    pub fn new(
        params: CodecParameters,
        time_base: Rational,
        resize: Option<Resize>,
        hwaccel_format: Option<PixelFormat>,
    ) -> (r: Result<DecoderSplit, Error>)
        ensures
            match (r, planned_decoder(params, time_base, resize, hwaccel_format)) {
                (Ok(d), Ok(m)) => d@ == m,
                (Err(e), Err(f)) => e == f,
                _ => false,
            },
    {
        if params.format == PixelFormat::Unknown || params.width == 0 || params.height == 0 {
            return Err(Error::MissingCodecParameters);
        }
        let size: (u32, u32) = (params.width, params.height);
        let size_out: (u32, u32) = match resize {
            Some(r) => match r.compute_for(size) {
                Some(s) => s,
                None => {
                    return Err(Error::InvalidResizeParameters);
                },
            },
            None => size,
        };
        let input_format = if hwaccel_format.is_some() {
            PixelFormat::Nv12
        } else {
            params.format
        };
        let scaler_needed = !(input_format == PixelFormat::Rgb24 && size.0 == size_out.0 && size.1
            == size_out.1);
        let scaler = if scaler_needed {
            Some(
                ScalerConfig {
                    input_format,
                    input_size: size,
                    output_format: PixelFormat::Rgb24,
                    output_size: size_out,
                },
            )
        } else {
            None
        };
        Ok(DecoderSplit { time_base, hwaccel_format, scaler, size, size_out, draining: false })
    }

    pub fn time_base(&self) -> (r: Rational)
        ensures
            r == self@.time_base,
    {
        self.time_base
    }

    /// The input frame size: width and height.
    pub fn size(&self) -> (r: (u32, u32))
        ensures
            r == self@.size,
    {
        self.size
    }

    /// The size of the frames handed out, after resizing.
    pub fn size_out(&self) -> (r: (u32, u32))
        ensures
            r == self@.size_out,
    {
        self.size_out
    }

    /// The scaler that frames pass through, if any.
    pub fn scaler(&self) -> (r: Option<ScalerConfig>)
        ensures
            r == self@.scaler,
    {
        self.scaler
    }

    pub fn is_draining(&self) -> (r: bool)
        ensures
            r == self@.draining,
    {
        self.draining
    }

    /// The timestamp of a decoded frame: the decode timestamp of the packet
    /// it came from, which is where the producing encoder put the
    /// presentation time, in the decoder's time base.
    pub fn frame_time(&self, packet_dts: Option<i64>) -> (r: Time)
        ensures
            r == Time::new_spec(packet_dts, self@.time_base),
    {
        Time::new(packet_dts, self.time_base)
    }

    /// Reports how submitting a packet went. Packets may only be submitted
    /// before draining has begun.
    pub fn decode_raw(&self, sent: Result<(), i32>) -> (r: Result<(), Error>)
        requires
            !self@.draining,
        ensures
            match sent {
                Ok(()) => r == Ok::<(), Error>(()),
                Err(code) => r == Err::<(), Error>(Error::BackendError(code)),
            },
    {
        match sent {
            Ok(()) => Ok(()),
            Err(code) => Err(Error::BackendError(code)),
        }
    }

    /// Whether the end of input still has to be submitted before frames can
    /// be drained.
    pub fn eof_pending(&self) -> (r: bool)
        ensures
            r == !self@.draining,
    {
        !self.draining
    }

    /// Records how submitting the end of input went: once it has been
    /// accepted the decoder is draining, and stays so.
    pub fn drain_raw(&mut self, eof_sent: Result<(), i32>) -> (r: Result<(), Error>)
        requires
            !old(self)@.draining,
        ensures
            final(self)@ == (DecoderModel { draining: eof_sent is Ok, ..old(self)@ }),
            match eof_sent {
                Ok(()) => r == Ok::<(), Error>(()),
                Err(code) => r == Err::<(), Error>(Error::BackendError(code)),
            },
    {
        match eof_sent {
            Ok(()) => {
                self.draining = true;
                Ok(())
            },
            Err(code) => Err(Error::BackendError(code)),
        }
    }

    /// What to make of the decoder's answer to a request for a frame: a
    /// frame and the steps it takes before it is handed out, no frame yet,
    /// the end of the decoder's output, or a backend error.
    pub fn receive_frame_from_decoder(&self, outcome: ReceiveOutcome) -> (r: Result<
        Option<FrameRoute>,
        Error,
    >)
        ensures
            r == received(self@, outcome),
    {
        match outcome {
            ReceiveOutcome::Frame(format) => {
                let download = match self.hwaccel_format {
                    Some(hw) => hw == format,
                    None => false,
                };
                let downloaded = if download {
                    PixelFormat::Nv12
                } else {
                    format
                };
                let route = match self.scaler {
                    Some(s) => FrameRoute { download, rescale: true, format: s.output_format },
                    None => FrameRoute { download, rescale: false, format: downloaded },
                };
                Ok(Some(route))
            },
            ReceiveOutcome::Again => Ok(None),
            ReceiveOutcome::EndOfStream => Err(Error::ReadExhausted),
            ReceiveOutcome::Failed(code) => Err(Error::BackendError(code)),
        }
    }
}

/// Without a resize policy frames keep their size; with one, they take the
/// size the policy computes for the input size.
pub proof fn lemma_size_out_follows_resize(
    params: CodecParameters,
    time_base: Rational,
    resize: Option<Resize>,
    hwaccel_format: Option<PixelFormat>,
)
    requires
        planned_decoder(params, time_base, resize, hwaccel_format) is Ok,
    ensures
        ({
            let d = planned_decoder(params, time_base, resize, hwaccel_format)->Ok_0;
            &&& resize is None ==> d.size_out == d.size
            &&& resize matches Some(r) ==> r.spec_compute_for(d.size) == Some(d.size_out)
        }),
{
}

/// With a hardware context attached, every frame handed out has been
/// scaled from the download format into the output format at the output
/// size, so none is left as a hardware surface; a frame in the surface
/// format is downloaded first. (A hardware surface format is never the
/// output format.)
pub proof fn lemma_hwaccel_frames_leave_in_output_format(
    params: CodecParameters,
    time_base: Rational,
    resize: Option<Resize>,
    surface_format: PixelFormat,
    format: PixelFormat,
)
    requires
        planned_decoder(params, time_base, resize, Some(surface_format)) is Ok,
        surface_format != frame_pixel_format(),
    ensures
        ({
            let d = planned_decoder(params, time_base, resize, Some(surface_format))->Ok_0;
            let route = frame_route(d, format);
            &&& d.scaler matches Some(sc) && sc.input_format == hwaccel_pixel_format()
                && sc.output_size == d.size_out
            &&& route.rescale
            &&& route.format == frame_pixel_format()
            &&& route.format != surface_format
            &&& (format == surface_format <==> route.download)
        }),
{
}

/// The next step of a pull loop.
#[derive(Clone, Copy, Debug, PartialEq, Eq, Structural)]
pub enum Flow<T> {
    /// A value is ready: a packet to decode, or a frame to hand out.
    Yield(T),
    /// Go round the loop again.
    Continue,
    /// The loop ends with this error.
    Stop(Error),
}

/// The pull loop that reads packets of one stream, decodes them, and once
/// the input is exhausted drains the decoder.
pub struct DecodeLoop {
    draining: bool,
}

impl View for DecodeLoop {
    type V = bool;

    /// Whether the input is exhausted and the loop drains the decoder.
    closed spec fn view(&self) -> bool {
        self.draining
    }
}

impl DecodeLoop {
    pub fn new() -> (r: DecodeLoop)
        ensures
            !r@,
    {
        DecodeLoop { draining: false }
    }

    /// Whether the next frame comes from draining rather than from a new
    /// packet.
    pub fn is_draining(&self) -> (r: bool)
        ensures
            r == self@,
    {
        self.draining
    }

    /// What to do after reading a packet: decode it, switch to draining
    /// when the input is exhausted, or stop on any other error.
    pub fn after_read<P>(&mut self, read: Result<P, Error>) -> (r: Flow<P>)
        requires
            !old(self)@,
        ensures
            match read {
                Ok(p) => r == Flow::Yield(p) && !final(self)@,
                Err(Error::ReadExhausted) => r == Flow::<P>::Continue && final(self)@,
                Err(e) => r == Flow::<P>::Stop(e) && !final(self)@,
            },
    {
        match read {
            Ok(p) => Flow::Yield(p),
            Err(Error::ReadExhausted) => {
                self.draining = true;
                Flow::Continue
            },
            Err(e) => Flow::Stop(e),
        }
    }

    /// Whether the decoder is to be flushed after the reader was asked to
    /// seek: exactly when the seek succeeded. A loop that is draining may
    /// not seek.
    pub fn after_seek(&self, sought: Result<(), Error>) -> (r: bool)
        requires
            !self@,
        ensures
            r == sought is Ok,
    {
        sought.is_ok()
    }

    /// What to do after decoding a packet: hand out the frame, read another
    /// packet when none came, or stop on an error.
    pub fn after_decode<F>(&self, decoded: Result<Option<F>, Error>) -> (r: Flow<F>)
        ensures
            match decoded {
                Ok(Some(f)) => r == Flow::Yield(f),
                Ok(None) => r == Flow::<F>::Continue,
                Err(e) => r == Flow::<F>::Stop(e),
            },
    {
        match decoded {
            Ok(Some(f)) => Flow::Yield(f),
            Ok(None) => Flow::Continue,
            Err(e) => Flow::Stop(e),
        }
    }

    /// What to do after draining: hand out the frame, or stop. A decoder
    /// that has nothing left, or has reached its end, ends the loop with
    /// `DecodeExhausted`.
    pub fn after_drain<F>(&self, drained: Result<Option<F>, Error>) -> (r: Flow<F>)
        ensures
            match drained {
                Ok(Some(f)) => r == Flow::Yield(f),
                Ok(None) => r == Flow::<F>::Stop(Error::DecodeExhausted),
                Err(Error::ReadExhausted) => r == Flow::<F>::Stop(Error::DecodeExhausted),
                Err(e) => r == Flow::<F>::Stop(e),
            },
    {
        match drained {
            Ok(Some(f)) => Flow::Yield(f),
            Ok(None) => Flow::Stop(Error::DecodeExhausted),
            Err(Error::ReadExhausted) => Flow::Stop(Error::DecodeExhausted),
            Err(e) => Flow::Stop(e),
        }
    }
}

/// The number of frames in a stream, where the container reports an
/// unknown count as a negative number: that counts as zero.
pub fn frame_count(reported: i64) -> (r: u64)
    ensures
        r == if reported < 0 {
            0
        } else {
            reported as int
        },
{
    if reported < 0 {
        0
    } else {
        reported as u64
    }
}

/// How many frames a decoder that is dropped is asked for at most, to
/// empty its queue before it is freed.
pub const MAX_DRAIN_ITERATIONS: u32 = 100;

/// Where the emptying of a dropped decoder stands.
pub struct DrainModel {
    /// Frames asked for so far.
    pub attempts: nat,
    /// The decoder refused the end of input, or answered with an error.
    pub stopped: bool,
}

/// Whether an answer of the decoder ends the emptying: its end, or an
/// error. A frame, or a request for more input, lets it go on.
pub open spec fn drain_ends_on(outcome: ReceiveOutcome) -> bool {
    outcome is EndOfStream || outcome is Failed
}

/// The state after one more answer of the decoder.
pub open spec fn drain_record(d: DrainModel, outcome: ReceiveOutcome) -> DrainModel {
    DrainModel { attempts: d.attempts + 1, stopped: drain_ends_on(outcome) }
}

/// Whether the decoder is asked for another frame.
pub open spec fn drain_goes_on(d: DrainModel) -> bool {
    !d.stopped && d.attempts < MAX_DRAIN_ITERATIONS
}

/// The state reached when the decoder answers the requests in turn with
/// `outcomes`.
pub open spec fn drain_run(d: DrainModel, outcomes: Seq<ReceiveOutcome>) -> DrainModel
    decreases outcomes.len(),
{
    if outcomes.len() == 0 || !drain_goes_on(d) {
        d
    } else {
        drain_run(drain_record(d, outcomes[0]), outcomes.drop_first())
    }
}

/// The emptying of a decoder that is being dropped.
pub struct DropDrain {
    attempts: u32,
    stopped: bool,
}

impl View for DropDrain {
    type V = DrainModel;

    closed spec fn view(&self) -> DrainModel {
        DrainModel { attempts: self.attempts as nat, stopped: self.stopped }
    }
}

impl DropDrain {
    /// Starts emptying, given whether the decoder accepted the end of
    /// input: if it did not, no frame is asked for.
    pub fn new(eof_sent: bool) -> (r: DropDrain)
        ensures
            r@ == (DrainModel { attempts: 0, stopped: !eof_sent }),
    {
        DropDrain { attempts: 0, stopped: !eof_sent }
    }

    /// Whether to ask the decoder for another frame.
    pub fn should_receive(&self) -> (r: bool)
        ensures
            r == drain_goes_on(self@),
    {
        !self.stopped && self.attempts < MAX_DRAIN_ITERATIONS
    }

    /// Records the decoder's answer to one more request.
    pub fn record(&mut self, outcome: ReceiveOutcome)
        requires
            drain_goes_on(old(self)@),
        ensures
            final(self)@ == drain_record(old(self)@, outcome),
    {
        self.attempts = self.attempts + 1;
        self.stopped = match outcome {
            ReceiveOutcome::EndOfStream | ReceiveOutcome::Failed(_) => true,
            ReceiveOutcome::Frame(_) | ReceiveOutcome::Again => false,
        };
    }
}

/// Emptying a dropped decoder asks for at most `MAX_DRAIN_ITERATIONS`
/// frames, and for none if the end of input was refused. Every answer but
/// the last was a frame or a request for more input, and the emptying ends
/// before the limit only when the decoder reports its end or an error (or
/// has been asked all it was going to answer).
pub proof fn lemma_drop_drain_completeness(eof_sent: bool, outcomes: Seq<ReceiveOutcome>)
    ensures
        ({
            let d = drain_run(DrainModel { attempts: 0, stopped: !eof_sent }, outcomes);
            &&& d.attempts <= MAX_DRAIN_ITERATIONS
            &&& d.attempts <= outcomes.len()
            &&& !eof_sent ==> d.attempts == 0
            &&& forall|i: int| 0 <= i < d.attempts - 1 ==> !drain_ends_on(outcomes[i])
            &&& d.stopped && eof_sent ==> d.attempts > 0 && drain_ends_on(outcomes[d.attempts - 1])
            &&& eof_sent && !d.stopped ==> (d.attempts == MAX_DRAIN_ITERATIONS || d.attempts
                == outcomes.len())
        }),
{
    lemma_drain_run_from(DrainModel { attempts: 0, stopped: !eof_sent }, outcomes);
}

proof fn lemma_drain_run_from(d: DrainModel, outcomes: Seq<ReceiveOutcome>)
    requires
        d.attempts <= MAX_DRAIN_ITERATIONS,
    ensures
        ({
            let e = drain_run(d, outcomes);
            &&& d.attempts <= e.attempts <= MAX_DRAIN_ITERATIONS
            &&& e.attempts - d.attempts <= outcomes.len()
            &&& d.stopped ==> e == d
            &&& forall|i: int| 0 <= i < e.attempts - d.attempts - 1 ==> !drain_ends_on(outcomes[i])
            &&& e.stopped && !d.stopped ==> e.attempts > d.attempts && drain_ends_on(
                outcomes[e.attempts - d.attempts - 1],
            )
            &&& e.stopped ==> (d.stopped || e.attempts > d.attempts)
            &&& !e.stopped ==> (e.attempts == MAX_DRAIN_ITERATIONS || e.attempts - d.attempts
                == outcomes.len())
        }),
    decreases outcomes.len(),
{
    if outcomes.len() == 0 || !drain_goes_on(d) {
    } else {
        let next = drain_record(d, outcomes[0]);
        let rest = outcomes.drop_first();
        lemma_drain_run_from(next, rest);
        let e = drain_run(next, rest);
        assert(drain_run(d, outcomes) == e);
        assert forall|i: int| 0 <= i < e.attempts - d.attempts - 1 implies !drain_ends_on(
            outcomes[i],
        ) by {
            if i == 0 {
                if drain_ends_on(outcomes[0]) {
                    assert(next.stopped);
                    assert(e == next);
                }
            } else {
                assert(rest[i - 1] == outcomes[i]);
            }
        }
        if e.stopped && !d.stopped {
            if next.stopped {
                assert(e == next);
            } else {
                assert(rest[e.attempts - next.attempts - 1] == outcomes[e.attempts - d.attempts
                    - 1]);
            }
        }
    }
}

} // verus!
