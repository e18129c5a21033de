use vstd::prelude::*;
use openh264::encoder::{BitRate, Encoder, EncoderConfig};
use openh264::formats::YUVSource;
use openh264::OpenH264API;
use crate::config::OpenH264Config;
use crate::nal::{count_nal_types, nal_counts_from};
use crate::session::CaptureSession;
use crate::yuv::FullRangeYUVBuffer;

verus! {

#[verifier::external_type_specification]
#[verifier::external_body]
pub struct ExEncoder(Encoder);

#[verifier::external_type_specification]
#[verifier::external_body]
pub struct ExOpenH264Error(openh264::Error);

/// The encoder reads a frame through these: its size, the bytes per row of
/// each plane, and the three planes.
impl YUVSource for FullRangeYUVBuffer {
    fn dimensions(&self) -> (r: (usize, usize))
        ensures
            r.0 == self.frame_width(),
            r.1 == self.frame_height(),
    {
        (self.frame_size().0, self.frame_size().1)
    }

    fn strides(&self) -> (r: (usize, usize, usize))
        ensures
            r.0 == self.frame_width(),
            r.1 == self.frame_width() / 2,
            r.2 == self.frame_width() / 2,
    {
        let w = self.frame_size().0;
        (w, w / 2, w / 2)
    }

    fn y(&self) -> (r: &[u8])
        ensures
            r@ == self.luma_plane(),
    {
        FullRangeYUVBuffer::y(self)
    }

    fn u(&self) -> (r: &[u8])
        ensures
            r@ == self.u_samples(),
    {
        FullRangeYUVBuffer::u(self)
    }

    fn v(&self) -> (r: &[u8])
        ensures
            r@ == self.v_samples(),
    {
        FullRangeYUVBuffer::v(self)
    }
}

/// What the encoder reads of one frame: width, height, and the Y, U and V planes.
pub open spec fn frame_input(f: FullRangeYUVBuffer) -> (nat, nat, Seq<u8>, Seq<u8>, Seq<u8>) {
    (f.frame_width(), f.frame_height(), f.luma_plane(), f.u_samples(), f.v_samples())
}

/// Why the H.264 encoder could not be opened or could not encode a frame
/// (with the encoder's own description of the failure), or why there was
/// nothing to encode.
#[derive(Debug)]
pub enum EncodeError {
    Open { message: String },
    Encode { message: String },
    NoFrame,
}

/// An OpenH264 encoder with the settings it was opened with, and a record of
/// what it has been handed: every frame, in order, and the number of frames
/// handed before each intra-frame request.
pub struct H264Encoder {
    inner: Encoder,
    settings: OpenH264Config,
    inputs: Ghost<Seq<(nat, nat, Seq<u8>, Seq<u8>, Seq<u8>)>>,
    intra_requests: Ghost<Seq<nat>>,
}

/// Opens an encoder with `openh264::encoder::Encoder::with_api_config`, on the
/// bundled OpenH264 build, configured with the target bitrate and frame
/// skipping of `settings` (the encoder takes the frame size from each frame);
/// the settings are recorded beside it, and nothing has been handed to it
/// yet. Whether the native encoder can be created is up to it and is not
/// stated.
#[verifier::external_body]
fn open_openh264(settings: OpenH264Config) -> (r: Result<H264Encoder, openh264::Error>)
    ensures
        r matches Ok(enc) ==> enc.encoder_settings() == settings && enc.inputs().len() == 0
            && enc.intra_requests().len() == 0,
{
    let config = EncoderConfig::new().bitrate(BitRate::from_bps(settings.target_bitrate_bps)).skip_frames(
        settings.enable_skip_frame,
    );
    match Encoder::with_api_config(OpenH264API::from_source(), config) {
        Ok(inner) => Ok(H264Encoder { inner, settings, inputs: Ghost(Seq::empty()), intra_requests: Ghost(Seq::empty()) }),
        Err(e) => Err(e),
    }
}

/// Hands `frame` to `openh264::encoder::Encoder::encode` and copies the
/// bitstream out with `EncodedBitStream::to_vec`; the encoder re-initialises
/// itself when the frame size changes. The frame is recorded as handed to
/// the encoder whatever the outcome. What the bitstream holds depends on the
/// encoder's state (rate control, reference frames) and is not stated.
#[verifier::external_body]
fn encode_openh264(enc: &mut H264Encoder, frame: &FullRangeYUVBuffer) -> (r: Result<
    Vec<u8>,
    openh264::Error,
>)
    requires
        frame.wf(),
    ensures
        final(enc).inputs() == old(enc).inputs().push(frame_input(*frame)),
        final(enc).intra_requests() == old(enc).intra_requests(),
        final(enc).encoder_settings() == old(enc).encoder_settings(),
{
    match enc.inner.encode(frame) {
        Ok(bitstream) => Ok(bitstream.to_vec()),
        Err(e) => Err(e),
    }
}

/// Asks the encoder, with `openh264::encoder::Encoder::force_intra_frame`, to
/// make the next frame an intra frame; the request is recorded after the
/// frames handed so far.
#[verifier::external_body]
fn force_intra_openh264(enc: &mut H264Encoder)
    ensures
        final(enc).intra_requests() == old(enc).intra_requests().push(old(enc).inputs().len()),
        final(enc).inputs() == old(enc).inputs(),
        final(enc).encoder_settings() == old(enc).encoder_settings(),
{
    enc.inner.force_intra_frame()
}

/// The `Debug` rendering of an OpenH264 error, for the log. Nothing is
/// stated of the text.
#[verifier::external_body]
fn openh264_error_text(e: &openh264::Error) -> (text: String) {
    format!("{:?}", e)
}

impl H264Encoder {
    /// Bitrate and frame-skipping settings the encoder was opened with.
    pub closed spec fn encoder_settings(&self) -> OpenH264Config {
        self.settings
    }

    /// The frames handed to the encoder so far, in order.
    pub closed spec fn inputs(&self) -> Seq<(nat, nat, Seq<u8>, Seq<u8>, Seq<u8>)> {
        self.inputs@
    }

    /// For each intra-frame request, the number of frames handed before it.
    pub closed spec fn intra_requests(&self) -> Seq<nat> {
        self.intra_requests@
    }

    /// Opens an encoder with the configured bitrate and frame skipping.
    pub fn open(settings: OpenH264Config) -> (r: Result<H264Encoder, EncodeError>)
        ensures
            r matches Ok(enc) ==> {
                &&& enc.encoder_settings() == settings
                &&& enc.inputs().len() == 0
                &&& enc.intra_requests().len() == 0
            },
            r matches Err(e) ==> e is Open,
    {
        match open_openh264(settings) {
            Ok(enc) => Ok(enc),
            Err(e) => Err(EncodeError::Open { message: openh264_error_text(&e) }),
        }
    }

    /// Encodes one frame into an Annex-B bitstream; the frame is handed to the
    /// encoder whether or not encoding succeeds.
    pub fn encode(&mut self, frame: &FullRangeYUVBuffer) -> (r: Result<Vec<u8>, EncodeError>)
        requires
            frame.wf(),
        ensures
            final(self).inputs() == old(self).inputs().push(frame_input(*frame)),
            final(self).intra_requests() == old(self).intra_requests(),
            final(self).encoder_settings() == old(self).encoder_settings(),
            r matches Err(e) ==> e is Encode,
    {
        match encode_openh264(self, frame) {
            Ok(bytes) => Ok(bytes),
            Err(e) => Err(EncodeError::Encode { message: openh264_error_text(&e) }),
        }
    }

    /// Makes the next encoded frame an intra frame (a keyframe).
    pub fn force_intra_frame(&mut self)
        ensures
            final(self).intra_requests() == old(self).intra_requests().push(old(self).inputs().len()),
            final(self).inputs() == old(self).inputs(),
            final(self).encoder_settings() == old(self).encoder_settings(),
    {
        force_intra_openh264(self)
    }

    /// Bitrate and frame-skipping settings the encoder was opened with.
    pub fn settings(&self) -> (s: OpenH264Config)
        ensures
            s == self.encoder_settings(),
    {
        self.settings
    }
}

/// An encoded frame and the parameter sets and IDR slices found in it.
pub struct EncodedFrame {
    pub bytes: Vec<u8>,
    pub sps: usize,
    pub pps: usize,
    pub idr: usize,
}

impl CaptureSession {
    /// Encodes the session's prepared YUV frame and tallies the SPS, PPS and
    /// IDR units of the resulting bitstream; fails with `NoFrame`, handing
    /// nothing to the encoder, when no frame has been prepared yet.
    pub fn encode_prepared(&self, encoder: &mut H264Encoder) -> (r: Result<EncodedFrame, EncodeError>)
        requires
            self.wf(),
        ensures
            final(encoder).encoder_settings() == old(encoder).encoder_settings(),
            final(encoder).intra_requests() == old(encoder).intra_requests(),
            match self.yuv_frame() {
                Some(f) => final(encoder).inputs() == old(encoder).inputs().push(frame_input(f)),
                None => final(encoder).inputs() == old(encoder).inputs(),
            },
            r matches Ok(f) ==> (f.sps as int, f.pps as int, f.idr as int) == nal_counts_from(
                f.bytes@,
                0,
            ),
            (r matches Err(e) && e is NoFrame) <==> self.yuv_frame().is_none(),
            r matches Err(e) ==> e is NoFrame || e is Encode,
    {
        let frame = match self.yuv() {
            Some(buf) => buf,
            None => {
                return Err(EncodeError::NoFrame);
            },
        };
        match encoder.encode(frame) {
            Ok(bytes) => {
                let (sps, pps, idr) = count_nal_types(bytes.as_slice());
                Ok(EncodedFrame { bytes, sps, pps, idr })
            },
            Err(e) => Err(e),
        }
    }
}

} // verus!
