use vstd::prelude::*;
use crate::protocol::{Command, InputEvent, execute_command, input_event_of};
use crate::yuv::{FullRangeYUVBuffer, bgra_to_rgb, bgra_pixels_converted, pixel_copied, rgb_fits};

verus! {

/// Streaming settings that the gateway can change while a session runs.
pub struct StreamSettings {
    /// Frames per second the capture loop aims at.
    pub target_fps: u32,
    /// Active codec name; `"h264"` selects H.264, anything else raw frames.
    pub codec: String,
    /// Whether the next encoded frame must be a keyframe.
    pub force_keyframe: bool,
}

/// The settings after handling `cmd`: a stream configuration sets the codec
/// and frame rate it carries and leaves a keyframe pending; other commands
/// leave the settings as they are.
pub open spec fn settings_after(s: StreamSettings, cmd: Command) -> StreamSettings {
    match cmd {
        Command::StreamConfig { codec, target_fps, .. } => StreamSettings {
            target_fps,
            codec,
            force_keyframe: true,
        },
        _ => s,
    }
}

impl StreamSettings {
    /// Settings at the start of a session: 60 fps, H.264, first frame a keyframe.
    pub fn new() -> (s: Self)
        ensures
            s.target_fps == 60,
            s.codec@ == "h264"@,
            s.force_keyframe,
    {
        StreamSettings { target_fps: 60, codec: String::from_str("h264"), force_keyframe: true }
    }

    /// Handles one gateway command: a stream configuration replaces the codec
    /// and target frame rate and requests a keyframe; any other command is
    /// returned as the input event to inject, leaving the settings as they were.
    pub fn handle_command(&mut self, cmd: Command) -> (event: Option<InputEvent>)
        ensures
            event == input_event_of(cmd),
            *final(self) == settings_after(*old(self), cmd),
            match cmd {
                Command::StreamConfig { codec, target_fps, .. } => {
                    &&& final(self).target_fps == target_fps
                    &&& final(self).codec@ == codec@
                    &&& final(self).force_keyframe
                },
                _ => *final(self) == *old(self),
            },
    {
        match cmd {
            Command::StreamConfig { backpressure: _, codec, target_fps } => {
                self.target_fps = target_fps;
                self.codec = codec;
                self.force_keyframe = true;
                None
            },
            other => execute_command(other),
        }
    }

    /// Takes the pending keyframe request, clearing it.
    pub fn take_keyframe_request(&mut self) -> (requested: bool)
        ensures
            requested == old(self).force_keyframe,
            !final(self).force_keyframe,
            final(self).target_fps == old(self).target_fps,
            final(self).codec == old(self).codec,
    {
        let requested = self.force_keyframe;
        self.force_keyframe = false;
        requested
    }

    /// Whether frames are to be H.264-encoded.
    pub fn is_h264(&self) -> (h264: bool)
        ensures
            h264 == (self.codec@ == "h264"@),
    {
        self.codec == String::from_str("h264")
    }

    /// Time budget of one frame in milliseconds.
    pub fn frame_budget_ms(&self) -> (ms: u32)
        ensures
            ms == frame_budget(self.target_fps),
    {
        if self.target_fps > 0 {
            1000 / self.target_fps
        } else {
            16
        }
    }
}

/// Time budget of one frame at `fps` frames per second, in whole
/// milliseconds; 16 ms when no rate is set.
pub open spec fn frame_budget(fps: u32) -> u32 {
    if fps > 0 {
        1000u32 / fps
    } else {
        16
    }
}

/// How long the capture loop waits after a frame that took `elapsed_ms`:
/// the rest of the frame budget, or not at all once the budget is spent.
pub fn pacing_delay_ms(budget_ms: u32, elapsed_ms: u64) -> (delay: Option<u64>)
    ensures
        elapsed_ms < budget_ms ==> delay == Some((budget_ms - elapsed_ms) as u64),
        elapsed_ms >= budget_ms ==> delay.is_none(),
{
    if elapsed_ms < budget_ms as u64 {
        Some(budget_ms as u64 - elapsed_ms)
    } else {
        None
    }
}

/// A packed RGB24 frame of `w` x `h` pixels fills a `w` x `h` buffer exactly.
proof fn lemma_full_frame_fits(w: int, h: int)
    requires
        w >= 0,
        h >= 0,
    ensures
        rgb_fits(w, h, w * h * 3),
{
    assert((w * h * 3) / 3 == w * h) by (nonlinear_arith);
    if w / 2 > 0 && h / 2 > 0 {
        assert((2 * (w / 2) - 1 + (2 * (h / 2) - 1) * w) * 3 + 2 < w * h * 3) by (nonlinear_arith)
            requires
                w >= 2,
                h >= 2,
                2 * (w / 2) <= w,
                2 * (h / 2) <= h,
        ;
    }
}

/// The per-connection state of the capture-and-encode loop: the frame size
/// fixed when the session starts, the RGB staging frame, the YUV frame handed
/// to the H.264 encoder once it exists, and the number of H.264 frames so far.
pub struct CaptureSession {
    width: u32,
    height: u32,
    rgb_buf: Vec<u8>,
    yuv_buf: Option<FullRangeYUVBuffer>,
    frame_count: u64,
}

/// Keyframe period of the H.264 stream, in frames.
pub open spec fn keyframe_period() -> nat {
    300
}

impl CaptureSession {
    /// Session frame width.
    pub closed spec fn session_width(&self) -> nat {
        self.width as nat
    }

    /// Session frame height.
    pub closed spec fn session_height(&self) -> nat {
        self.height as nat
    }

    /// The RGB staging frame.
    pub closed spec fn rgb_frame(&self) -> Seq<u8> {
        self.rgb_buf@
    }

    /// The YUV frame, once the first H.264 frame has been prepared.
    pub closed spec fn yuv_frame(&self) -> Option<FullRangeYUVBuffer> {
        self.yuv_buf
    }

    /// H.264 frames prepared so far.
    pub closed spec fn frames_encoded(&self) -> nat {
        self.frame_count as nat
    }

    /// The staging frame holds exactly one frame of the session size, and the
    /// YUV frame, if any, has the session size.
    pub open spec fn wf(&self) -> bool {
        &&& self.rgb_frame().len() == self.session_width() * self.session_height() * 3
        &&& self.session_width() * self.session_height() * 3 <= u32::MAX
        &&& match self.yuv_frame() {
            Some(buf) => {
                &&& buf.wf()
                &&& buf.frame_width() == self.session_width()
                &&& buf.frame_height() == self.session_height()
            },
            None => true,
        }
    }

    /// Starts a session for `width` x `height` frames with a zeroed staging frame.
    pub fn new(width: u32, height: u32) -> (s: Self)
        requires
            width * height * 3 <= u32::MAX,
        ensures
            s.wf(),
            s.session_width() == width,
            s.session_height() == height,
            s.yuv_frame().is_none(),
            s.frames_encoded() == 0,
            forall|k: int| 0 <= k < s.rgb_frame().len() ==> s.rgb_frame()[k] == 0,
    {
        CaptureSession {
            width,
            height,
            rgb_buf: vec![0u8; (width * height * 3) as usize],
            yuv_buf: None,
            frame_count: 0,
        }
    }

    /// Prepares a captured BGRA frame for the H.264 encoder: converts it into
    /// the RGB staging frame, then into the YUV frame (created on the first
    /// H.264 frame of the session), and counts it. Returns whether the frame
    /// must be encoded as a keyframe: when one was requested, and on every
    /// frame whose count is a multiple of the keyframe period.
    pub fn prepare_h264_frame(&mut self, pixels: &[u8], keyframe_requested: bool) -> (force: bool)
        requires
            old(self).wf(),
            old(self).frames_encoded() < u64::MAX,
        ensures
            final(self).wf(),
            final(self).session_width() == old(self).session_width(),
            final(self).session_height() == old(self).session_height(),
            final(self).frames_encoded() == old(self).frames_encoded() + 1,
            force == (keyframe_requested || final(self).frames_encoded() % keyframe_period() == 0),
            final(self).rgb_frame().len() == old(self).rgb_frame().len(),
            forall|k: int|
                0 <= k < bgra_pixels_converted(
                    pixels@.len() as int,
                    old(self).rgb_frame().len() as int,
                ) ==> #[trigger] pixel_copied(final(self).rgb_frame(), pixels@, k),
            forall|m: int|
                3 * bgra_pixels_converted(pixels@.len() as int, old(self).rgb_frame().len() as int)
                    <= m < old(self).rgb_frame().len() ==> #[trigger] final(self).rgb_frame()[m]
                    == old(self).rgb_frame()[m],
            final(self).yuv_frame() matches Some(buf) && buf.converted_from(
                match old(self).yuv_frame() {
                    Some(prev) => prev.luma_plane(),
                    None => Seq::new(
                        old(self).session_width() * old(self).session_height(),
                        |k: int| 0u8,
                    ),
                },
                final(self).rgb_frame(),
            ),
    {
        bgra_to_rgb(pixels, &mut self.rgb_buf);
        proof {
            lemma_full_frame_fits(self.width as int, self.height as int);
        }
        let mut buf = match self.yuv_buf.take() {
            Some(buf) => buf,
            None => {
                let b = FullRangeYUVBuffer::new(self.width as usize, self.height as usize);
                assert(b.luma_plane() =~= Seq::new(
                    old(self).session_width() * old(self).session_height(),
                    |k: int| 0u8,
                ));
                b
            },
        };
        buf.read_rgb(self.rgb_buf.as_slice());
        self.yuv_buf = Some(buf);
        self.frame_count = self.frame_count + 1;
        keyframe_requested || self.frame_count % 300 == 0
    }

    /// The YUV frame to hand to the encoder, once one has been prepared.
    pub fn yuv(&self) -> (buf: Option<&FullRangeYUVBuffer>)
        ensures
            buf matches Some(b) ==> self.yuv_frame() == Some(*b),
            buf.is_none() == self.yuv_frame().is_none(),
    {
        self.yuv_buf.as_ref()
    }

    /// H.264 frames prepared so far.
    pub fn frames(&self) -> (n: u64)
        ensures
            n == self.frames_encoded(),
    {
        self.frame_count
    }

    /// Session frame width.
    pub fn width(&self) -> (w: u32)
        ensures
            w == self.session_width(),
    {
        self.width
    }

    /// Session frame height.
    pub fn height(&self) -> (h: u32)
        ensures
            h == self.session_height(),
    {
        self.height
    }

    /// Payload length announced for a raw (non-H.264) frame: 4 bytes per pixel.
    pub fn raw_payload_len(&self) -> (len: u32)
        requires
            self.session_width() * self.session_height() * 4 <= u32::MAX,
        ensures
            len == self.session_width() * self.session_height() * 4,
    {
        self.width * self.height * 4
    }
}

/// A stream configuration always makes the next H.264 frame a keyframe:
/// whatever the settings were, handling one leaves a keyframe request pending
/// (so the next `take_keyframe_request` returns `true`), together with the
/// codec and frame rate it carries.
pub proof fn lemma_reconfigure_forces_keyframe(before: StreamSettings, cmd: Command)
    requires
        cmd is StreamConfig,
    ensures
        settings_after(before, cmd).force_keyframe,
        settings_after(before, cmd).target_fps == cmd->StreamConfig_target_fps,
        settings_after(before, cmd).codec == cmd->StreamConfig_codec,
{
}

/// The capture loop never waits longer than one frame budget, and a frame
/// budget never exceeds one second.
pub proof fn lemma_pacing_bounded(fps: u32, elapsed_ms: u64, delay: Option<u64>)
    requires
        elapsed_ms < frame_budget(fps) ==> delay == Some((frame_budget(fps) - elapsed_ms) as u64),
        elapsed_ms >= frame_budget(fps) ==> delay.is_none(),
    ensures
        frame_budget(fps) <= 1000,
        delay matches Some(d) ==> 0 < d <= frame_budget(fps),
{
}

} // verus!
