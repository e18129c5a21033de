use vstd::prelude::*;
use crate::env::{EnvState, names};

verus! {

/// Why a capture backend produced no frame.
#[derive(Debug)]
pub enum CaptureError {
    /// The backend reported an I/O failure, with its message.
    Io { message: String },
    /// The sample's caps do not describe a video frame.
    InvalidVideoInfo,
    /// The sample carries no buffer.
    MissingBuffer,
    /// The buffer cannot be mapped as a video frame.
    UnmappableFrame,
    /// A plane of the mapped frame cannot be read.
    UnreadablePlane,
}

/// The text of a capture error.
pub open spec fn error_text(e: CaptureError) -> Seq<char> {
    match e {
        CaptureError::Io { message } => message@,
        CaptureError::InvalidVideoInfo => "Cannot parse VideoInfo from caps"@,
        CaptureError::MissingBuffer => "No buffer in GStreamer sample"@,
        CaptureError::UnmappableFrame => "Cannot map GStreamer buffer as VideoFrame"@,
        CaptureError::UnreadablePlane => "Cannot read plane data"@,
    }
}

impl CaptureError {
    /// The error's message.
    pub fn message(&self) -> (m: String)
        ensures
            m@ == error_text(*self),
    {
        match self {
            CaptureError::Io { message } => message.clone(),
            CaptureError::InvalidVideoInfo => String::from_str("Cannot parse VideoInfo from caps"),
            CaptureError::MissingBuffer => String::from_str("No buffer in GStreamer sample"),
            CaptureError::UnmappableFrame => String::from_str(
                "Cannot map GStreamer buffer as VideoFrame",
            ),
            CaptureError::UnreadablePlane => String::from_str("Cannot read plane data"),
        }
    }
}

/// What one poll of the X11 shared-memory capturer delivered.
#[derive(Debug)]
pub enum X11Poll {
    /// A frame, as its packed pixel bytes.
    Ready(Vec<u8>),
    /// No new frame is ready yet.
    WouldBlock,
    /// The capturer failed, with the failure's message.
    Failed(String),
}

/// What mapping the buffer of a PipeWire sample gave.
#[derive(Debug)]
pub enum MappedFrame {
    /// The sample has no buffer.
    NoBuffer,
    /// The buffer could not be mapped as a video frame.
    Unmappable,
    /// The frame's planes in order, each with its bytes if it could be read.
    Planes(Vec<Option<Vec<u8>>>),
}

/// What one pull from the PipeWire video sink delivered.
#[derive(Debug)]
pub enum WaylandPull {
    /// No sample arrived within the pull timeout.
    Timeout,
    /// A sample arrived without caps.
    NoCaps,
    /// A sample arrived whose caps are not a video format.
    InvalidCaps,
    /// A sample of the given video size.
    Sample { width: u32, height: u32, frame: MappedFrame },
}

/// Every plane of the frame could be read.
pub open spec fn all_readable(planes: Seq<Option<Vec<u8>>>) -> bool {
    forall|k: int| 0 <= k < planes.len() ==> #[trigger] planes[k] is Some
}

/// The bytes of the first `n` planes, one after another.
pub open spec fn joined(planes: Seq<Option<Vec<u8>>>, n: int) -> Seq<u8>
    decreases n,
{
    if n <= 0 {
        Seq::empty()
    } else {
        joined(planes, n - 1) + match planes[n - 1] {
            Some(p) => p@,
            None => Seq::empty(),
        }
    }
}

/// One capture step of the Wayland backend, from state `before` to `after`:
/// nothing on timeout or missing caps; an error for caps that are not a video
/// format; otherwise the frame size follows the sample's video format, and the
/// frame is all its planes' bytes in order, or an error naming the first step
/// that failed.
pub open spec fn wayland_step(
    before: WaylandCapturer,
    pull: WaylandPull,
    after: WaylandCapturer,
    r: Result<Option<Vec<u8>>, CaptureError>,
) -> bool {
    match pull {
        WaylandPull::Timeout | WaylandPull::NoCaps => r == Ok::<Option<Vec<u8>>, CaptureError>(None)
            && after == before,
        WaylandPull::InvalidCaps => r == Err::<Option<Vec<u8>>, CaptureError>(
            CaptureError::InvalidVideoInfo,
        ) && after == before,
        WaylandPull::Sample { width, height, frame } => {
            &&& after.frame_width() == width
            &&& after.frame_height() == height
            &&& match frame {
                MappedFrame::NoBuffer => r == Err::<Option<Vec<u8>>, CaptureError>(
                    CaptureError::MissingBuffer,
                ),
                MappedFrame::Unmappable => r == Err::<Option<Vec<u8>>, CaptureError>(
                    CaptureError::UnmappableFrame,
                ),
                MappedFrame::Planes(planes) => if all_readable(planes@) {
                    r matches Ok(Some(bytes)) && bytes@ == joined(planes@, planes@.len() as int)
                } else {
                    r == Err::<Option<Vec<u8>>, CaptureError>(CaptureError::UnreadablePlane)
                },
            }
        },
    }
}

/// One capture step of the X11 backend: the frame's bytes when one was ready,
/// nothing when none is ready yet, the failure otherwise.
pub open spec fn x11_step(poll: X11Poll, r: Result<Option<Vec<u8>>, CaptureError>) -> bool {
    match poll {
        X11Poll::Ready(bytes) => r == Ok::<Option<Vec<u8>>, CaptureError>(Some(bytes)),
        X11Poll::WouldBlock => r == Ok::<Option<Vec<u8>>, CaptureError>(None),
        X11Poll::Failed(message) => r == Err::<Option<Vec<u8>>, CaptureError>(
            CaptureError::Io { message },
        ),
    }
}

/// Screen capture through the desktop portal and PipeWire: the size of the
/// most recent frame.
pub struct WaylandCapturer {
    width: u32,
    height: u32,
}

impl WaylandCapturer {
    /// Current frame width.
    pub closed spec fn frame_width(&self) -> u32 {
        self.width
    }

    /// Current frame height.
    pub closed spec fn frame_height(&self) -> u32 {
        self.height
    }

    /// A capturer for the portal stream, sized as the portal reported it
    /// (1920 x 1080 when it reported no size).
    pub fn new(reported_size: Option<(i32, i32)>) -> (c: Self)
        ensures
            match reported_size {
                Some((w, h)) => c.frame_width() == w as u32 && c.frame_height() == h as u32,
                None => c.frame_width() == 1920 && c.frame_height() == 1080,
            },
    {
        let (width, height) = match reported_size {
            Some((sw, sh)) => (sw as u32, sh as u32),
            None => (1920, 1080),
        };
        WaylandCapturer { width, height }
    }

    /// Turns one pull from the video sink into a frame: nothing on timeout or
    /// missing caps; otherwise the frame size follows the sample's video
    /// format, and the frame is all its planes' bytes in order, or an error
    /// naming the first step that failed.
    pub fn capture_frame(&mut self, pull: WaylandPull) -> (r: Result<Option<Vec<u8>>, CaptureError>)
        requires
            pull matches WaylandPull::Sample { width, height, frame } ==> (frame is Planes
                ==> width * height * 4 <= u32::MAX),
        ensures
            wayland_step(*old(self), pull, *final(self), r),
    {
        let ghost pulled = pull;
        match pull {
            WaylandPull::Timeout => Ok(None),
            WaylandPull::NoCaps => Ok(None),
            WaylandPull::InvalidCaps => Err(CaptureError::InvalidVideoInfo),
            WaylandPull::Sample { width, height, frame } => {
                self.width = width;
                self.height = height;
                match frame {
                    MappedFrame::NoBuffer => Err(CaptureError::MissingBuffer),
                    MappedFrame::Unmappable => Err(CaptureError::UnmappableFrame),
                    MappedFrame::Planes(planes) => {
                        let mut out: Vec<u8> = Vec::with_capacity(
                            (self.width * self.height * 4) as usize,
                        );
                        let n = planes.len();
                        let mut p: usize = 0;
                        while p < n
                            invariant
                                n == planes@.len(),
                                p <= n,
                                pulled == pull,
                                pulled == (WaylandPull::Sample {
                                    width,
                                    height,
                                    frame: MappedFrame::Planes(planes),
                                }),
                                self.width == width,
                                self.height == height,
                                out@ == joined(planes@, p as int),
                                forall|k: int| 0 <= k < p ==> #[trigger] planes@[k] is Some,
                            decreases n - p,
                        {
                            match &planes[p] {
                                Some(data) => {
                                    out.extend_from_slice(data.as_slice());
                                    assert(out@ =~= joined(planes@, p + 1));
                                },
                                None => {
                                    return Err(CaptureError::UnreadablePlane);
                                },
                            }
                            p += 1;
                        }
                        Ok(Some(out))
                    },
                }
            },
        }
    }

    /// Current frame width.
    pub fn width(&self) -> (w: u32)
        ensures
            w == self.frame_width(),
    {
        self.width
    }

    /// Current frame height.
    pub fn height(&self) -> (h: u32)
        ensures
            h == self.frame_height(),
    {
        self.height
    }
}

/// Screen capture of the X11 root window over shared memory: the display size.
pub struct X11Capturer {
    width: u32,
    height: u32,
}

impl X11Capturer {
    /// Display width.
    pub closed spec fn frame_width(&self) -> u32 {
        self.width
    }

    /// Display height.
    pub closed spec fn frame_height(&self) -> u32 {
        self.height
    }

    /// A capturer for a display of the given size.
    pub fn new(display_width: usize, display_height: usize) -> (c: Self)
        ensures
            c.frame_width() == display_width as u32,
            c.frame_height() == display_height as u32,
    {
        X11Capturer { width: display_width as u32, height: display_height as u32 }
    }

    /// Turns one poll of the capturer into a frame: the frame's bytes when
    /// one was ready, nothing when none is ready yet, the failure otherwise.
    pub fn capture_frame(&mut self, poll: X11Poll) -> (r: Result<Option<Vec<u8>>, CaptureError>)
        ensures
            *final(self) == *old(self),
            x11_step(poll, r),
    {
        match poll {
            X11Poll::Ready(bytes) => Ok(Some(bytes)),
            X11Poll::WouldBlock => Ok(None),
            X11Poll::Failed(message) => Err(CaptureError::Io { message }),
        }
    }

    /// Display width.
    pub fn width(&self) -> (w: u32)
        ensures
            w == self.frame_width(),
    {
        self.width
    }

    /// Display height.
    pub fn height(&self) -> (h: u32)
        ensures
            h == self.frame_height(),
    {
        self.height
    }
}

/// Human-readable name of a capturer's backend.
pub open spec fn backend_label(c: ScreenCapturer) -> Seq<char> {
    match c {
        ScreenCapturer::Wayland(_) => "Wayland (PipeWire)"@,
        ScreenCapturer::X11(_) => "X11 (XCB)"@,
    }
}

/// Two capturer states run the same backend.
pub open spec fn same_backend(a: ScreenCapturer, b: ScreenCapturer) -> bool {
    (a is Wayland) == (b is Wayland)
}

/// A capturer never switches backend over any run of captures: when each
/// capture keeps the backend, as `ScreenCapturer::capture_frame` ensures
/// whatever it returns, every state of the run has the backend and the name
/// of the first.
pub proof fn lemma_backend_kept(states: Seq<ScreenCapturer>)
    requires
        forall|k: int|
            #![trigger states[k]]
            0 <= k < states.len() - 1 ==> same_backend(states[k], states[k + 1]),
    ensures
        forall|k: int|
            0 <= k < states.len() ==> #[trigger] same_backend(states[k], states[0])
                && backend_label(states[k]) == backend_label(states[0]),
    decreases states.len(),
{
    if states.len() > 1 {
        let prefix = states.drop_last();
        assert forall|k: int|
            #![trigger prefix[k]]
            0 <= k < prefix.len() - 1 implies same_backend(prefix[k], prefix[k + 1]) by {
            assert(states[k] == prefix[k]);
            assert(states[k + 1] == prefix[k + 1]);
        }
        lemma_backend_kept(prefix);
        assert forall|k: int| 0 <= k < states.len() implies #[trigger] same_backend(states[k], states[0])
            && backend_label(states[k]) == backend_label(states[0]) by {
            if k < states.len() - 1 {
                assert(states[k] == prefix[k]);
                assert(same_backend(prefix[k], prefix[0]));
            } else {
                let m = states.len() - 2;
                assert(states[m] == prefix[m]);
                assert(same_backend(prefix[m], prefix[0]));
                assert(same_backend(states[m], states[m + 1]));
            }
        }
    }
}

/// The screen capture backend in use.
pub enum ScreenCapturer {
    Wayland(WaylandCapturer),
    X11(X11Capturer),
}

/// What one poll of the active backend delivered.
#[derive(Debug)]
pub enum FramePoll {
    Wayland(WaylandPull),
    X11(X11Poll),
}

/// A capture backend, as a choice.
#[derive(Debug, Clone, Copy, PartialEq, Eq)]
pub enum CaptureBackend {
    Wayland,
    X11,
}

impl ScreenCapturer {
    /// `poll` came from this capturer's backend.
    pub open spec fn polled_by(&self, poll: FramePoll) -> bool {
        match (self, poll) {
            (ScreenCapturer::Wayland(_), FramePoll::Wayland(_)) => true,
            (ScreenCapturer::X11(_), FramePoll::X11(_)) => true,
            _ => false,
        }
    }

    /// Current frame width of the active backend.
    pub open spec fn frame_width(&self) -> u32 {
        match self {
            ScreenCapturer::Wayland(c) => c.frame_width(),
            ScreenCapturer::X11(c) => c.frame_width(),
        }
    }

    /// Current frame height of the active backend.
    pub open spec fn frame_height(&self) -> u32 {
        match self {
            ScreenCapturer::Wayland(c) => c.frame_height(),
            ScreenCapturer::X11(c) => c.frame_height(),
        }
    }

    /// Hands a poll of the active backend to that backend and returns its
    /// frame. The backend stays the same whatever the poll gave, so a capture
    /// error or an empty poll never switches backends.
    pub fn capture_frame(&mut self, poll: FramePoll) -> (r: Result<Option<Vec<u8>>, CaptureError>)
        requires
            old(self).polled_by(poll),
            poll matches FramePoll::Wayland(WaylandPull::Sample { width, height, frame })
                ==> (frame is Planes ==> width * height * 4 <= u32::MAX),
        ensures
            (*final(self) is Wayland) == (*old(self) is Wayland),
            (*final(self) is X11) == (*old(self) is X11),
            match (*old(self), poll) {
                (ScreenCapturer::Wayland(c), FramePoll::Wayland(pull)) => {
                    *final(self) matches ScreenCapturer::Wayland(c2) && wayland_step(c, pull, c2, r)
                },
                (ScreenCapturer::X11(_), FramePoll::X11(p)) => {
                    &&& *final(self) == *old(self)
                    &&& x11_step(p, r)
                },
                _ => false,
            },
    {
        match self {
            ScreenCapturer::Wayland(c) => match poll {
                FramePoll::Wayland(pull) => c.capture_frame(pull),
                FramePoll::X11(_) => Ok(None),
            },
            ScreenCapturer::X11(c) => match poll {
                FramePoll::X11(p) => c.capture_frame(p),
                FramePoll::Wayland(_) => Ok(None),
            },
        }
    }

    /// Current frame width of the active backend.
    pub fn width(&self) -> (w: u32)
        ensures
            w == self.frame_width(),
    {
        match self {
            ScreenCapturer::Wayland(c) => c.width(),
            ScreenCapturer::X11(c) => c.width(),
        }
    }

    /// Current frame height of the active backend.
    pub fn height(&self) -> (h: u32)
        ensures
            h == self.frame_height(),
    {
        match self {
            ScreenCapturer::Wayland(c) => c.height(),
            ScreenCapturer::X11(c) => c.height(),
        }
    }

    /// Human-readable name of the active backend.
    pub fn backend_name(&self) -> (name: &'static str)
        ensures
            name@ == backend_label(*self),
    {
        match self {
            ScreenCapturer::Wayland(_) => "Wayland (PipeWire)",
            ScreenCapturer::X11(_) => "X11 (XCB)",
        }
    }
}

/// The session environment itself points at Wayland: its type says so, or a
/// Wayland display is set.
pub open spec fn session_looks_wayland(env: EnvState) -> bool {
    names(env.xdg_session_type, "wayland"@) || env.wayland_display.is_some()
}

/// The backend the session itself calls for: Wayland when the session
/// points at it or a Wayland socket was found in a user runtime directory,
/// X11 otherwise.
pub open spec fn natural_backend(env: EnvState, wayland_socket_found: bool) -> CaptureBackend {
    if session_looks_wayland(env) || wayland_socket_found {
        CaptureBackend::Wayland
    } else {
        CaptureBackend::X11
    }
}

/// The backend to try first: the one forced on the command line, if any,
/// else the one the session calls for.
pub open spec fn backend_choice(
    env: EnvState,
    wayland_socket_found: bool,
    forced: Option<CaptureBackend>,
) -> CaptureBackend {
    match forced {
        Some(b) => b,
        None => natural_backend(env, wayland_socket_found),
    }
}

/// The backend capture runs on: Wayland when it was the backend to try
/// first and its stream started, X11 otherwise (X11 is always the fallback).
pub fn capture_plan(preferred: CaptureBackend, wayland_started: bool) -> (b: CaptureBackend)
    ensures
        b == (if preferred is Wayland && wayland_started {
            CaptureBackend::Wayland
        } else {
            CaptureBackend::X11
        }),
{
    match preferred {
        CaptureBackend::Wayland => if wayland_started {
            CaptureBackend::Wayland
        } else {
            CaptureBackend::X11
        },
        CaptureBackend::X11 => CaptureBackend::X11,
    }
}

/// The backend to try first. X11 is always the fallback when Wayland
/// capture cannot start.
pub fn preferred_backend(env: &EnvState, wayland_socket_found: bool, forced: Option<CaptureBackend>) -> (b:
    CaptureBackend)
    ensures
        b == backend_choice(*env, wayland_socket_found, forced),
{
    match forced {
        Some(CaptureBackend::Wayland) => CaptureBackend::Wayland,
        Some(CaptureBackend::X11) => CaptureBackend::X11,
        None => {
            let is_wayland = crate::env::is_named(&env.xdg_session_type, "wayland")
                || env.wayland_display.is_some();
            if is_wayland || wayland_socket_found {
                CaptureBackend::Wayland
            } else {
                CaptureBackend::X11
            }
        },
    }
}

/// With no backend forced, a Wayland socket found in a user runtime
/// directory always makes Wayland the backend tried first, whatever the
/// session type, `DISPLAY` or `WAYLAND_DISPLAY` hold.
pub proof fn lemma_socket_means_wayland(env: EnvState)
    ensures
        backend_choice(env, true, None) == CaptureBackend::Wayland,
{
}

/// `DISPLAY` plays no part in the choice: two sessions that differ only in
/// it choose the same backend, whatever was found and forced.
pub proof fn lemma_choice_ignores_display(
    a: EnvState,
    b: EnvState,
    wayland_socket_found: bool,
    forced: Option<CaptureBackend>,
)
    requires
        a.xdg_session_type == b.xdg_session_type,
        a.wayland_display == b.wayland_display,
    ensures
        backend_choice(a, wayland_socket_found, forced) == backend_choice(b, wayland_socket_found, forced),
{
}

} // verus!
