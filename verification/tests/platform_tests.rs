use nyxframe::capture::capture_plan;
use nyxframe::input::{abs_axis_value, mouse_button_code};
use nyxframe::paths::{first_xauthority, gl_env_updates, pipeline_for_desktop, session_env_plan, wayland_display_choice};
use nyxframe::capture::{
    preferred_backend, CaptureBackend, CaptureError, FramePoll, MappedFrame, ScreenCapturer,
    WaylandCapturer, WaylandPull, X11Capturer, X11Poll,
};
use nyxframe::env::{
    apply_backend_override, backend_warnings, recover_environment, validate_backends, EnvState,
    SessionProbe,
};
use nyxframe::launch::parse_cli_flags;
use nyxframe::paths::{
    capture_pipeline_description, is_niri_desktop, is_xauthority_file_name, runtime_dir,
    session_env_updates, user_runtime_dirs, wayland_display_candidates, wayland_socket_candidates,
};

fn probe(session: Option<&str>, display: Option<&str>, wayland: Option<&str>) -> SessionProbe {
    SessionProbe {
        xdg_session_type: session.map(|s| s.to_string()),
        xdg_current_desktop: Some("GNOME".to_string()),
        display: display.map(|s| s.to_string()),
        wayland_display: wayland.map(|s| s.to_string()),
        has_xdotool: true,
        has_xclip: false,
        has_adb: true,
    }
}

#[test]
fn session_type_decides_confidence() {
    let env = recover_environment(probe(Some("wayland"), Some(":0"), None));
    assert_eq!((env.wayland_confidence, env.x11_confidence), (100, 0));
    let env = recover_environment(probe(Some("x11"), None, Some("wayland-0")));
    assert_eq!((env.wayland_confidence, env.x11_confidence), (0, 100));
    let env = recover_environment(probe(Some("tty"), Some(":0"), Some("wayland-0")));
    assert_eq!((env.wayland_confidence, env.x11_confidence), (80, 80));
    let env = recover_environment(probe(None, None, None));
    assert_eq!((env.wayland_confidence, env.x11_confidence), (0, 0));
    assert!(!validate_backends(&env));
    assert_eq!(env.xdg_current_desktop.as_deref(), Some("GNOME"));
    assert!(env.has_adb);
}

#[test]
fn validation_and_warnings() {
    let env = recover_environment(probe(None, Some(":1"), None));
    assert!(validate_backends(&env));
    assert_eq!(
        backend_warnings(&env),
        vec!["[WARN] xclip is missing. Clipboard sync will fail.".to_string()]
    );
    let mut p = probe(None, None, None);
    p.has_xdotool = false;
    p.has_xclip = false;
    let env = recover_environment(p);
    assert_eq!(backend_warnings(&env).len(), 2);
    assert_eq!(backend_warnings(&env)[0], "[WARN] xdotool is missing. Input emulation will fail.");
}

#[test]
fn command_line_overrides_force_a_backend() {
    let env = recover_environment(probe(Some("wayland"), None, Some("wayland-0")));
    let x = apply_backend_override(&env, true, true);
    assert_eq!((x.wayland_confidence, x.x11_confidence), (0, 100));
    let w = apply_backend_override(&env, false, true);
    assert_eq!((w.wayland_confidence, w.x11_confidence), (100, 0));
    let same = apply_backend_override(&env, false, false);
    assert_eq!((same.wayland_confidence, same.x11_confidence), (100, 0));
    assert_eq!(same.wayland_display.as_deref(), Some("wayland-0"));
}

fn env_with(session: Option<&str>, wayland: Option<&str>) -> EnvState {
    recover_environment(probe(session, None, wayland))
}

#[test]
fn backend_preference() {
    assert_eq!(preferred_backend(&env_with(Some("wayland"), None), false, None), CaptureBackend::Wayland);
    assert_eq!(preferred_backend(&env_with(None, Some("wayland-1")), false, None), CaptureBackend::Wayland);
    assert_eq!(preferred_backend(&env_with(Some("x11"), None), true, None), CaptureBackend::Wayland);
    assert_eq!(preferred_backend(&env_with(Some("x11"), None), false, None), CaptureBackend::X11);
}

#[test]
fn x11_switch_wins_over_a_wayland_session() {
    let args: Vec<String> = vec!["nyxframe".to_string(), "--x11".to_string()];
    let flags = parse_cli_flags(&args);
    let forced = flags.forced_backend();
    assert_eq!(forced, Some(CaptureBackend::X11));
    let env = apply_backend_override(&env_with(Some("wayland"), Some("wayland-0")), flags.force_x11, flags.force_wayland);
    assert_eq!(preferred_backend(&env, true, forced), CaptureBackend::X11);
}

#[test]
fn wayland_switch_tries_wayland_on_an_x11_session() {
    let args: Vec<String> = vec!["nyxframe".to_string(), "--wayland".to_string()];
    let forced = parse_cli_flags(&args).forced_backend();
    assert_eq!(forced, Some(CaptureBackend::Wayland));
    assert_eq!(preferred_backend(&env_with(Some("x11"), None), false, forced), CaptureBackend::Wayland);
    let both: Vec<String> = vec!["--wayland".to_string(), "--x11".to_string()];
    assert_eq!(parse_cli_flags(&both).forced_backend(), Some(CaptureBackend::X11));
}

#[test]
fn wayland_capturer_follows_samples() {
    let mut c = WaylandCapturer::new(None);
    assert_eq!((c.width(), c.height()), (1920, 1080));
    let c2 = WaylandCapturer::new(Some((2560, 1440)));
    assert_eq!((c2.width(), c2.height()), (2560, 1440));

    assert!(matches!(c.capture_frame(WaylandPull::Timeout), Ok(None)));
    assert!(matches!(c.capture_frame(WaylandPull::NoCaps), Ok(None)));
    assert!(matches!(c.capture_frame(WaylandPull::InvalidCaps), Err(CaptureError::InvalidVideoInfo)));
    assert_eq!((c.width(), c.height()), (1920, 1080));

    let r = c.capture_frame(WaylandPull::Sample { width: 2, height: 1, frame: MappedFrame::NoBuffer });
    assert!(matches!(r, Err(CaptureError::MissingBuffer)));
    assert_eq!((c.width(), c.height()), (2, 1));

    let r = c.capture_frame(WaylandPull::Sample { width: 3, height: 1, frame: MappedFrame::Unmappable });
    assert!(matches!(r, Err(CaptureError::UnmappableFrame)));

    let planes = vec![Some(vec![1u8, 2]), Some(vec![3u8]), Some(vec![])];
    let r = c.capture_frame(WaylandPull::Sample { width: 1, height: 1, frame: MappedFrame::Planes(planes) });
    assert_eq!(r.unwrap(), Some(vec![1u8, 2, 3]));

    let planes = vec![Some(vec![1u8]), None];
    let r = c.capture_frame(WaylandPull::Sample { width: 4, height: 4, frame: MappedFrame::Planes(planes) });
    assert!(matches!(r, Err(CaptureError::UnreadablePlane)));
    assert_eq!((c.width(), c.height()), (4, 4));
}

#[test]
fn x11_capturer_and_screen_capturer() {
    let mut x = X11Capturer::new(1280, 720);
    assert_eq!((x.width(), x.height()), (1280, 720));
    assert_eq!(x.capture_frame(X11Poll::Ready(vec![9, 8])).unwrap(), Some(vec![9, 8]));
    assert_eq!(x.capture_frame(X11Poll::WouldBlock).unwrap(), None);
    let e = x.capture_frame(X11Poll::Failed("broken".to_string())).unwrap_err();
    assert_eq!(e.message(), "broken");

    let mut s = ScreenCapturer::X11(X11Capturer::new(800, 600));
    assert_eq!(s.backend_name(), "X11 (XCB)");
    assert_eq!((s.width(), s.height()), (800, 600));
    assert_eq!(s.capture_frame(FramePoll::X11(X11Poll::Ready(vec![1]))).unwrap(), Some(vec![1]));

    let mut w = ScreenCapturer::Wayland(WaylandCapturer::new(Some((10, 20))));
    assert_eq!(w.backend_name(), "Wayland (PipeWire)");
    let r = w.capture_frame(FramePoll::Wayland(WaylandPull::Sample {
        width: 30,
        height: 40,
        frame: MappedFrame::Planes(vec![Some(vec![5u8])]),
    }));
    assert_eq!(r.unwrap(), Some(vec![5u8]));
    assert_eq!((w.width(), w.height()), (30, 40));
}

#[test]
fn capture_error_messages() {
    assert_eq!(CaptureError::InvalidVideoInfo.message(), "Cannot parse VideoInfo from caps");
    assert_eq!(CaptureError::MissingBuffer.message(), "No buffer in GStreamer sample");
    assert_eq!(CaptureError::UnmappableFrame.message(), "Cannot map GStreamer buffer as VideoFrame");
    assert_eq!(CaptureError::UnreadablePlane.message(), "Cannot read plane data");
}

#[test]
fn runtime_directories_of_probed_users() {
    assert_eq!(runtime_dir(1000), "/run/user/1000");
    assert_eq!(runtime_dir(0), "/run/user/0");
    let dirs = user_runtime_dirs();
    assert_eq!(dirs.len(), 7);
    assert_eq!(dirs[0], "/run/user/999");
    assert_eq!(dirs[6], "/run/user/1005");
    let sockets = wayland_socket_candidates();
    assert_eq!(sockets.len(), 14);
    assert_eq!(sockets[0], "/run/user/999/wayland-0");
    assert_eq!(sockets[3], "/run/user/1000/wayland-1");
}

#[test]
fn session_environment_restoration() {
    let vars = session_env_updates("/run/user/1000", false, false);
    assert_eq!(
        vars,
        vec![
            ("DBUS_SESSION_BUS_ADDRESS".to_string(), "unix:path=/run/user/1000/bus".to_string()),
            ("XDG_RUNTIME_DIR".to_string(), "/run/user/1000".to_string()),
        ]
    );
    assert!(session_env_updates("/run/user/1000", true, true).is_empty());
    assert_eq!(session_env_updates("/run/user/1000", true, false).len(), 1);
    let c = wayland_display_candidates("");
    assert_eq!(c[0], ("/wayland-0".to_string(), "wayland-0".to_string()));
    assert_eq!(c[1], ("/wayland-1".to_string(), "wayland-1".to_string()));
}

#[test]
fn niri_and_xauthority_detection() {
    assert!(is_niri_desktop("niri"));
    assert!(is_niri_desktop("NIRI"));
    assert!(is_niri_desktop("x-Niri:wlroots"));
    assert!(!is_niri_desktop("GNOME"));
    assert!(!is_niri_desktop(""));
    assert!(is_xauthority_file_name(".mutter-Xwaylandauth.ABC123"));
    assert!(is_xauthority_file_name("XAUTHORITY"));
    assert!(is_xauthority_file_name("serverauth.xauth1"));
    assert!(!is_xauthority_file_name("bus"));
}

#[test]
fn pipeline_descriptions() {
    assert_eq!(
        capture_pipeline_description(42, 97, false),
        "pipewiresrc fd=42 path=97 ! videoconvert ! video/x-raw,format=BGRx ! appsink name=sink max-buffers=2 drop=true emit-signals=false"
    );
    assert_eq!(
        capture_pipeline_description(-1, 0, true),
        "pipewiresrc fd=-1 path=0 ! glupload ! glcolorconvert ! gldownload ! video/x-raw,format=BGRx ! appsink name=sink max-buffers=2 drop=true emit-signals=false"
    );
    assert_eq!(
        capture_pipeline_description(i32::MIN, u32::MAX, false),
        format!(
            "pipewiresrc fd={} path={} ! videoconvert ! video/x-raw,format=BGRx ! appsink name=sink max-buffers=2 drop=true emit-signals=false",
            i32::MIN,
            u32::MAX
        )
    );
}

fn pairs(v: &[(&str, &str)]) -> Vec<(String, String)> {
    v.iter().map(|(a, b)| (a.to_string(), b.to_string())).collect()
}

#[test]
fn session_variables_come_from_the_first_runtime_dir_with_a_bus() {
    let bus = vec![false, false, true, true, false, false, false];
    assert_eq!(
        session_env_plan(bus.clone(), false, false),
        pairs(&[
            ("DBUS_SESSION_BUS_ADDRESS", "unix:path=/run/user/1001/bus"),
            ("XDG_RUNTIME_DIR", "/run/user/1001"),
        ])
    );
    assert_eq!(session_env_plan(bus.clone(), true, false), pairs(&[("XDG_RUNTIME_DIR", "/run/user/1001")]));
    assert!(session_env_plan(bus, true, true).is_empty());
    assert!(session_env_plan(vec![false; 7], false, false).is_empty());
}

#[test]
fn wayland_display_is_the_first_existing_socket_when_unset() {
    assert_eq!(wayland_display_choice(false, vec![true, true]), Some("wayland-0".to_string()));
    assert_eq!(wayland_display_choice(false, vec![false, true]), Some("wayland-1".to_string()));
    assert_eq!(wayland_display_choice(false, vec![false, false]), None);
    assert_eq!(wayland_display_choice(true, vec![true, true]), None);
}

#[test]
fn niri_gets_software_gl_and_the_gl_pipeline() {
    assert_eq!(gl_env_updates("Niri"), pairs(&[("LIBGL_ALWAYS_SOFTWARE", "1")]));
    assert!(gl_env_updates("GNOME").is_empty());
    assert!(pipeline_for_desktop(5, 42, "niri").contains("glupload ! glcolorconvert ! gldownload"));
    assert_eq!(pipeline_for_desktop(5, 42, "GNOME"), capture_pipeline_description(5, 42, false));
}

#[test]
fn first_xauthority_scans_directories_in_order() {
    let names = vec![
        vec!["bus".to_string(), "pulse".to_string()],
        vec![],
        vec!["wayland-0".to_string(), ".mutter-Xwaylandauth.AB12".to_string(), "Xauthority".to_string()],
        vec![".xauthXYZ".to_string()],
    ];
    assert_eq!(first_xauthority(false, &names), Some((2, 1)));
    assert_eq!(first_xauthority(true, &names), None);
    let none = vec![vec!["bus".to_string()], vec!["pipewire-0".to_string()]];
    assert_eq!(first_xauthority(false, &none), None);
    let upper = vec![vec!["MyXAUTH".to_string()]];
    assert_eq!(first_xauthority(false, &upper), Some((0, 0)));
}

#[test]
fn wayland_is_used_only_when_preferred_and_started() {
    assert_eq!(capture_plan(CaptureBackend::Wayland, true), CaptureBackend::Wayland);
    assert_eq!(capture_plan(CaptureBackend::Wayland, false), CaptureBackend::X11);
    assert_eq!(capture_plan(CaptureBackend::X11, true), CaptureBackend::X11);
}

#[test]
fn pointer_positions_scale_onto_the_axis_and_buttons_map() {
    assert_eq!(abs_axis_value(0, 1920), 0);
    assert_eq!(abs_axis_value(1920, 1920), 65535);
    assert_eq!(abs_axis_value(960, 1920), 32767);
    assert_eq!(abs_axis_value(-5, 1920), 0);
    assert_eq!(abs_axis_value(5000, 1920), 65535);
    assert_eq!(abs_axis_value(10, 0), 0);
    assert_eq!(mouse_button_code(0), 0x110);
    assert_eq!(mouse_button_code(1), 0x112);
    assert_eq!(mouse_button_code(2), 0x111);
    assert_eq!(mouse_button_code(0x113), 0x113);
}
