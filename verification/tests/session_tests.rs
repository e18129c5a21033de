use nyxframe::framing::{command_length, frame_header};
use nyxframe::protocol::{execute_command, Command, InputEvent};
use nyxframe::session::{pacing_delay_ms, CaptureSession, StreamSettings};

#[test]
fn settings_start_with_h264_at_60_fps_and_a_keyframe() {
    let mut s = StreamSettings::new();
    assert_eq!(s.target_fps, 60);
    assert!(s.is_h264());
    assert_eq!(s.frame_budget_ms(), 16);
    assert!(s.take_keyframe_request());
    assert!(!s.take_keyframe_request());
}

#[test]
fn stream_config_changes_settings_and_requests_keyframe() {
    let mut s = StreamSettings::new();
    s.take_keyframe_request();
    let ev = s.handle_command(Command::StreamConfig {
        backpressure: true,
        codec: "mjpeg".to_string(),
        target_fps: 30,
    });
    assert_eq!(ev, None);
    assert_eq!(s.target_fps, 30);
    assert!(!s.is_h264());
    assert_eq!(s.frame_budget_ms(), 33);
    assert!(s.take_keyframe_request());
}

#[test]
fn zero_fps_falls_back_to_16_ms() {
    let mut s = StreamSettings::new();
    s.handle_command(Command::StreamConfig { backpressure: false, codec: "h264".to_string(), target_fps: 0 });
    assert_eq!(s.frame_budget_ms(), 16);
    assert!(s.is_h264());
}

#[test]
fn input_commands_become_input_events() {
    let mut s = StreamSettings::new();
    assert_eq!(
        s.handle_command(Command::Key { key_code: 30, pressed: true }),
        Some(InputEvent::Key { key_code: 30, pressed: true })
    );
    assert_eq!(s.target_fps, 60);
    assert_eq!(
        execute_command(Command::MouseRelative { dx: -3, dy: 7 }),
        Some(InputEvent::MouseRelative { dx: -3, dy: 7 })
    );
    assert_eq!(
        execute_command(Command::MouseAbsolute { x: 10, y: 20, max_x: 1920, max_y: 1080 }),
        Some(InputEvent::MouseAbsolute { x: 10, y: 20, max_x: 1920, max_y: 1080 })
    );
    assert_eq!(
        execute_command(Command::MouseClick { button: 272, pressed: false }),
        Some(InputEvent::MouseClick { button: 272, pressed: false })
    );
    assert_eq!(
        execute_command(Command::MouseScroll { steps: -2 }),
        Some(InputEvent::MouseScroll { steps: -2 })
    );
    assert_eq!(
        execute_command(Command::StreamConfig { backpressure: false, codec: String::new(), target_fps: 1 }),
        None
    );
}

#[test]
fn pacing_waits_for_the_rest_of_the_budget() {
    assert_eq!(pacing_delay_ms(16, 5), Some(11));
    assert_eq!(pacing_delay_ms(16, 16), None);
    assert_eq!(pacing_delay_ms(16, 40), None);
    assert_eq!(pacing_delay_ms(0, 0), None);
}

#[test]
fn every_300th_frame_is_a_keyframe() {
    let mut session = CaptureSession::new(2, 2);
    let pixels = vec![255u8; 2 * 2 * 4];
    assert!(session.yuv().is_none());
    assert!(session.prepare_h264_frame(&pixels, true));
    for frame in 2..=600u32 {
        let forced = session.prepare_h264_frame(&pixels, false);
        assert_eq!(forced, frame % 300 == 0, "frame {}", frame);
    }
    let yuv = session.yuv().unwrap();
    assert_eq!(yuv.y(), &[255, 255, 255, 255]);
    assert_eq!(yuv.u(), &[128]);
}

#[test]
fn session_converts_bgra_frames() {
    let mut session = CaptureSession::new(2, 2);
    assert_eq!(session.width(), 2);
    assert_eq!(session.height(), 2);
    assert_eq!(session.raw_payload_len(), 16);
    // Pure blue in BGRA order.
    let pixels = vec![255u8, 0, 0, 255, 255, 0, 0, 255, 255, 0, 0, 255, 255, 0, 0, 255];
    assert!(session.prepare_h264_frame(&pixels, true));
    let yuv = session.yuv().unwrap();
    assert_eq!(yuv.y(), &[28, 28, 28, 28]);
    assert_eq!(yuv.u(), &[255]);
    assert_eq!(yuv.v(), &[107]);
}

#[test]
fn frame_header_is_twenty_little_endian_bytes() {
    let h = frame_header(1920, 1080, 0x0102_0304_0506_0708, 5);
    assert_eq!(
        h,
        vec![
            0x80, 0x07, 0, 0, 0x38, 0x04, 0, 0, 0x08, 0x07, 0x06, 0x05, 0x04, 0x03, 0x02, 0x01, 5, 0, 0, 0
        ]
    );
}

#[test]
fn command_length_reads_what_was_written() {
    assert_eq!(command_length(&[0x2a, 0, 0, 0]), 42);
    assert_eq!(command_length(&[0x78, 0x56, 0x34, 0x12]), 0x1234_5678);
    assert_eq!(command_length(&0xdead_beefu32.to_le_bytes()), 0xdead_beef);
}
