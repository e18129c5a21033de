use nyxframe::config::OpenH264Config;
use nyxframe::encoder::{EncodeError, H264Encoder};
use nyxframe::nal::count_nal_types;
use nyxframe::session::CaptureSession;

fn settings() -> OpenH264Config {
    OpenH264Config { target_bitrate_bps: 5_000_000, enable_skip_frame: false }
}

fn gray_bgra(width: usize, height: usize, level: u8) -> Vec<u8> {
    let mut v = Vec::with_capacity(width * height * 4);
    for _ in 0..width * height {
        v.extend_from_slice(&[level, level, level, 255]);
    }
    v
}

#[test]
fn encoder_opens_with_the_requested_settings() {
    let enc = H264Encoder::open(settings()).expect("encoder opens");
    assert_eq!(enc.settings(), settings());
}

#[test]
fn first_encoded_frame_carries_parameter_sets_and_an_idr_slice() {
    let mut session = CaptureSession::new(64, 48);
    let mut enc = H264Encoder::open(settings()).expect("encoder opens");
    let force = session.prepare_h264_frame(&gray_bgra(64, 48, 90), true);
    assert!(force);
    enc.force_intra_frame();
    let frame = match session.encode_prepared(&mut enc) {
        Ok(f) => f,
        Err(e) => panic!("encode failed: {:?}", e),
    };
    assert!(!frame.bytes.is_empty());
    assert_eq!((frame.sps, frame.pps, frame.idr), count_nal_types(&frame.bytes));
    assert!(frame.sps >= 1);
    assert!(frame.pps >= 1);
    assert!(frame.idr >= 1);
}

#[test]
fn every_encoded_frame_is_tallied_from_its_own_bytes() {
    let mut session = CaptureSession::new(32, 32);
    let mut enc = H264Encoder::open(settings()).expect("encoder opens");
    for level in [10u8, 60, 200] {
        session.prepare_h264_frame(&gray_bgra(32, 32, level), false);
        let frame = session.encode_prepared(&mut enc).ok().expect("frame encodes");
        assert_eq!((frame.sps, frame.pps, frame.idr), count_nal_types(&frame.bytes));
    }
    assert_eq!(session.frames(), 3);
}

#[test]
fn a_forced_intra_frame_later_in_the_stream_is_an_idr() {
    let mut session = CaptureSession::new(32, 32);
    let mut enc = H264Encoder::open(settings()).expect("encoder opens");
    for level in [10u8, 12, 14] {
        session.prepare_h264_frame(&gray_bgra(32, 32, level), false);
        session.encode_prepared(&mut enc).ok().expect("frame encodes");
    }
    session.prepare_h264_frame(&gray_bgra(32, 32, 16), true);
    enc.force_intra_frame();
    let frame = session.encode_prepared(&mut enc).ok().expect("frame encodes");
    assert!(frame.idr >= 1);
}

#[test]
fn encoding_before_any_frame_was_prepared_fails_with_no_frame() {
    let session = CaptureSession::new(16, 16);
    let mut enc = H264Encoder::open(settings()).expect("encoder opens");
    assert!(matches!(session.encode_prepared(&mut enc), Err(EncodeError::NoFrame)));
}
