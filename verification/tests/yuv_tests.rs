use nyxframe::yuv::{bgra_to_rgb, FullRangeYUVBuffer};

#[test]
fn new_buffer_is_zeroed_with_plane_sizes() {
    let buf = FullRangeYUVBuffer::new(5, 3);
    assert_eq!(buf.width(), 5);
    assert_eq!(buf.height(), 3);
    assert_eq!(buf.y().len(), 15);
    assert_eq!(buf.u().len(), 2);
    assert_eq!(buf.v().len(), 2);
    assert!(buf.y().iter().all(|&b| b == 0));
    assert_eq!(buf.y_stride(), 5);
    assert_eq!(buf.u_stride(), 2);
    assert_eq!(buf.v_stride(), 2);
}

#[test]
fn red_pixel_converts_to_full_range_values() {
    // 2x2 frame of pure red.
    let rgb = vec![255u8, 0, 0, 255, 0, 0, 255, 0, 0, 255, 0, 0];
    let mut buf = FullRangeYUVBuffer::new(2, 2);
    buf.read_rgb(&rgb);
    assert_eq!(buf.y(), &[76, 76, 76, 76]);
    assert_eq!(buf.u(), &[85]);
    assert_eq!(buf.v(), &[255]);
}

#[test]
fn blue_and_green_pixels_convert_exactly() {
    // Y of blue: (29 * 255) >> 8 = 28; U: (128 * 255) >> 8 + 128 = 255;
    // V: (-21 * 255) >> 8 + 128 = -21 + 128 = 107.
    let blue = vec![0u8, 0, 255, 0, 0, 255, 0, 0, 255, 0, 0, 255];
    let mut buf = FullRangeYUVBuffer::new(2, 2);
    buf.read_rgb(&blue);
    assert_eq!(buf.y(), &[28, 28, 28, 28]);
    assert_eq!(buf.u(), &[255]);
    assert_eq!(buf.v(), &[107]);
    // Green: Y = (150 * 255) >> 8 = 149; U = (-85 * 255) >> 8 + 128 = -85 + 128 = 43;
    // V = (-107 * 255) >> 8 + 128 = -107 + 128 = 21.
    let green = vec![0u8, 255, 0, 0, 255, 0, 0, 255, 0, 0, 255, 0];
    buf.read_rgb(&green);
    assert_eq!(buf.y(), &[149, 149, 149, 149]);
    assert_eq!(buf.u(), &[43]);
    assert_eq!(buf.v(), &[21]);
}

#[test]
fn gray_frame_has_neutral_chroma() {
    for level in [0u8, 1, 77, 128, 200, 255] {
        let rgb = vec![level; 4 * 4 * 3];
        let mut buf = FullRangeYUVBuffer::new(4, 4);
        buf.read_rgb(&rgb);
        assert!(buf.y().iter().all(|&y| y == level));
        assert!(buf.u().iter().all(|&u| u == 128));
        assert!(buf.v().iter().all(|&v| v == 128));
    }
}

#[test]
fn chroma_is_the_mean_of_each_block() {
    // Left block: red levels 0, 4, 8, 12 (mean 6); right block white.
    let mut rgb = vec![0u8; 4 * 2 * 3];
    let reds = [0u8, 4, 255, 255, 8, 12, 255, 255];
    for (k, r) in reds.iter().enumerate() {
        rgb[3 * k] = *r;
        if *r == 255 {
            rgb[3 * k + 1] = 255;
            rgb[3 * k + 2] = 255;
        }
    }
    let mut buf = FullRangeYUVBuffer::new(4, 2);
    buf.read_rgb(&rgb);
    // U = ((-43 * 6) >> 8) + 128 = -2 + 128 = 126; V = ((128 * 6) >> 8) + 128 = 3 + 128 = 131.
    assert_eq!(buf.u(), &[126, 128]);
    assert_eq!(buf.v(), &[131, 128]);
}

#[test]
fn short_frame_leaves_the_rest_of_the_luma_plane() {
    let mut buf = FullRangeYUVBuffer::new(2, 2);
    buf.read_rgb(&[200u8; 12]);
    // Two whole pixels and a stray byte; an odd-sized frame has no chroma blocks to read.
    let mut narrow = FullRangeYUVBuffer::new(3, 1);
    narrow.read_rgb(&[100u8, 100, 100, 50, 50, 50, 7]);
    assert_eq!(narrow.y(), &[100, 50, 0]);
    assert!(narrow.u().is_empty());
    assert_eq!(buf.y(), &[200, 200, 200, 200]);
}

#[test]
fn bgra_frame_becomes_rgb() {
    let bgra = vec![1u8, 2, 3, 4, 10, 20, 30, 40];
    let mut rgb = vec![9u8; 9];
    bgra_to_rgb(&bgra, &mut rgb);
    assert_eq!(rgb, vec![3, 2, 1, 30, 20, 10, 9, 9, 9]);
    let mut small = vec![0u8; 3];
    bgra_to_rgb(&bgra, &mut small);
    assert_eq!(small, vec![3, 2, 1]);
}
