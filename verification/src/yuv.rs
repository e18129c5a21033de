use vstd::prelude::*;
use vstd::arithmetic::div_mod::*;

verus! {

/// Saturates an integer into the byte range `[0, 255]`.
pub open spec fn clamp_byte(x: int) -> u8 {
    if x < 0 {
        0u8
    } else if x > 255 {
        255u8
    } else {
        x as u8
    }
}

/// Full-range (PC/JPEG) luma of one pixel: `(77 R + 150 G + 29 B) >> 8`, saturated.
pub open spec fn luma(r: int, g: int, b: int) -> u8 {
    clamp_byte((77 * r + 150 * g + 29 * b) / 256)
}

/// Full-range blue-difference chroma of a (block-averaged) pixel:
/// `((-43 R - 85 G + 128 B) >> 8) + 128`, saturated.
pub open spec fn chroma_u(r: int, g: int, b: int) -> u8 {
    clamp_byte((-43 * r - 85 * g + 128 * b) / 256 + 128)
}

/// Full-range red-difference chroma of a (block-averaged) pixel:
/// `((128 R - 107 G - 21 B) >> 8) + 128`, saturated.
pub open spec fn chroma_v(r: int, g: int, b: int) -> u8 {
    clamp_byte((128 * r - 107 * g - 21 * b) / 256 + 128)
}

/// Channel `c` (0 = R, 1 = G, 2 = B) of pixel `(x, y)` in a packed RGB24 frame of width `w`.
pub open spec fn channel(rgb: Seq<u8>, w: int, x: int, y: int, c: int) -> int {
    rgb[(x + y * w) * 3 + c] as int
}

/// Integer mean of channel `c` over the 2x2 block whose top-left pixel is `(2i, 2j)`.
pub open spec fn block_mean(rgb: Seq<u8>, w: int, i: int, j: int, c: int) -> int {
    (channel(rgb, w, 2 * i, 2 * j, c) + channel(rgb, w, 2 * i + 1, 2 * j, c) + channel(
        rgb,
        w,
        2 * i,
        2 * j + 1,
        c,
    ) + channel(rgb, w, 2 * i + 1, 2 * j + 1, c)) / 4
}

/// Subsampled U sample of block `(i, j)`.
pub open spec fn block_u(rgb: Seq<u8>, w: int, i: int, j: int) -> u8 {
    chroma_u(block_mean(rgb, w, i, j, 0), block_mean(rgb, w, i, j, 1), block_mean(rgb, w, i, j, 2))
}

/// Subsampled V sample of block `(i, j)`.
pub open spec fn block_v(rgb: Seq<u8>, w: int, i: int, j: int) -> u8 {
    chroma_v(block_mean(rgb, w, i, j, 0), block_mean(rgb, w, i, j, 1), block_mean(rgb, w, i, j, 2))
}

/// Luma of the `k`-th packed RGB24 pixel.
pub open spec fn pixel_luma(rgb: Seq<u8>, k: int) -> u8 {
    luma(rgb[3 * k] as int, rgb[3 * k + 1] as int, rgb[3 * k + 2] as int)
}

/// Element `(i, j)` of a row-major plane with the given stride.
#[verifier::opaque]
pub open spec fn at2(plane: Seq<u8>, stride: int, i: int, j: int) -> u8 {
    plane[i + j * stride]
}

/// Saturates `x` into `[min, max]`: `max` above it, `min` below it, `x`
/// otherwise.
fn clamp_i32(x: i32, min: i32, max: i32) -> (r: i32)
    requires
        min <= max,
    ensures
        r == (if x < min {
            min
        } else if x > max {
            max
        } else {
            x
        }),
{
    if x < min {
        min
    } else if x > max {
        max
    } else {
        x
    }
}

/// Arithmetic right shift by 8 of an `i32` is floor division by 256.
proof fn lemma_shr8_is_floor_div(x: i32)
    ensures
        (x >> 8u32) as int == (x as int) / 256,
{
    let q = x >> 8u32;
    assert(256 * (q as int) <= x as int && (x as int) < 256 * (q as int) + 256) by (bit_vector)
        requires
            q == x >> 8u32,
    ;
    lemma_fundamental_div_mod(x as int, 256);
    lemma_mod_bound(x as int, 256);
}

/// Index facts for block `(i, j)` of a `w` x `h` frame stored in `len` RGB bytes.
proof fn lemma_block_indices(w: int, h: int, len: int, i: int, j: int)
    requires
        w >= 0,
        h >= 0,
        rgb_fits(w, h, len),
        0 <= i < w / 2,
        0 <= j < h / 2,
    ensures
        0 <= (2 * i + 2 * j * w) * 3,
        (2 * i + 2 * j * w) * 3 + 2 < (2 * i + 1 + 2 * j * w) * 3 + 2,
        (2 * i + 1 + 2 * j * w) * 3 + 2 < (2 * i + (2 * j + 1) * w) * 3 + 2,
        (2 * i + (2 * j + 1) * w) * 3 + 2 < (2 * i + 1 + (2 * j + 1) * w) * 3 + 2,
        (2 * i + 1 + (2 * j + 1) * w) * 3 + 2 < len,
        0 <= i + j * (w / 2) < (w / 2) * (h / 2),
{
    let hw = w / 2;
    let hh = h / 2;
    assert(0 <= (2 * i + 2 * j * w) * 3) by (nonlinear_arith)
        requires
            0 <= i,
            0 <= j,
            0 <= w,
    ;
    assert((2 * i + 1 + (2 * j + 1) * w) <= 2 * hw - 1 + (2 * hh - 1) * w) by (nonlinear_arith)
        requires
            0 <= i < hw,
            0 <= j < hh,
            0 <= w,
    ;
    assert((2 * j + 1) * w == 2 * j * w + w) by (nonlinear_arith);
    assert(0 <= i + j * hw < hw * hh) by (nonlinear_arith)
        requires
            0 <= i < hw,
            0 <= j < hh,
    ;
}

/// Distinct blocks of a plane with stride `hw` occupy distinct indices.
proof fn lemma_index2_injective(hw: int, i: int, j: int, i2: int, j2: int)
    requires
        0 <= i < hw,
        0 <= i2 < hw,
        0 <= j,
        0 <= j2,
        i != i2 || j != j2,
    ensures
        i + j * hw != i2 + j2 * hw,
{
    if j2 < j {
        assert(i2 + j2 * hw < i + j * hw) by (nonlinear_arith)
            requires
                0 <= i < hw,
                0 <= i2 < hw,
                0 <= j2 < j,
        ;
    } else if j < j2 {
        assert(i + j * hw < i2 + j2 * hw) by (nonlinear_arith)
            requires
                0 <= i < hw,
                0 <= i2 < hw,
                0 <= j < j2,
        ;
    }
}

/// The U and V samples of block `(i, j)` of a `width` x `height` packed RGB24 frame.
fn block_chroma(rgb: &[u8], width: usize, height: usize, i: usize, j: usize) -> (uv: (u8, u8))
    requires
        rgb_fits(width as int, height as int, rgb@.len() as int),
        i < width / 2,
        j < height / 2,
    ensures
        uv.0 == block_u(rgb@, width as int, i as int, j as int),
        uv.1 == block_v(rgb@, width as int, i as int, j as int),
{
    proof {
        lemma_block_indices(width as int, height as int, rgb@.len() as int, i as int, j as int);
        assert(rgb@.len() == rgb.len());
    }
    let x0 = i * 2;
    let x1 = x0 + 1;
    let y0 = j * 2;
    let y1 = y0 + 1;

    let p00_idx = (x0 + y0 * width) * 3;
    let p01_idx = (x1 + y0 * width) * 3;
    let p10_idx = (x0 + y1 * width) * 3;
    let p11_idx = (x1 + y1 * width) * 3;

    let r_avg = (rgb[p00_idx] as i32 + rgb[p01_idx] as i32 + rgb[p10_idx] as i32
        + rgb[p11_idx] as i32) / 4;
    let g_avg = (rgb[p00_idx + 1] as i32 + rgb[p01_idx + 1] as i32 + rgb[p10_idx + 1] as i32
        + rgb[p11_idx + 1] as i32) / 4;
    let b_avg = (rgb[p00_idx + 2] as i32 + rgb[p01_idx + 2] as i32 + rgb[p10_idx + 2] as i32
        + rgb[p11_idx + 2] as i32) / 4;

    let u_sum = -43 * r_avg - 85 * g_avg + 128 * b_avg;
    let v_sum = 128 * r_avg - 107 * g_avg - 21 * b_avg;
    proof {
        lemma_shr8_is_floor_div(u_sum);
        lemma_shr8_is_floor_div(v_sum);
    }
    let u_val = clamp_i32((u_sum >> 8) + 128, 0, 255) as u8;
    let v_val = clamp_i32((v_sum >> 8) + 128, 0, 255) as u8;
    (u_val, v_val)
}

/// Writing block `(i, j)` of an `hw` x `hh` plane changes that element only.
proof fn lemma_at2_update(plane: Seq<u8>, hw: int, hh: int, i: int, j: int, val: u8)
    requires
        0 <= i < hw,
        0 <= j < hh,
        plane.len() == hw * hh,
    ensures
        at2(plane.update(i + j * hw, val), hw, i, j) == val,
        forall|i2: int, j2: int|
            0 <= i2 < hw && 0 <= j2 < hh && (i2 != i || j2 != j) ==> #[trigger] at2(
                plane.update(i + j * hw, val),
                hw,
                i2,
                j2,
            ) == at2(plane, hw, i2, j2),
{
    reveal(at2);
    assert(0 <= i + j * hw < hw * hh) by (nonlinear_arith)
        requires
            0 <= i < hw,
            0 <= j < hh,
    ;
    assert forall|i2: int, j2: int|
        0 <= i2 < hw && 0 <= j2 < hh && (i2 != i || j2 != j) implies #[trigger] at2(
        plane.update(i + j * hw, val),
        hw,
        i2,
        j2,
    ) == at2(plane, hw, i2, j2) by {
        lemma_index2_injective(hw, i, j, i2, j2);
        assert(0 <= i2 + j2 * hw < hw * hh) by (nonlinear_arith)
            requires
                0 <= i2 < hw,
                0 <= j2 < hh,
        ;
    }
}

/// A frame held as three full-range 8-bit planes: a full-resolution Y plane
/// and U and V planes subsampled 2x2 (YUV 4:2:0).
pub struct FullRangeYUVBuffer {
    width: usize,
    height: usize,
    y_plane: Vec<u8>,
    u_plane: Vec<u8>,
    v_plane: Vec<u8>,
}

/// Whether a packed RGB24 buffer of `len` bytes can be converted into a
/// `w` x `h` buffer: its whole pixels fit in the Y plane, and every 2x2 block
/// read for the chroma planes lies inside it.
pub open spec fn rgb_fits(w: int, h: int, len: int) -> bool {
    &&& len / 3 <= w * h
    &&& (w / 2 > 0 && h / 2 > 0) ==> (2 * (w / 2) - 1 + (2 * (h / 2) - 1) * w) * 3 + 2 < len
}

impl FullRangeYUVBuffer {
    /// Frame width in pixels.
    pub closed spec fn frame_width(&self) -> nat {
        self.width as nat
    }

    /// Frame height in pixels.
    pub closed spec fn frame_height(&self) -> nat {
        self.height as nat
    }

    /// Contents of the Y plane.
    pub closed spec fn luma_plane(&self) -> Seq<u8> {
        self.y_plane@
    }

    /// Contents of the U plane.
    pub closed spec fn u_samples(&self) -> Seq<u8> {
        self.u_plane@
    }

    /// Contents of the V plane.
    pub closed spec fn v_samples(&self) -> Seq<u8> {
        self.v_plane@
    }

    /// Plane sizes agree with the frame dimensions.
    pub open spec fn wf(&self) -> bool {
        &&& self.luma_plane().len() == self.frame_width() * self.frame_height()
        &&& self.u_samples().len() == (self.frame_width() / 2) * (self.frame_height() / 2)
        &&& self.v_samples().len() == (self.frame_width() / 2) * (self.frame_height() / 2)
    }

    /// A zero-filled buffer for a `width` x `height` frame.
    pub fn new(width: usize, height: usize) -> (buf: Self)
        requires
            width * height <= usize::MAX,
        ensures
            buf.wf(),
            buf.frame_width() == width,
            buf.frame_height() == height,
            forall|k: int| 0 <= k < buf.luma_plane().len() ==> buf.luma_plane()[k] == 0,
            forall|k: int| 0 <= k < buf.u_samples().len() ==> buf.u_samples()[k] == 0,
            forall|k: int| 0 <= k < buf.v_samples().len() ==> buf.v_samples()[k] == 0,
    {
        proof {
            vstd::arithmetic::mul::lemma_mul_upper_bound(
                (width / 2) as int,
                width as int,
                (height / 2) as int,
                height as int,
            );
        }
        let chroma_len = (width / 2) * (height / 2);
        Self {
            width,
            height,
            y_plane: vec![0u8; width * height],
            u_plane: vec![0u8; chroma_len],
            v_plane: vec![0u8; chroma_len],
        }
    }

    /// Fills the Y plane from every whole pixel of `rgb`, in order.
    fn fill_luma(&mut self, rgb: &[u8])
        requires
            old(self).wf(),
            rgb@.len() / 3 <= old(self).frame_width() * old(self).frame_height(),
        ensures
            final(self).wf(),
            final(self).frame_width() == old(self).frame_width(),
            final(self).frame_height() == old(self).frame_height(),
            final(self).u_samples() == old(self).u_samples(),
            final(self).v_samples() == old(self).v_samples(),
            forall|k: int|
                0 <= k < rgb@.len() / 3 ==> #[trigger] final(self).luma_plane()[k] == pixel_luma(rgb@, k),
            forall|k: int|
                rgb@.len() / 3 <= k < final(self).luma_plane().len()
                    ==> #[trigger] final(self).luma_plane()[k] == old(self).luma_plane()[k],
    {
        let n = rgb.len() / 3;
        let mut idx: usize = 0;
        while idx < n
            invariant
                n == rgb@.len() / 3,
                idx <= n,
                n <= self.y_plane@.len(),
                self.width == old(self).width,
                self.height == old(self).height,
                self.y_plane@.len() == old(self).y_plane@.len(),
                self.u_plane@ == old(self).u_plane@,
                self.v_plane@ == old(self).v_plane@,
                forall|k: int| 0 <= k < idx ==> #[trigger] self.y_plane@[k] == pixel_luma(rgb@, k),
                forall|k: int|
                    idx <= k < self.y_plane@.len() ==> #[trigger] self.y_plane@[k] == old(self).y_plane@[k],
            decreases n - idx,
        {
            proof {
                let len = rgb@.len() as int;
                assert(3 * idx + 2 < len) by (nonlinear_arith)
                    requires
                        idx < n,
                        n == len / 3,
                ;
                assert(rgb@.len() == rgb.len());
                assert(3 * idx <= usize::MAX);
            }
            let r = rgb[3 * idx] as i32;
            let g = rgb[3 * idx + 1] as i32;
            let b = rgb[3 * idx + 2] as i32;
            let sum = 77 * r + 150 * g + 29 * b;
            proof {
                lemma_shr8_is_floor_div(sum);
            }
            let val = clamp_i32(sum >> 8, 0, 255) as u8;
            self.y_plane[idx] = val;
            idx += 1;
        }
    }

    /// Fills the U and V planes from the 2x2 block means of `rgb`.
    #[verifier::spinoff_prover]
    fn fill_chroma(&mut self, rgb: &[u8])
        requires
            old(self).wf(),
            rgb_fits(
                old(self).frame_width() as int,
                old(self).frame_height() as int,
                rgb@.len() as int,
            ),
        ensures
            final(self).wf(),
            final(self).frame_width() == old(self).frame_width(),
            final(self).frame_height() == old(self).frame_height(),
            final(self).luma_plane() == old(self).luma_plane(),
            forall|i: int, j: int|
                0 <= i < old(self).frame_width() / 2 && 0 <= j < old(self).frame_height() / 2 ==> {
                    &&& #[trigger] at2(final(self).u_samples(), (old(self).frame_width() / 2) as int, i, j)
                        == block_u(rgb@, old(self).frame_width() as int, i, j)
                    &&& at2(final(self).v_samples(), (old(self).frame_width() / 2) as int, i, j) == block_v(
                        rgb@,
                        old(self).frame_width() as int,
                        i,
                        j,
                    )
                },
    {
        let width = self.width;
        let height = self.height;
        let half_width = width / 2;
        let half_height = height / 2;
        let ghost w = width as int;
        let ghost hw = half_width as int;
        let mut j: usize = 0;
        while j < half_height
            invariant
                self.width == width,
                self.height == height,
                half_width == width / 2,
                half_height == height / 2,
                w == width,
                hw == half_width,
                j <= half_height,
                rgb_fits(w, height as int, rgb@.len() as int),
                self.y_plane@ == old(self).y_plane@,
                self.u_plane@.len() == half_width * half_height,
                self.v_plane@.len() == half_width * half_height,
                forall|i2: int, j2: int|
                    0 <= i2 < hw && 0 <= j2 < j ==> {
                        &&& #[trigger] at2(self.u_plane@, hw, i2, j2) == block_u(rgb@, w, i2, j2)
                        &&& at2(self.v_plane@, hw, i2, j2) == block_v(rgb@, w, i2, j2)
                    },
            decreases half_height - j,
        {
            let mut i: usize = 0;
            while i < half_width
                invariant
                    self.width == width,
                    self.height == height,
                    half_width == width / 2,
                    half_height == height / 2,
                    w == width,
                    hw == half_width,
                    j < half_height,
                    i <= half_width,
                    rgb_fits(w, height as int, rgb@.len() as int),
                    self.y_plane@ == old(self).y_plane@,
                    self.u_plane@.len() == half_width * half_height,
                    self.v_plane@.len() == half_width * half_height,
                    forall|i2: int, j2: int|
                        0 <= i2 < hw && 0 <= j2 < j ==> {
                            &&& #[trigger] at2(self.u_plane@, hw, i2, j2) == block_u(rgb@, w, i2, j2)
                            &&& at2(self.v_plane@, hw, i2, j2) == block_v(rgb@, w, i2, j2)
                        },
                    forall|i2: int|
                        0 <= i2 < i ==> {
                            &&& #[trigger] at2(self.u_plane@, hw, i2, j as int) == block_u(
                                rgb@,
                                w,
                                i2,
                                j as int,
                            )
                            &&& at2(self.v_plane@, hw, i2, j as int) == block_v(rgb@, w, i2, j as int)
                        },
                decreases half_width - i,
            {
                proof {
                    lemma_block_indices(w, height as int, rgb@.len() as int, i as int, j as int);
                    assert(self.u_plane@.len() == self.u_plane.len());
                    assert(0 <= j * half_width <= i + j * half_width) by (nonlinear_arith)
                        requires
                            0 <= i,
                            0 <= j,
                            0 <= half_width,
                    ;
                }
                let (u_val, v_val) = block_chroma(rgb, width, height, i, j);
                let dst_idx = i + j * half_width;
                let ghost u_before = self.u_plane@;
                let ghost v_before = self.v_plane@;
                self.u_plane[dst_idx] = u_val;
                self.v_plane[dst_idx] = v_val;
                proof {
                    lemma_at2_update(u_before, hw, half_height as int, i as int, j as int, u_val);
                    lemma_at2_update(v_before, hw, half_height as int, i as int, j as int, v_val);
                    assert(self.u_plane@ == u_before.update(i + j * hw, u_val));
                    assert(self.v_plane@ == v_before.update(i + j * hw, v_val));
                    assert forall|i2: int, j2: int| 0 <= i2 < hw && 0 <= j2 < j implies {
                        &&& #[trigger] at2(self.u_plane@, hw, i2, j2) == block_u(rgb@, w, i2, j2)
                        &&& at2(self.v_plane@, hw, i2, j2) == block_v(rgb@, w, i2, j2)
                    } by {
                        assert(at2(u_before, hw, i2, j2) == block_u(rgb@, w, i2, j2));
                        assert(at2(v_before, hw, i2, j2) == block_v(rgb@, w, i2, j2));
                    }
                }
                i += 1;
            }
            let ghost jj = j as int;
            j += 1;
            proof {
                assert forall|i2: int, j2: int| 0 <= i2 < hw && 0 <= j2 < j implies {
                    &&& #[trigger] at2(self.u_plane@, hw, i2, j2) == block_u(rgb@, w, i2, j2)
                    &&& at2(self.v_plane@, hw, i2, j2) == block_v(rgb@, w, i2, j2)
                } by {
                    if j2 == jj {
                        assert(at2(self.u_plane@, hw, i2, jj) == block_u(rgb@, w, i2, jj));
                        assert(at2(self.v_plane@, hw, i2, jj) == block_v(rgb@, w, i2, jj));
                    } else {
                        assert(at2(self.u_plane@, hw, i2, j2) == block_u(rgb@, w, i2, j2));
                        assert(at2(self.v_plane@, hw, i2, j2) == block_v(rgb@, w, i2, j2));
                    }
                }
            }
        }
    }

    /// The planes of `self` are the conversion of the packed RGB24 frame `rgb`
    /// into this buffer, whose Y plane held `prior_luma` before: each whole pixel
    /// of `rgb` gives the Y sample at its index (Y samples past the last whole
    /// pixel keep their prior value), and each 2x2 block gives one U and one V
    /// sample from the integer means of its four pixels.
    pub open spec fn converted_from(&self, prior_luma: Seq<u8>, rgb: Seq<u8>) -> bool {
        let w = self.frame_width() as int;
        let h = self.frame_height() as int;
        &&& forall|k: int| 0 <= k < rgb.len() / 3 ==> #[trigger] self.luma_plane()[k] == pixel_luma(rgb, k)
        &&& forall|k: int|
            rgb.len() / 3 <= k < self.luma_plane().len() ==> #[trigger] self.luma_plane()[k]
                == prior_luma[k]
        &&& forall|i: int, j: int|
            0 <= i < w / 2 && 0 <= j < h / 2 ==> {
                &&& #[trigger] at2(self.u_samples(), w / 2, i, j) == block_u(rgb, w, i, j)
                &&& at2(self.v_samples(), w / 2, i, j) == block_v(rgb, w, i, j)
            }
    }

    /// Converts a packed RGB24 frame (3 bytes per pixel, row-major, `width`
    /// pixels per row) into the Y, U and V planes with full-range integer
    /// coefficients.
    pub fn read_rgb(&mut self, rgb: &[u8])
        requires
            old(self).wf(),
            rgb_fits(
                old(self).frame_width() as int,
                old(self).frame_height() as int,
                rgb@.len() as int,
            ),
        ensures
            final(self).wf(),
            final(self).frame_width() == old(self).frame_width(),
            final(self).frame_height() == old(self).frame_height(),
            final(self).converted_from(old(self).luma_plane(), rgb@),
    {
        self.fill_luma(rgb);
        self.fill_chroma(rgb);
    }

    /// Frame width and height in pixels.
    pub fn frame_size(&self) -> (r: (usize, usize))
        ensures
            r.0 == self.frame_width(),
            r.1 == self.frame_height(),
    {
        (self.width, self.height)
    }

    /// Frame width, as the encoder reads it.
    pub fn width(&self) -> (r: i32)
        ensures
            r == self.frame_width() as i32,
    {
        self.width as i32
    }

    /// Frame height, as the encoder reads it.
    pub fn height(&self) -> (r: i32)
        ensures
            r == self.frame_height() as i32,
    {
        self.height as i32
    }

    /// The Y plane.
    pub fn y(&self) -> (r: &[u8])
        ensures
            r@ == self.luma_plane(),
    {
        self.y_plane.as_slice()
    }

    /// The U plane.
    pub fn u(&self) -> (r: &[u8])
        ensures
            r@ == self.u_samples(),
    {
        self.u_plane.as_slice()
    }

    /// The V plane.
    pub fn v(&self) -> (r: &[u8])
        ensures
            r@ == self.v_samples(),
    {
        self.v_plane.as_slice()
    }

    /// Bytes per row of the Y plane.
    pub fn y_stride(&self) -> (r: i32)
        ensures
            r == self.frame_width() as i32,
    {
        self.width as i32
    }

    /// Bytes per row of the U plane.
    pub fn u_stride(&self) -> (r: i32)
        ensures
            r == (self.frame_width() / 2) as i32,
    {
        (self.width / 2) as i32
    }

    /// Bytes per row of the V plane.
    pub fn v_stride(&self) -> (r: i32)
        ensures
            r == (self.frame_width() / 2) as i32,
    {
        (self.width / 2) as i32
    }
}

/// A gray pixel keeps its level as luma and has neutral chroma (128, 128).
pub proof fn lemma_gray_is_neutral(x: u8)
    ensures
        luma(x as int, x as int, x as int) == x,
        chroma_u(x as int, x as int, x as int) == 128,
        chroma_v(x as int, x as int, x as int) == 128,
{
    assert((77 * x + 150 * x + 29 * x) / 256 == x as int) by (nonlinear_arith);
}

/// The full-range coefficients never leave the byte range: the saturation in
/// the conversion never changes a value.
pub proof fn lemma_conversion_never_saturates(r: u8, g: u8, b: u8)
    ensures
        0 <= (77 * r + 150 * g + 29 * b) / 256 <= 255,
        0 <= (-43 * r - 85 * g + 128 * b) / 256 + 128 <= 255,
        0 <= (128 * r - 107 * g - 21 * b) / 256 + 128 <= 255,
{
    assert(0 <= (77 * r + 150 * g + 29 * b) / 256 <= 255) by (nonlinear_arith)
        requires
            0 <= r <= 255,
            0 <= g <= 255,
            0 <= b <= 255,
    ;
    assert(0 <= (-43 * r - 85 * g + 128 * b) / 256 + 128 <= 255) by (nonlinear_arith)
        requires
            0 <= r <= 255,
            0 <= g <= 255,
            0 <= b <= 255,
    ;
    assert(0 <= (128 * r - 107 * g - 21 * b) / 256 + 128 <= 255) by (nonlinear_arith)
        requires
            0 <= r <= 255,
            0 <= g <= 255,
            0 <= b <= 255,
    ;
}

/// Every index of an `hw` x `hh` plane is the index of some block `(i, j)`.
proof fn lemma_plane_index_is_block(hw: int, hh: int, k: int)
    requires
        hw >= 0,
        hh >= 0,
        0 <= k < hw * hh,
    ensures
        hw > 0,
        0 <= k % hw < hw,
        0 <= k / hw < hh,
        k == k % hw + (k / hw) * hw,
{
    if hw <= 0 {
        assert(hw * hh == 0) by (nonlinear_arith)
            requires
                hw == 0,
        ;
    }
    lemma_fundamental_div_mod(k, hw);
    lemma_mod_bound(k, hw);
    assert(0 <= k / hw < hh) by (nonlinear_arith)
        requires
            hw > 0,
            0 <= k < hw * hh,
            k == hw * (k / hw) + k % hw,
            0 <= k % hw < hw,
    ;
    assert(hw * (k / hw) == (k / hw) * hw) by (nonlinear_arith);
}

/// Converting a frame that covers the whole buffer leaves nothing of what the
/// buffer held before: two buffers of the same size that converted the same
/// full frame hold the same three planes.
pub proof fn lemma_full_frame_determines_planes(
    a: FullRangeYUVBuffer,
    b: FullRangeYUVBuffer,
    prior_a: Seq<u8>,
    prior_b: Seq<u8>,
    rgb: Seq<u8>,
)
    requires
        a.wf(),
        b.wf(),
        a.frame_width() == b.frame_width(),
        a.frame_height() == b.frame_height(),
        rgb.len() / 3 == a.frame_width() * a.frame_height(),
        a.converted_from(prior_a, rgb),
        b.converted_from(prior_b, rgb),
    ensures
        a.luma_plane() == b.luma_plane(),
        a.u_samples() == b.u_samples(),
        a.v_samples() == b.v_samples(),
{
    let w = a.frame_width() as int;
    let h = a.frame_height() as int;
    let hw = w / 2;
    let hh = h / 2;
    assert forall|k: int| 0 <= k < a.luma_plane().len() implies a.luma_plane()[k]
        == b.luma_plane()[k] by {
        assert(a.luma_plane()[k] == pixel_luma(rgb, k));
        assert(b.luma_plane()[k] == pixel_luma(rgb, k));
    }
    assert(a.luma_plane() =~= b.luma_plane());
    assert forall|k: int| 0 <= k < a.u_samples().len() implies a.u_samples()[k] == b.u_samples()[k]
        && a.v_samples()[k] == b.v_samples()[k] by {
        lemma_plane_index_is_block(hw, hh, k);
        let i = k % hw;
        let j = k / hw;
        assert(at2(a.u_samples(), hw, i, j) == block_u(rgb, w, i, j));
        assert(at2(b.u_samples(), hw, i, j) == block_u(rgb, w, i, j));
        assert(at2(a.v_samples(), hw, i, j) == block_v(rgb, w, i, j));
        assert(at2(b.v_samples(), hw, i, j) == block_v(rgb, w, i, j));
        reveal(at2);
    }
    assert(a.u_samples() =~= b.u_samples());
    assert(a.v_samples() =~= b.v_samples());
}

/// Pixel `k` of the packed RGB24 buffer `rgb` is pixel `k` of the packed BGRA
/// (or BGRx) buffer `bgra` with its alpha byte dropped.
pub open spec fn pixel_copied(rgb: Seq<u8>, bgra: Seq<u8>, k: int) -> bool {
    &&& rgb[3 * k] == bgra[4 * k + 2]
    &&& rgb[3 * k + 1] == bgra[4 * k + 1]
    &&& rgb[3 * k + 2] == bgra[4 * k]
}

/// Number of pixels converted from a BGRA buffer of `src_len` bytes into an
/// RGB24 buffer of `dst_len` bytes: as many as both hold whole.
pub open spec fn bgra_pixels_converted(src_len: int, dst_len: int) -> int {
    if src_len / 4 <= dst_len / 3 {
        src_len / 4
    } else {
        dst_len / 3
    }
}

/// Converts packed BGRA (or BGRx) pixels into packed RGB24, pixel by pixel,
/// for as many pixels as both buffers hold whole; the rest of `rgb` is left as it was.
pub fn bgra_to_rgb(pixels: &[u8], rgb: &mut Vec<u8>)
    ensures
        final(rgb)@.len() == old(rgb)@.len(),
        forall|k: int|
            0 <= k < bgra_pixels_converted(pixels@.len() as int, old(rgb)@.len() as int)
                ==> #[trigger] pixel_copied(final(rgb)@, pixels@, k),
        forall|m: int|
            3 * bgra_pixels_converted(pixels@.len() as int, old(rgb)@.len() as int) <= m < old(
                rgb,
            )@.len() ==> #[trigger] final(rgb)@[m] == old(rgb)@[m],
{
    let src_count = pixels.len() / 4;
    let dst_count = rgb.len() / 3;
    let n = if src_count <= dst_count {
        src_count
    } else {
        dst_count
    };
    let mut k: usize = 0;
    while k < n
        invariant
            n == bgra_pixels_converted(pixels@.len() as int, old(rgb)@.len() as int),
            n <= pixels@.len() / 4,
            n <= old(rgb)@.len() / 3,
            k <= n,
            rgb@.len() == old(rgb)@.len(),
            forall|k2: int| 0 <= k2 < k ==> #[trigger] pixel_copied(rgb@, pixels@, k2),
            forall|m: int| 3 * k <= m < rgb@.len() ==> #[trigger] rgb@[m] == old(rgb)@[m],
        decreases n - k,
    {
        proof {
            let sl = pixels@.len() as int;
            let dl = rgb@.len() as int;
            assert(4 * k + 3 < sl && 3 * k + 2 < dl) by (nonlinear_arith)
                requires
                    k < n,
                    n <= sl / 4,
                    n <= dl / 3,
            ;
            assert(pixels@.len() == pixels.len());
            assert(rgb@.len() == rgb.len());
        }
        let ghost before = rgb@;
        rgb[3 * k] = pixels[4 * k + 2];
        rgb[3 * k + 1] = pixels[4 * k + 1];
        rgb[3 * k + 2] = pixels[4 * k];
        proof {
            assert forall|k2: int| 0 <= k2 < k + 1 implies #[trigger] pixel_copied(rgb@, pixels@, k2) by {
                if k2 < k {
                    assert(pixel_copied(before, pixels@, k2));
                }
            }
        }
        k += 1;
    }
}

} // verus!
