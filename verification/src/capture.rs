//! The capture region and the cropping of a captured frame to it.

use vstd::prelude::*;

verus! {

/// A user-selected rectangle in screen coordinates.
#[derive(Clone, Copy, PartialEq, Eq, Structural, Debug)]
pub struct CaptureRegion {
    pub x: i32,
    pub y: i32,
    pub width: u32,
    pub height: u32,
}

/// Whether a region lies within a frame of the given size, is not empty,
/// and the pixel buffer has the frame's expected four bytes per pixel.
pub open spec fn crop_ok(
    frame_width: u32,
    frame_height: u32,
    buffer_len: int,
    region: CaptureRegion,
) -> bool {
    &&& region.x >= 0
    &&& region.y >= 0
    &&& region.width > 0
    &&& region.height > 0
    &&& region.x + region.width <= frame_width
    &&& region.y + region.height <= frame_height
    &&& buffer_len == frame_width * frame_height * 4
}

/// The byte of the frame that position (`row`, `col`, byte `k`) of the
/// cropped image is taken from.
pub open spec fn crop_src_index(frame_width: u32, region: CaptureRegion, row: int, col: int, k: int) -> int {
    ((region.y + row) * frame_width + region.x + col) * 4 + k
}

/// Crops a frame of RGBA pixels to the region, row by row.  Fails, without
/// touching anything, exactly when the region leaves the frame, is empty,
/// or the buffer does not match the frame size.
pub fn crop_rgba(pixels: &[u8], frame_width: u32, frame_height: u32, region: CaptureRegion) -> (r:
    Result<Vec<u8>, ()>)
    ensures
        r is Ok <==> crop_ok(frame_width, frame_height, pixels@.len() as int, region),
        r matches Ok(v) ==> {
            &&& v@.len() == region.width * region.height * 4
            &&& forall|row: int, col: int, k: int|
                0 <= row < region.height && 0 <= col < region.width && 0 <= k < 4 ==> v@[(row
                    * region.width + col) * 4 + k] == pixels@[crop_src_index(
                    frame_width,
                    region,
                    row,
                    col,
                    k,
                )]
        },
{
    if !(region.x >= 0 && region.y >= 0 && region.width > 0 && region.height > 0) {
        return Err(());
    }
    let x = region.x as u64;
    let y = region.y as u64;
    let rw = region.width as u64;
    let rh = region.height as u64;
    let fw = frame_width as u64;
    let fh = frame_height as u64;
    if x + rw > fw || y + rh > fh {
        return Err(());
    }
    let n = pixels.len();
    proof {
        assert(fw * fh <= u64::MAX) by (nonlinear_arith)
            requires
                0 <= fw <= 0xffff_ffffu64,
                0 <= fh <= 0xffff_ffffu64,
        ;
    }
    let pix: u64 = fw * fh;
    if pix > u64::MAX / 4 {
        proof {
            assert(n < frame_width * frame_height * 4) by (nonlinear_arith)
                requires
                    pix == fw * fh,
                    fw == frame_width as int,
                    fh == frame_height as int,
                    pix > u64::MAX / 4,
                    n <= u64::MAX,
            ;
        }
        return Err(());
    }
    let expected: u64 = pix * 4;
    if (n as u64) != expected {
        return Err(());
    }
    let mut out: Vec<u8> = Vec::new();
    let mut row: u64 = 0;
    while row < rh
        invariant
            crop_ok(frame_width, frame_height, pixels@.len() as int, region),
            x == region.x as int,
            y == region.y as int,
            rw == region.width as int,
            rh == region.height as int,
            fw == frame_width as int,
            fh == frame_height as int,
            pix == fw * fh,
            pix <= u64::MAX / 4,
            expected == pix * 4,
            expected == pixels@.len(),
            pixels@.len() <= usize::MAX,
            row <= rh,
            out@.len() == row * rw * 4,
            forall|r2: int, c2: int, k2: int|
                0 <= r2 < row && 0 <= c2 < rw && 0 <= k2 < 4 ==> out@[(r2 * rw + c2) * 4 + k2]
                    == pixels@[crop_src_index(frame_width, region, r2, c2, k2)],
        decreases rh - row,
    {
        proof {
            assert((y + row) * fw + x + rw <= fw * fh) by (nonlinear_arith)
                requires
                    y + rh <= fh,
                    x + rw <= fw,
                    row < rh,
                    x >= 0,
                    y >= 0,
                    rw > 0,
                    fw >= 0,
                    row >= 0,
            ;
            assert((y + row) * fw + x >= 0) by (nonlinear_arith)
                requires
                    y >= 0,
                    row >= 0,
                    fw >= 0,
                    x >= 0,
            ;
            assert((y + row) * fw + x + rw <= pix);
            assert(((y + row) * fw + x + rw) * 4 <= expected);
        }
        let src_start_wide: u64 = ((y + row) * fw + x) * 4;
        let src_end_wide: u64 = src_start_wide + rw * 4;
        proof {
            assert(src_end_wide <= expected) by (nonlinear_arith)
                requires
                    src_end_wide == ((y + row) * fw + x + rw) * 4,
                    (y + row) * fw + x + rw <= fw * fh,
                    expected == fw * fh * 4,
            ;
        }
        proof {
            assert(src_end_wide <= pixels@.len());
        }
        let src_start: usize = src_start_wide as usize;
        let src_end: usize = src_end_wide as usize;
        proof {
            assert(src_start == src_start_wide);
            assert(src_end == src_end_wide);
        }
        let row_slice = vstd::slice::slice_subrange(pixels, src_start, src_end);
        let ghost out_before = out@;
        out.extend_from_slice(row_slice);
        proof {
            assert(out@.len() == (row + 1) * rw * 4) by (nonlinear_arith)
                requires
                    out@.len() == out_before.len() + rw * 4,
                    out_before.len() == row * rw * 4,
            ;
            assert forall|r2: int, c2: int, k2: int|
                0 <= r2 < row + 1 && 0 <= c2 < rw && 0 <= k2 < 4 implies out@[(r2 * rw + c2) * 4
                + k2] == pixels@[crop_src_index(frame_width, region, r2, c2, k2)] by {
                let idx = (r2 * rw + c2) * 4 + k2;
                if r2 < row {
                    assert(0 <= idx < out_before.len()) by (nonlinear_arith)
                        requires
                            0 <= r2 < row,
                            0 <= c2 < rw,
                            0 <= k2 < 4,
                            out_before.len() == row * rw * 4,
                            idx == (r2 * rw + c2) * 4 + k2,
                    ;
                    assert(out@[idx] == out_before[idx]);
                } else {
                    assert(idx - out_before.len() == c2 * 4 + k2) by (nonlinear_arith)
                        requires
                            r2 == row,
                            out_before.len() == row * rw * 4,
                            idx == (r2 * rw + c2) * 4 + k2,
                    ;
                    assert(0 <= c2 * 4 + k2 < rw * 4) by (nonlinear_arith)
                        requires
                            0 <= c2 < rw,
                            0 <= k2 < 4,
                    ;
                    assert(out@[idx] == row_slice@[c2 * 4 + k2]);
                    assert(row_slice@[c2 * 4 + k2] == pixels@[src_start + c2 * 4 + k2]);
                    assert(src_start + c2 * 4 + k2 == crop_src_index(frame_width, region, r2, c2, k2))
                        by (nonlinear_arith)
                        requires
                            src_start == ((y + row) * fw + x) * 4,
                            r2 == row,
                            x == region.x as int,
                            y == region.y as int,
                            fw == frame_width as int,
                            crop_src_index(frame_width, region, r2, c2, k2) == ((region.y + r2)
                                * frame_width + region.x + c2) * 4 + k2,
                    ;
                }
            }
        }
        row = row + 1;
    }
    proof {
        assert(out@.len() == region.width * region.height * 4) by (nonlinear_arith)
            requires
                out@.len() == rh * rw * 4,
                rw == region.width as int,
                rh == region.height as int,
        ;
    }
    Ok(out)
}

} // verus!
