//! The pure frame transform: crop a region out of a raw BGRA frame,
//! downsample it by an integer scale factor with nearest-neighbor sampling,
//! and swap the first and third color channel of every sampled pixel.
use vstd::prelude::*;

verus! {

/// Screen-space rectangle of the consumer window: the part of the raw frame
/// that is cropped and downsampled. May change between loop iterations.
#[derive(Clone, Copy, PartialEq, Eq, Structural, Debug)]
pub struct WindowRegion {
    pub x: u32,
    pub y: u32,
    pub width: u32,
    pub height: u32,
}

/// The cropped, downsampled, channel-reordered image held for delivery.
/// Destination pixels whose source sample falls outside the region or the
/// raw buffer are skipped, so `data` can be shorter than
/// `width * height * 4` at region edges; it is never longer.
#[derive(Debug)]
pub struct ProcessedFrame {
    pub data: Vec<u8>,
    pub width: u32,
    pub height: u32,
}

#[derive(Clone, Copy, PartialEq, Eq, Structural, Debug)]
pub enum TransformError {
    /// The scale factor was zero; a downsampling divisor must be at least 1.
    InvalidScaleFactor,
}

/// Ceiling of `a / b` for `a >= 0`, `b >= 1`.
pub open spec fn ceil_div(a: int, b: int) -> int {
    (a + b - 1) / b
}

/// Number of destination columns: floor(region width / scale).
pub open spec fn spec_out_width(region: WindowRegion, scale: u32) -> int {
    region.width as int / scale as int
}

/// Number of destination rows: floor(region height / scale).
pub open spec fn spec_out_height(region: WindowRegion, scale: u32) -> int {
    region.height as int / scale as int
}

/// Horizontal distance between consecutive source samples. The ceiling
/// guards against stepping past the region when the division is not exact.
pub open spec fn spec_x_step(region: WindowRegion, scale: u32) -> int {
    ceil_div(region.width as int, spec_out_width(region, scale))
}

/// Vertical distance between consecutive source samples.
pub open spec fn spec_y_step(region: WindowRegion, scale: u32) -> int {
    ceil_div(region.height as int, spec_out_height(region, scale))
}

/// Byte index, in the raw frame, of the first channel of source pixel (sx, sy).
pub open spec fn spec_sample_index(orig_width: u32, sx: int, sy: int) -> int {
    (sy * orig_width + sx) * 4
}

/// Whether the source sample for destination pixel (dx, dy) lies inside the
/// region and all four of its bytes lie inside the raw buffer.
pub open spec fn spec_sample_in_bounds(
    orig_len: int,
    orig_width: u32,
    region: WindowRegion,
    scale: u32,
    dx: int,
    dy: int,
) -> bool {
    let sx = region.x + dx * spec_x_step(region, scale);
    let sy = region.y + dy * spec_y_step(region, scale);
    &&& sx < region.x + region.width
    &&& sy < region.y + region.height
    &&& spec_sample_index(orig_width, sx, sy) + 3 < orig_len
}

/// The bytes appended for destination pixel (dx, dy): the four channels of
/// the sampled source pixel with the first and third channel swapped, or
/// nothing when the sample is out of bounds (the pixel is skipped).
pub open spec fn spec_pixel(
    orig: Seq<u8>,
    orig_width: u32,
    region: WindowRegion,
    scale: u32,
    dx: int,
    dy: int,
) -> Seq<u8> {
    let sx = region.x + dx * spec_x_step(region, scale);
    let sy = region.y + dy * spec_y_step(region, scale);
    let idx = spec_sample_index(orig_width, sx, sy);
    if spec_sample_in_bounds(orig.len() as int, orig_width, region, scale, dx, dy) {
        seq![orig[idx + 2], orig[idx + 1], orig[idx], orig[idx + 3]]
    } else {
        Seq::empty()
    }
}

/// Output bytes of destination row `dy`, restricted to the first `n` columns.
pub open spec fn spec_row_prefix(
    orig: Seq<u8>,
    orig_width: u32,
    region: WindowRegion,
    scale: u32,
    dy: int,
    n: nat,
) -> Seq<u8>
    decreases n,
{
    if n == 0 {
        Seq::empty()
    } else {
        spec_row_prefix(orig, orig_width, region, scale, dy, (n - 1) as nat) + spec_pixel(
            orig,
            orig_width,
            region,
            scale,
            n - 1,
            dy,
        )
    }
}

/// Output bytes of the first `n` full destination rows.
pub open spec fn spec_rows_prefix(
    orig: Seq<u8>,
    orig_width: u32,
    region: WindowRegion,
    scale: u32,
    n: nat,
) -> Seq<u8>
    decreases n,
{
    if n == 0 {
        Seq::empty()
    } else {
        spec_rows_prefix(orig, orig_width, region, scale, (n - 1) as nat) + spec_row_prefix(
            orig,
            orig_width,
            region,
            scale,
            n - 1,
            spec_out_width(region, scale) as nat,
        )
    }
}

/// The whole transform output for a scale factor of at least 1.
pub open spec fn spec_transform(
    orig: Seq<u8>,
    orig_width: u32,
    region: WindowRegion,
    scale: u32,
) -> Seq<u8> {
    if spec_out_width(region, scale) <= 0 || spec_out_height(region, scale) <= 0 {
        Seq::empty()
    } else {
        spec_rows_prefix(orig, orig_width, region, scale, spec_out_height(region, scale) as nat)
    }
}

/// A row prefix holds at most `n` sampled pixels of 4 bytes each, in whole
/// pixels.
pub proof fn lemma_row_prefix_len(
    orig: Seq<u8>,
    orig_width: u32,
    region: WindowRegion,
    scale: u32,
    dy: int,
    n: nat,
)
    ensures
        spec_row_prefix(orig, orig_width, region, scale, dy, n).len() % 4 == 0,
        spec_row_prefix(orig, orig_width, region, scale, dy, n).len() <= 4 * n,
    decreases n,
{
    if n > 0 {
        lemma_row_prefix_len(orig, orig_width, region, scale, dy, (n - 1) as nat);
    }
}

/// The first `n` rows hold at most `n * w` sampled pixels of 4 bytes each,
/// where `w` is the destination width: the output never exceeds
/// `4 * width * height` bytes and always holds whole pixels.
pub proof fn lemma_rows_prefix_len(
    orig: Seq<u8>,
    orig_width: u32,
    region: WindowRegion,
    scale: u32,
    n: nat,
)
    requires
        scale >= 1,
    ensures
        spec_rows_prefix(orig, orig_width, region, scale, n).len() % 4 == 0,
        spec_rows_prefix(orig, orig_width, region, scale, n).len() <= 4 * n * spec_out_width(
            region,
            scale,
        ),
    decreases n,
{
    assert(spec_out_width(region, scale) >= 0) by (nonlinear_arith)
        requires
            scale >= 1,
    ;
    if n > 0 {
        let w = spec_out_width(region, scale) as nat;
        lemma_rows_prefix_len(orig, orig_width, region, scale, (n - 1) as nat);
        lemma_row_prefix_len(orig, orig_width, region, scale, n - 1, w);
        assert(4 * (n - 1) * w + 4 * w == 4 * n * w) by (nonlinear_arith);
    }
}

/// Channel remap: for every sampled source pixel, the output pixel's first
/// byte is the source's third, its third byte is the source's first, and the
/// second and fourth bytes pass through unchanged.
pub proof fn lemma_channel_remap(
    orig: Seq<u8>,
    orig_width: u32,
    region: WindowRegion,
    scale: u32,
    dx: int,
    dy: int,
)
    requires
        spec_sample_in_bounds(orig.len() as int, orig_width, region, scale, dx, dy),
    ensures
        ({
            let sx = region.x + dx * spec_x_step(region, scale);
            let sy = region.y + dy * spec_y_step(region, scale);
            let idx = spec_sample_index(orig_width, sx, sy);
            let p = spec_pixel(orig, orig_width, region, scale, dx, dy);
            &&& p.len() == 4
            &&& p[0] == orig[idx + 2]
            &&& p[1] == orig[idx + 1]
            &&& p[2] == orig[idx]
            &&& p[3] == orig[idx + 3]
        }),
{
}

/// Crop `region` out of a raw frame of `orig_width` pixels per row, keep one
/// source pixel out of every `scale_factor * scale_factor` block
/// (nearest-neighbor), and swap the first and third channel of each kept
/// pixel. Rejects a zero scale factor; otherwise the output dimensions are
/// exactly the region's divided by the scale factor, rounded down, and the
/// bytes are exactly the sampled pixels in row-major order.
pub fn process_image(
    original: &Vec<u8>,
    orig_width: u32,
    region: WindowRegion,
    scale_factor: u32,
) -> (r: Result<ProcessedFrame, TransformError>)
    ensures
        match r {
            Ok(p) => {
                &&& scale_factor >= 1
                &&& p.width == spec_out_width(region, scale_factor)
                &&& p.height == spec_out_height(region, scale_factor)
                &&& p.data@ == spec_transform(original@, orig_width, region, scale_factor)
                &&& p.data@.len() <= 4 * (p.width as int) * (p.height as int)
                &&& p.data@.len() % 4 == 0
            },
            Err(e) => e == TransformError::InvalidScaleFactor && scale_factor == 0,
        },
{
    if scale_factor == 0 {
        return Err(TransformError::InvalidScaleFactor);
    }
    let new_width: u32 = region.width / scale_factor;
    let new_height: u32 = region.height / scale_factor;
    if new_width == 0 || new_height == 0 {
        return Ok(ProcessedFrame { data: Vec::new(), width: new_width, height: new_height });
    }
    let x_step: u64 = (region.width as u64 + new_width as u64 - 1) / new_width as u64;
    let y_step: u64 = (region.height as u64 + new_height as u64 - 1) / new_height as u64;
    proof {
        lemma_ceil_div_le(region.width as int, new_width as int);
        lemma_ceil_div_le(region.height as int, new_height as int);
    }
    assert(x_step == spec_x_step(region, scale_factor));
    assert(y_step == spec_y_step(region, scale_factor));

    let mut out: Vec<u8> = Vec::new();
    let mut dy: u32 = 0;
    while dy < new_height
        invariant
            scale_factor >= 1,
            new_width == spec_out_width(region, scale_factor),
            new_height == spec_out_height(region, scale_factor),
            new_width >= 1,
            new_height >= 1,
            x_step == spec_x_step(region, scale_factor),
            y_step == spec_y_step(region, scale_factor),
            x_step <= u32::MAX,
            y_step <= u32::MAX,
            dy <= new_height,
            out@ == spec_rows_prefix(original@, orig_width, region, scale_factor, dy as nat),
        decreases new_height - dy,
    {
        let mut dx: u32 = 0;
        while dx < new_width
            invariant
                scale_factor >= 1,
                new_width == spec_out_width(region, scale_factor),
                new_height == spec_out_height(region, scale_factor),
                new_width >= 1,
                new_height >= 1,
                x_step == spec_x_step(region, scale_factor),
                y_step == spec_y_step(region, scale_factor),
                x_step <= u32::MAX,
                y_step <= u32::MAX,
                dy < new_height,
                dx <= new_width,
                out@ == spec_rows_prefix(original@, orig_width, region, scale_factor, dy as nat)
                    + spec_row_prefix(
                    original@,
                    orig_width,
                    region,
                    scale_factor,
                    dy as int,
                    dx as nat,
                ),
            decreases new_width - dx,
        {
            let ghost out_before = out@;
            proof {
                assert(dx as int * x_step as int <= 0xffff_ffff * 0xffff_ffff
                    && dy as int * y_step as int <= 0xffff_ffff * 0xffff_ffff)
                    by (nonlinear_arith)
                    requires
                        dx <= 0xffff_ffffu32,
                        dy <= 0xffff_ffffu32,
                        x_step <= 0xffff_ffffu64,
                        y_step <= 0xffff_ffffu64,
                ;
            }
            let src_x: u64 = region.x as u64 + dx as u64 * x_step;
            let src_y: u64 = region.y as u64 + dy as u64 * y_step;
            if src_x < region.x as u64 + region.width as u64 && src_y < region.y as u64
                + region.height as u64 {
                proof {
                    assert(src_y as int * orig_width as int <= 0x1_ffff_ffff * 0xffff_ffff)
                        by (nonlinear_arith)
                        requires
                            src_y <= 0x1_ffff_ffffu64,
                            orig_width <= 0xffff_ffffu32,
                    ;
                }
                let idx128: u128 = (src_y as u128 * orig_width as u128 + src_x as u128) * 4;
                if idx128 + 3 < original.len() as u128 {
                    let idx: usize = idx128 as usize;
                    out.push(original[idx + 2]);
                    out.push(original[idx + 1]);
                    out.push(original[idx]);
                    out.push(original[idx + 3]);
                    proof {
                        assert(spec_sample_in_bounds(
                            original@.len() as int,
                            orig_width,
                            region,
                            scale_factor,
                            dx as int,
                            dy as int,
                        ));
                        assert(out@ =~= out_before + spec_pixel(
                            original@,
                            orig_width,
                            region,
                            scale_factor,
                            dx as int,
                            dy as int,
                        ));
                    }
                } else {
                    proof {
                        assert(!spec_sample_in_bounds(
                            original@.len() as int,
                            orig_width,
                            region,
                            scale_factor,
                            dx as int,
                            dy as int,
                        ));
                        assert(out@ =~= out_before + spec_pixel(
                            original@,
                            orig_width,
                            region,
                            scale_factor,
                            dx as int,
                            dy as int,
                        ));
                    }
                }
            } else {
                proof {
                    assert(!spec_sample_in_bounds(
                        original@.len() as int,
                        orig_width,
                        region,
                        scale_factor,
                        dx as int,
                        dy as int,
                    ));
                    assert(out@ =~= out_before + spec_pixel(
                        original@,
                        orig_width,
                        region,
                        scale_factor,
                        dx as int,
                        dy as int,
                    ));
                }
            }
            dx = dx + 1;
        }
        dy = dy + 1;
    }
    proof {
        lemma_rows_prefix_len(original@, orig_width, region, scale_factor, new_height as nat);
        assert(4 * (new_height as int) * (new_width as int) == 4 * (new_width as int) * (
        new_height as int)) by (nonlinear_arith);
    }
    Ok(ProcessedFrame { data: out, width: new_width, height: new_height })
}

/// For `1 <= d <= a`, the ceiling of `a / d` is at most `a`.
proof fn lemma_ceil_div_le(a: int, d: int)
    requires
        1 <= d,
        d <= a,
    ensures
        0 < ceil_div(a, d) <= a,
{
    assert(0 < (a + d - 1) / d <= a) by (nonlinear_arith)
        requires
            1 <= d,
            d <= a,
    ;
}

} // verus!
