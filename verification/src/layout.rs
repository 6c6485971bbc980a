//! The plane layout resolver: given a pixel format and the image
//! dimensions, it computes the byte extent of every plane and validates the
//! stride invariant of the semi-planar 10-bit format.

use vstd::prelude::*;

use crate::format::{
    bytes_per_sample, chroma_div_x, chroma_div_y, plane_count, spec_bytes_per_sample,
    spec_chroma_channel_count, spec_chroma_channels_per_plane, spec_chroma_div_x,
    spec_chroma_div_y, spec_plane_count, PixelFormat,
};

verus! {

/// A layout the resolver structurally cannot interpret. Unlike a codec
/// status, such a condition is not recoverable by retrying: the input itself
/// must be corrected.
#[derive(Clone, Copy, Debug, PartialEq, Eq, Structural)]
pub enum LayoutError {
    /// The semi-planar 10-bit format requires the luma stride to equal half
    /// the image width.
    LumaStrideViolation,
    /// A plane's byte extent does not fit in the machine's address space.
    ExtentOverflow,
}

/// Byte extent of plane `plane` of an image of format `fmt` and dimensions
/// `w` by `h`. Plane 0 holds the luma samples of the planar formats, or the
/// packed pixels of the packed formats; the later planes hold the
/// subsampled chroma channels. Slots beyond the format's plane count are
/// empty.
pub open spec fn spec_plane_extent(fmt: PixelFormat, plane: int, w: nat, h: nat) -> nat {
    if 0 <= plane < spec_plane_count(fmt) {
        if plane == 0 {
            spec_bytes_per_sample(fmt) * w * h
        } else {
            spec_bytes_per_sample(fmt) * (w / spec_chroma_div_x(fmt)) * (
            h / spec_chroma_div_y(fmt)) * spec_chroma_channels_per_plane(fmt)
        }
    } else {
        0
    }
}

/// Total number of bytes an image of format `fmt` and dimensions `w` by `h`
/// occupies: one full-resolution sample plane plus the format's chroma
/// channels at their subsampled resolution.
pub open spec fn spec_total_extent(fmt: PixelFormat, w: nat, h: nat) -> nat {
    spec_bytes_per_sample(fmt) * w * h + spec_bytes_per_sample(fmt) * (w / spec_chroma_div_x(fmt))
        * (h / spec_chroma_div_y(fmt)) * spec_chroma_channel_count(fmt)
}

/// The stride invariant a layout must satisfy: the semi-planar 10-bit
/// format addresses luma rows as interleaved sample pairs, so its luma
/// stride must equal half the image width. No other format constrains the
/// declared strides.
pub open spec fn spec_stride_ok(fmt: PixelFormat, w: nat, stride: Seq<u32>) -> bool {
    fmt is YCbCrP010 ==> stride[0] == w / 2
}

/// The three plane extents together cover exactly the bytes of the whole
/// image: however the format distributes its channels over planes, the
/// per-plane extents sum to the image's total byte extent.
pub proof fn lemma_extents_cover(fmt: PixelFormat, w: nat, h: nat)
    ensures
        spec_plane_extent(fmt, 0, w, h) + spec_plane_extent(fmt, 1, w, h) + spec_plane_extent(
            fmt,
            2,
            w,
            h,
        ) == spec_total_extent(fmt, w, h),
{
    let bps = spec_bytes_per_sample(fmt);
    let cw = w / spec_chroma_div_x(fmt);
    let ch = h / spec_chroma_div_y(fmt);
    assert(0 * w * h == 0) by (nonlinear_arith);
    assert(bps * cw * ch * 0 == 0) by (nonlinear_arith);
    assert(bps * cw * ch * 1 + bps * cw * ch * 1 == bps * cw * ch * 2) by (nonlinear_arith);
}

/// Multiplies three byte quantities, reporting `None` when the product does
/// not fit in the address space.
fn checked_mul3(a: usize, b: usize, c: usize) -> (r: Option<usize>)
    ensures
        r matches Some(v) ==> v == a * b * c,
        r is None ==> a * b * c > usize::MAX,
{
    match a.checked_mul(b) {
        Some(ab) => {
            let res = ab.checked_mul(c);
            proof {
                assert((a * b) * c == a * b * c) by (nonlinear_arith);
                if res is None {
                    assert(a * b * c > usize::MAX);
                }
            }
            res
        },
        None => {
            proof {
                if c == 0 {
                } else {
                    assert(a * b * c >= a * b * 1) by (nonlinear_arith)
                        requires
                            c >= 1,
                    ;
                    assert(a * b * 1 == a * b) by (nonlinear_arith);
                }
            }
            if c == 0 {
                Some(0)
            } else {
                None
            }
        },
    }
}

/// Resolves the per-plane byte extents of an image of format `fmt` and
/// dimensions `w` by `h`, after validating the stride invariant against the
/// declared per-plane strides. The unspecified format resolves to an
/// explicitly empty plane set.
pub fn resolve(fmt: PixelFormat, w: u32, h: u32, stride: &[u32; 3]) -> (r: Result<
    [usize; 3],
    LayoutError,
>)
    ensures
        r matches Ok(ext) ==> {
            &&& spec_stride_ok(fmt, w as nat, stride@)
            &&& forall|i: int|
                0 <= i < 3 ==> ext@[i] == spec_plane_extent(fmt, i, w as nat, h as nat)
        },
        r matches Err(e) ==> (e is LumaStrideViolation <==> !spec_stride_ok(
            fmt,
            w as nat,
            stride@,
        )),
        r matches Err(e) ==> (e is ExtentOverflow ==> spec_plane_extent(
            fmt,
            0,
            w as nat,
            h as nat,
        ) > usize::MAX || spec_plane_extent(fmt, 1, w as nat, h as nat) > usize::MAX),
        r is Err <==> (!spec_stride_ok(fmt, w as nat, stride@) || spec_plane_extent(
            fmt,
            0,
            w as nat,
            h as nat,
        ) > usize::MAX || spec_plane_extent(fmt, 1, w as nat, h as nat) > usize::MAX),
{
    if matches!(fmt, PixelFormat::YCbCrP010) && stride[0] != w / 2 {
        return Err(LayoutError::LumaStrideViolation);
    }
    let bps = bytes_per_sample(fmt);
    let count = plane_count(fmt);
    let wl = w as usize;
    let hl = h as usize;

    let e0 = if count >= 1 {
        match checked_mul3(bps, wl, hl) {
            Some(v) => v,
            None => {
                return Err(LayoutError::ExtentOverflow);
            },
        }
    } else {
        0
    };

    let cw = wl / chroma_div_x(fmt);
    let chh = hl / chroma_div_y(fmt);
    let channels: usize = if matches!(fmt, PixelFormat::YCbCrP010) {
        2
    } else {
        1
    };
    let chroma = if count >= 2 {
        match checked_mul3(bps, cw, chh) {
            Some(v) => match v.checked_mul(channels) {
                Some(vc) => vc,
                None => {
                    return Err(LayoutError::ExtentOverflow);
                },
            },
            None => {
                proof {
                    lemma_chroma_mul_grows(
                        bps as nat,
                        cw as nat,
                        chh as nat,
                        channels as nat,
                    );
                }
                return Err(LayoutError::ExtentOverflow);
            },
        }
    } else {
        0
    };

    let e1 = if count >= 2 {
        chroma
    } else {
        0
    };
    let e2 = if count >= 3 {
        chroma
    } else {
        0
    };
    Ok([e0, e1, e2])
}

/// A product of byte quantities only grows when multiplied by a positive
/// channel count.
proof fn lemma_chroma_mul_grows(bps: nat, cw: nat, chh: nat, channels: nat)
    requires
        channels >= 1,
    ensures
        bps * cw * chh * channels >= bps * cw * chh,
{
    assert(bps * cw * chh * channels >= bps * cw * chh * 1) by (nonlinear_arith)
        requires
            channels >= 1,
    ;
}

} // verus!
