//! The pixel-format catalog: a static mapping from each supported pixel
//! format to its plane count, per-plane subsampling divisors and bytes per
//! sample, together with the color metadata tags that accompany an image.

use vstd::prelude::*;

verus! {

/// Pixel layout of a raw image.
///
/// The planar YCbCr formats store luma and the two chroma channels in
/// separate planes; the chroma planes are subsampled by the divisor pair the
/// name declares (for instance 4:2:0 halves both chroma dimensions). The
/// semi-planar 10-bit 4:2:0 format keeps luma in one plane and both chroma
/// channels interleaved in a second. The packed formats keep all channels in
/// a single plane.
#[derive(Clone, Copy, Debug, PartialEq, Eq, Structural)]
pub enum PixelFormat {
    /// No format declared: all planes are empty.
    Unspecified,
    /// Planar 8-bit YCbCr 4:2:0 (chroma halved in both dimensions).
    YCbCr420,
    /// Planar 8-bit YCbCr 4:2:2 (chroma halved horizontally).
    YCbCr422,
    /// Planar 8-bit YCbCr 4:4:0 (chroma halved vertically).
    YCbCr440,
    /// Planar 8-bit YCbCr 4:4:4 (chroma at full resolution).
    YCbCr444,
    /// Planar 8-bit YCbCr 4:1:1 (chroma at a quarter width).
    YCbCr411,
    /// Planar 8-bit YCbCr 4:1:0 (chroma at a quarter width, half height).
    YCbCr410,
    /// Monochrome 8-bit: only the luma plane is populated.
    YCbCr400,
    /// Semi-planar 10-bit 4:2:0 with interleaved chroma pairs; the luma
    /// stride must equal half the image width.
    YCbCrP010,
    /// Planar 10-bit YCbCr 4:4:4 stored as two bytes per sample.
    YCbCr444P10,
    /// Packed 8-bit RGB, three bytes per pixel.
    Rgb888,
    /// Packed 8-bit RGBA, four bytes per pixel.
    Rgba8888,
    /// Packed 10-bit RGB with a 2-bit alpha, four bytes per pixel.
    Rgba1010102,
    /// Packed half-float RGBA, eight bytes per pixel.
    RgbaHalfFloat,
}

/// Color gamut tag attached to an image.
#[derive(Clone, Copy, Debug, PartialEq, Eq, Structural)]
pub enum ColorGamut {
    Unspecified,
    Bt709,
    DisplayP3,
    Bt2100,
}

/// Color transfer function tag attached to an image.
#[derive(Clone, Copy, Debug, PartialEq, Eq, Structural)]
pub enum ColorTransfer {
    Unspecified,
    Linear,
    Hlg,
    Pq,
    Srgb,
}

/// Color range tag attached to an image.
#[derive(Clone, Copy, Debug, PartialEq, Eq, Structural)]
pub enum ColorRange {
    Unspecified,
    LimitedRange,
    FullRange,
}

/// Logical role an image occupies within an encode session.
#[derive(Clone, Copy, Debug, PartialEq, Eq, Structural)]
pub enum ImgLabel {
    Hdr,
    Sdr,
    Base,
    GainMap,
}

/// Number of populated planes of a format.
pub open spec fn spec_plane_count(fmt: PixelFormat) -> nat {
    match fmt {
        PixelFormat::Unspecified => 0,
        PixelFormat::YCbCr420 => 3,
        PixelFormat::YCbCr422 => 3,
        PixelFormat::YCbCr440 => 3,
        PixelFormat::YCbCr444 => 3,
        PixelFormat::YCbCr411 => 3,
        PixelFormat::YCbCr410 => 3,
        PixelFormat::YCbCr400 => 1,
        PixelFormat::YCbCrP010 => 2,
        PixelFormat::YCbCr444P10 => 3,
        PixelFormat::Rgb888 => 1,
        PixelFormat::Rgba8888 => 1,
        PixelFormat::Rgba1010102 => 1,
        PixelFormat::RgbaHalfFloat => 1,
    }
}

/// Bytes each stored sample occupies. The 10-bit formats store each sample
/// in two bytes; the packed formats store a whole pixel as one sample of
/// three, four or eight bytes.
pub open spec fn spec_bytes_per_sample(fmt: PixelFormat) -> nat {
    match fmt {
        PixelFormat::Unspecified => 0,
        PixelFormat::YCbCr420 => 1,
        PixelFormat::YCbCr422 => 1,
        PixelFormat::YCbCr440 => 1,
        PixelFormat::YCbCr444 => 1,
        PixelFormat::YCbCr411 => 1,
        PixelFormat::YCbCr410 => 1,
        PixelFormat::YCbCr400 => 1,
        PixelFormat::YCbCrP010 => 2,
        PixelFormat::YCbCr444P10 => 2,
        PixelFormat::Rgb888 => 3,
        PixelFormat::Rgba8888 => 4,
        PixelFormat::Rgba1010102 => 4,
        PixelFormat::RgbaHalfFloat => 8,
    }
}

/// Horizontal subsampling divisor of the chroma planes: the chroma width is
/// the image width divided by this. Formats without chroma planes report 1.
pub open spec fn spec_chroma_div_x(fmt: PixelFormat) -> nat {
    match fmt {
        PixelFormat::YCbCr420 => 2,
        PixelFormat::YCbCr422 => 2,
        PixelFormat::YCbCr440 => 1,
        PixelFormat::YCbCr444 => 1,
        PixelFormat::YCbCr411 => 4,
        PixelFormat::YCbCr410 => 4,
        PixelFormat::YCbCrP010 => 2,
        PixelFormat::YCbCr444P10 => 1,
        _ => 1,
    }
}

/// Vertical subsampling divisor of the chroma planes: the chroma height is
/// the image height divided by this. Formats without chroma planes report 1.
pub open spec fn spec_chroma_div_y(fmt: PixelFormat) -> nat {
    match fmt {
        PixelFormat::YCbCr420 => 2,
        PixelFormat::YCbCr422 => 1,
        PixelFormat::YCbCr440 => 2,
        PixelFormat::YCbCr444 => 1,
        PixelFormat::YCbCr411 => 1,
        PixelFormat::YCbCr410 => 2,
        PixelFormat::YCbCrP010 => 2,
        PixelFormat::YCbCr444P10 => 1,
        _ => 1,
    }
}

/// Whether the format keeps all channels in one packed plane.
pub open spec fn spec_is_packed(fmt: PixelFormat) -> bool {
    match fmt {
        PixelFormat::Rgb888 => true,
        PixelFormat::Rgba8888 => true,
        PixelFormat::Rgba1010102 => true,
        PixelFormat::RgbaHalfFloat => true,
        _ => false,
    }
}

/// Number of populated planes of a format.
pub fn plane_count(fmt: PixelFormat) -> (n: usize)
    ensures
        n == spec_plane_count(fmt),
{
    match fmt {
        PixelFormat::Unspecified => 0,
        PixelFormat::YCbCr420 => 3,
        PixelFormat::YCbCr422 => 3,
        PixelFormat::YCbCr440 => 3,
        PixelFormat::YCbCr444 => 3,
        PixelFormat::YCbCr411 => 3,
        PixelFormat::YCbCr410 => 3,
        PixelFormat::YCbCr400 => 1,
        PixelFormat::YCbCrP010 => 2,
        PixelFormat::YCbCr444P10 => 3,
        PixelFormat::Rgb888 => 1,
        PixelFormat::Rgba8888 => 1,
        PixelFormat::Rgba1010102 => 1,
        PixelFormat::RgbaHalfFloat => 1,
    }
}

/// Number of chroma channels a chroma plane of the format holds: the
/// semi-planar format interleaves both channels in one plane, the planar
/// formats keep one channel per plane.
pub open spec fn spec_chroma_channels_per_plane(fmt: PixelFormat) -> nat {
    if fmt is YCbCrP010 {
        2
    } else {
        1
    }
}

/// Total number of chroma channels the format stores, across all planes.
pub open spec fn spec_chroma_channel_count(fmt: PixelFormat) -> nat {
    match fmt {
        PixelFormat::Unspecified => 0,
        PixelFormat::YCbCr400 => 0,
        PixelFormat::Rgb888 => 0,
        PixelFormat::Rgba8888 => 0,
        PixelFormat::Rgba1010102 => 0,
        PixelFormat::RgbaHalfFloat => 0,
        _ => 2,
    }
}

/// Horizontal subsampling divisor of the chroma planes.
pub fn chroma_div_x(fmt: PixelFormat) -> (n: usize)
    ensures
        n == spec_chroma_div_x(fmt),
        n >= 1,
{
    match fmt {
        PixelFormat::YCbCr420 => 2,
        PixelFormat::YCbCr422 => 2,
        PixelFormat::YCbCr411 => 4,
        PixelFormat::YCbCr410 => 4,
        PixelFormat::YCbCrP010 => 2,
        _ => 1,
    }
}

/// Vertical subsampling divisor of the chroma planes.
pub fn chroma_div_y(fmt: PixelFormat) -> (n: usize)
    ensures
        n == spec_chroma_div_y(fmt),
        n >= 1,
{
    match fmt {
        PixelFormat::YCbCr420 => 2,
        PixelFormat::YCbCr440 => 2,
        PixelFormat::YCbCr410 => 2,
        PixelFormat::YCbCrP010 => 2,
        _ => 1,
    }
}

/// Bytes each stored sample occupies.
pub fn bytes_per_sample(fmt: PixelFormat) -> (n: usize)
    ensures
        n == spec_bytes_per_sample(fmt),
{
    match fmt {
        PixelFormat::Unspecified => 0,
        PixelFormat::YCbCr420 => 1,
        PixelFormat::YCbCr422 => 1,
        PixelFormat::YCbCr440 => 1,
        PixelFormat::YCbCr444 => 1,
        PixelFormat::YCbCr411 => 1,
        PixelFormat::YCbCr410 => 1,
        PixelFormat::YCbCr400 => 1,
        PixelFormat::YCbCrP010 => 2,
        PixelFormat::YCbCr444P10 => 2,
        PixelFormat::Rgb888 => 3,
        PixelFormat::Rgba8888 => 4,
        PixelFormat::Rgba1010102 => 4,
        PixelFormat::RgbaHalfFloat => 8,
    }
}

} // verus!
