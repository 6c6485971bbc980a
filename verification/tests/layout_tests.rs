use ultrahdr::format::PixelFormat;
use ultrahdr::layout::{resolve, LayoutError};

fn extents(fmt: PixelFormat, w: u32, h: u32, stride: [u32; 3]) -> [usize; 3] {
    resolve(fmt, w, h, &stride).expect("layout should resolve")
}

#[test]
fn unspecified_resolves_to_empty_planes() {
    assert_eq!(extents(PixelFormat::Unspecified, 8, 4, [0, 0, 0]), [0, 0, 0]);
}

#[test]
fn planar_8bit_extents_at_8x4() {
    assert_eq!(extents(PixelFormat::YCbCr420, 8, 4, [0, 0, 0]), [32, 8, 8]);
    assert_eq!(extents(PixelFormat::YCbCr422, 8, 4, [0, 0, 0]), [32, 16, 16]);
    assert_eq!(extents(PixelFormat::YCbCr440, 8, 4, [0, 0, 0]), [32, 16, 16]);
    assert_eq!(extents(PixelFormat::YCbCr444, 8, 4, [0, 0, 0]), [32, 32, 32]);
    assert_eq!(extents(PixelFormat::YCbCr411, 8, 4, [0, 0, 0]), [32, 8, 8]);
    assert_eq!(extents(PixelFormat::YCbCr410, 8, 4, [0, 0, 0]), [32, 4, 4]);
    assert_eq!(extents(PixelFormat::YCbCr400, 8, 4, [0, 0, 0]), [32, 0, 0]);
}

#[test]
fn ten_bit_planar_extents_at_8x4() {
    assert_eq!(extents(PixelFormat::YCbCr444P10, 8, 4, [0, 0, 0]), [64, 64, 64]);
}

#[test]
fn packed_extents_at_8x4() {
    assert_eq!(extents(PixelFormat::Rgb888, 8, 4, [0, 0, 0]), [96, 0, 0]);
    assert_eq!(extents(PixelFormat::Rgba8888, 8, 4, [0, 0, 0]), [128, 0, 0]);
    assert_eq!(extents(PixelFormat::Rgba1010102, 8, 4, [0, 0, 0]), [128, 0, 0]);
    assert_eq!(extents(PixelFormat::RgbaHalfFloat, 8, 4, [0, 0, 0]), [256, 0, 0]);
}

#[test]
fn chroma_420_extents_at_4x4() {
    // luma 16 bytes, each chroma plane 2x2 = 4 bytes
    assert_eq!(extents(PixelFormat::YCbCr420, 4, 4, [0, 0, 0]), [16, 4, 4]);
}

#[test]
fn semi_planar_10bit_extents_at_1920x1080() {
    let ext = extents(PixelFormat::YCbCrP010, 1920, 1080, [960, 0, 0]);
    assert_eq!(ext[0], 2 * 1920 * 1080);
    assert_eq!(ext[1], 2 * 960 * 540 * 2);
    assert_eq!(ext[2], 0);
}

#[test]
fn semi_planar_10bit_rejects_wrong_luma_stride() {
    let r = resolve(PixelFormat::YCbCrP010, 1920, 1080, &[1920, 0, 0]);
    assert_eq!(r, Err(LayoutError::LumaStrideViolation));
    let r2 = resolve(PixelFormat::YCbCrP010, 1920, 1080, &[959, 0, 0]);
    assert_eq!(r2, Err(LayoutError::LumaStrideViolation));
}

#[test]
fn semi_planar_10bit_accepts_exact_luma_stride() {
    assert!(resolve(PixelFormat::YCbCrP010, 640, 480, &[320, 0, 0]).is_ok());
}

#[test]
fn extent_overflow_is_reported() {
    let r = resolve(PixelFormat::Rgba8888, u32::MAX, u32::MAX, &[0, 0, 0]);
    assert_eq!(r, Err(LayoutError::ExtentOverflow));
}

#[test]
fn extents_sum_to_total_bytes_touched() {
    // one full-resolution sample plane plus two chroma channels at the
    // subsampled resolution
    let cases = [
        (PixelFormat::YCbCr420, 8u32, 4u32, [0u32, 0, 0], 32 + 2 * (4 * 2)),
        (PixelFormat::YCbCr422, 8, 4, [0, 0, 0], 32 + 2 * (4 * 4)),
        (PixelFormat::YCbCr440, 8, 4, [0, 0, 0], 32 + 2 * (8 * 2)),
        (PixelFormat::YCbCr444, 8, 4, [0, 0, 0], 32 + 2 * 32),
        (PixelFormat::YCbCr411, 8, 4, [0, 0, 0], 32 + 2 * (2 * 4)),
        (PixelFormat::YCbCr410, 8, 4, [0, 0, 0], 32 + 2 * (2 * 2)),
        (PixelFormat::YCbCr400, 8, 4, [0, 0, 0], 32),
        (PixelFormat::YCbCrP010, 8, 4, [4, 0, 0], 64 + 2 * 2 * (4 * 2)),
        (PixelFormat::YCbCr444P10, 8, 4, [0, 0, 0], 64 + 2 * 64),
        (PixelFormat::Rgb888, 8, 4, [0, 0, 0], 96),
        (PixelFormat::Rgba8888, 8, 4, [0, 0, 0], 128),
        (PixelFormat::Rgba1010102, 8, 4, [0, 0, 0], 128),
        (PixelFormat::RgbaHalfFloat, 8, 4, [0, 0, 0], 256),
    ];
    for (fmt, w, h, stride, total) in cases {
        let ext = extents(fmt, w, h, stride);
        assert_eq!(ext[0] + ext[1] + ext[2], total, "total for {:?}", fmt);
    }
}
