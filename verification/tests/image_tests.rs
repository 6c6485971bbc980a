use ultrahdr::compressed_image::CompressedImage;
use ultrahdr::format::{ColorGamut, ColorRange, ColorTransfer, PixelFormat};
use ultrahdr::layout::resolve;
use ultrahdr::raw_image::{OwnedRawImage, RawImage};

fn filled_image(fmt: PixelFormat, w: u32, h: u32, stride: [u32; 3]) -> OwnedRawImage {
    let ext = resolve(fmt, w, h, &stride).expect("layout should resolve");
    let mut seed: u8 = 7;
    let planes = ext.map(|n| {
        let mut v = Vec::with_capacity(n);
        for _ in 0..n {
            seed = seed.wrapping_mul(31).wrapping_add(11);
            v.push(seed);
        }
        v
    });
    RawImage {
        fmt,
        color_gamut: ColorGamut::Bt709,
        color_transfer: ColorTransfer::Srgb,
        range: ColorRange::LimitedRange,
        width: w,
        height: h,
        planes,
        stride,
    }
}

#[test]
fn new_owned_image_is_empty_and_unspecified() {
    let img = OwnedRawImage::new();
    assert_eq!(img.fmt, PixelFormat::Unspecified);
    assert_eq!(img.color_gamut, ColorGamut::Unspecified);
    assert_eq!(img.color_transfer, ColorTransfer::Unspecified);
    assert_eq!(img.range, ColorRange::Unspecified);
    assert_eq!(img.width, 0);
    assert_eq!(img.height, 0);
    assert!(img.planes.iter().all(|p| p.is_empty()));
    assert_eq!(img.stride, [0, 0, 0]);
    assert!(img.validate());
}

#[test]
fn borrow_then_copy_round_trips_every_format() {
    let cases = [
        (PixelFormat::Unspecified, 0u32, 0u32, [0u32, 0, 0]),
        (PixelFormat::YCbCr420, 8, 4, [0, 0, 0]),
        (PixelFormat::YCbCr422, 8, 4, [0, 0, 0]),
        (PixelFormat::YCbCr440, 8, 4, [0, 0, 0]),
        (PixelFormat::YCbCr444, 8, 4, [0, 0, 0]),
        (PixelFormat::YCbCr411, 8, 4, [0, 0, 0]),
        (PixelFormat::YCbCr410, 8, 4, [0, 0, 0]),
        (PixelFormat::YCbCr400, 8, 4, [0, 0, 0]),
        (PixelFormat::YCbCrP010, 8, 4, [4, 0, 0]),
        (PixelFormat::YCbCr444P10, 8, 4, [0, 0, 0]),
        (PixelFormat::Rgb888, 8, 4, [0, 0, 0]),
        (PixelFormat::Rgba8888, 8, 4, [0, 0, 0]),
        (PixelFormat::Rgba1010102, 8, 4, [0, 0, 0]),
        (PixelFormat::RgbaHalfFloat, 8, 4, [0, 0, 0]),
    ];
    for (fmt, w, h, stride) in cases {
        let img = filled_image(fmt, w, h, stride);
        let copy = img.as_ref().to_owned();
        assert_eq!(copy.fmt, img.fmt);
        assert_eq!(copy.color_gamut, img.color_gamut);
        assert_eq!(copy.color_transfer, img.color_transfer);
        assert_eq!(copy.range, img.range);
        assert_eq!(copy.width, img.width);
        assert_eq!(copy.height, img.height);
        assert_eq!(copy.stride, img.stride);
        for i in 0..3 {
            assert_eq!(copy.planes[i], img.planes[i], "plane {} for {:?}", i, fmt);
        }
    }
}

#[test]
fn borrowed_view_aliases_owner_storage() {
    let mut img = filled_image(PixelFormat::YCbCr420, 4, 4, [0, 0, 0]);
    let before = img.planes[0][0];
    let new_byte = before.wrapping_add(1);
    img.plane_mut(0)[0] = new_byte;
    // the write through the mutable plane view is the owner's own storage,
    // so a view taken of the owner now exposes it
    let view = img.as_ref();
    assert_eq!(view.planes[0][0], new_byte);
    assert_ne!(view.planes[0][0], before);
}

#[test]
fn independently_copied_images_are_isolated() {
    let mut img = filled_image(PixelFormat::YCbCr420, 4, 4, [0, 0, 0]);
    let copy = img.as_ref().to_owned();
    let before = img.planes[0][0];
    img.plane_mut(0)[0] = before.wrapping_add(1);
    // the deep copy holds its own storage and keeps the original byte
    assert_eq!(copy.planes[0][0], before);
    // and only the written byte of the written plane changed in the owner
    assert_eq!(img.planes[0][1..], copy.planes[0][1..]);
    assert_eq!(img.planes[1], copy.planes[1]);
    assert_eq!(img.planes[2], copy.planes[2]);
}

#[test]
fn validate_accepts_resolved_layouts_and_rejects_short_planes() {
    let img = filled_image(PixelFormat::YCbCr420, 8, 4, [0, 0, 0]);
    assert!(img.validate());
    let mut short = filled_image(PixelFormat::YCbCr420, 8, 4, [0, 0, 0]);
    short.planes[1].pop();
    assert!(!short.validate());
}

#[test]
fn validate_rejects_wrong_semi_planar_stride() {
    let mut img = filled_image(PixelFormat::YCbCrP010, 8, 4, [4, 0, 0]);
    assert!(img.validate());
    img.stride[0] = 8;
    assert!(!img.validate());
}

#[test]
fn compressed_image_adopts_bytes_with_default_metadata() {
    let img = CompressedImage::from_bytes(vec![1, 2, 3, 4]);
    assert_eq!(img.as_bytes(), &[1, 2, 3, 4]);
    assert_eq!(img.capacity, 4);
    assert_eq!(img.color_gamut(), ColorGamut::Unspecified);
    assert_eq!(img.color_transfer(), ColorTransfer::Unspecified);
    assert_eq!(img.color_range(), ColorRange::FullRange);
}

#[test]
fn compressed_image_metadata_mutators_write_through() {
    let mut img = CompressedImage::from_bytes(vec![9]);
    *img.color_gamut_mut() = ColorGamut::DisplayP3;
    *img.color_transfer_mut() = ColorTransfer::Pq;
    *img.color_range_mut() = ColorRange::LimitedRange;
    assert_eq!(img.color_gamut(), ColorGamut::DisplayP3);
    assert_eq!(img.color_transfer(), ColorTransfer::Pq);
    assert_eq!(img.color_range(), ColorRange::LimitedRange);
    assert_eq!(img.as_bytes(), &[9]);
}
