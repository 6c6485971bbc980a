//! Raw image values under three ownership regimes: an owning form with
//! exclusive, independently allocated storage per plane, an immutably
//! borrowed view, and mutable access into the owning form's planes. All
//! regimes share one logical layout, modelled by [`RawImageModel`].

use vstd::prelude::*;

use crate::format::{ColorGamut, ColorRange, ColorTransfer, PixelFormat};
use crate::layout::{resolve, spec_plane_extent, spec_stride_ok};

verus! {

/// The logical content of a raw image, independent of which variant owns
/// the plane storage: format and color metadata, dimensions, the bytes of
/// the three planes, and the declared per-plane row strides.
#[verifier::ext_equal]
pub ghost struct RawImageModel {
    pub fmt: PixelFormat,
    pub color_gamut: ColorGamut,
    pub color_transfer: ColorTransfer,
    pub range: ColorRange,
    pub width: u32,
    pub height: u32,
    pub planes: Seq<Seq<u8>>,
    pub stride: Seq<u32>,
}

impl RawImageModel {
    /// The layout invariant: three plane slots, the stride invariant of the
    /// format holds, and every plane buffer holds exactly the byte extent
    /// the plane layout resolver assigns to its slot.
    pub open spec fn wf(self) -> bool {
        &&& self.planes.len() == 3
        &&& self.stride.len() == 3
        &&& spec_stride_ok(self.fmt, self.width as nat, self.stride)
        &&& forall|i: int|
            0 <= i < 3 ==> (#[trigger] self.planes[i]).len() == spec_plane_extent(
                self.fmt,
                i,
                self.width as nat,
                self.height as nat,
            )
    }
}

/// A raw image: format and color metadata, dimensions, three plane buffers
/// and three per-plane row strides. The parameter picks the ownership
/// regime of the plane buffers.
pub struct RawImage<T> {
    /// Pixel layout of the planes.
    pub fmt: PixelFormat,
    /// Color gamut tag.
    pub color_gamut: ColorGamut,
    /// Color transfer tag.
    pub color_transfer: ColorTransfer,
    /// Color range tag.
    pub range: ColorRange,
    /// Image width in pixels.
    pub width: u32,
    /// Image height in pixels.
    pub height: u32,
    /// The three plane buffers; slots a format does not use are empty.
    pub planes: [T; 3],
    /// Declared row stride of each plane.
    pub stride: [u32; 3],
}

/// A raw image owning exclusive, independently allocated storage per plane.
pub type OwnedRawImage = RawImage<Vec<u8>>;

/// A raw image holding read-only views into storage owned elsewhere, bound
/// to the owner's lifetime.
pub type BorrowedRawImage<'a> = RawImage<&'a [u8]>;

impl View for RawImage<Vec<u8>> {
    type V = RawImageModel;

    open spec fn view(&self) -> RawImageModel {
        RawImageModel {
            fmt: self.fmt,
            color_gamut: self.color_gamut,
            color_transfer: self.color_transfer,
            range: self.range,
            width: self.width,
            height: self.height,
            planes: seq![self.planes@[0]@, self.planes@[1]@, self.planes@[2]@],
            stride: self.stride@,
        }
    }
}

impl<'a> View for RawImage<&'a [u8]> {
    type V = RawImageModel;

    open spec fn view(&self) -> RawImageModel {
        RawImageModel {
            fmt: self.fmt,
            color_gamut: self.color_gamut,
            color_transfer: self.color_transfer,
            range: self.range,
            width: self.width,
            height: self.height,
            planes: seq![self.planes@[0]@, self.planes@[1]@, self.planes@[2]@],
            stride: self.stride@,
        }
    }
}

/// The model of a freshly constructed owned image: unspecified format and
/// color metadata, zero dimensions, empty planes and zero strides.
pub open spec fn spec_empty_model() -> RawImageModel {
    RawImageModel {
        fmt: PixelFormat::Unspecified,
        color_gamut: ColorGamut::Unspecified,
        color_transfer: ColorTransfer::Unspecified,
        range: ColorRange::Unspecified,
        width: 0,
        height: 0,
        planes: seq![Seq::empty(), Seq::empty(), Seq::empty()],
        stride: seq![0u32, 0u32, 0u32],
    }
}

impl RawImage<Vec<u8>> {
    /// An empty owned image with unspecified format and metadata.
    pub fn new() -> (r: Self)
        ensures
            r@ == spec_empty_model(),
            r@.wf(),
    {
        let r = RawImage {
            fmt: PixelFormat::Unspecified,
            color_gamut: ColorGamut::Unspecified,
            color_transfer: ColorTransfer::Unspecified,
            range: ColorRange::Unspecified,
            width: 0,
            height: 0,
            planes: [Vec::new(), Vec::new(), Vec::new()],
            stride: [0, 0, 0],
        };
        proof {
            assert(r@ =~~= spec_empty_model());
        }
        r
    }

    /// A zero-copy immutable view of this image: same layout, same
    /// metadata, plane views aliasing this image's storage.
    pub fn as_ref(&self) -> (r: BorrowedRawImage<'_>)
        ensures
            r@ == self@,
    {
        let r = RawImage {
            fmt: self.fmt,
            color_gamut: self.color_gamut,
            color_transfer: self.color_transfer,
            range: self.range,
            width: self.width,
            height: self.height,
            planes: [self.planes[0].as_slice(), self.planes[1].as_slice(), self.planes[2].as_slice()],
            stride: self.stride,
        };
        proof {
            assert(r@ =~~= self@);
        }
        r
    }

    /// Exclusive write access into one plane of this image. Mutation
    /// through the returned reference is mutation of this image's own
    /// storage: the final model updates exactly the chosen plane, so the
    /// change is visible through any view of this image taken afterwards,
    /// and through nothing else.
    pub fn plane_mut(&mut self, i: usize) -> (p: &mut Vec<u8>)
        requires
            i < 3,
        ensures
            (*p)@ == old(self)@.planes[i as int],
            final(self)@ =~~= (RawImageModel {
                planes: old(self)@.planes.update(i as int, (*final(p))@),
                ..old(self)@
            }),
    {
        &mut self.planes[i]
    }

    /// Checks the layout invariant of this image: the stride invariant of
    /// its format holds and every plane buffer length equals the byte
    /// extent the plane layout resolver assigns to it.
    pub fn validate(&self) -> (ok: bool)
        ensures
            ok == self@.wf(),
    {
        match resolve(self.fmt, self.width, self.height, &self.stride) {
            Ok(ext) => {
                let ok = self.planes[0].len() == ext[0] && self.planes[1].len() == ext[1]
                    && self.planes[2].len() == ext[2];
                proof {
                    if ok {
                        assert forall|i: int| 0 <= i < 3 implies (#[trigger] self@.planes[i]).len()
                            == spec_plane_extent(
                            self.fmt,
                            i,
                            self.width as nat,
                            self.height as nat,
                        ) by {
                            assert(ext@[i] == spec_plane_extent(
                                self.fmt,
                                i,
                                self.width as nat,
                                self.height as nat,
                            ));
                        }
                    }
                }
                ok
            },
            Err(_) => {
                // either the stride invariant fails, or an extent overflows
                // the address space and no allocated plane can match it
                let l0 = self.planes[0].len();
                let l1 = self.planes[1].len();
                proof {
                    assert(self@.planes[0].len() == l0);
                    assert(self@.planes[1].len() == l1);
                }
                false
            },
        }
    }
}

impl<'a> RawImage<&'a [u8]> {
    /// Materializes this borrowed view as an owning image by deep-copying
    /// every plane; metadata, dimensions and strides carry over unchanged.
    pub fn to_owned(&self) -> (r: OwnedRawImage)
        ensures
            r@ == self@,
    {
        let r = RawImage {
            fmt: self.fmt,
            color_gamut: self.color_gamut,
            color_transfer: self.color_transfer,
            range: self.range,
            width: self.width,
            height: self.height,
            planes: [
                copy_plane(self.planes[0]),
                copy_plane(self.planes[1]),
                copy_plane(self.planes[2]),
            ],
            stride: self.stride,
        };
        proof {
            assert(r@ =~~= self@);
        }
        r
    }
}

/// Law: in a well-formed image no plane's resolved byte extent exceeds the
/// backing buffer's declared length, for every supported format and every
/// pair of dimensions the layout allows.
pub proof fn lemma_extents_within_buffers(m: RawImageModel)
    requires
        m.wf(),
    ensures
        forall|i: int|
            0 <= i < 3 ==> spec_plane_extent(m.fmt, i, m.width as nat, m.height as nat) <= (
            #[trigger] m.planes[i]).len(),
{
}

/// Law: a borrowed view of an owned image is a zero-copy alias (its model
/// equals the owner's), and materializing that view by deep copy yields an
/// owned image with byte-identical plane contents and identical metadata,
/// whatever the format. The two premises are exactly what [`RawImage::as_ref`]
/// and [`RawImage::to_owned`] ensure.
pub proof fn lemma_borrow_copy_round_trip(
    owner: RawImageModel,
    view: RawImageModel,
    copy: RawImageModel,
)
    requires
        view == owner,
        copy == view,
    ensures
        copy == owner,
        forall|i: int| 0 <= i < 3 ==> copy.planes[i] =~= owner.planes[i],
        copy.fmt == owner.fmt,
        copy.color_gamut == owner.color_gamut,
        copy.color_transfer == owner.color_transfer,
        copy.range == owner.range,
        copy.width == owner.width,
        copy.height == owner.height,
        copy.stride == owner.stride,
{
}

/// Law: writing one byte of one plane, as [`RawImage::plane_mut`] permits,
/// changes exactly that byte of that plane of that image. Every other byte,
/// every other plane, and all metadata keep their values, and a distinct
/// image value, such as a deep copy taken earlier, is not affected at all.
pub proof fn lemma_plane_write_frame(m: RawImageModel, i: int, j: int, v: u8)
    requires
        m.planes.len() == 3,
        0 <= i < 3,
        0 <= j < m.planes[i].len(),
    ensures
        ({
            let m2 = RawImageModel {
                planes: m.planes.update(i, m.planes[i].update(j, v)),
                ..m
            };
            &&& m2.planes[i][j] == v
            &&& forall|k: int| 0 <= k < 3 && k != i ==> m2.planes[k] == m.planes[k]
            &&& forall|l: int|
                0 <= l < m.planes[i].len() && l != j ==> m2.planes[i][l] == m.planes[i][l]
            &&& m2.fmt == m.fmt && m2.color_gamut == m.color_gamut && m2.color_transfer
                == m.color_transfer && m2.range == m.range && m2.width == m.width && m2.height
                == m.height && m2.stride == m.stride
        }),
{
}

/// Byte-for-byte copy of one plane into freshly allocated storage.
fn copy_plane(src: &[u8]) -> (r: Vec<u8>)
    ensures
        r@ == src@,
{
    let mut out: Vec<u8> = Vec::new();
    let n = src.len();
    let mut i: usize = 0;
    while i < n
        invariant
            i <= n,
            n == src@.len(),
            out@ == src@.take(i as int),
        decreases n - i,
    {
        out.push(src[i]);
        i = i + 1;
        proof {
            assert(out@ =~= src@.take(i as int));
        }
    }
    proof {
        assert(src@.take(n as int) =~= src@);
    }
    out
}

} // verus!
