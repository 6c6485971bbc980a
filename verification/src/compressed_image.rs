//! The owning compressed image: a single contiguous encoded bitstream
//! buffer together with its color metadata. Views referencing a buffer the
//! foreign codec holds exist only in the unverified bridging code; this
//! form adopts its bytes and owns them.

use vstd::prelude::*;

use crate::format::{ColorGamut, ColorRange, ColorTransfer};

verus! {

/// A compressed bitstream with color metadata. Constructed from an
/// already-owned byte buffer, whose declared capacity then equals its
/// length.
pub struct CompressedImage {
    /// The encoded bitstream.
    pub data: Vec<u8>,
    /// The declared capacity of the underlying buffer.
    pub capacity: usize,
    /// Color gamut tag.
    pub color_gamut: ColorGamut,
    /// Color transfer tag.
    pub color_transfer: ColorTransfer,
    /// Color range tag.
    pub range: ColorRange,
}

impl CompressedImage {
    /// Adopts `bytes` as the bitstream buffer. The declared capacity equals
    /// the adopted length; the color metadata defaults to unspecified
    /// gamut and transfer with full range.
    pub fn from_bytes(bytes: Vec<u8>) -> (r: Self)
        ensures
            r.data@ == bytes@,
            r.capacity == bytes@.len(),
            r.color_gamut is Unspecified,
            r.color_transfer is Unspecified,
            r.range is FullRange,
    {
        let capacity = bytes.len();
        CompressedImage {
            data: bytes,
            capacity,
            color_gamut: ColorGamut::Unspecified,
            color_transfer: ColorTransfer::Unspecified,
            range: ColorRange::FullRange,
        }
    }

    /// The encoded bitstream.
    pub fn as_bytes(&self) -> (r: &[u8])
        ensures
            r@ == self.data@,
    {
        self.data.as_slice()
    }

    /// The color gamut tag.
    pub fn color_gamut(&self) -> (r: ColorGamut)
        ensures
            r == self.color_gamut,
    {
        self.color_gamut
    }

    /// Write access to the color gamut tag; nothing else changes.
    pub fn color_gamut_mut(&mut self) -> (r: &mut ColorGamut)
        ensures
            *r == old(self).color_gamut,
            final(self).color_gamut == *final(r),
            final(self).data@ == old(self).data@,
            final(self).capacity == old(self).capacity,
            final(self).color_transfer == old(self).color_transfer,
            final(self).range == old(self).range,
    {
        &mut self.color_gamut
    }

    /// The color transfer tag.
    pub fn color_transfer(&self) -> (r: ColorTransfer)
        ensures
            r == self.color_transfer,
    {
        self.color_transfer
    }

    /// Write access to the color transfer tag; nothing else changes.
    pub fn color_transfer_mut(&mut self) -> (r: &mut ColorTransfer)
        ensures
            *r == old(self).color_transfer,
            final(self).color_transfer == *final(r),
            final(self).data@ == old(self).data@,
            final(self).capacity == old(self).capacity,
            final(self).color_gamut == old(self).color_gamut,
            final(self).range == old(self).range,
    {
        &mut self.color_transfer
    }

    /// The color range tag.
    pub fn color_range(&self) -> (r: ColorRange)
        ensures
            r == self.range,
    {
        self.range
    }

    /// Write access to the color range tag; nothing else changes.
    pub fn color_range_mut(&mut self) -> (r: &mut ColorRange)
        ensures
            *r == old(self).range,
            final(self).range == *final(r),
            final(self).data@ == old(self).data@,
            final(self).capacity == old(self).capacity,
            final(self).color_gamut == old(self).color_gamut,
            final(self).color_transfer == old(self).color_transfer,
    {
        &mut self.range
    }
}

} // verus!
