//! The encoder session protocol: a mutable builder that accumulates
//! configuration through setters, each individually validated by the
//! foreign codec, then performs one terminal encode and exposes the
//! resulting stream. The session exclusively owns its foreign codec handle
//! and releases it exactly once at end of life.
//!
//! The foreign calls themselves happen in unverified bridging code; each
//! operation here receives the status descriptor that the codec reported
//! for it and decides, as the protocol layer, what the outcome is and how
//! the session state advances. On failure the session is never durably
//! corrupted: its configuration is left exactly as it was, and the caller
//! may retry with corrected arguments.

use vstd::prelude::*;

use crate::compressed_image::CompressedImage;
use crate::error::{spec_error_of, CodecStatusCode, StatusInfo, UhdrError};
use crate::format::ImgLabel;
use crate::raw_image::BorrowedRawImage;

verus! {

/// Slot index of an intent label within the session's slot tables.
pub open spec fn spec_label_index(l: ImgLabel) -> int {
    match l {
        ImgLabel::Hdr => 0,
        ImgLabel::Sdr => 1,
        ImgLabel::Base => 2,
        ImgLabel::GainMap => 3,
    }
}

fn label_index(l: ImgLabel) -> (i: usize)
    ensures
        i == spec_label_index(l),
        i < 4,
{
    match l {
        ImgLabel::Hdr => 0,
        ImgLabel::Sdr => 1,
        ImgLabel::Base => 2,
        ImgLabel::GainMap => 3,
    }
}

/// An encoder session. It tracks which image slots have been accepted by
/// the codec, the accepted tuning parameters, whether an encode has
/// succeeded, and the lifecycle of the exclusively owned codec handle.
pub struct Encoder {
    handle_alive: bool,
    release_count: u32,
    encode_done: bool,
    raw_slots: [bool; 4],
    compressed_slots: [bool; 4],
    gainmap_image_set: bool,
    gainmap_scale: Option<i32>,
    base_quality: i32,
    gainmap_quality: i32,
}

impl Encoder {
    /// Whether the session still holds its foreign codec handle.
    pub closed spec fn alive(&self) -> bool {
        self.handle_alive
    }

    /// How many times the handle has been released.
    pub closed spec fn released_times(&self) -> u32 {
        self.release_count
    }

    /// Whether an encode has succeeded and its output is retrievable.
    pub closed spec fn encoded(&self) -> bool {
        self.encode_done
    }

    /// Whether a raw image has been accepted for the given intent label.
    pub closed spec fn raw_slot(&self, l: ImgLabel) -> bool {
        self.raw_slots@[spec_label_index(l)]
    }

    /// Whether a compressed image has been accepted for the given intent
    /// label.
    pub closed spec fn compressed_slot(&self, l: ImgLabel) -> bool {
        self.compressed_slots@[spec_label_index(l)]
    }

    /// Whether a gain-map image has been accepted.
    pub closed spec fn gainmap_slot(&self) -> bool {
        self.gainmap_image_set
    }

    /// The accepted gain-map scale factor, if one has been set.
    pub closed spec fn scale_factor(&self) -> Option<i32> {
        self.gainmap_scale
    }

    /// The configured base-image quality factor.
    pub closed spec fn base_quality(&self) -> i32 {
        self.base_quality
    }

    /// The configured gain-map-image quality factor.
    pub closed spec fn gainmap_quality(&self) -> i32 {
        self.gainmap_quality
    }

    /// The handle lifecycle invariant: the session holds its handle and has
    /// never released it, or it has released it exactly once. Established
    /// at construction and preserved by every operation.
    pub open spec fn wf(&self) -> bool {
        self.released_times() == if self.alive() {
            0u32
        } else {
            1u32
        }
    }

    /// Whether two session states hold the same image slots.
    pub open spec fn same_slots(a: &Encoder, b: &Encoder) -> bool {
        &&& forall|l: ImgLabel| #[trigger] a.raw_slot(l) == b.raw_slot(l)
        &&& forall|l: ImgLabel| #[trigger] a.compressed_slot(l) == b.compressed_slot(l)
        &&& a.gainmap_slot() == b.gainmap_slot()
    }

    /// Whether two session states hold the same tuning parameters.
    pub open spec fn same_tuning(a: &Encoder, b: &Encoder) -> bool {
        &&& a.scale_factor() == b.scale_factor()
        &&& a.base_quality() == b.base_quality()
        &&& a.gainmap_quality() == b.gainmap_quality()
    }

    /// Whether two session states carry the same accumulated
    /// configuration.
    pub open spec fn same_config(a: &Encoder, b: &Encoder) -> bool {
        Self::same_slots(a, b) && Self::same_tuning(a, b)
    }

    /// Whether two session states agree on handle lifecycle and encode
    /// progress.
    pub open spec fn same_lifecycle(a: &Encoder, b: &Encoder) -> bool {
        &&& a.alive() == b.alive()
        &&& a.released_times() == b.released_times()
        &&& a.encoded() == b.encoded()
    }

    /// `b` is `a` with exactly the raw slot for `l` (re)occupied.
    pub open spec fn raw_slot_update(a: &Encoder, b: &Encoder, l: ImgLabel) -> bool {
        &&& b.raw_slot(l)
        &&& forall|k: ImgLabel| k != l ==> #[trigger] b.raw_slot(k) == a.raw_slot(k)
        &&& forall|k: ImgLabel| #[trigger] b.compressed_slot(k) == a.compressed_slot(k)
        &&& b.gainmap_slot() == a.gainmap_slot()
        &&& Self::same_tuning(a, b)
    }

    /// `b` is `a` with exactly the compressed slot for `l` (re)occupied.
    pub open spec fn compressed_slot_update(a: &Encoder, b: &Encoder, l: ImgLabel) -> bool {
        &&& b.compressed_slot(l)
        &&& forall|k: ImgLabel| k != l ==> #[trigger] b.compressed_slot(k) == a.compressed_slot(k)
        &&& forall|k: ImgLabel| #[trigger] b.raw_slot(k) == a.raw_slot(k)
        &&& b.gainmap_slot() == a.gainmap_slot()
        &&& Self::same_tuning(a, b)
    }

    /// The common outcome contract of every setter: the call succeeds
    /// exactly when the codec reported success, and a failure surfaces the
    /// normalized codec error.
    pub open spec fn setter_outcome(r: Result<(), UhdrError>, status: StatusInfo) -> bool {
        &&& r is Ok <==> status.error_code is Success
        &&& r matches Err(e) ==> e@ == spec_error_of(
            status.error_code,
            status.has_detail,
            status.detail@,
        )
    }

    /// A fresh, unconfigured session holding a live handle. Both quality
    /// factors start at the default of 95.
    pub fn new() -> (r: Self)
        ensures
            r.alive(),
            r.released_times() == 0,
            !r.encoded(),
            forall|l: ImgLabel| !(#[trigger] r.raw_slot(l)),
            forall|l: ImgLabel| !(#[trigger] r.compressed_slot(l)),
            !r.gainmap_slot(),
            r.scale_factor() is None,
            r.base_quality() == 95,
            r.gainmap_quality() == 95,
            r.wf(),
    {
        Encoder {
            handle_alive: true,
            release_count: 0,
            encode_done: false,
            raw_slots: [false, false, false, false],
            compressed_slots: [false, false, false, false],
            gainmap_image_set: false,
            gainmap_scale: None,
            base_quality: 95,
            gainmap_quality: 95,
        }
    }

    /// Records a raw image for the given intent label. The codec validated
    /// the forwarded image and reported `status`: on success the slot for
    /// that label is (re)occupied, on failure the session is unchanged and
    /// the normalized error is returned.
    pub fn set_raw_image(
        &mut self,
        img: &BorrowedRawImage<'_>,
        intent: ImgLabel,
        status: StatusInfo,
    ) -> (r: Result<(), UhdrError>)
        requires
            old(self).alive(),
        ensures
            Self::setter_outcome(r, status),
            Self::same_lifecycle(old(self), final(self)),
            r is Ok ==> Self::raw_slot_update(old(self), final(self), intent),
            r is Err ==> Self::same_config(old(self), final(self)),
    {
        let _ = img;
        match UhdrError::check(status) {
            Ok(()) => {
                let i = label_index(intent);
                self.raw_slots[i] = true;
                Ok(())
            },
            Err(e) => Err(e),
        }
    }

    /// Records a raw image for the SDR slot.
    pub fn set_raw_sdr_image(&mut self, img: &BorrowedRawImage<'_>, status: StatusInfo) -> (r:
        Result<(), UhdrError>)
        requires
            old(self).alive(),
        ensures
            Self::setter_outcome(r, status),
            Self::same_lifecycle(old(self), final(self)),
            r is Ok ==> Self::raw_slot_update(old(self), final(self), ImgLabel::Sdr),
            r is Err ==> Self::same_config(old(self), final(self)),
    {
        self.set_raw_image(img, ImgLabel::Sdr, status)
    }

    /// Records a raw image for the HDR slot.
    pub fn set_raw_hdr_image(&mut self, img: &BorrowedRawImage<'_>, status: StatusInfo) -> (r:
        Result<(), UhdrError>)
        requires
            old(self).alive(),
        ensures
            Self::setter_outcome(r, status),
            Self::same_lifecycle(old(self), final(self)),
            r is Ok ==> Self::raw_slot_update(old(self), final(self), ImgLabel::Hdr),
            r is Err ==> Self::same_config(old(self), final(self)),
    {
        self.set_raw_image(img, ImgLabel::Hdr, status)
    }

    /// Records a compressed image for the given intent label, with the
    /// same outcome contract as [`Encoder::set_raw_image`].
    pub fn set_compressed_image(
        &mut self,
        compressed_image: &CompressedImage,
        intent: ImgLabel,
        status: StatusInfo,
    ) -> (r: Result<(), UhdrError>)
        requires
            old(self).alive(),
        ensures
            Self::setter_outcome(r, status),
            Self::same_lifecycle(old(self), final(self)),
            r is Ok ==> Self::compressed_slot_update(old(self), final(self), intent),
            r is Err ==> Self::same_config(old(self), final(self)),
    {
        let _ = compressed_image;
        match UhdrError::check(status) {
            Ok(()) => {
                let i = label_index(intent);
                self.compressed_slots[i] = true;
                Ok(())
            },
            Err(e) => Err(e),
        }
    }

    /// Records a compressed image for the base slot.
    pub fn set_compressed_base_image(
        &mut self,
        compressed_image: &CompressedImage,
        status: StatusInfo,
    ) -> (r: Result<(), UhdrError>)
        requires
            old(self).alive(),
        ensures
            Self::setter_outcome(r, status),
            Self::same_lifecycle(old(self), final(self)),
            r is Ok ==> Self::compressed_slot_update(old(self), final(self), ImgLabel::Base),
            r is Err ==> Self::same_config(old(self), final(self)),
    {
        self.set_compressed_image(compressed_image, ImgLabel::Base, status)
    }

    /// Records a compressed image for the SDR slot.
    pub fn set_compressed_sdr_image(
        &mut self,
        compressed_image: &CompressedImage,
        status: StatusInfo,
    ) -> (r: Result<(), UhdrError>)
        requires
            old(self).alive(),
        ensures
            Self::setter_outcome(r, status),
            Self::same_lifecycle(old(self), final(self)),
            r is Ok ==> Self::compressed_slot_update(old(self), final(self), ImgLabel::Sdr),
            r is Err ==> Self::same_config(old(self), final(self)),
    {
        self.set_compressed_image(compressed_image, ImgLabel::Sdr, status)
    }

    /// Records a compressed image for the HDR slot.
    pub fn set_compressed_hdr_image(
        &mut self,
        compressed_image: &CompressedImage,
        status: StatusInfo,
    ) -> (r: Result<(), UhdrError>)
        requires
            old(self).alive(),
        ensures
            Self::setter_outcome(r, status),
            Self::same_lifecycle(old(self), final(self)),
            r is Ok ==> Self::compressed_slot_update(old(self), final(self), ImgLabel::Hdr),
            r is Err ==> Self::same_config(old(self), final(self)),
    {
        self.set_compressed_image(compressed_image, ImgLabel::Hdr, status)
    }

    /// Records a gain-map image. The accompanying gain-map metadata is
    /// forwarded to the codec by the bridging code and is not retained
    /// here.
    pub fn set_gainmap_image(&mut self, img: &CompressedImage, status: StatusInfo) -> (r: Result<
        (),
        UhdrError,
    >)
        requires
            old(self).alive(),
        ensures
            Self::setter_outcome(r, status),
            Self::same_lifecycle(old(self), final(self)),
            r is Ok ==> final(self).gainmap_slot(),
            r is Ok ==> forall|l: ImgLabel| #[trigger]
                final(self).raw_slot(l) == old(self).raw_slot(l),
            r is Ok ==> forall|l: ImgLabel| #[trigger]
                final(self).compressed_slot(l) == old(self).compressed_slot(l),
            r is Ok ==> Self::same_tuning(old(self), final(self)),
            r is Err ==> Self::same_config(old(self), final(self)),
    {
        let _ = img;
        match UhdrError::check(status) {
            Ok(()) => {
                self.gainmap_image_set = true;
                Ok(())
            },
            Err(e) => Err(e),
        }
    }

    /// Records the gain-map scale factor.
    pub fn set_gainmap_scale_factor(&mut self, gainmap_scale_factor: i32, status: StatusInfo) -> (r:
        Result<(), UhdrError>)
        requires
            old(self).alive(),
        ensures
            Self::setter_outcome(r, status),
            Self::same_lifecycle(old(self), final(self)),
            r is Ok ==> final(self).scale_factor() == Some(gainmap_scale_factor),
            r is Ok ==> Self::same_slots(old(self), final(self)),
            r is Ok ==> final(self).base_quality() == old(self).base_quality()
                && final(self).gainmap_quality() == old(self).gainmap_quality(),
            r is Err ==> Self::same_config(old(self), final(self)),
    {
        match UhdrError::check(status) {
            Ok(()) => {
                self.gainmap_scale = Some(gainmap_scale_factor);
                Ok(())
            },
            Err(e) => Err(e),
        }
    }

    /// Records the base-image quality factor. The codec accepts any integer
    /// in 0 to 100 and rejects the rest; this layer performs no local range
    /// check and surfaces whatever the codec decided.
    pub fn set_base_image_quality(&mut self, quality: i32, status: StatusInfo) -> (r: Result<
        (),
        UhdrError,
    >)
        requires
            old(self).alive(),
        ensures
            Self::setter_outcome(r, status),
            Self::same_lifecycle(old(self), final(self)),
            r is Ok ==> final(self).base_quality() == quality,
            r is Ok ==> Self::same_slots(old(self), final(self)),
            r is Ok ==> final(self).scale_factor() == old(self).scale_factor()
                && final(self).gainmap_quality() == old(self).gainmap_quality(),
            r is Err ==> Self::same_config(old(self), final(self)),
    {
        match UhdrError::check(status) {
            Ok(()) => {
                self.base_quality = quality;
                Ok(())
            },
            Err(e) => Err(e),
        }
    }

    /// Records the gain-map-image quality factor, with the same contract
    /// shape as [`Encoder::set_base_image_quality`].
    pub fn set_gainmap_image_quality(&mut self, quality: i32, status: StatusInfo) -> (r: Result<
        (),
        UhdrError,
    >)
        requires
            old(self).alive(),
        ensures
            Self::setter_outcome(r, status),
            Self::same_lifecycle(old(self), final(self)),
            r is Ok ==> final(self).gainmap_quality() == quality,
            r is Ok ==> Self::same_slots(old(self), final(self)),
            r is Ok ==> final(self).scale_factor() == old(self).scale_factor()
                && final(self).base_quality() == old(self).base_quality(),
            r is Err ==> Self::same_config(old(self), final(self)),
    {
        match UhdrError::check(status) {
            Ok(()) => {
                self.gainmap_quality = quality;
                Ok(())
            },
            Err(e) => Err(e),
        }
    }

    /// The terminal encode step. After it, the session's output is
    /// retrievable exactly when the codec reported success; the
    /// accumulated configuration is untouched either way, so a failed
    /// encode may be followed by corrective setters and another attempt.
    pub fn encode(&mut self, status: StatusInfo) -> (r: Result<(), UhdrError>)
        requires
            old(self).alive(),
        ensures
            Self::setter_outcome(r, status),
            final(self).alive() == old(self).alive(),
            final(self).released_times() == old(self).released_times(),
            final(self).encoded() == (status.error_code is Success),
            Self::same_config(old(self), final(self)),
    {
        match UhdrError::check(status) {
            Ok(()) => {
                self.encode_done = true;
                Ok(())
            },
            Err(e) => {
                self.encode_done = false;
                Err(e)
            },
        }
    }

    /// Gates the codec-held output behind the protocol: before any
    /// successful encode there is no value to yield, whatever the bridging
    /// code offers; after a successful encode the codec's output, if it
    /// holds one, passes through unchanged.
    pub fn get_encoded_stream(&self, codec_stream: Option<CompressedImage>) -> (r: Option<
        CompressedImage,
    >)
        ensures
            !self.encoded() ==> r is None,
            self.encoded() ==> r == codec_stream,
    {
        if self.has_encoded() {
            codec_stream
        } else {
            None
        }
    }

    /// Whether an encode has succeeded.
    pub fn has_encoded(&self) -> (b: bool)
        ensures
            b == self.encoded(),
    {
        self.encode_done
    }

    /// Whether the session still holds its foreign codec handle.
    pub fn is_alive(&self) -> (b: bool)
        ensures
            b == self.alive(),
    {
        self.handle_alive
    }

    /// How many times the handle has been released.
    pub fn times_released(&self) -> (n: u32)
        ensures
            n == self.released_times(),
    {
        self.release_count
    }

    /// Releases the foreign codec handle. Whatever happened before —
    /// however many setters failed, whether an encode ran — after this call
    /// the handle has been released exactly once, and a repeated call
    /// releases nothing further: no double release, no leak.
    pub fn release(&mut self)
        requires
            old(self).wf(),
        ensures
            !final(self).alive(),
            final(self).released_times() == 1,
            final(self).wf(),
            final(self).encoded() == old(self).encoded(),
            Self::same_config(old(self), final(self)),
    {
        if self.handle_alive {
            self.handle_alive = false;
            self.release_count = self.release_count + 1;
        }
    }
}

} // verus!
