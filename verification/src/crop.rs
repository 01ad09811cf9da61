//! Crop arithmetic: landscape images are cropped to a centered square,
//! portrait and square images are left as they are.

use vstd::prelude::*;

verus! {

/// Dimensions of the image that a conversion writes, given the decoded
/// dimensions and the crop flag: a landscape image (width strictly greater
/// than height) becomes a `height` by `height` square when cropping is
/// enabled; every other image keeps its dimensions.
pub open spec fn spec_output_dims(w: nat, h: nat, crop: bool) -> (nat, nat) {
    if crop && w > h {
        (h, h)
    } else {
        (w, h)
    }
}

/// The centered-square crop rectangle for a `w` by `h` landscape image:
/// equal slices are removed from the left and right edges (the odd pixel,
/// if any, stays on the right), the vertical extent is untouched.
pub open spec fn spec_crop_rect(w: nat, h: nat) -> (nat, nat, nat, nat) {
    (((w - h) / 2) as nat, 0, h, h)
}

/// Decide whether an image with the given dimensions is cropped, and to
/// which rectangle `(x, y, width, height)`. A rectangle is returned exactly
/// when cropping is enabled and the image is landscape, and it always lies
/// within the bounds of the image.
pub fn crop_rect(w: u32, h: u32, crop: bool) -> (r: Option<(u32, u32, u32, u32)>)
    ensures
        r is Some <==> crop && w > h,
        r matches Some(t) ==> (t.0 as nat, t.1 as nat, t.2 as nat, t.3 as nat)
            == spec_crop_rect(w as nat, h as nat),
        r matches Some(t) ==> t.0 + t.2 <= w && t.1 + t.3 <= h,
        r matches Some(t) ==> (t.2 as nat, t.3 as nat)
            == spec_output_dims(w as nat, h as nat, crop),
        r is None ==> spec_output_dims(w as nat, h as nat, crop) == (w as nat, h as nat),
{
    if crop && w > h {
        let offset: u32 = (w - h) / 2;
        assert(offset + h <= w) by {
            assert((w - h) / 2 <= w - h);
        };
        Some((offset, 0, h, h))
    } else {
        None
    }
}

/// Law: for every landscape image (width strictly greater than height),
/// converting with cropping enabled yields square output dimensions,
/// `height` by `height`.
pub proof fn lemma_crop_squares_landscape(w: nat, h: nat)
    requires
        w > h,
    ensures
        spec_output_dims(w, h, true) == (h, h),
{
}

/// Law: for every image whose width is at most its height, the output
/// dimensions equal the input dimensions whether or not cropping is
/// enabled: tall and square images are never cropped.
pub proof fn lemma_no_crop_keeps_dims(w: nat, h: nat, crop: bool)
    requires
        w <= h,
    ensures
        spec_output_dims(w, h, crop) == (w, h),
{
}

} // verus!
