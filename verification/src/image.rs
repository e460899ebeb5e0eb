//! Decoded images.

use vstd::prelude::*;

verus! {

/// An image decoded into raw pixels, ready for a renderer. The library hands
/// such a value on and never reads its fields.
#[derive(Debug, PartialEq, Eq)]
pub struct DecodedImage {
    /// Width in pixels.
    pub width: u32,
    /// Height in pixels.
    pub height: u32,
    /// The pixel data.
    pub bytes: Vec<u8>,
}

/// What a [`DecodedImage`] is, as a mathematical value.
pub struct DecodedImageView {
    pub width: u32,
    pub height: u32,
    pub bytes: Seq<u8>,
}

impl View for DecodedImage {
    type V = DecodedImageView;

    open spec fn view(&self) -> DecodedImageView {
        DecodedImageView { width: self.width, height: self.height, bytes: self.bytes@ }
    }
}

impl Clone for DecodedImage {
    /// A copy of the image: the same size and the same pixels.
    fn clone(&self) -> (copy: Self)
        ensures
            copy@ == self@,
    {
        let copy = DecodedImage {
            width: self.width,
            height: self.height,
            bytes: self.bytes.clone(),
        };
        assert(copy.bytes@ =~= self.bytes@);
        copy
    }
}

} // verus!
