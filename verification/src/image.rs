//! Plain-value form of a raster image held by the clipboard.

use vstd::prelude::*;
use crate::model::ImageModel;

verus! {

/// A clipboard image as plain values: its dimensions in pixels and its raw
/// bytes.  A width of zero marks the absence of a meaningful image; the
/// capture operation uses such a placeholder when the clipboard holds no
/// image.
pub struct ImageSnapshot {
    pub width: usize,
    pub height: usize,
    pub bytes: Vec<u8>,
}

impl ImageSnapshot {
    /// The mathematical value of this image.
    pub open spec fn model(&self) -> ImageModel {
        ImageModel { width: self.width as nat, height: self.height as nat, bytes: self.bytes@ }
    }

    /// True when this image is worth restoring to the clipboard.
    pub open spec fn spec_is_present(&self) -> bool {
        self.width > 0
    }

    /// The zero-dimension placeholder that stands for "no image".
    pub fn placeholder() -> (i: ImageSnapshot)
        ensures
            i.width == 0,
            i.height == 0,
            i.bytes@ =~= Seq::<u8>::empty(),
            !i.spec_is_present(),
    {
        ImageSnapshot { width: 0, height: 0, bytes: Vec::new() }
    }

    /// An image with the same dimensions and the same bytes.
    pub fn duplicate(&self) -> (d: ImageSnapshot)
        ensures
            d.model() == self.model(),
    {
        let mut bytes: Vec<u8> = Vec::new();
        let mut i: usize = 0;
        while i < self.bytes.len()
            invariant
                i <= self.bytes@.len(),
                bytes@ =~= self.bytes@.subrange(0, i as int),
            decreases self.bytes@.len() - i,
        {
            bytes.push(self.bytes[i]);
            i = i + 1;
        }
        let d = ImageSnapshot { width: self.width, height: self.height, bytes };
        proof {
            assert(d.bytes@ =~= self.bytes@);
            assert(d.model() =~= self.model());
        }
        d
    }

    pub fn is_present(&self) -> (p: bool)
        ensures
            p == self.spec_is_present(),
    {
        self.width > 0
    }
}

} // verus!
