//! A decoded image: its header and its pixels.

use crate::color::color::RGBA;
use crate::structure::qoi_header::QOIHeader;
use vstd::prelude::*;

verus! {

/// A header and the pixels that were decoded under it, in stream order.
#[derive(Debug, Eq, PartialEq, Clone)]
pub struct QOIImage {
    pub header: QOIHeader,
    pub pixels: Vec<RGBA>,
}

impl QOIImage {
    /// Whether the image holds as many pixels as its header announces:
    /// width times height.
    pub open spec fn spec_is_complete(&self) -> bool {
        self.pixels@.len() == self.header.width * self.header.height
    }

    /// An image without pixels, under the header of an empty image.
    pub fn new() -> (image: QOIImage)
        ensures
            image.header == QOIHeader::spec_new(),
            image.pixels@ == Seq::<RGBA>::empty(),
    {
        QOIImage { header: QOIHeader::new(), pixels: Vec::new() }
    }

    /// Whether the image holds as many pixels as its header announces.
    pub fn is_complete(&self) -> (complete: bool)
        ensures
            complete == self.spec_is_complete(),
    {
        let width = self.header.width as u64;
        let height = self.header.height as u64;
        assert(width * height <= 0xFFFF_FFFF * 0xFFFF_FFFF) by (nonlinear_arith)
            requires
                width <= 0xFFFF_FFFF,
                height <= 0xFFFF_FFFF,
        ;
        let expected: u64 = width * height;
        self.pixels.len() as u64 == expected
    }
}

impl Default for QOIImage {
    /// An image without pixels, as [`QOIImage::new`].
    fn default() -> (image: QOIImage)
        ensures
            image.header == QOIHeader::spec_new(),
            image.pixels@ == Seq::<RGBA>::empty(),
    {
        QOIImage::new()
    }
}

} // verus!
