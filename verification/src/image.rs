//! The image model: pixel dimensions and an owned, contiguous pixel buffer
//! with a fixed channel count of 3 (interleaved RGB, no row padding).

use vstd::prelude::*;

verus! {

/// The number of channels of every image in this crate: interleaved RGB.
pub const CHANNELS: usize = 3;

/// Pixel dimensions of an image, as read from a JPEG header or chosen by a
/// caller.
#[derive(Clone, Copy, Debug, PartialEq, Eq, Structural)]
pub struct ImageSize {
    /// Width in pixels (number of columns).
    pub width: usize,
    /// Height in pixels (number of rows).
    pub height: usize,
}

/// Error raised by the validating image factory.
#[derive(Clone, Copy, Debug, PartialEq, Eq, Structural)]
pub enum ImageError {
    /// The supplied buffer does not hold exactly
    /// `width * height * CHANNELS` bytes; the payload is the buffer's length
    /// and the dimensions it was checked against.
    InvalidLength(usize, ImageSize),
}

/// An owned pixel buffer together with its dimensions. The channel count is
/// fixed at 3 (interleaved RGB) and rows carry no padding, so a well-formed
/// buffer holds exactly `width * height * 3` bytes.
#[derive(Debug)]
pub struct Image {
    size: ImageSize,
    data: Vec<u8>,
}

impl Image {
    /// The dimensions of the image, for use in contracts.
    pub closed spec fn spec_size(self) -> ImageSize {
        self.size
    }

    /// Width in pixels, for use in contracts.
    pub open spec fn spec_width(self) -> usize {
        self.spec_size().width
    }

    /// Height in pixels, for use in contracts.
    pub open spec fn spec_height(self) -> usize {
        self.spec_size().height
    }

    /// The pixel bytes, for use in contracts.
    pub closed spec fn spec_data(self) -> Seq<u8> {
        self.data@
    }

    /// Well-formedness: the buffer holds exactly one byte per channel per
    /// pixel. The validating factory establishes this and nothing ever
    /// breaks it.
    pub open spec fn wf(self) -> bool {
        self.spec_data().len() == self.spec_width() * self.spec_height() * CHANNELS
    }

    /// The validating factory: accepts the buffer exactly when its length
    /// agrees with the dimensions.
    pub fn new(size: ImageSize, data: Vec<u8>) -> (r: Result<Image, ImageError>)
        ensures
            r is Ok <==> data@.len() == size.width * size.height * CHANNELS,
            r matches Ok(img) ==> img.wf() && img.spec_size() == size && img.spec_data() == data@,
            r is Err ==> r == Err::<Image, ImageError>(
                ImageError::InvalidLength(data@.len() as usize, size),
            ),
    {
        let expected = match size.width.checked_mul(size.height) {
            Some(wh) => wh.checked_mul(CHANNELS),
            None => None,
        };
        proof {
            let w = size.width as int;
            let h = size.height as int;
            if w * h > usize::MAX {
                assert(w * h * CHANNELS >= w * h) by (nonlinear_arith)
                    requires
                        w >= 0 && h >= 0,
                ;
            }
        }
        match expected {
            Some(n) => {
                if data.len() == n {
                    Ok(Image { size, data })
                } else {
                    Err(ImageError::InvalidLength(data.len(), size))
                }
            },
            None => Err(ImageError::InvalidLength(data.len(), size)),
        }
    }

    /// Width in pixels.
    pub fn width(&self) -> (r: usize)
        ensures
            r == self.spec_width(),
    {
        self.size.width
    }

    /// Height in pixels.
    pub fn height(&self) -> (r: usize)
        ensures
            r == self.spec_height(),
    {
        self.size.height
    }

    /// The dimensions of the image.
    pub fn size(&self) -> (r: ImageSize)
        ensures
            r == self.spec_size(),
    {
        self.size
    }

    /// The channel count, fixed at 3 for every image of this crate.
    pub fn num_channels(&self) -> (r: usize)
        ensures
            r == CHANNELS,
    {
        CHANNELS
    }

    /// A view of the pixel bytes.
    pub fn as_slice(&self) -> (r: &[u8])
        ensures
            r@ == self.spec_data(),
    {
        self.data.as_slice()
    }
}

} // verus!
