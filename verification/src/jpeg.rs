//! The codec core: the decisions and computations around the native JPEG
//! calls, following a probe-then-allocate strategy.
//!
//! Decoding runs in three steps: the native header read yields an
//! [`ImageSize`]; [`prepare_decode`] turns it into the exact zero-initialized
//! pixel buffer the native decompression fills; [`finish_decode`] wraps the
//! filled buffer into a validated [`Image`]. Encoding is guarded by
//! [`encode_job`], which admits a buffer to the native encoder only when it
//! is contiguous and its dimensions are within the native limits. The native
//! calls themselves (header read, decompress, compress, quality setting) are
//! outside work that the caller performs between these steps.

use vstd::prelude::*;

use crate::image::{CHANNELS, Image, ImageError, ImageSize};

verus! {

/// The errors of the codec, one kind per failure condition, so that a caller
/// can tell bad input data (header, payload, layout) from an unavailable
/// resource (codec initialization) and from an invalid configuration
/// (quality).
#[derive(Clone, Copy, Debug, PartialEq, Eq, Structural)]
pub enum JpegError {
    /// The native codec could not allocate or initialize a handle.
    CodecInitError,
    /// The bytes are not a structurally valid JPEG stream (truncated, wrong
    /// markers, unsupported format), or their dimensions cannot be decoded
    /// on this machine.
    HeaderParseError,
    /// The compressed payload is corrupt or unsupported.
    DecodeError,
    /// The native compression failed (for example on a dimension overflow).
    EncodeError,
    /// The native encoder rejected the requested quality value.
    InvalidQualityError,
    /// The pixel buffer is not laid out as one unbroken region of exactly
    /// `height * pitch` bytes.
    NonContiguousImageError,
    /// The decoded buffer disagreed with the declared dimensions.
    ImageCreationError(ImageError),
}

/// Dimensions the native codec can be handed on this machine: each row of
/// `width * 3` bytes and the row count must fit the native C int arguments,
/// and the whole buffer must be addressable.
pub open spec fn dims_fit(width: usize, height: usize) -> bool {
    &&& width * 3 <= 0x7fff_ffff
    &&& height <= 0x7fff_ffff
    &&& width * height * 3 <= usize::MAX
}

/// The arguments of one native compression call: the image descriptor the
/// encoder reads pixels through, with the pitch fixed at `3 * width`
/// (interleaved RGB, no row padding).
#[derive(Clone, Copy, Debug, PartialEq, Eq, Structural)]
pub struct EncodeJob {
    /// Width in pixels.
    pub width: usize,
    /// Height in pixels (number of rows).
    pub height: usize,
    /// Bytes per row: exactly `3 * width`.
    pub pitch: usize,
}

/// The arguments of one native decompression call: the zero-initialized
/// buffer the decoder fills in place, and the descriptor it fills it
/// through, with the pitch fixed at `3 * width` (interleaved RGB, no row
/// padding).
#[derive(Debug)]
pub struct DecodeBuffer {
    /// The pixel buffer: exactly `width * height * 3` zero bytes.
    pub pixels: Vec<u8>,
    /// Width in pixels.
    pub width: usize,
    /// Height in pixels (number of rows).
    pub height: usize,
    /// Bytes per row: exactly `3 * width`.
    pub pitch: usize,
}

/// Allocate the pixel buffer for a decode, from the dimensions the header
/// probe returned: exactly `width * height * 3` zero bytes, so the native
/// decompression can fill it in place with no second pass over the input.
/// Dimensions whose buffer the native decoder could not fill on this machine
/// are rejected as undecodable.
pub fn prepare_decode(size: ImageSize) -> (r: Result<DecodeBuffer, JpegError>)
    ensures
        r is Ok <==> dims_fit(size.width, size.height),
        r matches Ok(b) ==> ({
            &&& b.pixels@.len() == size.width * size.height * CHANNELS
            &&& (forall|i: int| 0 <= i < b.pixels@.len() ==> b.pixels@[i] == 0)
            &&& b.width == size.width
            &&& b.height == size.height
            &&& b.pitch == size.width * 3
        }),
        r is Err ==> r == Err::<DecodeBuffer, JpegError>(JpegError::DecodeError),
{
    let pitch = match size.width.checked_mul(3) {
        Some(p) => p,
        None => {
            return Err(JpegError::DecodeError);
        },
    };
    if pitch > 0x7fff_ffff || size.height > 0x7fff_ffff {
        return Err(JpegError::DecodeError);
    }
    let len = match size.width.checked_mul(size.height) {
        Some(wh) => match wh.checked_mul(CHANNELS) {
            Some(n) => n,
            None => {
                return Err(JpegError::DecodeError);
            },
        },
        None => {
            proof {
                lemma_area_overflow(size.width as int, size.height as int);
            }
            return Err(JpegError::DecodeError);
        },
    };
    let mut pixels: Vec<u8> = Vec::new();
    while pixels.len() < len
        invariant
            pixels@.len() <= len,
            forall|i: int| 0 <= i < pixels@.len() ==> pixels@[i] == 0,
        decreases len - pixels@.len(),
    {
        pixels.push(0u8);
    }
    Ok(DecodeBuffer { pixels, width: size.width, height: size.height, pitch })
}

/// Wrap the buffer a decompression filled, together with the header's
/// dimensions, into a validated [`Image`]: the defensive invariant check of
/// the decode path. The image it returns reports exactly the dimensions the
/// header probe reported, and it fails precisely when the buffer length
/// disagrees with them.
pub fn finish_decode(size: ImageSize, pixels: Vec<u8>) -> (r: Result<Image, JpegError>)
    ensures
        r is Ok <==> pixels@.len() == size.width * size.height * CHANNELS,
        r matches Ok(img) ==> img.wf() && img.spec_size() == size && img.spec_data() == pixels@,
        r is Err ==> r == Err::<Image, JpegError>(
            JpegError::ImageCreationError(ImageError::InvalidLength(pixels@.len() as usize, size)),
        ),
{
    match Image::new(size, pixels) {
        Ok(img) => Ok(img),
        Err(e) => Err(JpegError::ImageCreationError(e)),
    }
}

/// Decide whether a pixel buffer may be handed to the native encoder, and
/// with which descriptor. The buffer must be contiguous: one unbroken region
/// of exactly `height * pitch` bytes, pitch fixed at `3 * width`; otherwise
/// the encode fails here, before any native call. Contiguous buffers whose
/// dimensions exceed the native limits fail as an encode failure, as the
/// native routine would report a dimension overflow.
pub fn encode_job(buffer_len: usize, size: ImageSize) -> (r: Result<EncodeJob, JpegError>)
    ensures
        r is Ok <==> buffer_len == size.width * size.height * CHANNELS && dims_fit(
            size.width,
            size.height,
        ),
        r matches Ok(job) ==> job.width == size.width && job.height == size.height && job.pitch
            == size.width * 3,
        buffer_len != size.width * size.height * CHANNELS ==> r == Err::<EncodeJob, JpegError>(
            JpegError::NonContiguousImageError,
        ),
        buffer_len == size.width * size.height * CHANNELS && !dims_fit(size.width, size.height)
            ==> r == Err::<EncodeJob, JpegError>(JpegError::EncodeError),
{
    let w = size.width;
    let h = size.height;
    let pitch_opt = w.checked_mul(3);
    proof {
        lemma_area_assoc(w as int, h as int);
    }
    let contiguous: bool = match pitch_opt {
        Some(p) => match h.checked_mul(p) {
            Some(total) => buffer_len == total,
            None => {
                proof {
                    lemma_rows_overflow(w as int, h as int);
                }
                false
            },
        },
        None => {
            proof {
                lemma_pitch_overflow(w as int, h as int);
            }
            h == 0 && buffer_len == 0
        },
    };
    if !contiguous {
        return Err(JpegError::NonContiguousImageError);
    }
    let pitch = match pitch_opt {
        Some(p) => p,
        None => {
            return Err(JpegError::EncodeError);
        },
    };
    if pitch > 0x7fff_ffff || h > 0x7fff_ffff {
        return Err(JpegError::EncodeError);
    }
    Ok(EncodeJob { width: w, height: h, pitch })
}

/// If the width-height product overflows, so does the byte count.
proof fn lemma_area_overflow(w: int, h: int)
    requires
        w >= 0,
        h >= 0,
        w * h > usize::MAX,
    ensures
        w * h * 3 > usize::MAX,
{
    assert(w * h * 3 >= w * h) by (nonlinear_arith)
        requires
            w >= 0 && h >= 0,
    ;
}

/// The byte count grouped by rows equals the byte count grouped by pixels.
proof fn lemma_area_assoc(w: int, h: int)
    ensures
        h * (w * 3) == w * h * 3,
{
    assert(h * (w * 3) == w * h * 3) by (nonlinear_arith);
}

/// If summing the rows overflows, the total byte count overflows.
proof fn lemma_rows_overflow(w: int, h: int)
    requires
        w >= 0,
        h >= 0,
        w * 3 <= usize::MAX,
        h * (w * 3) > usize::MAX,
    ensures
        w * h * 3 > usize::MAX,
{
    lemma_area_assoc(w, h);
}

/// If one row's byte count already overflows, a nonempty image's total byte
/// count overflows as well.
proof fn lemma_pitch_overflow(w: int, h: int)
    requires
        w >= 0,
        h >= 0,
        w * 3 > usize::MAX,
    ensures
        h >= 1 ==> w * h * 3 > usize::MAX,
        h == 0 ==> w * h * 3 == 0,
{
    if h >= 1 {
        assert(w * h * 3 >= w * 3) by (nonlinear_arith)
            requires
                w >= 0 && h >= 1,
        ;
    } else {
        assert(w * 0 * 3 == 0) by (nonlinear_arith);
    }
}

/// A validated image is contiguous: its buffer is one unbroken region of
/// exactly `height * pitch` bytes with the pitch at `3 * width`. So the
/// encode path never rejects an image of the validating factory as
/// non-contiguous; by the contract of [`encode_job`] it can only fail on the
/// native dimension limits.
pub proof fn lemma_wf_image_is_contiguous(img: Image)
    requires
        img.wf(),
    ensures
        img.spec_data().len() == img.spec_height() * (img.spec_width() * 3),
{
    lemma_area_assoc(img.spec_width() as int, img.spec_height() as int);
}

/// Dimension round trip: the native encoder records its input dimensions in
/// the JPEG stream it produces, and a decode reports exactly the dimensions
/// of the stream's header; so an image decoded from an encode of an original
/// image has the original's width and height, whatever the (lossy) pixel
/// content. The first step is the native codec's documented behaviour and
/// stands here as the premise relating the two headers; the second is the
/// contract of [`finish_decode`].
pub proof fn lemma_round_trip_dims(original: Image, header: ImageSize, decoded: Image)
    requires
        header.width == original.spec_width() && header.height == original.spec_height(),
        decoded.spec_size() == header,
    ensures
        decoded.spec_width() == original.spec_width(),
        decoded.spec_height() == original.spec_height(),
{
}

/// Header agreement: a decode built from a header probe reports exactly the
/// probed dimensions, so `read_header` and `decode` on the same bytes agree.
/// The probe's result is the one size that both [`prepare_decode`] and
/// [`finish_decode`] carry through, by their contracts.
pub proof fn lemma_header_decode_agree(header: ImageSize, decoded: Image)
    requires
        decoded.spec_size() == header,
    ensures
        decoded.spec_width() == header.width,
        decoded.spec_height() == header.height,
{
}

} // verus!
