use kornia_jpeg::image::{Image, ImageError, ImageSize, CHANNELS};
use kornia_jpeg::jpeg::{encode_job, finish_decode, prepare_decode, EncodeJob, JpegError};

fn fixture_size() -> ImageSize {
    ImageSize {
        width: 258,
        height: 195,
    }
}

fn fixture_len() -> usize {
    258 * 195 * 3
}

fn gradient_buffer(len: usize) -> Vec<u8> {
    let mut data = Vec::with_capacity(len);
    for i in 0..len {
        data.push((i % 251) as u8);
    }
    data
}

#[test]
fn image_new_accepts_matching_buffer() {
    let size = fixture_size();
    let data = gradient_buffer(fixture_len());
    let image = Image::new(size, data).unwrap();
    assert_eq!(image.width(), 258);
    assert_eq!(image.height(), 195);
    assert_eq!(image.size(), size);
    assert_eq!(image.num_channels(), 3);
    assert_eq!(CHANNELS, 3);
    assert_eq!(image.as_slice().len(), fixture_len());
    assert_eq!(image.as_slice()[0], 0);
    assert_eq!(image.as_slice()[1], 1);
}

#[test]
fn image_new_rejects_mismatched_buffer() {
    let size = fixture_size();
    let data = gradient_buffer(10);
    let r = Image::new(size, data);
    assert_eq!(r.unwrap_err(), ImageError::InvalidLength(10, size));
}

#[test]
fn image_new_empty() {
    let size = ImageSize {
        width: 0,
        height: 0,
    };
    let image = Image::new(size, Vec::new()).unwrap();
    assert_eq!(image.as_slice().len(), 0);
    assert_eq!(image.num_channels(), 3);
}

#[test]
fn prepare_decode_exact_zeroed_buffer() {
    let buf = prepare_decode(fixture_size()).unwrap();
    assert_eq!(buf.pixels.len(), fixture_len());
    assert!(buf.pixels.iter().all(|&b| b == 0));
    assert_eq!(buf.width, 258);
    assert_eq!(buf.height, 195);
    assert_eq!(buf.pitch, 774);
}

#[test]
fn prepare_decode_zero_area() {
    let buf = prepare_decode(ImageSize {
        width: 0,
        height: 5,
    })
    .unwrap();
    assert_eq!(buf.pixels.len(), 0);
    assert_eq!(buf.pitch, 0);
}

#[test]
fn prepare_decode_rejects_overflow_dims() {
    let r = prepare_decode(ImageSize {
        width: usize::MAX,
        height: 2,
    });
    assert_eq!(r.unwrap_err(), JpegError::DecodeError);
}

#[test]
fn finish_decode_reports_header_size() {
    let size = fixture_size();
    let buf = prepare_decode(size).unwrap();
    let image = finish_decode(size, buf.pixels).unwrap();
    assert_eq!(image.size().width, 258);
    assert_eq!(image.size().height, 195);
    assert_eq!(image.num_channels(), 3);
}

#[test]
fn finish_decode_rejects_truncated_buffer() {
    let size = fixture_size();
    let buf = gradient_buffer(fixture_len() - 1);
    let r = finish_decode(size, buf);
    assert_eq!(
        r.unwrap_err(),
        JpegError::ImageCreationError(ImageError::InvalidLength(fixture_len() - 1, size))
    );
}

#[test]
fn finish_decode_rejects_empty_buffer() {
    let size = fixture_size();
    let r = finish_decode(size, Vec::new());
    assert_eq!(
        r.unwrap_err(),
        JpegError::ImageCreationError(ImageError::InvalidLength(0, size))
    );
}

#[test]
fn encode_job_accepts_contiguous_buffer() {
    let job = encode_job(fixture_len(), fixture_size()).unwrap();
    assert_eq!(
        job,
        EncodeJob {
            width: 258,
            height: 195,
            pitch: 774,
        }
    );
}

#[test]
fn encode_job_rejects_non_contiguous_buffer() {
    let size = fixture_size();
    assert_eq!(
        encode_job(10, size).unwrap_err(),
        JpegError::NonContiguousImageError
    );
    assert_eq!(
        encode_job(fixture_len() - 1, size).unwrap_err(),
        JpegError::NonContiguousImageError
    );
    assert_eq!(
        encode_job(fixture_len() + 1, size).unwrap_err(),
        JpegError::NonContiguousImageError
    );
}

#[test]
fn encode_job_rejects_oversized_dims() {
    let size = ImageSize {
        width: 0x4000_0000,
        height: 1,
    };
    let r = encode_job(0x4000_0000usize * 3, size);
    assert_eq!(r.unwrap_err(), JpegError::EncodeError);
}

#[test]
fn encode_job_zero_size() {
    let size = ImageSize {
        width: 0,
        height: 0,
    };
    assert_eq!(
        encode_job(0, size).unwrap(),
        EncodeJob {
            width: 0,
            height: 0,
            pitch: 0,
        }
    );
}

#[test]
fn round_trip_dims_on_model() {
    // The verified half of the dimension round trip: the descriptor handed to
    // the native encoder carries the image's own dimensions, and an image
    // rebuilt from a header of those dimensions reports them unchanged.
    let size = fixture_size();
    let original = Image::new(size, gradient_buffer(fixture_len())).unwrap();
    let job = encode_job(original.as_slice().len(), original.size()).unwrap();
    assert_eq!(job.width, original.width());
    assert_eq!(job.height, original.height());
    let header = ImageSize {
        width: job.width,
        height: job.height,
    };
    let buf = prepare_decode(header).unwrap();
    let decoded = finish_decode(header, buf.pixels).unwrap();
    assert_eq!(decoded.width(), original.width());
    assert_eq!(decoded.height(), original.height());
    assert_eq!(decoded.num_channels(), original.num_channels());
}
