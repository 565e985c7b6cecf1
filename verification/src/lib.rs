//! A thread-safe JPEG codec: decodes compressed JPEG byte streams into raw
//! interleaved-RGB pixel buffers and encodes such buffers back into JPEG
//! bytes. The actual compression work is delegated to the turbojpeg library;
//! this crate owns the image model, the error taxonomy and the orchestration
//! around the native calls, all of which are verified.

pub mod image;
pub mod jpeg;
