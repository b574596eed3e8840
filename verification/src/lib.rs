//! Sine test-tone files: interleaved PCM sample streams and the WAVE header that describes
//! them.
//!
//! The library works on quantized levels, the integers that samples are stored as. Turning a
//! sine wave into levels takes floating point and is left to the caller.

pub mod bitrate;
pub mod format;
pub mod header;
pub mod little_endian;
pub mod samples;
pub mod wav;

pub use bitrate::{check_bitrate, parse_decimal_u16};
pub use format::{AudioFormatSpec, ConfigurationError, SAMPLE_RATE};
pub use header::{generate_header, HEADER_LEN, MAX_DATA_LEN};
pub use samples::{encode_sample, generate_samples, SynthesisError};
pub use wav::{checked_data_len, generate_wav, WavError, WavFile};
