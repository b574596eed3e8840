//! A whole WAVE file: the header followed by the sample stream it describes.

use crate::format::AudioFormatSpec;
use crate::header::{generate_header, header_bytes, read_header, HEADER_LEN, MAX_DATA_LEN};
use crate::samples::{
    channel_levels, generate_samples, pcm_stream, synthesis_error, SynthesisError,
};
use vstd::prelude::*;

verus! {

/// Why no file was produced.
#[derive(Clone, Copy, Debug, PartialEq, Eq, Structural)]
pub enum WavError {
    /// The sample stream could not be built.
    Synthesis(SynthesisError),
    /// The sample stream would be longer than the header's 32-bit size fields can say.
    DataTooLong,
}

impl WavError {
    /// The text shown to a user for this error.
    pub open spec fn spec_message(&self) -> Seq<char> {
        match self {
            WavError::Synthesis(e) => e.spec_message(),
            WavError::DataTooLong => "Duration too long for a WAVE file"@,
        }
    }

    /// The text shown to a user for this error.
    pub fn message(&self) -> (text: String)
        ensures
            text@ == self.spec_message(),
    {
        match self {
            WavError::Synthesis(e) => e.message(),
            WavError::DataTooLong => String::from_str("Duration too long for a WAVE file"),
        }
    }
}

/// The two parts of a file, in the order in which they are written.
#[derive(Debug, PartialEq, Eq)]
pub struct WavFile {
    pub header: Vec<u8>,
    pub samples: Vec<u8>,
}

impl WavFile {
    /// The bytes of the file.
    pub open spec fn spec_bytes(&self) -> Seq<u8> {
        self.header@ + self.samples@
    }

    /// The bytes of the file: the header, then the samples.
    pub fn into_bytes(self) -> (bytes: Vec<u8>)
        ensures
            bytes@ == self.spec_bytes(),
    {
        let mut bytes = self.header;
        let mut samples = self.samples;
        bytes.append(&mut samples);
        bytes
    }
}

/// Why a file of `secs` seconds in the format `spec` can have no header, if it cannot: the
/// format is invalid, or else the samples would be too long.
pub open spec fn duration_error(secs: u32, spec: AudioFormatSpec) -> Option<WavError> {
    if spec.configuration_error() is Some {
        Some(
            WavError::Synthesis(
                SynthesisError::Configuration(spec.configuration_error().unwrap()),
            ),
        )
    } else if spec.spec_data_len(secs) > MAX_DATA_LEN {
        Some(WavError::DataTooLong)
    } else {
        None
    }
}

/// The first reason for which no file of `secs` seconds in the format `spec` can be built
/// from `levels`, if there is one: an invalid format, then a duration too long for the
/// header, then levels that do not have the format's shape.
pub open spec fn wav_error(secs: u32, spec: AudioFormatSpec, levels: Seq<Seq<i16>>) -> Option<
    WavError,
> {
    if duration_error(secs, spec) is Some {
        duration_error(secs, spec)
    } else if synthesis_error(secs, spec, levels) is Some {
        Some(WavError::Synthesis(synthesis_error(secs, spec, levels).unwrap()))
    } else {
        None
    }
}

/// The length in bytes of the samples of `secs` seconds in the format `spec`, where the
/// format is valid and a header can describe that many bytes. Nothing is allocated, so a
/// caller can ask before it computes any level.
pub fn checked_data_len(secs: u32, spec: &AudioFormatSpec) -> (result: Result<u32, WavError>)
    ensures
        match duration_error(secs, *spec) {
            Some(e) => result == Err::<u32, WavError>(e),
            None => result matches Ok(len) && len == spec.spec_data_len(secs) && len
                <= MAX_DATA_LEN,
        },
{
    if let Err(e) = spec.validate() {
        return Err(WavError::Synthesis(SynthesisError::Configuration(e)));
    }
    let data_len: u64 = spec.data_len(secs);
    if data_len > MAX_DATA_LEN as u64 {
        return Err(WavError::DataTooLong);
    }
    Ok(data_len as u32)
}

/// Builds the file for `secs` seconds in the format `spec` from the quantized `levels` of
/// each channel: the sample stream, and the header sized against it. Either both parts are
/// returned, or an error and nothing else.
pub fn generate_wav(secs: u32, spec: &AudioFormatSpec, levels: &Vec<Vec<i16>>) -> (result: Result<
    WavFile,
    WavError,
>)
    ensures
        match wav_error(secs, *spec, channel_levels(levels)) {
            Some(e) => result == Err::<WavFile, WavError>(e),
            None => {
                &&& result matches Ok(file)
                &&& file.samples@ == pcm_stream(
                    channel_levels(levels),
                    spec.bits_per_sample,
                    spec.spec_frame_count(secs) * spec.channel_count,
                )
                &&& file.samples@.len() == spec.spec_data_len(secs)
                &&& file.header@ == header_bytes(*spec, file.samples@.len() as u32)
                &&& file.header@.len() == HEADER_LEN
                &&& read_header(file.header@).data_byte_length == file.samples@.len()
                &&& read_header(file.header@).chunk_size == 36 + file.samples@.len()
                &&& file.spec_bytes().len() == 8 + read_header(file.header@).chunk_size
            },
        },
{
    let data_len: u32 = match checked_data_len(secs, spec) {
        Ok(len) => len,
        Err(e) => {
            return Err(e);
        },
    };
    match generate_samples(secs, spec, levels) {
        Ok(samples) => {
            let header = generate_header(spec, data_len);
            Ok(WavFile { header, samples })
        },
        Err(e) => Err(WavError::Synthesis(e)),
    }
}

} // verus!
