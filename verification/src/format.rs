//! The audio format description shared by the synthesizer and the container encoder.

use vstd::prelude::*;

verus! {

/// The only sample rate the generator produces, in hertz.
pub const SAMPLE_RATE: u32 = 44100;

/// Why a format description cannot be used.
#[derive(Clone, Copy, Debug, PartialEq, Eq, Structural)]
pub enum ConfigurationError {
    /// The sample width is neither 8 nor 16 bits.
    UnsupportedBitsPerSample,
    /// The channel count is neither 1 nor 2.
    UnsupportedChannelCount,
    /// The sample rate is not `SAMPLE_RATE`.
    UnsupportedSampleRate,
}

/// The shape of a PCM stream: how many frames per second, how many samples per frame and
/// how many bits per sample.
#[derive(Clone, Copy, Debug, PartialEq, Eq, Structural)]
pub struct AudioFormatSpec {
    pub sample_rate: u32,
    pub channel_count: u16,
    pub bits_per_sample: u16,
}

/// Whether `bits` is a sample width the generator can produce.
pub open spec fn is_supported_bitrate(bits: u16) -> bool {
    bits == 8 || bits == 16
}

impl ConfigurationError {
    /// The text shown to a user for this error.
    pub open spec fn spec_message(&self) -> Seq<char> {
        match self {
            ConfigurationError::UnsupportedBitsPerSample => "Unsupported bits per sample"@,
            ConfigurationError::UnsupportedChannelCount => "Unsupported channel count"@,
            ConfigurationError::UnsupportedSampleRate => "Unsupported sample rate"@,
        }
    }

    /// The text shown to a user for this error.
    pub fn message(&self) -> (text: String)
        ensures
            text@ == self.spec_message(),
    {
        match self {
            ConfigurationError::UnsupportedBitsPerSample => String::from_str(
                "Unsupported bits per sample",
            ),
            ConfigurationError::UnsupportedChannelCount => String::from_str(
                "Unsupported channel count",
            ),
            ConfigurationError::UnsupportedSampleRate => String::from_str(
                "Unsupported sample rate",
            ),
        }
    }
}

impl AudioFormatSpec {
    /// The first rule that this description breaks, if it breaks any. The sample width is
    /// looked at first, then the channel count, then the sample rate.
    pub open spec fn configuration_error(&self) -> Option<ConfigurationError> {
        if !is_supported_bitrate(self.bits_per_sample) {
            Some(ConfigurationError::UnsupportedBitsPerSample)
        } else if self.channel_count != 1 && self.channel_count != 2 {
            Some(ConfigurationError::UnsupportedChannelCount)
        } else if self.sample_rate != SAMPLE_RATE {
            Some(ConfigurationError::UnsupportedSampleRate)
        } else {
            None
        }
    }

    /// A description is well formed when it is 8 or 16 bits wide, mono or stereo, at
    /// `SAMPLE_RATE`: when it breaks no rule.
    pub open spec fn wf(&self) -> bool {
        &&& is_supported_bitrate(self.bits_per_sample)
        &&& (self.channel_count == 1 || self.channel_count == 2)
        &&& self.sample_rate == SAMPLE_RATE
    }

    /// Bytes that one sample of one channel takes.
    pub open spec fn spec_bytes_per_sample(&self) -> int {
        self.bits_per_sample as int / 8
    }

    /// Bytes that one frame takes: one sample for each channel.
    pub open spec fn spec_block_align(&self) -> int {
        self.channel_count * self.bits_per_sample / 8
    }

    /// Bytes that one second of audio takes.
    pub open spec fn spec_byte_rate(&self) -> int {
        self.sample_rate * self.spec_block_align()
    }

    /// Frames in `secs` seconds of audio.
    pub open spec fn spec_frame_count(&self, secs: u32) -> int {
        secs * self.sample_rate
    }

    /// Bytes that `secs` seconds of audio take.
    pub open spec fn spec_data_len(&self, secs: u32) -> int {
        secs * self.sample_rate * self.channel_count * (self.bits_per_sample / 8)
    }

    /// In a well-formed description a frame takes one to four bytes, a whole number of
    /// samples, and the sizes multiply out without rounding.
    pub proof fn lemma_sizes(&self, secs: u32)
        requires
            self.wf(),
        ensures
            self.configuration_error() is None,
            1 <= self.spec_bytes_per_sample() <= 2,
            1 <= self.spec_block_align() <= 4,
            self.spec_block_align() == self.channel_count * self.spec_bytes_per_sample(),
            self.spec_byte_rate() == self.sample_rate * self.channel_count * (self.bits_per_sample
                / 8),
            self.spec_byte_rate() <= 176400,
            self.spec_data_len(secs) == self.spec_frame_count(secs) * self.spec_block_align(),
            self.spec_data_len(secs) == secs * self.spec_byte_rate(),
            0 <= self.spec_data_len(secs) <= 0xffff_ffff * 176400,
    {
        let width = self.bits_per_sample as int / 8;
        let channels = self.channel_count as int;
        assert(secs * 44100 * channels * width == (secs * 44100) * (channels * width) && secs
            * 44100 * channels * width == secs * (44100 * (channels * width)) && 44100 * channels
            * width == 44100 * (channels * width) && 0 <= secs * (44100 * (channels * width))
            <= 0xffff_ffff * 176400) by (nonlinear_arith)
            requires
                1 <= channels * width <= 4,
                0 <= secs <= 0xffff_ffff,
        ;
    }

    /// A description with the given channel count and sample width at `SAMPLE_RATE`, or the
    /// first rule that these two break.
    pub fn new(channel_count: u16, bits_per_sample: u16) -> (result: Result<
        AudioFormatSpec,
        ConfigurationError,
    >)
        ensures
            ({
                let spec = AudioFormatSpec {
                    sample_rate: SAMPLE_RATE,
                    channel_count,
                    bits_per_sample,
                };
                match spec.configuration_error() {
                    Some(e) => result == Err::<AudioFormatSpec, ConfigurationError>(e),
                    None => result == Ok::<AudioFormatSpec, ConfigurationError>(spec),
                }
            }),
            result matches Ok(spec) ==> spec.wf(),
    {
        let spec = AudioFormatSpec { sample_rate: SAMPLE_RATE, channel_count, bits_per_sample };
        match spec.validate() {
            Ok(()) => Ok(spec),
            Err(e) => Err(e),
        }
    }

    /// Checks this description against the rules, and names the first one it breaks.
    pub fn validate(&self) -> (result: Result<(), ConfigurationError>)
        ensures
            result is Ok <==> self.wf(),
            match self.configuration_error() {
                Some(e) => result == Err::<(), ConfigurationError>(e),
                None => result == Ok::<(), ConfigurationError>(()),
            },
    {
        if self.bits_per_sample != 8 && self.bits_per_sample != 16 {
            Err(ConfigurationError::UnsupportedBitsPerSample)
        } else if self.channel_count != 1 && self.channel_count != 2 {
            Err(ConfigurationError::UnsupportedChannelCount)
        } else if self.sample_rate != SAMPLE_RATE {
            Err(ConfigurationError::UnsupportedSampleRate)
        } else {
            Ok(())
        }
    }

    /// Bytes that one sample of one channel takes.
    pub fn bytes_per_sample(&self) -> (width: u16)
        ensures
            width == self.spec_bytes_per_sample(),
    {
        self.bits_per_sample / 8
    }

    /// Bytes that one frame takes.
    pub fn block_align(&self) -> (align: u16)
        requires
            self.wf(),
        ensures
            align == self.spec_block_align(),
            align == self.channel_count * (self.bits_per_sample / 8),
    {
        proof {
            self.lemma_sizes(0);
        }
        self.channel_count * self.bits_per_sample / 8
    }

    /// Bytes that one second of audio takes.
    pub fn byte_rate(&self) -> (rate: u32)
        requires
            self.wf(),
        ensures
            rate == self.spec_byte_rate(),
            rate == self.sample_rate * self.channel_count * (self.bits_per_sample / 8),
    {
        proof {
            self.lemma_sizes(0);
        }
        self.sample_rate * (self.block_align() as u32)
    }

    /// Frames in `secs` seconds of audio.
    pub fn frame_count(&self, secs: u32) -> (frames: u64)
        ensures
            frames == self.spec_frame_count(secs),
    {
        assert(secs * self.sample_rate <= 0xffff_ffff * 0xffff_ffff) by (nonlinear_arith)
            requires
                secs <= 0xffff_ffff,
                self.sample_rate <= 0xffff_ffff,
        ;
        (secs as u64) * (self.sample_rate as u64)
    }

    /// Bytes that `secs` seconds of audio take.
    pub fn data_len(&self, secs: u32) -> (len: u64)
        requires
            self.wf(),
        ensures
            len == self.spec_data_len(secs),
    {
        proof {
            self.lemma_sizes(secs);
        }
        self.frame_count(secs) * (self.block_align() as u64)
    }
}

} // verus!
