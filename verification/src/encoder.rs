//! The frame encoder's bookkeeping: which blocks of samples may go to the
//! codec and which of its results are frames.
//!
//! The codec itself is stateful and lives with the caller. It is handed the
//! samples that `OpusEncoder::samples` returns, one block after the other,
//! and its output goes through `OpusEncoder::frame`.

use vstd::prelude::*;
use crate::constants::FRAME_DURATION_MS;

verus! {

/// Largest frame that the codec may produce, in bytes.
pub const MAX_FRAME_BYTES: usize = 4000;

/// Why a block could not be encoded.
#[derive(Clone, Copy, Debug, PartialEq, Eq, Structural)]
pub enum EncoderError {
    /// Neither one channel nor two.
    InvalidChannels(u16),
    /// The block holds fewer samples than one frame takes.
    InsufficientSamples { got: usize, expected: usize },
    /// The codec reported more bytes than a frame may have.
    FrameTooLarge(usize),
}

/// The 16-bit sample that two bytes stand for, low byte first.
pub open spec fn sample_of(low: u8, high: u8) -> int {
    if low + 256 * high < 32768 {
        low + 256 * high
    } else {
        low + 256 * high - 65536
    }
}

/// The sample with the given index in a block of bytes.
pub open spec fn sample_at(pcm: Seq<u8>, index: int) -> int {
    sample_of(pcm[2 * index], pcm[2 * index + 1])
}

/// Number of samples of each channel in one frame.
pub open spec fn frame_samples(sample_rate: u32) -> nat {
    (sample_rate as nat * FRAME_DURATION_MS as nat / 1000) as nat
}

/// Format of the audio that an encoder takes.
#[derive(Clone, Copy, Debug, PartialEq, Eq, Structural)]
pub struct OpusEncoder {
    sample_rate: u32,
    channels: u16,
    frame_size: usize,
}

impl OpusEncoder {
    /// The format is sound: one or two channels, and a frame of 20 ms.
    pub closed spec fn wf(&self) -> bool {
        &&& (self.channels == 1 || self.channels == 2)
        &&& self.frame_size == frame_samples(self.sample_rate)
    }

    /// Samples per second.
    pub closed spec fn spec_sample_rate(&self) -> u32 {
        self.sample_rate
    }

    /// Number of channels.
    pub closed spec fn spec_channels(&self) -> u16 {
        self.channels
    }

    /// Number of samples that one frame takes, all channels together.
    pub open spec fn block_samples(&self) -> nat {
        frame_samples(self.spec_sample_rate()) * self.spec_channels() as nat
    }

    /// The format for `channels` channels at `sample_rate` samples per
    /// second. Only one or two channels are accepted.
    pub fn new(sample_rate: u32, channels: u16) -> (r: Result<OpusEncoder, EncoderError>)
        ensures
            match r {
                Ok(encoder) => (channels == 1 || channels == 2) && encoder.wf()
                    && encoder.spec_sample_rate() == sample_rate && encoder.spec_channels()
                    == channels,
                Err(e) => channels != 1 && channels != 2 && e == EncoderError::InvalidChannels(
                    channels,
                ),
            },
    {
        if channels != 1 && channels != 2 {
            return Err(EncoderError::InvalidChannels(channels));
        }
        let frame_ms = FRAME_DURATION_MS as u64;
        assert(sample_rate as u64 * frame_ms <= 85899345900) by (nonlinear_arith)
            requires
                sample_rate <= u32::MAX,
                frame_ms == 20,
        ;
        let frame_size = (sample_rate as u64 * frame_ms / 1000) as usize;
        Ok(OpusEncoder { sample_rate, channels, frame_size })
    }

    /// Number of samples of each channel in one frame.
    pub fn frame_size(&self) -> (n: usize)
        requires
            self.wf(),
        ensures
            n == frame_samples(self.spec_sample_rate()),
    {
        self.frame_size
    }

    /// Samples per second.
    pub fn sample_rate(&self) -> (rate: u32)
        ensures
            rate == self.spec_sample_rate(),
    {
        self.sample_rate
    }

    /// Number of channels.
    pub fn channels(&self) -> (n: u16)
        ensures
            n == self.spec_channels(),
    {
        self.channels
    }

    /// The samples of one frame, read from `pcm_data` as 16-bit numbers, low
    /// byte first. A block that holds fewer samples than one frame takes is
    /// refused and gives nothing; of a longer one the first frame is taken.
    pub fn samples(&self, pcm_data: &[u8]) -> (r: Result<Vec<i16>, EncoderError>)
        requires
            self.wf(),
        ensures
            match r {
                Ok(samples) => pcm_data@.len() / 2 >= self.block_samples() && samples@.len()
                    == self.block_samples() && forall|i: int|
                    0 <= i < samples@.len() ==> #[trigger] samples@[i] == sample_at(pcm_data@, i),
                Err(e) => pcm_data@.len() / 2 < self.block_samples() && e
                    == (EncoderError::InsufficientSamples {
                    got: (pcm_data@.len() / 2) as usize,
                    expected: self.block_samples() as usize,
                }),
            },
    {
        assert(self.frame_size <= 85899345);
        assert(self.frame_size * (self.channels as usize) <= 171798690) by (nonlinear_arith)
            requires
                self.frame_size <= 85899345,
                self.channels <= 2,
        ;
        let expected = self.frame_size * (self.channels as usize);
        let got = pcm_data.len() / 2;
        if got < expected {
            return Err(EncoderError::InsufficientSamples { got, expected });
        }
        let mut samples: Vec<i16> = Vec::new();
        let mut i: usize = 0;
        while i < expected
            invariant
                i <= expected,
                expected <= pcm_data@.len() / 2,
                pcm_data@.len() <= usize::MAX,
                samples@.len() == i,
                forall|j: int| 0 <= j < i ==> #[trigger] samples@[j] == sample_at(pcm_data@, j),
            decreases expected - i,
        {
            assert(2 * i + 1 < pcm_data@.len());
            let low = pcm_data[2 * i];
            let high = pcm_data[2 * i + 1];
            let wide: i32 = low as i32 + 256 * (high as i32);
            let sample: i16 = if wide < 32768 {
                wide as i16
            } else {
                (wide - 65536) as i16
            };
            samples.push(sample);
            i += 1;
        }
        Ok(samples)
    }

    /// An empty buffer of the largest size a frame may have, for the codec
    /// to write into.
    pub fn output_buffer() -> (buffer: Vec<u8>)
        ensures
            buffer@ == Seq::new(MAX_FRAME_BYTES as nat, |i: int| 0u8),
    {
        let mut buffer: Vec<u8> = Vec::new();
        let mut i: usize = 0;
        while i < MAX_FRAME_BYTES
            invariant
                i <= MAX_FRAME_BYTES,
                buffer@ == Seq::new(i as nat, |j: int| 0u8),
            decreases MAX_FRAME_BYTES - i,
        {
            buffer.push(0u8);
            i += 1;
            assert(buffer@ =~= Seq::new(i as nat, |j: int| 0u8));
        }
        buffer
    }

    /// The frame that the codec wrote: the first `encoded_len` bytes of
    /// `output`. A length beyond the buffer or beyond the largest frame is
    /// a fault of the codec.
    pub fn frame(output: Vec<u8>, encoded_len: usize) -> (r: Result<Vec<u8>, EncoderError>)
        ensures
            match r {
                Ok(frame) => encoded_len <= output@.len() && encoded_len <= MAX_FRAME_BYTES
                    && frame@ == output@.take(encoded_len as int),
                Err(e) => (encoded_len > output@.len() || encoded_len > MAX_FRAME_BYTES) && e
                    == EncoderError::FrameTooLarge(encoded_len),
            },
    {
        if encoded_len > output.len() || encoded_len > MAX_FRAME_BYTES {
            return Err(EncoderError::FrameTooLarge(encoded_len));
        }
        let mut frame = output;
        frame.truncate(encoded_len);
        assert(frame@ =~= output@.take(encoded_len as int));
        Ok(frame)
    }
}

} // verus!
