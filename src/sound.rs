//! Decoding of the fixed 100-byte sound-header (`sndH`) record.
//!
//! The record holds 25 unsigned 32-bit fields, always stored most significant
//! byte first, whatever the byte order of the file around it.

use vstd::prelude::*;
use crate::bytes::{u32_at, u32_from_be, Endianness};

verus! {

/// Length in bytes of a sound-header record.
pub const SOUND_HEADER_LEN: usize = 100;

/// Number of 32-bit fields in a sound-header record.
pub const SOUND_HEADER_FIELDS: usize = 25;

/// Layout of the PCM samples that a sound header describes.
#[derive(Clone, Copy, Debug, PartialEq, Eq, Structural)]
pub enum SampleFormat {
    UnsignedByte,
    SignedBigEndian16,
    SignedLittleEndian24,
    SignedLittleEndian32,
}

/// The audio parameters read from a sound header.
#[derive(Clone, Copy, Debug, PartialEq, Eq, Structural)]
pub struct AudioDescriptor {
    pub sample_format: SampleFormat,
    pub channel_count: u32,
    pub sample_rate: u32,
}

/// Why a body could not be decoded.
#[derive(Clone, Copy, Debug, PartialEq, Eq, Structural)]
pub enum Rejection {
    /// The body is not exactly 100 bytes long.
    WrongSize,
    /// The bit depth is none of 8, 16, 24 and 32.
    UnsupportedBitDepth { bit_depth: u32 },
}

/// A check on the record that failed without stopping the decoding.
#[derive(Clone, Copy, Debug, PartialEq, Eq, Structural)]
pub enum Warning {
    /// Fields 21 to 24 are none of the known identifiers.
    UnexpectedMagicNumbers,
    /// One of fields 0, 2 to 7 and 13 to 16 is not zero.
    UnexpectedNonZero,
    /// The two byte counts differ.
    ByteCountMismatch,
    /// The two frame counts differ.
    FrameCountMismatch,
    /// Bytes per second is not sample rate times bytes per frame.
    BytesPerSecondMismatch,
    /// The bit depth is not a whole number of bytes.
    BitDepthNotWholeBytes,
    /// Bytes per sample is less than the bit depth in whole bytes.
    BytesPerSampleTooSmall,
    /// Bytes per frame is not bytes per sample times the channel count.
    BytesPerFrameMismatch,
}

/// What decoding a body gives: the failed checks, in the order in which they
/// are made, and the descriptor or the reason for rejecting the body.
pub struct SoundHeaderDecode {
    pub warnings: Vec<Warning>,
    pub outcome: Result<AudioDescriptor, Rejection>,
}

impl SoundHeaderDecode {
    pub open spec fn view(&self) -> (Seq<Warning>, Result<AudioDescriptor, Rejection>) {
        (self.warnings@, self.outcome)
    }
}

/// Field `k` of the record `b`.
pub open spec fn field(b: Seq<u8>, k: int) -> u32 {
    u32_at(b, 4 * k, Endianness::Big)
}

/// The 25 fields of the record `b`.
pub open spec fn fields_of(b: Seq<u8>) -> Seq<u32> {
    Seq::new(25, |k: int| field(b, k))
}

/// Fields 21 to 24 hold one of the two known identifiers (of the second one,
/// only its first word is known).
pub open spec fn magic_known(f: Seq<u32>) -> bool {
    (f[21] == 0x6a528ef2u32 && f[22] == 0x081011d0u32 && f[23] == 0xb28a0005u32 && f[24]
        == 0x02e85810u32) || f[21] == 0x6a5293a2u32
}

/// Fields 0, 2 to 7 and 13 to 16 are zero.
pub open spec fn reserved_zero(f: Seq<u32>) -> bool {
    &&& f[0] == 0
    &&& f[2] == 0 && f[3] == 0 && f[4] == 0 && f[5] == 0 && f[6] == 0 && f[7] == 0
    &&& f[13] == 0 && f[14] == 0 && f[15] == 0 && f[16] == 0
}

/// `w` alone if `failed`, else nothing.
pub open spec fn flag(failed: bool, w: Warning) -> Seq<Warning> {
    if failed {
        seq![w]
    } else {
        Seq::empty()
    }
}

/// The warnings raised by the fields `f`, in the order in which they are checked.
pub open spec fn warnings_of(f: Seq<u32>) -> Seq<Warning> {
    flag(!magic_known(f), Warning::UnexpectedMagicNumbers)
        + flag(!reserved_zero(f), Warning::UnexpectedNonZero)
        + flag(f[1] != f[8], Warning::ByteCountMismatch)
        + flag(f[9] != f[10], Warning::FrameCountMismatch)
        + flag(f[12] != f[11] * f[20], Warning::BytesPerSecondMismatch)
        + flag(f[17] % 8 != 0, Warning::BitDepthNotWholeBytes)
        + flag(f[18] < f[17] / 8, Warning::BytesPerSampleTooSmall)
        + flag(f[20] != f[18] * f[19], Warning::BytesPerFrameMismatch)
}

/// The sample format that a bit depth stands for.
pub open spec fn format_of(bit_depth: u32) -> Option<SampleFormat> {
    if bit_depth == 8 {
        Some(SampleFormat::UnsignedByte)
    } else if bit_depth == 16 {
        Some(SampleFormat::SignedBigEndian16)
    } else if bit_depth == 24 {
        Some(SampleFormat::SignedLittleEndian24)
    } else if bit_depth == 32 {
        Some(SampleFormat::SignedLittleEndian32)
    } else {
        None
    }
}

/// The outcome of decoding the fields `f`.
pub open spec fn outcome_of(f: Seq<u32>) -> Result<AudioDescriptor, Rejection> {
    match format_of(f[17]) {
        Some(fmt) => Ok(AudioDescriptor { sample_format: fmt, channel_count: f[19], sample_rate: f[11] }),
        None => Err(Rejection::UnsupportedBitDepth { bit_depth: f[17] }),
    }
}

/// What decoding the body `b` gives.
pub open spec fn decode_spec(b: Seq<u8>) -> (Seq<Warning>, Result<AudioDescriptor, Rejection>) {
    if b.len() != 100 {
        (Seq::empty(), Err(Rejection::WrongSize))
    } else {
        let f = fields_of(b);
        (warnings_of(f), outcome_of(f))
    }
}

impl SampleFormat {
    /// The name of the format in the notation of common audio tools.
    pub open spec fn code_spec(self) -> Seq<char> {
        match self {
            SampleFormat::UnsignedByte => "u8"@,
            SampleFormat::SignedBigEndian16 => "s16be"@,
            SampleFormat::SignedLittleEndian24 => "s24le"@,
            SampleFormat::SignedLittleEndian32 => "s32le"@,
        }
    }

    /// The name of the format in the notation of common audio tools
    /// (`u8`, `s16be`, `s24le`, `s32le`).
    pub fn code(&self) -> (r: &'static str)
        ensures
            r@ == self.code_spec(),
    {
        match self {
            SampleFormat::UnsignedByte => "u8",
            SampleFormat::SignedBigEndian16 => "s16be",
            SampleFormat::SignedLittleEndian24 => "s24le",
            SampleFormat::SignedLittleEndian32 => "s32le",
        }
    }
}

/// Reads the 25 big-endian fields of a 100-byte record.
pub fn sound_header_fields(body: &[u8]) -> (f: Vec<u32>)
    requires
        body@.len() == 100,
    ensures
        f@ == fields_of(body@),
{
    let mut f: Vec<u32> = Vec::with_capacity(SOUND_HEADER_FIELDS);
    let mut k: usize = 0;
    while k < SOUND_HEADER_FIELDS
        invariant
            k <= 25,
            body@.len() == 100,
            f@.len() == k,
            forall|j: int| 0 <= j < k ==> f@[j] == field(body@, j),
        decreases 25 - k,
    {
        let p = 4 * k;
        f.push(u32_from_be(body[p], body[p + 1], body[p + 2], body[p + 3]));
        k = k + 1;
    }
    assert(f@ =~= fields_of(body@));
    f
}

/// Appends `w` to `ws` if `failed`.
fn push_if(ws: &mut Vec<Warning>, failed: bool, w: Warning)
    ensures
        final(ws)@ == old(ws)@ + flag(failed, w),
{
    if failed {
        ws.push(w);
    }
    assert(final(ws)@ =~= old(ws)@ + flag(failed, w));
}

/// The sample format that a bit depth stands for.
pub fn sample_format_for(bit_depth: u32) -> (r: Option<SampleFormat>)
    ensures
        r == format_of(bit_depth),
{
    match bit_depth {
        8 => Some(SampleFormat::UnsignedByte),
        16 => Some(SampleFormat::SignedBigEndian16),
        24 => Some(SampleFormat::SignedLittleEndian24),
        32 => Some(SampleFormat::SignedLittleEndian32),
        _ => None,
    }
}

/// Decodes a sound-header body into audio parameters.
///
/// A body that is not 100 bytes long, or whose bit depth is none of 8, 16,
/// 24 and 32, is rejected. The other checks only raise warnings.
pub fn decode_sound_header(body: &[u8]) -> (r: SoundHeaderDecode)
    ensures
        r@ == decode_spec(body@),
{
    if body.len() != SOUND_HEADER_LEN {
        return SoundHeaderDecode { warnings: Vec::new(), outcome: Err(Rejection::WrongSize) };
    }
    let f = sound_header_fields(body);
    let ghost fs = f@;

    let magic_ok = (f[21] == 0x6a528ef2u32 && f[22] == 0x081011d0u32 && f[23] == 0xb28a0005u32
        && f[24] == 0x02e85810u32) || f[21] == 0x6a5293a2u32;
    let zeros_ok = f[0] == 0 && f[2] == 0 && f[3] == 0 && f[4] == 0 && f[5] == 0 && f[6] == 0
        && f[7] == 0 && f[13] == 0 && f[14] == 0 && f[15] == 0 && f[16] == 0;

    let byte_count_a = f[1];
    let byte_count_b = f[8];
    let frame_count_a = f[9];
    let frame_count_b = f[10];
    let sample_rate = f[11];
    let bytes_per_second = f[12];
    let bit_depth = f[17];
    let bytes_per_sample = f[18];
    let channel_count = f[19];
    let bytes_per_frame = f[20];

    assert((sample_rate as u64) * (bytes_per_frame as u64) <= u64::MAX) by (nonlinear_arith)
        requires
            sample_rate <= u32::MAX,
            bytes_per_frame <= u32::MAX,
    ;
    assert((bytes_per_sample as u64) * (channel_count as u64) <= u64::MAX) by (nonlinear_arith)
        requires
            bytes_per_sample <= u32::MAX,
            channel_count <= u32::MAX,
    ;

    let mut warnings: Vec<Warning> = Vec::new();
    push_if(&mut warnings, !magic_ok, Warning::UnexpectedMagicNumbers);
    push_if(&mut warnings, !zeros_ok, Warning::UnexpectedNonZero);
    push_if(&mut warnings, byte_count_a != byte_count_b, Warning::ByteCountMismatch);
    push_if(&mut warnings, frame_count_a != frame_count_b, Warning::FrameCountMismatch);
    push_if(
        &mut warnings,
        bytes_per_second as u64 != (sample_rate as u64) * (bytes_per_frame as u64),
        Warning::BytesPerSecondMismatch,
    );
    push_if(&mut warnings, bit_depth % 8 != 0, Warning::BitDepthNotWholeBytes);
    push_if(&mut warnings, bytes_per_sample < bit_depth / 8, Warning::BytesPerSampleTooSmall);
    push_if(
        &mut warnings,
        bytes_per_frame as u64 != (bytes_per_sample as u64) * (channel_count as u64),
        Warning::BytesPerFrameMismatch,
    );
    assert(warnings@ =~= warnings_of(fs));

    let outcome = match sample_format_for(bit_depth) {
        Some(sample_format) => Ok(AudioDescriptor { sample_format, channel_count, sample_rate }),
        None => Err(Rejection::UnsupportedBitDepth { bit_depth }),
    };
    SoundHeaderDecode { warnings, outcome }
}

/// The fields `f` pass every check: a known identifier, zeros where zeros are
/// expected, and redundant fields that agree.
pub open spec fn consistent(f: Seq<u32>) -> bool {
    &&& magic_known(f)
    &&& reserved_zero(f)
    &&& f[1] == f[8]
    &&& f[9] == f[10]
    &&& f[12] == f[11] * f[20]
    &&& f[17] % 8 == 0
    &&& f[18] >= f[17] / 8
    &&& f[20] == f[18] * f[19]
}

/// A 100-byte record that passes every check and has a bit depth of 16 decodes
/// to signed big-endian 16-bit samples, with its channel count and sample rate,
/// and no warning. The same record with the second byte count changed to differ
/// from the first decodes to the same descriptor, with at least one warning.
pub proof fn lemma_consistent_record_round_trip(b: Seq<u8>, changed: Seq<u8>)
    requires
        b.len() == 100,
        consistent(fields_of(b)),
        fields_of(b)[17] == 16,
        changed.len() == 100,
        fields_of(changed) == fields_of(b).update(8, fields_of(changed)[8]),
        fields_of(changed)[8] != fields_of(b)[1],
    ensures
        decode_spec(b) == (Seq::<Warning>::empty(), Ok::<AudioDescriptor, Rejection>(
            AudioDescriptor {
                sample_format: SampleFormat::SignedBigEndian16,
                channel_count: fields_of(b)[19],
                sample_rate: fields_of(b)[11],
            },
        )),
        decode_spec(changed).1 == decode_spec(b).1,
        decode_spec(changed).0.len() >= 1,
        decode_spec(changed).0.contains(Warning::ByteCountMismatch),
{
    let f = fields_of(b);
    let g = fields_of(changed);
    assert(warnings_of(f) =~= Seq::<Warning>::empty());
    assert(g[17] == f[17] && g[19] == f[19] && g[11] == f[11]);
    assert(warnings_of(g) =~= seq![Warning::ByteCountMismatch]);
    assert(warnings_of(g)[0] == Warning::ByteCountMismatch);
}

/// A 100-byte record whose bit depth is not a multiple of 8 is rejected for its
/// bit depth: no descriptor comes out of it.
pub proof fn lemma_partial_byte_depth_rejected(b: Seq<u8>)
    requires
        b.len() == 100,
        fields_of(b)[17] % 8 != 0,
    ensures
        decode_spec(b).1 == Err::<AudioDescriptor, Rejection>(
            Rejection::UnsupportedBitDepth { bit_depth: fields_of(b)[17] },
        ),
{
}

} // verus!
