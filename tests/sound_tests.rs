use dream_sparer::policy::FilterConfig;
use dream_sparer::sound::{
    decode_sound_header, sample_format_for, sound_header_fields, AudioDescriptor, Rejection,
    SampleFormat, Warning,
};
use dream_sparer::walk::walk_bytes;
use dream_sparer::walker::padded_size;

/// Fields of a record that passes every check: 16-bit stereo at 22050 Hz.
fn good_fields() -> [u32; 25] {
    let mut f = [0u32; 25];
    f[1] = 4000;
    f[8] = 4000;
    f[9] = 1000;
    f[10] = 1000;
    f[11] = 22050;
    f[12] = 88200;
    f[17] = 16;
    f[18] = 2;
    f[19] = 2;
    f[20] = 4;
    f[21] = 0x6a528ef2;
    f[22] = 0x081011d0;
    f[23] = 0xb28a0005;
    f[24] = 0x02e85810;
    f
}

fn record(f: &[u32; 25]) -> Vec<u8> {
    f.iter().flat_map(|x| x.to_be_bytes()).collect()
}

#[test]
fn consistent_sixteen_bit_record_decodes_without_warnings() {
    let d = decode_sound_header(&record(&good_fields()));
    assert!(d.warnings.is_empty());
    assert_eq!(
        d.outcome,
        Ok(AudioDescriptor {
            sample_format: SampleFormat::SignedBigEndian16,
            channel_count: 2,
            sample_rate: 22050
        })
    );
}

#[test]
fn mismatched_byte_counts_warn_but_decode() {
    let mut f = good_fields();
    f[8] = 4001;
    let d = decode_sound_header(&record(&f));
    assert_eq!(d.warnings, vec![Warning::ByteCountMismatch]);
    assert_eq!(d.outcome, decode_sound_header(&record(&good_fields())).outcome);
}

#[test]
fn bit_depth_five_is_rejected() {
    let mut f = good_fields();
    f[17] = 5;
    let d = decode_sound_header(&record(&f));
    assert_eq!(d.outcome, Err(Rejection::UnsupportedBitDepth { bit_depth: 5 }));
    assert_eq!(d.warnings, vec![Warning::BitDepthNotWholeBytes]);
}

#[test]
fn whole_byte_depth_outside_the_four_formats_is_rejected() {
    let mut f = good_fields();
    f[17] = 40;
    f[18] = 5;
    f[20] = 10;
    f[12] = 220500;
    let d = decode_sound_header(&record(&f));
    assert!(d.warnings.is_empty());
    assert_eq!(d.outcome, Err(Rejection::UnsupportedBitDepth { bit_depth: 40 }));
}

#[test]
fn wrong_lengths_are_rejected() {
    for len in [0usize, 99, 101, 200] {
        let d = decode_sound_header(&vec![0u8; len]);
        assert_eq!(d.outcome, Err(Rejection::WrongSize));
        assert!(d.warnings.is_empty());
    }
}

#[test]
fn body_declared_ninety_nine_bytes_is_read_as_one_hundred() {
    assert_eq!(padded_size(99), 100);
    let mut data = Vec::new();
    data.extend_from_slice(b"RIFX");
    data.extend_from_slice(&120u32.to_be_bytes());
    data.extend_from_slice(b"MV93");
    data.extend_from_slice(b"sndH");
    data.extend_from_slice(&99u32.to_be_bytes());
    data.extend_from_slice(&record(&good_fields()));
    let config = FilterConfig {
        quiet_types: Vec::new(),
        dump_types: Vec::new(),
        dump_indices: Vec::new(),
        decode_sound_headers: true,
    };
    let w = walk_bytes(&data, &config).unwrap();
    let v = &w.chunks[0];
    assert_eq!(v.record.declared_size, 99);
    assert!(v.disposition.decode && v.disposition.materialize && !v.disposition.dump);
    assert_eq!(v.body.as_ref().unwrap().len(), 100);
    let d = v.sound.as_ref().unwrap();
    assert!(d.warnings.is_empty());
    assert_eq!(d.outcome.unwrap().sample_format, SampleFormat::SignedBigEndian16);
    assert_eq!(w.final_offset, 120);
    // The decoder goes by the length it is given, not by the declared size.
    let short = decode_sound_header(&record(&good_fields())[..99]);
    assert_eq!(short.outcome, Err(Rejection::WrongSize));
}

#[test]
fn sound_headers_are_not_decoded_unless_asked() {
    let mut data = Vec::new();
    data.extend_from_slice(b"RIFX");
    data.extend_from_slice(&120u32.to_be_bytes());
    data.extend_from_slice(b"MV93");
    data.extend_from_slice(b"sndH");
    data.extend_from_slice(&100u32.to_be_bytes());
    data.extend_from_slice(&record(&good_fields()));
    let config = FilterConfig {
        quiet_types: Vec::new(),
        dump_types: Vec::new(),
        dump_indices: Vec::new(),
        decode_sound_headers: false,
    };
    let w = walk_bytes(&data, &config).unwrap();
    assert!(w.chunks[0].sound.is_none());
    assert!(w.chunks[0].body.is_none());
}

#[test]
fn fields_are_big_endian() {
    let mut body = vec![0u8; 100];
    body[4] = 0x12;
    body[5] = 0x34;
    body[6] = 0x56;
    body[7] = 0x78;
    body[99] = 1;
    let f = sound_header_fields(&body);
    assert_eq!(f.len(), 25);
    assert_eq!(f[1], 0x12345678);
    assert_eq!(f[24], 1);
    assert_eq!(f[0], 0);
}

#[test]
fn second_known_identifier_is_accepted_by_its_first_word() {
    let mut f = good_fields();
    f[21] = 0x6a5293a2;
    f[22] = 1;
    f[23] = 2;
    f[24] = 3;
    assert!(decode_sound_header(&record(&f)).warnings.is_empty());
    f[21] = 0x6a5293a3;
    assert_eq!(
        decode_sound_header(&record(&f)).warnings,
        vec![Warning::UnexpectedMagicNumbers]
    );
}

#[test]
fn each_failed_check_gives_its_warning_in_order() {
    let mut f = good_fields();
    f[21] = 0;
    f[14] = 9;
    f[8] = 1;
    f[10] = 1;
    f[12] = 1;
    f[17] = 12;
    f[18] = 1;
    let d = decode_sound_header(&record(&f));
    assert_eq!(
        d.warnings,
        vec![
            Warning::UnexpectedMagicNumbers,
            Warning::UnexpectedNonZero,
            Warning::ByteCountMismatch,
            Warning::FrameCountMismatch,
            Warning::BytesPerSecondMismatch,
            Warning::BitDepthNotWholeBytes,
            Warning::BytesPerFrameMismatch,
        ]
    );
    assert_eq!(d.outcome, Err(Rejection::UnsupportedBitDepth { bit_depth: 12 }));
}

#[test]
fn small_bytes_per_sample_warns() {
    let mut f = good_fields();
    f[18] = 1;
    f[20] = 2;
    f[12] = 44100;
    let d = decode_sound_header(&record(&f));
    assert_eq!(d.warnings, vec![Warning::BytesPerSampleTooSmall]);
    assert_eq!(d.outcome.unwrap().channel_count, 2);
}

#[test]
fn products_do_not_wrap() {
    let mut f = good_fields();
    f[11] = 0x10000;
    f[20] = 0x10000;
    f[12] = 0;
    f[18] = 0x8000;
    f[19] = 2;
    let d = decode_sound_header(&record(&f));
    assert_eq!(d.warnings, vec![Warning::BytesPerSecondMismatch]);
}

#[test]
fn bit_depths_map_to_formats() {
    assert_eq!(sample_format_for(8), Some(SampleFormat::UnsignedByte));
    assert_eq!(sample_format_for(16), Some(SampleFormat::SignedBigEndian16));
    assert_eq!(sample_format_for(24), Some(SampleFormat::SignedLittleEndian24));
    assert_eq!(sample_format_for(32), Some(SampleFormat::SignedLittleEndian32));
    assert_eq!(sample_format_for(0), None);
    assert_eq!(SampleFormat::UnsignedByte.code(), "u8");
    assert_eq!(SampleFormat::SignedBigEndian16.code(), "s16be");
    assert_eq!(SampleFormat::SignedLittleEndian24.code(), "s24le");
    assert_eq!(SampleFormat::SignedLittleEndian32.code(), "s32le");
}

#[test]
fn eight_bit_mono_record_decodes() {
    let mut f = good_fields();
    f[17] = 8;
    f[18] = 1;
    f[19] = 1;
    f[20] = 1;
    f[11] = 11025;
    f[12] = 11025;
    let d = decode_sound_header(&record(&f));
    assert!(d.warnings.is_empty());
    assert_eq!(
        d.outcome,
        Ok(AudioDescriptor { sample_format: SampleFormat::UnsignedByte, channel_count: 1, sample_rate: 11025 })
    );
}
