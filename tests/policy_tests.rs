use dream_sparer::policy::{chunk_policy, has_index, has_tag, Disposition, FilterConfig};
use dream_sparer::walker::{endianness_for_magic, padded_size, tags_swapped, ChunkRecord, WalkError, Walker};
use dream_sparer::bytes::Endianness;

fn config() -> FilterConfig {
    FilterConfig {
        quiet_types: vec![*b"free"],
        dump_types: vec![*b"CASt"],
        dump_indices: vec![3, 7],
        decode_sound_headers: true,
    }
}

#[test]
fn plain_chunk_is_narrated_and_skipped() {
    assert_eq!(
        chunk_policy(&config(), b"KEY*", 0),
        Disposition { narrate: true, materialize: false, dump: false, decode: false }
    );
}

#[test]
fn quiet_type_is_silenced_only() {
    assert_eq!(
        chunk_policy(&config(), b"free", 0),
        Disposition { narrate: false, materialize: false, dump: false, decode: false }
    );
}

#[test]
fn dump_by_type_or_by_index() {
    let by_type = chunk_policy(&config(), b"CASt", 0);
    assert!(by_type.dump && by_type.materialize && !by_type.decode);
    let by_index = chunk_policy(&config(), b"free", 7);
    assert_eq!(
        by_index,
        Disposition { narrate: false, materialize: true, dump: true, decode: false }
    );
}

#[test]
fn sound_header_is_decoded_and_can_be_dumped_too() {
    let d = chunk_policy(&config(), b"sndH", 3);
    assert_eq!(d, Disposition { narrate: true, materialize: true, dump: true, decode: true });
    let mut off = config();
    off.decode_sound_headers = false;
    assert_eq!(
        chunk_policy(&off, b"sndH", 0),
        Disposition { narrate: true, materialize: false, dump: false, decode: false }
    );
}

#[test]
fn membership_helpers() {
    assert!(has_tag(&vec![*b"a123", *b"b123"], b"b123"));
    assert!(!has_tag(&vec![], b"b123"));
    assert!(has_index(&vec![5, 9], 9));
    assert!(!has_index(&vec![5, 9], 4));
}

#[test]
fn padded_sizes_are_even() {
    assert_eq!(padded_size(0), 0);
    assert_eq!(padded_size(1), 2);
    assert_eq!(padded_size(4), 4);
    assert_eq!(padded_size(99), 100);
    assert_eq!(padded_size(u32::MAX), 1u64 << 32);
    for n in 0..50u32 {
        let p = padded_size(n);
        assert_eq!(p % 2, 0);
        assert!(p == n as u64 || p == n as u64 + 1);
    }
}

#[test]
fn magic_fixes_the_byte_order() {
    assert_eq!(endianness_for_magic(b"XFIR"), Ok(Endianness::Little));
    assert_eq!(endianness_for_magic(b"RIFX"), Ok(Endianness::Big));
    assert_eq!(
        endianness_for_magic(b"RIFF"),
        Err(WalkError::UnsupportedFormat { magic: *b"RIFF" })
    );
    assert!(tags_swapped(Endianness::Little));
    assert!(!tags_swapped(Endianness::Big));
}

#[test]
fn walker_steps_past_padded_bodies() {
    let mut w = Walker::new(Endianness::Big, 40);
    assert_eq!(w.offset, 12);
    assert!(w.in_progress());
    let s = w.visit(*b"sndH", 5, &config());
    assert_eq!(s.record, ChunkRecord { type_tag: *b"sndH", declared_size: 5, start_offset: 12, index: 0 });
    assert_eq!(s.padded_size, 6);
    assert!(s.disposition.decode);
    assert_eq!((w.offset, w.index), (26, 1));
    let s = w.visit(*b"free", 6, &config());
    assert_eq!(s.record.start_offset, 26);
    assert_eq!(s.record.index, 1);
    assert!(!s.disposition.narrate);
    assert_eq!((w.offset, w.index), (40, 2));
    assert!(!w.in_progress());
}
