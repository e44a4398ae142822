use dream_sparer::bytes::{read_exact, read_tag, read_u32, skip, u32_from_be, Endianness, UnexpectedEnd};
use dream_sparer::errors::{convert_io_error, io_error_message};
use dream_sparer::tags::{convert_fourcc, rifx, same_tag, sndh, xfir};

#[test]
fn integers_follow_the_given_byte_order() {
    let data = [0xaa, 0x01, 0x02, 0x03, 0x04];
    assert_eq!(read_u32(&data, 1, Endianness::Big), Ok(0x01020304));
    assert_eq!(read_u32(&data, 1, Endianness::Little), Ok(0x04030201));
    assert_eq!(u32_from_be(0xff, 0xff, 0xff, 0xff), u32::MAX);
}

#[test]
fn tags_are_reversed_on_request() {
    let data = *b"xRIFX";
    assert_eq!(read_tag(&data, 1, false), Ok(*b"RIFX"));
    assert_eq!(read_tag(&data, 1, true), Ok(*b"XFIR"));
}

#[test]
fn reads_past_the_end_fail() {
    let data = [1u8, 2, 3];
    assert_eq!(read_u32(&data, 0, Endianness::Big), Err(UnexpectedEnd { offset: 0, wanted: 4 }));
    assert_eq!(read_tag(&data, 7, false), Err(UnexpectedEnd { offset: 7, wanted: 4 }));
    assert_eq!(read_exact(&data, 1, 3), Err(UnexpectedEnd { offset: 1, wanted: 3 }));
    assert_eq!(skip(&data, 2, 2), Err(UnexpectedEnd { offset: 2, wanted: 2 }));
}

#[test]
fn exact_reads_and_skips_within_the_data() {
    let data = [1u8, 2, 3, 4, 5];
    assert_eq!(read_exact(&data, 1, 3), Ok(vec![2, 3, 4]));
    assert_eq!(read_exact(&data, 5, 0), Ok(vec![]));
    assert_eq!(skip(&data, 1, 4), Ok(5));
}

#[test]
fn text_tags_must_be_four_ascii_bytes() {
    assert_eq!(convert_fourcc("sndH"), Ok(*b"sndH"));
    assert_eq!(
        convert_fourcc("snd"),
        Err("'snd' is not 4 bytes long / is not ASCII.".to_string())
    );
    assert_eq!(
        convert_fourcc("sndHx"),
        Err("'sndHx' is not 4 bytes long / is not ASCII.".to_string())
    );
    assert_eq!(
        convert_fourcc("sné"),
        Err("'sné' is not 4 bytes long / is not ASCII.".to_string())
    );
}

#[test]
fn known_tags_and_comparison() {
    assert_eq!(rifx(), *b"RIFX");
    assert_eq!(xfir(), *b"XFIR");
    assert_eq!(sndh(), *b"sndH");
    assert!(same_tag(b"abcd", b"abcd"));
    assert!(!same_tag(b"abcd", b"abce"));
}

#[test]
fn io_errors_carry_their_cause() {
    assert_eq!(io_error_message("gone"), "Error when reading/writing file: gone");
    let e = std::io::Error::new(std::io::ErrorKind::UnexpectedEof, "short read");
    let m = convert_io_error(e);
    assert_eq!(m, "Error when reading/writing file: short read");
}
