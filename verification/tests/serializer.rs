use bincode::config::{Endian, Options, SizeLimit};
use bincode::error::ErrorKind;
use bincode::ser::{encode_utf8, Serializer};

fn little() -> Options {
    Options { endian: Endian::Little, limit: SizeLimit::Infinite }
}

fn big() -> Options {
    Options { endian: Endian::Big, limit: SizeLimit::Infinite }
}

fn fresh(o: Options) -> Serializer {
    Serializer::new(Vec::new(), o)
}

#[test]
fn new_keeps_existing_bytes_and_options() {
    let s = Serializer::new(vec![9u8, 8], big());
    assert_eq!(s.output(), &vec![9u8, 8]);
    assert_eq!(s.options(), big());
}

#[test]
fn unit_and_headers_write_nothing() {
    let mut s = fresh(little());
    assert_eq!(s.serialize_unit(), Ok(()));
    assert_eq!(s.serialize_unit_struct("U"), Ok(()));
    assert_eq!(s.serialize_tuple(3), Ok(()));
    assert_eq!(s.serialize_tuple_struct("T", 2), Ok(()));
    assert_eq!(s.serialize_struct("S", 4), Ok(()));
    assert_eq!(s.serialize_newtype_struct("N"), Ok(()));
    assert!(s.output().is_empty());
}

#[test]
fn bool_is_one_byte() {
    let mut s = fresh(big());
    s.serialize_bool(true).unwrap();
    s.serialize_bool(false).unwrap();
    assert_eq!(s.into_inner(), vec![1u8, 0]);
}

#[test]
fn small_integers() {
    let mut s = fresh(big());
    s.serialize_u8(200).unwrap();
    s.serialize_i8(-1).unwrap();
    s.serialize_i8(-128).unwrap();
    assert_eq!(s.into_inner(), vec![200u8, 255, 128]);
}

#[test]
fn u16_both_orders() {
    let mut s = fresh(little());
    s.serialize_u16(0x0102).unwrap();
    assert_eq!(s.into_inner(), vec![2u8, 1]);
    let mut s = fresh(big());
    s.serialize_u16(0x0102).unwrap();
    assert_eq!(s.into_inner(), vec![1u8, 2]);
}

#[test]
fn u32_u64_u128_both_orders() {
    let mut s = fresh(little());
    s.serialize_u32(0x01020304).unwrap();
    s.serialize_u64(0x0102030405060708).unwrap();
    assert_eq!(s.into_inner(), vec![4u8, 3, 2, 1, 8, 7, 6, 5, 4, 3, 2, 1]);
    let mut s = fresh(big());
    s.serialize_u32(0x01020304).unwrap();
    s.serialize_u64(0x0102030405060708).unwrap();
    assert_eq!(s.into_inner(), vec![1u8, 2, 3, 4, 1, 2, 3, 4, 5, 6, 7, 8]);
    let v: u128 = 0x0102030405060708090a0b0c0d0e0f10;
    let mut s = fresh(big());
    s.serialize_u128(v).unwrap();
    assert_eq!(s.into_inner(), (1u8..=16).collect::<Vec<u8>>());
    let mut s = fresh(little());
    s.serialize_u128(v).unwrap();
    assert_eq!(s.into_inner(), (1u8..=16).rev().collect::<Vec<u8>>());
}

#[test]
fn signed_integers_are_twos_complement() {
    let mut s = fresh(little());
    s.serialize_i16(-2).unwrap();
    s.serialize_i32(-1).unwrap();
    assert_eq!(s.into_inner(), vec![0xfeu8, 0xff, 0xff, 0xff, 0xff, 0xff]);
    let mut s = fresh(big());
    s.serialize_i16(-2).unwrap();
    s.serialize_i64(-256).unwrap();
    assert_eq!(s.into_inner(), vec![0xffu8, 0xfe, 0xff, 0xff, 0xff, 0xff, 0xff, 0xff, 0xff, 0x00]);
    let mut s = fresh(little());
    s.serialize_i128(i128::MIN).unwrap();
    let mut expected = vec![0u8; 15];
    expected.push(0x80);
    assert_eq!(s.into_inner(), expected);
}

#[test]
fn str_is_length_prefixed() {
    let mut s = fresh(little());
    s.serialize_str("hé").unwrap();
    assert_eq!(s.into_inner(), vec![3u8, 0, 0, 0, 0, 0, 0, 0, b'h', 0xc3, 0xa9]);
    let mut s = fresh(big());
    s.serialize_str("").unwrap();
    assert_eq!(s.into_inner(), vec![0u8; 8]);
}

#[test]
fn bytes_are_length_prefixed() {
    let mut s = fresh(big());
    s.serialize_bytes(&[7, 8, 9]).unwrap();
    assert_eq!(s.into_inner(), vec![0u8, 0, 0, 0, 0, 0, 0, 3, 7, 8, 9]);
}

#[test]
fn char_is_utf8_without_length() {
    let mut s = fresh(little());
    s.serialize_char('a').unwrap();
    s.serialize_char('é').unwrap();
    s.serialize_char('€').unwrap();
    s.serialize_char('😀').unwrap();
    assert_eq!(
        s.into_inner(),
        vec![0x61u8, 0xc3, 0xa9, 0xe2, 0x82, 0xac, 0xf0, 0x9f, 0x98, 0x80]
    );
}

#[test]
fn option_tags() {
    let mut s = fresh(little());
    s.serialize_none().unwrap();
    s.serialize_some().unwrap();
    s.serialize_u8(5).unwrap();
    assert_eq!(s.into_inner(), vec![0u8, 1, 5]);
}

#[test]
fn seq_and_map_lengths() {
    let mut s = fresh(little());
    s.serialize_seq(Some(2)).unwrap();
    s.serialize_map(Some(1)).unwrap();
    assert_eq!(s.into_inner(), vec![2u8, 0, 0, 0, 0, 0, 0, 0, 1, 0, 0, 0, 0, 0, 0, 0]);
}

#[test]
fn seq_and_map_without_length_are_refused() {
    let mut s = fresh(little());
    s.serialize_u8(1).unwrap();
    assert_eq!(s.serialize_seq(None), Err(ErrorKind::SequenceMustHaveLength));
    assert_eq!(s.serialize_map(None), Err(ErrorKind::SequenceMustHaveLength));
    assert_eq!(s.into_inner(), vec![1u8]);
}

#[test]
fn variants_write_their_index() {
    let mut s = fresh(big());
    s.serialize_unit_variant("E", 1, "A").unwrap();
    s.serialize_newtype_variant("E", 2, "B").unwrap();
    s.serialize_tuple_variant("E", 3, "C", 2).unwrap();
    s.serialize_struct_variant("E", 0x01020304, "D", 1).unwrap();
    assert_eq!(
        s.into_inner(),
        vec![0u8, 0, 0, 1, 0, 0, 0, 2, 0, 0, 0, 3, 1, 2, 3, 4]
    );
    let mut s = fresh(little());
    s.serialize_unit_variant("E", 1, "A").unwrap();
    assert_eq!(s.into_inner(), vec![1u8, 0, 0, 0]);
}

#[test]
fn take_bytes_empties_the_buffer() {
    let mut s = fresh(little());
    s.serialize_u16(1).unwrap();
    assert_eq!(s.take_bytes(), vec![1u8, 0]);
    assert!(s.output().is_empty());
    s.serialize_u8(3).unwrap();
    assert_eq!(s.take_bytes(), vec![3u8]);
    assert_eq!(s.options(), little());
}

#[test]
fn not_human_readable() {
    let s = fresh(little());
    assert!(!s.is_human_readable());
}

#[test]
fn encode_utf8_widths() {
    assert_eq!(encode_utf8('\0').as_slice(), &[0u8][..]);
    assert_eq!(encode_utf8('\u{7f}').as_slice(), &[0x7fu8][..]);
    assert_eq!(encode_utf8('\u{80}').as_slice(), &[0xc2u8, 0x80][..]);
    assert_eq!(encode_utf8('\u{7ff}').as_slice(), &[0xdfu8, 0xbf][..]);
    assert_eq!(encode_utf8('\u{800}').as_slice(), &[0xe0u8, 0xa0, 0x80][..]);
    assert_eq!(encode_utf8('\u{ffff}').as_slice(), &[0xefu8, 0xbf, 0xbf][..]);
    assert_eq!(encode_utf8('\u{10000}').as_slice(), &[0xf0u8, 0x90, 0x80, 0x80][..]);
    assert_eq!(encode_utf8('\u{10ffff}').as_slice(), &[0xf4u8, 0x8f, 0xbf, 0xbf][..]);
}
