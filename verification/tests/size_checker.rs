use bincode::config::{Endian, Options, SizeLimit};
use bincode::error::ErrorKind;
use bincode::ser::{Serializer, SizeChecker};

fn bounded(n: u64) -> SizeChecker {
    SizeChecker::new(Options { endian: Endian::Little, limit: SizeLimit::Bounded(n) })
}

#[test]
fn size_limit_add_and_limit() {
    let mut l = SizeLimit::Bounded(10);
    assert_eq!(l.add(4), Ok(()));
    assert_eq!(l.limit(), Some(6));
    assert_eq!(l.add(7), Err(ErrorKind::SizeLimit));
    assert_eq!(l, SizeLimit::Bounded(6));
    assert_eq!(l.add(6), Ok(()));
    assert_eq!(l, SizeLimit::Bounded(0));
    let mut i = SizeLimit::Infinite;
    assert_eq!(i.add(u64::MAX), Ok(()));
    assert_eq!(i.limit(), None);
}

#[test]
fn primitives_cost_their_width() {
    let mut c = bounded(1000);
    c.serialize_bool(true).unwrap();
    c.serialize_u8(1).unwrap();
    c.serialize_i8(1).unwrap();
    assert_eq!(c.options.limit, SizeLimit::Bounded(997));
    c.serialize_u16(1).unwrap();
    c.serialize_i16(1).unwrap();
    assert_eq!(c.options.limit, SizeLimit::Bounded(993));
    c.serialize_u32(1).unwrap();
    c.serialize_i32(1).unwrap();
    assert_eq!(c.options.limit, SizeLimit::Bounded(985));
    c.serialize_u64(1).unwrap();
    c.serialize_i64(1).unwrap();
    assert_eq!(c.options.limit, SizeLimit::Bounded(969));
    c.serialize_u128(1).unwrap();
    c.serialize_i128(1).unwrap();
    assert_eq!(c.options.limit, SizeLimit::Bounded(937));
    c.serialize_none().unwrap();
    c.serialize_some().unwrap();
    assert_eq!(c.options.limit, SizeLimit::Bounded(935));
}

#[test]
fn strings_bytes_and_chars() {
    let mut c = bounded(100);
    c.serialize_str("hé").unwrap();
    assert_eq!(c.options.limit, SizeLimit::Bounded(89));
    c.serialize_bytes(&[1, 2]).unwrap();
    assert_eq!(c.options.limit, SizeLimit::Bounded(79));
    c.serialize_char('😀').unwrap();
    assert_eq!(c.options.limit, SizeLimit::Bounded(75));
    c.serialize_char('a').unwrap();
    assert_eq!(c.options.limit, SizeLimit::Bounded(74));
}

#[test]
fn headers_and_variants() {
    let mut c = bounded(100);
    c.serialize_unit().unwrap();
    c.serialize_unit_struct("U").unwrap();
    c.serialize_tuple(2).unwrap();
    c.serialize_tuple_struct("T", 2).unwrap();
    c.serialize_struct("S", 2).unwrap();
    c.serialize_newtype_struct("N").unwrap();
    assert_eq!(c.options.limit, SizeLimit::Bounded(100));
    c.serialize_seq(Some(5)).unwrap();
    c.serialize_map(Some(5)).unwrap();
    assert_eq!(c.options.limit, SizeLimit::Bounded(84));
    c.serialize_unit_variant("E", 1, "A").unwrap();
    c.serialize_newtype_variant("E", 1, "A").unwrap();
    c.serialize_tuple_variant("E", 1, "A", 1).unwrap();
    c.serialize_struct_variant("E", 1, "A", 1).unwrap();
    assert_eq!(c.options.limit, SizeLimit::Bounded(68));
    assert!(!c.is_human_readable());
}

#[test]
fn unknown_length_is_refused_without_charge() {
    let mut c = bounded(10);
    assert_eq!(c.serialize_seq(None), Err(ErrorKind::SequenceMustHaveLength));
    assert_eq!(c.serialize_map(None), Err(ErrorKind::SequenceMustHaveLength));
    assert_eq!(c.options.limit, SizeLimit::Bounded(10));
}

#[test]
fn over_the_limit_fails_and_keeps_the_budget() {
    let mut c = bounded(3);
    assert_eq!(c.serialize_u32(1), Err(ErrorKind::SizeLimit));
    assert_eq!(c.options.limit, SizeLimit::Bounded(3));
    assert_eq!(c.serialize_u16(1), Ok(()));
    assert_eq!(c.options.limit, SizeLimit::Bounded(1));
}

#[test]
fn str_length_fits_but_contents_do_not() {
    let mut c = bounded(10);
    assert_eq!(c.serialize_str("abc"), Err(ErrorKind::SizeLimit));
    assert_eq!(c.options.limit, SizeLimit::Bounded(2));
}

#[test]
fn unlimited_checker_accepts_everything() {
    let mut c = SizeChecker::new(Options { endian: Endian::Big, limit: SizeLimit::Infinite });
    c.serialize_u128(u128::MAX).unwrap();
    c.serialize_str("a long enough string").unwrap();
    assert_eq!(c.options.limit, SizeLimit::Infinite);
}

#[test]
fn checker_charges_what_serializer_writes() {
    let o = Options { endian: Endian::Big, limit: SizeLimit::Bounded(1_000) };
    let mut c = SizeChecker::new(o);
    let mut s = Serializer::new(Vec::new(), o);
    c.serialize_struct_variant("E", 7, "V", 3).unwrap();
    s.serialize_struct_variant("E", 7, "V", 3).unwrap();
    c.serialize_str("ünïcode").unwrap();
    s.serialize_str("ünïcode").unwrap();
    c.serialize_char('€').unwrap();
    s.serialize_char('€').unwrap();
    c.serialize_seq(Some(2)).unwrap();
    s.serialize_seq(Some(2)).unwrap();
    c.serialize_i64(-5).unwrap();
    s.serialize_i64(-5).unwrap();
    c.serialize_some().unwrap();
    s.serialize_some().unwrap();
    c.serialize_bool(false).unwrap();
    s.serialize_bool(false).unwrap();
    let written = s.into_inner().len() as u64;
    assert_eq!(c.options.limit, SizeLimit::Bounded(1_000 - written));
}

#[test]
fn limit_exactly_the_output_size_succeeds_one_less_fails() {
    let o = Options { endian: Endian::Little, limit: SizeLimit::Infinite };
    let mut s = Serializer::new(Vec::new(), o);
    s.serialize_str("xyz").unwrap();
    s.serialize_u32(9).unwrap();
    let n = s.into_inner().len() as u64;
    assert_eq!(n, 15);
    let mut ok = bounded(n);
    assert_eq!(ok.serialize_str("xyz"), Ok(()));
    assert_eq!(ok.serialize_u32(9), Ok(()));
    assert_eq!(ok.options.limit, SizeLimit::Bounded(0));
    let mut short = bounded(n - 1);
    assert_eq!(short.serialize_str("xyz"), Ok(()));
    assert_eq!(short.serialize_u32(9), Err(ErrorKind::SizeLimit));
}
