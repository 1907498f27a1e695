use vstd::prelude::*;

use crate::config::{Endian, SizeLimit};
use vstd::arithmetic::div_mod::{
    lemma_fundamental_div_mod, lemma_fundamental_div_mod_converse_mod, lemma_mod_bound,
};
use crate::error::ErrorKind;
use crate::format::{
    apply_charges, charges, check_all, encode_all, encoding, int_bytes, int_value, le_bytes,
    le_value, pow256, total, Token,
};

verus! {

/// An integer written in `n` bytes takes exactly `n` bytes, in either byte order.
pub proof fn law_int_bytes_len(e: Endian, x: int, n: nat)
    ensures
        le_bytes(x, n).len() == n,
        int_bytes(e, x, n).len() == n,
    decreases n,
{
    if n > 0 {
        law_int_bytes_len(e, x / 256, (n - 1) as nat);
    }
}

/// Reading back the `n` bytes written for a number below `256^n` gives the number,
/// in either byte order.
pub proof fn law_int_roundtrip(e: Endian, x: int, n: nat)
    requires
        0 <= x < pow256(n),
    ensures
        int_value(e, int_bytes(e, x, n)) == x,
{
    lemma_le_roundtrip(x, n);
    assert(le_bytes(x, n).reverse().reverse() =~= le_bytes(x, n));
}

proof fn lemma_le_roundtrip(x: int, n: nat)
    requires
        0 <= x < pow256(n),
    ensures
        le_value(le_bytes(x, n)) == x,
    decreases n,
{
    if n > 0 {
        let q = x / 256;
        let r = x % 256;
        assert(x == 256 * q + r && 0 <= r < 256);
        assert(0 <= q < pow256((n - 1) as nat)) by (nonlinear_arith)
            requires
                x == 256 * q + r,
                0 <= r < 256,
                x < 256 * pow256((n - 1) as nat),
                0 <= x,
        ;
        lemma_le_roundtrip(q, (n - 1) as nat);
        let s = le_bytes(x, n);
        assert(s.drop_first() =~= le_bytes(q, (n - 1) as nat));
        assert(s[0] == r);
    }
}

/// The bytes charged by the size checker for one step are exactly the bytes the
/// serializer writes for it, in either byte order.
pub proof fn law_charges_match_encoding(e: Endian, t: Token)
    ensures
        total(charges(t)) == encoding(e, t).len(),
{
    reveal_with_fuel(total, 3);
    law_int_bytes_len(e, 0, 0);
    match t {
        Token::U16(v) => law_int_bytes_len(e, v as int, 2),
        Token::U32(v) => law_int_bytes_len(e, v as int, 4),
        Token::U64(v) => law_int_bytes_len(e, v as int, 8),
        Token::U128(v) => law_int_bytes_len(e, v as int, 16),
        Token::I16(v) => law_int_bytes_len(e, v as int, 2),
        Token::I32(v) => law_int_bytes_len(e, v as int, 4),
        Token::I64(v) => law_int_bytes_len(e, v as int, 8),
        Token::I128(v) => law_int_bytes_len(e, v as int, 16),
        Token::Str(s) => law_int_bytes_len(e, s.len() as int, 8),
        Token::Bytes(s) => law_int_bytes_len(e, s.len() as int, 8),
        Token::SeqLen(n) => law_int_bytes_len(e, n as int, 8),
        Token::MapLen(n) => law_int_bytes_len(e, n as int, 8),
        Token::TupleVariant(i) => law_int_bytes_len(e, i as int, 4),
        Token::StructVariant(i) => law_int_bytes_len(e, i as int, 4),
        Token::NewtypeVariant(i) => law_int_bytes_len(e, i as int, 4),
        Token::UnitVariant(i) => law_int_bytes_len(e, i as int, 4),
        _ => {},
    }
}

/// Charging byte counts against a bounded budget succeeds exactly when their sum
/// fits, and then leaves the budget reduced by that sum.
pub proof fn law_bounded_charges(n: u64, cs: Seq<nat>)
    ensures
        (apply_charges(SizeLimit::Bounded(n), cs).0 is Ok) <==> total(cs) <= n,
        total(cs) <= n ==> apply_charges(SizeLimit::Bounded(n), cs) == (
        Ok::<(), ErrorKind>(()),
        SizeLimit::Bounded((n - total(cs)) as u64),
        ),
    decreases cs.len(),
{
    if cs.len() > 0 {
        if cs[0] <= n {
            law_bounded_charges((n - cs[0]) as u64, cs.drop_first());
        }
    }
}

/// An unbounded budget accepts every charge and stays unbounded.
pub proof fn law_infinite_charges(cs: Seq<nat>)
    ensures
        apply_charges(SizeLimit::Infinite, cs) == (Ok::<(), ErrorKind>(()), SizeLimit::Infinite),
    decreases cs.len(),
{
    if cs.len() > 0 {
        law_infinite_charges(cs.drop_first());
    }
}

/// Running the size checker over a series of steps with a bound of `n` bytes
/// succeeds exactly when the serializer would write at most `n` bytes for them,
/// whatever the byte order; the bound left is `n` less that count.
pub proof fn law_size_check_matches_output(e: Endian, n: u64, ts: Seq<Token>)
    ensures
        (check_all(SizeLimit::Bounded(n), ts).0 is Ok) <==> encode_all(e, ts).len() <= n,
        encode_all(e, ts).len() <= n ==> check_all(SizeLimit::Bounded(n), ts) == (
        Ok::<(), ErrorKind>(()),
        SizeLimit::Bounded((n - encode_all(e, ts).len()) as u64),
        ),
    decreases ts.len(),
{
    if ts.len() > 0 {
        let t = ts[0];
        law_charges_match_encoding(e, t);
        law_bounded_charges(n, charges(t));
        let c = total(charges(t));
        if c <= n {
            law_size_check_matches_output(e, (n - c) as u64, ts.drop_first());
        }
    }
}

/// With no size limit the size checker accepts every series of steps.
pub proof fn law_unlimited_check(ts: Seq<Token>)
    ensures
        check_all(SizeLimit::Infinite, ts) == (Ok::<(), ErrorKind>(()), SizeLimit::Infinite),
    decreases ts.len(),
{
    if ts.len() > 0 {
        law_infinite_charges(charges(ts[0]));
        law_unlimited_check(ts.drop_first());
    }
}

/// The byte order changes which bytes are written, never how many.
pub proof fn law_size_independent_of_order(ts: Seq<Token>)
    ensures
        encode_all(Endian::Little, ts).len() == encode_all(Endian::Big, ts).len(),
    decreases ts.len(),
{
    if ts.len() > 0 {
        law_charges_match_encoding(Endian::Little, ts[0]);
        law_charges_match_encoding(Endian::Big, ts[0]);
        law_size_independent_of_order(ts.drop_first());
    }
}

/// A string or byte string is written as eight bytes that read back as its
/// length, followed by its bytes unchanged.
pub proof fn law_length_prefixed(e: Endian, s: Seq<u8>)
    requires
        s.len() <= u64::MAX,
    ensures
        int_value(e, encoding(e, Token::Str(s)).take(8)) == s.len(),
        encoding(e, Token::Str(s)).skip(8) == s,
        encoding(e, Token::Bytes(s)) == encoding(e, Token::Str(s)),
{
    assert(pow256(8) == 0x1_0000_0000_0000_0000) by {
        reveal_with_fuel(pow256, 9);
    }
    law_int_bytes_len(e, s.len() as int, 8);
    law_int_roundtrip(e, s.len() as int, 8);
    let enc = encoding(e, Token::Str(s));
    assert(enc.take(8) =~= int_bytes(e, s.len() as int, 8));
    assert(enc.skip(8) =~= s);
}

/// A character is written as its UTF-8 encoding, which decodes back to it alone.
pub proof fn law_char_decodes(e: Endian, c: char)
    ensures
        vstd::utf8::decode_utf8(encoding(e, Token::Char(c))) == seq![c],
        1 <= encoding(e, Token::Char(c)).len() <= 4,
{
    reveal_with_fuel(vstd::utf8::encode_utf8, 2);
    let cs = seq![c];
    assert(cs.drop_first() =~= Seq::<char>::empty());
    assert(vstd::utf8::encode_utf8(cs) =~= vstd::utf8::encode_scalar(c as u32));
    vstd::utf8::encode_utf8_decode_utf8(cs);
}

proof fn lemma_pow256_pos(n: nat)
    ensures
        pow256(n) > 0,
    decreases n,
{
    if n > 0 {
        lemma_pow256_pos((n - 1) as nat);
    }
}

proof fn lemma_le_modular(x: int, n: nat)
    ensures
        le_value(le_bytes(x, n)) == x % (pow256(n) as int),
    decreases n,
{
    lemma_pow256_pos(n);
    if n > 0 {
        let p = pow256((n - 1) as nat) as int;
        lemma_pow256_pos((n - 1) as nat);
        let q = x / 256;
        let r = x % 256;
        let k = q / p;
        let m = q % p;
        assert(x == 256 * q + r && 0 <= r < 256);
        lemma_fundamental_div_mod(q, p);
        lemma_mod_bound(q, p);
        assert(q == p * k + m && 0 <= m < p);
        lemma_le_modular(q, (n - 1) as nat);
        let s = le_bytes(x, n);
        assert(s.drop_first() =~= le_bytes(q, (n - 1) as nat));
        assert(s[0] == r);
        assert(le_value(s) == r + 256 * m);
        assert(x == k * (256 * p) + (256 * m + r)) by (nonlinear_arith)
            requires
                x == 256 * q + r,
                q == p * k + m,
        ;
        assert(pow256(n) == 256 * p);
        lemma_fundamental_div_mod_converse_mod(x, 256 * p, k, 256 * m + r);
    }
}

/// The `n` bytes written for any integer `x` read back, in the same byte order,
/// as `x` modulo `256^n` (so a negative number reads back as its two's
/// complement); the big-endian bytes are the little-endian ones reversed.
pub proof fn law_int_bytes_modular(e: Endian, x: int, n: nat)
    ensures
        int_bytes(e, x, n).len() == n,
        int_value(e, int_bytes(e, x, n)) == x % (pow256(n) as int),
        int_bytes(Endian::Big, x, n) == int_bytes(Endian::Little, x, n).reverse(),
{
    law_int_bytes_len(e, x, n);
    lemma_le_modular(x, n);
    assert(le_bytes(x, n).reverse().reverse() =~= le_bytes(x, n));
}

proof fn lemma_pow256_values()
    ensures
        pow256(1) == 0x100,
        pow256(2) == 0x1_0000,
        pow256(4) == 0x1_0000_0000,
        pow256(8) == 0x1_0000_0000_0000_0000,
        pow256(16) == 0x1_0000_0000_0000_0000_0000_0000_0000_0000,
{
    reveal_with_fuel(pow256, 17);
}

/// Each unsigned integer is written in exactly its width, reads back as itself
/// in the byte order of the options, and its big-endian bytes are its
/// little-endian bytes reversed.
pub proof fn law_unsigned_integers(e: Endian, a: u16, b: u32, c: u64, d: u128)
    ensures
        encoding(e, Token::U16(a)).len() == 2,
        int_value(e, encoding(e, Token::U16(a))) == a,
        encoding(Endian::Big, Token::U16(a)) == encoding(Endian::Little, Token::U16(a)).reverse(),
        encoding(e, Token::U32(b)).len() == 4,
        int_value(e, encoding(e, Token::U32(b))) == b,
        encoding(Endian::Big, Token::U32(b)) == encoding(Endian::Little, Token::U32(b)).reverse(),
        encoding(e, Token::U64(c)).len() == 8,
        int_value(e, encoding(e, Token::U64(c))) == c,
        encoding(Endian::Big, Token::U64(c)) == encoding(Endian::Little, Token::U64(c)).reverse(),
        encoding(e, Token::U128(d)).len() == 16,
        int_value(e, encoding(e, Token::U128(d))) == d,
        encoding(Endian::Big, Token::U128(d)) == encoding(
            Endian::Little,
            Token::U128(d),
        ).reverse(),
{
    lemma_pow256_values();
    law_int_bytes_modular(e, a as int, 2);
    law_int_bytes_modular(e, b as int, 4);
    law_int_bytes_modular(e, c as int, 8);
    law_int_bytes_modular(e, d as int, 16);
}

/// Each signed integer is written in exactly its width and reads back, in the
/// byte order of the options, as its two's complement: itself when it is not
/// negative, itself plus `2^bits` when it is; the big-endian bytes are the
/// little-endian bytes reversed.
pub proof fn law_signed_integers(e: Endian, a: i16, b: i32, c: i64, d: i128)
    ensures
        encoding(e, Token::I16(a)).len() == 2,
        int_value(e, encoding(e, Token::I16(a))) == if a >= 0 {
            a as int
        } else {
            a + 0x1_0000
        },
        encoding(Endian::Big, Token::I16(a)) == encoding(Endian::Little, Token::I16(a)).reverse(),
        encoding(e, Token::I32(b)).len() == 4,
        int_value(e, encoding(e, Token::I32(b))) == if b >= 0 {
            b as int
        } else {
            b + 0x1_0000_0000
        },
        encoding(Endian::Big, Token::I32(b)) == encoding(Endian::Little, Token::I32(b)).reverse(),
        encoding(e, Token::I64(c)).len() == 8,
        int_value(e, encoding(e, Token::I64(c))) == if c >= 0 {
            c as int
        } else {
            c + 0x1_0000_0000_0000_0000
        },
        encoding(Endian::Big, Token::I64(c)) == encoding(Endian::Little, Token::I64(c)).reverse(),
        encoding(e, Token::I128(d)).len() == 16,
        int_value(e, encoding(e, Token::I128(d))) == if d >= 0 {
            d as int
        } else {
            d + 0x1_0000_0000_0000_0000_0000_0000_0000_0000
        },
        encoding(Endian::Big, Token::I128(d)) == encoding(
            Endian::Little,
            Token::I128(d),
        ).reverse(),
{
    lemma_pow256_values();
    law_int_bytes_modular(e, a as int, 2);
    law_int_bytes_modular(e, b as int, 4);
    law_int_bytes_modular(e, c as int, 8);
    law_int_bytes_modular(e, d as int, 16);
}

/// One-byte values: a boolean is one byte that is `1` exactly when it is true and
/// `0` otherwise; a `u8` is itself; an `i8` is its two's complement byte; an absent
/// optional value is the byte `0` and a present one starts with the byte `1`.
/// None of these depends on the byte order.
pub proof fn law_single_bytes(e: Endian, flag: bool, u: u8, i: i8)
    ensures
        encoding(e, Token::Bool(flag)).len() == 1,
        (encoding(e, Token::Bool(flag))[0] == 1) == flag,
        (encoding(e, Token::Bool(flag))[0] == 0) == !flag,
        encoding(e, Token::U8(u)) == seq![u],
        encoding(e, Token::I8(i)).len() == 1,
        encoding(e, Token::I8(i))[0] as int == if i >= 0 {
            i as int
        } else {
            i + 0x100
        },
        encoding(e, Token::NoneTag) == seq![0u8],
        encoding(e, Token::SomeTag) == seq![1u8],
        encoding(Endian::Little, Token::I8(i)) == encoding(Endian::Big, Token::I8(i)),
        encoding(Endian::Little, Token::Bool(flag)) == encoding(Endian::Big, Token::Bool(flag)),
{
    let x = i;
    assert((x as u8) as int == if x >= 0 { x as int } else { x + 0x100 }) by (bit_vector);
}

/// A sequence or map header is eight bytes that read back, in the byte order of
/// the options, as the announced length; it is the same as writing the length as
/// a `u64`.
pub proof fn law_length_headers(e: Endian, n: usize)
    ensures
        encoding(e, Token::SeqLen(n)).len() == 8,
        int_value(e, encoding(e, Token::SeqLen(n))) == n,
        encoding(e, Token::SeqLen(n)) == encoding(e, Token::U64(n as u64)),
        encoding(e, Token::MapLen(n)).len() == 8,
        int_value(e, encoding(e, Token::MapLen(n))) == n,
        encoding(e, Token::MapLen(n)) == encoding(e, Token::U64(n as u64)),
{
    lemma_pow256_values();
    law_int_bytes_modular(e, n as int, 8);
}

/// Every kind of enum variant header is four bytes that read back, in the byte
/// order of the options, as the variant index; it is the same as writing the
/// index as a `u32`.
pub proof fn law_variant_headers(e: Endian, i: u32)
    ensures
        encoding(e, Token::UnitVariant(i)).len() == 4,
        int_value(e, encoding(e, Token::UnitVariant(i))) == i,
        encoding(e, Token::UnitVariant(i)) == encoding(e, Token::U32(i)),
        encoding(e, Token::NewtypeVariant(i)).len() == 4,
        int_value(e, encoding(e, Token::NewtypeVariant(i))) == i,
        encoding(e, Token::NewtypeVariant(i)) == encoding(e, Token::U32(i)),
        encoding(e, Token::TupleVariant(i)).len() == 4,
        int_value(e, encoding(e, Token::TupleVariant(i))) == i,
        encoding(e, Token::TupleVariant(i)) == encoding(e, Token::U32(i)),
        encoding(e, Token::StructVariant(i)).len() == 4,
        int_value(e, encoding(e, Token::StructVariant(i))) == i,
        encoding(e, Token::StructVariant(i)) == encoding(e, Token::U32(i)),
{
    lemma_pow256_values();
    law_int_bytes_modular(e, i as int, 4);
}

/// The unit value, unit structs, and the openings of tuples, tuple structs,
/// structs and newtype structs write no bytes.
pub proof fn law_empty_steps(e: Endian)
    ensures
        encoding(e, Token::Unit).len() == 0,
        encoding(e, Token::UnitStruct).len() == 0,
        encoding(e, Token::Tuple).len() == 0,
        encoding(e, Token::TupleStruct).len() == 0,
        encoding(e, Token::Struct).len() == 0,
        encoding(e, Token::NewtypeStruct).len() == 0,
{
}

} // verus!
