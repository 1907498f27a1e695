use vstd::prelude::*;

use crate::config::{Endian, SizeLimit};
use crate::error::ErrorKind;

verus! {

/// The `n` lowest bytes of `x` in two's complement, least significant first.
pub open spec fn le_bytes(x: int, n: nat) -> Seq<u8>
    decreases n,
{
    if n == 0 {
        Seq::empty()
    } else {
        seq![(x % 256) as u8] + le_bytes(x / 256, (n - 1) as nat)
    }
}

/// The `n` lowest bytes of `x` in two's complement, most significant first.
pub open spec fn be_bytes(x: int, n: nat) -> Seq<u8> {
    le_bytes(x, n).reverse()
}

/// The `n` lowest bytes of `x` in the byte order `e`.
pub open spec fn int_bytes(e: Endian, x: int, n: nat) -> Seq<u8> {
    match e {
        Endian::Little => le_bytes(x, n),
        Endian::Big => be_bytes(x, n),
    }
}

/// `256` raised to the power `n`.
pub open spec fn pow256(n: nat) -> nat
    decreases n,
{
    if n == 0 {
        1
    } else {
        256 * pow256((n - 1) as nat)
    }
}

/// The unsigned number that the bytes `s` stand for, least significant first.
pub open spec fn le_value(s: Seq<u8>) -> int
    decreases s.len(),
{
    if s.len() == 0 {
        0
    } else {
        s[0] + 256 * le_value(s.drop_first())
    }
}

/// The unsigned number that the bytes `s` stand for in the byte order `e`.
pub open spec fn int_value(e: Endian, s: Seq<u8>) -> int {
    match e {
        Endian::Little => le_value(s),
        Endian::Big => le_value(s.reverse()),
    }
}

/// One step of the serde data model, as a serializer sees it.
///
/// The contents of a compound value (elements, fields, keys, values) are
/// steps of their own; opening a compound value is the step listed here.
pub enum Token {
    Unit,
    UnitStruct,
    Bool(bool),
    U8(u8),
    U16(u16),
    U32(u32),
    U64(u64),
    U128(u128),
    I8(i8),
    I16(i16),
    I32(i32),
    I64(i64),
    I128(i128),
    /// A string, given by its UTF-8 bytes.
    Str(Seq<u8>),
    Char(char),
    Bytes(Seq<u8>),
    /// An absent optional value.
    NoneTag,
    /// The start of a present optional value.
    SomeTag,
    /// The start of a sequence of the given length.
    SeqLen(usize),
    Tuple,
    TupleStruct,
    /// The start of a tuple variant with the given index.
    TupleVariant(u32),
    /// The start of a map with the given number of entries.
    MapLen(usize),
    Struct,
    /// The start of a struct variant with the given index.
    StructVariant(u32),
    NewtypeStruct,
    /// The start of a newtype variant with the given index.
    NewtypeVariant(u32),
    /// A unit variant with the given index.
    UnitVariant(u32),
}

/// The bytes that the serializer writes for the step `t` in byte order `e`.
pub open spec fn encoding(e: Endian, t: Token) -> Seq<u8> {
    match t {
        Token::Unit => Seq::empty(),
        Token::UnitStruct => Seq::empty(),
        Token::Bool(b) => seq![if b { 1u8 } else { 0u8 }],
        Token::U8(v) => seq![v],
        Token::U16(v) => int_bytes(e, v as int, 2),
        Token::U32(v) => int_bytes(e, v as int, 4),
        Token::U64(v) => int_bytes(e, v as int, 8),
        Token::U128(v) => int_bytes(e, v as int, 16),
        Token::I8(v) => seq![v as u8],
        Token::I16(v) => int_bytes(e, v as int, 2),
        Token::I32(v) => int_bytes(e, v as int, 4),
        Token::I64(v) => int_bytes(e, v as int, 8),
        Token::I128(v) => int_bytes(e, v as int, 16),
        Token::Str(s) => int_bytes(e, s.len() as int, 8) + s,
        Token::Char(c) => vstd::utf8::encode_scalar(c as u32),
        Token::Bytes(s) => int_bytes(e, s.len() as int, 8) + s,
        Token::NoneTag => seq![0u8],
        Token::SomeTag => seq![1u8],
        Token::SeqLen(n) => int_bytes(e, n as int, 8),
        Token::Tuple => Seq::empty(),
        Token::TupleStruct => Seq::empty(),
        Token::TupleVariant(i) => int_bytes(e, i as int, 4),
        Token::MapLen(n) => int_bytes(e, n as int, 8),
        Token::Struct => Seq::empty(),
        Token::StructVariant(i) => int_bytes(e, i as int, 4),
        Token::NewtypeStruct => Seq::empty(),
        Token::NewtypeVariant(i) => int_bytes(e, i as int, 4),
        Token::UnitVariant(i) => int_bytes(e, i as int, 4),
    }
}

/// The byte counts that the size checker charges, in order, for the step `t`.
pub open spec fn charges(t: Token) -> Seq<nat> {
    match t {
        Token::Unit => Seq::empty(),
        Token::UnitStruct => Seq::empty(),
        Token::Bool(_) => seq![1nat],
        Token::U8(_) => seq![1nat],
        Token::U16(_) => seq![2nat],
        Token::U32(_) => seq![4nat],
        Token::U64(_) => seq![8nat],
        Token::U128(_) => seq![16nat],
        Token::I8(_) => seq![1nat],
        Token::I16(_) => seq![2nat],
        Token::I32(_) => seq![4nat],
        Token::I64(_) => seq![8nat],
        Token::I128(_) => seq![16nat],
        Token::Str(s) => seq![8nat, s.len()],
        Token::Char(c) => seq![vstd::utf8::encode_scalar(c as u32).len()],
        Token::Bytes(s) => seq![8nat, s.len()],
        Token::NoneTag => seq![1nat],
        Token::SomeTag => seq![1nat],
        Token::SeqLen(_) => seq![8nat],
        Token::Tuple => Seq::empty(),
        Token::TupleStruct => Seq::empty(),
        Token::TupleVariant(_) => seq![4nat],
        Token::MapLen(_) => seq![8nat],
        Token::Struct => Seq::empty(),
        Token::StructVariant(_) => seq![4nat],
        Token::NewtypeStruct => Seq::empty(),
        Token::NewtypeVariant(_) => seq![4nat],
        Token::UnitVariant(_) => seq![4nat],
    }
}

/// The sum of the byte counts `cs`.
pub open spec fn total(cs: Seq<nat>) -> nat
    decreases cs.len(),
{
    if cs.len() == 0 {
        0
    } else {
        cs[0] + total(cs.drop_first())
    }
}

/// Charging `n` bytes against the budget `l`: the outcome and the budget after it.
pub open spec fn step(l: SizeLimit, n: nat) -> (Result<(), ErrorKind>, SizeLimit) {
    match l.after_add(n) {
        Some(l2) => (Ok(()), l2),
        None => (Err(ErrorKind::SizeLimit), l),
    }
}

/// Charging the byte counts `cs` one after the other, stopping at the first that
/// does not fit: the outcome and the budget after it.
pub open spec fn apply_charges(l: SizeLimit, cs: Seq<nat>) -> (Result<(), ErrorKind>, SizeLimit)
    decreases cs.len(),
{
    if cs.len() == 0 {
        (Ok(()), l)
    } else {
        let (r, l2) = step(l, cs[0]);
        if r is Ok {
            apply_charges(l2, cs.drop_first())
        } else {
            (r, l2)
        }
    }
}

/// The bytes that the serializer writes for the steps `ts` in byte order `e`.
pub open spec fn encode_all(e: Endian, ts: Seq<Token>) -> Seq<u8>
    decreases ts.len(),
{
    if ts.len() == 0 {
        Seq::empty()
    } else {
        encoding(e, ts[0]) + encode_all(e, ts.drop_first())
    }
}

/// Running the size checker over the steps `ts` from the budget `l`, stopping at
/// the first step that fails: the outcome and the budget after it.
pub open spec fn check_all(l: SizeLimit, ts: Seq<Token>) -> (Result<(), ErrorKind>, SizeLimit)
    decreases ts.len(),
{
    if ts.len() == 0 {
        (Ok(()), l)
    } else {
        let (r, l2) = apply_charges(l, charges(ts[0]));
        if r is Ok {
            check_all(l2, ts.drop_first())
        } else {
            (r, l2)
        }
    }
}

/// Charging a single byte count is one step.
pub proof fn lemma_apply_one(l: SizeLimit, n: nat)
    ensures
        apply_charges(l, seq![n]) == step(l, n),
{
    reveal_with_fuel(apply_charges, 2);
    assert(seq![n].drop_first() =~= Seq::<nat>::empty());
}

/// Charging two byte counts is one step, then the other if the first succeeded.
pub proof fn lemma_apply_two(l: SizeLimit, a: nat, b: nat)
    ensures
        apply_charges(l, seq![a, b]) == (if step(l, a).0 is Ok {
            step(step(l, a).1, b)
        } else {
            step(l, a)
        }),
{
    assert(seq![a, b].drop_first() =~= seq![b]);
    lemma_apply_one(step(l, a).1, b);
}

} // verus!
