use vstd::prelude::*;
use vstd::string::StringSliceAdditionalSpecFns;

use crate::config::{Endian, Options};
use crate::error::ErrorKind;
use crate::format::{
    apply_charges, charges, encoding, lemma_apply_one, lemma_apply_two, step, Token,
};
use crate::order::{
    be_i128, be_i16, be_i32, be_i64, be_u128, be_u16, be_u32, be_u64, char_encode_utf8, le_i128,
    le_i16, le_i32, le_i64, le_u128, le_u16, le_u32,
    le_u64,
};

verus! {

broadcast use vstd::layout::layout_of_primitives;

/// A serializer that appends the encoding of each value to an owned byte buffer.
///
/// The byte order of its options decides the order in which multi-byte
/// integers are written.
pub struct Serializer {
    writer: Vec<u8>,
    options: Options,
}

impl View for Serializer {
    type V = Seq<u8>;

    /// The bytes written so far.
    closed spec fn view(&self) -> Seq<u8> {
        self.writer@
    }
}

impl Serializer {
    /// The options the serializer runs with.
    pub closed spec fn opts(&self) -> Options {
        self.options
    }

    /// `self` is `before` with the encoding of `t` appended and the same options.
    pub open spec fn wrote(self, before: Serializer, t: Token) -> bool {
        &&& self@ == before@ + encoding(before.opts().endian, t)
        &&& self.opts() == before.opts()
    }

    /// Creates a serializer that appends to the bytes already in `w`.
    pub fn new(w: Vec<u8>, options: Options) -> (s: Serializer)
        ensures
            s@ == w@,
            s.opts() == options,
    {
        Serializer { writer: w, options: options }
    }

    fn write_byte(&mut self, b: u8)
        ensures
            final(self)@ == old(self)@ + seq![b],
            final(self).opts() == old(self).opts(),
    {
        self.writer.push(b);
        assert(self.writer@ =~= old(self).writer@ + seq![b]);
    }

    fn write_all(&mut self, bytes: &[u8])
        ensures
            final(self)@ == old(self)@ + bytes@,
            final(self).opts() == old(self).opts(),
    {
        let mut i: usize = 0;
        while i < bytes.len()
            invariant
                i <= bytes@.len(),
                self.writer@ == old(self).writer@ + bytes@.subrange(0, i as int),
                self.options == old(self).options,
            decreases bytes@.len() - i,
        {
            self.writer.push(bytes[i]);
            i = i + 1;
            assert(bytes@.subrange(0, i as int) == bytes@.subrange(0, i - 1) + seq![bytes@[i - 1]]);
        }
        assert(bytes@.subrange(0, i as int) == bytes@);
    }

    /// The unit value is written as nothing.
    pub fn serialize_unit(&mut self) -> (r: Result<(), ErrorKind>)
        ensures
            r is Ok,
            final(self).wrote(*old(self), Token::Unit),
    {
        Ok(())
    }

    /// A unit struct is written as nothing.
    pub fn serialize_unit_struct(&mut self, _name: &str) -> (r: Result<(), ErrorKind>)
        ensures
            r is Ok,
            final(self).wrote(*old(self), Token::UnitStruct),
    {
        Ok(())
    }

    /// A boolean is written as one byte, `1` for true and `0` for false.
    pub fn serialize_bool(&mut self, v: bool) -> (r: Result<(), ErrorKind>)
        ensures
            r is Ok,
            final(self).wrote(*old(self), Token::Bool(v)),
    {
        self.write_byte(if v { 1u8 } else { 0u8 });
        Ok(())
    }

    /// An unsigned byte is written as itself.
    pub fn serialize_u8(&mut self, v: u8) -> (r: Result<(), ErrorKind>)
        ensures
            r is Ok,
            final(self).wrote(*old(self), Token::U8(v)),
    {
        self.write_byte(v);
        Ok(())
    }

    /// An unsigned integer is written in 2 bytes, in the byte order of the options.
    pub fn serialize_u16(&mut self, v: u16) -> (r: Result<(), ErrorKind>)
        ensures
            r is Ok,
            final(self).wrote(*old(self), Token::U16(v)),
    {
        let b = match self.options.endian {
            Endian::Little => le_u16(v),
            Endian::Big => be_u16(v),
        };
        self.write_all(&b);
        Ok(())
    }

    /// An unsigned integer is written in 4 bytes, in the byte order of the options.
    pub fn serialize_u32(&mut self, v: u32) -> (r: Result<(), ErrorKind>)
        ensures
            r is Ok,
            final(self).wrote(*old(self), Token::U32(v)),
    {
        let b = match self.options.endian {
            Endian::Little => le_u32(v),
            Endian::Big => be_u32(v),
        };
        self.write_all(&b);
        Ok(())
    }

    /// An unsigned integer is written in 8 bytes, in the byte order of the options.
    pub fn serialize_u64(&mut self, v: u64) -> (r: Result<(), ErrorKind>)
        ensures
            r is Ok,
            final(self).wrote(*old(self), Token::U64(v)),
    {
        let b = match self.options.endian {
            Endian::Little => le_u64(v),
            Endian::Big => be_u64(v),
        };
        self.write_all(&b);
        Ok(())
    }

    /// A signed byte is written as its two's complement byte.
    pub fn serialize_i8(&mut self, v: i8) -> (r: Result<(), ErrorKind>)
        ensures
            r is Ok,
            final(self).wrote(*old(self), Token::I8(v)),
    {
        self.write_byte(v as u8);
        Ok(())
    }

    /// An signed integer is written in 2 bytes, in the byte order of the options.
    pub fn serialize_i16(&mut self, v: i16) -> (r: Result<(), ErrorKind>)
        ensures
            r is Ok,
            final(self).wrote(*old(self), Token::I16(v)),
    {
        let b = match self.options.endian {
            Endian::Little => le_i16(v),
            Endian::Big => be_i16(v),
        };
        self.write_all(&b);
        Ok(())
    }

    /// An signed integer is written in 4 bytes, in the byte order of the options.
    pub fn serialize_i32(&mut self, v: i32) -> (r: Result<(), ErrorKind>)
        ensures
            r is Ok,
            final(self).wrote(*old(self), Token::I32(v)),
    {
        let b = match self.options.endian {
            Endian::Little => le_i32(v),
            Endian::Big => be_i32(v),
        };
        self.write_all(&b);
        Ok(())
    }

    /// An signed integer is written in 8 bytes, in the byte order of the options.
    pub fn serialize_i64(&mut self, v: i64) -> (r: Result<(), ErrorKind>)
        ensures
            r is Ok,
            final(self).wrote(*old(self), Token::I64(v)),
    {
        let b = match self.options.endian {
            Endian::Little => le_i64(v),
            Endian::Big => be_i64(v),
        };
        self.write_all(&b);
        Ok(())
    }

    /// An unsigned integer is written in 16 bytes, in the byte order of the options.
    pub fn serialize_u128(&mut self, v: u128) -> (r: Result<(), ErrorKind>)
        ensures
            r is Ok,
            final(self).wrote(*old(self), Token::U128(v)),
    {
        let b = match self.options.endian {
            Endian::Little => le_u128(v),
            Endian::Big => be_u128(v),
        };
        self.write_all(&b);
        Ok(())
    }

    /// An signed integer is written in 16 bytes, in the byte order of the options.
    pub fn serialize_i128(&mut self, v: i128) -> (r: Result<(), ErrorKind>)
        ensures
            r is Ok,
            final(self).wrote(*old(self), Token::I128(v)),
    {
        let b = match self.options.endian {
            Endian::Little => le_i128(v),
            Endian::Big => be_i128(v),
        };
        self.write_all(&b);
        Ok(())
    }

    /// A string is written as its length in bytes, as a `u64`, then its UTF-8 bytes.
    pub fn serialize_str(&mut self, v: &str) -> (r: Result<(), ErrorKind>)
        ensures
            r is Ok,
            final(self).wrote(*old(self), Token::Str(v.spec_bytes())),
    {
        let ghost start = self@;
        let bytes = v.as_bytes();
        assert(bytes@.len() == bytes.len());
        self.serialize_u64(v.len() as u64)?;
        let ghost prefix = encoding(self.opts().endian, Token::U64(v.len() as u64));
        self.write_all(bytes);
        assert(self@ =~= start + (prefix + v.spec_bytes()));
        Ok(())
    }

    /// A character is written as its UTF-8 encoding, with no length in front.
    pub fn serialize_char(&mut self, c: char) -> (r: Result<(), ErrorKind>)
        ensures
            r is Ok,
            final(self).wrote(*old(self), Token::Char(c)),
    {
        let enc = encode_utf8(c);
        self.write_all(enc.as_slice());
        Ok(())
    }

    /// A byte string is written as its length, as a `u64`, then its bytes.
    pub fn serialize_bytes(&mut self, v: &[u8]) -> (r: Result<(), ErrorKind>)
        ensures
            r is Ok,
            final(self).wrote(*old(self), Token::Bytes(v@)),
    {
        let ghost start = self@;
        self.serialize_u64(v.len() as u64)?;
        let ghost prefix = encoding(self.opts().endian, Token::U64(v.len() as u64));
        self.write_all(v);
        assert(self@ =~= start + (prefix + v@));
        Ok(())
    }

    /// An absent optional value is written as the byte `0`.
    pub fn serialize_none(&mut self) -> (r: Result<(), ErrorKind>)
        ensures
            r is Ok,
            final(self).wrote(*old(self), Token::NoneTag),
    {
        self.write_byte(0u8);
        Ok(())
    }

    /// A present optional value starts with the byte `1`; the value itself follows
    /// as the next steps.
    pub fn serialize_some(&mut self) -> (r: Result<(), ErrorKind>)
        ensures
            r is Ok,
            final(self).wrote(*old(self), Token::SomeTag),
    {
        self.write_byte(1u8);
        Ok(())
    }

    /// A sequence starts with its length as a `u64`; a sequence of unknown length
    /// is refused and nothing is written.
    pub fn serialize_seq(&mut self, len: Option<usize>) -> (r: Result<(), ErrorKind>)
        ensures
            match len {
                Some(n) => r is Ok && final(self).wrote(*old(self), Token::SeqLen(n)),
                None => r == Err::<(), ErrorKind>(ErrorKind::SequenceMustHaveLength)
                    && *final(self) == *old(self),
            },
    {
        let len = match len {
            Some(n) => n,
            None => return Err(ErrorKind::SequenceMustHaveLength),
        };
        self.serialize_u64(len as u64)?;
        Ok(())
    }

    /// A tuple has no header; its elements follow as the next steps.
    pub fn serialize_tuple(&mut self, _len: usize) -> (r: Result<(), ErrorKind>)
        ensures
            r is Ok,
            final(self).wrote(*old(self), Token::Tuple),
    {
        Ok(())
    }

    /// A tuple struct has no header; its fields follow as the next steps.
    pub fn serialize_tuple_struct(&mut self, _name: &str, _len: usize) -> (r: Result<(), ErrorKind>)
        ensures
            r is Ok,
            final(self).wrote(*old(self), Token::TupleStruct),
    {
        Ok(())
    }

    /// A tuple variant starts with its index as a `u32`; its fields follow.
    pub fn serialize_tuple_variant(
        &mut self,
        _name: &str,
        variant_index: u32,
        _variant: &str,
        _len: usize,
    ) -> (r: Result<(), ErrorKind>)
        ensures
            r is Ok,
            final(self).wrote(*old(self), Token::TupleVariant(variant_index)),
    {
        self.serialize_u32(variant_index)
    }

    /// A map starts with its number of entries as a `u64`; a map of unknown size
    /// is refused and nothing is written.
    pub fn serialize_map(&mut self, len: Option<usize>) -> (r: Result<(), ErrorKind>)
        ensures
            match len {
                Some(n) => r is Ok && final(self).wrote(*old(self), Token::MapLen(n)),
                None => r == Err::<(), ErrorKind>(ErrorKind::SequenceMustHaveLength)
                    && *final(self) == *old(self),
            },
    {
        let len = match len {
            Some(n) => n,
            None => return Err(ErrorKind::SequenceMustHaveLength),
        };
        self.serialize_u64(len as u64)?;
        Ok(())
    }

    /// A struct has no header; its fields follow as the next steps.
    pub fn serialize_struct(&mut self, _name: &str, _len: usize) -> (r: Result<(), ErrorKind>)
        ensures
            r is Ok,
            final(self).wrote(*old(self), Token::Struct),
    {
        Ok(())
    }

    /// A struct variant starts with its index as a `u32`; its fields follow.
    pub fn serialize_struct_variant(
        &mut self,
        _name: &str,
        variant_index: u32,
        _variant: &str,
        _len: usize,
    ) -> (r: Result<(), ErrorKind>)
        ensures
            r is Ok,
            final(self).wrote(*old(self), Token::StructVariant(variant_index)),
    {
        self.serialize_u32(variant_index)
    }

    /// A newtype struct has no header; the wrapped value follows as the next steps.
    pub fn serialize_newtype_struct(&mut self, _name: &str) -> (r: Result<(), ErrorKind>)
        ensures
            r is Ok,
            final(self).wrote(*old(self), Token::NewtypeStruct),
    {
        Ok(())
    }

    /// A newtype variant starts with its index as a `u32`; the wrapped value follows.
    pub fn serialize_newtype_variant(
        &mut self,
        _name: &str,
        variant_index: u32,
        _variant: &str,
    ) -> (r: Result<(), ErrorKind>)
        ensures
            r is Ok,
            final(self).wrote(*old(self), Token::NewtypeVariant(variant_index)),
    {
        self.serialize_u32(variant_index)
    }

    /// A unit variant is written as its index, as a `u32`.
    pub fn serialize_unit_variant(
        &mut self,
        _name: &str,
        variant_index: u32,
        _variant: &str,
    ) -> (r: Result<(), ErrorKind>)
        ensures
            r is Ok,
            final(self).wrote(*old(self), Token::UnitVariant(variant_index)),
    {
        self.serialize_u32(variant_index)
    }

    /// The encoding is binary, not meant for people to read.
    pub fn is_human_readable(&self) -> (r: bool)
        ensures
            !r,
    {
        false
    }

    /// The options the serializer runs with.
    pub fn options(&self) -> (o: Options)
        ensures
            o == self.opts(),
    {
        self.options
    }

    /// The bytes written so far.
    pub fn output(&self) -> (o: &Vec<u8>)
        ensures
            o@ == self@,
    {
        &self.writer
    }

    /// Hands out the bytes written so far and goes on with an empty buffer.
    pub fn take_bytes(&mut self) -> (b: Vec<u8>)
        ensures
            b@ == old(self)@,
            final(self)@ == Seq::<u8>::empty(),
            final(self).opts() == old(self).opts(),
    {
        let mut out: Vec<u8> = Vec::new();
        core::mem::swap(&mut out, &mut self.writer);
        out
    }

    /// Consumes the serializer, returning the bytes it holds.
    pub fn into_inner(self) -> (w: Vec<u8>)
        ensures
            w@ == self@,
    {
        self.writer
    }
}

/// Counts the bytes that serializing would produce, charging each against the
/// size limit of its options, without producing any.
pub struct SizeChecker {
    pub options: Options,
}

impl SizeChecker {
    /// `self` is `before` after charging the byte counts of `t` against its limit,
    /// with `r` the outcome; the byte order is kept.
    pub open spec fn charged(self, before: SizeChecker, r: Result<(), ErrorKind>, t: Token) -> bool {
        &&& (r, self.options.limit) == apply_charges(before.options.limit, charges(t))
        &&& self.options.endian == before.options.endian
    }

    /// Creates a size checker with the budget and byte order of `options`.
    pub fn new(options: Options) -> (s: SizeChecker)
        ensures
            s.options == options,
    {
        SizeChecker { options: options }
    }

    fn add_raw(&mut self, size: u64) -> (r: Result<(), ErrorKind>)
        ensures
            (r, final(self).options.limit) == step(old(self).options.limit, size as nat),
            final(self).options.endian == old(self).options.endian,
    {
        self.options.limit.add(size)
    }

    fn add_value<T>(&mut self, t: T) -> (r: Result<(), ErrorKind>)
        ensures
            (r, final(self).options.limit) == step(
                old(self).options.limit,
                vstd::layout::size_of::<T>(),
            ),
            final(self).options.endian == old(self).options.endian,
    {
        let size = core::mem::size_of::<T>();
        self.add_raw(size as u64)
    }

    /// Costs nothing.
    pub fn serialize_unit(&mut self) -> (r: Result<(), ErrorKind>)
        ensures
            final(self).charged(*old(self), r, Token::Unit),
    {
        Ok(())
    }

    /// Costs nothing.
    pub fn serialize_unit_struct(&mut self, _name: &str) -> (r: Result<(), ErrorKind>)
        ensures
            final(self).charged(*old(self), r, Token::UnitStruct),
    {
        Ok(())
    }

    /// Costs one byte.
    pub fn serialize_bool(&mut self, _v: bool) -> (r: Result<(), ErrorKind>)
        ensures
            final(self).charged(*old(self), r, Token::Bool(_v)),
    {
        proof {
            lemma_apply_one(self.options.limit, charges(Token::Bool(_v))[0]);
        }
        self.add_value(0u8)
    }

    /// An unsigned integer of 1 byte costs 1 byte.
    pub fn serialize_u8(&mut self, v: u8) -> (r: Result<(), ErrorKind>)
        ensures
            final(self).charged(*old(self), r, Token::U8(v)),
    {
        proof {
            lemma_apply_one(self.options.limit, charges(Token::U8(v))[0]);
        }
        self.add_value(v)
    }

    /// An unsigned integer of 2 bytes costs 2 bytes.
    pub fn serialize_u16(&mut self, v: u16) -> (r: Result<(), ErrorKind>)
        ensures
            final(self).charged(*old(self), r, Token::U16(v)),
    {
        proof {
            lemma_apply_one(self.options.limit, charges(Token::U16(v))[0]);
        }
        self.add_value(v)
    }

    /// An unsigned integer of 4 bytes costs 4 bytes.
    pub fn serialize_u32(&mut self, v: u32) -> (r: Result<(), ErrorKind>)
        ensures
            final(self).charged(*old(self), r, Token::U32(v)),
    {
        proof {
            lemma_apply_one(self.options.limit, charges(Token::U32(v))[0]);
        }
        self.add_value(v)
    }

    /// An unsigned integer of 8 bytes costs 8 bytes.
    pub fn serialize_u64(&mut self, v: u64) -> (r: Result<(), ErrorKind>)
        ensures
            final(self).charged(*old(self), r, Token::U64(v)),
    {
        proof {
            lemma_apply_one(self.options.limit, charges(Token::U64(v))[0]);
        }
        self.add_value(v)
    }

    /// An unsigned integer of 16 bytes costs 16 bytes.
    pub fn serialize_u128(&mut self, v: u128) -> (r: Result<(), ErrorKind>)
        ensures
            final(self).charged(*old(self), r, Token::U128(v)),
    {
        proof {
            lemma_apply_one(self.options.limit, charges(Token::U128(v))[0]);
        }
        self.add_value(v)
    }

    /// An signed integer of 1 byte costs 1 byte.
    pub fn serialize_i8(&mut self, v: i8) -> (r: Result<(), ErrorKind>)
        ensures
            final(self).charged(*old(self), r, Token::I8(v)),
    {
        proof {
            lemma_apply_one(self.options.limit, charges(Token::I8(v))[0]);
        }
        self.add_value(v)
    }

    /// An signed integer of 2 bytes costs 2 bytes.
    pub fn serialize_i16(&mut self, v: i16) -> (r: Result<(), ErrorKind>)
        ensures
            final(self).charged(*old(self), r, Token::I16(v)),
    {
        proof {
            lemma_apply_one(self.options.limit, charges(Token::I16(v))[0]);
        }
        self.add_value(v)
    }

    /// An signed integer of 4 bytes costs 4 bytes.
    pub fn serialize_i32(&mut self, v: i32) -> (r: Result<(), ErrorKind>)
        ensures
            final(self).charged(*old(self), r, Token::I32(v)),
    {
        proof {
            lemma_apply_one(self.options.limit, charges(Token::I32(v))[0]);
        }
        self.add_value(v)
    }

    /// An signed integer of 8 bytes costs 8 bytes.
    pub fn serialize_i64(&mut self, v: i64) -> (r: Result<(), ErrorKind>)
        ensures
            final(self).charged(*old(self), r, Token::I64(v)),
    {
        proof {
            lemma_apply_one(self.options.limit, charges(Token::I64(v))[0]);
        }
        self.add_value(v)
    }

    /// An signed integer of 16 bytes costs 16 bytes.
    pub fn serialize_i128(&mut self, v: i128) -> (r: Result<(), ErrorKind>)
        ensures
            final(self).charged(*old(self), r, Token::I128(v)),
    {
        proof {
            lemma_apply_one(self.options.limit, charges(Token::I128(v))[0]);
        }
        self.add_value(v)
    }

    /// A string costs eight bytes for its length, then its length in bytes.
    pub fn serialize_str(&mut self, v: &str) -> (r: Result<(), ErrorKind>)
        ensures
            final(self).charged(*old(self), r, Token::Str(v.spec_bytes())),
    {
        proof {
            lemma_apply_two(self.options.limit, 8, v.spec_bytes().len());
        }
        let bytes = v.as_bytes();
        assert(bytes@.len() == bytes.len());
        self.add_value(0u64)?;
        self.add_raw(v.len() as u64)
    }

    /// A character costs the length of its UTF-8 encoding.
    pub fn serialize_char(&mut self, c: char) -> (r: Result<(), ErrorKind>)
        ensures
            final(self).charged(*old(self), r, Token::Char(c)),
    {
        proof {
            lemma_apply_one(self.options.limit, vstd::utf8::encode_scalar(c as u32).len());
        }
        self.add_raw(encode_utf8(c).as_slice().len() as u64)
    }

    /// A byte string costs eight bytes for its length, then its length.
    pub fn serialize_bytes(&mut self, v: &[u8]) -> (r: Result<(), ErrorKind>)
        ensures
            final(self).charged(*old(self), r, Token::Bytes(v@)),
    {
        proof {
            lemma_apply_two(self.options.limit, 8, v@.len());
        }
        self.add_value(0u64)?;
        self.add_raw(v.len() as u64)
    }

    /// Costs one byte.
    pub fn serialize_none(&mut self) -> (r: Result<(), ErrorKind>)
        ensures
            final(self).charged(*old(self), r, Token::NoneTag),
    {
        proof {
            lemma_apply_one(self.options.limit, charges(Token::NoneTag)[0]);
        }
        self.add_value(0u8)
    }

    /// The tag of a present optional value; the value itself follows as the next steps.
    pub fn serialize_some(&mut self) -> (r: Result<(), ErrorKind>)
        ensures
            final(self).charged(*old(self), r, Token::SomeTag),
    {
        proof {
            lemma_apply_one(self.options.limit, charges(Token::SomeTag)[0]);
        }
        self.add_value(1u8)
    }

    /// The length costs eight bytes; an unknown length is refused and nothing is charged.
    pub fn serialize_seq(&mut self, len: Option<usize>) -> (r: Result<(), ErrorKind>)
        ensures
            match len {
                Some(n) => final(self).charged(*old(self), r, Token::SeqLen(n)),
                None => r == Err::<(), ErrorKind>(ErrorKind::SequenceMustHaveLength)
                    && *final(self) == *old(self),
            },
    {
        let len = match len {
            Some(n) => n,
            None => return Err(ErrorKind::SequenceMustHaveLength),
        };
        self.serialize_u64(len as u64)?;
        Ok(())
    }

    /// The length costs eight bytes; an unknown length is refused and nothing is charged.
    pub fn serialize_map(&mut self, len: Option<usize>) -> (r: Result<(), ErrorKind>)
        ensures
            match len {
                Some(n) => final(self).charged(*old(self), r, Token::MapLen(n)),
                None => r == Err::<(), ErrorKind>(ErrorKind::SequenceMustHaveLength)
                    && *final(self) == *old(self),
            },
    {
        let len = match len {
            Some(n) => n,
            None => return Err(ErrorKind::SequenceMustHaveLength),
        };
        self.serialize_u64(len as u64)?;
        Ok(())
    }

    /// Costs nothing.
    pub fn serialize_tuple(&mut self, _len: usize) -> (r: Result<(), ErrorKind>)
        ensures
            final(self).charged(*old(self), r, Token::Tuple),
    {
        Ok(())
    }

    /// Costs nothing.
    pub fn serialize_tuple_struct(&mut self, _name: &str, _len: usize) -> (r: Result<(), ErrorKind>)
        ensures
            final(self).charged(*old(self), r, Token::TupleStruct),
    {
        Ok(())
    }

    /// The variant index costs four bytes.
    pub fn serialize_tuple_variant(
        &mut self,
        _name: &str,
        variant_index: u32,
        _variant: &str,
        _len: usize,
    ) -> (r: Result<(), ErrorKind>)
        ensures
            final(self).charged(*old(self), r, Token::TupleVariant(variant_index)),
    {
        proof {
            lemma_apply_one(self.options.limit, 4);
        }
        self.add_value(variant_index)?;
        Ok(())
    }

    /// Costs nothing.
    pub fn serialize_struct(&mut self, _name: &str, _len: usize) -> (r: Result<(), ErrorKind>)
        ensures
            final(self).charged(*old(self), r, Token::Struct),
    {
        Ok(())
    }

    /// The variant index costs four bytes.
    pub fn serialize_struct_variant(
        &mut self,
        _name: &str,
        variant_index: u32,
        _variant: &str,
        _len: usize,
    ) -> (r: Result<(), ErrorKind>)
        ensures
            final(self).charged(*old(self), r, Token::StructVariant(variant_index)),
    {
        proof {
            lemma_apply_one(self.options.limit, 4);
        }
        self.add_value(variant_index)?;
        Ok(())
    }

    /// Costs nothing.
    pub fn serialize_newtype_struct(&mut self, _name: &str) -> (r: Result<(), ErrorKind>)
        ensures
            final(self).charged(*old(self), r, Token::NewtypeStruct),
    {
        Ok(())
    }

    /// The variant index costs four bytes.
    pub fn serialize_unit_variant(
        &mut self,
        _name: &str,
        variant_index: u32,
        _variant: &str,
    ) -> (r: Result<(), ErrorKind>)
        ensures
            final(self).charged(*old(self), r, Token::UnitVariant(variant_index)),
    {
        proof {
            lemma_apply_one(self.options.limit, 4);
        }
        self.add_value(variant_index)
    }

    /// The variant index costs four bytes; the wrapped value follows as the next steps.
    pub fn serialize_newtype_variant(
        &mut self,
        _name: &str,
        variant_index: u32,
        _variant: &str,
    ) -> (r: Result<(), ErrorKind>)
        ensures
            final(self).charged(*old(self), r, Token::NewtypeVariant(variant_index)),
    {
        proof {
            lemma_apply_one(self.options.limit, 4);
        }
        self.add_value(variant_index)
    }

    /// The encoding is binary, not meant for people to read.
    pub fn is_human_readable(&self) -> (r: bool)
        ensures
            !r,
    {
        false
    }
}

/// The UTF-8 encoding of one character, held in a buffer of four bytes.
pub struct EncodeUtf8 {
    buf: [u8; 4],
    pos: usize,
}

impl EncodeUtf8 {
    #[verifier::type_invariant]
    spec fn inv(self) -> bool {
        self.pos <= 4
    }
}

impl View for EncodeUtf8 {
    type V = Seq<u8>;

    /// The encoded bytes.
    closed spec fn view(&self) -> Seq<u8> {
        self.buf@.subrange(0, self.pos as int)
    }
}

/// Encodes `c` as UTF-8.
pub fn encode_utf8(c: char) -> (r: EncodeUtf8)
    ensures
        r@ == vstd::utf8::encode_scalar(c as u32),
{
    let mut buf = [0u8; 4];
    let pos = char_encode_utf8(c, &mut buf);
    EncodeUtf8 { buf, pos }
}

impl EncodeUtf8 {
    /// The encoded bytes.
    pub fn as_slice(&self) -> (r: &[u8])
        ensures
            r@ == self@,
    {
        proof {
            use_type_invariant(self);
        }
        &self.buf[0..self.pos]
    }
}

} // verus!
