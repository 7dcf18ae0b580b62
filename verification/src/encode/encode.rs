//! The encoding and decoding traits, and their instances for the primitive
//! wire types: fixed-width integers, booleans, byte arrays and byte vectors.
use vstd::prelude::*;
use vstd::bytes::*;

use crate::encode::cursor::Cursor;
use crate::encode::error::Error;
use crate::encode::varint::VarInt;
use crate::encode::wire::{
    append_bytes, read_i16_le, read_i32_le, read_i64_le, read_u16_be, read_u16_le, read_u32_le,
    read_u64_le, spec_u16_from_be_bytes, spec_u16_to_be_bytes, write_i16_le, write_i32_le,
    write_i64_le, write_i8, write_u16_be, write_u16_le, write_u32_le, write_u64_le, write_u8,
};

verus! {

/// The `n` bytes at `pos`, when the buffer holds that many from there.
pub open spec fn field(data: Seq<u8>, pos: int, n: int) -> Option<Seq<u8>> {
    if 0 <= pos && 0 <= n && pos + n <= data.len() {
        Some(data.subrange(pos, pos + n))
    } else {
        None
    }
}

/// `res`, with the cursor at `end`, is what `expected` describes: the decoded
/// value (by its model) or the error, and the position after decoding.
pub open spec fn decoded<T: DeepView>(
    res: Result<T, Error>,
    end: int,
    expected: (Result<T::V, Error>, int),
) -> bool {
    &&& end == expected.1
    &&& match res {
        Ok(v) => expected.0 == Ok::<T::V, Error>(v.deep_view()),
        Err(e) => expected.0 == Err::<T::V, Error>(e),
    }
}

/// A decoding step whose error, if any, is reported as `error` instead.
pub open spec fn with_error<V>(step: (Result<V, Error>, int), error: Error) -> (Result<V, Error>, int) {
    (
        match step.0 {
            Ok(v) => Ok(v),
            Err(_) => Err(error),
        },
        step.1,
    )
}

/// `res` is the value (by its model) or the error that `expected` describes.
pub open spec fn result_matches<T: DeepView>(res: Result<T, Error>, expected: Result<T::V, Error>) -> bool {
    match res {
        Ok(v) => expected == Ok::<T::V, Error>(v.deep_view()),
        Err(e) => expected == Err::<T::V, Error>(e),
    }
}

/// The bytes at `pos` in `data` are exactly `bytes`.
pub open spec fn holds_at(data: Seq<u8>, pos: int, bytes: Seq<u8>) -> bool {
    &&& 0 <= pos
    &&& pos + bytes.len() <= data.len()
    &&& data.subrange(pos, pos + bytes.len()) == bytes
}

/// A value that can be written to the wire.
pub trait Encodable: DeepView {
    /// The bytes that encode a value with model `v`.
    spec fn spec_encode(v: <Self as DeepView>::V) -> Seq<u8>;

    /// Appends the encoding of `self` to `w`; writing to a vector never fails.
    fn encode(&self, w: &mut Vec<u8>) -> (r: Result<(), Error>)
        ensures
            r is Ok,
            final(w)@ == old(w)@ + Self::spec_encode(self.deep_view()),
    ;
}

/// A value that can be written to the wire in network (big-endian) byte order.
pub trait NetworkEncodable: DeepView {
    /// The bytes that encode a value with model `v` in network byte order.
    spec fn spec_encode_network(v: <Self as DeepView>::V) -> Seq<u8>;

    /// Appends the network-order encoding of `self` to `w`.
    fn encode_network_byte_order(&self, w: &mut Vec<u8>) -> (r: Result<(), Error>)
        ensures
            r is Ok,
            final(w)@ == old(w)@ + Self::spec_encode_network(self.deep_view()),
    ;
}

/// A value that can be read from the wire.
pub trait Decodable: Sized + DeepView {
    /// Decoding at `pos` in `data`: the value's model or the error, and the
    /// position after decoding.
    spec fn spec_decode(data: Seq<u8>, pos: int) -> (Result<<Self as DeepView>::V, Error>, int);

    /// Decodes a value at the cursor's position and moves the cursor past it.
    fn decode(r: &mut Cursor) -> (res: Result<Self, Error>)
        ensures
            final(r).data() == old(r).data(),
            decoded(res, final(r).pos(), Self::spec_decode(old(r).data(), old(r).pos())),
    ;
}

/// A value that can be read from the wire in network (big-endian) byte order.
pub trait NetworkDecodable: Sized + DeepView {
    /// Decoding in network byte order at `pos` in `data`.
    spec fn spec_decode_network(data: Seq<u8>, pos: int) -> (
        Result<<Self as DeepView>::V, Error>,
        int,
    );

    /// Decodes a network-order value at the cursor's position.
    fn decode_network_byte_order(r: &mut Cursor) -> (res: Result<Self, Error>)
        ensures
            final(r).data() == old(r).data(),
            decoded(res, final(r).pos(), Self::spec_decode_network(old(r).data(), old(r).pos())),
    ;
}

impl Encodable for i64 {
    open spec fn spec_encode(v: i64) -> Seq<u8> {
        spec_u64_to_le_bytes(v as u64)
    }

    fn encode(&self, w: &mut Vec<u8>) -> (r: Result<(), Error>) {
        if !write_i64_le(w, *self) {
            return Err(Error::WriteI64);
        }
        Ok(())
    }
}

impl Decodable for i64 {
    open spec fn spec_decode(data: Seq<u8>, pos: int) -> (Result<i64, Error>, int) {
        match field(data, pos, 8) {
            Some(b) => (Ok(spec_u64_from_le_bytes(b) as i64), pos + 8),
            None => (Err(Error::ReadI64), pos),
        }
    }

    fn decode(r: &mut Cursor) -> (res: Result<i64, Error>) {
        let ghost expected = <i64 as Decodable>::spec_decode(r.data(), r.pos());
        if r.remaining() < 8 {
            return Err(Error::ReadI64);
        }
        let pos = r.offset();
        let v = read_i64_le(r.get_ref(), pos);
        r.advance(8);
        Ok(v)
    }
}

impl Encodable for i32 {
    open spec fn spec_encode(v: i32) -> Seq<u8> {
        spec_u32_to_le_bytes(v as u32)
    }

    fn encode(&self, w: &mut Vec<u8>) -> (r: Result<(), Error>) {
        if !write_i32_le(w, *self) {
            return Err(Error::WriteI32);
        }
        Ok(())
    }
}

impl Decodable for i32 {
    open spec fn spec_decode(data: Seq<u8>, pos: int) -> (Result<i32, Error>, int) {
        match field(data, pos, 4) {
            Some(b) => (Ok(spec_u32_from_le_bytes(b) as i32), pos + 4),
            None => (Err(Error::ReadI32), pos),
        }
    }

    fn decode(r: &mut Cursor) -> (res: Result<i32, Error>) {
        let ghost expected = <i32 as Decodable>::spec_decode(r.data(), r.pos());
        if r.remaining() < 4 {
            return Err(Error::ReadI32);
        }
        let pos = r.offset();
        let v = read_i32_le(r.get_ref(), pos);
        r.advance(4);
        Ok(v)
    }
}

impl Encodable for i16 {
    open spec fn spec_encode(v: i16) -> Seq<u8> {
        spec_u16_to_le_bytes(v as u16)
    }

    fn encode(&self, w: &mut Vec<u8>) -> (r: Result<(), Error>) {
        if !write_i16_le(w, *self) {
            return Err(Error::WriteI16);
        }
        Ok(())
    }
}

impl Decodable for i16 {
    open spec fn spec_decode(data: Seq<u8>, pos: int) -> (Result<i16, Error>, int) {
        match field(data, pos, 2) {
            Some(b) => (Ok(spec_u16_from_le_bytes(b) as i16), pos + 2),
            None => (Err(Error::ReadI16), pos),
        }
    }

    fn decode(r: &mut Cursor) -> (res: Result<i16, Error>) {
        let ghost expected = <i16 as Decodable>::spec_decode(r.data(), r.pos());
        if r.remaining() < 2 {
            return Err(Error::ReadI16);
        }
        let pos = r.offset();
        let v = read_i16_le(r.get_ref(), pos);
        r.advance(2);
        Ok(v)
    }
}

impl Encodable for i8 {
    open spec fn spec_encode(v: i8) -> Seq<u8> {
        seq![v as u8]
    }

    fn encode(&self, w: &mut Vec<u8>) -> (r: Result<(), Error>) {
        if !write_i8(w, *self) {
            return Err(Error::WriteI8);
        }
        Ok(())
    }
}

impl Decodable for i8 {
    open spec fn spec_decode(data: Seq<u8>, pos: int) -> (Result<i8, Error>, int) {
        match field(data, pos, 1) {
            Some(b) => (Ok(b[0] as i8), pos + 1),
            None => (Err(Error::ReadI8), pos),
        }
    }

    fn decode(r: &mut Cursor) -> (res: Result<i8, Error>) {
        let ghost expected = <i8 as Decodable>::spec_decode(r.data(), r.pos());
        if r.remaining() < 1 {
            return Err(Error::ReadI8);
        }
        let ghost start = r.pos();
        let ghost data = r.data();
        let b = r.peek(0);
        assert(start + 1 <= data.len());
        assert(b == data[start]);
        r.advance(1);
        proof {
            assert(data.subrange(start, start + 1)[0] == b);
        }
        Ok(#[verifier::truncate] (b as i8))
    }
}

impl Encodable for u64 {
    open spec fn spec_encode(v: u64) -> Seq<u8> {
        spec_u64_to_le_bytes(v)
    }

    fn encode(&self, w: &mut Vec<u8>) -> (r: Result<(), Error>) {
        if !write_u64_le(w, *self) {
            return Err(Error::WriteU64);
        }
        Ok(())
    }
}

impl Decodable for u64 {
    open spec fn spec_decode(data: Seq<u8>, pos: int) -> (Result<u64, Error>, int) {
        match field(data, pos, 8) {
            Some(b) => (Ok(spec_u64_from_le_bytes(b)), pos + 8),
            None => (Err(Error::ReadU64), pos),
        }
    }

    fn decode(r: &mut Cursor) -> (res: Result<u64, Error>) {
        let ghost expected = <u64 as Decodable>::spec_decode(r.data(), r.pos());
        if r.remaining() < 8 {
            return Err(Error::ReadU64);
        }
        let pos = r.offset();
        let v = read_u64_le(r.get_ref(), pos);
        r.advance(8);
        Ok(v)
    }
}

impl Encodable for u32 {
    open spec fn spec_encode(v: u32) -> Seq<u8> {
        spec_u32_to_le_bytes(v)
    }

    fn encode(&self, w: &mut Vec<u8>) -> (r: Result<(), Error>) {
        if !write_u32_le(w, *self) {
            return Err(Error::WriteU32);
        }
        Ok(())
    }
}

impl Decodable for u32 {
    open spec fn spec_decode(data: Seq<u8>, pos: int) -> (Result<u32, Error>, int) {
        match field(data, pos, 4) {
            Some(b) => (Ok(spec_u32_from_le_bytes(b)), pos + 4),
            None => (Err(Error::ReadU32), pos),
        }
    }

    fn decode(r: &mut Cursor) -> (res: Result<u32, Error>) {
        let ghost expected = <u32 as Decodable>::spec_decode(r.data(), r.pos());
        if r.remaining() < 4 {
            return Err(Error::ReadU32);
        }
        let pos = r.offset();
        let v = read_u32_le(r.get_ref(), pos);
        r.advance(4);
        Ok(v)
    }
}

impl Encodable for u16 {
    open spec fn spec_encode(v: u16) -> Seq<u8> {
        spec_u16_to_le_bytes(v)
    }

    fn encode(&self, w: &mut Vec<u8>) -> (r: Result<(), Error>) {
        if !write_u16_le(w, *self) {
            return Err(Error::WriteU16);
        }
        Ok(())
    }
}

impl Decodable for u16 {
    open spec fn spec_decode(data: Seq<u8>, pos: int) -> (Result<u16, Error>, int) {
        match field(data, pos, 2) {
            Some(b) => (Ok(spec_u16_from_le_bytes(b)), pos + 2),
            None => (Err(Error::ReadU16), pos),
        }
    }

    fn decode(r: &mut Cursor) -> (res: Result<u16, Error>) {
        let ghost expected = <u16 as Decodable>::spec_decode(r.data(), r.pos());
        if r.remaining() < 2 {
            return Err(Error::ReadU16);
        }
        let pos = r.offset();
        let v = read_u16_le(r.get_ref(), pos);
        r.advance(2);
        Ok(v)
    }
}

impl NetworkEncodable for u16 {
    open spec fn spec_encode_network(v: u16) -> Seq<u8> {
        spec_u16_to_be_bytes(v)
    }

    fn encode_network_byte_order(&self, w: &mut Vec<u8>) -> (r: Result<(), Error>) {
        if !write_u16_be(w, *self) {
            return Err(Error::WriteU16);
        }
        Ok(())
    }
}

impl NetworkDecodable for u16 {
    open spec fn spec_decode_network(data: Seq<u8>, pos: int) -> (Result<u16, Error>, int) {
        match field(data, pos, 2) {
            Some(b) => (Ok(spec_u16_from_be_bytes(b)), pos + 2),
            None => (Err(Error::ReadU16), pos),
        }
    }

    fn decode_network_byte_order(r: &mut Cursor) -> (res: Result<u16, Error>) {
        let ghost expected = <u16 as NetworkDecodable>::spec_decode_network(r.data(), r.pos());
        if r.remaining() < 2 {
            return Err(Error::ReadU16);
        }
        let pos = r.offset();
        let v = read_u16_be(r.get_ref(), pos);
        r.advance(2);
        Ok(v)
    }
}

impl Encodable for u8 {
    open spec fn spec_encode(v: u8) -> Seq<u8> {
        seq![v]
    }

    fn encode(&self, w: &mut Vec<u8>) -> (r: Result<(), Error>) {
        if !write_u8(w, *self) {
            return Err(Error::WriteU8);
        }
        proof {
            assert(seq![*self] =~= Seq::<u8>::empty().push(*self));
        }
        Ok(())
    }
}

impl Decodable for u8 {
    open spec fn spec_decode(data: Seq<u8>, pos: int) -> (Result<u8, Error>, int) {
        match field(data, pos, 1) {
            Some(b) => (Ok(b[0]), pos + 1),
            None => (Err(Error::ReadU8), pos),
        }
    }

    fn decode(r: &mut Cursor) -> (res: Result<u8, Error>) {
        let ghost expected = <u8 as Decodable>::spec_decode(r.data(), r.pos());
        if r.remaining() < 1 {
            return Err(Error::ReadU8);
        }
        let ghost start = r.pos();
        let b = r.peek(0);
        r.advance(1);
        proof {
            assert(r.data().subrange(start, start + 1)[0] == b);
        }
        Ok(b)
    }
}

impl Encodable for bool {
    open spec fn spec_encode(v: bool) -> Seq<u8> {
        seq![if v { 1u8 } else { 0u8 }]
    }

    fn encode(&self, w: &mut Vec<u8>) -> (r: Result<(), Error>) {
        let value: u8 = if *self {
            1
        } else {
            0
        };
        match value.encode(w) {
            Ok(_) => Ok(()),
            Err(_) => Err(Error::WriteBool),
        }
    }
}

impl Decodable for bool {
    /// Any non-zero byte reads as `true`.
    open spec fn spec_decode(data: Seq<u8>, pos: int) -> (Result<bool, Error>, int) {
        match field(data, pos, 1) {
            Some(b) => (Ok(b[0] != 0), pos + 1),
            None => (Err(Error::ReadBool), pos),
        }
    }

    fn decode(r: &mut Cursor) -> (res: Result<bool, Error>) {
        let ghost expected = <bool as Decodable>::spec_decode(r.data(), r.pos());
        let b = match u8::decode(r) {
            Ok(b) => b,
            Err(_) => return Err(Error::ReadBool),
        };
        let result = match b {
            0 => false,
            _ => true,
        };
        Ok(result)
    }
}

impl<const N: usize> Encodable for [u8; N] {
    open spec fn spec_encode(v: Seq<u8>) -> Seq<u8> {
        v
    }

    fn encode(&self, w: &mut Vec<u8>) -> (r: Result<(), Error>) {
        append_bytes(w, self.as_slice());
        proof {
            assert(self.deep_view() =~= self@);
        }
        Ok(())
    }
}

impl<const N: usize> Decodable for [u8; N] {
    open spec fn spec_decode(data: Seq<u8>, pos: int) -> (Result<Seq<u8>, Error>, int) {
        match field(data, pos, N as int) {
            Some(b) => (Ok(b), pos + N),
            None => (Err(Error::ReadExact), pos),
        }
    }

    fn decode(r: &mut Cursor) -> (res: Result<[u8; N], Error>) {
        let ghost expected = <[u8; N] as Decodable>::spec_decode(r.data(), r.pos());
        if r.remaining() < N {
            return Err(Error::ReadExact);
        }
        let pos = r.offset();
        let data = r.get_ref();
        let len = data.len();
        let mut result: [u8; N] = [0u8; N];
        let mut i: usize = 0;
        while i < N
            invariant
                i <= N,
                pos + N <= data@.len(),
                len == data@.len(),
                result@.len() == N,
                forall|j: int| 0 <= j < i ==> result@[j] == data@[pos + j],
            decreases N - i,
        {
            result[i] = data[pos + i];
            i = i + 1;
        }
        r.advance(N);
        proof {
            assert(result.deep_view() =~= data@.subrange(pos as int, pos + N));
        }
        Ok(result)
    }
}

impl Encodable for Vec<u8> {
    /// The bytes themselves, with no length in front of them.
    open spec fn spec_encode(v: Seq<u8>) -> Seq<u8> {
        v
    }

    fn encode(&self, w: &mut Vec<u8>) -> (r: Result<(), Error>) {
        append_bytes(w, self.as_slice());
        proof {
            assert(self.deep_view() =~= self@);
        }
        Ok(())
    }
}

/// Decoding a byte vector: a variable-length count, then that many bytes.
pub open spec fn spec_decode_var_bytes(
    data: Seq<u8>,
    pos: int,
    len_error: Error,
    content_error: Error,
) -> (Result<Seq<u8>, Error>, int) {
    let (len, p) = VarInt::spec_decode(data, pos);
    match len {
        Err(_) => (Err(len_error), p),
        Ok(n) => match field(data, p, n as int) {
            Some(b) => (Ok(b), p + n),
            None => (Err(content_error), p),
        },
    }
}

/// Decodes a variable-length count and then that many bytes, reporting
/// `len_error` when the count cannot be read and `content_error` when the
/// bytes run out.
pub fn decode_var_bytes(r: &mut Cursor, len_error: Error, content_error: Error) -> (res: Result<
    Vec<u8>,
    Error,
>)
    ensures
        final(r).data() == old(r).data(),
        decoded(
            res,
            final(r).pos(),
            spec_decode_var_bytes(old(r).data(), old(r).pos(), len_error, content_error),
        ),
{
    let varint = match VarInt::decode(r) {
        Ok(v) => v,
        Err(_) => return Err(len_error),
    };
    if (r.remaining() as u64) < varint.0 {
        return Err(content_error);
    }
    let content = r.take(varint.0 as usize);
    proof {
        assert(content.deep_view() =~= content@);
    }
    Ok(content)
}

impl Decodable for Vec<u8> {
    open spec fn spec_decode(data: Seq<u8>, pos: int) -> (Result<Seq<u8>, Error>, int) {
        spec_decode_var_bytes(data, pos, Error::VecLen, Error::VecContent)
    }

    fn decode(r: &mut Cursor) -> (res: Result<Vec<u8>, Error>) {
        let ghost expected = <Vec<u8> as Decodable>::spec_decode(r.data(), r.pos());
        decode_var_bytes(r, Error::VecLen, Error::VecContent)
    }
}

} // verus!
