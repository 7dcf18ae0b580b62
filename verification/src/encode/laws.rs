//! What decoding gives back of what encoding wrote, for the primitive wire
//! types and for lists of items.
use vstd::prelude::*;
use vstd::bytes::*;

use crate::encode::encode::{holds_at, spec_decode_var_bytes, Decodable, Encodable, NetworkDecodable, NetworkEncodable};
use crate::encode::error::Error;
use crate::encode::list::{spec_decode_counted, spec_decode_items, spec_encode_counted, spec_encode_items};
use crate::encode::varint::{lemma_varint_roundtrip, VarInt};
use crate::encode::wire::{spec_u16_from_be_bytes, spec_u16_to_be_bytes};

verus! {

/// Decoding at `pos` reads back `v`, and stops right after its encoding,
/// whenever that encoding stands at `pos`.
pub open spec fn spec_reads_back<T: Encodable + Decodable>(v: <T as DeepView>::V) -> bool {
    forall|data: Seq<u8>, pos: int|
        #![trigger T::spec_decode(data, pos)]
        holds_at(data, pos, T::spec_encode(v)) ==> T::spec_decode(data, pos) == (
            Ok::<<T as DeepView>::V, Error>(v),
            pos + T::spec_encode(v).len(),
        )
}

/// Where `a + b` stands, `a` stands, and `b` right after it.
pub proof fn lemma_holds_at_split(data: Seq<u8>, pos: int, a: Seq<u8>, b: Seq<u8>)
    requires
        holds_at(data, pos, a + b),
    ensures
        holds_at(data, pos, a),
        holds_at(data, pos + a.len(), b),
{
    let all = a + b;
    assert(data.subrange(pos, pos + a.len()) =~= all.subrange(0, a.len() as int));
    assert(all.subrange(0, a.len() as int) =~= a);
    assert(data.subrange(pos + a.len(), pos + a.len() + b.len()) =~= all.subrange(
        a.len() as int,
        all.len() as int,
    ));
    assert(all.subrange(a.len() as int, all.len() as int) =~= b);
}

/// Little-endian integers, in every width, read back.
pub proof fn lemma_integers_read_back(a: u64, b: u32, c: u16, d: u8, e: i64, f: i32, g: i16, h: i8)
    ensures
        spec_reads_back::<u64>(a),
        spec_reads_back::<u32>(b),
        spec_reads_back::<u16>(c),
        spec_reads_back::<u8>(d),
        spec_reads_back::<i64>(e),
        spec_reads_back::<i32>(f),
        spec_reads_back::<i16>(g),
        spec_reads_back::<i8>(h),
{
    lemma_auto_spec_u16_to_from_le_bytes();
    lemma_auto_spec_u32_to_from_le_bytes();
    lemma_auto_spec_u64_to_from_le_bytes();
    assert((e as u64) as i64 == e) by (bit_vector);
    assert((f as u32) as i32 == f) by (bit_vector);
    assert((g as u16) as i16 == g) by (bit_vector);
    assert((h as u8) as i8 == h) by (bit_vector);
    assert forall|data: Seq<u8>, pos: int| holds_at(data, pos, i8::spec_encode(h)) implies
        #[trigger] i8::spec_decode(data, pos) == (Ok::<i8, Error>(h), pos + 1) by {
        assert(data.subrange(pos, pos + 1)[0] == h as u8);
    }
    assert forall|data: Seq<u8>, pos: int| holds_at(data, pos, u8::spec_encode(d)) implies
        #[trigger] u8::spec_decode(data, pos) == (Ok::<u8, Error>(d), pos + 1) by {
        assert(data.subrange(pos, pos + 1)[0] == d);
    }
}

/// A big-endian `u16` reads back.
pub proof fn lemma_u16_network_reads_back(v: u16, data: Seq<u8>, pos: int)
    requires
        holds_at(data, pos, u16::spec_encode_network(v)),
    ensures
        u16::spec_decode_network(data, pos) == (Ok::<u16, Error>(v), pos + 2),
{
    lemma_auto_spec_u16_to_from_le_bytes();
    let be = spec_u16_to_be_bytes(v);
    assert(be.reverse() =~= spec_u16_to_le_bytes(v));
    assert(data.subrange(pos, pos + 2).reverse() =~= spec_u16_to_le_bytes(v));
}

/// A boolean reads back.
pub proof fn lemma_bool_reads_back(v: bool)
    ensures
        spec_reads_back::<bool>(v),
{
    assert forall|data: Seq<u8>, pos: int| holds_at(data, pos, bool::spec_encode(v)) implies
        #[trigger] bool::spec_decode(data, pos) == (Ok::<bool, Error>(v), pos + 1) by {
        assert(data.subrange(pos, pos + 1)[0] == (if v { 1u8 } else { 0u8 }));
    }
}

/// A byte array reads back.
pub proof fn lemma_array_reads_back<const N: usize>(v: Seq<u8>)
    requires
        v.len() == N,
    ensures
        spec_reads_back::<[u8; N]>(v),
{
}

/// A byte vector written with its length in front (as `alert` and `inv`
/// carry theirs) reads back.
pub proof fn lemma_var_bytes_read_back(
    bytes: Seq<u8>,
    data: Seq<u8>,
    pos: int,
    len_error: Error,
    content_error: Error,
)
    requires
        bytes.len() <= u64::MAX,
        holds_at(data, pos, VarInt::spec_encode(bytes.len() as u64) + bytes),
    ensures
        spec_decode_var_bytes(data, pos, len_error, content_error) == (
            Ok::<Seq<u8>, Error>(bytes),
            pos + VarInt::spec_encode(bytes.len() as u64).len() + bytes.len(),
        ),
{
    let count = VarInt::spec_encode(bytes.len() as u64);
    let all = count + bytes;
    assert(data.subrange(pos, pos + count.len()) =~= all.subrange(0, count.len() as int));
    assert(all.subrange(0, count.len() as int) =~= count);
    lemma_varint_roundtrip(bytes.len() as u64, data, pos);
    let p = pos + count.len();
    assert(data.subrange(p, p + bytes.len()) =~= all.subrange(
        count.len() as int,
        all.len() as int,
    ));
    assert(all.subrange(count.len() as int, all.len() as int) =~= bytes);
}

/// Items written one after another read back, when each of them does.
pub proof fn lemma_items_read_back<T: Encodable + Decodable>(
    items: Seq<<T as DeepView>::V>,
    data: Seq<u8>,
    pos: int,
)
    requires
        forall|i: int| 0 <= i < items.len() ==> spec_reads_back::<T>(#[trigger] items[i]),
        holds_at(data, pos, spec_encode_items::<T>(items)),
    ensures
        spec_decode_items::<T>(data, pos, items.len()) == (
            Ok::<Seq<<T as DeepView>::V>, Error>(items),
            pos + spec_encode_items::<T>(items).len(),
        ),
    decreases items.len(),
{
    if items.len() == 0 {
        assert(Seq::<<T as DeepView>::V>::empty() =~= items);
    } else {
        let first = T::spec_encode(items[0]);
        let rest = items.drop_first();
        let all = spec_encode_items::<T>(items);
        assert(all == first + spec_encode_items::<T>(rest));
        assert(data.subrange(pos, pos + first.len()) =~= all.subrange(0, first.len() as int));
        assert(all.subrange(0, first.len() as int) =~= first);
        assert(spec_reads_back::<T>(items[0]));
        assert(T::spec_decode(data, pos) == (
            Ok::<<T as DeepView>::V, Error>(items[0]),
            pos + first.len(),
        ));
        let p = pos + first.len();
        assert(data.subrange(p, p + spec_encode_items::<T>(rest).len()) =~= all.subrange(
            first.len() as int,
            all.len() as int,
        ));
        assert(all.subrange(first.len() as int, all.len() as int) =~= spec_encode_items::<T>(rest));
        assert forall|i: int| 0 <= i < rest.len() implies spec_reads_back::<T>(#[trigger] rest[i]) by {
            assert(rest[i] == items[i + 1]);
        }
        lemma_items_read_back::<T>(rest, data, p);
        assert(seq![items[0]] + rest =~= items);
        assert((items.len() - 1) as nat == rest.len());
    }
}

/// A counted list reads back, when each of its items does.
pub proof fn lemma_counted_read_back<T: Encodable + Decodable>(
    items: Seq<<T as DeepView>::V>,
    data: Seq<u8>,
    pos: int,
    count_error: Error,
)
    requires
        items.len() <= u64::MAX,
        forall|i: int| 0 <= i < items.len() ==> spec_reads_back::<T>(#[trigger] items[i]),
        holds_at(data, pos, spec_encode_counted::<T>(items)),
    ensures
        spec_decode_counted::<T>(data, pos, count_error) == (
            Ok::<Seq<<T as DeepView>::V>, Error>(items),
            pos + spec_encode_counted::<T>(items).len(),
        ),
{
    let count = VarInt::spec_encode(items.len() as u64);
    let body = spec_encode_items::<T>(items);
    let all = count + body;
    assert(data.subrange(pos, pos + count.len()) =~= all.subrange(0, count.len() as int));
    assert(all.subrange(0, count.len() as int) =~= count);
    lemma_varint_roundtrip(items.len() as u64, data, pos);
    let p = pos + count.len();
    assert(data.subrange(p, p + body.len()) =~= all.subrange(count.len() as int, all.len() as int));
    assert(all.subrange(count.len() as int, all.len() as int) =~= body);
    lemma_items_read_back::<T>(items, data, p);
}

/// Whatever decodes at a position encodes back to exactly the bytes that
/// were read there.
pub open spec fn spec_encodes_back<T: Encodable + Decodable>() -> bool {
    forall|data: Seq<u8>, pos: int|
        #![trigger T::spec_decode(data, pos)]
        T::spec_decode(data, pos).0 is Ok ==> {
            &&& 0 <= pos <= T::spec_decode(data, pos).1 <= data.len()
            &&& T::spec_encode(T::spec_decode(data, pos).0->Ok_0) == data.subrange(
                pos,
                T::spec_decode(data, pos).1,
            )
        }
}

/// The count at `pos` is written in its shortest form: decoding it and
/// encoding it again gives the same bytes.
pub open spec fn spec_shortest_count_at(data: Seq<u8>, pos: int) -> bool {
    VarInt::spec_decode(data, pos).0 is Ok ==> VarInt::spec_encode(
        VarInt::spec_decode(data, pos).0->Ok_0,
    ) == data.subrange(pos, VarInt::spec_decode(data, pos).1)
}

/// Items that each encode back to what they were read from encode back, as a
/// run, to the bytes of the run; and there are as many as were asked for.
pub proof fn lemma_items_encode_back<T: Encodable + Decodable>(data: Seq<u8>, pos: int, n: nat)
    requires
        spec_encodes_back::<T>(),
        0 <= pos <= data.len(),
        spec_decode_items::<T>(data, pos, n).0 is Ok,
    ensures
        spec_decode_items::<T>(data, pos, n).0->Ok_0.len() == n,
        pos <= spec_decode_items::<T>(data, pos, n).1 <= data.len(),
        spec_encode_items::<T>(spec_decode_items::<T>(data, pos, n).0->Ok_0) == data.subrange(
            pos,
            spec_decode_items::<T>(data, pos, n).1,
        ),
    decreases n,
{
    if n == 0 {
        assert(data.subrange(pos, pos) =~= Seq::<u8>::empty());
    } else {
        let (item, p) = T::spec_decode(data, pos);
        let x = item->Ok_0;
        lemma_items_encode_back::<T>(data, p, (n - 1) as nat);
        let (rest, q) = spec_decode_items::<T>(data, p, (n - 1) as nat);
        let xs = rest->Ok_0;
        let all = seq![x] + xs;
        assert(all[0] == x);
        assert(all.drop_first() =~= xs);
        assert(data.subrange(pos, q) =~= data.subrange(pos, p) + data.subrange(p, q));
    }
}

/// A counted list whose count is in its shortest form, and whose items each
/// encode back, encodes back to the bytes it was read from.
pub proof fn lemma_counted_encode_back<T: Encodable + Decodable>(data: Seq<u8>, pos: int, count_error: Error)
    requires
        spec_encodes_back::<T>(),
        0 <= pos <= data.len(),
        spec_shortest_count_at(data, pos),
        spec_decode_counted::<T>(data, pos, count_error).0 is Ok,
    ensures
        pos <= spec_decode_counted::<T>(data, pos, count_error).1 <= data.len(),
        spec_encode_counted::<T>(spec_decode_counted::<T>(data, pos, count_error).0->Ok_0)
            == data.subrange(pos, spec_decode_counted::<T>(data, pos, count_error).1),
{
    let (count, p) = VarInt::spec_decode(data, pos);
    let n = count->Ok_0;
    assert(pos < p <= data.len());
    lemma_items_encode_back::<T>(data, p, n as nat);
    let (items, q) = spec_decode_items::<T>(data, p, n as nat);
    assert((items->Ok_0).len() as u64 == n);
    assert(data.subrange(pos, q) =~= data.subrange(pos, p) + data.subrange(p, q));
}

} // verus!
