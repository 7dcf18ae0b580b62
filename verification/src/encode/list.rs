//! Counted lists: a variable-length count followed by that many items.
use vstd::prelude::*;

use crate::encode::cursor::Cursor;
use crate::encode::encode::{decoded, Decodable, Encodable};
use crate::encode::error::Error;
use crate::encode::varint::VarInt;

verus! {

/// Decoding `n` items one after another from `pos`: the items' models, or the
/// first error, and the position after the last item read.
pub open spec fn spec_decode_items<T: Decodable>(data: Seq<u8>, pos: int, n: nat) -> (
    Result<Seq<<T as DeepView>::V>, Error>,
    int,
)
    decreases n,
{
    if n == 0 {
        (Ok(Seq::empty()), pos)
    } else {
        let (item, p) = T::spec_decode(data, pos);
        match item {
            Err(e) => (Err(e), p),
            Ok(x) => {
                let (rest, q) = spec_decode_items::<T>(data, p, (n - 1) as nat);
                match rest {
                    Err(e) => (Err(e), q),
                    Ok(xs) => (Ok(seq![x] + xs), q),
                }
            },
        }
    }
}

/// Decoding a counted list: a count (whose failure is reported as
/// `count_error`), then that many items.
pub open spec fn spec_decode_counted<T: Decodable>(data: Seq<u8>, pos: int, count_error: Error) -> (
    Result<Seq<<T as DeepView>::V>, Error>,
    int,
) {
    let (count, p) = VarInt::spec_decode(data, pos);
    match count {
        Err(_) => (Err(count_error), p),
        Ok(n) => spec_decode_items::<T>(data, p, n as nat),
    }
}

/// `items` in front of what a later decoding step gives.
pub open spec fn prepend<V>(items: Seq<V>, step: (Result<Seq<V>, Error>, int)) -> (
    Result<Seq<V>, Error>,
    int,
) {
    (
        match step.0 {
            Ok(xs) => Ok(items + xs),
            Err(e) => Err(e),
        },
        step.1,
    )
}

proof fn lemma_prepend_step<T: Decodable>(
    items: Seq<<T as DeepView>::V>,
    x: <T as DeepView>::V,
    data: Seq<u8>,
    pos: int,
    p: int,
    n: nat,
)
    requires
        T::spec_decode(data, pos) == (Ok::<<T as DeepView>::V, Error>(x), p),
    ensures
        prepend(items, spec_decode_items::<T>(data, pos, n + 1)) == prepend(
            items.push(x),
            spec_decode_items::<T>(data, p, n),
        ),
{
    let rest = spec_decode_items::<T>(data, p, n);
    assert(spec_decode_items::<T>(data, pos, n + 1) == match rest.0 {
        Err(e) => (Err::<Seq<<T as DeepView>::V>, Error>(e), rest.1),
        Ok(xs) => (Ok(seq![x] + xs), rest.1),
    });
    match rest.0 {
        Ok(xs) => {
            assert(items + (seq![x] + xs) =~= items.push(x) + xs);
        },
        Err(e) => {},
    }
}

/// Decodes `count` items one after another.
pub fn decode_items<T: Decodable>(r: &mut Cursor, count: u64) -> (res: Result<Vec<T>, Error>)
    ensures
        final(r).data() == old(r).data(),
        decoded(res, final(r).pos(), spec_decode_items::<T>(old(r).data(), old(r).pos(), count as nat)),
{
    let ghost data = r.data();
    let ghost start = r.pos();
    let mut items: Vec<T> = Vec::new();
    let mut i: u64 = 0;
    assert(items.deep_view() =~= Seq::<<T as DeepView>::V>::empty());
    assert(Seq::<<T as DeepView>::V>::empty() + Seq::<<T as DeepView>::V>::empty() =~= Seq::<
        <T as DeepView>::V,
    >::empty());
    while i < count
        invariant
            i <= count,
            r.data() == data,
            data == old(r).data(),
            start == old(r).pos(),
            spec_decode_items::<T>(data, start, count as nat) == prepend(
                items.deep_view(),
                spec_decode_items::<T>(data, r.pos(), (count - i) as nat),
            ),
        decreases count - i,
    {
        let ghost before = r.pos();
        let ghost seen = items.deep_view();
        match T::decode(r) {
            Ok(item) => {
                proof {
                    lemma_prepend_step::<T>(
                        seen,
                        item.deep_view(),
                        data,
                        before,
                        r.pos(),
                        (count - i - 1) as nat,
                    );
                }
                items.push(item);
                i = i + 1;
                proof {
                    assert(items.deep_view() =~= seen.push(item.deep_view()));
                }
            },
            Err(e) => {
                return Err(e);
            },
        }
    }
    proof {
        let xs = items.deep_view();
        assert(xs + Seq::<<T as DeepView>::V>::empty() =~= xs);
    }
    Ok(items)
}

/// Decodes a counted list: a count, then that many items.
pub fn decode_counted<T: Decodable>(r: &mut Cursor, count_error: Error) -> (res: Result<
    Vec<T>,
    Error,
>)
    ensures
        final(r).data() == old(r).data(),
        decoded(res, final(r).pos(), spec_decode_counted::<T>(old(r).data(), old(r).pos(), count_error)),
{
    let count = match VarInt::decode(r) {
        Ok(c) => c,
        Err(_) => return Err(count_error),
    };
    decode_items(r, count.0)
}

/// The encodings of `items`, one after another.
pub open spec fn spec_encode_items<T: Encodable>(items: Seq<<T as DeepView>::V>) -> Seq<u8>
    decreases items.len(),
{
    if items.len() == 0 {
        Seq::empty()
    } else {
        T::spec_encode(items[0]) + spec_encode_items::<T>(items.drop_first())
    }
}

/// The encoding of a counted list: the number of items, then the items.
pub open spec fn spec_encode_counted<T: Encodable>(items: Seq<<T as DeepView>::V>) -> Seq<u8> {
    VarInt::spec_encode(items.len() as u64) + spec_encode_items::<T>(items)
}

proof fn lemma_encode_items_push<T: Encodable>(items: Seq<<T as DeepView>::V>, x: <T as DeepView>::V)
    ensures
        spec_encode_items::<T>(items.push(x)) == spec_encode_items::<T>(items) + T::spec_encode(x),
    decreases items.len(),
{
    if items.len() == 0 {
        assert(items.push(x).drop_first() =~= items);
        assert(items.push(x)[0] == x);
        assert(T::spec_encode(x) + Seq::<u8>::empty() =~= T::spec_encode(x));
        assert(spec_encode_items::<T>(items) =~= Seq::<u8>::empty());
        assert(spec_encode_items::<T>(items.push(x)) =~= T::spec_encode(x));
    } else {
        lemma_encode_items_push::<T>(items.drop_first(), x);
        assert(items.push(x).drop_first() =~= items.drop_first().push(x));
        assert(spec_encode_items::<T>(items.push(x)) =~= spec_encode_items::<T>(items)
            + T::spec_encode(x));
    }
}

/// Appends each item's encoding, in order.
pub fn encode_items<T: Encodable>(items: &Vec<T>, w: &mut Vec<u8>)
    ensures
        final(w)@ == old(w)@ + spec_encode_items::<T>(items.deep_view()),
{
    let ghost start = w@;
    let mut i: usize = 0;
    assert(spec_encode_items::<T>(items.deep_view().take(0)) =~= Seq::<u8>::empty());
    assert(start + Seq::<u8>::empty() =~= start);
    while i < items.len()
        invariant
            i <= items@.len(),
            w@ == start + spec_encode_items::<T>(items.deep_view().take(i as int)),
        decreases items.len() - i,
    {
        let _ = items[i].encode(w);
        proof {
            lemma_encode_items_push::<T>(items.deep_view().take(i as int), items[i as int].deep_view());
            assert(items.deep_view().take(i as int).push(items[i as int].deep_view())
                =~= items.deep_view().take(i + 1));
        }
        i = i + 1;
    }
    proof {
        assert(items.deep_view().take(items@.len() as int) =~= items.deep_view());
    }
}

/// Appends the number of items and then each item's encoding.
pub fn encode_counted<T: Encodable>(items: &Vec<T>, w: &mut Vec<u8>) -> (r: Result<(), Error>)
    ensures
        r is Ok,
        final(w)@ == old(w)@ + spec_encode_counted::<T>(items.deep_view()),
{
    let ghost start = w@;
    let varint = VarInt::new(items.len() as u64);
    let _ = varint.encode(w);
    encode_items(items, w);
    Ok(())
}

} // verus!
