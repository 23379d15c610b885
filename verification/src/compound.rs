//! The conversions of optional values and of sequences.
//!
//! Both are lowered to a buffer of the bytes that `write` gives. An optional
//! value is a tag byte, 0 or 1, and after the tag 1 the value. A sequence is
//! the number of its items, a signed 32-bit integer, and then the items in
//! their order.

use crate::buffer::RustBuffer;
use crate::converter::{check_consumed, whole, FfiConverter};
use crate::error::DecodeError;
use crate::wire::{lemma_be_bytes_len, to_unsigned};
use vstd::prelude::*;

verus! {

/// The bytes of an optional value.
pub open spec fn written_option<UT, T: FfiConverter<UT>>(v: Option<<T as DeepView>::V>) -> Seq<u8> {
    match v {
        None => <i8 as FfiConverter<UT>>::written(0),
        Some(x) => <i8 as FfiConverter<UT>>::written(1) + T::written(x),
    }
}

/// The optional value that follows a tag of `n` bytes.
pub open spec fn read_tagged<UT, T: FfiConverter<UT>>(bytes: Seq<u8>, tag: i8, n: int) -> Result<
    (Option<<T as DeepView>::V>, int),
    DecodeError,
> {
    if tag == 0 {
        Ok((None, n))
    } else if tag == 1 {
        match T::read(bytes.skip(n)) {
            Ok((x, m)) => Ok((Some(x), n + m)),
            Err(e) => Err(e),
        }
    } else {
        Err(DecodeError::InvalidOptionTag { tag })
    }
}

impl<UT, T: FfiConverter<UT>> FfiConverter<UT> for Option<T> {
    type FfiType = RustBuffer;

    open spec fn writable(v: Option<<T as DeepView>::V>) -> bool {
        match v {
            None => true,
            Some(x) => T::writable(x),
        }
    }

    open spec fn lowerable(v: Option<<T as DeepView>::V>) -> bool {
        Self::writable(v) && Self::written(v).len() <= i32::MAX
    }

    open spec fn lowered(v: Option<<T as DeepView>::V>) -> Seq<u8> {
        Self::written(v)
    }

    open spec fn lifted(r: Seq<u8>) -> Result<Option<<T as DeepView>::V>, DecodeError> {
        whole(Self::read(r), r.len())
    }

    open spec fn written(v: Option<<T as DeepView>::V>) -> Seq<u8> {
        written_option::<UT, T>(v)
    }

    open spec fn read(bytes: Seq<u8>) -> Result<(Option<<T as DeepView>::V>, int), DecodeError> {
        match <i8 as FfiConverter<UT>>::read(bytes) {
            Ok((tag, n)) => read_tagged::<UT, T>(bytes, tag, n),
            Err(e) => Err(e),
        }
    }

    proof fn lift_inverts_lower(v: Option<<T as DeepView>::V>) {
        Self::read_inverts_write(v, Seq::empty());
    }

    proof fn read_inverts_write(v: Option<<T as DeepView>::V>, rest: Seq<u8>) {
        match v {
            None => {
                <i8 as FfiConverter<UT>>::read_inverts_write(0, rest);
            },
            Some(x) => {
                let tag = <i8 as FfiConverter<UT>>::written(1);
                let body = T::written(x);
                <i8 as FfiConverter<UT>>::read_inverts_write(1, body + rest);
                assert(tag + (body + rest) == (tag + body) + rest);
                assert((tag + body + rest).skip(tag.len() as int) == body + rest);
                T::read_inverts_write(x, rest);
            },
        }
    }

    proof fn read_stays_in_bounds(bytes: Seq<u8>) {
        match <i8 as FfiConverter<UT>>::read(bytes) {
            Ok((_, n)) => {
                T::read_stays_in_bounds(bytes.skip(n));
            },
            Err(_) => {},
        }
    }

    fn encoded_len(obj: &Option<T>) -> Option<usize> {
        proof {
            lemma_be_bytes_len(to_unsigned(0, 1), 1);
        }
        match obj {
            None => Some(1),
            Some(x) => match T::encoded_len(x) {
                Some(n) => if n < 0x7fff_ffff {
                    Some(n + 1)
                } else {
                    None
                },
                None => None,
            },
        }
    }

    fn can_lower(obj: &Option<T>) -> bool {
        Self::encoded_len(obj).is_some()
    }

    fn lower(obj: Option<T>) -> RustBuffer {
        let mut buf: Vec<u8> = Vec::new();
        Self::write(obj, &mut buf);
        RustBuffer::from_vec(buf)
    }

    fn try_lift(v: RustBuffer) -> Result<Option<T>, DecodeError> {
        let vec = v.destroy_into_vec();
        let mut buf = vec.as_slice();
        proof {
            Self::read_stays_in_bounds(buf@);
        }
        let value = Self::try_read(&mut buf)?;
        check_consumed(buf)?;
        Ok(value)
    }

    fn write(obj: Option<T>, buf: &mut Vec<u8>) {
        match obj {
            None => {
                <i8 as FfiConverter<UT>>::write(0, buf);
            },
            Some(x) => {
                <i8 as FfiConverter<UT>>::write(1, buf);
                T::write(x, buf);
            },
        }
    }

    fn try_read(buf: &mut &[u8]) -> Result<Option<T>, DecodeError> {
        let mut ahead: &[u8] = *buf;
        let tag = <i8 as FfiConverter<UT>>::try_read(&mut ahead)?;
        if tag == 0 {
            *buf = ahead;
            Ok(None)
        } else if tag == 1 {
            proof {
                T::read_stays_in_bounds(ahead@);
            }
            let value = T::try_read(&mut ahead)?;
            *buf = ahead;
            Ok(Some(value))
        } else {
            Err(DecodeError::InvalidOptionTag { tag })
        }
    }
}

/// The bytes of some items, one after the other.
pub open spec fn written_items<UT, T: FfiConverter<UT>>(items: Seq<<T as DeepView>::V>) -> Seq<u8>
    decreases items.len(),
{
    if items.len() == 0 {
        Seq::empty()
    } else {
        T::written(items.first()) + written_items::<UT, T>(items.drop_first())
    }
}

/// Every item can be written.
pub open spec fn all_writable<UT, T: FfiConverter<UT>>(items: Seq<<T as DeepView>::V>) -> bool {
    forall|i: int| 0 <= i < items.len() ==> T::writable(#[trigger] items[i])
}

/// The first `count` items of a window, and the bytes that they take up
/// together.
pub open spec fn read_items<UT, T: FfiConverter<UT>>(bytes: Seq<u8>, count: nat) -> Result<
    (Seq<<T as DeepView>::V>, int),
    DecodeError,
>
    decreases count,
{
    if count == 0 {
        Ok((Seq::empty(), 0))
    } else {
        match T::read(bytes) {
            Ok((x, n)) => match read_items::<UT, T>(bytes.skip(n), (count - 1) as nat) {
                Ok((xs, m)) => Ok((seq![x] + xs, n + m)),
                Err(e) => Err(e),
            },
            Err(e) => Err(e),
        }
    }
}

/// The items that follow a count of `n` bytes.
pub open spec fn read_counted<UT, T: FfiConverter<UT>>(bytes: Seq<u8>, count: i32, n: int) -> Result<
    (Seq<<T as DeepView>::V>, int),
    DecodeError,
> {
    if count < 0 {
        Err(DecodeError::NegativeLength { length: count })
    } else {
        match read_items::<UT, T>(bytes.skip(n), count as nat) {
            Ok((xs, m)) => Ok((xs, n + m)),
            Err(e) => Err(e),
        }
    }
}

/// One more item adds its bytes at the end.
pub proof fn lemma_written_items_push<UT, T: FfiConverter<UT>>(
    items: Seq<<T as DeepView>::V>,
    x: <T as DeepView>::V,
)
    ensures
        written_items::<UT, T>(items.push(x)) == written_items::<UT, T>(items) + T::written(x),
    decreases items.len(),
{
    if items.len() == 0 {
        let one = items.push(x);
        assert(written_items::<UT, T>(one.drop_first()) == Seq::<u8>::empty());
    } else {
        lemma_written_items_push::<UT, T>(items.drop_first(), x);
        assert(items.push(x).drop_first() == items.drop_first().push(x));
    }
}

/// The bytes of the first items are no more than the bytes of all.
pub proof fn lemma_written_items_prefix<UT, T: FfiConverter<UT>>(
    items: Seq<<T as DeepView>::V>,
    k: int,
)
    requires
        0 <= k <= items.len(),
    ensures
        written_items::<UT, T>(items.take(k)).len() <= written_items::<UT, T>(items).len(),
    decreases items.len() - k,
{
    if k < items.len() {
        lemma_written_items_prefix::<UT, T>(items, k + 1);
        lemma_written_items_push::<UT, T>(items.take(k), items[k]);
        assert(items.take(k + 1) == items.take(k).push(items[k]));
    } else {
        assert(items.take(k) == items);
    }
}

/// Reading as many items as were written gives them back, whatever follows.
pub proof fn lemma_read_written_items<UT, T: FfiConverter<UT>>(
    items: Seq<<T as DeepView>::V>,
    rest: Seq<u8>,
)
    requires
        all_writable::<UT, T>(items),
    ensures
        read_items::<UT, T>(written_items::<UT, T>(items) + rest, items.len()) == Ok::<
            (Seq<<T as DeepView>::V>, int),
            DecodeError,
        >((items, written_items::<UT, T>(items).len() as int)),
    decreases items.len(),
{
    if items.len() == 0 {
        assert(items == Seq::<<T as DeepView>::V>::empty());
    } else {
        let head = T::written(items.first());
        let tail = written_items::<UT, T>(items.drop_first());
        T::read_inverts_write(items.first(), tail + rest);
        assert(head + (tail + rest) == (head + tail) + rest);
        assert((head + tail + rest).skip(head.len() as int) == tail + rest);
        lemma_read_written_items::<UT, T>(items.drop_first(), rest);
        assert(seq![items.first()] + items.drop_first() == items);
    }
}

/// Reading items takes up no more bytes than the window has, and gives as
/// many items as were asked for.
pub proof fn lemma_read_items_bounds<UT, T: FfiConverter<UT>>(bytes: Seq<u8>, count: nat)
    ensures
        read_items::<UT, T>(bytes, count) matches Ok((xs, m)) ==> 0 <= m <= bytes.len() && xs.len()
            == count,
    decreases count,
{
    if count > 0 {
        T::read_stays_in_bounds(bytes);
        match T::read(bytes) {
            Ok((x, n)) => {
                lemma_read_items_bounds::<UT, T>(bytes.skip(n), (count - 1) as nat);
            },
            Err(_) => {},
        }
    }
}

/// Reading `i + k` items is reading `i` items and then `k` more.
pub proof fn lemma_read_items_split<UT, T: FfiConverter<UT>>(bytes: Seq<u8>, i: nat, k: nat)
    ensures
        read_items::<UT, T>(bytes, i + k) == match read_items::<UT, T>(bytes, i) {
            Ok((xs, c)) => match read_items::<UT, T>(bytes.skip(c), k) {
                Ok((ys, d)) => Ok((xs + ys, c + d)),
                Err(e) => Err(e),
            },
            Err(e) => Err(e),
        },
    decreases i,
{
    if i == 0 {
        assert(bytes.skip(0) == bytes);
        match read_items::<UT, T>(bytes, k) {
            Ok(_) => {},
            Err(_) => {},
        }
    } else {
        T::read_stays_in_bounds(bytes);
        match T::read(bytes) {
            Ok((x, n)) => {
                lemma_read_items_split::<UT, T>(bytes.skip(n), (i - 1) as nat, k);
                lemma_read_items_bounds::<UT, T>(bytes.skip(n), (i - 1) as nat);
                match read_items::<UT, T>(bytes.skip(n), (i - 1) as nat) {
                    Ok((xs, c)) => {
                        assert(bytes.skip(n).skip(c) == bytes.skip(n + c));
                        match read_items::<UT, T>(bytes.skip(n + c), k) {
                            Ok((ys, d)) => {
                                assert(seq![x] + (xs + ys) == (seq![x] + xs) + ys);
                            },
                            Err(_) => {},
                        }
                    },
                    Err(_) => {},
                }
            },
            Err(_) => {},
        }
    }
}

impl<UT, T: FfiConverter<UT>> FfiConverter<UT> for Vec<T> {
    type FfiType = RustBuffer;

    open spec fn writable(v: Seq<<T as DeepView>::V>) -> bool {
        v.len() <= i32::MAX && all_writable::<UT, T>(v)
    }

    open spec fn lowerable(v: Seq<<T as DeepView>::V>) -> bool {
        Self::writable(v) && Self::written(v).len() <= i32::MAX
    }

    open spec fn lowered(v: Seq<<T as DeepView>::V>) -> Seq<u8> {
        Self::written(v)
    }

    open spec fn lifted(r: Seq<u8>) -> Result<Seq<<T as DeepView>::V>, DecodeError> {
        whole(Self::read(r), r.len())
    }

    open spec fn written(v: Seq<<T as DeepView>::V>) -> Seq<u8> {
        <i32 as FfiConverter<UT>>::written(v.len() as i32) + written_items::<UT, T>(v)
    }

    open spec fn read(bytes: Seq<u8>) -> Result<(Seq<<T as DeepView>::V>, int), DecodeError> {
        match <i32 as FfiConverter<UT>>::read(bytes) {
            Ok((count, n)) => read_counted::<UT, T>(bytes, count, n),
            Err(e) => Err(e),
        }
    }

    proof fn lift_inverts_lower(v: Seq<<T as DeepView>::V>) {
        Self::read_inverts_write(v, Seq::empty());
    }

    proof fn read_inverts_write(v: Seq<<T as DeepView>::V>, rest: Seq<u8>) {
        let count = <i32 as FfiConverter<UT>>::written(v.len() as i32);
        let body = written_items::<UT, T>(v);
        <i32 as FfiConverter<UT>>::read_inverts_write(v.len() as i32, body + rest);
        assert(count + (body + rest) == (count + body) + rest);
        assert((count + body + rest).skip(count.len() as int) == body + rest);
        lemma_read_written_items::<UT, T>(v, rest);
    }

    proof fn read_stays_in_bounds(bytes: Seq<u8>) {
        match <i32 as FfiConverter<UT>>::read(bytes) {
            Ok((count, n)) => {
                if count >= 0 {
                    lemma_read_items_bounds::<UT, T>(bytes.skip(n), count as nat);
                }
            },
            Err(_) => {},
        }
    }

    fn encoded_len(obj: &Vec<T>) -> Option<usize> {
        let ghost items = obj.deep_view();
        if obj.len() > 0x7fff_ffff {
            return None;
        }
        proof {
            lemma_be_bytes_len(to_unsigned(obj@.len() as int, 4), 4);
        }
        let mut total: usize = 4;
        let mut i: usize = 0;
        while i < obj.len()
            invariant
                i <= obj@.len(),
                items == obj.deep_view(),
                obj@.len() <= i32::MAX,
                <i32 as FfiConverter<UT>>::written(obj@.len() as i32).len() == 4,
                total == 4 + written_items::<UT, T>(items.take(i as int)).len(),
                total <= i32::MAX,
                all_writable::<UT, T>(items.take(i as int)),
            decreases obj@.len() - i,
        {
            proof {
                lemma_written_items_push::<UT, T>(items.take(i as int), items[i as int]);
                assert(items.take(i + 1) == items.take(i as int).push(items[i as int]));
                lemma_written_items_prefix::<UT, T>(items, i + 1);
            }
            match T::encoded_len(&obj[i]) {
                Some(n) => {
                    if n > 0x7fff_ffff - total {
                        return None;
                    }
                    total = total + n;
                },
                None => {
                    return None;
                },
            }
            i += 1;
        }
        assert(items.take(i as int) == items);
        Some(total)
    }

    fn can_lower(obj: &Vec<T>) -> bool {
        Self::encoded_len(obj).is_some()
    }

    fn lower(obj: Vec<T>) -> RustBuffer {
        let mut buf: Vec<u8> = Vec::new();
        Self::write(obj, &mut buf);
        RustBuffer::from_vec(buf)
    }

    fn try_lift(v: RustBuffer) -> Result<Vec<T>, DecodeError> {
        let vec = v.destroy_into_vec();
        let mut buf = vec.as_slice();
        proof {
            Self::read_stays_in_bounds(buf@);
        }
        let value = Self::try_read(&mut buf)?;
        check_consumed(buf)?;
        Ok(value)
    }

    fn write(obj: Vec<T>, buf: &mut Vec<u8>) {
        let ghost items = obj.deep_view();
        <i32 as FfiConverter<UT>>::write(obj.len() as i32, buf);
        let ghost counted = buf@;
        for item in it: obj.into_iter()
            invariant
                it.seq() == obj@,
                items == obj.deep_view(),
                all_writable::<UT, T>(items),
                buf@ == counted + written_items::<UT, T>(items.take(it.index() as int)),
        {
            proof {
                let i = it.index() as int;
                lemma_written_items_push::<UT, T>(items.take(i), items[i]);
                assert(items.take(i + 1) == items.take(i).push(items[i]));
            }
            T::write(item, buf);
        }
        proof {
            assert(items.take(items.len() as int) == items);
        }
    }

    fn try_read(buf: &mut &[u8]) -> Result<Vec<T>, DecodeError> {
        let mut ahead: &[u8] = *buf;
        let count = <i32 as FfiConverter<UT>>::try_read(&mut ahead)?;
        if count < 0 {
            return Err(DecodeError::NegativeLength { length: count });
        }
        let ghost n = buf@.len() - ahead@.len();
        let ghost body = ahead@;
        let mut items: Vec<T> = Vec::new();
        let mut i: i32 = 0;
        assert(items.deep_view() == Seq::<<T as DeepView>::V>::empty());
        while i < count
            invariant
                0 <= i <= count,
                0 <= n <= buf@.len(),
                body == buf@.skip(n),
                *buf == *old(buf),
                0 <= body.len() - ahead@.len(),
                ahead@ == body.skip(body.len() - ahead@.len()),
                read_items::<UT, T>(body, i as nat) == Ok::<(Seq<<T as DeepView>::V>, int), DecodeError>(
                    (items.deep_view(), body.len() - ahead@.len()),
                ),
                <i32 as FfiConverter<UT>>::read(buf@) == Ok::<(i32, int), DecodeError>((count, n)),
            decreases count - i,
        {
            let ghost before = items.deep_view();
            proof {
                T::read_stays_in_bounds(ahead@);
                lemma_read_items_split::<UT, T>(body, i as nat, 1);
                lemma_read_items_split::<UT, T>(body, i as nat, (count - i) as nat);
                match T::read(ahead@) {
                    Ok((x, m)) => {
                        assert(read_items::<UT, T>(ahead@.skip(m), 0) == Ok::<
                            (Seq<<T as DeepView>::V>, int),
                            DecodeError,
                        >((Seq::empty(), 0)));
                        assert(before + seq![x] == before.push(x));
                    },
                    Err(_) => {},
                }
            }
            let item = T::try_read(&mut ahead)?;
            items.push(item);
            assert(items.deep_view() == before.push(item.deep_view()));
            i += 1;
        }
        *buf = ahead;
        Ok(items)
    }
}

} // verus!
