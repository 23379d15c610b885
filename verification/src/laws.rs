//! The laws of the conversion contract, stated for every convertible type
//! and every namespace tag.

use crate::buffer::RustBuffer;
use crate::compound::{read_items, written_items};
use crate::converter::{read_whole, FfiConverter};
use crate::error::DecodeError;
use crate::time::Timestamp;
use vstd::prelude::*;

verus! {

/// Lifting what was lowered gives the value back.
pub proof fn lift_of_lower<UT, T: FfiConverter<UT>>(v: <T as DeepView>::V)
    requires
        T::lowerable(v),
    ensures
        T::lifted(T::lowered(v)) == Ok::<<T as DeepView>::V, DecodeError>(v),
{
    T::lift_inverts_lower(v);
}

/// Reading what was written gives the value back and leaves no byte
/// unread, so that the bytes of a value are a whole buffer for it.
pub proof fn read_of_write<UT, T: FfiConverter<UT>>(v: <T as DeepView>::V)
    requires
        T::writable(v),
    ensures
        T::read(T::written(v)) == Ok::<(<T as DeepView>::V, int), DecodeError>(
            (v, T::written(v).len() as int),
        ),
        read_whole::<UT, T>(T::written(v)) == Ok::<<T as DeepView>::V, DecodeError>(v),
{
    T::read_inverts_write(v, Seq::empty());
}

/// With one more byte after the bytes of a value, a read from a window
/// still gives the value and leaves that byte unread, and the bytes are no
/// whole buffer any more: one byte trails.
pub proof fn one_byte_too_many<UT, T: FfiConverter<UT>>(v: <T as DeepView>::V, extra: u8)
    requires
        T::writable(v),
    ensures
        T::read(T::written(v).push(extra)) == Ok::<(<T as DeepView>::V, int), DecodeError>(
            (v, T::written(v).len() as int),
        ),
        read_whole::<UT, T>(T::written(v).push(extra)) == Err::<<T as DeepView>::V, DecodeError>(
            DecodeError::TrailingData { remaining: 1 },
        ),
{
    T::read_inverts_write(v, seq![extra]);
    assert(T::written(v) + seq![extra] == T::written(v).push(extra));
}

/// The type `T` is lowered by writing: its representation is a buffer of
/// the bytes that `write` gives, and a buffer stands for the one value that
/// its bytes encode and nothing more.
pub open spec fn lowered_by_writing<UT, T>() -> bool where T: FfiConverter<UT, FfiType = RustBuffer> {
    &&& forall|v: <T as DeepView>::V| #[trigger] T::lowered(v) == T::written(v)
    &&& forall|v: <T as DeepView>::V| #[trigger] T::lowerable(v) ==> T::writable(v)
    &&& forall|r: Seq<u8>| #[trigger] T::lifted(r) == read_whole::<UT, T>(r)
}

/// Of a type that is lowered by writing, what was lowered is read back
/// with no byte left, and lifted back. With one more byte after it, it is
/// still read back, with that byte left, and it is no longer lifted: one
/// byte trails.
pub proof fn one_byte_too_many_to_lift<UT, T>(v: <T as DeepView>::V, extra: u8) where
    T: FfiConverter<UT, FfiType = RustBuffer>,

    requires
        lowered_by_writing::<UT, T>(),
        T::lowerable(v),
    ensures
        T::read(T::lowered(v)) == Ok::<(<T as DeepView>::V, int), DecodeError>(
            (v, T::lowered(v).len() as int),
        ),
        T::lifted(T::lowered(v)) == Ok::<<T as DeepView>::V, DecodeError>(v),
        T::read(T::lowered(v).push(extra)) == Ok::<(<T as DeepView>::V, int), DecodeError>(
            (v, T::lowered(v).len() as int),
        ),
        T::lifted(T::lowered(v).push(extra)) == Err::<<T as DeepView>::V, DecodeError>(
            DecodeError::TrailingData { remaining: 1 },
        ),
{
    read_of_write::<UT, T>(v);
    one_byte_too_many::<UT, T>(v, extra);
}

/// Optional values, sequences and points in time are lowered by writing.
pub proof fn compound_values_are_lowered_by_writing<UT, T: FfiConverter<UT>>()
    ensures
        lowered_by_writing::<UT, Option<T>>(),
        lowered_by_writing::<UT, Vec<T>>(),
        lowered_by_writing::<UT, Timestamp>(),
{
}

/// The tag `B` forwards to the tag `A` for the type `X`: what `B` lowers,
/// lifts, writes and reads is what `A` does.
pub open spec fn forwards<X, A, B>() -> bool where
    X: FfiConverter<A> + FfiConverter<B, FfiType = <X as FfiConverter<A>>::FfiType>,
 {
    &&& forall|v: <X as DeepView>::V| #[trigger]
        <X as FfiConverter<B>>::lowerable(v) == <X as FfiConverter<A>>::lowerable(v)
    &&& forall|v: <X as DeepView>::V| #[trigger]
        <X as FfiConverter<B>>::writable(v) == <X as FfiConverter<A>>::writable(v)
    &&& forall|v: <X as DeepView>::V| #[trigger]
        <X as FfiConverter<B>>::lowered(v) == <X as FfiConverter<A>>::lowered(v)
    &&& forall|v: <X as DeepView>::V| #[trigger]
        <X as FfiConverter<B>>::written(v) == <X as FfiConverter<A>>::written(v)
    &&& forall|r: <<X as FfiConverter<A>>::FfiType as DeepView>::V| #[trigger]
        <X as FfiConverter<B>>::lifted(r) == <X as FfiConverter<A>>::lifted(r)
    &&& forall|bytes: Seq<u8>| #[trigger]
        <X as FfiConverter<B>>::read(bytes) == <X as FfiConverter<A>>::read(bytes)
}

/// Where one tag forwards to another, what either lowers the other lifts,
/// and what either writes the other reads.
pub proof fn forwarding_is_compatible<X, A, B>(v: <X as DeepView>::V, rest: Seq<u8>) where
    X: FfiConverter<A> + FfiConverter<B, FfiType = <X as FfiConverter<A>>::FfiType>,

    requires
        forwards::<X, A, B>(),
    ensures
        <X as FfiConverter<A>>::lowerable(v) ==> <X as FfiConverter<B>>::lifted(
            <X as FfiConverter<A>>::lowered(v),
        ) == Ok::<<X as DeepView>::V, DecodeError>(v),
        <X as FfiConverter<B>>::lowerable(v) ==> <X as FfiConverter<A>>::lifted(
            <X as FfiConverter<B>>::lowered(v),
        ) == Ok::<<X as DeepView>::V, DecodeError>(v),
        <X as FfiConverter<A>>::writable(v) ==> <X as FfiConverter<B>>::read(
            <X as FfiConverter<A>>::written(v) + rest,
        ) == Ok::<(<X as DeepView>::V, int), DecodeError>(
            (v, <X as FfiConverter<A>>::written(v).len() as int),
        ),
        <X as FfiConverter<B>>::writable(v) ==> <X as FfiConverter<A>>::read(
            <X as FfiConverter<B>>::written(v) + rest,
        ) == Ok::<(<X as DeepView>::V, int), DecodeError>(
            (v, <X as FfiConverter<B>>::written(v).len() as int),
        ),
{
    if <X as FfiConverter<A>>::lowerable(v) {
        <X as FfiConverter<A>>::lift_inverts_lower(v);
    }
    if <X as FfiConverter<A>>::writable(v) {
        <X as FfiConverter<A>>::read_inverts_write(v, rest);
    }
}

/// The conversions of the integers, of `bool`, of `String` and of
/// `Timestamp` are the same for every tag.
pub proof fn every_tag_agrees_on_plain_values<A, B>()
    ensures
        forwards::<u8, A, B>(),
        forwards::<i8, A, B>(),
        forwards::<u16, A, B>(),
        forwards::<i16, A, B>(),
        forwards::<u32, A, B>(),
        forwards::<i32, A, B>(),
        forwards::<u64, A, B>(),
        forwards::<i64, A, B>(),
        forwards::<bool, A, B>(),
        forwards::<String, A, B>(),
        forwards::<Timestamp, A, B>(),
{
}

/// Where two tags agree on a type they agree on its optional values.
pub proof fn tags_agree_on_options<T, A, B>() where
    T: FfiConverter<A> + FfiConverter<B, FfiType = <T as FfiConverter<A>>::FfiType>,

    requires
        forwards::<T, A, B>(),
    ensures
        forwards::<Option<T>, A, B>(),
{
}

/// Where two tags agree on a type they write its sequences alike.
proof fn lemma_written_items_agree<T, A, B>(items: Seq<<T as DeepView>::V>) where
    T: FfiConverter<A> + FfiConverter<B, FfiType = <T as FfiConverter<A>>::FfiType>,

    requires
        forwards::<T, A, B>(),
    ensures
        written_items::<B, T>(items) == written_items::<A, T>(items),
    decreases items.len(),
{
    if items.len() > 0 {
        lemma_written_items_agree::<T, A, B>(items.drop_first());
    }
}

/// Where two tags agree on a type they read its sequences alike.
proof fn lemma_read_items_agree<T, A, B>(bytes: Seq<u8>, count: nat) where
    T: FfiConverter<A> + FfiConverter<B, FfiType = <T as FfiConverter<A>>::FfiType>,

    requires
        forwards::<T, A, B>(),
    ensures
        read_items::<B, T>(bytes, count) == read_items::<A, T>(bytes, count),
    decreases count,
{
    if count > 0 {
        match <T as FfiConverter<A>>::read(bytes) {
            Ok((_, n)) => {
                lemma_read_items_agree::<T, A, B>(bytes.skip(n), (count - 1) as nat);
            },
            Err(_) => {},
        }
    }
}

/// Where two tags agree on a type they agree on its sequences.
pub proof fn tags_agree_on_sequences<T, A, B>() where
    T: FfiConverter<A> + FfiConverter<B, FfiType = <T as FfiConverter<A>>::FfiType>,

    requires
        forwards::<T, A, B>(),
    ensures
        forwards::<Vec<T>, A, B>(),
{
    assert forall|v: Seq<<T as DeepView>::V>| #[trigger]
        <Vec<T> as FfiConverter<B>>::written(v) == <Vec<T> as FfiConverter<A>>::written(v) by {
        lemma_written_items_agree::<T, A, B>(v);
    }
    assert forall|bytes: Seq<u8>| #[trigger]
        <Vec<T> as FfiConverter<B>>::read(bytes) == <Vec<T> as FfiConverter<A>>::read(bytes) by {
        match <i32 as FfiConverter<A>>::read(bytes) {
            Ok((count, n)) => {
                if count >= 0 {
                    lemma_read_items_agree::<T, A, B>(bytes.skip(n), count as nat);
                }
            },
            Err(_) => {},
        }
    }
}

} // verus!
