//! The conversion contract: how a value of a type crosses the boundary, in
//! both directions and in both forms.

use crate::buffer::RustBuffer;
use crate::error::DecodeError;
use vstd::prelude::*;

verus! {

/// The namespace tag of this crate's own conversions.
pub struct UniFfiTag;

/// Marks a type that is exported as an interface: shared across threads and
/// reached from the foreign side by handle.
pub trait Interface<UT>: Send + Sync + Sized {

}

/// How values of a type are handed to the foreign side and taken back.
///
/// The tag `UT` is the module on whose behalf the conversion is made, so that
/// several modules can each state the contract for one type.
///
/// The mathematical value of a native value is its deep view, and so is that
/// of a representation. The four spec functions `lowered`, `lifted`,
/// `written` and `read` say what the four operations compute, and the three
/// proof functions are the laws that every implementation owes: lifting
/// inverts lowering, reading inverts writing whatever follows the value in
/// the window, and a read never claims more bytes than the window has.
///
/// Lengths on the wire are 32-bit and signed, so not every value can be
/// written or lowered: `writable` and `lowerable` say which can, and
/// `encoded_len` and `can_lower` find it out of a value at hand.
pub trait FfiConverter<UT>: Sized + DeepView {
    /// The low-level type that carries a value over the boundary.
    type FfiType: DeepView;

    /// The values that can be written: those whose lengths fit the format.
    spec fn writable(v: <Self as DeepView>::V) -> bool;

    /// The values that can be lowered.
    spec fn lowerable(v: <Self as DeepView>::V) -> bool;

    /// The representation of a value.
    spec fn lowered(v: <Self as DeepView>::V) -> <Self::FfiType as DeepView>::V;

    /// The value that a representation stands for, or why it stands for none.
    spec fn lifted(r: <Self::FfiType as DeepView>::V) -> Result<<Self as DeepView>::V, DecodeError>;

    /// The bytes of a value.
    spec fn written(v: <Self as DeepView>::V) -> Seq<u8>;

    /// The value at the start of a window and the number of bytes it takes
    /// up, or why there is none.
    spec fn read(bytes: Seq<u8>) -> Result<(<Self as DeepView>::V, int), DecodeError>;

    /// Lifting what was lowered gives the value back.
    proof fn lift_inverts_lower(v: <Self as DeepView>::V)
        requires
            Self::lowerable(v),
        ensures
            Self::lifted(Self::lowered(v)) == Ok::<<Self as DeepView>::V, DecodeError>(v),
    ;

    /// Reading what was written gives the value back and stops right after
    /// it, whatever bytes follow.
    proof fn read_inverts_write(v: <Self as DeepView>::V, rest: Seq<u8>)
        requires
            Self::writable(v),
        ensures
            Self::read(Self::written(v) + rest) == Ok::<(<Self as DeepView>::V, int), DecodeError>(
                (v, Self::written(v).len() as int),
            ),
    ;

    /// A read takes up no more bytes than the window has.
    proof fn read_stays_in_bounds(bytes: Seq<u8>)
        ensures
            Self::read(bytes) matches Ok((_, n)) ==> 0 <= n <= bytes.len(),
    ;

    /// The number of bytes that `write` would append for `obj`, where `obj`
    /// can be written and they are few enough for one buffer.
    fn encoded_len(obj: &Self) -> (r: Option<usize>)
        ensures
            match r {
                Some(n) => Self::writable(obj.deep_view()) && n == Self::written(
                    obj.deep_view(),
                ).len() && n <= i32::MAX,
                None => !Self::writable(obj.deep_view()) || Self::written(obj.deep_view()).len()
                    > i32::MAX,
            },
    ;

    /// Whether `obj` can be lowered.
    fn can_lower(obj: &Self) -> (r: bool)
        ensures
            r == Self::lowerable(obj.deep_view()),
    ;

    /// Hands a value over: consumes it and gives its representation.
    fn lower(obj: Self) -> (r: Self::FfiType)
        requires
            Self::lowerable(obj.deep_view()),
        ensures
            r.deep_view() == Self::lowered(obj.deep_view()),
    ;

    /// Takes a value back from a representation that the foreign side made,
    /// or says why the representation stands for none.
    fn try_lift(v: Self::FfiType) -> (r: Result<Self, DecodeError>)
        ensures
            match Self::lifted(v.deep_view()) {
                Ok(x) => r matches Ok(obj) && obj.deep_view() == x,
                Err(e) => r matches Err(f) && f == e,
            },
    ;

    /// Appends the bytes of a value to `buf`.
    fn write(obj: Self, buf: &mut Vec<u8>)
        requires
            Self::writable(obj.deep_view()),
        ensures
            final(buf)@ == old(buf)@ + Self::written(obj.deep_view()),
    ;

    /// Reads one value from the start of the window and moves the window past
    /// it. On failure the window is left where it was.
    fn try_read(buf: &mut &[u8]) -> (r: Result<Self, DecodeError>)
        ensures
            match Self::read(old(buf)@) {
                Ok((x, n)) => r matches Ok(obj) && obj.deep_view() == x && final(buf)@ == old(buf)@.skip(n),
                Err(e) => r matches Err(f) && f == e && final(buf)@ == old(buf)@,
            },
    ;
}

/// What a read of a whole buffer of `len` bytes amounts to: the value that
/// was read, provided that the read took up every byte.
pub open spec fn whole<V>(read: Result<(V, int), DecodeError>, len: nat) -> Result<V, DecodeError> {
    match read {
        Ok((v, n)) => if n == len {
            Ok(v)
        } else {
            Err(DecodeError::TrailingData { remaining: (len - n) as usize })
        },
        Err(e) => Err(e),
    }
}

/// What a whole buffer stands for: the one value that its bytes encode,
/// provided that no byte follows it.
pub open spec fn read_whole<UT, T: FfiConverter<UT>>(bytes: Seq<u8>) -> Result<
    <T as DeepView>::V,
    DecodeError,
> {
    whole(T::read(bytes), bytes.len())
}

/// Insists that a window has been read to its end.
pub fn check_consumed(buf: &[u8]) -> (r: Result<(), DecodeError>)
    ensures
        r == if buf@.len() == 0 {
            Ok::<(), DecodeError>(())
        } else {
            Err::<(), DecodeError>(DecodeError::TrailingData { remaining: buf@.len() as usize })
        },
{
    let left = crate::cursor::remaining(buf);
    if left != 0 {
        return Err(DecodeError::TrailingData { remaining: left });
    }
    Ok(())
}

/// Lowers a value by writing it into a fresh buffer.
pub fn lower_into_rust_buffer<UT, T: FfiConverter<UT>>(obj: T) -> (r: RustBuffer)
    requires
        T::writable(obj.deep_view()),
        T::written(obj.deep_view()).len() <= i32::MAX,
    ensures
        r@ == T::written(obj.deep_view()),
{
    let mut buf: Vec<u8> = Vec::new();
    T::write(obj, &mut buf);
    RustBuffer::from_vec(buf)
}

/// Lifts a value from a buffer that must hold that value and nothing more.
pub fn try_lift_from_rust_buffer<UT, T: FfiConverter<UT>>(v: RustBuffer) -> (r: Result<T, DecodeError>)
    ensures
        match read_whole::<UT, T>(v@) {
            Ok(x) => r matches Ok(obj) && obj.deep_view() == x,
            Err(e) => r matches Err(f) && f == e,
        },
{
    let vec = v.destroy_into_vec();
    let mut buf = vec.as_slice();
    proof {
        T::read_stays_in_bounds(buf@);
    }
    let value = T::try_read(&mut buf)?;
    check_consumed(buf)?;
    Ok(value)
}

} // verus!
