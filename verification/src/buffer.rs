//! Variable-size data that the native side hands over as a pointer and a
//! length.
//!
//! The memory behind the pointer belongs to the native side and is only
//! good for the duration of one invocation. Here the pointer is a borrowed
//! slice, or `None` for the null pointer, and the data is copied into a
//! vector of its own before anything else is done with it.

use vstd::prelude::*;

verus! {

/// Whether a pointer and a length describe memory that may be read: a
/// length of zero always does; a positive length needs a pointer that is
/// not null with at least that many elements behind it.
pub open spec fn readable<T>(start: Option<&[T]>, length: int) -> bool {
    length > 0 ==> (start matches Some(data) && length <= data@.len())
}

/// The elements that a pointer and a length describe: the first `length`
/// elements behind the pointer, and nothing at all for a length of zero,
/// whatever the pointer is.
pub open spec fn pointed_to<T>(start: Option<&[T]>, length: int) -> Seq<T> {
    if length <= 0 {
        Seq::empty()
    } else {
        start->0@.subrange(0, length)
    }
}

/// Copies the elements that a pointer and a length describe into a vector
/// that owns them. With a length of zero the pointer is not looked at and
/// the vector is empty.
pub fn ptr_to_vec<T: Copy>(start: Option<&[T]>, length: usize) -> (out: Vec<T>)
    requires
        readable(start, length as int),
    ensures
        out@ == pointed_to(start, length as int),
        length == 0 ==> out@.len() == 0,
        out@.len() == length,
{
    let mut out: Vec<T> = Vec::new();
    if length == 0 {
        return out;
    }
    match start {
        Some(data) => {
            let mut i: usize = 0;
            while i < length
                invariant
                    i <= length <= data@.len(),
                    out@ == data@.subrange(0, i as int),
                decreases length - i,
            {
                out.push(data[i]);
                i += 1;
                assert(out@ =~= data@.subrange(0, i as int));
            }
        },
        None => {},
    }
    out
}

/// Copies a whole slice into a vector that owns its elements.
pub fn copy_of<T: Copy>(data: &[T]) -> (out: Vec<T>)
    ensures
        out@ == data@,
{
    let out = ptr_to_vec(Some(data), data.len());
    assert(data@.subrange(0, data@.len() as int) =~= data@);
    out
}

/// A length of zero gives no elements, whether the pointer is null or not.
pub proof fn lemma_zero_length_is_empty<T>(start: Option<&[T]>)
    ensures
        readable(start, 0),
        pointed_to(start, 0) == Seq::<T>::empty(),
{
}

} // verus!
