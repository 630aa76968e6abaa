//! Trusted view of the fixed-capacity vector that holds the pressed keys.
//!
//! The pressed-key buffer is a `heapless::Vec<KeyCode, 6>`. Verus does not
//! read that crate, so the type is declared opaque here, its contents are
//! named by [`key_buf_seq`], and each method the decoder calls is wrapped in
//! a function whose contract states, over that name, what the crate's source
//! shows the method to do.

use vstd::prelude::*;

use crate::key_codes::KeyCode;

verus! {

#[verifier::external_type_specification]
#[verifier::external_body]
#[verifier::reject_recursive_types(T)]
pub struct ExHeaplessVec<T, const N: usize>(heapless::Vec<T, N>);

/// The elements that a pressed-key buffer holds, oldest press first.
pub uninterp spec fn key_buf_seq(v: heapless::Vec<KeyCode, 6>) -> Seq<KeyCode>;

/// The elements of `s` that differ from `key`, in their original order.
pub open spec fn remove_key(s: Seq<KeyCode>, key: KeyCode) -> Seq<KeyCode>
    decreases s.len(),
{
    if s.len() == 0 {
        s
    } else {
        let rest = remove_key(s.drop_last(), key);
        if s.last() == key {
            rest
        } else {
            rest.push(s.last())
        }
    }
}

/// True when `a` and `b` are different key codes; the predicate handed to the
/// buffer's `retain` call.
pub(crate) fn key_differs(a: &KeyCode, b: &KeyCode) -> (r: bool)
    ensures
        r == (a != b),
{
    *a != *b
}

/// Relies on `heapless::Vec::new`: it constructs an empty vector.
#[verifier::external_body]
pub(crate) fn buf_new() -> (r: heapless::Vec<KeyCode, 6>)
    ensures
        key_buf_seq(r) == Seq::<KeyCode>::empty(),
{
    heapless::Vec::new()
}

/// Relies on `heapless::Vec::len` (through its slice view): the number of
/// elements the vector holds.
#[verifier::external_body]
pub(crate) fn buf_len(v: &heapless::Vec<KeyCode, 6>) -> (r: usize)
    ensures
        r == key_buf_seq(*v).len(),
{
    v.len()
}

/// Relies on the vector's slice view: indexing yields the element at that
/// position. The index is in bounds, so the call cannot panic.
#[verifier::external_body]
pub(crate) fn buf_at(v: &heapless::Vec<KeyCode, 6>, i: usize) -> (r: KeyCode)
    requires
        i < key_buf_seq(*v).len(),
    ensures
        r == key_buf_seq(*v)[i as int],
{
    v[i]
}

/// Relies on `slice::contains` over the vector's slice view, with the
/// key code's derived structural equality.
#[verifier::external_body]
pub(crate) fn buf_contains(v: &heapless::Vec<KeyCode, 6>, key: KeyCode) -> (r: bool)
    ensures
        r == key_buf_seq(*v).contains(key),
{
    v.contains(&key)
}

/// Relies on `heapless::Vec::push`: it appends when the vector is below its
/// capacity of 6 and returns the item back in `Err` when it is full.
#[verifier::external_body]
pub(crate) fn buf_push(v: &mut heapless::Vec<KeyCode, 6>, item: KeyCode) -> (r: Result<
    (),
    KeyCode,
>)
    ensures
        key_buf_seq(*final(v)) == (if key_buf_seq(*old(v)).len() < 6 {
            key_buf_seq(*old(v)).push(item)
        } else {
            key_buf_seq(*old(v))
        }),
        r == (if key_buf_seq(*old(v)).len() < 6 {
            Ok::<(), KeyCode>(())
        } else {
            Err::<(), KeyCode>(item)
        }),
{
    v.push(item)
}

/// Relies on `heapless::Vec::remove`: it removes and returns the element at
/// the index, shifting the elements after it left. The index is in bounds,
/// so the call cannot panic.
#[verifier::external_body]
pub(crate) fn buf_remove(v: &mut heapless::Vec<KeyCode, 6>, i: usize) -> (r: KeyCode)
    requires
        i < key_buf_seq(*old(v)).len(),
    ensures
        r == key_buf_seq(*old(v))[i as int],
        key_buf_seq(*final(v)) == key_buf_seq(*old(v)).remove(i as int),
{
    v.remove(i)
}

/// Relies on `heapless::Vec::retain`: it keeps, in their original order,
/// exactly the elements the predicate accepts; here, those that differ from
/// `key`.
#[verifier::external_body]
pub(crate) fn buf_retain_ne(v: &mut heapless::Vec<KeyCode, 6>, key: KeyCode)
    ensures
        key_buf_seq(*final(v)) == remove_key(key_buf_seq(*old(v)), key),
{
    v.retain(|k| key_differs(k, &key));
}

/// Relies on `heapless::Vec::truncate`: it keeps the first `n` elements and
/// drops the rest, and leaves the vector unchanged when `n` is not below its
/// length.
#[verifier::external_body]
pub(crate) fn buf_truncate(v: &mut heapless::Vec<KeyCode, 6>, n: usize)
    ensures
        key_buf_seq(*final(v)) == (if n <= key_buf_seq(*old(v)).len() {
            key_buf_seq(*old(v)).subrange(0, n as int)
        } else {
            key_buf_seq(*old(v))
        }),
{
    v.truncate(n);
}

} // verus!
