//! Laws that relate the blob operations to one another, each stated over the
//! results of the calls it speaks of.
use vstd::prelude::*;
use vstd::std_specs::cmp::PartialEqSpec;

use crate::data::{Builder, Reader, TryFromSliceError};
use crate::ptr::MAX_BLOB_LEN;

verus! {

/// Every slice of at most `MAX_BLOB_LEN` bytes makes a reader, and the reader's
/// slice holds exactly the bytes given.
pub proof fn lemma_try_from_slice_accepts<'a>(
    s: &'a [u8],
    r: Result<Reader<'a>, TryFromSliceError>,
    out: &'a [u8],
)
    requires
        s@.len() <= MAX_BLOB_LEN,
        call_ensures(Reader::<'a>::try_from_slice, (s,), r),
        r matches Ok(d) ==> call_ensures(Reader::<'a>::as_slice, (&d,), out),
    ensures
        r is Ok,
        out@ == s@,
{
}

/// A slice of more than `MAX_BLOB_LEN` bytes is refused: `try_from_slice`
/// returns the error. (`from_slice` requires the same bound of its caller.)
pub proof fn lemma_oversized_slice_rejected<'a>(
    s: &'a [u8],
    r: Result<Reader<'a>, TryFromSliceError>,
)
    requires
        s@.len() > MAX_BLOB_LEN,
        call_ensures(Reader::<'a>::try_from_slice, (s,), r),
    ensures
        r is Err,
{
}

/// Both kinds of empty blob have length zero and say they are empty, and the
/// default reader is equal to the empty one.
pub proof fn lemma_empty_blobs<'a, 'b>(
    e: Reader<'a>,
    d: Reader<'a>,
    b: Builder<'b>,
    e_len: u32,
    e_is_empty: bool,
    b_len: u32,
    b_is_empty: bool,
)
    requires
        call_ensures(Reader::<'a>::empty, (), e),
        call_ensures(<Reader<'a> as Default>::default, (), d),
        call_ensures(Builder::<'b>::empty, (), b),
        call_ensures(Reader::<'a>::len, (&e,), e_len),
        call_ensures(Reader::<'a>::is_empty, (&e,), e_is_empty),
        call_ensures(Builder::<'b>::len, (&b,), b_len),
        call_ensures(Builder::<'b>::is_empty, (&b,), b_is_empty),
    ensures
        e_len == 0,
        e_is_empty,
        b_len == 0,
        b_is_empty,
        d.eq_spec(&e),
{
}

/// Equality is reflexive and symmetric, for readers, for builders, and
/// between the two kinds.
pub proof fn lemma_eq_reflexive_symmetric<'a, 'b, 'c, 'd>(
    r1: Reader<'a>,
    r2: Reader<'b>,
    b1: Builder<'c>,
    b2: Builder<'d>,
)
    ensures
        r1.eq_spec(&r1),
        b1.eq_spec(&b1),
        r1.eq_spec(&r2) == r2.eq_spec(&r1),
        b1.eq_spec(&b2) == b2.eq_spec(&b1),
        r1.eq_spec(&b1) == b1.eq_spec(&r1),
{
}

/// A builder and a reader of the same bytes are equal to each other, in both
/// directions, and each is equal to those bytes.
pub proof fn lemma_eq_across_kinds<'a, 'b>(b: Builder<'a>, r: Reader<'b>, x: &[u8])
    requires
        b@ == x@,
        r@ == x@,
    ensures
        b.eq_spec(&r),
        r.eq_spec(&b),
        b.eq_spec(x),
        x.eq_spec(&b),
        r.eq_spec(x),
        x.eq_spec(&r),
{
}

/// A reader made from a builder sees the builder's bytes: its slice and the
/// builder's slice hold the same bytes.
pub proof fn lemma_reader_aliases_builder<'a, 'b>(
    b: &'b Builder<'a>,
    r: Reader<'b>,
    from_reader: &'b [u8],
    from_builder: &'b [u8],
)
    requires
        b.wf(),
        call_ensures(Builder::<'a>::as_reader, (b,), r),
        call_ensures(Reader::<'b>::as_slice, (&r,), from_reader),
        call_ensures(Builder::<'a>::as_slice, (b,), from_builder),
    ensures
        from_reader@ == from_builder@,
{
}

/// After byte `v` is written at index `i` of the slice that `as_slice_mut`
/// hands out, the builder holds `v` there and its other bytes as before,
/// and its length, and so its well-formedness, is unchanged.
pub proof fn lemma_read_after_write<'a, 'b>(
    b: &'b mut Builder<'a>,
    s: &'b mut [u8],
    i: int,
    v: u8,
)
    requires
        old(b).wf(),
        0 <= i < old(b)@.len(),
        call_ensures(Builder::<'a>::as_slice_mut, (b,), s),
        final(s)@ == s@.update(i, v),
    ensures
        final(b)@[i] == v,
        final(b)@.len() == old(b)@.len(),
        final(b).wf(),
        forall|j: int| 0 <= j < old(b)@.len() && j != i ==> final(b)@[j] == old(b)@[j],
{
}

} // verus!
