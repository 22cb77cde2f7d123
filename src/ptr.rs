//! Pointer-level blob handles: a byte range of message memory together with
//! its length, already known to fit the wire format's element count.
use vstd::prelude::*;

verus! {

/// The largest number of bytes a blob can hold: a list pointer carries its
/// element count in 29 bits.
pub const MAX_BLOB_LEN: u32 = 536870911;

/// A shared handle to the bytes of a blob.
#[derive(Clone, Copy)]
pub struct BlobReader<'a> {
    bytes: &'a [u8],
}

impl<'a> View for BlobReader<'a> {
    type V = Seq<u8>;

    closed spec fn view(&self) -> Seq<u8> {
        self.bytes@
    }
}

impl<'a> BlobReader<'a> {
    #[verifier::type_invariant]
    spec fn inv(self) -> bool {
        self.bytes@.len() <= MAX_BLOB_LEN
    }

    /// A handle to no bytes.
    pub fn empty() -> (r: Self)
        ensures
            r@ == Seq::<u8>::empty(),
    {
        let bytes: &'a [u8] = &[];
        BlobReader { bytes }
    }

    /// A handle to `slice`, or `None` where it is too long to be a blob.
    pub fn new(slice: &'a [u8]) -> (r: Option<Self>)
        ensures
            slice@.len() <= MAX_BLOB_LEN <==> r.is_some(),
            r matches Some(h) ==> h@ == slice@,
    {
        if slice.len() <= MAX_BLOB_LEN as usize {
            Some(BlobReader { bytes: slice })
        } else {
            None
        }
    }

    /// The number of bytes.
    pub fn len(&self) -> (r: u32)
        ensures
            r as int == self@.len(),
            r <= MAX_BLOB_LEN,
    {
        proof {
            use_type_invariant(self);
        }
        self.bytes.len() as u32
    }

    /// The bytes, borrowed for as long as the memory they live in.
    pub fn as_slice(&self) -> (r: &'a [u8])
        ensures
            r@ == self@,
    {
        self.bytes
    }
}

/// An exclusive handle to the bytes of a blob: they may be overwritten, but
/// their count never changes.
pub struct BlobBuilder<'a> {
    bytes: &'a mut [u8],
}

impl<'a> View for BlobBuilder<'a> {
    type V = Seq<u8>;

    closed spec fn view(&self) -> Seq<u8> {
        self.bytes@
    }
}

impl<'a> BlobBuilder<'a> {
    /// The handle's length fits the wire format. Writes through
    /// `as_slice_mut` change bytes, never their count, so this holds for as
    /// long as the handle lives.
    pub open spec fn wf(&self) -> bool {
        self@.len() <= MAX_BLOB_LEN
    }

    /// A handle to no bytes.
    pub fn empty() -> (r: Self)
        ensures
            r@ == Seq::<u8>::empty(),
            r.wf(),
    {
        let bytes: &'a mut [u8] = &mut [];
        BlobBuilder { bytes }
    }

    /// A handle to `slice`, or `None` where it is too long to be a blob.
    pub fn new(slice: &'a mut [u8]) -> (r: Option<Self>)
        ensures
            old(slice)@.len() <= MAX_BLOB_LEN <==> r.is_some(),
            r matches Some(h) ==> h@ == old(slice)@ && h.wf(),
    {
        if slice.len() <= MAX_BLOB_LEN as usize {
            Some(BlobBuilder { bytes: slice })
        } else {
            None
        }
    }

    /// The number of bytes.
    pub fn len(&self) -> (r: u32)
        requires
            self.wf(),
        ensures
            r as int == self@.len(),
    {
        self.bytes.len() as u32
    }

    /// The bytes, read-only, for as long as this handle is borrowed.
    pub fn as_slice(&self) -> (r: &[u8])
        ensures
            r@ == self@,
    {
        &*self.bytes
    }

    /// The bytes, writable in place, for as long as this handle is borrowed.
    pub fn as_slice_mut(&mut self) -> (r: &mut [u8])
        ensures
            r@ == old(self)@,
            final(self)@ == final(r)@,
    {
        &mut *self.bytes
    }

    /// A shared handle to the same bytes.
    pub fn as_reader(&self) -> (r: BlobReader<'_>)
        requires
            self.wf(),
        ensures
            r@ == self@,
    {
        BlobReader { bytes: &*self.bytes }
    }
}

} // verus!
