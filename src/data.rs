//! A fixed-size blob of bytes contained in a message, read through a
//! `Reader` or written in place through a `Builder`.
use vstd::prelude::*;

use crate::ptr::{BlobBuilder, BlobReader, MAX_BLOB_LEN};

verus! {

/// Keeps `TryFromSliceError` from being built outside this module.
#[derive(Debug, Copy, Clone, PartialEq, Eq, Structural)]
struct Sealed;

/// The error returned when a slice is too large to be a blob.
#[derive(Debug, Copy, Clone, PartialEq, Eq, Structural)]
pub struct TryFromSliceError(Sealed);

impl TryFromSliceError {
    /// The message that describes this error.
    pub fn message(&self) -> (r: &'static str)
        ensures
            r@ == "attempted to create a data blob from too large a slice"@,
    {
        "attempted to create a data blob from too large a slice"
    }
}

/// The marker that names a blob without choosing between the two views; it
/// carries nothing and is never used as a view itself.
#[derive(Clone, Copy)]
pub struct Family;

/// A blob, over the representation `T`: a `BlobReader` for the immutable
/// view, a `BlobBuilder` for the mutable one.
#[derive(Clone, Copy)]
pub struct Data<T = Family>(T);

/// An immutable view of a blob's bytes.
pub type Reader<'a> = Data<BlobReader<'a>>;

/// A mutable, fixed-length view of a blob's bytes.
pub type Builder<'a> = Data<BlobBuilder<'a>>;

impl<'a> View for Reader<'a> {
    type V = Seq<u8>;

    closed spec fn view(&self) -> Seq<u8> {
        self.0@
    }
}

impl<'a> View for Builder<'a> {
    type V = Seq<u8>;

    closed spec fn view(&self) -> Seq<u8> {
        self.0@
    }
}

impl<'a> Reader<'a> {
    /// Creates an empty data reader.
    pub fn empty() -> (r: Self)
        ensures
            r@ == Seq::<u8>::empty(),
    {
        Data(BlobReader::empty())
    }

    /// Creates a data reader from a slice of bytes, which must not be too
    /// large to be contained in a message.
    pub fn from_slice(slice: &'a [u8]) -> (r: Self)
        requires
            slice@.len() <= MAX_BLOB_LEN,
        ensures
            r@ == slice@,
    {
        Data(BlobReader::new(slice).unwrap())
    }

    /// Creates a data reader from a slice of bytes, or fails where the slice
    /// is too large to be contained in a message.
    pub fn try_from_slice(slice: &'a [u8]) -> (r: Result<Self, TryFromSliceError>)
        ensures
            r is Ok <==> slice@.len() <= MAX_BLOB_LEN,
            r matches Ok(d) ==> d@ == slice@,
    {
        match BlobReader::new(slice) {
            Some(b) => Ok(Data(b)),
            None => Err(TryFromSliceError(Sealed)),
        }
    }

    /// The number of bytes.
    pub fn len(&self) -> (r: u32)
        ensures
            r as int == self@.len(),
            r <= MAX_BLOB_LEN,
    {
        self.0.len()
    }

    /// Whether the blob holds no bytes.
    pub fn is_empty(&self) -> (r: bool)
        ensures
            r == (self@.len() == 0),
    {
        self.len() == 0
    }

    /// The bytes, borrowed for as long as the memory they live in.
    pub fn as_slice(&self) -> (r: &'a [u8])
        ensures
            r@ == self@,
    {
        self.0.as_slice()
    }
}

impl<'a> Builder<'a> {
    /// The builder's length fits the wire format; every way of making a
    /// builder establishes this, and writes through `as_slice_mut` keep it.
    pub open spec fn wf(&self) -> bool {
        self@.len() <= MAX_BLOB_LEN
    }

    /// Creates an empty data builder over no memory.
    pub fn empty() -> (r: Self)
        ensures
            r@ == Seq::<u8>::empty(),
            r.wf(),
    {
        Data(BlobBuilder::empty())
    }

    /// A reader of the same bytes as this builder: no copy is made.
    pub fn as_reader(&self) -> (r: Reader<'_>)
        requires
            self.wf(),
        ensures
            r@ == self@,
    {
        Data(self.0.as_reader())
    }

    /// The number of bytes.
    pub fn len(&self) -> (r: u32)
        requires
            self.wf(),
        ensures
            r as int == self@.len(),
    {
        self.0.len()
    }

    /// Whether the blob holds no bytes.
    pub fn is_empty(&self) -> (r: bool)
        requires
            self.wf(),
        ensures
            r == (self@.len() == 0),
    {
        self.len() == 0
    }

    /// The bytes, read-only.
    pub fn as_slice(&self) -> (r: &[u8])
        ensures
            r@ == self@,
    {
        self.0.as_slice()
    }

    /// The bytes, writable in place: what is written through the result is
    /// what the builder holds afterwards.
    pub fn as_slice_mut(&mut self) -> (r: &mut [u8])
        ensures
            r@ == old(self)@,
            final(self)@ == final(r)@,
    {
        self.0.as_slice_mut()
    }
}

/// Whether two byte slices hold the same bytes, in the same order.
fn bytes_eq(a: &[u8], b: &[u8]) -> (r: bool)
    ensures
        r == (a@ == b@),
{
    if a.len() != b.len() {
        return false;
    }
    let mut i: usize = 0;
    while i < a.len()
        invariant
            a@.len() == b@.len(),
            i <= a@.len(),
            forall|j: int| 0 <= j < i ==> a@[j] == b@[j],
        decreases a@.len() - i,
    {
        if a[i] != b[i] {
            return false;
        }
        i = i + 1;
    }
    assert(a@ =~= b@);
    true
}

impl<'a> From<BlobReader<'a>> for Reader<'a> {
    fn from(repr: BlobReader<'a>) -> (r: Self) {
        Data(repr)
    }
}

impl<'a> vstd::std_specs::convert::FromSpecImpl<BlobReader<'a>> for Reader<'a> {
    open spec fn obeys_from_spec() -> bool {
        true
    }

    closed spec fn from_spec(repr: BlobReader<'a>) -> Self {
        Data(repr)
    }
}

impl<'a> Reader<'a> {
    /// A reader made from a handle holds the handle's bytes.
    pub proof fn lemma_from_handle(repr: BlobReader<'a>)
        ensures
            <Self as vstd::std_specs::convert::FromSpec<BlobReader<'a>>>::from_spec(repr)@ == repr@,
    {
    }

    /// The handle taken back out of a reader holds the reader's bytes.
    pub proof fn lemma_into_handle(value: Self)
        ensures
            <BlobReader<'a> as vstd::std_specs::convert::FromSpec<Self>>::from_spec(value)@ == value@,
    {
    }

    /// Making a reader from a handle and taking the handle back out gives
    /// the same handle, and the other way round the same reader.
    pub proof fn lemma_handle_round_trip(repr: BlobReader<'a>, value: Self)
        ensures
            <BlobReader<'a> as vstd::std_specs::convert::FromSpec<Self>>::from_spec(
                <Self as vstd::std_specs::convert::FromSpec<BlobReader<'a>>>::from_spec(repr),
            ) == repr,
            <Self as vstd::std_specs::convert::FromSpec<BlobReader<'a>>>::from_spec(
                <BlobReader<'a> as vstd::std_specs::convert::FromSpec<Self>>::from_spec(value),
            ) == value,
    {
    }
}

impl<'a> From<Reader<'a>> for BlobReader<'a> {
    fn from(value: Reader<'a>) -> (r: Self) {
        value.0
    }
}

impl<'a> vstd::std_specs::convert::FromSpecImpl<Reader<'a>> for BlobReader<'a> {
    open spec fn obeys_from_spec() -> bool {
        true
    }

    closed spec fn from_spec(value: Reader<'a>) -> Self {
        value.0
    }
}

impl<'a> core::ops::Deref for Reader<'a> {
    type Target = [u8];

    fn deref(&self) -> (r: &[u8])
        ensures
            r@ == self@,
    {
        self.as_slice()
    }
}

impl<'a> AsRef<[u8]> for Reader<'a> {
    fn as_ref(&self) -> &[u8] {
        self.as_slice()
    }
}

impl<'a> AsRef<BlobReader<'a>> for Reader<'a> {
    fn as_ref(&self) -> &BlobReader<'a> {
        &self.0
    }
}

impl<'a> Default for Reader<'a> {
    fn default() -> (r: Self)
        ensures
            r@ == Seq::<u8>::empty(),
    {
        Self::empty()
    }
}

impl<'a, 'b> PartialEq<Reader<'b>> for Reader<'a> {
    fn eq(&self, other: &Reader<'b>) -> (r: bool) {
        bytes_eq(self.as_slice(), other.as_slice())
    }
}

impl<'a, 'b> vstd::std_specs::cmp::PartialEqSpecImpl<Reader<'b>> for Reader<'a> {
    open spec fn obeys_eq_spec() -> bool {
        true
    }

    open spec fn eq_spec(&self, other: &Reader<'b>) -> bool {
        self@ == other@
    }
}

impl<'a> PartialEq<[u8]> for Reader<'a> {
    fn eq(&self, other: &[u8]) -> (r: bool) {
        bytes_eq(self.as_slice(), other)
    }
}

impl<'a> vstd::std_specs::cmp::PartialEqSpecImpl<[u8]> for Reader<'a> {
    open spec fn obeys_eq_spec() -> bool {
        true
    }

    open spec fn eq_spec(&self, other: &[u8]) -> bool {
        self@ == other@
    }
}

impl<'a> PartialEq<Reader<'a>> for [u8] {
    fn eq(&self, other: &Reader<'a>) -> (r: bool) {
        bytes_eq(self, other.as_slice())
    }
}

impl<'a> vstd::std_specs::cmp::PartialEqSpecImpl<Reader<'a>> for [u8] {
    open spec fn obeys_eq_spec() -> bool {
        true
    }

    open spec fn eq_spec(&self, other: &Reader<'a>) -> bool {
        self@ == other@
    }
}

impl<'a> From<BlobBuilder<'a>> for Builder<'a> {
    fn from(repr: BlobBuilder<'a>) -> (r: Self) {
        Data(repr)
    }
}

impl<'a> vstd::std_specs::convert::FromSpecImpl<BlobBuilder<'a>> for Builder<'a> {
    open spec fn obeys_from_spec() -> bool {
        true
    }

    closed spec fn from_spec(repr: BlobBuilder<'a>) -> Self {
        Data(repr)
    }
}

impl<'a> Builder<'a> {
    /// A builder made from a handle holds the handle's bytes.
    pub proof fn lemma_from_handle(repr: BlobBuilder<'a>)
        ensures
            <Self as vstd::std_specs::convert::FromSpec<BlobBuilder<'a>>>::from_spec(repr)@ == repr@,
    {
    }

    /// The handle taken back out of a builder holds the builder's bytes.
    pub proof fn lemma_into_handle(value: Self)
        ensures
            <BlobBuilder<'a> as vstd::std_specs::convert::FromSpec<Self>>::from_spec(value)@ == value@,
    {
    }

    /// Making a builder from a handle and taking the handle back out gives
    /// the same handle, and the other way round the same builder.
    pub proof fn lemma_handle_round_trip(repr: BlobBuilder<'a>, value: Self)
        ensures
            <BlobBuilder<'a> as vstd::std_specs::convert::FromSpec<Self>>::from_spec(
                <Self as vstd::std_specs::convert::FromSpec<BlobBuilder<'a>>>::from_spec(repr),
            ) == repr,
            <Self as vstd::std_specs::convert::FromSpec<BlobBuilder<'a>>>::from_spec(
                <BlobBuilder<'a> as vstd::std_specs::convert::FromSpec<Self>>::from_spec(value),
            ) == value,
    {
    }
}

impl<'a> From<Builder<'a>> for BlobBuilder<'a> {
    fn from(value: Builder<'a>) -> (r: Self) {
        value.0
    }
}

impl<'a> vstd::std_specs::convert::FromSpecImpl<Builder<'a>> for BlobBuilder<'a> {
    open spec fn obeys_from_spec() -> bool {
        true
    }

    closed spec fn from_spec(value: Builder<'a>) -> Self {
        value.0
    }
}

impl<'a> AsRef<BlobBuilder<'a>> for Builder<'a> {
    fn as_ref(&self) -> &BlobBuilder<'a> {
        &self.0
    }
}

impl<'a> AsRef<[u8]> for Builder<'a> {
    fn as_ref(&self) -> &[u8] {
        self.as_slice()
    }
}

impl<'a> core::ops::Deref for Builder<'a> {
    type Target = [u8];

    fn deref(&self) -> (r: &[u8])
        ensures
            r@ == self@,
    {
        self.as_slice()
    }
}

impl<'a> core::ops::DerefMut for Builder<'a> {
    fn deref_mut(&mut self) -> (r: &mut [u8])
        ensures
            r@ == old(self)@,
            final(self)@ == final(r)@,
    {
        self.as_slice_mut()
    }
}

impl<'a, 'b> PartialEq<Builder<'b>> for Builder<'a> {
    fn eq(&self, other: &Builder<'b>) -> (r: bool) {
        bytes_eq(self.as_slice(), other.as_slice())
    }
}

impl<'a, 'b> vstd::std_specs::cmp::PartialEqSpecImpl<Builder<'b>> for Builder<'a> {
    open spec fn obeys_eq_spec() -> bool {
        true
    }

    open spec fn eq_spec(&self, other: &Builder<'b>) -> bool {
        self@ == other@
    }
}

impl<'a, 'b> PartialEq<Reader<'b>> for Builder<'a> {
    fn eq(&self, other: &Reader<'b>) -> (r: bool) {
        bytes_eq(self.as_slice(), other.as_slice())
    }
}

impl<'a, 'b> vstd::std_specs::cmp::PartialEqSpecImpl<Reader<'b>> for Builder<'a> {
    open spec fn obeys_eq_spec() -> bool {
        true
    }

    open spec fn eq_spec(&self, other: &Reader<'b>) -> bool {
        self@ == other@
    }
}

impl<'a, 'b> PartialEq<Builder<'b>> for Reader<'a> {
    fn eq(&self, other: &Builder<'b>) -> (r: bool) {
        bytes_eq(self.as_slice(), other.as_slice())
    }
}

impl<'a, 'b> vstd::std_specs::cmp::PartialEqSpecImpl<Builder<'b>> for Reader<'a> {
    open spec fn obeys_eq_spec() -> bool {
        true
    }

    open spec fn eq_spec(&self, other: &Builder<'b>) -> bool {
        self@ == other@
    }
}

impl<'a> PartialEq<[u8]> for Builder<'a> {
    fn eq(&self, other: &[u8]) -> (r: bool) {
        bytes_eq(self.as_slice(), other)
    }
}

impl<'a> vstd::std_specs::cmp::PartialEqSpecImpl<[u8]> for Builder<'a> {
    open spec fn obeys_eq_spec() -> bool {
        true
    }

    open spec fn eq_spec(&self, other: &[u8]) -> bool {
        self@ == other@
    }
}

impl<'a> PartialEq<Builder<'a>> for [u8] {
    fn eq(&self, other: &Builder<'a>) -> (r: bool) {
        bytes_eq(self, other.as_slice())
    }
}

impl<'a> vstd::std_specs::cmp::PartialEqSpecImpl<Builder<'a>> for [u8] {
    open spec fn obeys_eq_spec() -> bool {
        true
    }

    open spec fn eq_spec(&self, other: &Builder<'a>) -> bool {
        self@ == other@
    }
}

} // verus!
