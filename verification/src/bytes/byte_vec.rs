use super::byte_slice::slice_bytes_eq;
use super::Bytes;
use super::ByteSlice;
use vstd::prelude::*;
use vstd::slice::slice_to_vec;

verus! {

/// A growable, owned byte buffer: the only container here that owns
/// heap-allocated storage.
#[derive(Debug, Hash)]
pub struct ByteVec(Vec<u8>);

impl View for ByteVec {
    type V = Seq<u8>;

    closed spec fn view(&self) -> Seq<u8> {
        self.0@
    }
}

impl ByteVec {
    /// An empty buffer.
    pub fn new() -> (r: Self)
        ensures
            r@ == Seq::<u8>::empty(),
    {
        ByteVec(Vec::new())
    }

    /// An empty buffer whose storage is reserved up front.
    pub fn with_capacity(capacity: usize) -> (r: Self)
        ensures
            r@ == Seq::<u8>::empty(),
    {
        ByteVec(Vec::with_capacity(capacity))
    }

    /// Takes ownership of an existing byte sequence without copying.
    pub fn from_vec(vec: Vec<u8>) -> (r: Self)
        ensures
            r@ == vec@,
    {
        ByteVec(vec)
    }

    /// Copies a borrowed slice into a fresh buffer.
    pub fn from_slice(slice: &[u8]) -> (r: Self)
        ensures
            r@ == slice@,
    {
        ByteVec(slice_to_vec(slice))
    }

    /// Copies a borrowed view into a fresh buffer.
    pub fn from_bytes(bytes: &ByteSlice<'_>) -> (r: Self)
        ensures
            r@ == bytes@,
    {
        ByteVec(slice_to_vec(bytes.as_slice()))
    }

    pub fn as_slice(&self) -> (r: &[u8])
        ensures
            r@ == self@,
    {
        self.0.as_slice()
    }

    pub fn as_bytes<'s>(&'s self) -> (r: ByteSlice<'s>)
        ensures
            r@ == self@,
    {
        ByteSlice::from_slice(self.0.as_slice())
    }

    pub fn as_vec(&self) -> (r: &Vec<u8>)
        ensures
            r@ == self@,
    {
        &self.0
    }

    /// Appends the given bytes at the back, growing the buffer.
    pub fn extend_from_slice(&mut self, data: &[u8])
        ensures
            final(self)@ == old(self)@ + data@,
    {
        self.0.extend_from_slice(data);
    }
}

impl Clone for ByteVec {
    /// The clone holds the same bytes.
    fn clone(&self) -> (r: Self)
        ensures
            r@ == self@,
    {
        ByteVec(slice_to_vec(self.0.as_slice()))
    }
}

impl PartialEq for ByteVec {
    /// Equality is byte-wise.
    fn eq(&self, other: &Self) -> (r: bool) {
        slice_bytes_eq(self.0.as_slice(), other.0.as_slice())
    }
}

impl vstd::std_specs::cmp::PartialEqSpecImpl for ByteVec {
    open spec fn obeys_eq_spec() -> bool {
        true
    }

    open spec fn eq_spec(&self, other: &Self) -> bool {
        self@ == other@
    }
}

impl PartialOrd for ByteVec {
    /// Comparison is total and lexicographic over bytes.
    fn partial_cmp(&self, other: &Self) -> (r: Option<core::cmp::Ordering>) {
        Some(super::byte_slice::lex_cmp_slices(self.0.as_slice(), other.0.as_slice()))
    }
}

impl vstd::std_specs::cmp::PartialOrdSpecImpl for ByteVec {
    open spec fn obeys_partial_cmp_spec() -> bool {
        true
    }

    open spec fn partial_cmp_spec(&self, other: &Self) -> Option<core::cmp::Ordering> {
        Some(super::byte_slice::spec_lex_cmp(self@, other@))
    }
}

impl Bytes for ByteVec {
    fn as_bytes<'s>(&'s self) -> (r: ByteSlice<'s>) {
        ByteSlice::from_slice(self.0.as_slice())
    }

    fn as_slice<'s>(&'s self) -> (r: &'s [u8]) {
        self.0.as_slice()
    }

    fn get(&self, index: usize) -> (r: Option<u8>) {
        if index < self.0.len() {
            Some(*vstd::slice::slice_index_get(self.0.as_slice(), index))
        } else {
            None
        }
    }

    fn get_range<'s>(&'s self, start: usize, end: usize) -> (r: Option<ByteSlice<'s>>) {
        if start <= end && end <= self.0.len() {
            Some(ByteSlice::from_slice(vstd::slice::slice_subrange(self.0.as_slice(), start, end)))
        } else {
            None
        }
    }

    fn len(&self) -> (r: usize) {
        self.0.len()
    }

    fn split_at<'s>(&'s self, mid: usize) -> (r: (ByteSlice<'s>, ByteSlice<'s>)) {
        self.as_bytes().split_at(mid)
    }

    fn to_vec(&self) -> (r: ByteVec) {
        self.clone()
    }
}

impl From<Vec<u8>> for ByteVec {
    fn from(vec: Vec<u8>) -> (r: Self) {
        ByteVec(vec)
    }
}

impl vstd::std_specs::convert::FromSpecImpl<Vec<u8>> for ByteVec {
    open spec fn obeys_from_spec() -> bool {
        true
    }

    closed spec fn from_spec(vec: Vec<u8>) -> Self {
        ByteVec(vec)
    }
}

impl From<&Vec<u8>> for ByteVec {
    fn from(vec: &Vec<u8>) -> (r: Self) {
        ByteVec(slice_to_vec(vec.as_slice()))
    }
}

impl vstd::std_specs::convert::FromSpecImpl<&Vec<u8>> for ByteVec {
    open spec fn obeys_from_spec() -> bool {
        false
    }

    closed spec fn from_spec(vec: &Vec<u8>) -> Self {
        ByteVec(*vec)
    }
}

impl From<&mut Vec<u8>> for ByteVec {
    fn from(vec: &mut Vec<u8>) -> (r: Self) {
        ByteVec(slice_to_vec(vec.as_slice()))
    }
}

impl vstd::std_specs::convert::FromSpecImpl<&mut Vec<u8>> for ByteVec {
    open spec fn obeys_from_spec() -> bool {
        false
    }

    closed spec fn from_spec(vec: &mut Vec<u8>) -> Self {
        ByteVec(*vec)
    }
}

impl From<&[u8]> for ByteVec {
    fn from(slice: &[u8]) -> (r: Self) {
        ByteVec(slice_to_vec(slice))
    }
}

impl vstd::std_specs::convert::FromSpecImpl<&[u8]> for ByteVec {
    open spec fn obeys_from_spec() -> bool {
        false
    }

    closed spec fn from_spec(slice: &[u8]) -> Self {
        vstd::pervasive::arbitrary()
    }
}

impl From<&mut [u8]> for ByteVec {
    fn from(slice: &mut [u8]) -> (r: Self) {
        ByteVec(slice_to_vec(slice))
    }
}

impl vstd::std_specs::convert::FromSpecImpl<&mut [u8]> for ByteVec {
    open spec fn obeys_from_spec() -> bool {
        false
    }

    closed spec fn from_spec(slice: &mut [u8]) -> Self {
        vstd::pervasive::arbitrary()
    }
}

impl<'a> From<ByteSlice<'a>> for ByteVec {
    fn from(bytes: ByteSlice<'a>) -> (r: Self) {
        ByteVec(slice_to_vec(bytes.as_slice()))
    }
}

impl<'a> vstd::std_specs::convert::FromSpecImpl<ByteSlice<'a>> for ByteVec {
    open spec fn obeys_from_spec() -> bool {
        false
    }

    closed spec fn from_spec(bytes: ByteSlice<'a>) -> Self {
        vstd::pervasive::arbitrary()
    }
}

impl From<ByteVec> for Vec<u8> {
    fn from(byte_vec: ByteVec) -> (r: Self) {
        byte_vec.0
    }
}

impl vstd::std_specs::convert::FromSpecImpl<ByteVec> for Vec<u8> {
    open spec fn obeys_from_spec() -> bool {
        true
    }

    closed spec fn from_spec(byte_vec: ByteVec) -> Self {
        byte_vec.0
    }
}

} // verus!
