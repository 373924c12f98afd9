use crate::bytes::ByteSlice;
use vstd::prelude::*;
use vstd::slice::slice_to_vec;

verus! {

/// A growable, owned byte buffer kept deliberately small: construction and
/// borrowing as a view, nothing more.
#[derive(Debug, Hash)]
pub struct BytesBuf(Vec<u8>);

impl View for BytesBuf {
    type V = Seq<u8>;

    closed spec fn view(&self) -> Seq<u8> {
        self.0@
    }
}

impl BytesBuf {
    /// An empty buffer.
    pub fn new() -> (r: Self)
        ensures
            r@ == Seq::<u8>::empty(),
    {
        BytesBuf(Vec::new())
    }

    /// An empty buffer whose storage is reserved up front.
    pub fn with_capacity(capacity: usize) -> (r: Self)
        ensures
            r@ == Seq::<u8>::empty(),
    {
        BytesBuf(Vec::with_capacity(capacity))
    }

    pub fn as_slice(&self) -> (r: &[u8])
        ensures
            r@ == self@,
    {
        self.0.as_slice()
    }

    /// Borrows the buffer's contents as a [`ByteSlice`] view.
    pub fn as_bytes<'s>(&'s self) -> (r: ByteSlice<'s>)
        ensures
            r@ == self@,
    {
        ByteSlice::from_slice(self.0.as_slice())
    }
}

impl Clone for BytesBuf {
    /// The clone holds the same bytes.
    fn clone(&self) -> (r: Self)
        ensures
            r@ == self@,
    {
        BytesBuf(slice_to_vec(self.0.as_slice()))
    }
}

impl PartialEq for BytesBuf {
    /// Equality is byte-wise.
    fn eq(&self, other: &Self) -> (r: bool) {
        crate::bytes::slice_bytes_eq(self.0.as_slice(), other.0.as_slice())
    }
}

impl PartialOrd for BytesBuf {
    /// Comparison is total and lexicographic over bytes.
    fn partial_cmp(&self, other: &Self) -> (r: Option<core::cmp::Ordering>) {
        Some(crate::bytes::lex_cmp_slices(self.0.as_slice(), other.0.as_slice()))
    }
}

impl vstd::std_specs::cmp::PartialOrdSpecImpl for BytesBuf {
    open spec fn obeys_partial_cmp_spec() -> bool {
        true
    }

    open spec fn partial_cmp_spec(&self, other: &Self) -> Option<core::cmp::Ordering> {
        Some(crate::bytes::spec_lex_cmp(self@, other@))
    }
}

impl vstd::std_specs::cmp::PartialEqSpecImpl for BytesBuf {
    open spec fn obeys_eq_spec() -> bool {
        true
    }

    open spec fn eq_spec(&self, other: &Self) -> bool {
        self@ == other@
    }
}

} // verus!
