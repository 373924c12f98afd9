mod byte_array;
mod byte_slice;
mod byte_vec;

pub(crate) use byte_slice::array_from_slice;
pub(crate) use byte_slice::lex_cmp_slices;
pub(crate) use byte_slice::slice_bytes_eq;

pub use byte_array::ByteArray;
pub use byte_slice::lemma_lex_cmp_antisymmetric;
pub use byte_slice::lemma_lex_cmp_equal;
pub use byte_slice::lemma_lex_cmp_transitive;
pub use byte_slice::spec_is_ascii;
pub use byte_slice::spec_lex_cmp;
pub use byte_slice::spec_is_ascii_whitespace;
pub use byte_slice::spec_trim_ascii;
pub use byte_slice::spec_trim_ascii_end;
pub use byte_slice::spec_trim_ascii_start;
pub use byte_slice::ByteSlice;
pub use byte_vec::ByteVec;

use vstd::prelude::*;

verus! {

/// The capability shared by every byte container: a length, indexed access,
/// sub-range borrowing, and conversion to an owned buffer.
pub trait Bytes: View<V = Seq<u8>> {
    /// Borrows the container's contents as a [`ByteSlice`] view.
    fn as_bytes<'s>(&'s self) -> (r: ByteSlice<'s>)
        ensures
            r@ == self@,
    ;

    /// Borrows the container's contents as a plain slice.
    fn as_slice<'s>(&'s self) -> (r: &'s [u8])
        ensures
            r@ == self@,
    ;

    /// The byte at `index`, or no result when `index` is out of bounds.
    fn get(&self, index: usize) -> (r: Option<u8>)
        ensures
            index < self@.len() ==> r == Some(self@[index as int]),
            index >= self@.len() ==> r is None,
    ;

    /// The sub-range `[start, end)` as a view, or no result when the range
    /// does not lie within the container.
    fn get_range<'s>(&'s self, start: usize, end: usize) -> (r: Option<ByteSlice<'s>>)
        ensures
            start <= end <= self@.len() ==> (r matches Some(v) && v@ == self@.subrange(
                start as int,
                end as int,
            )),
            !(start <= end <= self@.len()) ==> r is None,
    ;

    fn len(&self) -> (r: usize)
        ensures
            r == self@.len(),
    ;

    fn is_empty(&self) -> (r: bool)
        ensures
            r == (self@.len() == 0),
    {
        self.len() == 0
    }

    /// Divides the contents into two disjoint views at `mid`; together they
    /// carry exactly the original bytes.
    fn split_at<'s>(&'s self, mid: usize) -> (r: (ByteSlice<'s>, ByteSlice<'s>))
        requires
            mid <= self@.len(),
        ensures
            r.0@ == self@.take(mid as int),
            r.1@ == self@.skip(mid as int),
            r.0@.len() == mid,
            r.0@ + r.1@ == self@,
    ;

    /// Copies the contents into an owned buffer.
    fn to_vec(&self) -> (r: ByteVec)
        ensures
            r@ == self@,
    ;
}

} // verus!
