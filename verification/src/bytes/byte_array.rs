use super::byte_slice::slice_bytes_eq;
use super::byte_slice::spec_is_ascii;
use super::byte_slice::spec_trim_ascii;
use super::byte_slice::spec_trim_ascii_end;
use super::byte_slice::spec_trim_ascii_start;
use super::ByteSlice;
use crate::io::ReadError;
use crate::io::WriteError;
use vstd::prelude::*;

verus! {

broadcast use vstd::array::group_array_axioms;

/// An owned, fixed-size byte container: exactly `N` bytes held inline.
#[derive(Clone, Copy, Debug, Hash)]
pub struct ByteArray<const N: usize>([u8; N]);

impl<const N: usize> View for ByteArray<N> {
    type V = Seq<u8>;

    closed spec fn view(&self) -> Seq<u8> {
        self.0@
    }
}

impl<const N: usize> ByteArray<N> {
    /// A zero-filled container.
    pub fn new() -> (r: Self)
        ensures
            r@.len() == N,
            forall|i: int| 0 <= i < N ==> r@[i] == 0u8,
    {
        ByteArray([0; N])
    }

    /// Copies a same-sized array into a fresh container.
    pub fn from_slice(slice: &[u8; N]) -> (r: Self)
        ensures
            r@ == slice@,
    {
        ByteArray(*slice)
    }

    pub fn as_slice(&self) -> (r: &[u8; N])
        ensures
            r@ == self@,
    {
        &self.0
    }

    /// Borrows the contents as a [`ByteSlice`] view.
    pub fn as_bytes<'s>(&'s self) -> (r: ByteSlice<'s>)
        ensures
            r@ == self@,
    {
        ByteSlice::from_slice(self.0.as_slice())
    }

    pub fn len(&self) -> (r: usize)
        ensures
            r == self@.len(),
            r == N,
    {
        proof {
            assert(self@.len() == N);
        }
        N
    }

    pub fn is_empty(&self) -> (r: bool)
        ensures
            r == (self@.len() == 0),
    {
        N == 0
    }

    /// Divides the contents into two disjoint views at `mid`; together they
    /// carry exactly the original bytes.
    pub fn split_at<'s>(&'s self, mid: usize) -> (r: (ByteSlice<'s>, ByteSlice<'s>))
        requires
            mid <= N,
        ensures
            r.0@ == self@.take(mid as int),
            r.1@ == self@.skip(mid as int),
            r.0@.len() == mid,
            r.0@ + r.1@ == self@,
    {
        self.as_bytes().split_at(mid)
    }

    /// Like [`Self::split_at`], but yields no result instead of demanding
    /// `mid <= N`.
    pub fn split_at_checked<'s>(&'s self, mid: usize) -> (r: Option<
        (ByteSlice<'s>, ByteSlice<'s>),
    >)
        ensures
            mid <= N ==> (r matches Some(p) && p.0@ == self@.take(mid as int) && p.1@
                == self@.skip(mid as int) && p.0@ + p.1@ == self@),
            mid > N ==> r is None,
    {
        self.as_bytes().split_at_checked(mid)
    }

    /// Whether every byte is within the ASCII range.
    pub fn is_ascii(&self) -> (r: bool)
        ensures
            r == spec_is_ascii(self@),
    {
        self.as_bytes().is_ascii()
    }

    /// Removes leading ASCII whitespace.
    pub fn trim_ascii_start<'s>(&'s self) -> (r: ByteSlice<'s>)
        ensures
            r@ == spec_trim_ascii_start(self@),
    {
        self.as_bytes().trim_ascii_start()
    }

    /// Removes trailing ASCII whitespace.
    pub fn trim_ascii_end<'s>(&'s self) -> (r: ByteSlice<'s>)
        ensures
            r@ == spec_trim_ascii_end(self@),
    {
        self.as_bytes().trim_ascii_end()
    }

    /// Removes ASCII whitespace from both ends.
    pub fn trim_ascii<'s>(&'s self) -> (r: ByteSlice<'s>)
        ensures
            r@ == spec_trim_ascii(self@),
    {
        self.as_bytes().trim_ascii()
    }

    /// The first byte, or no result when `N` is zero.
    pub fn first<'s>(&'s self) -> (r: Option<&'s u8>)
        ensures
            self@.len() == 0 ==> r is None,
            self@.len() > 0 ==> (r matches Some(b) && *b == self@[0]),
    {
        self.as_bytes().first()
    }

    /// The last byte, or no result when `N` is zero.
    pub fn last<'s>(&'s self) -> (r: Option<&'s u8>)
        ensures
            self@.len() == 0 ==> r is None,
            self@.len() > 0 ==> (r matches Some(b) && *b == self@.last()),
    {
        self.as_bytes().last()
    }

    /// Peels the first byte off the front.
    pub fn split_first<'s>(&'s self) -> (r: Option<(&'s u8, ByteSlice<'s>)>)
        ensures
            self@.len() == 0 ==> r is None,
            self@.len() > 0 ==> (r matches Some(p) && *p.0 == self@[0] && p.1@ == self@.skip(1)),
    {
        self.as_bytes().split_first()
    }

    /// Peels the last byte off the back.
    pub fn split_last<'s>(&'s self) -> (r: Option<(&'s u8, ByteSlice<'s>)>)
        ensures
            self@.len() == 0 ==> r is None,
            self@.len() > 0 ==> (r matches Some(p) && *p.0 == self@.last() && p.1@ == self@.take(
                self@.len() - 1,
            )),
    {
        self.as_bytes().split_last()
    }

    /// Copies the first `N2` bytes out, or yields no result when the
    /// container is shorter than `N2`.
    pub fn first_chunk<const N2: usize>(&self) -> (r: Option<[u8; N2]>)
        ensures
            N2 > self@.len() ==> r is None,
            N2 <= self@.len() ==> (r matches Some(c) && c@ == self@.take(N2 as int)),
    {
        self.as_bytes().first_chunk::<N2>()
    }

    /// Copies the last `N2` bytes out, or yields no result when the
    /// container is shorter than `N2`.
    pub fn last_chunk<const N2: usize>(&self) -> (r: Option<[u8; N2]>)
        ensures
            N2 > self@.len() ==> r is None,
            N2 <= self@.len() ==> (r matches Some(c) && c@ == self@.skip(self@.len() - N2)),
    {
        self.as_bytes().last_chunk::<N2>()
    }

    /// Peels the first `N2` bytes off the front together with the remainder.
    pub fn split_first_chunk<'s, const N2: usize>(&'s self) -> (r: Option<([u8; N2], ByteSlice<'s>)>)
        ensures
            N2 > self@.len() ==> r is None,
            N2 <= self@.len() ==> (r matches Some(p) && p.0@ == self@.take(N2 as int) && p.1@
                == self@.skip(N2 as int)),
    {
        self.as_bytes().split_first_chunk::<N2>()
    }

    /// Peels the last `N2` bytes off the back together with the remainder.
    pub fn split_last_chunk<'s, const N2: usize>(&'s self) -> (r: Option<(ByteSlice<'s>, [u8; N2])>)
        ensures
            N2 > self@.len() ==> r is None,
            N2 <= self@.len() ==> (r matches Some(p) && p.0@ == self@.take(self@.len() - N2)
                && p.1@ == self@.skip(self@.len() - N2)),
    {
        self.as_bytes().split_last_chunk::<N2>()
    }
}

impl<const N: usize> PartialEq for ByteArray<N> {
    /// Equality is byte-wise.
    fn eq(&self, other: &Self) -> (r: bool) {
        slice_bytes_eq(self.0.as_slice(), other.0.as_slice())
    }
}

impl<const N: usize> vstd::std_specs::cmp::PartialEqSpecImpl for ByteArray<N> {
    open spec fn obeys_eq_spec() -> bool {
        true
    }

    open spec fn eq_spec(&self, other: &Self) -> bool {
        self@ == other@
    }
}

impl<const N: usize> PartialOrd for ByteArray<N> {
    /// Comparison is total and lexicographic over bytes.
    fn partial_cmp(&self, other: &Self) -> (r: Option<core::cmp::Ordering>) {
        Some(super::byte_slice::lex_cmp_slices(self.0.as_slice(), other.0.as_slice()))
    }
}

impl<const N: usize> vstd::std_specs::cmp::PartialOrdSpecImpl for ByteArray<N> {
    open spec fn obeys_partial_cmp_spec() -> bool {
        true
    }

    open spec fn partial_cmp_spec(&self, other: &Self) -> Option<core::cmp::Ordering> {
        Some(super::byte_slice::spec_lex_cmp(self@, other@))
    }
}

impl<const N: usize> crate::Codec for ByteArray<N> {
    /// A fixed-size block's image is its `N` bytes as they stand.
    open spec fn wire(&self) -> Seq<u8> {
        self@
    }

    proof fn wire_len_fits(&self) {
        assert(self@.len() == N);
    }

    proof fn wire_prefix_determines(a: Self, b: Self, x: Seq<u8>, y: Seq<u8>) {
        assert forall|i: int| 0 <= i < N implies a.0@[i] == b.0@[i] by {
            assert((a.wire() + x)[i] == a.0@[i]);
            assert((b.wire() + y)[i] == b.0@[i]);
        }
        assert(a.0@ =~= b.0@);
        assert(a.0 =~= b.0);
    }

    fn encode<W: crate::io::Write>(&self, io: &mut W) -> (r: Result<(), WriteError>) {
        io.write(self.0.as_slice())
    }

    /// A block decodes through a single read, so a failure leaves the
    /// reader untouched.
    fn decode<R: crate::io::Read>(io: &mut R) -> (r: Result<Self, ReadError>)
        ensures
            r is Err ==> final (io).avail() == old(io).avail(),
    {
        let ghost pre = io.avail();
        match io.read::<N>() {
            Ok(data) => {
                proof {
                    assert(pre.take(N as int) + pre.skip(N as int) =~= pre);
                }
                Ok(ByteArray(data))
            },
            Err(e) => Err(e),
        }
    }
}

impl<const N: usize> From<[u8; N]> for ByteArray<N> {
    fn from(bytes: [u8; N]) -> (r: Self) {
        ByteArray(bytes)
    }
}

impl<const N: usize> vstd::std_specs::convert::FromSpecImpl<[u8; N]> for ByteArray<N> {
    open spec fn obeys_from_spec() -> bool {
        true
    }

    closed spec fn from_spec(bytes: [u8; N]) -> Self {
        ByteArray(bytes)
    }
}

impl<const N: usize> From<&[u8; N]> for ByteArray<N> {
    fn from(bytes: &[u8; N]) -> (r: Self) {
        ByteArray(*bytes)
    }
}

impl<const N: usize> vstd::std_specs::convert::FromSpecImpl<&[u8; N]> for ByteArray<N> {
    open spec fn obeys_from_spec() -> bool {
        true
    }

    closed spec fn from_spec(bytes: &[u8; N]) -> Self {
        ByteArray(*bytes)
    }
}

impl<const N: usize> From<ByteArray<N>> for [u8; N] {
    fn from(bytes: ByteArray<N>) -> (r: Self) {
        bytes.0
    }
}

impl<const N: usize> vstd::std_specs::convert::FromSpecImpl<ByteArray<N>> for [u8; N] {
    open spec fn obeys_from_spec() -> bool {
        true
    }

    closed spec fn from_spec(bytes: ByteArray<N>) -> Self {
        bytes.0
    }
}

} // verus!
