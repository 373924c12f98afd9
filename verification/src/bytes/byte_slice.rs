use super::Bytes;
use super::ByteVec;
use core::cmp::Ordering;
use vstd::prelude::*;
use vstd::slice::slice_subrange;
use vstd::slice::slice_to_vec;

verus! {

/// ASCII whitespace: space, horizontal tab, line feed, form feed, carriage
/// return.
pub open spec fn spec_is_ascii_whitespace(b: u8) -> bool {
    b == 0x20 || b == 0x09 || b == 0x0a || b == 0x0c || b == 0x0d
}

/// The sequence with its leading ASCII whitespace removed.
pub open spec fn spec_trim_ascii_start(s: Seq<u8>) -> Seq<u8>
    decreases s.len(),
{
    if s.len() > 0 && spec_is_ascii_whitespace(s[0]) {
        spec_trim_ascii_start(s.skip(1))
    } else {
        s
    }
}

/// The sequence with its trailing ASCII whitespace removed.
pub open spec fn spec_trim_ascii_end(s: Seq<u8>) -> Seq<u8>
    decreases s.len(),
{
    if s.len() > 0 && spec_is_ascii_whitespace(s.last()) {
        spec_trim_ascii_end(s.take(s.len() - 1))
    } else {
        s
    }
}

/// The sequence with ASCII whitespace removed from both ends.
pub open spec fn spec_trim_ascii(s: Seq<u8>) -> Seq<u8> {
    spec_trim_ascii_end(spec_trim_ascii_start(s))
}

/// Whether every byte of the sequence is within the ASCII range.
pub open spec fn spec_is_ascii(s: Seq<u8>) -> bool {
    forall|i: int| 0 <= i < s.len() ==> s[i] < 128
}

/// Total lexicographic order over byte sequences.
pub open spec fn spec_lex_cmp(a: Seq<u8>, b: Seq<u8>) -> Ordering
    decreases a.len(),
{
    if a.len() == 0 && b.len() == 0 {
        Ordering::Equal
    } else if a.len() == 0 {
        Ordering::Less
    } else if b.len() == 0 {
        Ordering::Greater
    } else if a[0] < b[0] {
        Ordering::Less
    } else if a[0] > b[0] {
        Ordering::Greater
    } else {
        spec_lex_cmp(a.skip(1), b.skip(1))
    }
}

/// The lexicographic order reports two sequences equal exactly when they
/// are the same sequence: together with antisymmetry and transitivity
/// below, comparison is a total order over byte sequences.
pub proof fn lemma_lex_cmp_equal(a: Seq<u8>, b: Seq<u8>)
    ensures
        spec_lex_cmp(a, b) == Ordering::Equal <==> a == b,
    decreases a.len(),
{
    if a.len() == 0 && b.len() == 0 {
        assert(a =~= b);
    } else if a.len() == 0 || b.len() == 0 {
        assert(a != b);
    } else if a[0] == b[0] {
        lemma_lex_cmp_equal(a.skip(1), b.skip(1));
        if spec_lex_cmp(a, b) == Ordering::Equal {
            assert(a.skip(1) == b.skip(1));
            assert forall|i: int| 0 <= i < a.len() implies a[i] == b[i] by {
                if i > 0 {
                    assert(a.skip(1)[i - 1] == a[i]);
                    assert(b.skip(1)[i - 1] == b[i]);
                }
            }
            assert(a =~= b);
        }
        if a == b {
            assert(a.skip(1) =~= b.skip(1));
        }
    } else {
        if a == b {
            assert(a[0] == b[0]);
        }
    }
}

/// The lexicographic order is antisymmetric: swapping the operands swaps
/// `Less` and `Greater` and keeps `Equal`.
pub proof fn lemma_lex_cmp_antisymmetric(a: Seq<u8>, b: Seq<u8>)
    ensures
        spec_lex_cmp(a, b) == Ordering::Less <==> spec_lex_cmp(b, a) == Ordering::Greater,
    decreases a.len(),
{
    if a.len() > 0 && b.len() > 0 && a[0] == b[0] {
        lemma_lex_cmp_antisymmetric(a.skip(1), b.skip(1));
    }
}

/// The lexicographic order is transitive.
pub proof fn lemma_lex_cmp_transitive(a: Seq<u8>, b: Seq<u8>, c: Seq<u8>)
    requires
        spec_lex_cmp(a, b) == Ordering::Less,
        spec_lex_cmp(b, c) == Ordering::Less,
    ensures
        spec_lex_cmp(a, c) == Ordering::Less,
    decreases a.len(),
{
    if a.len() == 0 {
        assert(b.len() > 0);
        assert(c.len() > 0);
    } else {
        assert(b.len() > 0);
        assert(c.len() > 0);
        if a[0] == c[0] {
            assert(a[0] == b[0] && b[0] == c[0]);
            lemma_lex_cmp_transitive(a.skip(1), b.skip(1), c.skip(1));
        } else {
            assert(a[0] < c[0]);
        }
    }
}

proof fn lemma_trim_ascii_start_at(s: Seq<u8>, i: int)
    requires
        0 <= i <= s.len(),
        forall|j: int| 0 <= j < i ==> spec_is_ascii_whitespace(s[j]),
        i == s.len() || !spec_is_ascii_whitespace(s[i]),
    ensures
        spec_trim_ascii_start(s) == s.skip(i),
    decreases i,
{
    if i == 0 {
        assert(s.skip(0) =~= s);
    } else {
        assert(spec_is_ascii_whitespace(s[0]));
        assert forall|j: int| 0 <= j < i - 1 implies spec_is_ascii_whitespace(
            s.skip(1)[j],
        ) by {
            assert(s.skip(1)[j] == s[j + 1]);
        }
        if i < s.len() {
            assert(s.skip(1)[i - 1] == s[i]);
        }
        lemma_trim_ascii_start_at(s.skip(1), i - 1);
        assert(s.skip(1).skip(i - 1) =~= s.skip(i));
    }
}

proof fn lemma_trim_ascii_end_at(s: Seq<u8>, i: int)
    requires
        0 <= i <= s.len(),
        forall|j: int| i <= j < s.len() ==> spec_is_ascii_whitespace(s[j]),
        i == 0 || !spec_is_ascii_whitespace(s[i - 1]),
    ensures
        spec_trim_ascii_end(s) == s.take(i),
    decreases s.len() - i,
{
    if i == s.len() {
        assert(s.take(i) =~= s);
    } else {
        assert(spec_is_ascii_whitespace(s.last()));
        let t = s.take(s.len() - 1);
        assert forall|j: int| i <= j < t.len() implies spec_is_ascii_whitespace(t[j]) by {
            assert(t[j] == s[j]);
        }
        if i > 0 {
            assert(t[i - 1] == s[i - 1]);
        }
        lemma_trim_ascii_end_at(t, i);
        assert(t.take(i) =~= s.take(i));
    }
}

/// Whether `b` is ASCII whitespace.
fn is_ascii_whitespace_byte(b: u8) -> (r: bool)
    ensures
        r == spec_is_ascii_whitespace(b),
{
    b == 0x20 || b == 0x09 || b == 0x0a || b == 0x0c || b == 0x0d
}

/// Whether two byte slices hold the same bytes.
pub(crate) fn slice_bytes_eq(a: &[u8], b: &[u8]) -> (r: bool)
    ensures
        r == (a@ == b@),
{
    if a.len() != b.len() {
        return false;
    }
    let mut i: usize = 0;
    while i < a.len()
        invariant
            a@.len() == b@.len(),
            i <= a@.len(),
            forall|j: int| 0 <= j < i ==> a@[j] == b@[j],
        decreases a@.len() - i,
    {
        if a[i] != b[i] {
            return false;
        }
        i += 1;
    }
    proof {
        assert(a@ =~= b@);
    }
    true
}

/// Lexicographic comparison of two byte slices.
pub(crate) fn lex_cmp_slices(a: &[u8], b: &[u8]) -> (r: Ordering)
    ensures
        r == spec_lex_cmp(a@, b@),
{
    let alen = a.len();
    let blen = b.len();
    let mut i: usize = 0;
    proof {
        assert(a@.skip(0) =~= a@);
        assert(b@.skip(0) =~= b@);
    }
    while i < alen && i < blen
        invariant
            alen == a@.len(),
            blen == b@.len(),
            i <= alen,
            i <= blen,
            spec_lex_cmp(a@, b@) == spec_lex_cmp(a@.skip(i as int), b@.skip(i as int)),
        decreases alen - i,
    {
        let x = a[i];
        let y = b[i];
        proof {
            assert(a@.skip(i as int)[0] == a@[i as int]);
            assert(b@.skip(i as int)[0] == b@[i as int]);
            assert(a@.skip(i as int).skip(1) =~= a@.skip(i as int + 1));
            assert(b@.skip(i as int).skip(1) =~= b@.skip(i as int + 1));
        }
        if x < y {
            return Ordering::Less;
        }
        if x > y {
            return Ordering::Greater;
        }
        i += 1;
    }
    if alen == blen {
        Ordering::Equal
    } else if alen < blen {
        Ordering::Less
    } else {
        Ordering::Greater
    }
}

/// Copies `N` bytes out of `s` starting at `start`.
pub(crate) fn array_from_slice<const N: usize>(s: &[u8], start: usize) -> (r: [u8; N])
    requires
        start + N <= s@.len(),
    ensures
        r@ == s@.subrange(start as int, start as int + N),
{
    let slen = s.len();
    let mut out: [u8; N] = [0; N];
    let mut i: usize = 0;
    while i < N
        invariant
            i <= N,
            slen == s@.len(),
            start + N <= slen,
            out@.len() == N,
            forall|j: int| 0 <= j < i ==> out@[j] == s@[start + j],
        decreases N - i,
    {
        out[i] = s[start + i];
        i += 1;
    }
    proof {
        assert(out@ =~= s@.subrange(start as int, start as int + N));
    }
    out
}

/// A non-owning view of a contiguous byte region: a borrowed slice behind a
/// domain-specific wrapper. Wrapping copies nothing; the view's lifetime is
/// tied to the borrow that produced it.
#[derive(Clone, Copy, Debug, Hash)]
pub struct ByteSlice<'a> {
    bytes: &'a [u8],
}

impl<'a> View for ByteSlice<'a> {
    type V = Seq<u8>;

    closed spec fn view(&self) -> Seq<u8> {
        self.bytes@
    }
}

impl<'a> ByteSlice<'a> {
    /// Wraps an existing borrowed byte region with zero copying and zero
    /// validation: any byte pattern is a valid view.
    pub fn from_slice(slice: &'a [u8]) -> (r: ByteSlice<'a>)
        ensures
            r@ == slice@,
    {
        ByteSlice { bytes: slice }
    }

    pub fn as_slice(&self) -> (r: &'a [u8])
        ensures
            r@ == self@,
    {
        self.bytes
    }

    pub fn len(&self) -> (r: usize)
        ensures
            r == self@.len(),
    {
        self.bytes.len()
    }

    pub fn is_empty(&self) -> (r: bool)
        ensures
            r == (self@.len() == 0),
    {
        self.bytes.is_empty()
    }

    /// Divides the view into two disjoint sub-views at `mid`; together they
    /// carry exactly the original bytes.
    pub fn split_at(&self, mid: usize) -> (r: (ByteSlice<'a>, ByteSlice<'a>))
        requires
            mid <= self@.len(),
        ensures
            r.0@ == self@.take(mid as int),
            r.1@ == self@.skip(mid as int),
            r.0@.len() == mid,
            r.0@ + r.1@ == self@,
    {
        let left = slice_subrange(self.bytes, 0, mid);
        let right = slice_subrange(self.bytes, mid, self.bytes.len());
        proof {
            assert(left@ + right@ =~= self@);
        }
        (ByteSlice { bytes: left }, ByteSlice { bytes: right })
    }

    /// Like [`Self::split_at`], but yields no result instead of demanding
    /// `mid <= len`.
    pub fn split_at_checked(&self, mid: usize) -> (r: Option<(ByteSlice<'a>, ByteSlice<'a>)>)
        ensures
            mid <= self@.len() ==> (r matches Some(p) && p.0@ == self@.take(mid as int) && p.1@
                == self@.skip(mid as int) && p.0@ + p.1@ == self@),
            mid > self@.len() ==> r is None,
    {
        if mid <= self.bytes.len() {
            Some(self.split_at(mid))
        } else {
            None
        }
    }

    /// Whether every byte is within the ASCII range.
    pub fn is_ascii(&self) -> (r: bool)
        ensures
            r == spec_is_ascii(self@),
    {
        let s = self.bytes;
        let mut i: usize = 0;
        while i < s.len()
            invariant
                s@ == self@,
                i <= s@.len(),
                forall|j: int| 0 <= j < i ==> s@[j] < 128,
            decreases s@.len() - i,
        {
            if s[i] >= 128 {
                proof {
                    assert(!spec_is_ascii(s@)) by {
                        assert(s@[i as int] >= 128);
                    }
                }
                return false;
            }
            i += 1;
        }
        true
    }

    /// Removes leading ASCII whitespace, scanning from the front.
    pub fn trim_ascii_start(&self) -> (r: ByteSlice<'a>)
        ensures
            r@ == spec_trim_ascii_start(self@),
    {
        let s = self.bytes;
        let mut i: usize = 0;
        while i < s.len() && is_ascii_whitespace_byte(s[i])
            invariant
                i <= s@.len(),
                forall|j: int| 0 <= j < i ==> spec_is_ascii_whitespace(s@[j]),
            decreases s@.len() - i,
        {
            i += 1;
        }
        proof {
            lemma_trim_ascii_start_at(s@, i as int);
        }
        ByteSlice { bytes: slice_subrange(s, i, s.len()) }
    }

    /// Removes trailing ASCII whitespace, scanning from the back.
    pub fn trim_ascii_end(&self) -> (r: ByteSlice<'a>)
        ensures
            r@ == spec_trim_ascii_end(self@),
    {
        let s = self.bytes;
        let mut i: usize = s.len();
        while i > 0 && is_ascii_whitespace_byte(s[i - 1])
            invariant
                i <= s@.len(),
                forall|j: int| i <= j < s@.len() ==> spec_is_ascii_whitespace(s@[j]),
            decreases i,
        {
            i -= 1;
        }
        proof {
            lemma_trim_ascii_end_at(s@, i as int);
        }
        ByteSlice { bytes: slice_subrange(s, 0, i) }
    }

    /// Removes ASCII whitespace from both ends.
    pub fn trim_ascii(&self) -> (r: ByteSlice<'a>)
        ensures
            r@ == spec_trim_ascii(self@),
    {
        self.trim_ascii_start().trim_ascii_end()
    }

    /// The first byte, or no result when the view is empty.
    pub fn first(&self) -> (r: Option<&'a u8>)
        ensures
            self@.len() == 0 ==> r is None,
            self@.len() > 0 ==> (r matches Some(b) && *b == self@[0]),
    {
        self.bytes.first()
    }

    /// The last byte, or no result when the view is empty.
    pub fn last(&self) -> (r: Option<&'a u8>)
        ensures
            self@.len() == 0 ==> r is None,
            self@.len() > 0 ==> (r matches Some(b) && *b == self@.last()),
    {
        self.bytes.last()
    }

    /// Peels the first byte off the front, or yields no result when the view
    /// is empty.
    pub fn split_first(&self) -> (r: Option<(&'a u8, ByteSlice<'a>)>)
        ensures
            self@.len() == 0 ==> r is None,
            self@.len() > 0 ==> (r matches Some(p) && *p.0 == self@[0] && p.1@ == self@.skip(1)),
    {
        if self.bytes.is_empty() {
            None
        } else {
            let b = vstd::slice::slice_index_get(self.bytes, 0);
            let rest = slice_subrange(self.bytes, 1, self.bytes.len());
            Some((b, ByteSlice { bytes: rest }))
        }
    }

    /// Peels the last byte off the back, or yields no result when the view
    /// is empty.
    pub fn split_last(&self) -> (r: Option<(&'a u8, ByteSlice<'a>)>)
        ensures
            self@.len() == 0 ==> r is None,
            self@.len() > 0 ==> (r matches Some(p) && *p.0 == self@.last() && p.1@ == self@.take(
                self@.len() - 1,
            )),
    {
        if self.bytes.is_empty() {
            None
        } else {
            let b = vstd::slice::slice_index_get(self.bytes, self.bytes.len() - 1);
            let rest = slice_subrange(self.bytes, 0, self.bytes.len() - 1);
            Some((b, ByteSlice { bytes: rest }))
        }
    }

    /// Copies the first `N` bytes out, or yields no result when the view is
    /// shorter than `N`; never fails any other way.
    pub fn first_chunk<const N: usize>(&self) -> (r: Option<[u8; N]>)
        ensures
            N > self@.len() ==> r is None,
            N <= self@.len() ==> (r matches Some(c) && c@ == self@.take(N as int)),
    {
        if N > self.bytes.len() {
            None
        } else {
            Some(array_from_slice::<N>(self.bytes, 0))
        }
    }

    /// Copies the last `N` bytes out, or yields no result when the view is
    /// shorter than `N`.
    pub fn last_chunk<const N: usize>(&self) -> (r: Option<[u8; N]>)
        ensures
            N > self@.len() ==> r is None,
            N <= self@.len() ==> (r matches Some(c) && c@ == self@.skip(self@.len() - N)),
    {
        if N > self.bytes.len() {
            None
        } else {
            let start = self.bytes.len() - N;
            let c = array_from_slice::<N>(self.bytes, start);
            Some(c)
        }
    }

    /// Peels the first `N` bytes off the front together with the remainder,
    /// or yields no result when the view is shorter than `N`.
    pub fn split_first_chunk<const N: usize>(&self) -> (r: Option<([u8; N], ByteSlice<'a>)>)
        ensures
            N > self@.len() ==> r is None,
            N <= self@.len() ==> (r matches Some(p) && p.0@ == self@.take(N as int) && p.1@
                == self@.skip(N as int)),
    {
        if N > self.bytes.len() {
            None
        } else {
            let c = array_from_slice::<N>(self.bytes, 0);
            let rest = slice_subrange(self.bytes, N, self.bytes.len());
            Some((c, ByteSlice { bytes: rest }))
        }
    }

    /// Peels the last `N` bytes off the back together with the remainder,
    /// or yields no result when the view is shorter than `N`.
    pub fn split_last_chunk<const N: usize>(&self) -> (r: Option<(ByteSlice<'a>, [u8; N])>)
        ensures
            N > self@.len() ==> r is None,
            N <= self@.len() ==> (r matches Some(p) && p.0@ == self@.take(self@.len() - N) && p.1@
                == self@.skip(self@.len() - N)),
    {
        if N > self.bytes.len() {
            None
        } else {
            let mid = self.bytes.len() - N;
            let rest = slice_subrange(self.bytes, 0, mid);
            let c = array_from_slice::<N>(self.bytes, mid);
            Some((ByteSlice { bytes: rest }, c))
        }
    }
}

impl<'a> PartialEq for ByteSlice<'a> {
    /// Equality is byte-wise.
    fn eq(&self, other: &Self) -> (r: bool) {
        slice_bytes_eq(self.bytes, other.bytes)
    }
}

impl<'a> vstd::std_specs::cmp::PartialEqSpecImpl for ByteSlice<'a> {
    open spec fn obeys_eq_spec() -> bool {
        true
    }

    open spec fn eq_spec(&self, other: &Self) -> bool {
        self@ == other@
    }
}

impl<'a> PartialOrd for ByteSlice<'a> {
    /// Comparison is total and lexicographic over bytes.
    fn partial_cmp(&self, other: &Self) -> (r: Option<Ordering>) {
        Some(lex_cmp_slices(self.bytes, other.bytes))
    }
}

impl<'a> vstd::std_specs::cmp::PartialOrdSpecImpl for ByteSlice<'a> {
    open spec fn obeys_partial_cmp_spec() -> bool {
        true
    }

    open spec fn partial_cmp_spec(&self, other: &Self) -> Option<Ordering> {
        Some(spec_lex_cmp(self@, other@))
    }
}

impl<'a> Bytes for ByteSlice<'a> {
    fn as_bytes<'s>(&'s self) -> (r: ByteSlice<'s>) {
        *self
    }

    fn as_slice<'s>(&'s self) -> (r: &'s [u8]) {
        self.bytes
    }

    fn get(&self, index: usize) -> (r: Option<u8>) {
        if index < self.bytes.len() {
            Some(*vstd::slice::slice_index_get(self.bytes, index))
        } else {
            None
        }
    }

    fn get_range<'s>(&'s self, start: usize, end: usize) -> (r: Option<ByteSlice<'s>>) {
        if start <= end && end <= self.bytes.len() {
            Some(ByteSlice { bytes: slice_subrange(self.bytes, start, end) })
        } else {
            None
        }
    }

    fn len(&self) -> (r: usize) {
        self.bytes.len()
    }

    fn split_at<'s>(&'s self, mid: usize) -> (r: (ByteSlice<'s>, ByteSlice<'s>)) {
        ByteSlice::split_at(self, mid)
    }

    fn to_vec(&self) -> (r: ByteVec) {
        ByteVec::from_vec(slice_to_vec(self.bytes))
    }
}

} // verus!
