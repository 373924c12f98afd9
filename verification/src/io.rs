use crate::bytes::array_from_slice;
use crate::bytes::ByteVec;
use vstd::prelude::*;
use vstd::slice::slice_subrange;
use vstd::slice::slice_to_vec;

verus! {

/// A read requested more bytes than remain in the source region.
#[derive(Clone, Copy, Debug, PartialEq, Eq, Structural)]
pub enum ReadError {
    InsufficientData,
}

/// A write requires more room than remains in the destination region.
#[derive(Clone, Copy, Debug, PartialEq, Eq, Structural)]
pub enum WriteError {
    InsufficientSpace,
}

/// A cursor that consumes bytes from the front of a shrinking region.
///
/// Every successful read advances past exactly the bytes it returned; a
/// failing read leaves the remaining region untouched, so the caller may
/// retry with different parameters or abandon the cursor.
pub trait Read {
    /// The bytes still available to be read.
    spec fn avail(&self) -> Seq<u8>;

    /// Consumes the first `N` bytes by value, or fails without consuming
    /// anything when fewer than `N` remain.
    fn read<const N: usize>(&mut self) -> (r: Result<[u8; N], ReadError>)
        ensures
            match r {
                Ok(data) => {
                    &&& old(self).avail().len() >= N
                    &&& data@ == old(self).avail().take(N as int)
                    &&& final (self).avail() == old(self).avail().skip(N as int)
                    &&& final (self).avail().len() == old(self).avail().len() - N
                },
                Err(e) => {
                    &&& e == ReadError::InsufficientData
                    &&& old(self).avail().len() < N
                    &&& final (self).avail() == old(self).avail()
                },
            },
    ;

    /// Consumes the first `n` bytes as an owned copy, or fails without
    /// consuming anything when fewer than `n` remain.
    fn read_dynamic(&mut self, n: usize) -> (r: Result<Vec<u8>, ReadError>)
        ensures
            match r {
                Ok(data) => {
                    &&& old(self).avail().len() >= n
                    &&& data@ == old(self).avail().take(n as int)
                    &&& final (self).avail() == old(self).avail().skip(n as int)
                    &&& final (self).avail().len() == old(self).avail().len() - n
                },
                Err(e) => {
                    &&& e == ReadError::InsufficientData
                    &&& old(self).avail().len() < n
                    &&& final (self).avail() == old(self).avail()
                },
            },
    ;

    /// Consumes and returns everything left; cannot fail.
    fn read_to_end(&mut self) -> (r: Vec<u8>)
        ensures
            r@ == old(self).avail(),
            final (self).avail() == Seq::<u8>::empty(),
    ;
}

impl<'a> Read for &'a [u8] {
    open spec fn avail(&self) -> Seq<u8> {
        (*self)@
    }

    fn read<const N: usize>(&mut self) -> (r: Result<[u8; N], ReadError>) {
        let cur: &'a [u8] = *self;
        if N > cur.len() {
            return Err(ReadError::InsufficientData);
        }
        let data = array_from_slice::<N>(cur, 0);
        *self = slice_subrange(cur, N, cur.len());
        proof {
            assert(data@ =~= cur@.take(N as int));
        }
        Ok(data)
    }

    fn read_dynamic(&mut self, n: usize) -> (r: Result<Vec<u8>, ReadError>) {
        let cur: &'a [u8] = *self;
        if n > cur.len() {
            return Err(ReadError::InsufficientData);
        }
        let data = slice_to_vec(slice_subrange(cur, 0, n));
        *self = slice_subrange(cur, n, cur.len());
        proof {
            assert(data@ =~= cur@.take(n as int));
        }
        Ok(data)
    }

    fn read_to_end(&mut self) -> (r: Vec<u8>) {
        let cur: &'a [u8] = *self;
        let data = slice_to_vec(cur);
        *self = slice_subrange(cur, cur.len(), cur.len());
        proof {
            assert((*self)@ =~= Seq::<u8>::empty());
        }
        data
    }
}

/// A cursor that fills a destination region from the front.
///
/// `written()` is what has been accepted so far, `pending()` the untouched
/// remainder of the destination, and `room()` how many more bytes the sink
/// can take. A failing write changes nothing.
pub trait Write {
    /// The bytes accepted so far.
    spec fn written(&self) -> Seq<u8>;

    /// The untouched remainder of the destination region.
    spec fn pending(&self) -> Seq<u8>;

    /// How many more bytes the sink can take.
    spec fn room(&self) -> int;

    /// Copies all of `data` into the front of the remaining region and
    /// advances past it, or fails and changes nothing: writes are
    /// all-or-nothing.
    fn write(&mut self, data: &[u8]) -> (r: Result<(), WriteError>)
        ensures
            data@.len() <= old(self).room() ==> r is Ok,
            r is Ok ==> {
                &&& final (self).written() == old(self).written() + data@
                &&& final (self).room() == old(self).room() - data@.len()
                &&& data@.len() <= old(self).pending().len() ==> final (self).pending() == old(
                    self,
                ).pending().skip(data@.len() as int)
            },
            r matches Err(e) ==> {
                &&& e == WriteError::InsufficientSpace
                &&& data@.len() > old(self).room()
                &&& final (self).written() == old(self).written()
                &&& final (self).pending() == old(self).pending()
                &&& final (self).room() == old(self).room()
            },
    ;
}

/// A writer over a fixed destination region: it owns the region for the
/// cursor's lifetime and hands it back, filled from the front, through
/// [`Self::into_vec`].
pub struct RegionWriter {
    done: Vec<u8>,
    rest: Vec<u8>,
}

impl RegionWriter {
    /// Starts a cursor over `dest`; nothing is written yet and the whole
    /// region is pending.
    pub fn new(dest: Vec<u8>) -> (r: Self)
        ensures
            r.written() == Seq::<u8>::empty(),
            r.pending() == dest@,
            r.room() == dest@.len(),
    {
        RegionWriter { done: Vec::new(), rest: dest }
    }

    /// How many bytes of the destination are still unwritten.
    pub fn remaining(&self) -> (r: usize)
        ensures
            r == self.pending().len(),
            r == self.room(),
    {
        self.rest.len()
    }

    /// The destination region as it stands: the accepted bytes followed by
    /// the untouched remainder.
    pub fn to_vec(&self) -> (r: Vec<u8>)
        ensures
            r@ == self.written() + self.pending(),
    {
        let mut v = slice_to_vec(self.done.as_slice());
        v.extend_from_slice(self.rest.as_slice());
        v
    }

    /// Gives the destination region back, consuming the cursor.
    pub fn into_vec(self) -> (r: Vec<u8>)
        ensures
            r@ == self.written() + self.pending(),
    {
        let RegionWriter { mut done, rest } = self;
        done.extend_from_slice(rest.as_slice());
        done
    }
}

impl Write for RegionWriter {
    closed spec fn written(&self) -> Seq<u8> {
        self.done@
    }

    closed spec fn pending(&self) -> Seq<u8> {
        self.rest@
    }

    closed spec fn room(&self) -> int {
        self.rest@.len() as int
    }

    /// For a bounded region the trait's promise sharpens to an equivalence:
    /// the write succeeds exactly when the data fits the remaining room.
    fn write(&mut self, data: &[u8]) -> (r: Result<(), WriteError>)
        ensures
            r is Ok <==> data@.len() <= old(self).room(),
    {
        if data.len() > self.rest.len() {
            return Err(WriteError::InsufficientSpace);
        }
        self.done.extend_from_slice(data);
        let tail = self.rest.split_off(data.len());
        self.rest = tail;
        Ok(())
    }
}

impl Write for ByteVec {
    /// An owned growable buffer is a sink that accepts everything appended
    /// to it.
    open spec fn written(&self) -> Seq<u8> {
        self@
    }

    open spec fn pending(&self) -> Seq<u8> {
        Seq::<u8>::empty()
    }

    open spec fn room(&self) -> int {
        usize::MAX - self@.len()
    }

    fn write(&mut self, data: &[u8]) -> (r: Result<(), WriteError>) {
        self.extend_from_slice(data);
        Ok(())
    }
}

} // verus!
