use vstd::prelude::*;

pub mod bytes;
pub mod bytes_buf;
pub mod bytes_sized;
pub mod io;

use bytes::ByteVec;
use io::Read;
use io::ReadError;
use io::Write;
use io::WriteError;

verus! {

/// The self-describing encode/decode contract for structured binary values.
///
/// `wire` is the type-determined byte image of a value; each implementing
/// type defines its own deterministic layout. `encode` produces exactly that
/// image through a writer, and `decode` consumes exactly one image from the
/// front of a reader via the mirror-image sequence of reads. The two proof
/// obligations pin the contract down: an image fits in memory, and an image
/// determines its value even when followed by further bytes — which is what
/// makes decoding after encoding yield the original value.
pub trait Codec: Sized {
    /// The byte image of the value on the wire.
    spec fn wire(&self) -> Seq<u8>;

    /// An image always fits in memory.
    proof fn wire_len_fits(&self)
        ensures
            self.wire().len() <= usize::MAX,
    ;

    /// When two images extended by arbitrary suffixes coincide, the values
    /// coincide: the image determines the value.
    proof fn wire_prefix_determines(a: Self, b: Self, x: Seq<u8>, y: Seq<u8>)
        requires
            a.wire() + x == b.wire() + y,
        ensures
            a == b,
    ;

    /// Serializes the value through a fixed, type-determined sequence of
    /// writes; succeeds whenever the writer has room for the whole image.
    fn encode<W: Write>(&self, io: &mut W) -> (r: Result<(), WriteError>)
        ensures
            self.wire().len() <= old(io).room() ==> r is Ok,
            r is Ok ==> {
                &&& final (io).written() == old(io).written() + self.wire()
                &&& final (io).room() == old(io).room() - self.wire().len()
            },
    ;

    /// Reconstructs a value from the front of the reader; succeeds whenever
    /// the available bytes begin with the image of some value.
    fn decode<R: Read>(io: &mut R) -> (r: Result<Self, ReadError>)
        ensures
            r matches Ok(v) ==> old(io).avail() == v.wire() + final (io).avail(),
            forall|v: Self, rest: Seq<u8>| old(io).avail() == v.wire() + rest ==> r is Ok,
    ;
}

/// Reconstructs a `T` from the reader: [`Codec::decode`] under a free name.
pub fn decode<T: Codec, R: Read>(io: &mut R) -> (r: Result<T, ReadError>)
    ensures
        r matches Ok(v) ==> old(io).avail() == v.wire() + final (io).avail(),
        forall|v: T, rest: Seq<u8>| old(io).avail() == v.wire() + rest ==> r is Ok,
{
    T::decode(io)
}

/// Encoding a value into a fresh buffer and decoding that buffer yields the
/// value back, for every codec and every value: the round-trip law of the
/// codec contract.
pub fn round_trip<T: Codec>(v: &T) -> (r: T)
    ensures
        r == *v,
{
    let mut buf = ByteVec::new();
    proof {
        v.wire_len_fits();
    }
    let enc = v.encode(&mut buf);
    proof {
        assert(enc is Ok);
        assert(buf@ == v.wire()) by {
            assert(Seq::<u8>::empty() + v.wire() =~= v.wire());
        }
    }
    let mut src: &[u8] = buf.as_slice();
    let ghost pre = src@;
    let dec = T::decode(&mut src);
    match dec {
        Ok(w) => {
            proof {
                assert(pre == w.wire() + src@);
                assert(pre == (*v).wire() + Seq::<u8>::empty()) by {
                    assert((*v).wire() + Seq::<u8>::empty() =~= (*v).wire());
                }
                T::wire_prefix_determines(w, *v, src@, Seq::<u8>::empty());
            }
            w
        },
        Err(_) => {
            proof {
                assert(pre == (*v).wire() + Seq::<u8>::empty()) by {
                    assert((*v).wire() + Seq::<u8>::empty() =~= (*v).wire());
                }
            }
            vstd::pervasive::unreached()
        },
    }
}

impl Codec for u8 {
    /// A byte's image is the byte itself.
    open spec fn wire(&self) -> Seq<u8> {
        seq![*self]
    }

    proof fn wire_len_fits(&self) {
    }

    proof fn wire_prefix_determines(a: Self, b: Self, x: Seq<u8>, y: Seq<u8>) {
        assert((a.wire() + x)[0] == a);
        assert((b.wire() + y)[0] == b);
    }

    fn encode<W: Write>(&self, io: &mut W) -> (r: Result<(), WriteError>) {
        let data: [u8; 1] = [*self; 1];
        proof {
            assert(data@ =~= self.wire());
        }
        io.write(data.as_slice())
    }

    /// A byte decodes through a single read, so a failure leaves the
    /// reader untouched.
    fn decode<R: Read>(io: &mut R) -> (r: Result<Self, ReadError>)
        ensures
            r is Err ==> final (io).avail() == old(io).avail(),
    {
        let ghost pre = io.avail();
        match io.read::<1>() {
            Ok(data) => {
                let v = data[0];
                proof {
                    assert(v.wire() =~= pre.take(1));
                    assert(pre.take(1) + pre.skip(1) =~= pre);
                }
                Ok(v)
            },
            Err(e) => Err(e),
        }
    }
}

} // verus!
