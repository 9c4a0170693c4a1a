//! A bounded output buffer for encoders: writes that would overflow the
//! caller-sized buffer fail instead of growing it.
use minicbor::encode::write::EndOfSlice;
use vstd::prelude::*;

verus! {

/// Relies on minicbor's `Write` impl for `&mut [u8]`: when the slice is
/// shorter than `src` it fails and writes nothing, else it copies `src` to
/// the front of the slice.
#[verifier::external_body]
fn write_to_slice(dst: &mut Vec<u8>, at: usize, src: &[u8]) -> (r: Result<(), EndOfSlice>)
    requires
        at <= old(dst)@.len(),
    ensures
        final(dst)@.len() == old(dst)@.len(),
        r is Ok <==> src@.len() <= old(dst)@.len() - at,
        r is Ok ==> final(dst)@ == old(dst)@.subrange(0, at as int) + src@ + old(dst)@.subrange(
            at + src@.len(),
            old(dst)@.len() as int,
        ),
        r is Err ==> final(dst)@ == old(dst)@,
    no_unwind
{
    let mut rest: &mut [u8] = &mut dst.as_mut_slice()[at..];
    minicbor::encode::Write::write_all(&mut rest, src)
}

/// Appends into a buffer of fixed size and counts what was written.
pub struct BufWriter {
    buf: Vec<u8>,
    written_len: usize,
}

impl BufWriter {
    #[verifier::type_invariant]
    closed spec fn fits(self) -> bool {
        self.written_len <= self.buf@.len()
    }

    /// Room in bytes, written or not.
    pub closed spec fn spec_capacity(&self) -> nat {
        self.buf@.len()
    }

    /// The bytes written so far.
    pub closed spec fn spec_written(&self) -> Seq<u8> {
        self.buf@.subrange(0, self.written_len as int)
    }

    /// A writer over `buf`, with nothing written yet.
    pub fn new(buf: Vec<u8>) -> (r: BufWriter)
        ensures
            r.spec_capacity() == buf@.len(),
            r.spec_written() == Seq::<u8>::empty(),
    {
        let r = BufWriter { buf, written_len: 0 };
        assert(r.buf@.subrange(0, 0) =~= Seq::<u8>::empty());
        r
    }

    /// Appends all of `data`, or nothing with `EndOfSlice` when it does not
    /// fit in the room left.
    pub fn write_all(&mut self, data: &[u8]) -> (r: Result<(), EndOfSlice>)
        ensures
            final(self).spec_capacity() == old(self).spec_capacity(),
            r is Ok <==> old(self).spec_written().len() + data@.len() <= old(self).spec_capacity(),
            r is Ok ==> final(self).spec_written() == old(self).spec_written() + data@,
            r is Err ==> final(self).spec_written() == old(self).spec_written(),
    {
        proof {
            use_type_invariant(&*self);
        }
        let at = self.written_len;
        let cap = self.buf.len();
        let ghost before = self.buf@;
        let r = write_to_slice(&mut self.buf, at, data);
        if r.is_ok() {
            assert(data@.len() <= cap - at);
            self.written_len = at + data.len();
            assert(self.buf@.subrange(0, self.written_len as int) =~= before.subrange(0, at as int)
                + data@);
        }
        r
    }

    /// Number of bytes written so far.
    pub fn written_len(&self) -> (r: usize)
        ensures
            r == self.spec_written().len(),
    {
        proof {
            use_type_invariant(self);
        }
        self.written_len
    }

    /// The written bytes, as an owned vector.
    pub fn into_written(self) -> (r: Vec<u8>)
        ensures
            r@ == self.spec_written(),
    {
        proof {
            use_type_invariant(&self);
        }
        let mut buf = self.buf;
        buf.truncate(self.written_len);
        buf
    }
}

} // verus!
