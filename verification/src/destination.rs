use vstd::prelude::*;
use crate::error::IoError;
use crate::error::IoErrorKind;

verus! {

/// The capability a shared sink must offer: accept byte appends and flush
/// whatever it buffers. Implementations are free to accept fewer bytes than
/// offered (a partial write) or to fail with a typed error of their own.
///
/// The abstract state `taken()` is the sequence of bytes the destination has
/// accepted so far: a successful `write` extends it by exactly the prefix of
/// the buffer whose length it reports, a failing `write` and a `flush` leave
/// it unchanged.
pub trait Destination: Sized {
    /// The bytes this destination has accepted so far.
    spec fn taken(&self) -> Seq<u8>;

    /// Append bytes from `buf`, reporting how many were accepted.
    fn write(&mut self, buf: &[u8]) -> (r: Result<usize, IoError>)
        ensures
            r matches Ok(n) ==> n <= buf@.len()
                && final(self).taken() == old(self).taken() + buf@.subrange(0, n as int),
            r is Err ==> final(self).taken() == old(self).taken(),
    ;

    /// Push any buffered bytes through to the backing medium.
    fn flush(&mut self) -> (r: Result<(), IoError>)
        ensures
            final(self).taken() == old(self).taken(),
    ;
}

/// An in-memory growable buffer is a destination: it accepts every byte
/// offered and never fails.
impl Destination for Vec<u8> {
    open spec fn taken(&self) -> Seq<u8> {
        self@
    }

    fn write(&mut self, buf: &[u8]) -> (r: Result<usize, IoError>)
        ensures
            r == Ok::<usize, IoError>(buf@.len() as usize),
            final(self)@ == old(self)@ + buf@,
    {
        let mut i: usize = 0;
        while i < buf.len()
            invariant
                i <= buf@.len(),
                self@ == old(self)@ + buf@.subrange(0, i as int),
            decreases buf@.len() - i,
        {
            self.push(buf[i]);
            proof {
                assert(buf@.subrange(0, i + 1) == buf@.subrange(0, i as int).push(buf@[i as int]));
            }
            i = i + 1;
        }
        proof {
            assert(buf@.subrange(0, buf@.len() as int) == buf@);
        }
        Ok(buf.len())
    }

    fn flush(&mut self) -> (r: Result<(), IoError>)
        ensures
            r == Ok::<(), IoError>(()),
            final(self)@ == old(self)@,
    {
        Ok(())
    }
}

/// An in-memory buffer that accepts at most `limit` bytes per call: a
/// destination with conventional partial-write behaviour. With a `limit` of
/// zero it accepts nothing while still reporting success.
pub struct ChunkDestination {
    pub data: Vec<u8>,
    pub limit: usize,
}

impl Destination for ChunkDestination {
    open spec fn taken(&self) -> Seq<u8> {
        self.data@
    }

    fn write(&mut self, buf: &[u8]) -> (r: Result<usize, IoError>)
        ensures
            r matches Ok(n) && n == if buf@.len() < old(self).limit {
                buf@.len() as int
            } else {
                old(self).limit as int
            },
            final(self).limit == old(self).limit,
            final(self).data@ == old(self).data@ + buf@.subrange(
                0,
                if buf@.len() < old(self).limit {
                    buf@.len() as int
                } else {
                    old(self).limit as int
                },
            ),
    {
        let n = if buf.len() < self.limit {
            buf.len()
        } else {
            self.limit
        };
        let mut i: usize = 0;
        while i < n
            invariant
                i <= n <= buf@.len(),
                self.limit == old(self).limit,
                self.data@ == old(self).data@ + buf@.subrange(0, i as int),
            decreases n - i,
        {
            self.data.push(buf[i]);
            proof {
                assert(buf@.subrange(0, i + 1) == buf@.subrange(0, i as int).push(buf@[i as int]));
            }
            i = i + 1;
        }
        Ok(n)
    }

    fn flush(&mut self) -> (r: Result<(), IoError>)
        ensures
            r == Ok::<(), IoError>(()),
            *final(self) == *old(self),
    {
        Ok(())
    }
}

/// A destination that refuses every operation with one fixed failure of its
/// own, which the adapters report to their callers unchanged.
pub struct FailingDestination {
    pub kind: IoErrorKind,
    pub message: String,
}

impl Destination for FailingDestination {
    open spec fn taken(&self) -> Seq<u8> {
        Seq::empty()
    }

    fn write(&mut self, buf: &[u8]) -> (r: Result<usize, IoError>)
        ensures
            r matches Err(e) && e.kind == old(self).kind && e.message@ == old(self).message@,
            *final(self) == *old(self),
    {
        Err(IoError { kind: self.kind, message: self.message.clone() })
    }

    fn flush(&mut self) -> (r: Result<(), IoError>)
        ensures
            r matches Err(e) && e.kind == old(self).kind && e.message@ == old(self).message@,
            *final(self) == *old(self),
    {
        Err(IoError { kind: self.kind, message: self.message.clone() })
    }
}

} // verus!
