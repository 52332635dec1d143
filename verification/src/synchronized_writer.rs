use vstd::prelude::*;
use vstd::slice::slice_subrange;
use std::ops::DerefMut;
use std::sync::Arc;
use std::sync::Mutex;
use crate::destination::Destination;
use crate::error::IoError;
use crate::locking::lock_cell;

verus! {

/// A handle on a shared, lock-protected destination that is always present.
/// Every operation is one acquire-act-release cycle on the cell's lock, so
/// operations of different handles on the same cell never interleave.
#[verifier::reject_recursive_types(W)]
pub struct SynchronizedWriter<W: Destination> {
    inner: Arc<Mutex<W>>,
}

impl<W: Destination> SynchronizedWriter<W> {
    /// The shared cell this handle forwards into.
    pub closed spec fn cell(&self) -> Arc<Mutex<W>> {
        self.inner
    }

    /// A new handle on the given cell. Nothing is written and no lock is
    /// taken: the handle only keeps the reference.
    pub fn new(writer: Arc<Mutex<W>>) -> (r: SynchronizedWriter<W>)
        ensures
            r.cell() == writer,
    {
        SynchronizedWriter { inner: writer }
    }

    /// Forward one append to the shared destination under the cell's lock and
    /// return the count the destination reports, which may be less than
    /// `buf.len()`; retrying the remainder is the caller's concern. When the
    /// lock is unusable the call fails with a `WouldBlock` failure instead.
    /// Which outcome occurs depends on the destination and on the other
    /// holders of the cell, so only what holds of every outcome is stated.
    pub fn write(&mut self, buf: &[u8]) -> (r: Result<usize, IoError>)
        ensures
            final(self).cell() == old(self).cell(),
            r matches Ok(n) ==> n <= buf@.len(),
    {
        match lock_cell(&self.inner) {
            Ok(mut guard) => guard.deref_mut().write(buf),
            Err(message) => Err(IoError::would_block(message)),
        }
    }

    /// Forward appends until all of `buf` is written, one lock acquisition
    /// per attempt, as a conventional whole-buffer write does: a destination
    /// that accepts zero bytes of a non-empty remainder turns into a
    /// `WriteZero` failure, and any other failure is returned as it is.
    pub fn write_all(&mut self, buf: &[u8]) -> (r: Result<(), IoError>)
        ensures
            final(self).cell() == old(self).cell(),
    {
        let mut pos: usize = 0;
        while pos < buf.len()
            invariant
                pos <= buf@.len(),
                self.cell() == old(self).cell(),
            decreases buf@.len() - pos,
        {
            match self.write(slice_subrange(buf, pos, buf.len())) {
                Ok(n) => {
                    if n == 0 {
                        return Err(IoError::write_zero());
                    }
                    pos = pos + n;
                },
                Err(e) => {
                    return Err(e);
                },
            }
        }
        Ok(())
    }

    /// Forward one flush to the shared destination under the cell's lock,
    /// with the same `WouldBlock` translation as `write` when the lock is
    /// unusable.
    pub fn flush(&mut self) -> (r: Result<(), IoError>)
        ensures
            final(self).cell() == old(self).cell(),
    {
        match lock_cell(&self.inner) {
            Ok(mut guard) => guard.deref_mut().flush(),
            Err(message) => Err(IoError::would_block(message)),
        }
    }
}

} // verus!
