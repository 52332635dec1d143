use vstd::prelude::*;
use vstd::slice::slice_subrange;
use std::ops::DerefMut;
use std::sync::Arc;
use std::sync::Mutex;
use crate::destination::Destination;
use crate::error::IoError;
use crate::error::IoErrorKind;
use crate::locking::lock_cell;

verus! {

/// Forward one append into an optional slot. A present destination decides
/// the result and stays present; an empty slot fails with the
/// destination-absent error, stays empty, and nothing is written.
pub fn slot_write<W: Destination>(slot: &mut Option<W>, buf: &[u8]) -> (r: Result<usize, IoError>)
    ensures
        *final(slot) is Some <==> *old(slot) is Some,
        *old(slot) is None ==> (r matches Err(e) && e.kind == IoErrorKind::BrokenPipe
            && e.message@ == IoError::removed_message()),
        *old(slot) matches Some(d0) ==> (r matches Ok(n) ==> n <= buf@.len()
            && (*final(slot) matches Some(d1)
                && d1.taken() == d0.taken() + buf@.subrange(0, n as int))),
        *old(slot) matches Some(d0) ==> (r matches Err(_) ==> (*final(slot) matches Some(d1)
            && d1.taken() == d0.taken())),
{
    match slot {
        Some(d) => d.write(buf),
        None => Err(IoError::removed()),
    }
}

/// Forward one flush into an optional slot, with the same present/absent
/// branching as `slot_write`: the destination's accepted bytes never change,
/// and an empty slot fails with the destination-absent error.
pub fn slot_flush<W: Destination>(slot: &mut Option<W>) -> (r: Result<(), IoError>)
    ensures
        *final(slot) is Some <==> *old(slot) is Some,
        *old(slot) is None ==> (r matches Err(e) && e.kind == IoErrorKind::BrokenPipe
            && e.message@ == IoError::removed_message()),
        *old(slot) matches Some(d0) ==> (*final(slot) matches Some(d1)
            && d1.taken() == d0.taken()),
{
    match slot {
        Some(d) => d.flush(),
        None => Err(IoError::removed()),
    }
}

/// A handle on a shared, lock-protected slot that holds an optional
/// destination. Operations forward to the destination only while it is
/// present; once an external owner detaches it (takes the value out under the
/// same lock, leaving the slot empty), every later operation fails with a
/// `BrokenPipe` failure, and the slot never becomes non-empty again.
#[verifier::reject_recursive_types(W)]
pub struct SynchronizedOptionWriter<W: Destination> {
    inner: Arc<Mutex<Option<W>>>,
}

impl<W: Destination> SynchronizedOptionWriter<W> {
    /// The shared cell this handle forwards into.
    pub closed spec fn cell(&self) -> Arc<Mutex<Option<W>>> {
        self.inner
    }

    /// A new handle on the given cell. Nothing is written and no lock is
    /// taken: the handle only keeps the reference.
    pub fn new(writer: Arc<Mutex<Option<W>>>) -> (r: SynchronizedOptionWriter<W>)
        ensures
            r.cell() == writer,
    {
        SynchronizedOptionWriter { inner: writer }
    }

    /// Acquire the cell's lock and forward one append through `slot_write`:
    /// the destination's count when it is present, the destination-absent
    /// failure when it has been detached. When the lock is unusable the call
    /// fails with a `WouldBlock` failure before the slot is even examined.
    /// Which outcome occurs depends on the slot's current state and on the
    /// other holders of the cell, so only what holds of every outcome is
    /// stated.
    pub fn write(&mut self, buf: &[u8]) -> (r: Result<usize, IoError>)
        ensures
            final(self).cell() == old(self).cell(),
            r matches Ok(n) ==> n <= buf@.len(),
    {
        match lock_cell(&self.inner) {
            Ok(mut guard) => slot_write(guard.deref_mut(), buf),
            Err(message) => Err(IoError::would_block(message)),
        }
    }

    /// Forward appends until all of `buf` is written, one lock acquisition
    /// per attempt, as a conventional whole-buffer write does: a destination
    /// that accepts zero bytes of a non-empty remainder turns into a
    /// `WriteZero` failure, and any other failure is returned as it is.
    pub fn write_all(&mut self, buf: &[u8]) -> (r: Result<(), IoError>)
        ensures
            final(self).cell() == old(self).cell(),
    {
        let mut pos: usize = 0;
        while pos < buf.len()
            invariant
                pos <= buf@.len(),
                self.cell() == old(self).cell(),
            decreases buf@.len() - pos,
        {
            match self.write(slice_subrange(buf, pos, buf.len())) {
                Ok(n) => {
                    if n == 0 {
                        return Err(IoError::write_zero());
                    }
                    pos = pos + n;
                },
                Err(e) => {
                    return Err(e);
                },
            }
        }
        Ok(())
    }

    /// Acquire the cell's lock and forward one flush through `slot_flush`,
    /// with the same present/absent branching as `write` and the same
    /// `WouldBlock` translation when the lock is unusable.
    pub fn flush(&mut self) -> (r: Result<(), IoError>)
        ensures
            final(self).cell() == old(self).cell(),
    {
        match lock_cell(&self.inner) {
            Ok(mut guard) => slot_flush(guard.deref_mut()),
            Err(message) => Err(IoError::would_block(message)),
        }
    }
}

} // verus!
