use vstd::prelude::*;

verus! {

/// The failure categories the adapters report. Callers branch on the kind to
/// tell a transient condition (the lock is unusable right now) from a
/// permanent one (the destination is gone) from a failure the destination
/// itself reported.
#[derive(Clone, Copy, Debug, PartialEq, Eq, Structural)]
pub enum IoErrorKind {
    /// The shared lock could not be acquired because a previous holder left
    /// it in an inconsistent state; treated as a transient condition.
    WouldBlock,
    /// The optional destination has been detached from the shared slot;
    /// permanent for the rest of the cell's lifetime.
    BrokenPipe,
    /// A destination accepted zero bytes of a non-empty remainder while a
    /// whole buffer was being written.
    WriteZero,
    /// Any other failure a destination reports on its own behalf.
    Other,
}

/// A typed I/O failure: a kind callers can branch on, and a human-readable
/// message describing the underlying condition.
#[derive(Debug)]
pub struct IoError {
    pub kind: IoErrorKind,
    pub message: String,
}

impl IoError {
    /// The fixed message carried by the failure reported after the
    /// destination has been detached.
    pub open spec fn removed_message() -> Seq<char> {
        "the writer has been removed out"@
    }

    /// The fixed message carried by the failure reported when a destination
    /// accepts zero bytes of a non-empty remainder.
    pub open spec fn write_zero_message() -> Seq<char> {
        "failed to write whole buffer"@
    }

    /// The failure reported when the shared lock is unusable; `message` is
    /// the underlying lock failure's description.
    pub fn would_block(message: String) -> (r: IoError)
        ensures
            r.kind == IoErrorKind::WouldBlock,
            r.message == message,
    {
        IoError { kind: IoErrorKind::WouldBlock, message }
    }

    /// The failure reported when the optional destination has been detached.
    pub fn removed() -> (r: IoError)
        ensures
            r.kind == IoErrorKind::BrokenPipe,
            r.message@ == Self::removed_message(),
    {
        IoError { kind: IoErrorKind::BrokenPipe, message: "the writer has been removed out".to_owned() }
    }

    /// The failure reported when a destination accepts zero bytes of a
    /// non-empty remainder during a whole-buffer write.
    pub fn write_zero() -> (r: IoError)
        ensures
            r.kind == IoErrorKind::WriteZero,
            r.message@ == Self::write_zero_message(),
    {
        IoError { kind: IoErrorKind::WriteZero, message: "failed to write whole buffer".to_owned() }
    }

    /// The category of this failure.
    pub fn kind(&self) -> (k: IoErrorKind)
        ensures
            k == self.kind,
    {
        self.kind
    }

    /// The description of this failure.
    pub fn message(&self) -> (m: &String)
        ensures
            m == &self.message,
    {
        &self.message
    }
}

} // verus!
