//! Adapters that let many independent owners write into one shared,
//! lock-protected byte sink without interleaving their individual writes.
//!
//! [`SynchronizedWriter`] wraps a destination that is always present;
//! [`SynchronizedOptionWriter`] wraps an optional destination that an
//! external owner may detach, after which every operation fails.

mod destination;
mod error;
mod laws;
mod locking;
mod synchronized_option_writer;
mod synchronized_writer;

pub use destination::ChunkDestination;
pub use destination::Destination;
pub use destination::FailingDestination;
pub use laws::lemma_mutual_exclusion;
pub use laws::lemma_no_resurrection;
pub use laws::lemma_repeated_shape;
pub use laws::repeated;
pub use laws::window;
pub use error::IoError;
pub use error::IoErrorKind;
pub use synchronized_option_writer::slot_flush;
pub use synchronized_option_writer::slot_write;
pub use synchronized_option_writer::SynchronizedOptionWriter;
pub use synchronized_writer::SynchronizedWriter;
