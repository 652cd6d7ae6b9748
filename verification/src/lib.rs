//! An in-memory duplex byte channel.
//!
//! A [`Socket`] behaves like a network stream without touching the network:
//! bytes written through one handle are buffered in a [`State`] that all clones
//! of the handle share, and come out again, in the order in which they were
//! written, through sequential reads or as a stream of chunks.
//!
//! The operations on [`State`] are specified exactly, over the mathematical
//! channel of [`channel`]; [`laws`] proves what holds of every sequence of
//! operations. [`Socket`] adds the lock and the polling around them.

pub mod channel;
pub mod laws;
pub mod socket;
pub mod state;

pub use channel::DEFAULT_CHUNK_SIZE;
pub use socket::Socket;
pub use state::Progress;
pub use state::State;
