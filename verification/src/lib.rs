//! A hardened in-memory container for a single sensitive byte sequence.
//!
//! The cell owns one secret buffer and minimizes its exposure window: the
//! buffer can be pinned against swapping through an injectable pin budget,
//! every terminal event funnels through one zeroizing wipe, reveals honour a
//! time-to-live and an optional one-shot (volatile) discipline, and partial
//! disclosure masks all but a trailing suffix.
pub mod cell;
pub mod clock;
pub mod laws;
pub mod pin;
pub mod text;

pub use cell::CellError;
pub use cell::CypherCell;
pub use pin::PinBudget;
