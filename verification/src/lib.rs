//! A reader-writer lock whose writers queue by tickets.
//!
//! A writer takes a ticket and redeems it to get in. While a writer holds the
//! lock, the one to get in next is the holder of the next ticket; a lock that
//! no writer holds lets any ticket holder in. Readers are let in whenever no
//! writer holds the lock, however many writers are queued. This crate is the
//! engine of such a lock: it decides who may enter and who has to wait. It
//! does not hold the protected value.
//!
//! * [`state`] has the four counters of the lock, [`State`], and the record
//!   of plain numbers that the contracts speak of, [`Admission`].
//! * [`protocol`] lists the steps that change the counters, and proves what
//!   holds of every sequence of them.
//! * [`raw`] has [`RawQueuedRwLock`], which keeps a [`State`] behind a mutex
//!   and lets the callers wait on condition variables.
//! * [`sync`] states what is taken for granted of the mutex and the
//!   condition variables of the standard library.

pub mod protocol;
pub mod raw;
pub mod state;
pub mod sync;

pub use protocol::Op;
pub use raw::RawQueuedRwLock;
pub use state::{Admission, State, Waiter};
