//! One-time initialization that does not survive a fork.
//!
//! A forked child inherits the memory of its parent, and with it every value
//! that the parent has computed once and cached: process ids, handles, seeds.
//! The primitives of this crate throw such values away. Each one remembers
//! the generation of the process in which its value was produced; every
//! operation is told the current generation, and wipes what comes from
//! another generation before it does anything else.
//!
//! * [`utils`] holds the generation counter.
//! * [`epoch`] holds the model of stamps and of the wipe protocol.
//! * [`once`] holds the once-state machine.
//! * [`once_cell`] and [`lazy_cell`] hold the write-once cell and the lazy
//!   value for a single owner.
//! * [`once_lock`] and [`lazy_lock`] hold their counterparts that are built
//!   on the once-state machine.
//!
//! All of it is plain data behind exclusive access. Sharing between threads,
//! the process-wide counter and its registration with the operating system
//! belong to the caller.

pub mod epoch;
pub mod lazy_cell;
pub mod lazy_lock;
pub mod once;
pub mod once_cell;
pub mod once_lock;
pub mod utils;

pub use lazy_cell::WipeOnForkLazyCell;
pub use lazy_lock::WipeOnForkLazyLock;
pub use once::WipeOnForkOnce;
pub use once_cell::WipeOnForkOnceCell;
pub use once_lock::WipeOnForkOnceLock;
