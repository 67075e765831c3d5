//! Ordering keys for priority queues that are filled by several threads.
//!
//! [`Prio`] extends a numeric priority with a tiebreak derived from the
//! identity of the submitting thread, so that keys of equal priority that
//! come from different threads are still strictly ordered. [`PV`] pairs any
//! priority key with a payload and orders the pair by the key alone, in the
//! opposite direction to the key's own order.
pub mod prio;
pub mod pv;
pub mod tiebreak;

pub use prio::Prio;
pub use pv::PV;
