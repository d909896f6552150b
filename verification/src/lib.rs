//! Locks, a queue, a map and a set for a host runtime whose objects have a
//! hash and an equality of their own.
//!
//! The locks are those of `parking_lot`, the queue is a `flume` channel, the
//! map and the set are `DashMap` and `DashSet`. What this crate adds, and
//! proves, is what stands around them: how a wait bound in seconds is read,
//! when a call waits and for how long, that a guard gives its hold up once,
//! how two keys of a host compare, and which error each call can give.

pub mod dict;
pub mod key;
pub mod locks;
pub mod queue;
pub mod set;
pub mod timeout;
pub mod walk;
