//! Exclusive per-buffer write locks for a multi-user collaborative editor.
//!
//! Many clients contend for the right to edit a shared buffer; this library
//! decides, per buffer, exactly one winner and never two.  The heart of the
//! design is that every mutating decision about a lock is a single atomic
//! conditional transition of the lock store: no caller ever reads availability
//! and claims ownership in two separate steps, so no race window exists
//! between "check" and "act".
//!
//! The components mirror a small deployment: a [`store::LockStore`] holding
//! one record per locked buffer, a [`limiter::ConnectionLimiter`] capping the
//! sessions of each user, and a [`manager::LockManager`] that validates
//! requests, delegates the atomic claim, renews held locks on heartbeats and
//! reclaims abandoned ones in a periodic sweep.

pub mod config;
pub mod store;
pub mod limiter;
pub mod manager;
pub mod sweep;
pub mod laws;
