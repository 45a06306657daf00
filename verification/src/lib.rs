//! A fixed-capacity, multi-producer/multi-consumer LIFO stack built from
//! per-slot permission flags and a single reservation counter.
//!
//! The stack owns a fixed array of payload cells. Two permission flags per
//! slot — a write-permit and a read-permit — form a two-phase handshake
//! (writable -> readable -> writable) that gives at most one operation at a
//! time access to a slot's payload. The reservation counter is the sole
//! total-order point: a push claims the next slot by incrementing it, a pop
//! retreats it by one with a compare-and-swap after consuming the top
//! slot's read-permit.
//!
//! The flag transitions and the counter steps are stated and proved here as
//! a state machine driven by one call at a time; an operation that would
//! busy-wait for a partner to hand a flag over instead requires the flag to
//! be in the state the wait looks for, so every admitted call returns.

pub mod lock;
pub mod model;
pub mod stack;
