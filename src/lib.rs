//! Blocking synchronization primitives: a reader-writer lock whose state
//! lives in one machine word, and multi-producer, single-consumer channels
//! (unbounded, bounded, and rendezvous).
mod blocking;
pub mod lock_word;
pub mod mpsc;
pub mod rwlock;
pub mod wait_queue;
