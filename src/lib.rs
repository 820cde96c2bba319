//! A feed that the host drives through a fixed lifecycle: global and
//! per-thread setup, keyspace reporting, seeking and enumeration, teardown.
//!
//! This feed is the minimal conforming one: it attaches no private state,
//! declares itself unbounded and answers every enumeration request with the
//! same status code.

#![allow(non_camel_case_types)]

pub mod context;
pub mod feed;

pub use context::{generic_global_ctx_t, generic_thread_ctx_t};
pub use feed::{
    global_init, global_keyspace, global_term, thread_init, thread_next, thread_seek,
    thread_term,
};
