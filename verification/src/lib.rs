//! Verified core of `garn`, a client library for named inter-process
//! mutexes that a system service hands out through shared memory.
//!
//! The library holds the error model that crosses the C interface, the
//! liveness marker of handed-out objects, the bookkeeping of shared-memory
//! pages, the registry of opened mutexes and the decisions that turn the
//! service's replies and the platform's return codes into results.
//!
//! The library is for Linux targets: the error numbers that it reads from
//! the platform are stated with their Linux values.

pub mod error_handling;
pub mod alive_marker;
pub mod shm_consumer;
pub mod decimal;
pub mod registry;
pub mod environment;
pub mod platform_traits;
pub mod mutex;
pub mod interface;
pub mod local_mutex;
pub mod reflect;
pub mod open_mutex;
pub mod open_environment;
