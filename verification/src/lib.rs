//! Durable Objects provide low-latency coordination and consistent storage for the Workers platform.
//! A given namespace can support essentially unlimited Durable Objects, with each Object having
//! access to a transactional, key-value storage API.
//!
//! The library decides what the runtime is asked and what its answers mean. It never calls the
//! runtime itself. A call that answers at once is handed in as a function. A call that answers
//! later is an [`operation::Operation`], which says what to do next and takes what came of it.
//!
//! Values that live in the runtime are held by handles. `H` stands for the type of a handle to a
//! JavaScript value throughout.

pub mod alarm_laws;
pub mod error;
pub mod id_laws;
pub mod laws;
pub mod namespace;
pub mod namespace_laws;
pub mod number;
pub mod operation;
pub mod option_laws;
pub mod options;
pub mod reply_laws;
pub mod runtime;
pub mod schedule;
pub mod scheduling_laws;
pub mod storage;
pub mod storage_laws;
pub mod value;
