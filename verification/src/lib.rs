//! Adapters that let a byte-stream codec read from, write to and seek in a
//! file object of a foreign runtime.
//!
//! A foreign file object offers a handful of named methods and promises
//! little about what they answer. The adapters probe which methods exist,
//! make each call, and turn every answer into a native result; a pair of
//! buffers over one adapter keeps buffered reading and buffered writing in
//! step with the object's single cursor.

pub mod error;
pub mod foreign;
pub mod replies;
pub mod seek;
pub mod adapters;
pub mod memory;
pub mod buffered;
pub mod laws;
pub mod chunks;
