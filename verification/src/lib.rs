//! Load generation for S3-compatible object storage, written as a set of
//! verified, I/O-free building blocks: key naming, payload buffers, multipart
//! chunking, and the state machines that a driver runs against a bucket.

pub mod args;
pub mod buffer;
pub mod chunk;
pub mod config;
pub mod failure;
pub mod key;
pub mod object_op;
pub mod pool;
pub mod session;
pub mod span;
pub mod text;
pub mod worker;
