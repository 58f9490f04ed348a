//! Host side of a sandboxed agent runtime: the wire envelope exchanged with
//! the guest, the guest's capability calls over its linear memory, and the
//! decisions of the inference service adapter.
pub mod codec;
pub mod error;
pub mod text;
pub mod message;
pub mod config;
pub mod headers;
pub mod service;
pub mod retry;
pub mod capability;
