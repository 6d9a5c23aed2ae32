//! A small byte-manipulation layer: a shared error/result model, length-strict
//! bitwise operations over byte sequences, and a base64 encode/decode adapter.

pub mod base64_operation;
pub mod byte_operation;
pub mod cresult;

pub use base64_operation::Base64Operation;
pub use byte_operation::{rand_byte_vec, ByteOperation, ByteVec};
pub use cresult::{CError, CResult};
