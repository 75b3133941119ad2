//! A freestanding runtime shim: the decisions of a global allocator, an
//! out-of-memory handler and a panic handler that reach the outside world only
//! through four host primitives, and a fixed-length array type for buffers
//! that cross a foreign-function boundary.

pub mod abort;
pub mod allocator;
pub mod array;
pub mod hex;
pub mod host;
