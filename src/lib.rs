//! Owned boxes over pluggable backends: memory from an allocator, or an inline array.
pub mod allocator;
pub mod boxed;
pub mod buffer;
pub mod storage;
