//! The protocols that a class of the native side may take part in, and the
//! adapters through which the host runtime calls them.
pub mod iter;
pub mod mapping;
pub mod sequence;
pub mod context;
pub mod basic;
