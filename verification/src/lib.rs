//! A safety layer between natively owned values and the objects of a
//! reference-counted host runtime.
//!
//! The host runtime is held as an explicit value, [`ffi::Runtime`]: a table of
//! reference counts, a pending exception, the queue of deferred releases and
//! the global interpreter lock. Handles ([`instance::Py`]) and call-scoped
//! references ([`instance::ManagedPyRef`]) state their effect on that table in
//! their contracts.
pub mod err;
pub mod ffi;
pub mod conversion;
pub mod instance;
pub mod type_object;
pub mod types;
pub mod callback;
pub mod class;
pub mod pyclass;
