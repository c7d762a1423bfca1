//! Decision logic for building a vendored native library and for loading it
//! lazily from an embedded copy at run time.
//!
//! The filesystem, process and dynamic-loading work is done by the caller;
//! this crate decides, step by step, what that work is.
pub mod binder;
pub mod copier;
pub mod driver;
pub mod loader;
pub mod paths;
