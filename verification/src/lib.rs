//! A resource-lifecycle core for X input devices.
//!
//! The crate decides what a binding to the X libraries has to do and in which
//! order: which native call comes next, what is kept of its result, which
//! devices are opened, how a property's payload is decoded, and which release
//! call every owner owes when it is given up. It makes no native call itself.
//! Every operation that needs the X libraries is a step: called with what has
//! come back so far, it answers with the next [`native::NativeCall`] to make or
//! with its result.
pub mod native;
pub mod xinput;
pub mod xlib;

pub use xlib::Display;
