//! What the operations are for: laws that relate what goes into a call to what comes out of it.
//!
//! Each law speaks of the calls themselves. Its hypothesis is that a call with these arguments
//! returned this result, and its conclusion is what the result must then be, in terms of the
//! arguments alone.

pub mod configuration;
pub mod constants;
pub mod context;
pub mod frame;
pub mod host;
pub mod loading;
pub mod phases;
pub mod reconstruction;
pub mod reports;
pub mod sdk;
pub mod structures;
pub mod upscaling;
