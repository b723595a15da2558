//! Cross-program call marshalling for guest modules: values that cross the
//! guest/host boundary are staged in linear memory and passed to the host as
//! single 64-bit pointers.
pub mod host;
pub mod memory;
pub mod program;
pub mod recording;
