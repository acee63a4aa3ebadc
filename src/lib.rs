//! Conversion of a JVM string handle into an owned Rust `String`.
//!
//! The JVM hands a string's characters over as modified UTF-8 bytes; `jni`
//! decodes them. The library reports any failure of that exchange as a typed
//! `bridge::ConversionFailure` instead of aborting.

pub mod bridge;
pub mod jni_specs;
