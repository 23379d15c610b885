//! Runtime marshaling layer of a cross-language binding generator.
//!
//! Values cross the boundary between the native core and a foreign host
//! language either as a fixed-width scalar or as an owned byte buffer. The
//! [`FfiConverter`] trait is the contract by which a type states both forms,
//! together with the laws that make one the inverse of the other.

pub mod buffer;
pub mod compound;
pub mod converter;
pub mod cursor;
pub mod docs;
pub mod error;
pub mod laws;
pub mod lowering;
pub mod scalars;
pub mod strings;
pub mod text;
pub mod time;
pub mod wire;
pub mod version;

pub use buffer::{check_descriptor, descriptor_fields, DescriptorError, RustBuffer};
pub use converter::{
    check_consumed, lower_into_rust_buffer, try_lift_from_rust_buffer, FfiConverter, Interface,
    UniFfiTag,
};
pub use cursor::check_remaining;
pub use docs::{extract_documentation, Dictionary, Documentation, Function, Structure};
pub use error::DecodeError;
pub use lowering::{lower_anyhow_error_or_panic, lower_downcast, LoweringDefect};
pub use time::Timestamp;
pub use version::{check_compatible_version, versions_compatible, PACKAGE_VERSION};
