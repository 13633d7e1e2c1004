//! The decision core of a S.M.A.R.T. disk-health binding.
//!
//! A driver performs the native calls on a block device and reports what each
//! call returned; this crate decides what the reply means. It owns the life
//! cycle of the device handle, the mapping of native status codes to errors,
//! the decoding of native booleans, enumerations and text buffers, and it says
//! when the native resource has to be freed. Nothing here touches a device.

pub use nix;

pub mod error;
pub mod status;
pub mod text;
pub mod lifecycle;
pub mod kinds;
pub mod identify;
pub mod disk;
