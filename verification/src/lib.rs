//! Verified core of a virtual input device library.
//!
//! The crate models the two pieces of engineering behind a user-space
//! virtual input device: a borrowed bit-level capability set indexed by
//! enumerable capability codes, and the staged protocol that declares
//! capabilities, finalizes a device, and emits event batches with their
//! mandatory synchronization marker.

pub mod attribute_set;
pub mod constants;
pub mod uinput;

