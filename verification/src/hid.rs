//! Declaration of the raw HID device handle type of the `hidraw` crate.
//!
//! The handle is opaque to the library: it is created by discovery code,
//! owned by exactly one device facade, and handed out by reference for
//! polling registration and raw reads. All operations on it (open, ioctl
//! queries, report reads) are I/O and live outside the library.

use vstd::prelude::*;

verus! {

/// Relies on hidraw::Device being an ordinary owned struct (a wrapper
/// around one owned file descriptor); the library only stores and moves
/// values of it.
#[verifier::external_type_specification]
#[verifier::external_body]
pub struct ExDevice(hidraw::Device);

} // verus!
