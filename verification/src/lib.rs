//! User-space driver core for the Steam Deck's built-in controller, exposed
//! through a raw HID character device.
//!
//! The crate covers the protocol logic of the driver: identifying the right
//! device node among the candidates an enumeration yields, decoding the
//! fixed 64-byte input reports into a canonical button bitmask, and the
//! decision kernel of the blocking event loop that turns device readiness
//! into a stream of decoded button states.

pub mod buttons;
pub mod discovery;
pub mod event_loop;
pub mod hid;
pub mod interface;
pub mod names;
pub mod v1;

pub use buttons::SteamDeckGamepadButton;
pub use interface::SteamDeckDeviceInterface;
pub use v1::SteamDeckInterface;
