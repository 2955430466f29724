//! The capability surface one protocol version presents to the driver.
//!
//! Each supported version binds an identifying triple, a report decoder and
//! an open device handle behind this one trait, so that the event loop and
//! future version-resolution code can work against any of them.

use vstd::prelude::*;

use crate::buttons::SteamDeckGamepadButton;
use crate::discovery::DeviceIdentifier;

verus! {

/// One protocol version of the controller device: its identifying triple,
/// its report decoder, and the open raw device handle it is bound to.
pub trait SteamDeckDeviceInterface: Sized {
    /// The identifying triple of this protocol version.
    spec fn spec_id() -> DeviceIdentifier;

    /// This version's decoder as a function on the 64 report bytes.
    spec fn spec_decode_report(r: Seq<u8>) -> u32;

    /// The device handle the facade is bound to.
    spec fn spec_device(&self) -> hidraw::Device;

    /// The identifying triple used to discover this version's device.
    fn get_id() -> (id: DeviceIdentifier)
        ensures
            id == Self::spec_id(),
    ;

    /// Binds a discovered, open device handle to this version.
    fn from_device(device: hidraw::Device) -> (r: Self)
        ensures
            r.spec_device() == device,
    ;

    /// The bound device handle, for polling registration.
    fn get_device(&self) -> (d: &hidraw::Device)
        ensures
            *d == self.spec_device(),
    ;

    /// The bound device handle, for raw reads.
    fn get_device_mut(&mut self) -> (d: &mut hidraw::Device)
        ensures
            *d == old(self).spec_device(),
            final(self).spec_device() == *final(d),
    ;

    /// Decodes one raw report with this version's decoder.
    fn parse(&self, report: [u8; 64]) -> (out: SteamDeckGamepadButton)
        ensures
            out.bits == Self::spec_decode_report(report@),
    ;
}

} // verus!
