//! Protocol version 1: the report decoder and the device facade.
//!
//! A report is 64 raw bytes. Byte offset 2 is a report-type discriminator;
//! only value 9 carries button data, every other value decodes to the empty
//! button set. Of a button-carrying report, the byte offsets 8, 9, 10, 11,
//! 13 and 14 each hold a bit-packed group of buttons; only the named bits
//! of each byte influence the output, all other bits are hardware noise and
//! are ignored. Decoding is total: no 64-byte input is rejected.

use vstd::prelude::*;

use crate::buttons::SteamDeckGamepadButton;
use crate::discovery::DeviceIdentifier;
use crate::interface::SteamDeckDeviceInterface;

verus! {

/// Buttons carried by report byte offset 8.
pub open spec fn spec_map8(b: u8) -> u32 {
    (if b & 0x01 != 0 {
        SteamDeckGamepadButton::R2
    } else {
        0u32
    }) | (if b & 0x02 != 0 {
        SteamDeckGamepadButton::L2
    } else {
        0u32
    }) | (if b & 0x04 != 0 {
        SteamDeckGamepadButton::R1
    } else {
        0u32
    }) | (if b & 0x08 != 0 {
        SteamDeckGamepadButton::L1
    } else {
        0u32
    }) | (if b & 0x10 != 0 {
        SteamDeckGamepadButton::NORTH
    } else {
        0u32
    }) | (if b & 0x20 != 0 {
        SteamDeckGamepadButton::EAST
    } else {
        0u32
    }) | (if b & 0x40 != 0 {
        SteamDeckGamepadButton::WEST
    } else {
        0u32
    }) | (if b & 0x80 != 0 {
        SteamDeckGamepadButton::SOUTH
    } else {
        0u32
    })
}

/// Buttons carried by report byte offset 9.
pub open spec fn spec_map9(b: u8) -> u32 {
    (if b & 0x01 != 0 {
        SteamDeckGamepadButton::DPAD_UP
    } else {
        0u32
    }) | (if b & 0x02 != 0 {
        SteamDeckGamepadButton::DPAD_RIGHT
    } else {
        0u32
    }) | (if b & 0x04 != 0 {
        SteamDeckGamepadButton::DPAD_LEFT
    } else {
        0u32
    }) | (if b & 0x08 != 0 {
        SteamDeckGamepadButton::DPAD_DOWN
    } else {
        0u32
    }) | (if b & 0x10 != 0 {
        SteamDeckGamepadButton::SELECT
    } else {
        0u32
    }) | (if b & 0x20 != 0 {
        SteamDeckGamepadButton::STEAM
    } else {
        0u32
    }) | (if b & 0x40 != 0 {
        SteamDeckGamepadButton::START
    } else {
        0u32
    }) | (if b & 0x80 != 0 {
        SteamDeckGamepadButton::L5
    } else {
        0u32
    })
}

/// Buttons carried by report byte offset 10. Bits 5 and 7 are unnamed.
pub open spec fn spec_map10(b: u8) -> u32 {
    (if b & 0x01 != 0 {
        SteamDeckGamepadButton::R5
    } else {
        0u32
    }) | (if b & 0x02 != 0 {
        SteamDeckGamepadButton::LPAD
    } else {
        0u32
    }) | (if b & 0x04 != 0 {
        SteamDeckGamepadButton::RPAD
    } else {
        0u32
    }) | (if b & 0x08 != 0 {
        SteamDeckGamepadButton::LPAD_TOUCH
    } else {
        0u32
    }) | (if b & 0x10 != 0 {
        SteamDeckGamepadButton::RPAD_TOUCH
    } else {
        0u32
    }) | (if b & 0x40 != 0 {
        SteamDeckGamepadButton::LSTICK
    } else {
        0u32
    })
}

/// Buttons carried by report byte offset 11. Only bit 2 is named.
pub open spec fn spec_map11(b: u8) -> u32 {
    if b & 0x04 != 0 {
        SteamDeckGamepadButton::RSTICK
    } else {
        0u32
    }
}

/// Buttons carried by report byte offset 13. Bits 0, 3, 4 and 5 are unnamed.
pub open spec fn spec_map13(b: u8) -> u32 {
    (if b & 0x02 != 0 {
        SteamDeckGamepadButton::L4
    } else {
        0u32
    }) | (if b & 0x04 != 0 {
        SteamDeckGamepadButton::R4
    } else {
        0u32
    }) | (if b & 0x40 != 0 {
        SteamDeckGamepadButton::LSTICK_TOUCH
    } else {
        0u32
    }) | (if b & 0x80 != 0 {
        SteamDeckGamepadButton::RSTICK_TOUCH
    } else {
        0u32
    })
}

/// Buttons carried by report byte offset 14. Only bit 2 is named.
pub open spec fn spec_map14(b: u8) -> u32 {
    if b & 0x04 != 0 {
        SteamDeckGamepadButton::QAM
    } else {
        0u32
    }
}

/// The whole decoder as a function on the 64 report bytes: the union of the
/// buttons of the six button-carrying offsets when the discriminator at
/// offset 2 is 9, and the empty set otherwise.
pub open spec fn spec_decode(r: Seq<u8>) -> u32
    recommends
        r.len() == 64,
{
    if r[2] == 9 {
        spec_map8(r[8]) | spec_map9(r[9]) | spec_map10(r[10]) | spec_map11(r[11]) | spec_map13(
            r[13],
        ) | spec_map14(r[14])
    } else {
        0u32
    }
}

/// Adds the buttons of report byte offset 8 to `out`.
pub fn map8(btns: u8, out: &mut SteamDeckGamepadButton)
    ensures
        final(out).bits == old(out).bits | spec_map8(btns),
{
    let add: u32 = (if btns & 0x01 != 0 {
        SteamDeckGamepadButton::R2
    } else {
        0u32
    }) | (if btns & 0x02 != 0 {
        SteamDeckGamepadButton::L2
    } else {
        0u32
    }) | (if btns & 0x04 != 0 {
        SteamDeckGamepadButton::R1
    } else {
        0u32
    }) | (if btns & 0x08 != 0 {
        SteamDeckGamepadButton::L1
    } else {
        0u32
    }) | (if btns & 0x10 != 0 {
        SteamDeckGamepadButton::NORTH
    } else {
        0u32
    }) | (if btns & 0x20 != 0 {
        SteamDeckGamepadButton::EAST
    } else {
        0u32
    }) | (if btns & 0x40 != 0 {
        SteamDeckGamepadButton::WEST
    } else {
        0u32
    }) | (if btns & 0x80 != 0 {
        SteamDeckGamepadButton::SOUTH
    } else {
        0u32
    });
    out.insert(add);
}

/// Adds the buttons of report byte offset 9 to `out`.
pub fn map9(btns: u8, out: &mut SteamDeckGamepadButton)
    ensures
        final(out).bits == old(out).bits | spec_map9(btns),
{
    let add: u32 = (if btns & 0x01 != 0 {
        SteamDeckGamepadButton::DPAD_UP
    } else {
        0u32
    }) | (if btns & 0x02 != 0 {
        SteamDeckGamepadButton::DPAD_RIGHT
    } else {
        0u32
    }) | (if btns & 0x04 != 0 {
        SteamDeckGamepadButton::DPAD_LEFT
    } else {
        0u32
    }) | (if btns & 0x08 != 0 {
        SteamDeckGamepadButton::DPAD_DOWN
    } else {
        0u32
    }) | (if btns & 0x10 != 0 {
        SteamDeckGamepadButton::SELECT
    } else {
        0u32
    }) | (if btns & 0x20 != 0 {
        SteamDeckGamepadButton::STEAM
    } else {
        0u32
    }) | (if btns & 0x40 != 0 {
        SteamDeckGamepadButton::START
    } else {
        0u32
    }) | (if btns & 0x80 != 0 {
        SteamDeckGamepadButton::L5
    } else {
        0u32
    });
    out.insert(add);
}

/// Adds the buttons of report byte offset 10 to `out`.
pub fn map10(btns: u8, out: &mut SteamDeckGamepadButton)
    ensures
        final(out).bits == old(out).bits | spec_map10(btns),
{
    let add: u32 = (if btns & 0x01 != 0 {
        SteamDeckGamepadButton::R5
    } else {
        0u32
    }) | (if btns & 0x02 != 0 {
        SteamDeckGamepadButton::LPAD
    } else {
        0u32
    }) | (if btns & 0x04 != 0 {
        SteamDeckGamepadButton::RPAD
    } else {
        0u32
    }) | (if btns & 0x08 != 0 {
        SteamDeckGamepadButton::LPAD_TOUCH
    } else {
        0u32
    }) | (if btns & 0x10 != 0 {
        SteamDeckGamepadButton::RPAD_TOUCH
    } else {
        0u32
    }) | (if btns & 0x40 != 0 {
        SteamDeckGamepadButton::LSTICK
    } else {
        0u32
    });
    out.insert(add);
}

/// Adds the buttons of report byte offset 11 to `out`.
pub fn map11(btns: u8, out: &mut SteamDeckGamepadButton)
    ensures
        final(out).bits == old(out).bits | spec_map11(btns),
{
    let add: u32 = if btns & 0x04 != 0 {
        SteamDeckGamepadButton::RSTICK
    } else {
        0u32
    };
    out.insert(add);
}

/// Adds the buttons of report byte offset 13 to `out`.
pub fn map13(btns: u8, out: &mut SteamDeckGamepadButton)
    ensures
        final(out).bits == old(out).bits | spec_map13(btns),
{
    let add: u32 = (if btns & 0x02 != 0 {
        SteamDeckGamepadButton::L4
    } else {
        0u32
    }) | (if btns & 0x04 != 0 {
        SteamDeckGamepadButton::R4
    } else {
        0u32
    }) | (if btns & 0x40 != 0 {
        SteamDeckGamepadButton::LSTICK_TOUCH
    } else {
        0u32
    }) | (if btns & 0x80 != 0 {
        SteamDeckGamepadButton::RSTICK_TOUCH
    } else {
        0u32
    });
    out.insert(add);
}

/// Adds the buttons of report byte offset 14 to `out`.
pub fn map14(btns: u8, out: &mut SteamDeckGamepadButton)
    ensures
        final(out).bits == old(out).bits | spec_map14(btns),
{
    let add: u32 = if btns & 0x04 != 0 {
        SteamDeckGamepadButton::QAM
    } else {
        0u32
    };
    out.insert(add);
}

/// True of the byte offsets of a report that carry button data.
pub open spec fn button_offset(o: int) -> bool {
    o == 8 || o == 9 || o == 10 || o == 11 || o == 13 || o == 14
}

/// The buttons carried by byte `b` standing at offset `o`.
pub open spec fn spec_map_at(o: int, b: u8) -> u32 {
    if o == 8 {
        spec_map8(b)
    } else if o == 9 {
        spec_map9(b)
    } else if o == 10 {
        spec_map10(b)
    } else if o == 11 {
        spec_map11(b)
    } else if o == 13 {
        spec_map13(b)
    } else if o == 14 {
        spec_map14(b)
    } else {
        0u32
    }
}

/// The named bits of the byte at offset `o`: only these influence decoding.
pub open spec fn spec_named_mask(o: int) -> u8 {
    if o == 8 || o == 9 {
        0xFFu8
    } else if o == 10 {
        0x5Fu8
    } else if o == 11 {
        0x04u8
    } else if o == 13 {
        0xC6u8
    } else if o == 14 {
        0x04u8
    } else {
        0u8
    }
}

/// True of a bitmask holding exactly one defined button.
pub open spec fn spec_single_flag(f: u32) -> bool {
    &&& f != 0
    &&& f & ((f - 1) as u32) == 0
    &&& f & SteamDeckGamepadButton::ALL_BITS == f
}

/// A report whose discriminator at offset 2 is not 9 decodes to the empty
/// set, whatever its other bytes hold.
pub proof fn lemma_decode_other_discriminator(r: Seq<u8>)
    requires
        r.len() == 64,
        r[2] != 9,
    ensures
        spec_decode(r) == 0,
{
}

/// Bits outside the named mask of a button-carrying byte never change the
/// decoded output: two reports with the same discriminator and the same
/// named bits at every button-carrying offset decode alike.
pub proof fn lemma_decode_noise_invariant(r1: Seq<u8>, r2: Seq<u8>)
    requires
        r1.len() == 64,
        r2.len() == 64,
        r1[2] == r2[2],
        forall|o: int|
            #![trigger r1[o], r2[o]]
            button_offset(o) ==> r1[o] & spec_named_mask(o) == r2[o] & spec_named_mask(o),
    ensures
        spec_decode(r1) == spec_decode(r2),
{
    if r1[2] == 9 {
        let a8 = r1[8];
        let b8 = r2[8];
        assert(r1[8] & spec_named_mask(8) == r2[8] & spec_named_mask(8));
        assert(spec_map8(a8) == spec_map8(b8)) by (bit_vector)
            requires
                a8 & 0xFFu8 == b8 & 0xFFu8,
        ;
        let a9 = r1[9];
        let b9 = r2[9];
        assert(r1[9] & spec_named_mask(9) == r2[9] & spec_named_mask(9));
        assert(spec_map9(a9) == spec_map9(b9)) by (bit_vector)
            requires
                a9 & 0xFFu8 == b9 & 0xFFu8,
        ;
        let a10 = r1[10];
        let b10 = r2[10];
        assert(r1[10] & spec_named_mask(10) == r2[10] & spec_named_mask(10));
        assert(spec_map10(a10) == spec_map10(b10)) by (bit_vector)
            requires
                a10 & 0x5Fu8 == b10 & 0x5Fu8,
        ;
        let a11 = r1[11];
        let b11 = r2[11];
        assert(r1[11] & spec_named_mask(11) == r2[11] & spec_named_mask(11));
        assert(spec_map11(a11) == spec_map11(b11)) by (bit_vector)
            requires
                a11 & 0x04u8 == b11 & 0x04u8,
        ;
        let a13 = r1[13];
        let b13 = r2[13];
        assert(r1[13] & spec_named_mask(13) == r2[13] & spec_named_mask(13));
        assert(spec_map13(a13) == spec_map13(b13)) by (bit_vector)
            requires
                a13 & 0xC6u8 == b13 & 0xC6u8,
        ;
        let a14 = r1[14];
        let b14 = r2[14];
        assert(r1[14] & spec_named_mask(14) == r2[14] & spec_named_mask(14));
        assert(spec_map14(a14) == spec_map14(b14)) by (bit_vector)
            requires
                a14 & 0x04u8 == b14 & 0x04u8,
        ;
    }
}

/// A button-carrying report in which exactly one bit is set across the six
/// button-carrying offsets decodes to the buttons of that one bit: the
/// single corresponding canonical flag when the bit is named, and the empty
/// set when it is not.
pub proof fn lemma_decode_single_bit(r: Seq<u8>, o: int, k: u8)
    requires
        r.len() == 64,
        r[2] == 9,
        button_offset(o),
        k < 8,
        r[o] == 1u8 << k,
        forall|j: int| #![trigger r[j]] button_offset(j) && j != o ==> r[j] == 0,
    ensures
        spec_decode(r) == spec_map_at(o, (1u8 << k)),
        (1u8 << k) & spec_named_mask(o) != 0 ==> spec_single_flag(spec_map_at(o, (1u8 << k))),
        (1u8 << k) & spec_named_mask(o) == 0 ==> spec_map_at(o, (1u8 << k)) == 0,
{
    let m8 = spec_map8(r[8]);
    let m9 = spec_map9(r[9]);
    let m10 = spec_map10(r[10]);
    let m11 = spec_map11(r[11]);
    let m13 = spec_map13(r[13]);
    let m14 = spec_map14(r[14]);
    let target = spec_map_at(o, (1u8 << k));
    assert(spec_map8(0u8) == 0 && spec_map9(0u8) == 0 && spec_map10(0u8) == 0 && spec_map11(0u8)
        == 0 && spec_map13(0u8) == 0 && spec_map14(0u8) == 0) by (bit_vector);
    assert(m8 | m9 | m10 | m11 | m13 | m14 == target) by (bit_vector)
        requires
            m8 == target && m9 == 0 && m10 == 0 && m11 == 0 && m13 == 0 && m14 == 0 || m8 == 0 && m9
                == target && m10 == 0 && m11 == 0 && m13 == 0 && m14 == 0 || m8 == 0 && m9 == 0
                && m10 == target && m11 == 0 && m13 == 0 && m14 == 0 || m8 == 0 && m9 == 0 && m10
                == 0 && m11 == target && m13 == 0 && m14 == 0 || m8 == 0 && m9 == 0 && m10 == 0
                && m11 == 0 && m13 == target && m14 == 0 || m8 == 0 && m9 == 0 && m10 == 0 && m11
                == 0 && m13 == 0 && m14 == target,
    ;
    assert(k < 8 ==> (1u8 << k) & 0xFFu8 != 0) by (bit_vector);
    assert(k < 8 && (1u8 << k) & 0xFFu8 != 0 ==> spec_single_flag(spec_map8((1u8 << k)))
        && spec_map8(0u8) == 0) by (bit_vector);
    assert(k < 8 && (1u8 << k) & 0xFFu8 != 0 ==> spec_single_flag(spec_map9((1u8 << k))))
        by (bit_vector);
    assert(k < 8 && (1u8 << k) & 0x5Fu8 != 0 ==> spec_single_flag(spec_map10((1u8 << k))))
        by (bit_vector);
    assert(k < 8 && (1u8 << k) & 0x5Fu8 == 0 ==> spec_map10((1u8 << k)) == 0) by (bit_vector);
    assert(k < 8 && (1u8 << k) & 0x04u8 != 0 ==> spec_single_flag(spec_map11((1u8 << k)))
        && spec_single_flag(spec_map14((1u8 << k)))) by (bit_vector);
    assert(k < 8 && (1u8 << k) & 0x04u8 == 0 ==> spec_map11((1u8 << k)) == 0 && spec_map14(
        (1u8 << k),
    ) == 0) by (bit_vector);
    assert(k < 8 && (1u8 << k) & 0xC6u8 != 0 ==> spec_single_flag(spec_map13((1u8 << k))))
        by (bit_vector);
    assert(k < 8 && (1u8 << k) & 0xC6u8 == 0 ==> spec_map13((1u8 << k)) == 0) by (bit_vector);
}

/// Decoding never yields an undefined bit: every decoded set lies within
/// the mask of the 28 defined buttons.
pub proof fn lemma_decode_within_defined(r: Seq<u8>)
    requires
        r.len() == 64,
    ensures
        spec_decode(r) & SteamDeckGamepadButton::ALL_BITS == spec_decode(r),
{
    if r[2] == 9 {
        let b8 = r[8];
        let b9 = r[9];
        let b10 = r[10];
        let b11 = r[11];
        let b13 = r[13];
        let b14 = r[14];
        assert((spec_map8(b8) | spec_map9(b9) | spec_map10(b10) | spec_map11(b11) | spec_map13(b13)
            | spec_map14(b14)) & 0x0FFF_FFFFu32 == (spec_map8(b8) | spec_map9(b9) | spec_map10(b10)
            | spec_map11(b11) | spec_map13(b13) | spec_map14(b14))) by (bit_vector);
    } else {
        assert(0u32 & 0x0FFF_FFFFu32 == 0u32) by (bit_vector);
    }
}

/// Decodes one 64-byte report into the canonical button set.
pub fn decode(report: &[u8; 64]) -> (out: SteamDeckGamepadButton)
    ensures
        out.bits == spec_decode(report@),
{
    let mut out = SteamDeckGamepadButton::empty();
    if report[2] == 9 {
        map8(report[8], &mut out);
        proof {
            let m8 = spec_map8(report@[8]);
            assert(0u32 | m8 == m8) by (bit_vector);
        }
        map9(report[9], &mut out);
        map10(report[10], &mut out);
        map11(report[11], &mut out);
        map13(report[13], &mut out);
        map14(report[14], &mut out);
    }
    out
}


/// The facade of protocol version 1: the decoder above, bound to one open
/// raw device handle that discovery produced.
pub struct SteamDeckInterface {
    device: hidraw::Device,
}

impl SteamDeckDeviceInterface for SteamDeckInterface {
    /// Version 1 of the protocol answers on vendor 0x28de, product 0x1205,
    /// logical interface 2.
    open spec fn spec_id() -> DeviceIdentifier {
        DeviceIdentifier { vendor_id: 0x28de, product_id: 0x1205, interface: 2 }
    }

    open spec fn spec_decode_report(r: Seq<u8>) -> u32 {
        spec_decode(r)
    }

    closed spec fn spec_device(&self) -> hidraw::Device {
        self.device
    }

    fn get_id() -> (id: DeviceIdentifier) {
        DeviceIdentifier { vendor_id: 0x28de, product_id: 0x1205, interface: 2 }
    }

    fn from_device(device: hidraw::Device) -> (r: Self) {
        SteamDeckInterface { device }
    }

    fn get_device(&self) -> (d: &hidraw::Device) {
        &self.device
    }

    fn get_device_mut(&mut self) -> (d: &mut hidraw::Device) {
        &mut self.device
    }

    fn parse(&self, report: [u8; 64]) -> (out: SteamDeckGamepadButton) {
        decode(&report)
    }
}


} // verus!


