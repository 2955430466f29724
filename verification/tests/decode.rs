use steamdeck_controller_hidraw::v1::decode;
use steamdeck_controller_hidraw::SteamDeckGamepadButton;

fn report(discriminator: u8) -> [u8; 64] {
    let mut r = [0u8; 64];
    r[2] = discriminator;
    r
}

#[test]
fn r1_report_decodes_to_exactly_r1() {
    let mut r = report(9);
    r[8] = 0x04;
    let out = decode(&r);
    assert_eq!(out.bits, SteamDeckGamepadButton::R1);
}

#[test]
fn steam_report_decodes_to_exactly_steam() {
    let mut r = report(9);
    r[9] = 0x20;
    let out = decode(&r);
    assert_eq!(out.bits, SteamDeckGamepadButton::STEAM);
}

#[test]
fn other_discriminator_decodes_to_empty_even_with_all_button_bytes_set() {
    let mut r = report(0);
    r[8] = 0xFF;
    r[9] = 0xFF;
    r[10] = 0xFF;
    r[11] = 0xFF;
    r[13] = 0xFF;
    r[14] = 0xFF;
    let out = decode(&r);
    assert!(out.is_empty());
    assert_eq!(out.bits, 0);
}

#[test]
fn unrecognized_discriminators_are_ignored() {
    for d in [0u8, 1, 8, 10, 42, 255] {
        let mut r = report(d);
        r[8] = 0x04;
        r[9] = 0x20;
        assert_eq!(decode(&r).bits, 0);
    }
}

#[test]
fn every_named_bit_decodes_to_its_single_flag() {
    let cases: Vec<(usize, u8, u32)> = vec![
        (8, 0x01, SteamDeckGamepadButton::R2),
        (8, 0x02, SteamDeckGamepadButton::L2),
        (8, 0x04, SteamDeckGamepadButton::R1),
        (8, 0x08, SteamDeckGamepadButton::L1),
        (8, 0x10, SteamDeckGamepadButton::NORTH),
        (8, 0x20, SteamDeckGamepadButton::EAST),
        (8, 0x40, SteamDeckGamepadButton::WEST),
        (8, 0x80, SteamDeckGamepadButton::SOUTH),
        (9, 0x01, SteamDeckGamepadButton::DPAD_UP),
        (9, 0x02, SteamDeckGamepadButton::DPAD_RIGHT),
        (9, 0x04, SteamDeckGamepadButton::DPAD_LEFT),
        (9, 0x08, SteamDeckGamepadButton::DPAD_DOWN),
        (9, 0x10, SteamDeckGamepadButton::SELECT),
        (9, 0x20, SteamDeckGamepadButton::STEAM),
        (9, 0x40, SteamDeckGamepadButton::START),
        (9, 0x80, SteamDeckGamepadButton::L5),
        (10, 0x01, SteamDeckGamepadButton::R5),
        (10, 0x02, SteamDeckGamepadButton::LPAD),
        (10, 0x04, SteamDeckGamepadButton::RPAD),
        (10, 0x08, SteamDeckGamepadButton::LPAD_TOUCH),
        (10, 0x10, SteamDeckGamepadButton::RPAD_TOUCH),
        (10, 0x40, SteamDeckGamepadButton::LSTICK),
        (11, 0x04, SteamDeckGamepadButton::RSTICK),
        (13, 0x02, SteamDeckGamepadButton::L4),
        (13, 0x04, SteamDeckGamepadButton::R4),
        (13, 0x40, SteamDeckGamepadButton::LSTICK_TOUCH),
        (13, 0x80, SteamDeckGamepadButton::RSTICK_TOUCH),
        (14, 0x04, SteamDeckGamepadButton::QAM),
    ];
    assert_eq!(cases.len(), 28);
    for (offset, bit, flag) in cases {
        let mut r = report(9);
        r[offset] = bit;
        let out = decode(&r);
        assert_eq!(out.bits, flag, "offset {offset} bit {bit:#04x}");
    }
}

#[test]
fn unnamed_bits_never_change_the_output() {
    // Offsets 10, 11, 13 and 14 have unnamed bits; flip them all on next to
    // a named bit and the output must not move.
    let mut clean = report(9);
    clean[10] = 0x40;
    clean[11] = 0x04;
    clean[13] = 0x02;
    clean[14] = 0x04;
    let expected = decode(&clean).bits;

    let mut noisy = clean;
    noisy[10] |= 0xA0;
    noisy[11] |= 0xFB;
    noisy[13] |= 0x39;
    noisy[14] |= 0xFB;
    assert_eq!(decode(&noisy).bits, expected);
}

#[test]
fn noise_alone_decodes_to_empty() {
    let mut r = report(9);
    r[10] = 0xA0;
    r[11] = 0xFB;
    r[13] = 0x39;
    r[14] = 0xFB;
    assert_eq!(decode(&r).bits, 0);
}

#[test]
fn decode_is_pure_across_repeated_calls() {
    let mut r = report(9);
    r[8] = 0x81;
    r[9] = 0x20;
    let first = decode(&r);
    let second = decode(&r);
    let third = decode(&r);
    assert_eq!(first, second);
    assert_eq!(second, third);
    assert_eq!(
        first.bits,
        SteamDeckGamepadButton::SOUTH | SteamDeckGamepadButton::R2 | SteamDeckGamepadButton::STEAM
    );
}

#[test]
fn buttons_accumulate_across_all_six_offsets() {
    let mut r = report(9);
    r[8] = 0x01;
    r[9] = 0x01;
    r[10] = 0x01;
    r[11] = 0x04;
    r[13] = 0x02;
    r[14] = 0x04;
    let out = decode(&r);
    let expected = SteamDeckGamepadButton::R2
        | SteamDeckGamepadButton::DPAD_UP
        | SteamDeckGamepadButton::R5
        | SteamDeckGamepadButton::RSTICK
        | SteamDeckGamepadButton::L4
        | SteamDeckGamepadButton::QAM;
    assert_eq!(out.bits, expected);
}
