use steamdeck_controller_hidraw::SteamDeckGamepadButton;

#[test]
fn empty_set_has_no_buttons() {
    let b = SteamDeckGamepadButton::empty();
    assert!(b.is_empty());
    assert_eq!(b.bits, 0);
}

#[test]
fn insert_and_contains() {
    let mut b = SteamDeckGamepadButton::empty();
    b.insert(SteamDeckGamepadButton::STEAM);
    b.insert(SteamDeckGamepadButton::QAM);
    assert!(b.contains(SteamDeckGamepadButton::STEAM));
    assert!(b.contains(SteamDeckGamepadButton::QAM));
    assert!(!b.contains(SteamDeckGamepadButton::R1));
    assert!(!b.is_empty());
}

#[test]
fn union_joins_both_sets() {
    let a = SteamDeckGamepadButton::from_bits(SteamDeckGamepadButton::L1);
    let b = SteamDeckGamepadButton::from_bits(SteamDeckGamepadButton::R1);
    let u = a.union(b);
    assert_eq!(u.bits, SteamDeckGamepadButton::L1 | SteamDeckGamepadButton::R1);
}

#[test]
fn all_is_the_28_bit_mask() {
    let all = SteamDeckGamepadButton::all();
    assert_eq!(all.bits, 0x0FFF_FFFF);
    assert_eq!(all.bits.count_ones(), 28);
}

#[test]
fn equality_is_by_bits() {
    let a = SteamDeckGamepadButton::from_bits(3);
    let b = SteamDeckGamepadButton::from_bits(3);
    let c = SteamDeckGamepadButton::from_bits(4);
    assert_eq!(a, b);
    assert_ne!(a, c);
}

#[test]
fn name_table_cardinality_equals_defined_bits() {
    let table = SteamDeckGamepadButton::display_name_to_value();
    assert_eq!(table.len(), 28);
    assert_eq!(SteamDeckGamepadButton::all().bits.count_ones(), 28);
    let reverse = SteamDeckGamepadButton::value_to_display_name();
    assert_eq!(reverse.len(), 28);
}

#[test]
fn names_and_flags_are_unique() {
    let table = SteamDeckGamepadButton::display_name_to_value();
    for (i, (name_i, flag_i)) in table.iter().enumerate() {
        for (j, (name_j, flag_j)) in table.iter().enumerate() {
            if i != j {
                assert_ne!(name_i, name_j);
                assert_ne!(flag_i.bits, flag_j.bits);
            }
        }
    }
}

#[test]
fn every_flag_is_a_single_defined_bit_and_together_they_fill_the_mask() {
    let table = SteamDeckGamepadButton::display_name_to_value();
    let mut union: u32 = 0;
    for (_, flag) in &table {
        assert_eq!(flag.bits.count_ones(), 1);
        assert_eq!(flag.bits & 0x0FFF_FFFF, flag.bits);
        union |= flag.bits;
    }
    assert_eq!(union, 0x0FFF_FFFF);
}

#[test]
fn name_to_flag_to_name_round_trips() {
    let forward = SteamDeckGamepadButton::display_name_to_value();
    let backward = SteamDeckGamepadButton::value_to_display_name();
    for (name, flag) in &forward {
        let back = backward
            .iter()
            .find(|(f, _)| f == flag)
            .map(|(_, n)| n.clone())
            .expect("flag present in reverse table");
        assert_eq!(&back, name);
    }
}

#[test]
fn flag_to_name_to_flag_round_trips() {
    let forward = SteamDeckGamepadButton::display_name_to_value();
    let backward = SteamDeckGamepadButton::value_to_display_name();
    for (flag, name) in &backward {
        let back = forward
            .iter()
            .find(|(n, _)| n == name)
            .map(|(_, f)| *f)
            .expect("name present in forward table");
        assert_eq!(back, *flag);
    }
}

#[test]
fn known_names_map_to_known_flags() {
    let table = SteamDeckGamepadButton::display_name_to_value();
    let lookup = |wanted: &str| -> u32 {
        table
            .iter()
            .find(|(n, _)| n == wanted)
            .map(|(_, f)| f.bits)
            .expect("name defined")
    };
    assert_eq!(lookup("R1"), SteamDeckGamepadButton::R1);
    assert_eq!(lookup("Steam"), SteamDeckGamepadButton::STEAM);
    assert_eq!(lookup("QAM"), SteamDeckGamepadButton::QAM);
    assert_eq!(lookup("DPad-Left"), SteamDeckGamepadButton::DPAD_LEFT);
    assert_eq!(lookup("LPad (Touch)"), SteamDeckGamepadButton::LPAD_TOUCH);
}
