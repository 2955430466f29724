use steamdeck_controller_hidraw::discovery::{
    candidate_matches, decimal_bytes, discover, ends_with_bytes, interface_suffix, CandidateInfo,
    DeviceIdentifier, DiscoveryError, BUS_USB,
};

fn deck_id() -> DeviceIdentifier {
    DeviceIdentifier { vendor_id: 0x28de, product_id: 0x1205, interface: 2 }
}

fn matching_candidate() -> CandidateInfo {
    CandidateInfo {
        bus_type: BUS_USB,
        vendor_id: 0x28de,
        product_id: 0x1205,
        physical_address: b"usb-0000:04:00.3-3/input2".to_vec(),
    }
}

#[test]
fn decimal_bytes_renders_like_format() {
    for n in [0i16, 1, 2, 9, 10, 123, 6502, i16::MAX, -1, -45, -32767, i16::MIN] {
        assert_eq!(decimal_bytes(n), format!("{n}").into_bytes(), "value {n}");
    }
}

#[test]
fn interface_suffix_is_input_then_decimal() {
    assert_eq!(interface_suffix(2), b"input2".to_vec());
    assert_eq!(interface_suffix(0), b"input0".to_vec());
    assert_eq!(interface_suffix(13), b"input13".to_vec());
}

#[test]
fn ends_with_bytes_checks_suffixes() {
    let hay = b"usb-1/input2".to_vec();
    assert!(ends_with_bytes(&hay, &b"input2".to_vec()));
    assert!(ends_with_bytes(&hay, &Vec::new()));
    assert!(ends_with_bytes(&hay, &hay.clone()));
    assert!(!ends_with_bytes(&hay, &b"input1".to_vec()));
    assert!(!ends_with_bytes(&b"x".to_vec(), &b"input2".to_vec()));
}

#[test]
fn candidate_matches_requires_all_four_predicates() {
    let id = deck_id();
    assert!(candidate_matches(&matching_candidate(), &id));

    let mut wrong_bus = matching_candidate();
    wrong_bus.bus_type = 5;
    assert!(!candidate_matches(&wrong_bus, &id));

    let mut wrong_vendor = matching_candidate();
    wrong_vendor.vendor_id = 0x1234;
    assert!(!candidate_matches(&wrong_vendor, &id));

    let mut wrong_product = matching_candidate();
    wrong_product.product_id = 0x1234;
    assert!(!candidate_matches(&wrong_product, &id));

    let mut wrong_interface = matching_candidate();
    wrong_interface.physical_address = b"usb-0000:04:00.3-3/input1".to_vec();
    assert!(!candidate_matches(&wrong_interface, &id));

    // `input12` must not pass for interface 2: the decimal is matched whole.
    let mut longer_index = matching_candidate();
    longer_index.physical_address = b"usb-0000:04:00.3-3/input12".to_vec();
    assert!(!candidate_matches(&longer_index, &id));
}

#[test]
fn discover_returns_not_found_when_nothing_matches() {
    let id = deck_id();
    let mut miss = matching_candidate();
    miss.vendor_id = 0x0001;
    let candidates = vec![miss.clone(), miss];
    assert_eq!(discover(&candidates, &id), Err(DiscoveryError::NotFound));
    assert_eq!(discover(&Vec::new(), &id), Err(DiscoveryError::NotFound));
}

#[test]
fn discover_picks_the_same_device_behind_any_nonmatching_prefix() {
    let id = deck_id();
    let hit = matching_candidate();
    let mut miss = matching_candidate();
    miss.bus_type = 5;

    let bare = vec![hit.clone()];
    let one = vec![miss.clone(), hit.clone()];
    let many = vec![miss.clone(), miss.clone(), miss.clone(), hit.clone()];

    assert_eq!(discover(&bare, &id), Ok(0));
    assert_eq!(discover(&one, &id), Ok(1));
    assert_eq!(discover(&many, &id), Ok(3));
    // The selected candidate is the same one each time.
    assert_eq!(one[1].physical_address, bare[0].physical_address);
    assert_eq!(many[3].physical_address, bare[0].physical_address);
}

#[test]
fn discover_takes_the_first_of_several_matches() {
    let id = deck_id();
    let first = matching_candidate();
    let mut second = matching_candidate();
    second.physical_address = b"usb-0000:04:00.3-4/input2".to_vec();
    let candidates = vec![first, second];
    assert_eq!(discover(&candidates, &id), Ok(0));
}

#[test]
fn not_found_carries_a_descriptive_message() {
    let err = DiscoveryError::NotFound;
    assert_eq!(err.message(), "failed to find hidraw file matching device");
}
