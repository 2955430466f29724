use std::sync::mpsc;

use steamdeck_controller_hidraw::event_loop::{
    after_send, forwardable_output, EventLoopState, LoopControl, PollDecision,
};
use steamdeck_controller_hidraw::{
    SteamDeckDeviceInterface, SteamDeckGamepadButton, SteamDeckInterface,
};

fn null_facade() -> SteamDeckInterface {
    let device = hidraw::Device::open("/dev/null").expect("open a harmless device node");
    SteamDeckInterface::from_device(device)
}

#[test]
fn only_the_registered_token_leads_to_a_read() {
    let state = EventLoopState::with_token(7);
    assert_eq!(state.on_readiness(7), PollDecision::ReadReport);
    assert_eq!(state.on_readiness(8), PollDecision::Ignore);
    assert_eq!(state.on_readiness(0), PollDecision::Ignore);
}

#[test]
fn random_tokens_still_match_themselves() {
    let state = EventLoopState::new();
    assert_eq!(state.on_readiness(state.token), PollDecision::ReadReport);
}

#[test]
fn empty_decodes_are_not_forwarded() {
    let facade = null_facade();
    let quiet = [0u8; 64];
    assert_eq!(forwardable_output(&facade, quiet), None);

    let mut other_kind = [0u8; 64];
    other_kind[2] = 4;
    other_kind[9] = 0x20;
    assert_eq!(forwardable_output(&facade, other_kind), None);
}

#[test]
fn one_readiness_one_read_one_forwarded_value_then_graceful_exit() {
    let facade = null_facade();
    let state = EventLoopState::with_token(42);
    let (tx, rx) = mpsc::channel::<SteamDeckGamepadButton>();

    // One readiness notification with the registered token: read one report.
    assert_eq!(state.on_readiness(42), PollDecision::ReadReport);

    // The read succeeded and decodes to a non-empty set: forward it.
    let mut report = [0u8; 64];
    report[2] = 9;
    report[9] = 0x20;
    let out = forwardable_output(&facade, report).expect("non-empty decode");
    assert_eq!(out.bits, SteamDeckGamepadButton::STEAM);

    let delivered = tx.send(out).is_ok();
    assert_eq!(after_send(delivered), LoopControl::Continue);

    // Exactly one value reached the consumer.
    assert_eq!(rx.try_recv(), Ok(out));
    assert!(rx.try_recv().is_err());

    // The consumer goes away: the next send fails and the loop exits.
    drop(rx);
    let delivered = tx.send(out).is_ok();
    assert!(!delivered);
    assert_eq!(after_send(delivered), LoopControl::Exit);
}

#[test]
fn facade_parse_agrees_with_the_version_decoder() {
    let facade = null_facade();
    let mut report = [0u8; 64];
    report[2] = 9;
    report[8] = 0x04;
    let parsed = facade.parse(report);
    let decoded = steamdeck_controller_hidraw::v1::decode(&report);
    assert_eq!(parsed, decoded);
    assert_eq!(parsed.bits, SteamDeckGamepadButton::R1);
}

#[test]
fn facade_id_is_the_deck_controller_triple() {
    let id = SteamDeckInterface::get_id();
    assert_eq!(id.vendor_id, 0x28de);
    assert_eq!(id.product_id, 0x1205);
    assert_eq!(id.interface, 2);
}
