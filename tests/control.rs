use musb::control::{ControlError, ControlState, ControlStateEnum, Ep0Interrupt, Ep0WriteAction};

fn in_setup() -> ControlState {
    let mut s = ControlState::new();
    s.set_state(ControlStateEnum::Setup);
    s
}

#[test]
fn get_descriptor_single_packet() {
    let mut s = ControlState::new();
    let irq = s.on_ep0_interrupt(true, false, false, 8);
    assert!(irq.setup && irq.service_setup_end);
    assert_eq!(s.get_state(), ControlStateEnum::Setup);
    let setup = [0x80, 0x06, 0x00, 0x01, 0x00, 0x00, 0x12, 0x00];
    assert_eq!(s.read_setup(&setup), Ok(false));
    assert_eq!(s.get_state(), ControlStateEnum::DataIn);
    assert_eq!(s.get_tx_len(), 18);
    let w = s.write(18, 64).unwrap();
    assert_eq!(w, Ep0WriteAction { tx_pkt_rdy: true, data_end: true, in_complete: false });
    assert_eq!(s.get_state(), ControlStateEnum::Idle);
    assert_eq!(s.get_tx_len(), 0);
}

#[test]
fn set_address_has_no_data_stage() {
    let mut s = in_setup();
    let setup = [0x00, 0x05, 0x07, 0x00, 0x00, 0x00, 0x00, 0x00];
    assert_eq!(s.read_setup(&setup), Ok(true));
    assert_eq!(s.get_state(), ControlStateEnum::NodataPhase);
    let w = s.write(0, 64).unwrap();
    assert_eq!(w, Ep0WriteAction { tx_pkt_rdy: false, data_end: false, in_complete: true });
    assert_eq!(s.get_state(), ControlStateEnum::Idle);
}

#[test]
fn stall_returns_to_idle_from_every_phase() {
    for st in [
        ControlStateEnum::Idle,
        ControlStateEnum::Setup,
        ControlStateEnum::DataIn,
        ControlStateEnum::DataOut,
        ControlStateEnum::Accepted,
        ControlStateEnum::NodataPhase,
    ] {
        let mut s = ControlState::new();
        s.set_state(st);
        s.set_tx_len(100);
        s.on_stall(true);
        assert_eq!(s, ControlState { state: ControlStateEnum::Idle, tx_len: 0 });
    }
    let mut s = ControlState::new();
    s.set_state(ControlStateEnum::DataIn);
    s.set_tx_len(5);
    s.on_stall(false);
    assert_eq!(s, ControlState { state: ControlStateEnum::DataIn, tx_len: 5 });
}

#[test]
fn multi_packet_in_ends_on_exact_length() {
    let mut s = in_setup();
    // wLength = 128, packets of 64.
    assert_eq!(s.read_setup(&[0x80, 0x06, 0, 2, 0, 0, 0x80, 0x00]), Ok(false));
    assert_eq!(s.get_tx_len(), 128);
    let w = s.write(64, 64).unwrap();
    assert!(!w.data_end);
    assert_eq!(s.get_state(), ControlStateEnum::DataIn);
    assert_eq!(s.get_tx_len(), 64);
    let w = s.write(64, 64).unwrap();
    assert!(w.data_end);
    assert_eq!(s.get_state(), ControlStateEnum::Idle);
}

#[test]
fn short_in_packet_ends_transfer() {
    let mut s = in_setup();
    // Host asks for 255 bytes, device has 20.
    assert_eq!(s.read_setup(&[0x80, 0x06, 0, 2, 0, 0, 0xff, 0x00]), Ok(false));
    let w = s.write(20, 64).unwrap();
    assert!(w.data_end && w.tx_pkt_rdy);
    assert_eq!(s, ControlState { state: ControlStateEnum::Idle, tx_len: 0 });
}

#[test]
fn out_data_stage_ends_on_short_packet() {
    let mut s = in_setup();
    // Host-to-device, wLength = 100.
    assert_eq!(s.read_setup(&[0x21, 0x09, 0, 0, 0, 0, 100, 0]), Ok(false));
    assert_eq!(s.get_state(), ControlStateEnum::DataOut);
    assert_eq!(s.get_tx_len(), 100);
    assert_eq!(s.read(64, 64), Ok(false));
    assert_eq!(s.get_state(), ControlStateEnum::DataOut);
    assert_eq!(s.get_tx_len(), 36);
    assert_eq!(s.read(36, 64), Ok(true));
    assert_eq!(s.get_state(), ControlStateEnum::Idle);
}

#[test]
fn length_field_is_little_endian() {
    let mut s = in_setup();
    assert_eq!(s.read_setup(&[0x80, 0x06, 0, 2, 0, 0, 0x34, 0x12]), Ok(false));
    assert_eq!(s.get_tx_len(), 0x1234);
}

#[test]
fn calls_out_of_phase_are_errors() {
    let mut s = ControlState::new();
    s.set_state(ControlStateEnum::DataOut);
    assert_eq!(
        s.write(4, 64),
        Err(ControlError::UnexpectedWrite { state: ControlStateEnum::DataOut, len: 4 })
    );
    assert_eq!(s, ControlState::new());

    let mut s = ControlState::new();
    assert_eq!(
        s.write(3, 64),
        Err(ControlError::UnexpectedWrite { state: ControlStateEnum::Idle, len: 3 })
    );

    let mut s = ControlState::new();
    s.set_state(ControlStateEnum::NodataPhase);
    assert_eq!(
        s.write(1, 64),
        Err(ControlError::UnexpectedWrite { state: ControlStateEnum::NodataPhase, len: 1 })
    );
    assert_eq!(s.get_state(), ControlStateEnum::Idle);

    let mut s = ControlState::new();
    assert_eq!(
        s.read(8, 64),
        Err(ControlError::UnexpectedRead { state: ControlStateEnum::Idle, count: 8 })
    );
    let mut s = ControlState::new();
    assert_eq!(
        s.read_setup(&[0; 8]),
        Err(ControlError::UnexpectedRead { state: ControlStateEnum::Idle, count: 8 })
    );
}

#[test]
fn zero_length_write_in_idle_is_accepted() {
    let mut s = ControlState::new();
    let w = s.write(0, 64).unwrap();
    assert_eq!(w, Ep0WriteAction { tx_pkt_rdy: false, data_end: false, in_complete: false });
    assert_eq!(s.get_state(), ControlStateEnum::Accepted);
}

#[test]
fn malformed_setup_is_ignored() {
    let mut s = ControlState::new();
    let irq = s.on_ep0_interrupt(true, false, false, 7);
    assert_eq!(
        irq,
        Ep0Interrupt {
            setup: false,
            service_setup_end: false,
            tx_complete: false,
            rx_ready: false,
            malformed_setup: true
        }
    );
    assert_eq!(s.get_state(), ControlStateEnum::Idle);
}

#[test]
fn setup_end_during_data_in_restarts() {
    let mut s = ControlState::new();
    s.set_state(ControlStateEnum::DataIn);
    s.set_tx_len(40);
    let irq = s.on_ep0_interrupt(true, false, true, 8);
    assert!(irq.setup && irq.service_setup_end);
    assert_eq!(s, ControlState { state: ControlStateEnum::Setup, tx_len: 0 });

    let mut s = ControlState::new();
    s.set_state(ControlStateEnum::DataIn);
    s.set_tx_len(40);
    let irq = s.on_ep0_interrupt(false, false, false, 0);
    assert!(irq.tx_complete);
    assert_eq!(s.get_state(), ControlStateEnum::DataIn);
}

#[test]
fn decrease_tx_len_saturates() {
    let mut s = ControlState::new();
    s.set_tx_len(10);
    s.decrease_tx_len(4);
    assert_eq!(s.get_tx_len(), 6);
    s.decrease_tx_len(7);
    assert_eq!(s.get_tx_len(), 0);
    s.set_tx_len(3);
    s.reset_tx_len();
    assert_eq!(s.get_tx_len(), 0);
}

#[test]
fn out_data_stage_ends_on_exact_length() {
    let mut s = in_setup();
    // Host-to-device, wLength = 128, packets of 64: no short packet comes.
    assert_eq!(s.read_setup(&[0x21, 0x09, 0, 0, 0, 0, 0x80, 0]), Ok(false));
    assert_eq!(s.read(64, 64), Ok(false));
    assert_eq!(s.get_state(), ControlStateEnum::DataOut);
    assert_eq!(s.read(64, 64), Ok(true));
    assert_eq!(s, ControlState { state: ControlStateEnum::Idle, tx_len: 0 });

    let mut s = in_setup();
    assert_eq!(s.read_setup(&[0x21, 0x09, 0, 0, 0, 0, 64, 0]), Ok(false));
    assert_eq!(s.read(64, 64), Ok(true));
    assert_eq!(s.get_state(), ControlStateEnum::Idle);
}

#[test]
fn read_ep0_takes_setup_then_data() {
    let mut s = in_setup();
    assert_eq!(s.read_ep0(&[0x21, 0x09, 0, 0, 0, 0, 10, 0], 64), Ok(false));
    assert_eq!(s.get_state(), ControlStateEnum::DataOut);
    assert_eq!(s.read_ep0(&[0u8; 10], 64), Ok(true));
    assert_eq!(s.get_state(), ControlStateEnum::Idle);

    let mut s = in_setup();
    assert_eq!(s.read_ep0(&[0u8; 7], 64), Err(ControlError::MalformedSetup { count: 7 }));
    assert_eq!(s, ControlState::new());
}

#[test]
fn receive_setup_starts_a_transfer_from_any_phase() {
    let mut s = ControlState::new();
    s.set_state(ControlStateEnum::NodataPhase);
    assert_eq!(s.receive_setup(&[0x80, 0x06, 0, 1, 0, 0, 0x12, 0]), Ok(false));
    assert_eq!(s, ControlState { state: ControlStateEnum::DataIn, tx_len: 18 });
    assert_eq!(s.receive_setup(&[0x00, 0x05, 7, 0, 0, 0, 0, 0]), Ok(true));
    assert_eq!(s.get_state(), ControlStateEnum::NodataPhase);
    let before = s;
    assert_eq!(s.receive_setup(&[1, 2, 3]), Err(ControlError::MalformedSetup { count: 3 }));
    assert_eq!(s, before);
}

#[test]
fn in_transfer_sets_data_end_once() {
    let mut s = in_setup();
    // wLength = 150, packets of 64: 64, 64, 22.
    assert_eq!(s.read_setup(&[0x80, 0x06, 0, 2, 0, 0, 150, 0]), Ok(false));
    let ends: Vec<bool> = [64usize, 64, 22].iter().map(|&n| s.write(n, 64).unwrap().data_end).collect();
    assert_eq!(ends, vec![false, false, true]);
    assert_eq!(s.get_state(), ControlStateEnum::Idle);
}
