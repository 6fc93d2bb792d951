use serial2::rs485_ioctl;
use serial2::Rs485Config;
use serial2::SerialRs485;
use serial2::TransceiverMode;

#[test]
fn rs485_flag_composition_round_trips() {
    let mut config = Rs485Config::new();
    config.set_full_duplex(true);
    config.set_bus_termination(true);
    config.set_invert_rts(false);
    config.set_delay_before_send(10);
    config.set_delay_after_send(20);

    let encoded = SerialRs485::for_config(&config);
    assert_eq!(encoded.delay_rts_before_send_ms, 10);
    assert_eq!(encoded.delay_rts_after_send_ms, 20);

    match encoded.to_mode() {
        TransceiverMode::Rs485(decoded) => {
            assert!(decoded.get_full_duplex());
            assert!(decoded.get_bus_termination());
            assert!(!decoded.get_invert_rts());
            assert_eq!(decoded.get_delay_before_send(), 10);
            assert_eq!(decoded.get_delay_after_send(), 20);
            assert_eq!(decoded, config);
        },
        other => panic!("expected an RS-485 mode, got {:?}", other),
    }
}

#[test]
fn rs485_inverted_rts_round_trips() {
    let mut config = Rs485Config::new();
    config.set_invert_rts(true);
    let encoded = SerialRs485::for_config(&config);
    assert!(encoded.flags & rs485_ioctl::SER_RS485_RTS_AFTER_SEND != 0);
    assert!(encoded.flags & rs485_ioctl::SER_RS485_RTS_ON_SEND == 0);
    assert_eq!(encoded.to_mode(), TransceiverMode::Rs485(config));
}

#[test]
fn transceiver_mode_round_trips() {
    let encoded = SerialRs485::for_mode(&TransceiverMode::Default);
    assert_eq!(encoded.flags, 0);
    assert_eq!(encoded.to_mode(), TransceiverMode::Default);

    let encoded = SerialRs485::for_mode(&TransceiverMode::Rs422);
    assert!(encoded.flags & rs485_ioctl::SER_RS485_ENABLED != 0);
    assert!(encoded.flags & rs485_ioctl::SER_RS485_MODE_RS422 != 0);
    assert_eq!(encoded.to_mode(), TransceiverMode::Rs422);

    let config = Rs485Config::new();
    let encoded = SerialRs485::for_mode(&TransceiverMode::Rs485(config));
    assert_eq!(encoded.to_mode(), TransceiverMode::Rs485(config));
}

#[test]
fn rs485_delays_truncate_to_field_width() {
    let mut config = Rs485Config::new();
    config.set_delay_before_send(u64::from(u32::MAX) + 1);
    config.set_delay_after_send(u64::from(u32::MAX));
    let encoded = SerialRs485::for_config(&config);
    assert_eq!(encoded.delay_rts_before_send_ms, u32::MAX);
    assert_eq!(encoded.delay_rts_after_send_ms, u32::MAX);
}

#[test]
fn serial_rs485_builders_compose_flags() {
    let mut block = SerialRs485::new_with_flags(0);
    block.set_enabled(true);
    block.set_rts_on_send(true);
    block.set_rx_during_tx(true);
    block.set_terminate_bus(true);
    assert_eq!(
        block.flags,
        rs485_ioctl::SER_RS485_ENABLED
            | rs485_ioctl::SER_RS485_RTS_ON_SEND
            | rs485_ioctl::SER_RS485_RX_DURING_TX
            | rs485_ioctl::SER_RS485_TERMINATE_BUS
    );

    block.set_rts_on_send(false);
    block.set_rts_after_send(true);
    block.set_terminate_bus(false);
    assert_eq!(
        block.flags,
        rs485_ioctl::SER_RS485_ENABLED
            | rs485_ioctl::SER_RS485_RTS_AFTER_SEND
            | rs485_ioctl::SER_RS485_RX_DURING_TX
    );

    block.delay_rts_before_send_ms(7);
    block.delay_rts_after_send_ms(9);
    assert_eq!(block.delay_rts_before_send_ms, 7);
    assert_eq!(block.delay_rts_after_send_ms, 9);

    let rs422 = SerialRs485::new_rs422();
    let mut by_hand = SerialRs485::new_with_flags(0);
    by_hand.set_enabled(true);
    by_hand.set_mode_rs422(true);
    by_hand.set_rx_during_tx(true);
    assert_eq!(rs422, by_hand);
}

#[test]
fn rs485_config_accessors() {
    let config = Rs485Config::default();
    assert!(!config.get_full_duplex());
    assert!(!config.get_bus_termination());
    assert!(!config.get_invert_rts());
    assert_eq!(config.get_delay_before_send(), 0);
    assert_eq!(config.get_delay_after_send(), 0);

    let mode = TransceiverMode::from(config);
    assert_eq!(mode, TransceiverMode::Rs485(config));
}
