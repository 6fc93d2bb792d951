use serial2::dcb::DCB;
use serial2::termios;
use serial2::termios::RawTermios;
use serial2::CharSize;
use serial2::FlowControl;
use serial2::Parity;
use serial2::Settings;
use serial2::SettingsError;
use serial2::StopBits;

fn base_termios() -> RawTermios {
    RawTermios {
        iflag: 0x500,
        oflag: 0x5,
        cflag: 0xCBD,
        lflag: 0x8A3B,
        line: 0,
        cc_vmin: 0,
        cc_vtime: 10,
        ispeed: 9600,
        ospeed: 9600,
    }
}

fn base_dcb() -> DCB {
    DCB {
        baud_rate: 9600,
        byte_size: 7,
        stop_bits: 2,
        parity: 1,
        f_binary: true,
        f_parity: true,
        f_outx_cts_flow: true,
        f_outx_dsr_flow: false,
        f_dtr_control: 0,
        f_dsr_sensitivity: false,
        f_outx: true,
        f_inx: true,
        f_error_char: false,
        f_null: false,
        f_rts_control: 3,
    }
}

#[test]
fn termios_field_round_trips() {
    let sizes = [CharSize::Bits5, CharSize::Bits6, CharSize::Bits7, CharSize::Bits8];
    for &size in &sizes {
        let mut t = base_termios();
        t.set_char_size(size);
        assert_eq!(t.get_char_size(), Ok(size));
    }

    let stops = [StopBits::One, StopBits::Two];
    for &stop in &stops {
        let mut t = base_termios();
        t.set_stop_bits(stop);
        assert_eq!(t.get_stop_bits(), Ok(stop));
    }

    let parities = [Parity::Off, Parity::Odd, Parity::Even];
    for &parity in &parities {
        let mut t = base_termios();
        t.set_parity(parity);
        assert_eq!(t.get_parity(), Ok(parity));
    }

    let flows = [FlowControl::Off, FlowControl::XonXoff, FlowControl::RtsCts];
    for &flow in &flows {
        let mut t = base_termios();
        t.set_flow_control(flow);
        assert_eq!(t.get_flow_control(), Ok(flow));
    }
}

#[test]
fn dcb_field_round_trips() {
    let sizes = [CharSize::Bits5, CharSize::Bits6, CharSize::Bits7, CharSize::Bits8];
    for &size in &sizes {
        let mut d = base_dcb();
        d.set_char_size(size);
        assert_eq!(d.get_char_size(), Ok(size));
    }

    let stops = [StopBits::One, StopBits::Two];
    for &stop in &stops {
        let mut d = base_dcb();
        d.set_stop_bits(stop);
        assert_eq!(d.get_stop_bits(), Ok(stop));
    }

    let parities = [Parity::Off, Parity::Odd, Parity::Even];
    for &parity in &parities {
        let mut d = base_dcb();
        d.set_parity(parity);
        assert_eq!(d.get_parity(), Ok(parity));
    }

    let flows = [FlowControl::Off, FlowControl::XonXoff, FlowControl::RtsCts];
    for &flow in &flows {
        let mut d = base_dcb();
        d.set_flow_control(flow);
        assert_eq!(d.get_flow_control(), Ok(flow));
    }
}

#[test]
fn flow_control_decode_is_strict() {
    // XON/XOFF enabled for one direction only matches no portable value.
    let mut t = base_termios();
    t.set_flow_control(FlowControl::Off);
    t.iflag |= termios::IXON;
    assert_eq!(t.get_flow_control(), Err(SettingsError::UnknownFlowControlConfiguration));

    let mut d = base_dcb();
    d.set_flow_control(FlowControl::Off);
    d.f_inx = true;
    assert_eq!(d.get_flow_control(), Err(SettingsError::UnknownFlowControlConfiguration));
}

#[test]
fn set_raw_is_idempotent() {
    let mut once = base_termios();
    once.set_raw();
    let mut twice = once;
    twice.set_raw();
    assert_eq!(once, twice);

    let mut d_once = base_dcb();
    d_once.set_raw();
    let mut d_twice = d_once;
    d_twice.set_raw();
    assert_eq!(d_once, d_twice);
}

#[test]
fn set_raw_establishes_eight_n_one() {
    let mut t = base_termios();
    t.set_raw();
    assert_eq!(t.get_char_size(), Ok(CharSize::Bits8));
    assert_eq!(t.get_stop_bits(), Ok(StopBits::One));
    assert_eq!(t.get_parity(), Ok(Parity::Off));
    assert_eq!(t.get_flow_control(), Ok(FlowControl::Off));
    assert_eq!(t.cc_vmin, 1);
    assert_eq!(t.cc_vtime, 0);

    let mut d = base_dcb();
    d.set_raw();
    assert_eq!(d.get_char_size(), Ok(CharSize::Bits8));
    assert_eq!(d.get_stop_bits(), Ok(StopBits::One));
    assert_eq!(d.get_parity(), Ok(Parity::Off));
    assert_eq!(d.get_flow_control(), Ok(FlowControl::Off));
    assert!(d.f_binary);
    assert!(!d.f_error_char);
    assert!(!d.f_null);
}

#[test]
fn numeric_baud_rate_round_trips() {
    let mut t = base_termios();
    assert!(t.set_baud_rate(115200).is_ok());
    assert_eq!(t.get_baud_rate(), Ok(115200));

    // An arbitrary rate is carried exactly by the numeric speed fields.
    assert!(t.set_baud_rate(123456).is_ok());
    assert_eq!(t.get_baud_rate(), Ok(123456));

    let mut d = base_dcb();
    assert!(d.set_baud_rate(123456).is_ok());
    assert_eq!(d.get_baud_rate(), Ok(123456));
}

#[test]
fn discrete_baud_rate_table() {
    let mut t = base_termios();
    assert_eq!(t.set_discrete_baud_rate(9600), Ok(()));
    assert_eq!(t.get_baud_rate(), Ok(9600));

    assert_eq!(t.set_discrete_baud_rate(4000000), Ok(()));
    assert_eq!(t.get_baud_rate(), Ok(4000000));

    // A rate the table does not list is unsupported and changes nothing.
    let before = t;
    assert_eq!(t.set_discrete_baud_rate(12345), Err(SettingsError::UnsupportedBaudRate));
    assert_eq!(t, before);

    // The hang-up pseudo-rate is listed nowhere, so it cannot be decoded.
    let mut t = base_termios();
    t.cflag &= !(termios::CBAUD | (termios::CBAUD << termios::IBSHIFT));
    assert_eq!(t.get_baud_rate(), Err(SettingsError::UnrecognizedBaudRate));
}

#[test]
fn matches_requested_tolerates_rounded_baud_rate() {
    let mut requested = base_termios();
    requested.set_raw();
    assert!(requested.set_baud_rate(115200).is_ok());

    // 115200 / 40 == 2880 is the largest accepted deviation.
    let mut applied = requested;
    applied.ispeed = 115200 + 2880;
    applied.ospeed = 115200 + 2880;
    assert!(applied.matches_requested(&requested));

    applied.ispeed = 115200 + 2881;
    applied.ospeed = 115200 + 2881;
    assert!(!applied.matches_requested(&requested));

    applied.ispeed = 115200 - 2880;
    applied.ospeed = 115200 - 2880;
    assert!(applied.matches_requested(&requested));

    // Any other changed field is an exact mismatch.
    let mut applied = requested;
    applied.iflag |= termios::IXON;
    assert!(!applied.matches_requested(&requested));

    // Two undecodable baud encodings count as matching.
    let mut requested = base_termios();
    requested.cflag &= !(termios::CBAUD | (termios::CBAUD << termios::IBSHIFT));
    let applied = requested;
    assert!(applied.matches_requested(&requested));
}

#[test]
fn settings_facade_projects_all_fields() {
    let mut settings = Settings::from_termios(base_termios());
    settings.set_raw();
    assert!(settings.set_baud_rate(19200).is_ok());
    settings.set_char_size(CharSize::Bits7);
    settings.set_stop_bits(StopBits::Two);
    settings.set_parity(Parity::Even);
    settings.set_flow_control(FlowControl::RtsCts);

    assert_eq!(settings.get_baud_rate(), Ok(19200));
    assert_eq!(settings.get_char_size(), Ok(CharSize::Bits7));
    assert_eq!(settings.get_stop_bits(), Ok(StopBits::Two));
    assert_eq!(settings.get_parity(), Ok(Parity::Even));
    assert_eq!(settings.get_flow_control(), Ok(FlowControl::RtsCts));
}

#[test]
fn confirm_applied_reports_rejection() {
    let mut requested = Settings::from_termios(base_termios());
    requested.set_raw();
    assert!(requested.set_baud_rate(9600).is_ok());

    let applied = requested;
    assert_eq!(requested.confirm_applied(&applied), Ok(()));

    let mut applied = requested;
    applied.set_parity(Parity::Odd);
    assert_eq!(
        requested.confirm_applied(&applied),
        Err(SettingsError::ConfigurationRejected)
    );
}

#[test]
fn apply_baud_rate_configuration() {
    let mut settings = Settings::from_termios(base_termios());
    assert_eq!(serial2::IntoSettings::apply_to_settings(57600u32, &mut settings), Ok(()));
    assert_eq!(settings.get_baud_rate(), Ok(57600));
    assert_eq!(settings.get_char_size(), Ok(CharSize::Bits8));
    assert_eq!(settings.get_stop_bits(), Ok(StopBits::One));
    assert_eq!(settings.get_parity(), Ok(Parity::Off));
    assert_eq!(settings.get_flow_control(), Ok(FlowControl::Off));

    let mut settings = Settings::from_termios(base_termios());
    let before = *settings.as_termios();
    assert_eq!(
        serial2::IntoSettings::apply_to_settings(serial2::KeepSettings, &mut settings),
        Ok(())
    );
    assert_eq!(*settings.as_termios(), before);
}

#[test]
fn dcb_decode_rejects_unknown_fields() {
    let mut d = base_dcb();
    d.byte_size = 9;
    assert_eq!(d.get_char_size(), Err(SettingsError::UnrecognizedCharSize));

    let mut d = base_dcb();
    d.stop_bits = 1;
    assert_eq!(d.get_stop_bits(), Err(SettingsError::UnsupportedStopBits));

    let mut d = base_dcb();
    d.parity = 1;
    d.f_parity = false;
    assert_eq!(d.get_parity(), Err(SettingsError::UnsupportedParity));

    let mut d = base_dcb();
    d.parity = 4;
    d.f_parity = true;
    assert_eq!(d.get_parity(), Err(SettingsError::UnsupportedParity));
}

#[test]
fn settings_error_messages() {
    assert_eq!(SettingsError::UnsupportedBaudRate.message(), "unsupported baud rate");
    assert_eq!(SettingsError::UnrecognizedBaudRate.message(), "unrecognized baud rate");
    assert_eq!(SettingsError::UnrecognizedCharSize.message(), "unrecognized char size");
    assert_eq!(SettingsError::UnsupportedStopBits.message(), "unsupported stop bits");
    assert_eq!(SettingsError::UnsupportedParity.message(), "unsupported parity configuration");
    assert_eq!(
        SettingsError::UnknownFlowControlConfiguration.message(),
        "unknown flow control configuration"
    );
    assert_eq!(
        SettingsError::ConfigurationRejected.message(),
        "failed to apply some or all settings"
    );
}
