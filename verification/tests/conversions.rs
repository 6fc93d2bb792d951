#[test]
fn test_convert_char_size() {
    assert!(serial2::CharSize::Bits5.as_u8() == 5);
    assert!(serial2::CharSize::Bits6.as_u8() == 6);
    assert!(serial2::CharSize::Bits7.as_u8() == 7);
    assert!(serial2::CharSize::Bits8.as_u8() == 8);

    assert!(matches!(serial2::CharSize::try_from(5), Ok(serial2::CharSize::Bits5)));
    assert!(matches!(serial2::CharSize::try_from(6), Ok(serial2::CharSize::Bits6)));
    assert!(matches!(serial2::CharSize::try_from(7), Ok(serial2::CharSize::Bits7)));
    assert!(matches!(serial2::CharSize::try_from(8), Ok(serial2::CharSize::Bits8)));

    let e = serial2::CharSize::try_from(-8i8).unwrap_err();
    assert!(e.message() == "invalid value: -8, expected the number 5, 6, 7 or 8");

    let e = serial2::CharSize::try_from(-1i16).unwrap_err();
    assert!(e.message() == "invalid value: -1, expected the number 5, 6, 7 or 8");

    let e = serial2::CharSize::try_from(0u8).unwrap_err();
    assert!(e.message() == "invalid value: 0, expected the number 5, 6, 7 or 8");

    let e = serial2::CharSize::try_from(4u16).unwrap_err();
    assert!(e.message() == "invalid value: 4, expected the number 5, 6, 7 or 8");

    let e = serial2::CharSize::try_from(9usize).unwrap_err();
    assert!(e.message() == "invalid value: 9, expected the number 5, 6, 7 or 8");
}

#[test]
fn test_convert_stop_bits() {
    assert!(serial2::StopBits::One.as_u8() == 1);
    assert!(serial2::StopBits::Two.as_u8() == 2);

    assert!(matches!(serial2::StopBits::try_from(1), Ok(serial2::StopBits::One)));
    assert!(matches!(serial2::StopBits::try_from(2), Ok(serial2::StopBits::Two)));

    let e = serial2::StopBits::try_from(0u8).unwrap_err();
    assert!(e.message() == "invalid value: 0, expected the number 1 or 2");

    let e = serial2::StopBits::try_from(3u16).unwrap_err();
    assert!(e.message() == "invalid value: 3, expected the number 1 or 2");

    let e = serial2::StopBits::try_from(-8isize).unwrap_err();
    assert!(e.message() == "invalid value: -8, expected the number 1 or 2");
}

#[test]
fn test_serde_parity() {
    assert!(serial2::Parity::Off.as_str() == "none");
    assert!(serial2::Parity::Odd.as_str() == "odd");
    assert!(serial2::Parity::Even.as_str() == "even");

    assert!(matches!(serial2::Parity::from_str("none"), Ok(serial2::Parity::Off)));
    assert!(matches!(serial2::Parity::from_str("odd"), Ok(serial2::Parity::Odd)));
    assert!(matches!(serial2::Parity::from_str("even"), Ok(serial2::Parity::Even)));

    let e = serial2::Parity::from_str("even-then-odd").unwrap_err();
    assert!(
        e.message() == "invalid value: \"even-then-odd\", expected the string \"none\", \"odd\" or \"even\""
    );
}

#[test]
fn test_serde_flow_control() {
    assert!(serial2::FlowControl::Off.as_str() == "none");
    assert!(serial2::FlowControl::XonXoff.as_str() == "xon/xoff");
    assert!(serial2::FlowControl::RtsCts.as_str() == "rts/cts");

    assert!(matches!(serial2::FlowControl::from_str("none"), Ok(serial2::FlowControl::Off)));
    assert!(matches!(serial2::FlowControl::from_str("xon/xoff"), Ok(serial2::FlowControl::XonXoff)));
    assert!(matches!(serial2::FlowControl::from_str("rts/cts"), Ok(serial2::FlowControl::RtsCts)));

    let e = serial2::FlowControl::from_str("plug-in/plug-out").unwrap_err();
    assert!(
        e.message() == "invalid value: \"plug-in/plug-out\", expected the string \"none\", \"xon/xoff\" or \"rts/cts\""
    );
}
