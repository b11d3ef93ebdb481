use lib::{flag, rtlsdr_result, DirectSampling, DirectSamplingThreshold, LibusbError, RtlsdrError, Sideband, TunerType};

const ALL_LIBUSB: [(i32, LibusbError); 13] = [
    (-1, LibusbError::IoError),
    (-2, LibusbError::InvalidParam),
    (-3, LibusbError::AccessDenied),
    (-4, LibusbError::NoDevice),
    (-5, LibusbError::NoEntity),
    (-6, LibusbError::Busy),
    (-7, LibusbError::Timeout),
    (-8, LibusbError::Overflow),
    (-9, LibusbError::Pipe),
    (-10, LibusbError::Interrupted),
    (-11, LibusbError::InsufficientMemory),
    (-12, LibusbError::NotSupported),
    (-99, LibusbError::Other),
];

#[test]
fn libusb_error_try_from_known_codes() {
    for (code, err) in ALL_LIBUSB {
        assert_eq!(LibusbError::try_from(code), Ok(err));
        assert_eq!(err.code(), code);
    }
}

#[test]
fn libusb_error_try_from_unknown_codes() {
    for code in [0, 1, -13, -98, -100, i32::MIN, i32::MAX] {
        assert_eq!(LibusbError::try_from(code), Err(code));
    }
}

#[test]
fn rtlsdr_error_from_code() {
    assert_eq!(RtlsdrError::from(-4), RtlsdrError::LibusbError(LibusbError::NoDevice));
    assert_eq!(RtlsdrError::from(-99), RtlsdrError::LibusbError(LibusbError::Other));
    assert_eq!(RtlsdrError::from(-100), RtlsdrError::Unspecified(-100));
    assert_eq!(RtlsdrError::from(5), RtlsdrError::Unspecified(5));
}

#[test]
fn rtlsdr_error_keeps_code() {
    for code in [-1, -6, -12, -13, -99, -1000, 0, 42] {
        assert_eq!(RtlsdrError::from(code).code(), code);
    }
}

#[test]
fn status_codes_become_results() {
    assert_eq!(rtlsdr_result(0), Ok(0));
    assert_eq!(rtlsdr_result(7), Ok(7));
    assert_eq!(rtlsdr_result(-1), Err(RtlsdrError::LibusbError(LibusbError::IoError)));
    assert_eq!(rtlsdr_result(-20), Err(RtlsdrError::Unspecified(-20)));
}

#[test]
fn tuner_type_codes() {
    let all = [
        (0, TunerType::Unknown),
        (1, TunerType::E4000),
        (2, TunerType::FC0012),
        (3, TunerType::FC0013),
        (4, TunerType::FC2580),
        (5, TunerType::R820T),
        (6, TunerType::R828D),
    ];
    for (code, t) in all {
        assert_eq!(t.code(), code);
        assert_eq!(TunerType::from_code(code), t);
    }
    assert_eq!(TunerType::from_code(7), TunerType::Unknown);
    assert_eq!(TunerType::from_code(-1), TunerType::Unknown);
}

#[test]
fn direct_sampling_codes() {
    for (code, m) in [(0, DirectSampling::Disabled), (1, DirectSampling::I), (2, DirectSampling::Q)] {
        assert_eq!(m.code(), code);
        assert_eq!(DirectSampling::from_code(m.code()), m);
    }
    assert_eq!(DirectSampling::from_code(3), DirectSampling::Disabled);
}

#[test]
fn other_mode_codes() {
    assert_eq!(Sideband::Lower.code(), 0);
    assert_eq!(Sideband::Upper.code(), 1);
    assert_eq!(DirectSamplingThreshold::Disabled.code(), 0);
    assert_eq!(DirectSamplingThreshold::I.code(), 1);
    assert_eq!(DirectSamplingThreshold::Q.code(), 2);
    assert_eq!(DirectSamplingThreshold::IBelow.code(), 3);
    assert_eq!(DirectSamplingThreshold::QBelow.code(), 4);
}

#[test]
fn switches_are_encoded_as_one_and_zero() {
    assert_eq!(flag(true), 1);
    assert_eq!(flag(false), 0);
}
