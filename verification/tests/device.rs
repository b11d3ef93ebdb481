use lib::{
    eeprom_write_len, get_devices, nul_terminated_string, sync_read_len, Device, DirectSampling,
    LibusbError, RtlsdrError, TunerType,
};

fn busy() -> RtlsdrError {
    RtlsdrError::LibusbError(LibusbError::Busy)
}

fn first_device() -> Device {
    get_devices(1)[0]
}

#[test]
fn devices_are_listed_unopened() {
    let devices = get_devices(3);
    assert_eq!(devices.len(), 3);
    for (i, d) in devices.iter().enumerate() {
        assert_eq!(d.index() as usize, i);
        assert_eq!(d.handle(), 0);
    }
    assert!(get_devices(0).is_empty());
}

#[test]
fn open_then_close_gives_back_the_listed_device() {
    let listed = get_devices(2)[1];
    let mut d = listed;
    assert_eq!(d.open(0, 0x5000), Ok(()));
    assert_eq!(d.handle(), 0x5000);
    assert_eq!(d.index(), 1);
    assert_eq!(d.close(0), Ok(()));
    assert_eq!(d, listed);
}

#[test]
fn failed_open_reports_the_error() {
    let mut d = first_device();
    assert_eq!(d.open(-3, 0), Err(RtlsdrError::LibusbError(LibusbError::AccessDenied)));
    assert_eq!(d.handle(), 0);
}

#[test]
fn failed_close_keeps_the_handle() {
    let mut d = first_device();
    d.open(0, 77).unwrap();
    assert_eq!(d.close(-6), Err(busy()));
    assert_eq!(d.handle(), 77);
}

#[test]
fn xtal_freq() {
    let d = first_device();
    assert_eq!(d.get_xtal_freq(0, 28_800_000, 28_800_001), Ok((28_800_000, 28_800_001)));
    assert_eq!(d.get_xtal_freq(-6, 1, 2), Err(busy()));
}

#[test]
fn setters_follow_the_status() {
    let mut d = first_device();
    d.open(0, 1).unwrap();
    let before = d;
    let setters: [fn(&mut Device, i32) -> Result<(), RtlsdrError>; 16] = [
        Device::set_xtal_freq,
        Device::set_center_freq,
        Device::set_freq_correction,
        Device::set_tuner_gain,
        Device::set_tuner_bandwidth,
        Device::set_tuner_if_gain,
        Device::set_tuner_gain_mode,
        Device::set_sample_rate,
        Device::set_test_mode,
        Device::set_agc_mode,
        Device::set_direct_sampling,
        Device::set_offset_tuning,
        Device::reset_buffer,
        Device::set_bias_tee,
        Device::set_bias_tee_gpio,
        Device::write_eeprom,
    ];
    for set in setters {
        assert_eq!(set(&mut d, 0), Ok(()));
        assert_eq!(set(&mut d, 3), Ok(()));
        assert_eq!(set(&mut d, -6), Err(busy()));
        assert_eq!(set(&mut d, -42), Err(RtlsdrError::Unspecified(-42)));
        assert_eq!(d, before);
    }
}

#[test]
fn readings_reported_as_zero_are_errors() {
    let d = first_device();
    assert_eq!(d.get_center_freq(101_700_000), Ok(101_700_000));
    assert_eq!(d.get_center_freq(0), Err(RtlsdrError::Unspecified(0)));
    assert_eq!(d.get_tuner_gain(-30), Ok(-30));
    assert_eq!(d.get_tuner_gain(0), Err(RtlsdrError::Unspecified(0)));
    assert_eq!(d.get_sample_rate(2_048_000), Ok(2_048_000));
    assert_eq!(d.get_sample_rate(0), Err(RtlsdrError::Unspecified(0)));
}

#[test]
fn tuner_type_reading() {
    let d = first_device();
    assert_eq!(d.get_tuner_type(5), TunerType::R820T);
    assert_eq!(d.get_tuner_type(1), TunerType::E4000);
    assert_eq!(d.get_tuner_type(0), TunerType::Unknown);
    assert_eq!(d.get_tuner_type(-4), TunerType::Unknown);
}

#[test]
fn direct_sampling_reading() {
    let d = first_device();
    assert_eq!(d.get_direct_sampling(0), Ok(DirectSampling::Disabled));
    assert_eq!(d.get_direct_sampling(1), Ok(DirectSampling::I));
    assert_eq!(d.get_direct_sampling(2), Ok(DirectSampling::Q));
    assert_eq!(d.get_direct_sampling(9), Ok(DirectSampling::Disabled));
    assert_eq!(
        d.get_direct_sampling(-4),
        Err(RtlsdrError::LibusbError(LibusbError::NoDevice))
    );
    for m in [DirectSampling::Disabled, DirectSampling::I, DirectSampling::Q] {
        assert_eq!(d.get_direct_sampling(m.code()), Ok(m));
    }
}

#[test]
fn offset_tuning_reading() {
    let d = first_device();
    assert_eq!(d.get_offset_tuning(1), Ok(true));
    assert_eq!(d.get_offset_tuning(0), Ok(false));
    assert_eq!(d.get_offset_tuning(2), Ok(false));
    assert_eq!(d.get_offset_tuning(-6), Err(busy()));
    for on in [true, false] {
        assert_eq!(d.get_offset_tuning(lib::flag(on)), Ok(on));
    }
}

#[test]
fn sync_read() {
    let d = first_device();
    assert_eq!(d.read(0, 512), Ok(512));
    assert_eq!(d.read(-7, 0), Err(RtlsdrError::LibusbError(LibusbError::Timeout)));
    assert_eq!(sync_read_len(&[0u8; 1024]), Some(1024));
    assert_eq!(sync_read_len(&[]), Some(0));
}

#[test]
fn eeprom_write_length() {
    assert_eq!(eeprom_write_len(&[1, 2, 3]), Some(3));
    assert_eq!(eeprom_write_len(&vec![0u8; 65535]), Some(65535));
    assert_eq!(eeprom_write_len(&vec![0u8; 65536]), None);
}

#[test]
fn eeprom_reading_is_cut_to_the_count() {
    let d = first_device();
    assert_eq!(Device::eeprom_read_buffer(4), vec![0u8; 4]);
    assert!(Device::eeprom_read_buffer(0).is_empty());
    let read = d.read_eeprom(2, vec![1, 2, 3, 4]).unwrap();
    assert_eq!(&*read, &[1u8, 2][..]);
    let read = d.read_eeprom(4, vec![1, 2, 3, 4]).unwrap();
    assert_eq!(&*read, &[1u8, 2, 3, 4][..]);
    let read = d.read_eeprom(10, vec![1, 2, 3]).unwrap();
    assert_eq!(&*read, &[1u8, 2, 3][..]);
    assert_eq!(
        d.read_eeprom(-5, vec![1]),
        Err(RtlsdrError::LibusbError(LibusbError::NoEntity))
    );
}

#[test]
fn tuner_gains_are_read_in_two_steps() {
    let d = first_device();
    assert_eq!(d.tuner_gains_buffer(3), Ok(vec![0, 0, 0]));
    assert_eq!(d.tuner_gains_buffer(0), Ok(vec![]));
    assert_eq!(d.tuner_gains_buffer(-6), Err(busy()));
    assert_eq!(d.get_tuner_gains(2, vec![9, 14, 27]), Ok(vec![9, 14]));
    assert_eq!(d.get_tuner_gains(3, vec![9, 14, 27]), Ok(vec![9, 14, 27]));
    assert_eq!(d.get_tuner_gains(5, vec![9, 14]), Ok(vec![9, 14]));
    assert_eq!(d.get_tuner_gains(-1, vec![9]), Err(RtlsdrError::LibusbError(LibusbError::IoError)));
}

#[test]
fn nul_terminated_strings() {
    assert_eq!(nul_terminated_string(b"Realtek\0junk"), Some("Realtek".to_string()));
    assert_eq!(nul_terminated_string(b"\0"), Some(String::new()));
    assert_eq!(nul_terminated_string(b"a\0b\0"), Some("a".to_string()));
    assert_eq!(nul_terminated_string("Gr\u{fc}n\0".as_bytes()), Some("Gr\u{fc}n".to_string()));
    assert_eq!(nul_terminated_string(b"no terminator"), None);
    assert_eq!(nul_terminated_string(b""), None);
    assert_eq!(nul_terminated_string(b"\xff\xfe\0"), None);
}

#[test]
fn usb_device_strings() {
    let d = first_device();
    let mut manufact = [0u8; 256];
    let mut product = [0u8; 256];
    let mut serial = [0u8; 256];
    manufact[..7].copy_from_slice(b"Realtek");
    product[..13].copy_from_slice(b"RTL2838UHIDIR");
    serial[..8].copy_from_slice(b"00000001");
    assert_eq!(
        d.get_usb_device_strings(0, &manufact, &product, &serial),
        Ok(("Realtek".to_string(), "RTL2838UHIDIR".to_string(), "00000001".to_string()))
    );
    assert_eq!(
        d.get_usb_device_strings(-4, &manufact, &product, &serial),
        Err(RtlsdrError::LibusbError(LibusbError::NoDevice))
    );
}
