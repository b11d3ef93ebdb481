//! A radio device, and what each of its operations makes of the driver's reply.
//!
//! Every operation on a device is one call into the driver (two for the list
//! of tuner gains). The call itself is made by the caller; the functions here
//! say what is to be handed to it where that takes a decision, and turn what
//! it returned (a status code, and any values it wrote back) into the result
//! of the operation.

use vstd::prelude::*;
use vstd::string::StringSliceAdditionalSpecFns;
use vstd::utf8::{decode_utf8, encode_utf8, valid_utf8};

use crate::error::{
    error_code, error_from_code, lemma_error_keeps_code, rtlsdr_result, status_unit, RtlsdrError,
};
use crate::modes::{
    direct_sampling_from_code, flag_from_code, tuner_type_from_code, DirectSampling, TunerType,
};

verus! {

/// A radio device: its position in the driver's list of devices and the
/// driver's handle for it, which is 0 while the device is not open.
#[derive(Debug, Copy, Clone, PartialEq, Eq, Structural)]
pub struct Device {
    index: u32,
    dev: usize,
}

/// Whether `s` holds a NUL byte.
pub open spec fn has_nul(s: Seq<u8>) -> bool {
    exists|i: int| 0 <= i < s.len() && s[i] == 0
}

/// Whether `k` is the position of the first NUL byte of `s`.
pub open spec fn is_first_nul(s: Seq<u8>, k: int) -> bool {
    &&& 0 <= k < s.len()
    &&& s[k] == 0
    &&& forall|j: int| 0 <= j < k ==> s[j] != 0
}

/// The bytes of `s` before its first NUL byte (all of `s` if it has none).
pub open spec fn before_nul(s: Seq<u8>) -> Seq<u8> {
    if has_nul(s) {
        s.take(choose|k: int| is_first_nul(s, k))
    } else {
        s
    }
}

/// The text of a NUL-terminated string of UTF-8 bytes held in `s`: `None` if
/// `s` holds no NUL byte, or if what precedes the first one is not UTF-8.
pub open spec fn nul_terminated_text(s: Seq<u8>) -> Option<Seq<char>> {
    if has_nul(s) && valid_utf8(before_nul(s)) {
        Some(decode_utf8(before_nul(s)))
    } else {
        None
    }
}

/// What a reading of a value that the driver reports as 0 on failure means:
/// 0 is an unspecified error, anything else is the value.
pub open spec fn nonzero_result<T>(v: T, is_zero: bool) -> Result<T, RtlsdrError> {
    if is_zero {
        Err(RtlsdrError::Unspecified(0))
    } else {
        Ok(v)
    }
}

impl Device {
    /// The device's position in the driver's list of devices.
    pub closed spec fn dev_index(self) -> u32 {
        self.index
    }

    /// The driver's handle for the device; 0 while it is not open.
    pub closed spec fn dev_handle(self) -> usize {
        self.dev
    }

    /// Whether the device holds a handle from the driver.
    pub open spec fn is_open(self) -> bool {
        self.dev_handle() != 0
    }

    /// The device's position in the driver's list of devices.
    pub fn index(&self) -> (i: u32)
        ensures
            i == self.dev_index(),
    {
        self.index
    }

    /// The driver's handle for the device, to be handed to each call into
    /// the driver; 0 while the device is not open.
    pub fn handle(&self) -> (h: usize)
        ensures
            h == self.dev_handle(),
    {
        self.dev
    }

    /// Open the device. `status` is what the driver's open call returned and
    /// `handle` is the handle it left in place of the device's handle.
    /// # Errors
    /// The error that a negative status stands for (e.g. a USB failure, or the
    /// device is already open).
    pub fn open(&mut self, status: i32, handle: usize) -> (r: Result<(), RtlsdrError>)
        ensures
            r == status_unit(status),
            status < 0 ==> r == Err::<(), RtlsdrError>(error_from_code(status)),
            r matches Err(e) ==> error_code(e) == status,
            final(self).dev_index() == old(self).dev_index(),
            final(self).dev_handle() == handle,
    {
        self.dev = handle;
        unit(status)
    }

    /// Close the device, given the status the driver's close call returned.
    /// On success the device no longer holds a handle; on failure it is left
    /// as it was.
    /// # Errors
    /// The error that a negative status stands for (e.g. a USB failure, or the
    /// device is not open).
    pub fn close(&mut self, status: i32) -> (r: Result<(), RtlsdrError>)
        ensures
            r == status_unit(status),
            status < 0 ==> r == Err::<(), RtlsdrError>(error_from_code(status)),
            r matches Err(e) ==> error_code(e) == status,
            final(self).dev_index() == old(self).dev_index(),
            r is Ok ==> final(self).dev_handle() == 0,
            r is Err ==> *final(self) == *old(self),
    {
        let r = unit(status);
        if r.is_ok() {
            self.dev = 0;
        }
        r
    }

    /// Crystal oscillator frequencies used for the RTL2832 and the tuner IC,
    /// from the status of the driver's call and the two frequencies it wrote.
    /// # Errors
    /// The error that a negative status stands for.
    pub fn get_xtal_freq(&self, status: i32, rtl_freq: u32, tuner_freq: u32) -> (r: Result<
        (u32, u32),
        RtlsdrError,
    >)
        ensures
            status < 0 ==> r == Err::<(u32, u32), RtlsdrError>(error_from_code(status)),
            status >= 0 ==> r == Ok::<(u32, u32), RtlsdrError>((rtl_freq, tuner_freq)),
    {
        match rtlsdr_result(status) {
            Ok(_) => Ok((rtl_freq, tuner_freq)),
            Err(e) => Err(e),
        }
    }

    /// Set the crystal oscillator frequencies, given the driver's status.
    /// # Errors
    /// The error that a negative status stands for.
    pub fn set_xtal_freq(&mut self, status: i32) -> (r: Result<(), RtlsdrError>)
        ensures
            r == status_unit(status),
            status < 0 ==> r == Err::<(), RtlsdrError>(error_from_code(status)),
            r matches Err(e) ==> error_code(e) == status,
            *final(self) == *old(self),
    {
        unit(status)
    }

    /// Set the frequency the device is tuned to in Hz, given the status the driver's call returned.
    /// # Errors
    /// The error that a negative status stands for (e.g. a USB failure, or the
    /// device is not open).
    pub fn set_center_freq(&mut self, status: i32) -> (r: Result<(), RtlsdrError>)
        ensures
            r == status_unit(status),
            status < 0 ==> r == Err::<(), RtlsdrError>(error_from_code(status)),
            r matches Err(e) ==> error_code(e) == status,
            *final(self) == *old(self),
    {
        unit(status)
    }

    /// Set the frequency correction value for the device in parts per million (ppm), given the status the driver's call returned.
    /// # Errors
    /// The error that a negative status stands for (e.g. a USB failure, or the
    /// device is not open).
    pub fn set_freq_correction(&mut self, status: i32) -> (r: Result<(), RtlsdrError>)
        ensures
            r == status_unit(status),
            status < 0 ==> r == Err::<(), RtlsdrError>(error_from_code(status)),
            r matches Err(e) ==> error_code(e) == status,
            *final(self) == *old(self),
    {
        unit(status)
    }

    /// Set the gain for the device (manual gain mode must be enabled), in tenths of a dB, given the status the driver's call returned.
    /// # Errors
    /// The error that a negative status stands for (e.g. a USB failure, or the
    /// device is not open).
    pub fn set_tuner_gain(&mut self, status: i32) -> (r: Result<(), RtlsdrError>)
        ensures
            r == status_unit(status),
            status < 0 ==> r == Err::<(), RtlsdrError>(error_from_code(status)),
            r matches Err(e) ==> error_code(e) == status,
            *final(self) == *old(self),
    {
        unit(status)
    }

    /// Set the bandwidth for the device in Hz; zero means automatic selection, given the status the driver's call returned.
    /// # Errors
    /// The error that a negative status stands for (e.g. a USB failure, or the
    /// device is not open).
    pub fn set_tuner_bandwidth(&mut self, status: i32) -> (r: Result<(), RtlsdrError>)
        ensures
            r == status_unit(status),
            status < 0 ==> r == Err::<(), RtlsdrError>(error_from_code(status)),
            r matches Err(e) ==> error_code(e) == status,
            *final(self) == *old(self),
    {
        unit(status)
    }

    /// Set the intermediate frequency gain of one stage, in tenths of a dB, given the status the driver's call returned.
    /// # Errors
    /// The error that a negative status stands for (e.g. a USB failure, or the
    /// device is not open).
    pub fn set_tuner_if_gain(&mut self, status: i32) -> (r: Result<(), RtlsdrError>)
        ensures
            r == status_unit(status),
            status < 0 ==> r == Err::<(), RtlsdrError>(error_from_code(status)),
            r matches Err(e) ==> error_code(e) == status,
            *final(self) == *old(self),
    {
        unit(status)
    }

    /// Set the gain mode (automatic/manual); the switch is handed over by [`crate::flag`], given the status the driver's call returned.
    /// # Errors
    /// The error that a negative status stands for (e.g. a USB failure, or the
    /// device is not open).
    pub fn set_tuner_gain_mode(&mut self, status: i32) -> (r: Result<(), RtlsdrError>)
        ensures
            r == status_unit(status),
            status < 0 ==> r == Err::<(), RtlsdrError>(error_from_code(status)),
            r matches Err(e) ==> error_code(e) == status,
            *final(self) == *old(self),
    {
        unit(status)
    }

    /// Set the sample rate for the device in Hz, given the status the driver's call returned.
    /// # Errors
    /// The error that a negative status stands for (e.g. a USB failure, or the
    /// device is not open).
    pub fn set_sample_rate(&mut self, status: i32) -> (r: Result<(), RtlsdrError>)
        ensures
            r == status_unit(status),
            status < 0 ==> r == Err::<(), RtlsdrError>(error_from_code(status)),
            r matches Err(e) ==> error_code(e) == status,
            *final(self) == *old(self),
    {
        unit(status)
    }

    /// Enable or disable the test mode that returns an 8 bit counter instead of the samples; the switch is handed over by [`crate::flag`], given the status the driver's call returned.
    /// # Errors
    /// The error that a negative status stands for (e.g. a USB failure, or the
    /// device is not open).
    pub fn set_test_mode(&mut self, status: i32) -> (r: Result<(), RtlsdrError>)
        ensures
            r == status_unit(status),
            status < 0 ==> r == Err::<(), RtlsdrError>(error_from_code(status)),
            r matches Err(e) ==> error_code(e) == status,
            *final(self) == *old(self),
    {
        unit(status)
    }

    /// Enable or disable the internal digital AGC of the RTL2832; the switch is handed over by [`crate::flag`], given the status the driver's call returned.
    /// # Errors
    /// The error that a negative status stands for (e.g. a USB failure, or the
    /// device is not open).
    pub fn set_agc_mode(&mut self, status: i32) -> (r: Result<(), RtlsdrError>)
        ensures
            r == status_unit(status),
            status < 0 ==> r == Err::<(), RtlsdrError>(error_from_code(status)),
            r matches Err(e) ==> error_code(e) == status,
            *final(self) == *old(self),
    {
        unit(status)
    }

    /// Enable or disable the direct sampling mode; the mode is handed over by [`DirectSampling::code`], given the status the driver's call returned.
    /// # Errors
    /// The error that a negative status stands for (e.g. a USB failure, or the
    /// device is not open).
    pub fn set_direct_sampling(&mut self, status: i32) -> (r: Result<(), RtlsdrError>)
        ensures
            r == status_unit(status),
            status < 0 ==> r == Err::<(), RtlsdrError>(error_from_code(status)),
            r matches Err(e) ==> error_code(e) == status,
            *final(self) == *old(self),
    {
        unit(status)
    }

    /// Enable or disable offset tuning for zero-IF tuners; the switch is handed over by [`crate::flag`], given the status the driver's call returned.
    /// # Errors
    /// The error that a negative status stands for (e.g. a USB failure, or the
    /// device is not open).
    pub fn set_offset_tuning(&mut self, status: i32) -> (r: Result<(), RtlsdrError>)
        ensures
            r == status_unit(status),
            status < 0 ==> r == Err::<(), RtlsdrError>(error_from_code(status)),
            r matches Err(e) ==> error_code(e) == status,
            *final(self) == *old(self),
    {
        unit(status)
    }

    /// Reset the buffer in the RTL2832, given the status the driver's call returned.
    /// # Errors
    /// The error that a negative status stands for (e.g. a USB failure, or the
    /// device is not open).
    pub fn reset_buffer(&mut self, status: i32) -> (r: Result<(), RtlsdrError>)
        ensures
            r == status_unit(status),
            status < 0 ==> r == Err::<(), RtlsdrError>(error_from_code(status)),
            r matches Err(e) ==> error_code(e) == status,
            *final(self) == *old(self),
    {
        unit(status)
    }

    /// Enable or disable the bias tee on GPIO pin 0; the switch is handed over by [`crate::flag`], given the status the driver's call returned.
    /// # Errors
    /// The error that a negative status stands for (e.g. a USB failure, or the
    /// device is not open).
    pub fn set_bias_tee(&mut self, status: i32) -> (r: Result<(), RtlsdrError>)
        ensures
            r == status_unit(status),
            status < 0 ==> r == Err::<(), RtlsdrError>(error_from_code(status)),
            r matches Err(e) ==> error_code(e) == status,
            *final(self) == *old(self),
    {
        unit(status)
    }

    /// Enable or disable the bias tee on the given GPIO pin; the switch is handed over by [`crate::flag`], given the status the driver's call returned.
    /// # Errors
    /// The error that a negative status stands for (e.g. a USB failure, or the
    /// device is not open).
    pub fn set_bias_tee_gpio(&mut self, status: i32) -> (r: Result<(), RtlsdrError>)
        ensures
            r == status_unit(status),
            status < 0 ==> r == Err::<(), RtlsdrError>(error_from_code(status)),
            r matches Err(e) ==> error_code(e) == status,
            *final(self) == *old(self),
    {
        unit(status)
    }

    /// Write the device EEPROM; the length handed over is the one [`eeprom_write_len`] gives, given the status the driver's call returned.
    /// # Errors
    /// The error that a negative status stands for (e.g. a USB failure, or the
    /// device is not open).
    pub fn write_eeprom(&mut self, status: i32) -> (r: Result<(), RtlsdrError>)
        ensures
            r == status_unit(status),
            status < 0 ==> r == Err::<(), RtlsdrError>(error_from_code(status)),
            r matches Err(e) ==> error_code(e) == status,
            *final(self) == *old(self),
    {
        unit(status)
    }

    /// Actual frequency the device is tuned to in Hz, from the value the
    /// driver returned, which is 0 when it could not tell.
    /// # Errors
    /// `Unspecified(0)` when the driver returned 0.
    pub fn get_center_freq(&self, freq: u32) -> (r: Result<u32, RtlsdrError>)
        ensures
            r == nonzero_result(freq, freq == 0),
            freq == 0 ==> r == Err::<u32, RtlsdrError>(RtlsdrError::Unspecified(0)),
            freq != 0 ==> r == Ok::<u32, RtlsdrError>(freq),
    {
        if freq == 0 {
            Err(RtlsdrError::Unspecified(0))
        } else {
            Ok(freq)
        }
    }

    /// Actual (RF / HF) gain the device is configured to, in tenths of a dB,
    /// from the value the driver returned, which is 0 when it could not tell.
    /// # Errors
    /// `Unspecified(0)` when the driver returned 0.
    pub fn get_tuner_gain(&self, gain: i32) -> (r: Result<i32, RtlsdrError>)
        ensures
            r == nonzero_result(gain, gain == 0),
            gain == 0 ==> r == Err::<i32, RtlsdrError>(RtlsdrError::Unspecified(0)),
            gain != 0 ==> r == Ok::<i32, RtlsdrError>(gain),
    {
        if gain == 0 {
            Err(RtlsdrError::Unspecified(0))
        } else {
            Ok(gain)
        }
    }

    /// Actual sample rate the device is configured to in Hz, from the value
    /// the driver returned, which is 0 when it could not tell.
    /// # Errors
    /// `Unspecified(0)` when the driver returned 0.
    pub fn get_sample_rate(&self, rate: u32) -> (r: Result<u32, RtlsdrError>)
        ensures
            r == nonzero_result(rate, rate == 0),
            rate == 0 ==> r == Err::<u32, RtlsdrError>(RtlsdrError::Unspecified(0)),
            rate != 0 ==> r == Ok::<u32, RtlsdrError>(rate),
    {
        if rate == 0 {
            Err(RtlsdrError::Unspecified(0))
        } else {
            Ok(rate)
        }
    }

    /// The tuner type, from the code the driver returned.
    pub fn get_tuner_type(&self, code: i32) -> (t: TunerType)
        ensures
            t == tuner_type_from_code(code),
    {
        TunerType::from_code(code)
    }

    /// State of the direct sampling mode, from the status the driver returned.
    /// # Errors
    /// The error that a negative status stands for.
    pub fn get_direct_sampling(&self, status: i32) -> (r: Result<DirectSampling, RtlsdrError>)
        ensures
            status < 0 ==> r == Err::<DirectSampling, RtlsdrError>(error_from_code(status)),
            status >= 0 ==> r == Ok::<DirectSampling, RtlsdrError>(
                direct_sampling_from_code(status),
            ),
    {
        match rtlsdr_result(status) {
            Ok(mode) => Ok(DirectSampling::from_code(mode)),
            Err(e) => Err(e),
        }
    }

    /// State of the offset tuning mode, from the status the driver returned:
    /// on exactly when the driver reports 1.
    /// # Errors
    /// The error that a negative status stands for.
    pub fn get_offset_tuning(&self, status: i32) -> (r: Result<bool, RtlsdrError>)
        ensures
            status < 0 ==> r == Err::<bool, RtlsdrError>(error_from_code(status)),
            status >= 0 ==> r == Ok::<bool, RtlsdrError>(flag_from_code(status)),
    {
        match rtlsdr_result(status) {
            Ok(mode) => Ok(mode == 1),
            Err(e) => Err(e),
        }
    }

    /// Number of bytes read by a synchronous read, from the status of the
    /// driver's call and the count it wrote.
    /// # Errors
    /// The error that a negative status stands for.
    pub fn read(&self, status: i32, n_read: i32) -> (r: Result<i32, RtlsdrError>)
        ensures
            status < 0 ==> r == Err::<i32, RtlsdrError>(error_from_code(status)),
            status >= 0 ==> r == Ok::<i32, RtlsdrError>(n_read),
    {
        match rtlsdr_result(status) {
            Ok(_) => Ok(n_read),
            Err(e) => Err(e),
        }
    }

    /// Buffer for the driver to write the device EEPROM into: `len` zero bytes.
    pub fn eeprom_read_buffer(len: u16) -> (buf: Vec<u8>)
        ensures
            buf@ == Seq::new(len as nat, |_i: int| 0u8),
    {
        let mut buf: Vec<u8> = Vec::new();
        let mut i: u16 = 0;
        while i < len
            invariant
                i <= len,
                buf@ == Seq::new(i as nat, |_i: int| 0u8),
            decreases len - i,
        {
            buf.push(0);
            i = i + 1;
        }
        buf
    }

    /// The device EEPROM contents read, from the status of the driver's call
    /// and the buffer it wrote into: the buffer cut to the number of bytes
    /// the status reports (left whole if that is longer than the buffer).
    /// # Errors
    /// The error that a negative status stands for.
    pub fn read_eeprom(&self, status: i32, buf: Vec<u8>) -> (r: Result<Box<[u8]>, RtlsdrError>)
        ensures
            status < 0 ==> (r matches Err(e) && e == error_from_code(status)),
            status >= 0 ==> (r matches Ok(b) && b@ == prefix(buf@, status as int)),
            status >= 0 ==> (r matches Ok(b) && b@.len() == (if status <= buf@.len() {
                status as int
            } else {
                buf@.len() as int
            }) && forall|i: int| 0 <= i < b@.len() ==> b@[i] == buf@[i]),
    {
        match rtlsdr_result(status) {
            Ok(n) => {
                let ghost old_buf = buf;
                let mut buf = buf;
                buf.truncate(n as usize);
                proof {
                    lemma_prefix(old_buf@, n as int);
                }
                Ok(boxed_bytes(buf))
            },
            Err(e) => Err(e),
        }
    }

    /// Buffer for the driver to write the list of tuner gains into, from the
    /// status of the driver's first call, which counts the gains: that many
    /// zeros.
    /// # Errors
    /// The error that a negative status stands for.
    pub fn tuner_gains_buffer(&self, status: i32) -> (r: Result<Vec<i32>, RtlsdrError>)
        ensures
            status < 0 ==> (r matches Err(e) && e == error_from_code(status)),
            status >= 0 ==> (r matches Ok(v) && v@ == Seq::new(status as nat, |_i: int| 0i32)),
    {
        match rtlsdr_result(status) {
            Ok(n) => {
                let mut gains: Vec<i32> = Vec::new();
                let mut i: i32 = 0;
                while i < n
                    invariant
                        0 <= i <= n,
                        gains@ == Seq::new(i as nat, |_i: int| 0i32),
                    decreases n - i,
                {
                    gains.push(0);
                    i = i + 1;
                }
                Ok(gains)
            },
            Err(e) => Err(e),
        }
    }

    /// List of gains supported by the tuner, in tenths of a dB, from the
    /// status of the driver's second call and the buffer it wrote into: the
    /// buffer cut to the number of gains the status reports.
    /// # Errors
    /// The error that a negative status stands for.
    pub fn get_tuner_gains(&self, status: i32, gains: Vec<i32>) -> (r: Result<Vec<i32>, RtlsdrError>)
        ensures
            status < 0 ==> (r matches Err(e) && e == error_from_code(status)),
            status >= 0 ==> (r matches Ok(v) && v@ == prefix(gains@, status as int)),
            status >= 0 ==> (r matches Ok(v) && v@.len() == (if status <= gains@.len() {
                status as int
            } else {
                gains@.len() as int
            }) && forall|i: int| 0 <= i < v@.len() ==> v@[i] == gains@[i]),
    {
        match rtlsdr_result(status) {
            Ok(n) => {
                let ghost old_gains = gains;
                let mut gains = gains;
                gains.truncate(n as usize);
                proof {
                    lemma_prefix(old_gains@, n as int);
                }
                Ok(gains)
            },
            Err(e) => Err(e),
        }
    }

    /// USB device strings (manufacturer, product, serial), from the status of
    /// the driver's call and the three NUL-terminated buffers it wrote.
    /// # Errors
    /// The error that a negative status stands for.
    pub fn get_usb_device_strings(
        &self,
        status: i32,
        manufact: &[u8],
        product: &[u8],
        serial: &[u8],
    ) -> (r: Result<(String, String, String), RtlsdrError>)
        requires
            status >= 0 ==> nul_terminated_text(manufact@) is Some,
            status >= 0 ==> nul_terminated_text(product@) is Some,
            status >= 0 ==> nul_terminated_text(serial@) is Some,
        ensures
            status < 0 ==> (r matches Err(e) && e == error_from_code(status)),
            status >= 0 ==> (r matches Ok((m, p, s)) && Some(m@) == nul_terminated_text(manufact@)
                && Some(p@) == nul_terminated_text(product@) && Some(s@) == nul_terminated_text(
                serial@,
            )),
    {
        match rtlsdr_result(status) {
            Ok(_) => {
                let m = nul_terminated_string(manufact);
                let p = nul_terminated_string(product);
                let s = nul_terminated_string(serial);
                match (m, p, s) {
                    (Some(m), Some(p), Some(s)) => Ok((m, p, s)),
                    _ => Err(RtlsdrError::Unspecified(0)),
                }
            },
            Err(e) => Err(e),
        }
    }
}

/// [`rtlsdr_result`] with the successful value dropped.
fn unit(status: i32) -> (r: Result<(), RtlsdrError>)
    ensures
        r == status_unit(status),
        status < 0 ==> r == Err::<(), RtlsdrError>(error_from_code(status)),
        r matches Err(e) ==> error_code(e) == status,
{
    proof {
        lemma_error_keeps_code(status);
    }
    match rtlsdr_result(status) {
        Ok(_) => Ok(()),
        Err(e) => Err(e),
    }
}


/// The first `n` items of `s`, or all of `s` if it is shorter.
pub open spec fn prefix<T>(s: Seq<T>, n: int) -> Seq<T> {
    if n <= s.len() {
        s.take(n)
    } else {
        s
    }
}

/// Length to hand to the driver for writing `buf` to the EEPROM; `None` when
/// the buffer is longer than the largest EEPROM (65535 bytes).
pub fn eeprom_write_len(buf: &[u8]) -> (r: Option<u16>)
    ensures
        buf@.len() <= u16::MAX ==> r == Some(buf@.len() as u16),
        buf@.len() > u16::MAX ==> r is None,
{
    if buf.len() <= 65535 {
        Some(buf.len() as u16)
    } else {
        None
    }
}

/// Length to hand to the driver for a synchronous read into `buf`; `None`
/// when the buffer is longer than the largest `i32`.
pub fn sync_read_len(buf: &[u8]) -> (r: Option<i32>)
    ensures
        buf@.len() <= i32::MAX ==> r == Some(buf@.len() as i32),
        buf@.len() > i32::MAX ==> r is None,
{
    if buf.len() <= 2147483647 {
        Some(buf.len() as i32)
    } else {
        None
    }
}

/// The text of the NUL-terminated UTF-8 string held in `buf`: `None` if
/// `buf` holds no NUL byte, or if what precedes the first one is not UTF-8.
pub fn nul_terminated_string(buf: &[u8]) -> (r: Option<String>)
    ensures
        r is Some <==> nul_terminated_text(buf@) is Some,
        r matches Some(t) ==> Some(t@) == nul_terminated_text(buf@),
        (forall|j: int| 0 <= j < buf@.len() ==> buf@[j] != 0) ==> r is None,
        forall|k: int|
            0 <= k < buf@.len() && buf@[k] == 0 && (forall|j: int| 0 <= j < k ==> buf@[j] != 0)
                ==> (r is Some <==> valid_utf8(buf@.take(k))) && (r matches Some(t) ==> t@
                == decode_utf8(buf@.take(k)) && encode_utf8(t@) == buf@.take(k)),
{
    proof {
        assert forall|k: int|
            0 <= k < buf@.len() && buf@[k] == 0 && (forall|j: int| 0 <= j < k ==> buf@[j] != 0)
            implies nul_terminated_text(buf@) == (if valid_utf8(buf@.take(k)) {
            Some(decode_utf8(buf@.take(k)))
        } else {
            None::<Seq<char>>
        }) by {
            lemma_nul_terminated_text(buf@, k);
        }
        lemma_no_nul_no_text(buf@);
    }
    let mut i: usize = 0;
    while i < buf.len() && buf[i] != 0
        invariant
            i <= buf.len(),
            forall|j: int| 0 <= j < i ==> buf@[j] != 0,
        decreases buf.len() - i,
    {
        i = i + 1;
    }
    if i == buf.len() {
        return None;
    }
    proof {
        assert(is_first_nul(buf@, i as int));
        let k = choose|k: int| is_first_nul(buf@, k);
        assert(k == i) by {
            if k < i {
                assert(buf@[k] != 0);
            } else if k > i {
                assert(buf@[i as int] != 0);
            }
        }
    }
    let head = vstd::slice::slice_subrange(buf, 0, i);
    assert(head@ == before_nul(buf@));
    match utf8_str(head) {
        Some(text) => {
            proof {
                vstd::utf8::encode_utf8_decode_utf8(text@);
                assert(text@ == decode_utf8(head@));
            }
            Some(text.to_owned())
        },
        None => None,
    }
}

/// All devices that the driver counts: `count` of them, at positions
/// `0..count`, none of them open.
pub fn get_devices(count: u32) -> (devices: Vec<Device>)
    ensures
        devices@.len() == count,
        forall|i: int|
            0 <= i < count ==> #[trigger] devices@[i].dev_index() == i && !devices@[i].is_open(),
{
    let mut devices: Vec<Device> = Vec::new();
    let mut index: u32 = 0;
    while index < count
        invariant
            index <= count,
            devices@.len() == index,
            forall|i: int|
                0 <= i < index ==> #[trigger] devices@[i].dev_index() == i
                    && !devices@[i].is_open(),
        decreases count - index,
    {
        devices.push(Device { index, dev: 0 });
        index = index + 1;
    }
    devices
}

/// The first `n` items of a sequence: exactly `min(n, |s|)` items, each the
/// item of `s` at the same position.
pub proof fn lemma_prefix<T>(s: Seq<T>, n: int)
    requires
        n >= 0,
    ensures
        prefix(s, n).len() == (if n <= s.len() {
            n
        } else {
            s.len() as int
        }),
        forall|i: int| 0 <= i < prefix(s, n).len() ==> #[trigger] prefix(s, n)[i] == s[i],
{
}

/// The text of a NUL-terminated string is the UTF-8 decoding of exactly the
/// bytes before its first NUL byte, or nothing if those are not UTF-8.
pub proof fn lemma_nul_terminated_text(s: Seq<u8>, k: int)
    requires
        0 <= k < s.len(),
        s[k] == 0,
        forall|j: int| 0 <= j < k ==> s[j] != 0,
    ensures
        valid_utf8(s.take(k)) ==> nul_terminated_text(s) == Some(decode_utf8(s.take(k))),
        !valid_utf8(s.take(k)) ==> nul_terminated_text(s) is None,
{
    assert(is_first_nul(s, k));
    assert(has_nul(s));
    let c = choose|c: int| is_first_nul(s, c);
    assert(c == k) by {
        if c < k {
            assert(s[c] != 0);
        } else if c > k {
            assert(s[k] != 0);
        }
    }
}

/// Bytes without a NUL byte hold no NUL-terminated string.
pub proof fn lemma_no_nul_no_text(s: Seq<u8>)
    ensures
        (forall|j: int| 0 <= j < s.len() ==> s[j] != 0) ==> nul_terminated_text(s) is None,
{
}

/// Two devices at the same position that are both not open are the same
/// device: closing an opened device gives back exactly the device that
/// [`get_devices`] handed out for that position.
pub proof fn lemma_closed_device_is_fresh(a: Device, b: Device)
    requires
        a.dev_index() == b.dev_index(),
        !a.is_open(),
        !b.is_open(),
    ensures
        a == b,
{
}

/// Calls `std::str::from_utf8`, whose documentation promises a string slice
/// exactly when `bytes` is valid UTF-8, and then one whose bytes are `bytes`.
#[verifier::external_body]
fn utf8_str(bytes: &[u8]) -> (r: Option<&str>)
    ensures
        r is Some <==> valid_utf8(bytes@),
        r matches Some(s) ==> s.spec_bytes() == bytes@,
{
    std::str::from_utf8(bytes).ok()
}

/// Calls `Vec::into_boxed_slice`, which the documentation says keeps the
/// items: the boxed slice holds what the vector held.
#[verifier::external_body]
fn boxed_bytes(v: Vec<u8>) -> (b: Box<[u8]>)
    ensures
        b@ == v@,
{
    v.into_boxed_slice()
}

} // verus!
