//! Verified core of a driver library for RTL2832U based software defined radios.
//!
//! The library decides everything that can be decided without touching the
//! hardware: how status codes returned by the driver turn into results and
//! errors, how modes and switches are encoded for the driver and decoded from
//! it, and how the buffers handed back by the driver are cut to size.

mod device;
mod error;
mod modes;

pub use crate::device::{
    eeprom_write_len, get_devices, nul_terminated_string, sync_read_len, Device,
};
pub use crate::error::{rtlsdr_result, LibusbError, RtlsdrError};
pub use crate::modes::{flag, DirectSampling, DirectSamplingThreshold, Sideband, TunerType};
