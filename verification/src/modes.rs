//! Tuner kinds and operating modes, with the codes the driver uses for them.

use vstd::prelude::*;

verus! {

/// The tuner chip found on a device.
#[derive(Debug, Copy, Clone, PartialEq, Eq, Structural)]
pub enum TunerType {
    /// Unknown tuner type
    Unknown,
    /// Elonics E4000 tuner
    E4000,
    /// FC0012 tuner
    FC0012,
    /// FC0013 tuner
    FC0013,
    /// FC2580 tuner
    FC2580,
    /// Realtek 820T tuner
    R820T,
    /// Realtek 828D tuner
    R828D,
}

/// Sideband selection.
#[derive(Debug, Copy, Clone, PartialEq, Eq, Structural)]
pub enum Sideband {
    Lower,
    Upper,
}

/// Direct sampling mode.
#[derive(Debug, Copy, Clone, PartialEq, Eq, Structural)]
pub enum DirectSampling {
    Disabled,
    I,
    Q,
}

/// Direct sampling mode selected by a frequency threshold.
#[derive(Debug, Copy, Clone, PartialEq, Eq, Structural)]
pub enum DirectSamplingThreshold {
    Disabled,
    I,
    Q,
    IBelow,
    QBelow,
}

/// The code under which the driver reports a tuner type.
pub open spec fn tuner_type_code(t: TunerType) -> i32 {
    match t {
        TunerType::Unknown => 0i32,
        TunerType::E4000 => 1i32,
        TunerType::FC0012 => 2i32,
        TunerType::FC0013 => 3i32,
        TunerType::FC2580 => 4i32,
        TunerType::R820T => 5i32,
        TunerType::R828D => 6i32,
    }
}

/// The tuner type that a code reported by the driver stands for: the known
/// codes 1 to 6 name a tuner, every other code stands for an unknown tuner.
pub open spec fn tuner_type_from_code(code: i32) -> TunerType {
    if code == 1 {
        TunerType::E4000
    } else if code == 2 {
        TunerType::FC0012
    } else if code == 3 {
        TunerType::FC0013
    } else if code == 4 {
        TunerType::FC2580
    } else if code == 5 {
        TunerType::R820T
    } else if code == 6 {
        TunerType::R828D
    } else {
        TunerType::Unknown
    }
}

/// The code of a sideband.
pub open spec fn sideband_code(s: Sideband) -> i32 {
    match s {
        Sideband::Lower => 0i32,
        Sideband::Upper => 1i32,
    }
}

/// The code the driver uses for a direct sampling mode.
pub open spec fn direct_sampling_code(m: DirectSampling) -> i32 {
    match m {
        DirectSampling::Disabled => 0i32,
        DirectSampling::I => 1i32,
        DirectSampling::Q => 2i32,
    }
}

/// The direct sampling mode that a (non-negative) code reported by the driver
/// stands for: 1 and 2 name the I and Q branch, any other code means disabled.
pub open spec fn direct_sampling_from_code(code: i32) -> DirectSampling {
    if code == 1 {
        DirectSampling::I
    } else if code == 2 {
        DirectSampling::Q
    } else {
        DirectSampling::Disabled
    }
}

/// The code of a threshold-selected direct sampling mode.
pub open spec fn direct_sampling_threshold_code(m: DirectSamplingThreshold) -> u32 {
    match m {
        DirectSamplingThreshold::Disabled => 0u32,
        DirectSamplingThreshold::I => 1u32,
        DirectSamplingThreshold::Q => 2u32,
        DirectSamplingThreshold::IBelow => 3u32,
        DirectSamplingThreshold::QBelow => 4u32,
    }
}

/// The integer the driver takes for a switch: 1 for on, 0 for off.
pub open spec fn flag_code(on: bool) -> i32 {
    if on {
        1i32
    } else {
        0i32
    }
}

/// Whether a (non-negative) code reported by the driver means that a switch
/// is on: only the code 1 does.
pub open spec fn flag_from_code(code: i32) -> bool {
    code == 1
}

impl TunerType {
    /// The code under which the driver reports this tuner type.
    pub fn code(&self) -> (c: i32)
        ensures
            c == tuner_type_code(*self),
    {
        match self {
            TunerType::Unknown => 0,
            TunerType::E4000 => 1,
            TunerType::FC0012 => 2,
            TunerType::FC0013 => 3,
            TunerType::FC2580 => 4,
            TunerType::R820T => 5,
            TunerType::R828D => 6,
        }
    }

    /// The tuner type that a code reported by the driver stands for.
    pub fn from_code(code: i32) -> (t: TunerType)
        ensures
            t == tuner_type_from_code(code),
    {
        match code {
            1 => TunerType::E4000,
            2 => TunerType::FC0012,
            3 => TunerType::FC0013,
            4 => TunerType::FC2580,
            5 => TunerType::R820T,
            6 => TunerType::R828D,
            _ => TunerType::Unknown,
        }
    }
}

impl Sideband {
    /// The code of this sideband.
    pub fn code(&self) -> (c: i32)
        ensures
            c == sideband_code(*self),
    {
        match self {
            Sideband::Lower => 0,
            Sideband::Upper => 1,
        }
    }
}

impl DirectSampling {
    /// The code the driver takes for this mode.
    pub fn code(&self) -> (c: i32)
        ensures
            c == direct_sampling_code(*self),
    {
        match self {
            DirectSampling::Disabled => 0,
            DirectSampling::I => 1,
            DirectSampling::Q => 2,
        }
    }

    /// The mode that a (non-negative) code reported by the driver stands for.
    pub fn from_code(code: i32) -> (m: DirectSampling)
        ensures
            m == direct_sampling_from_code(code),
    {
        match code {
            1 => DirectSampling::I,
            2 => DirectSampling::Q,
            _ => DirectSampling::Disabled,
        }
    }
}

impl DirectSamplingThreshold {
    /// The code of this mode.
    pub fn code(&self) -> (c: u32)
        ensures
            c == direct_sampling_threshold_code(*self),
    {
        match self {
            DirectSamplingThreshold::Disabled => 0,
            DirectSamplingThreshold::I => 1,
            DirectSamplingThreshold::Q => 2,
            DirectSamplingThreshold::IBelow => 3,
            DirectSamplingThreshold::QBelow => 4,
        }
    }
}

/// The integer the driver takes for a switch: 1 for on, 0 for off.
pub fn flag(on: bool) -> (c: i32)
    ensures
        c == flag_code(on),
{
    if on {
        1
    } else {
        0
    }
}

/// Decoding the code of a tuner type gives that tuner type back.
pub proof fn lemma_tuner_type_roundtrip(t: TunerType)
    ensures
        tuner_type_from_code(tuner_type_code(t)) == t,
{
}

/// A direct sampling mode written to the driver reads back as the same mode.
pub proof fn lemma_direct_sampling_roundtrip(m: DirectSampling)
    ensures
        direct_sampling_from_code(direct_sampling_code(m)) == m,
{
}

/// A switch written to the driver reads back in the same position.
pub proof fn lemma_flag_roundtrip(on: bool)
    ensures
        flag_from_code(flag_code(on)) == on,
{
}

/// A code reported by the driver reads as a named tuner only when it is that
/// tuner's code; every other code reads as an unknown tuner.
pub proof fn lemma_tuner_type_decoding(code: i32, t: TunerType)
    ensures
        tuner_type_from_code(code) == t ==> tuner_type_code(t) == code || t == TunerType::Unknown,
        tuner_type_code(t) == code ==> tuner_type_from_code(code) == t,
{
}

/// A code reported by the driver reads as the I or Q branch only when it is
/// that branch's code; every other code reads as disabled.
pub proof fn lemma_direct_sampling_decoding(code: i32, m: DirectSampling)
    ensures
        direct_sampling_from_code(code) == m ==> direct_sampling_code(m) == code || m
            == DirectSampling::Disabled,
        direct_sampling_code(m) == code ==> direct_sampling_from_code(code) == m,
{
}

/// A switch reads as on exactly when the driver reports the code written for
/// on, and a switch written as off reads as off.
pub proof fn lemma_flag_decoding(code: i32)
    ensures
        flag_from_code(code) <==> code == flag_code(true),
        flag_code(true) == 1 && flag_code(false) == 0,
{
}

/// Distinct tuner types have distinct codes, and so do distinct sidebands,
/// direct sampling modes and threshold modes.
pub proof fn lemma_codes_injective(
    t1: TunerType,
    t2: TunerType,
    s1: Sideband,
    s2: Sideband,
    d1: DirectSampling,
    d2: DirectSampling,
    h1: DirectSamplingThreshold,
    h2: DirectSamplingThreshold,
)
    ensures
        tuner_type_code(t1) == tuner_type_code(t2) ==> t1 == t2,
        sideband_code(s1) == sideband_code(s2) ==> s1 == s2,
        direct_sampling_code(d1) == direct_sampling_code(d2) ==> d1 == d2,
        direct_sampling_threshold_code(h1) == direct_sampling_threshold_code(h2) ==> h1 == h2,
{
}

} // verus!
