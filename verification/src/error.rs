//! Error codes reported by the driver and the USB layer under it.

use vstd::prelude::*;
use vstd::std_specs::convert::FromSpecImpl;
use vstd::std_specs::convert::TryFromSpecImpl;

verus! {

/// Errors of the USB layer, each with the (negative) code it is reported under.
#[derive(Debug, Copy, Clone, PartialEq, Eq, Structural)]
pub enum LibusbError {
    /// Input/output error
    IoError,
    /// Invalid parameter
    InvalidParam,
    /// Access denied (insufficient permissions)
    AccessDenied,
    /// No such device (it may have been disconnected)
    NoDevice,
    /// Entity not found
    NoEntity,
    /// Resource busy
    Busy,
    /// Operation timed out
    Timeout,
    /// Overflow
    Overflow,
    /// Pipe error
    Pipe,
    /// System call interrupted (perhaps due to signal)
    Interrupted,
    /// Insufficient memory
    InsufficientMemory,
    /// Operation not supported or unimplemented on this platform
    NotSupported,
    /// Other error
    Other,
}

/// General error type for driver operations, which can be either a USB layer
/// error or some other unspecified error code.
#[derive(Debug, Copy, Clone, PartialEq, Eq, Structural)]
pub enum RtlsdrError {
    LibusbError(LibusbError),
    Unspecified(i32),
}

/// The code under which the USB layer reports `e`.
pub open spec fn libusb_code(e: LibusbError) -> i32 {
    match e {
        LibusbError::IoError => -1i32,
        LibusbError::InvalidParam => -2i32,
        LibusbError::AccessDenied => -3i32,
        LibusbError::NoDevice => -4i32,
        LibusbError::NoEntity => -5i32,
        LibusbError::Busy => -6i32,
        LibusbError::Timeout => -7i32,
        LibusbError::Overflow => -8i32,
        LibusbError::Pipe => -9i32,
        LibusbError::Interrupted => -10i32,
        LibusbError::InsufficientMemory => -11i32,
        LibusbError::NotSupported => -12i32,
        LibusbError::Other => -99i32,
    }
}

/// Whether `v` is the code of some USB layer error.
pub open spec fn is_libusb_code(v: i32) -> bool {
    exists|e: LibusbError| libusb_code(e) == v
}

/// The USB layer error reported under `v`, if any.
pub open spec fn libusb_from_code(v: i32) -> Result<LibusbError, i32> {
    if is_libusb_code(v) {
        Ok(choose|e: LibusbError| libusb_code(e) == v)
    } else {
        Err(v)
    }
}

/// The error that a failing status code `v` stands for.
pub open spec fn error_from_code(v: i32) -> RtlsdrError {
    match libusb_from_code(v) {
        Ok(e) => RtlsdrError::LibusbError(e),
        Err(c) => RtlsdrError::Unspecified(c),
    }
}

/// The code carried by an error.
pub open spec fn error_code(e: RtlsdrError) -> i32 {
    match e {
        RtlsdrError::LibusbError(l) => libusb_code(l),
        RtlsdrError::Unspecified(c) => c,
    }
}

/// What a status code returned by the driver means: a negative status is an
/// error, any other status is a success carrying the status itself.
pub open spec fn status_result(ret: i32) -> Result<i32, RtlsdrError> {
    if ret < 0 {
        Err(error_from_code(ret))
    } else {
        Ok(ret)
    }
}

/// [`status_result`] with the successful value dropped.
pub open spec fn status_unit(ret: i32) -> Result<(), RtlsdrError> {
    if ret < 0 {
        Err(error_from_code(ret))
    } else {
        Ok(())
    }
}

impl LibusbError {
    /// The code under which the USB layer reports this error.
    pub fn code(&self) -> (c: i32)
        ensures
            c == libusb_code(*self),
    {
        match self {
            LibusbError::IoError => -1,
            LibusbError::InvalidParam => -2,
            LibusbError::AccessDenied => -3,
            LibusbError::NoDevice => -4,
            LibusbError::NoEntity => -5,
            LibusbError::Busy => -6,
            LibusbError::Timeout => -7,
            LibusbError::Overflow => -8,
            LibusbError::Pipe => -9,
            LibusbError::Interrupted => -10,
            LibusbError::InsufficientMemory => -11,
            LibusbError::NotSupported => -12,
            LibusbError::Other => -99,
        }
    }
}

impl RtlsdrError {
    /// The code carried by this error.
    pub fn code(&self) -> (c: i32)
        ensures
            c == error_code(*self),
    {
        match self {
            RtlsdrError::LibusbError(l) => l.code(),
            RtlsdrError::Unspecified(c) => *c,
        }
    }
}

/// Distinct USB layer errors have distinct codes.
pub proof fn lemma_libusb_code_injective(a: LibusbError, b: LibusbError)
    ensures
        libusb_code(a) == libusb_code(b) ==> a == b,
{
}

/// Reading back the code of a USB layer error gives that error.
pub proof fn lemma_libusb_code_roundtrip(e: LibusbError)
    ensures
        libusb_from_code(libusb_code(e)) == Ok::<LibusbError, i32>(e),
{
    let v = libusb_code(e);
    assert(is_libusb_code(v));
    let c = choose|x: LibusbError| libusb_code(x) == v;
    lemma_libusb_code_injective(c, e);
}

/// An error made from a code carries that code: no code is lost in the
/// conversion.
pub proof fn lemma_error_keeps_code(v: i32)
    ensures
        error_code(error_from_code(v)) == v,
{
    if is_libusb_code(v) {
        let e = choose|e: LibusbError| libusb_code(e) == v;
        assert(libusb_code(e) == v);
    }
}

/// A code makes a USB layer error exactly when the USB layer reports some
/// error under it, and an unspecified error otherwise.
pub proof fn lemma_error_kind(v: i32)
    ensures
        error_from_code(v) is LibusbError <==> is_libusb_code(v),
        error_from_code(v) is Unspecified <==> !is_libusb_code(v),
{
}

/// Making an error from the code of an error gives that error back, for every
/// USB layer error and for every unspecified error whose code the USB layer
/// does not use.
pub proof fn lemma_error_code_roundtrip(e: RtlsdrError)
    requires
        e matches RtlsdrError::Unspecified(c) ==> !is_libusb_code(c),
    ensures
        error_from_code(error_code(e)) == e,
{
    match e {
        RtlsdrError::LibusbError(l) => lemma_libusb_code_roundtrip(l),
        RtlsdrError::Unspecified(_) => {},
    }
}

/// A status is a success exactly when it is not negative, and then it is
/// the value; a failure is the error made from the status, which carries it.
pub proof fn lemma_status_result(ret: i32)
    ensures
        status_result(ret) is Ok <==> ret >= 0,
        status_result(ret) matches Ok(v) ==> v == ret,
        status_result(ret) matches Err(e) ==> error_code(e) == ret && ret < 0,
        status_unit(ret) is Ok <==> ret >= 0,
{
    lemma_error_keeps_code(ret);
}

/// A failing status (any negative one) gives, both as a value and without one,
/// the error that `From<i32>` makes of it; that error carries the status, and
/// it is a USB layer error exactly when the status is a USB layer code.
pub proof fn lemma_failed_status(ret: i32)
    requires
        ret < 0,
    ensures
        status_unit(ret) == Err::<(), RtlsdrError>(error_from_code(ret)),
        status_result(ret) == Err::<i32, RtlsdrError>(error_from_code(ret)),
        status_unit(ret) matches Err(e) && error_code(e) == ret && (e is LibusbError
            <==> is_libusb_code(ret)),
        forall|l: LibusbError|
            libusb_code(l) == ret ==> status_unit(ret) == Err::<(), RtlsdrError>(
                RtlsdrError::LibusbError(l),
            ),
{
    lemma_error_keeps_code(ret);
    assert forall|l: LibusbError| libusb_code(l) == ret implies status_unit(ret) == Err::<
        (),
        RtlsdrError,
    >(RtlsdrError::LibusbError(l)) by {
        lemma_libusb_code_roundtrip(l);
    }
}

impl TryFrom<i32> for LibusbError {
    type Error = i32;

    fn try_from(value: i32) -> (r: Result<Self, Self::Error>) {
        let r = match value {
            -1 => Ok(LibusbError::IoError),
            -2 => Ok(LibusbError::InvalidParam),
            -3 => Ok(LibusbError::AccessDenied),
            -4 => Ok(LibusbError::NoDevice),
            -5 => Ok(LibusbError::NoEntity),
            -6 => Ok(LibusbError::Busy),
            -7 => Ok(LibusbError::Timeout),
            -8 => Ok(LibusbError::Overflow),
            -9 => Ok(LibusbError::Pipe),
            -10 => Ok(LibusbError::Interrupted),
            -11 => Ok(LibusbError::InsufficientMemory),
            -12 => Ok(LibusbError::NotSupported),
            -99 => Ok(LibusbError::Other),
            e => Err(e),
        };
        proof {
            match r {
                Ok(e) => lemma_libusb_code_roundtrip(e),
                Err(_) => {},
            }
        }
        r
    }
}

impl TryFromSpecImpl<i32> for LibusbError {
    open spec fn obeys_try_from_spec() -> bool {
        true
    }

    open spec fn try_from_spec(v: i32) -> Result<Self, Self::Error> {
        libusb_from_code(v)
    }
}

impl From<i32> for RtlsdrError {
    fn from(err: i32) -> (r: Self) {
        match LibusbError::try_from(err) {
            Ok(e) => RtlsdrError::LibusbError(e),
            Err(e) => RtlsdrError::Unspecified(e),
        }
    }
}

impl FromSpecImpl<i32> for RtlsdrError {
    open spec fn obeys_from_spec() -> bool {
        true
    }

    open spec fn from_spec(v: i32) -> Self {
        error_from_code(v)
    }
}

/// Turns a status code returned by the driver into a result: a negative
/// status is the error it stands for, any other status is returned as is.
pub fn rtlsdr_result(ret: i32) -> (r: Result<i32, RtlsdrError>)
    ensures
        r == status_result(ret),
{
    if ret < 0 {
        Err(RtlsdrError::from(ret))
    } else {
        Ok(ret)
    }
}

} // verus!
