use vstd::prelude::*;

verus! {

/// Failures of device discovery and of the opened-device set.
#[derive(Debug, Clone)]
pub enum DeviceError {
    NotFound(String),
    ConnectionLost,
    Timeout,
    OpenFailed(String),
    DeviceBusy,
    UnsupportedDevice,
}

/// Failures of the FIDO (CTAP) command layer.
#[derive(Debug, Clone)]
pub enum FidoError {
    CtapError(u8),
    PinInvalid(u8),
    PinLocked,
    PinLengthInvalid,
    NotSupported,
    CommunicationError(String),
    Timeout,
    CborError(String),
}

/// Failures of the HSM (APDU) command layer.
#[derive(Debug, Clone)]
pub enum HsmError {
    StatusError(u8, u8),
    PinInvalid(u8),
    PinLocked,
    SoPinInvalid,
    SoPinLocked,
    PinFormatInvalid,
    SoPinFormatInvalid,
    KeyNotFound(u8),
    CertificateNotFound(u8),
    DkekNotInitialized,
    DeviceNotInitialized,
    CommunicationError(String),
    Timeout,
    NotSupported,
}

/// Failures of CBOR encoding and decoding.
#[derive(Debug, Clone)]
pub enum CborError {
    EncodingError(String),
    DecodingError(String),
    UnexpectedFormat,
}

/// Failures of APDU encoding and decoding.
#[derive(Debug, Clone)]
pub enum ApduError {
    IncompleteResponse(usize),
    EncodingError(String),
    UnexpectedStatus(u8, u8),
}

} // verus!
