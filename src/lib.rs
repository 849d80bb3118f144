//! Protocol core for Pico-FIDO and Pico-HSM security tokens: device
//! identification, the ISO 7816-4 APDU codec with GET RESPONSE chaining, the
//! SC-HSM command layer, and the CTAP/CBOR codec with the FIDO command layer.
//! Text helpers used by the contracts live in `text`.
pub mod device_manager;
pub mod error;
pub mod fido;
pub mod hsm;
pub mod types;
mod bytes;
pub mod text;
