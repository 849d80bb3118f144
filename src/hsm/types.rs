use vstd::prelude::*;

verus! {

/// An ISO 7816-4 command APDU.
#[derive(Debug, Clone)]
pub struct ApduCommand {
    pub cla: u8,
    pub ins: u8,
    pub p1: u8,
    pub p2: u8,
    pub data: Option<Vec<u8>>,
    pub le: Option<u16>,
}

/// A decoded response APDU: the data field and the two status bytes.
#[derive(Debug, Clone)]
pub struct ApduResponse {
    pub data: Vec<u8>,
    pub sw1: u8,
    pub sw2: u8,
}

impl ApduCommand {
    /// The data field as bytes; an absent field reads as empty.
    pub open spec fn data_bytes(&self) -> Seq<u8> {
        match self.data {
            Some(d) => d@,
            None => Seq::empty(),
        }
    }

    /// The 16-bit length field of the extended form bounds the data field.
    pub open spec fn wf(&self) -> bool {
        self.data_bytes().len() <= 0xFFFF
    }
}

} // verus!

verus! {

/// Device details of an HSM token.
#[derive(Debug, Clone)]
pub struct HsmDeviceInfo {
    pub firmware_version: String,
    pub serial_number: String,
    pub free_memory: u64,
    pub used_memory: u64,
    pub total_memory: u64,
    pub file_count: u32,
}

/// Algorithm family of a token-resident key.
#[derive(Debug, Clone)]
pub enum HsmKeyType {
    Rsa,
    Ec { curve: String },
    Aes,
}

/// A token-resident key.
#[derive(Debug, Clone)]
pub struct HsmKeyInfo {
    pub key_ref: u8,
    pub id: u8,
    pub label: String,
    pub key_type: HsmKeyType,
    pub key_size: u16,
    pub usage: Vec<String>,
}

/// The namespace of an object to delete.
#[derive(Debug, Clone, Copy, PartialEq, Eq, Structural)]
pub enum KeyObjectType {
    PrivateKey,
    PublicKey,
    SecretKey,
    Certificate,
}

/// A token-resident certificate.
#[derive(Debug, Clone)]
pub struct HsmCertInfo {
    pub id: u8,
    pub subject: String,
    pub issuer: String,
    pub not_before: String,
    pub not_after: String,
    pub key_id: Option<u8>,
}

/// Progress of a DKEK share import.
#[derive(Debug, Clone)]
pub struct DkekStatus {
    pub total_shares: u8,
    pub imported_shares: u8,
    pub remaining_shares: u8,
    pub key_check_value: Option<String>,
}

/// The token's dynamic options.
#[derive(Debug, Clone, Copy, PartialEq, Eq, Structural)]
pub struct HsmOptions {
    pub press_to_confirm: bool,
    pub key_usage_counter: bool,
}

/// One dynamic option.
#[derive(Debug, Clone, Copy, PartialEq, Eq, Structural)]
pub enum HsmOptionType {
    PressToConfirm,
    KeyUsageCounter,
}

/// A wall-clock reading for the token's real-time clock; `weekday` counts from Sunday = 0.
#[derive(Debug, Clone, Copy, PartialEq, Eq, Structural)]
pub struct RtcTime {
    pub year: u16,
    pub month: u8,
    pub day: u8,
    pub weekday: u8,
    pub hour: u8,
    pub minute: u8,
    pub second: u8,
}

} // verus!
