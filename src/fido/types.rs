use vstd::prelude::*;
use std::collections::HashMap;

verus! {

/// Authenticator details, as reported by authenticatorGetInfo.
#[derive(Debug, Clone)]
pub struct FidoDeviceInfo {
    pub versions: Vec<String>,
    pub extensions: Vec<String>,
    pub aaguid: String,
    pub firmware_version: String,
    pub serial_number: Option<String>,
    pub pin_set: bool,
    pub pin_retries: u8,
    pub options: HashMap<String, bool>,
}

/// A discoverable credential.
#[derive(Debug, Clone)]
pub struct FidoCredential {
    pub credential_id: Vec<u8>,
    pub rp_id: String,
    pub rp_name: Option<String>,
    pub user_name: Option<String>,
    pub user_display_name: Option<String>,
    pub creation_time: Option<u64>,
}

/// Time-based or counter-based one-time passwords.
#[derive(Debug, Clone, Copy, PartialEq, Eq, Structural)]
pub enum OathType {
    Totp,
    Hotp,
}

/// A stored OATH credential.
#[derive(Debug, Clone)]
pub struct OathCredential {
    pub id: String,
    pub issuer: Option<String>,
    pub account: String,
    pub oath_type: OathType,
    pub period: Option<u32>,
}

/// What is needed to add an OATH credential.
#[derive(Debug, Clone)]
pub struct OathCredentialParams {
    pub secret: Vec<u8>,
    pub issuer: String,
    pub account: String,
    pub oath_type: OathType,
    pub digits: u8,
    pub period: Option<u32>,
    pub counter: Option<u64>,
}

/// Sub-commands of authenticatorClientPIN.
#[derive(Debug, Clone, Copy, PartialEq, Eq, Structural)]
pub enum ClientPinSubCommand {
    GetRetries,
    GetKeyAgreement,
    SetPin,
    ChangePin,
    GetPinToken,
}

/// Sub-commands of authenticatorCredentialManagement.
#[derive(Debug, Clone, Copy, PartialEq, Eq, Structural)]
pub enum CredMgmtSubCommand {
    GetCredsMetadata,
    EnumerateRPsBegin,
    EnumerateRPsNext,
    EnumerateCredentialsBegin,
    EnumerateCredentialsNext,
    DeleteCredential,
}

/// Sub-commands of authenticatorConfig.
#[derive(Debug, Clone, Copy, PartialEq, Eq, Structural)]
pub enum AuthConfigSubCommand {
    EnableEnterpriseAttestation,
    ToggleAlwaysUv,
    SetMinPinLength,
}

/// A CTAP2 command.
#[derive(Debug, Clone, Copy, PartialEq, Eq, Structural)]
pub enum CtapCommand {
    MakeCredential,
    GetAssertion,
    GetInfo,
    ClientPin(ClientPinSubCommand),
    CredentialManagement(CredMgmtSubCommand),
    AuthenticatorConfig(AuthConfigSubCommand),
    Reset,
    Selection,
}

/// The reply to a ClientPIN command.
#[derive(Debug, Clone)]
pub struct ClientPinResponse {
    pub key_agreement: Option<Vec<u8>>,
    pub pin_token: Option<Vec<u8>>,
    pub retries: Option<u8>,
}

/// The reply to a credential-management command.
#[derive(Debug, Clone)]
pub struct CredMgmtResponse {
    pub credentials: Vec<FidoCredential>,
    pub total_credentials: Option<u32>,
}

/// A decoded CTAP2 reply.
#[derive(Debug, Clone)]
pub enum CtapResponse {
    GetInfo(FidoDeviceInfo),
    ClientPin(ClientPinResponse),
    CredentialManagement(CredMgmtResponse),
    Error(u8),
    Success,
}

impl ClientPinSubCommand {
    /// The variant's name, which is what its CBOR parameter block carries.
    pub open spec fn spec_name(self) -> Seq<char> {
        match self {
            ClientPinSubCommand::GetRetries => "GetRetries"@,
            ClientPinSubCommand::GetKeyAgreement => "GetKeyAgreement"@,
            ClientPinSubCommand::SetPin => "SetPin"@,
            ClientPinSubCommand::ChangePin => "ChangePin"@,
            ClientPinSubCommand::GetPinToken => "GetPinToken"@,
        }
    }

    pub fn name(&self) -> (r: &'static str)
        ensures
            r@ == self.spec_name(),
    {
        match self {
            ClientPinSubCommand::GetRetries => "GetRetries",
            ClientPinSubCommand::GetKeyAgreement => "GetKeyAgreement",
            ClientPinSubCommand::SetPin => "SetPin",
            ClientPinSubCommand::ChangePin => "ChangePin",
            ClientPinSubCommand::GetPinToken => "GetPinToken",
        }
    }
}

impl CredMgmtSubCommand {
    /// The variant's name, which is what its CBOR parameter block carries.
    pub open spec fn spec_name(self) -> Seq<char> {
        match self {
            CredMgmtSubCommand::GetCredsMetadata => "GetCredsMetadata"@,
            CredMgmtSubCommand::EnumerateRPsBegin => "EnumerateRPsBegin"@,
            CredMgmtSubCommand::EnumerateRPsNext => "EnumerateRPsNext"@,
            CredMgmtSubCommand::EnumerateCredentialsBegin => "EnumerateCredentialsBegin"@,
            CredMgmtSubCommand::EnumerateCredentialsNext => "EnumerateCredentialsNext"@,
            CredMgmtSubCommand::DeleteCredential => "DeleteCredential"@,
        }
    }

    pub fn name(&self) -> (r: &'static str)
        ensures
            r@ == self.spec_name(),
    {
        match self {
            CredMgmtSubCommand::GetCredsMetadata => "GetCredsMetadata",
            CredMgmtSubCommand::EnumerateRPsBegin => "EnumerateRPsBegin",
            CredMgmtSubCommand::EnumerateRPsNext => "EnumerateRPsNext",
            CredMgmtSubCommand::EnumerateCredentialsBegin => "EnumerateCredentialsBegin",
            CredMgmtSubCommand::EnumerateCredentialsNext => "EnumerateCredentialsNext",
            CredMgmtSubCommand::DeleteCredential => "DeleteCredential",
        }
    }
}

impl AuthConfigSubCommand {
    /// The variant's name, which is what its CBOR parameter block carries.
    pub open spec fn spec_name(self) -> Seq<char> {
        match self {
            AuthConfigSubCommand::EnableEnterpriseAttestation => "EnableEnterpriseAttestation"@,
            AuthConfigSubCommand::ToggleAlwaysUv => "ToggleAlwaysUv"@,
            AuthConfigSubCommand::SetMinPinLength => "SetMinPinLength"@,
        }
    }

    pub fn name(&self) -> (r: &'static str)
        ensures
            r@ == self.spec_name(),
    {
        match self {
            AuthConfigSubCommand::EnableEnterpriseAttestation => "EnableEnterpriseAttestation",
            AuthConfigSubCommand::ToggleAlwaysUv => "ToggleAlwaysUv",
            AuthConfigSubCommand::SetMinPinLength => "SetMinPinLength",
        }
    }
}

} // verus!
