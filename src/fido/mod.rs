pub mod cbor;
pub mod types;

use vstd::prelude::*;
use vstd::string::*;
use crate::error::FidoError;
use crate::fido::cbor::{
    cbor_error_message, ctap_error_to_fido_error, interpret_ctap_response, CborCodec,
    CborCodecImpl,
};
use crate::fido::types::{
    AuthConfigSubCommand, ClientPinSubCommand, CredMgmtSubCommand, CtapCommand, CtapResponse,
    FidoCredential, FidoDeviceInfo, OathCredential, OathCredentialParams,
};
use crate::text::decimal;
use crate::types::LedConfig;

verus! {

/// A FIDO PIN is 4 to 63 bytes long in UTF-8, whatever its character count.
pub open spec fn spec_fido_pin_ok(pin: &str) -> bool {
    4 <= pin.spec_bytes().len() <= 63
}

/// The characters that `char::is_whitespace` accepts (Unicode White_Space).
pub open spec fn spec_is_white_space(c: char) -> bool {
    ('\u{9}' <= c && c <= '\u{d}') || c == ' ' || c == '\u{85}' || c == '\u{a0}' || c == '\u{1680}'
        || ('\u{2000}' <= c && c <= '\u{200a}') || c == '\u{2028}' || c == '\u{2029}' || c
        == '\u{202f}' || c == '\u{205f}' || c == '\u{3000}'
}

/// A word with no character but white space.
pub open spec fn spec_is_blank(w: Seq<char>) -> bool {
    forall|i: int| 0 <= i < w.len() ==> #[trigger] spec_is_white_space(w[i])
}

/// `r` is a communication error carrying the text `m`.
pub open spec fn spec_communication_error<T>(r: Result<T, FidoError>, m: Seq<char>) -> bool {
    r is Err && r->Err_0 is CommunicationError && r->Err_0->CommunicationError_0@ == m
}

/// The text of the transport boundary for the device at `path`: none is
/// bound, or CTAPHID framing is not implemented for it.
pub open spec fn spec_boundary_text(path: Seq<char>) -> Seq<char> {
    if path.len() == 0 {
        "no device selected: choose a Pico-FIDO device first"@
    } else {
        "CTAP HID communication is not implemented (device: "@ + path + ")"@
    }
}

/// The failure every exchange with the device at `path` ends in while the
/// CTAPHID transport is absent.
pub open spec fn spec_at_boundary<T>(path: Seq<char>, r: Result<T, FidoError>) -> bool {
    spec_communication_error(r, spec_boundary_text(path))
}

/// The first blank word, if any.
pub open spec fn spec_first_blank(words: Seq<String>, k: int) -> bool {
    0 <= k < words.len() && spec_is_blank(words[k]@) && forall|j: int|
        0 <= j < k ==> !#[trigger] spec_is_blank(words[j]@)
}

/// Operations of a FIDO2 authenticator. Input is validated first; an
/// exchange with the device then ends at the CTAPHID transport, which is not
/// implemented, with a communication error.
pub trait FidoModule {
    /// The HID path of the bound device; empty when none is.
    spec fn bound_device(&self) -> Seq<char>;

    fn get_pin_retries(&self) -> (r: Result<u8, FidoError>)
        ensures
            spec_at_boundary(self.bound_device(), r),
    ;

    fn set_pin(&self, new_pin: &str) -> (r: Result<(), FidoError>)
        ensures
            !spec_fido_pin_ok(new_pin) ==> r == Err::<(), FidoError>(FidoError::PinLengthInvalid),
            spec_fido_pin_ok(new_pin) ==> spec_at_boundary(self.bound_device(), r),
    ;

    fn change_pin(&self, old_pin: &str, new_pin: &str) -> (r: Result<(), FidoError>)
        ensures
            !(spec_fido_pin_ok(old_pin) && spec_fido_pin_ok(new_pin)) ==> r == Err::<(), FidoError>(
                FidoError::PinLengthInvalid,
            ),
            spec_fido_pin_ok(old_pin) && spec_fido_pin_ok(new_pin) ==> spec_at_boundary(self.bound_device(), r),
    ;

    fn list_credentials(&self, pin: &str) -> (r: Result<Vec<FidoCredential>, FidoError>)
        ensures
            !spec_fido_pin_ok(pin) ==> r == Err::<Vec<FidoCredential>, FidoError>(
                FidoError::PinLengthInvalid,
            ),
            spec_fido_pin_ok(pin) ==> spec_at_boundary(self.bound_device(), r),
    ;

    fn delete_credential(&self, pin: &str, credential_id: &[u8]) -> (r: Result<(), FidoError>)
        ensures
            !spec_fido_pin_ok(pin) ==> r == Err::<(), FidoError>(FidoError::PinLengthInvalid),
            spec_fido_pin_ok(pin) && credential_id@.len() == 0 ==> spec_communication_error(
                r,
                "credential id must not be empty"@,
            ),
            spec_fido_pin_ok(pin) && credential_id@.len() > 0 ==> spec_at_boundary(
                self.bound_device(),
                r,
            ),
    ;

    fn get_info(&self) -> (r: Result<FidoDeviceInfo, FidoError>)
        ensures
            spec_at_boundary(self.bound_device(), r),
    ;

    fn set_min_pin_length(&self, pin: &str, length: u8) -> (r: Result<(), FidoError>)
        ensures
            !(spec_fido_pin_ok(pin) && 4 <= length <= 63) ==> r == Err::<(), FidoError>(
                FidoError::PinLengthInvalid,
            ),
            spec_fido_pin_ok(pin) && 4 <= length <= 63 ==> spec_at_boundary(self.bound_device(), r),
    ;

    fn toggle_enterprise_attestation(&self, pin: &str, enable: bool) -> (r: Result<(), FidoError>)
        ensures
            !spec_fido_pin_ok(pin) ==> r == Err::<(), FidoError>(FidoError::PinLengthInvalid),
            spec_fido_pin_ok(pin) ==> spec_at_boundary(self.bound_device(), r),
    ;

    fn list_oath_credentials(&self) -> (r: Result<Vec<OathCredential>, FidoError>)
        ensures
            spec_at_boundary(self.bound_device(), r),
    ;

    fn add_oath_credential(&self, credential: &OathCredentialParams) -> (r: Result<(), FidoError>)
        ensures
            credential.secret@.len() == 0 ==> spec_communication_error(
                r,
                "OATH secret must not be empty"@,
            ),
            credential.secret@.len() > 0 && credential.account@.len() == 0
                ==> spec_communication_error(r, "OATH account must not be empty"@),
            credential.secret@.len() > 0 && credential.account@.len() > 0 && !(credential.digits
                == 6 || credential.digits == 8) ==> spec_communication_error(
                r,
                "OTP digits must be 6 or 8"@,
            ),
            credential.secret@.len() > 0 && credential.account@.len() > 0 && (credential.digits
                == 6 || credential.digits == 8) ==> spec_at_boundary(self.bound_device(), r),
    ;

    fn calculate_oath(&self, credential_id: &str) -> (r: Result<String, FidoError>)
        ensures
            credential_id@.len() == 0 ==> spec_communication_error(
                r,
                "OATH credential id must not be empty"@,
            ),
            credential_id@.len() > 0 ==> spec_at_boundary(self.bound_device(), r),
    ;

    fn delete_oath_credential(&self, credential_id: &str) -> (r: Result<(), FidoError>)
        ensures
            credential_id@.len() == 0 ==> spec_communication_error(
                r,
                "OATH credential id must not be empty"@,
            ),
            credential_id@.len() > 0 ==> spec_at_boundary(self.bound_device(), r),
    ;

    fn get_backup_words(&self, pin: &str) -> (r: Result<Vec<String>, FidoError>)
        ensures
            !spec_fido_pin_ok(pin) ==> r == Err::<Vec<String>, FidoError>(
                FidoError::PinLengthInvalid,
            ),
            spec_fido_pin_ok(pin) ==> spec_at_boundary(self.bound_device(), r),
    ;

    fn restore_from_words(&self, pin: &str, words: &[String]) -> (r: Result<(), FidoError>)
        ensures
            !spec_fido_pin_ok(pin) ==> r == Err::<(), FidoError>(FidoError::PinLengthInvalid),
            spec_fido_pin_ok(pin) && words@.len() != 24 ==> spec_communication_error(
                r,
                "exactly 24 recovery words are needed"@,
            ),
            forall|k: int|
                spec_fido_pin_ok(pin) && words@.len() == 24 && #[trigger] spec_first_blank(words@, k)
                    ==> spec_communication_error(
                    r,
                    "blank recovery word at position "@ + decimal((k + 1) as nat),
                ),
            spec_fido_pin_ok(pin) && words@.len() == 24 && (forall|k: int|
                0 <= k < 24 ==> !#[trigger] spec_is_blank(words@[k]@)) ==> spec_at_boundary(
                self.bound_device(),
                r,
            ),
    ;

    fn reset_device(&self) -> (r: Result<(), FidoError>)
        ensures
            spec_at_boundary(self.bound_device(), r),
    ;

    fn set_led_config(&self, config: &LedConfig) -> (r: Result<(), FidoError>)
        ensures
            spec_at_boundary(self.bound_device(), r),
    ;
}

/// The FIDO command layer, bound to one HID device path.
pub struct FidoModuleImpl {
    device_path: String,
}

fn is_white_space(c: char) -> (r: bool)
    ensures
        r == spec_is_white_space(c),
{
    ('\u{9}' <= c && c <= '\u{d}') || c == ' ' || c == '\u{85}' || c == '\u{a0}' || c == '\u{1680}'
        || ('\u{2000}' <= c && c <= '\u{200a}') || c == '\u{2028}' || c == '\u{2029}' || c
        == '\u{202f}' || c == '\u{205f}' || c == '\u{3000}'
}

/// Whether `word` holds nothing but white space (as `trim().is_empty()` tells).
pub fn is_blank(word: &str) -> (r: bool)
    ensures
        r == spec_is_blank(word@),
{
    let n: usize = word.unicode_len();
    let mut i: usize = 0;
    while i < n
        invariant
            n == word@.len(),
            i <= n,
            forall|j: int| 0 <= j < i ==> #[trigger] spec_is_white_space(word@[j]),
        decreases n - i,
    {
        if !is_white_space(word.get_char(i)) {
            return false;
        }
        i = i + 1;
    }
    true
}

/// The failure for a reply of a kind the operation does not expect.
fn unexpected_reply<T>() -> (r: Result<T, FidoError>)
    ensures
        r is Err,
{
    Err(FidoError::CommunicationError(String::from_str("unexpected response format")))
}

/// The outcome of an operation that expects a bare success.
fn expect_success(response: CtapResponse) -> (r: Result<(), FidoError>) {
    match response {
        CtapResponse::Success => Ok(()),
        CtapResponse::Error(code) => Err(ctap_error_to_fido_error(code)),
        _ => unexpected_reply(),
    }
}

impl FidoModuleImpl {
    /// The bound HID device path; empty when none is bound.
    pub closed spec fn device_path_view(&self) -> Seq<char> {
        self.device_path@
    }

    pub fn new(device_path: String) -> (r: Self)
        ensures
            r.device_path_view() == device_path@,
    {
        FidoModuleImpl { device_path }
    }

    /// Binds the module to the HID device at `path`.
    pub fn set_device_path(&mut self, path: &str)
        ensures
            final(self).device_path_view() == path@,
    {
        self.device_path = String::from_str(path);
    }

    /// The bound HID device path.
    pub fn device_path(&self) -> (r: &str)
        ensures
            r@ == self.device_path_view(),
    {
        self.device_path.as_str()
    }

    /// A PIN must be 4 to 63 bytes long.
    pub fn validate_pin(pin: &str) -> (r: Result<(), FidoError>)
        ensures
            spec_fido_pin_ok(pin) ==> r is Ok,
            !spec_fido_pin_ok(pin) ==> r == Err::<(), FidoError>(FidoError::PinLengthInvalid),
    {
        let len: usize = pin.as_bytes().len();
        if len < 4 || len > 63 {
            return Err(FidoError::PinLengthInvalid);
        }
        Ok(())
    }

    /// The CTAPHID transport boundary. Device framing is not implemented, so
    /// every exchange ends here with a communication error that names the
    /// device, or says that none is bound.
    fn send_ctap_command(&self, _data: &[u8]) -> (r: Result<Vec<u8>, FidoError>)
        ensures
            spec_at_boundary(self.device_path_view(), r),
    {
        if self.device_path.as_str().is_empty() {
            return Err(
                FidoError::CommunicationError(
                    String::from_str("no device selected: choose a Pico-FIDO device first"),
                ),
            );
        }
        let mut message = String::from_str("CTAP HID communication is not implemented (device: ");
        message.append(self.device_path.as_str());
        message.append(")");
        Err(FidoError::CommunicationError(message))
    }

    /// Encodes `cmd`, sends it and interprets the reply.
    fn exchange(&self, cmd: CtapCommand) -> (r: Result<CtapResponse, FidoError>)
        ensures
            spec_at_boundary(self.device_path_view(), r),
    {
        let codec = CborCodecImpl::new();
        let encoded = match codec.encode_ctap_command(&cmd) {
            Ok(bytes) => bytes,
            Err(e) => {
                return Err(FidoError::CborError(cbor_error_message(e)));
            },
        };
        let response_bytes = self.send_ctap_command(encoded.as_slice())?;
        interpret_ctap_response(response_bytes.as_slice())
    }
}

impl FidoModule for FidoModuleImpl {
    open spec fn bound_device(&self) -> Seq<char> {
        self.device_path_view()
    }

    fn get_pin_retries(&self) -> (r: Result<u8, FidoError>) {
        let response = self.exchange(CtapCommand::ClientPin(ClientPinSubCommand::GetRetries))?;
        match response {
            CtapResponse::ClientPin(pin_resp) => match pin_resp.retries {
                Some(retries) => Ok(retries),
                None => Err(
                    FidoError::CommunicationError(String::from_str("response lacks the retry count")),
                ),
            },
            CtapResponse::Error(code) => Err(ctap_error_to_fido_error(code)),
            _ => unexpected_reply(),
        }
    }

    fn set_pin(&self, new_pin: &str) -> (r: Result<(), FidoError>) {
        Self::validate_pin(new_pin)?;
        let response = self.exchange(CtapCommand::ClientPin(ClientPinSubCommand::SetPin))?;
        expect_success(response)
    }

    fn change_pin(&self, old_pin: &str, new_pin: &str) -> (r: Result<(), FidoError>) {
        Self::validate_pin(old_pin)?;
        Self::validate_pin(new_pin)?;
        let response = self.exchange(CtapCommand::ClientPin(ClientPinSubCommand::ChangePin))?;
        expect_success(response)
    }

    fn list_credentials(&self, pin: &str) -> (r: Result<Vec<FidoCredential>, FidoError>) {
        Self::validate_pin(pin)?;
        let response = self.exchange(
            CtapCommand::CredentialManagement(CredMgmtSubCommand::EnumerateRPsBegin),
        )?;
        match response {
            CtapResponse::CredentialManagement(cred_resp) => Ok(cred_resp.credentials),
            CtapResponse::Error(code) => Err(ctap_error_to_fido_error(code)),
            _ => unexpected_reply(),
        }
    }

    fn delete_credential(&self, pin: &str, credential_id: &[u8]) -> (r: Result<(), FidoError>) {
        Self::validate_pin(pin)?;
        if credential_id.len() == 0 {
            return Err(
                FidoError::CommunicationError(String::from_str("credential id must not be empty")),
            );
        }
        let response = self.exchange(
            CtapCommand::CredentialManagement(CredMgmtSubCommand::DeleteCredential),
        )?;
        expect_success(response)
    }

    fn get_info(&self) -> (r: Result<FidoDeviceInfo, FidoError>) {
        let response = self.exchange(CtapCommand::GetInfo)?;
        match response {
            CtapResponse::GetInfo(info) => Ok(info),
            CtapResponse::Error(code) => Err(ctap_error_to_fido_error(code)),
            _ => unexpected_reply(),
        }
    }

    fn set_min_pin_length(&self, pin: &str, length: u8) -> (r: Result<(), FidoError>) {
        Self::validate_pin(pin)?;
        if length < 4 || length > 63 {
            return Err(FidoError::PinLengthInvalid);
        }
        let response = self.exchange(
            CtapCommand::AuthenticatorConfig(AuthConfigSubCommand::SetMinPinLength),
        )?;
        expect_success(response)
    }

    fn toggle_enterprise_attestation(&self, pin: &str, _enable: bool) -> (r: Result<(), FidoError>) {
        Self::validate_pin(pin)?;
        let response = self.exchange(
            CtapCommand::AuthenticatorConfig(AuthConfigSubCommand::EnableEnterpriseAttestation),
        )?;
        expect_success(response)
    }

    fn list_oath_credentials(&self) -> (r: Result<Vec<OathCredential>, FidoError>) {
        let _response = self.exchange(CtapCommand::Selection)?;
        Ok(Vec::new())
    }

    fn add_oath_credential(&self, credential: &OathCredentialParams) -> (r: Result<(), FidoError>) {
        if credential.secret.len() == 0 {
            return Err(FidoError::CommunicationError(String::from_str("OATH secret must not be empty")));
        }
        if credential.account.as_str().is_empty() {
            return Err(FidoError::CommunicationError(String::from_str("OATH account must not be empty")));
        }
        if credential.digits != 6 && credential.digits != 8 {
            return Err(FidoError::CommunicationError(String::from_str("OTP digits must be 6 or 8")));
        }
        let response = self.exchange(CtapCommand::Selection)?;
        expect_success(response)
    }

    fn calculate_oath(&self, credential_id: &str) -> (r: Result<String, FidoError>) {
        if credential_id.is_empty() {
            return Err(
                FidoError::CommunicationError(String::from_str("OATH credential id must not be empty")),
            );
        }
        let _response = self.exchange(CtapCommand::Selection)?;
        Ok(String::new())
    }

    fn delete_oath_credential(&self, credential_id: &str) -> (r: Result<(), FidoError>) {
        if credential_id.is_empty() {
            return Err(
                FidoError::CommunicationError(String::from_str("OATH credential id must not be empty")),
            );
        }
        let response = self.exchange(CtapCommand::Selection)?;
        expect_success(response)
    }

    fn get_backup_words(&self, pin: &str) -> (r: Result<Vec<String>, FidoError>) {
        Self::validate_pin(pin)?;
        let _response = self.exchange(CtapCommand::Selection)?;
        Ok(Vec::new())
    }

    fn restore_from_words(&self, pin: &str, words: &[String]) -> (r: Result<(), FidoError>) {
        Self::validate_pin(pin)?;
        if words.len() != 24 {
            return Err(
                FidoError::CommunicationError(String::from_str("exactly 24 recovery words are needed")),
            );
        }
        let mut i: usize = 0;
        while i < 24
            invariant
                spec_fido_pin_ok(pin),
                words@.len() == 24,
                i <= 24,
                forall|j: int| 0 <= j < i ==> !#[trigger] spec_is_blank(words@[j]@),
            decreases 24 - i,
        {
            if is_blank(words[i].as_str()) {
                assert(spec_first_blank(words@, i as int));
                return Err(
                    FidoError::CommunicationError(
                        crate::text::numbered("blank recovery word at position ", (i + 1) as u8),
                    ),
                );
            }
            i = i + 1;
        }
        let response = self.exchange(CtapCommand::Selection)?;
        expect_success(response)
    }

    fn reset_device(&self) -> (r: Result<(), FidoError>) {
        let response = self.exchange(CtapCommand::Reset)?;
        expect_success(response)
    }

    fn set_led_config(&self, _config: &LedConfig) -> (r: Result<(), FidoError>) {
        let response = self.exchange(
            CtapCommand::AuthenticatorConfig(AuthConfigSubCommand::SetMinPinLength),
        )?;
        expect_success(response)
    }
}

} // verus!
