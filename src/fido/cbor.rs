use vstd::prelude::*;
use vstd::string::*;
use vstd::utf8::encode_utf8;
use crate::error::{CborError, FidoError};
use crate::fido::types::{CtapCommand, CtapResponse};
use crate::text::with_hex_byte;

verus! {

#[verifier::external_type_specification]
#[verifier::external_body]
pub struct ExCborError(serde_cbor::Error);

/// The head of a CBOR data item of major type `major` with argument `n`
/// (RFC 8949, section 3): the argument in the low five bits up to 23,
/// otherwise in 1, 2, 4 or 8 big-endian bytes after the first.
pub open spec fn spec_cbor_head(major: u8, n: nat) -> Seq<u8> {
    if n <= 23 {
        seq![(major * 32 + n) as u8]
    } else if n <= 0xFF {
        seq![(major * 32 + 24) as u8, n as u8]
    } else if n <= 0xFFFF {
        seq![(major * 32 + 25) as u8, (n / 0x100) as u8, (n % 0x100) as u8]
    } else if n <= 0xFFFF_FFFF {
        seq![
            (major * 32 + 26) as u8,
            (n / 0x100_0000) as u8,
            ((n / 0x1_0000) % 0x100) as u8,
            ((n / 0x100) % 0x100) as u8,
            (n % 0x100) as u8,
        ]
    } else {
        seq![
            (major * 32 + 27) as u8,
            ((n / 0x100_0000_0000_0000) % 0x100) as u8,
            ((n / 0x1_0000_0000_0000) % 0x100) as u8,
            ((n / 0x100_0000_0000) % 0x100) as u8,
            ((n / 0x1_0000_0000) % 0x100) as u8,
            ((n / 0x100_0000) % 0x100) as u8,
            ((n / 0x1_0000) % 0x100) as u8,
            ((n / 0x100) % 0x100) as u8,
            (n % 0x100) as u8,
        ]
    }
}

/// A CBOR text string (major type 3) holding these UTF-8 bytes.
pub open spec fn spec_cbor_text(utf8: Seq<u8>) -> Seq<u8> {
    spec_cbor_head(3, utf8.len()) + utf8
}

/// Whether the bytes hold exactly one well-formed CBOR data item.
pub uninterp spec fn spec_is_cbor_item(bytes: Seq<u8>) -> bool;

/// Relies on `serde_cbor::to_vec` applied to a string: it writes the head of
/// a text string for the UTF-8 length, then the bytes, into a `Vec`, which
/// cannot fail.
#[verifier::external_body]
fn cbor_text(s: &str) -> (r: Result<Vec<u8>, serde_cbor::Error>)
    ensures
        r is Ok && r->Ok_0@ == spec_cbor_text(s.spec_bytes()),
{
    serde_cbor::to_vec(&s)
}

/// Relies on `serde_cbor::from_slice` into `serde_cbor::Value`: it succeeds
/// when the bytes hold one well-formed data item and nothing after it.
#[verifier::external_body]
fn check_cbor_item(bytes: &[u8]) -> (r: Result<(), serde_cbor::Error>)
    ensures
        r is Ok == spec_is_cbor_item(bytes@),
{
    serde_cbor::from_slice::<serde_cbor::Value>(bytes).map(|_item| ())
}

/// Relies on the `Display` of `serde_cbor::Error`, for the text an error carries.
#[verifier::external_body]
fn cbor_error_text(e: &serde_cbor::Error) -> String {
    e.to_string()
}

/// The CTAP2 command byte.
pub open spec fn spec_command_byte(cmd: CtapCommand) -> u8 {
    match cmd {
        CtapCommand::MakeCredential => 0x01,
        CtapCommand::GetAssertion => 0x02,
        CtapCommand::GetInfo => 0x04,
        CtapCommand::ClientPin(_) => 0x06,
        CtapCommand::Reset => 0x07,
        CtapCommand::CredentialManagement(_) => 0x0A,
        CtapCommand::Selection => 0x0B,
        CtapCommand::AuthenticatorConfig(_) => 0x0D,
    }
}

/// The sub-command name that a command's CBOR parameter block carries, if any.
pub open spec fn spec_parameter_name(cmd: CtapCommand) -> Option<Seq<char>> {
    match cmd {
        CtapCommand::ClientPin(sub) => Some(sub.spec_name()),
        CtapCommand::CredentialManagement(sub) => Some(sub.spec_name()),
        CtapCommand::AuthenticatorConfig(sub) => Some(sub.spec_name()),
        _ => None,
    }
}

/// The command byte, then the CBOR parameter block when there is one.
pub open spec fn spec_encode_ctap(cmd: CtapCommand) -> Seq<u8> {
    seq![spec_command_byte(cmd)] + match spec_parameter_name(cmd) {
        Some(name) => spec_cbor_text(encode_utf8(name)),
        None => Seq::empty(),
    }
}

/// The CTAP status-code table.
pub open spec fn spec_ctap_error(code: u8) -> FidoError {
    if code == 0x31 || code == 0x36 {
        FidoError::PinInvalid(0)
    } else if code == 0x32 {
        FidoError::PinLocked
    } else if code == 0x33 {
        FidoError::PinLengthInvalid
    } else {
        FidoError::CtapError(code)
    }
}

/// Framing of CTAP2 commands and replies.
pub trait CborCodec {
    /// The command byte followed by the CBOR parameter block of a sub-command.
    fn encode_ctap_command(&self, cmd: &CtapCommand) -> (r: Result<Vec<u8>, CborError>)
        ensures
            r is Ok,
            r->Ok_0@ == spec_encode_ctap(*cmd),
            spec_parameter_name(*cmd) is Some ==> r->Ok_0@.len() > 1,
    ;

    /// A status byte, then an optional CBOR payload that must be well formed.
    fn decode_ctap_response(&self, data: &[u8]) -> (r: Result<CtapResponse, CborError>)
        ensures
            data@.len() == 0 ==> r is Err && r->Err_0 is DecodingError,
            data@.len() >= 1 && data@[0] != 0 ==> r is Err && r->Err_0 is DecodingError,
            data@.len() == 1 && data@[0] == 0 ==> r is Ok && r->Ok_0 is Success,
            data@.len() > 1 && data@[0] == 0 ==> if spec_is_cbor_item(
                data@.subrange(1, data@.len() as int),
            ) {
                r is Ok && r->Ok_0 is Success
            } else {
                r is Err && r->Err_0 is DecodingError
            },
    ;
}

/// The codec used by the FIDO command layer.
pub struct CborCodecImpl;

impl CborCodecImpl {
    pub fn new() -> (r: Self)
        ensures
            r == CborCodecImpl,
    {
        CborCodecImpl
    }
}

impl Default for CborCodecImpl {
    fn default() -> (r: Self)
        ensures
            r == CborCodecImpl,
    {
        CborCodecImpl::new()
    }
}

impl CborCodec for CborCodecImpl {
    fn encode_ctap_command(&self, cmd: &CtapCommand) -> (r: Result<Vec<u8>, CborError>) {
        let (cmd_byte, name): (u8, Option<&str>) = match cmd {
            CtapCommand::GetInfo => (0x04, None),
            CtapCommand::MakeCredential => (0x01, None),
            CtapCommand::GetAssertion => (0x02, None),
            CtapCommand::Reset => (0x07, None),
            CtapCommand::Selection => (0x0B, None),
            CtapCommand::ClientPin(sub) => (0x06, Some(sub.name())),
            CtapCommand::CredentialManagement(sub) => (0x0A, Some(sub.name())),
            CtapCommand::AuthenticatorConfig(sub) => (0x0D, Some(sub.name())),
        };
        let mut buf: Vec<u8> = Vec::new();
        buf.push(cmd_byte);
        if let Some(name) = name {
            let params = match cbor_text(name) {
                Ok(bytes) => bytes,
                Err(e) => {
                    return Err(CborError::EncodingError(cbor_error_text(&e)));
                },
            };
            crate::bytes::append_bytes(&mut buf, params.as_slice());
        }
        proof {
            assert(buf@ =~= spec_encode_ctap(*cmd));
        }
        Ok(buf)
    }

    fn decode_ctap_response(&self, data: &[u8]) -> (r: Result<CtapResponse, CborError>) {
        if data.len() == 0 {
            return Err(CborError::DecodingError(String::from_str("empty CTAP response")));
        }
        let status = data[0];
        if status != 0x00 {
            return Err(CborError::DecodingError(with_hex_byte("CTAP error code 0x", status)));
        }
        if data.len() == 1 {
            return Ok(CtapResponse::Success);
        }
        let payload = crate::bytes::copy_range(data, 1, data.len());
        match check_cbor_item(payload.as_slice()) {
            Ok(()) => Ok(CtapResponse::Success),
            Err(e) => Err(CborError::DecodingError(cbor_error_text(&e))),
        }
    }
}

/// The FIDO error a CTAP status code stands for.
pub fn ctap_error_to_fido_error(code: u8) -> (r: FidoError)
    ensures
        r == spec_ctap_error(code),
{
    if code == 0x31 || code == 0x36 {
        FidoError::PinInvalid(0)
    } else if code == 0x32 {
        FidoError::PinLocked
    } else if code == 0x33 {
        FidoError::PinLengthInvalid
    } else {
        FidoError::CtapError(code)
    }
}

/// The text a codec error carries.
pub fn cbor_error_message(e: CborError) -> (r: String) {
    match e {
        CborError::EncodingError(m) => m,
        CborError::DecodingError(m) => m,
        CborError::UnexpectedFormat => String::from_str("unexpected CBOR data format"),
    }
}

/// A CTAP reply as the FIDO layer sees it: a non-zero status goes through the
/// status-code table; otherwise the reply is decoded, and a malformed one is
/// a CBOR error.
pub fn interpret_ctap_response(data: &[u8]) -> (r: Result<CtapResponse, FidoError>)
    ensures
        data@.len() == 0 ==> r is Err && r->Err_0 is CborError,
        data@.len() >= 1 && data@[0] != 0 ==> r == Err::<CtapResponse, FidoError>(
            spec_ctap_error(data@[0]),
        ),
        data@.len() == 1 && data@[0] == 0 ==> r is Ok && r->Ok_0 is Success,
        data@.len() > 1 && data@[0] == 0 ==> if spec_is_cbor_item(
            data@.subrange(1, data@.len() as int),
        ) {
            r is Ok && r->Ok_0 is Success
        } else {
            r is Err && r->Err_0 is CborError
        },
{
    if data.len() >= 1 && data[0] != 0x00 {
        return Err(ctap_error_to_fido_error(data[0]));
    }
    let codec = CborCodecImpl::new();
    match codec.decode_ctap_response(data) {
        Ok(resp) => Ok(resp),
        Err(e) => Err(FidoError::CborError(cbor_error_message(e))),
    }
}

} // verus!
