pub mod apdu;
pub mod clock;
pub mod commands;
pub mod exchange;
pub mod parse;
pub mod types;

use vstd::prelude::*;
use vstd::string::*;
use crate::error::HsmError;
use crate::hsm::apdu::{ApduCodec, ApduCodecImpl};
use crate::hsm::commands::{
    change_reference_command, datetime_command, delete_file_command, dkek_export_command,
    dkek_import_command, ec_curve_bits, generate_aes_command, generate_ec_command,
    generate_rsa_command, hex_to_bytes, initialize_command, is_hex_char, read_command,
    reset_retry_counter_command, select_applet_command, spec_aes_bits_ok, spec_ec_curve_bits,
    spec_is_hex_char, spec_pin_format_ok, spec_rsa_bits_ok, spec_so_pin_format_ok,
    verify_pin_command, write_command,
};
use crate::hsm::exchange::{response_outcome, spec_device_error, transmit_raw, CardChannel};
use crate::hsm::parse::{
    find_version_tag, options_byte, parse_certificate_list, parse_init_version, parse_key_list,
    parse_memory_stats, parse_options, spec_cert_listing, spec_is_cert_listing,
    spec_device_info, spec_is_device_report, spec_is_key_listing, spec_key_listing, spec_reply_bytes,
    spec_select_version, spec_select_version_text,
    spec_version_tag_at,
};
use crate::hsm::types::{
    ApduCommand, DkekStatus, HsmCertInfo, HsmDeviceInfo, HsmKeyInfo, HsmKeyType, HsmOptionType,
    HsmOptions, KeyObjectType, RtcTime,
};
use crate::text::{
    decimal, hex_dump, hex_pair, push_decimal_usize, push_hex_byte, push_hex_dump, unknown_string,
    version_string,
};
use crate::types::LedConfig;

verus! {

/// The SC-HSM application identifier.
pub const SC_HSM_AID: [u8; 11] = [0xE8, 0x2B, 0x06, 0x01, 0x04, 0x01, 0x81, 0xC3, 0x1F, 0x02, 0x01];

/// Operations of an SC-HSM token. Each runs over `card`, connecting to the
/// bound reader and selecting the application afresh; input that fails local
/// validation is rejected before `card` is touched. Once input passes, any
/// error comes from the exchange (`spec_device_error`), which is never one of
/// the validation errors (`lemma_device_errors_are_not_input_errors`).
pub trait HsmModule {
    /// The name of the reader the module is bound to; empty when none is.
    spec fn bound_reader(&self) -> Seq<char>;

    fn initialize<C: CardChannel>(&self, card: &mut C, pin: &str, so_pin: &str, dkek_shares: u8) -> (r: Result<(), HsmError>)
        ensures
            !spec_pin_format_ok(pin@) ==> r == Err::<(), HsmError>(HsmError::PinFormatInvalid)
                && *final(card) == *old(card),
            spec_pin_format_ok(pin@) && !spec_so_pin_format_ok(so_pin@) ==> r == Err::<(), HsmError>(
                HsmError::SoPinFormatInvalid,
            ) && *final(card) == *old(card),
            spec_pin_format_ok(pin@) && spec_so_pin_format_ok(so_pin@) && self.bound_reader().len() == 0 ==> r is Err
                && r->Err_0 is CommunicationError && *final(card) == *old(card),
            spec_pin_format_ok(pin@) && spec_so_pin_format_ok(so_pin@) ==> r is Ok || spec_device_error(r->Err_0),
    ;

    fn verify_pin<C: CardChannel>(&self, card: &mut C, pin: &str) -> (r: Result<(), HsmError>)
        ensures
            !spec_pin_format_ok(pin@) ==> r == Err::<(), HsmError>(HsmError::PinFormatInvalid)
                && *final(card) == *old(card),
            spec_pin_format_ok(pin@) && self.bound_reader().len() == 0 ==> r is Err
                && r->Err_0 is CommunicationError && *final(card) == *old(card),
            spec_pin_format_ok(pin@) ==> r is Ok || spec_device_error(r->Err_0),
    ;

    fn change_pin<C: CardChannel>(&self, card: &mut C, old_pin: &str, new_pin: &str) -> (r: Result<(), HsmError>)
        ensures
            !(spec_pin_format_ok(old_pin@) && spec_pin_format_ok(new_pin@)) ==> r == Err::<
                (),
                HsmError,
            >(HsmError::PinFormatInvalid) && *final(card) == *old(card),
            spec_pin_format_ok(old_pin@) && spec_pin_format_ok(new_pin@) && self.bound_reader().len() == 0 ==> r is Err
                && r->Err_0 is CommunicationError && *final(card) == *old(card),
            spec_pin_format_ok(old_pin@) && spec_pin_format_ok(new_pin@) ==> r is Ok || spec_device_error(r->Err_0),
    ;

    fn change_so_pin<C: CardChannel>(&self, card: &mut C, old_so_pin: &str, new_so_pin: &str) -> (r: Result<(), HsmError>)
        ensures
            !(spec_so_pin_format_ok(old_so_pin@) && spec_so_pin_format_ok(new_so_pin@)) ==> r
                == Err::<(), HsmError>(HsmError::SoPinFormatInvalid) && *final(card) == *old(card),
            spec_so_pin_format_ok(old_so_pin@) && spec_so_pin_format_ok(new_so_pin@) && self.bound_reader().len() == 0 ==> r is Err
                && r->Err_0 is CommunicationError && *final(card) == *old(card),
            spec_so_pin_format_ok(old_so_pin@) && spec_so_pin_format_ok(new_so_pin@) ==> r is Ok || spec_device_error(r->Err_0),
    ;

    fn unblock_pin<C: CardChannel>(&self, card: &mut C, so_pin: &str, new_pin: &str) -> (r: Result<(), HsmError>)
        ensures
            !spec_so_pin_format_ok(so_pin@) ==> r == Err::<(), HsmError>(
                HsmError::SoPinFormatInvalid,
            ) && *final(card) == *old(card),
            spec_so_pin_format_ok(so_pin@) && !spec_pin_format_ok(new_pin@) ==> r == Err::<
                (),
                HsmError,
            >(HsmError::PinFormatInvalid) && *final(card) == *old(card),
            spec_so_pin_format_ok(so_pin@) && spec_pin_format_ok(new_pin@) && self.bound_reader().len() == 0 ==> r is Err
                && r->Err_0 is CommunicationError && *final(card) == *old(card),
            spec_so_pin_format_ok(so_pin@) && spec_pin_format_ok(new_pin@) ==> r is Ok || spec_device_error(r->Err_0),
    ;

    fn list_keys<C: CardChannel>(&self, card: &mut C, pin: &str) -> (r: Result<Vec<HsmKeyInfo>, HsmError>)
        ensures
            !spec_pin_format_ok(pin@) ==> r == Err::<Vec<HsmKeyInfo>, HsmError>(
                HsmError::PinFormatInvalid,
            ) && *final(card) == *old(card),
            spec_pin_format_ok(pin@) && self.bound_reader().len() == 0 ==> r is Err
                && r->Err_0 is CommunicationError && *final(card) == *old(card),
            r is Ok ==> spec_is_key_listing(r->Ok_0@),
            spec_pin_format_ok(pin@) ==> r is Ok || spec_device_error(r->Err_0),
    ;

    fn generate_rsa_key<C: CardChannel>(&self, card: &mut C, pin: &str, bits: u16, id: u8, label: &str) -> (r: Result<HsmKeyInfo, HsmError>)
        ensures
            !spec_rsa_bits_ok(bits) ==> r == Err::<HsmKeyInfo, HsmError>(HsmError::NotSupported)
                && *final(card) == *old(card),
            spec_rsa_bits_ok(bits) && !spec_pin_format_ok(pin@) ==> r == Err::<
                HsmKeyInfo,
                HsmError,
            >(HsmError::PinFormatInvalid) && *final(card) == *old(card),
            r is Ok ==> r->Ok_0.id == id && r->Ok_0.key_ref == id && r->Ok_0.key_size == bits
                && r->Ok_0.key_type is Rsa && r->Ok_0.label@ == label@,
            spec_rsa_bits_ok(bits) && spec_pin_format_ok(pin@) && self.bound_reader().len() == 0 ==> r is Err
                && r->Err_0 is CommunicationError && *final(card) == *old(card),
            spec_rsa_bits_ok(bits) && spec_pin_format_ok(pin@) ==> r is Ok || spec_device_error(r->Err_0),
    ;

    fn generate_ec_key<C: CardChannel>(&self, card: &mut C, pin: &str, curve: &str, id: u8, label: &str) -> (r: Result<HsmKeyInfo, HsmError>)
        ensures
            spec_ec_curve_bits(curve@) is None ==> r == Err::<HsmKeyInfo, HsmError>(
                HsmError::NotSupported,
            ) && *final(card) == *old(card),
            spec_ec_curve_bits(curve@) is Some && !spec_pin_format_ok(pin@) ==> r == Err::<
                HsmKeyInfo,
                HsmError,
            >(HsmError::PinFormatInvalid) && *final(card) == *old(card),
            r is Ok ==> r->Ok_0.id == id && r->Ok_0.key_ref == id && Some(r->Ok_0.key_size)
                == spec_ec_curve_bits(curve@) && r->Ok_0.key_type is Ec
                && r->Ok_0.key_type->curve@ == curve@ && r->Ok_0.label@ == label@,
            spec_ec_curve_bits(curve@) is Some && spec_pin_format_ok(pin@) && self.bound_reader().len() == 0 ==> r is Err
                && r->Err_0 is CommunicationError && *final(card) == *old(card),
            spec_ec_curve_bits(curve@) is Some && spec_pin_format_ok(pin@) ==> r is Ok || spec_device_error(r->Err_0),
    ;

    fn generate_aes_key<C: CardChannel>(&self, card: &mut C, pin: &str, bits: u16, id: u8) -> (r: Result<HsmKeyInfo, HsmError>)
        ensures
            !spec_aes_bits_ok(bits) ==> r == Err::<HsmKeyInfo, HsmError>(HsmError::NotSupported)
                && *final(card) == *old(card),
            spec_aes_bits_ok(bits) && !spec_pin_format_ok(pin@) ==> r == Err::<
                HsmKeyInfo,
                HsmError,
            >(HsmError::PinFormatInvalid) && *final(card) == *old(card),
            r is Ok ==> r->Ok_0.id == id && r->Ok_0.key_ref == id && r->Ok_0.key_size == bits
                && r->Ok_0.key_type is Aes && r->Ok_0.label@.len() == 0,
            spec_aes_bits_ok(bits) && spec_pin_format_ok(pin@) && self.bound_reader().len() == 0 ==> r is Err
                && r->Err_0 is CommunicationError && *final(card) == *old(card),
            spec_aes_bits_ok(bits) && spec_pin_format_ok(pin@) ==> r is Ok || spec_device_error(r->Err_0),
    ;

    fn delete_key<C: CardChannel>(&self, card: &mut C, pin: &str, id: u8, key_type: KeyObjectType) -> (r: Result<(), HsmError>)
        ensures
            !spec_pin_format_ok(pin@) ==> r == Err::<(), HsmError>(HsmError::PinFormatInvalid)
                && *final(card) == *old(card),
            spec_pin_format_ok(pin@) && self.bound_reader().len() == 0 ==> r is Err
                && r->Err_0 is CommunicationError && *final(card) == *old(card),
            spec_pin_format_ok(pin@) ==> r is Ok || spec_device_error(r->Err_0),
    ;

    fn list_certificates<C: CardChannel>(&self, card: &mut C, pin: &str) -> (r: Result<Vec<HsmCertInfo>, HsmError>)
        ensures
            !spec_pin_format_ok(pin@) ==> r == Err::<Vec<HsmCertInfo>, HsmError>(
                HsmError::PinFormatInvalid,
            ) && *final(card) == *old(card),
            spec_pin_format_ok(pin@) && self.bound_reader().len() == 0 ==> r is Err
                && r->Err_0 is CommunicationError && *final(card) == *old(card),
            r is Ok ==> spec_is_cert_listing(r->Ok_0@),
            spec_pin_format_ok(pin@) ==> r is Ok || spec_device_error(r->Err_0),
    ;

    fn import_certificate<C: CardChannel>(&self, card: &mut C, pin: &str, id: u8, cert_data: &[u8]) -> (r: Result<(), HsmError>)
        ensures
            !spec_pin_format_ok(pin@) ==> r == Err::<(), HsmError>(HsmError::PinFormatInvalid)
                && *final(card) == *old(card),
            spec_pin_format_ok(pin@) && cert_data@.len() == 0 ==> r is Err && r->Err_0 is CommunicationError
                && *final(card) == *old(card),
            spec_pin_format_ok(pin@) && cert_data@.len() > 0 && self.bound_reader().len() == 0 ==> r is Err
                && r->Err_0 is CommunicationError && *final(card) == *old(card),
            spec_pin_format_ok(pin@) && cert_data@.len() > 0 ==> r is Ok || spec_device_error(r->Err_0),
    ;

    fn export_certificate<C: CardChannel>(&self, card: &mut C, id: u8) -> (r: Result<Vec<u8>, HsmError>)
        ensures
            self.bound_reader().len() == 0 ==> r is Err && r->Err_0 is CommunicationError
                && *final(card) == *old(card),
            r is Ok ==> r->Ok_0@.len() > 0,
            r is Ok || spec_device_error(r->Err_0) || r == Err::<Vec<u8>, HsmError>(
                HsmError::CertificateNotFound(id),
            ),
    ;

    fn create_dkek_share<C: CardChannel>(&self, card: &mut C, password: &str) -> (r: Result<Vec<u8>, HsmError>)
        ensures
            password@.len() == 0 ==> r is Err && r->Err_0 is CommunicationError && *final(card)
                == *old(card),
            password@.len() > 0 && self.bound_reader().len() == 0 ==> r is Err
                && r->Err_0 is CommunicationError && *final(card) == *old(card),
            password@.len() > 0 ==> r is Ok || spec_device_error(r->Err_0),
    ;

    fn import_dkek_share<C: CardChannel>(&self, card: &mut C, share_data: &[u8], password: &str) -> (r: Result<DkekStatus, HsmError>)
        ensures
            (share_data@.len() == 0 || password@.len() == 0) ==> r is Err && r->Err_0 is CommunicationError
                && *final(card) == *old(card),
            share_data@.len() > 0 && password@.len() > 0 && self.bound_reader().len() == 0 ==> r is Err
                && r->Err_0 is CommunicationError && *final(card) == *old(card),
            share_data@.len() > 0 && password@.len() > 0 ==> r is Ok || spec_device_error(r->Err_0),
    ;

    fn wrap_key<C: CardChannel>(&self, card: &mut C, pin: &str, key_ref: u8) -> (r: Result<Vec<u8>, HsmError>)
        ensures
            !spec_pin_format_ok(pin@) ==> r == Err::<Vec<u8>, HsmError>(HsmError::PinFormatInvalid)
                && *final(card) == *old(card),
            spec_pin_format_ok(pin@) && self.bound_reader().len() == 0 ==> r is Err
                && r->Err_0 is CommunicationError && *final(card) == *old(card),
            spec_pin_format_ok(pin@) ==> r is Ok || spec_device_error(r->Err_0),
    ;

    fn unwrap_key<C: CardChannel>(&self, card: &mut C, pin: &str, key_ref: u8, wrapped: &[u8]) -> (r: Result<(), HsmError>)
        ensures
            !spec_pin_format_ok(pin@) ==> r == Err::<(), HsmError>(HsmError::PinFormatInvalid)
                && *final(card) == *old(card),
            spec_pin_format_ok(pin@) && wrapped@.len() == 0 ==> r is Err && r->Err_0 is CommunicationError
                && *final(card) == *old(card),
            spec_pin_format_ok(pin@) && wrapped@.len() > 0 && self.bound_reader().len() == 0 ==> r is Err
                && r->Err_0 is CommunicationError && *final(card) == *old(card),
            spec_pin_format_ok(pin@) && wrapped@.len() > 0 ==> r is Ok || spec_device_error(r->Err_0),
    ;

    fn get_options<C: CardChannel>(&self, card: &mut C) -> (r: Result<HsmOptions, HsmError>)
        ensures
            self.bound_reader().len() == 0 ==> r is Err && r->Err_0 is CommunicationError
                && *final(card) == *old(card),
            r is Ok || spec_device_error(r->Err_0),
    ;

    fn set_option<C: CardChannel>(&self, card: &mut C, option: HsmOptionType, enabled: bool) -> (r: Result<(), HsmError>)
        ensures
            self.bound_reader().len() == 0 ==> r is Err && r->Err_0 is CommunicationError
                && *final(card) == *old(card),
            r is Ok || spec_device_error(r->Err_0),
    ;

    fn set_datetime<C: CardChannel>(&self, card: &mut C, now: RtcTime) -> (r: Result<(), HsmError>)
        ensures
            self.bound_reader().len() == 0 ==> r is Err && r->Err_0 is CommunicationError
                && *final(card) == *old(card),
            r is Ok || spec_device_error(r->Err_0),
    ;

    fn get_device_info<C: CardChannel>(&self, card: &mut C) -> (r: Result<HsmDeviceInfo, HsmError>)
        ensures
            self.bound_reader().len() == 0 ==> r is Err && r->Err_0 is CommunicationError
                && *final(card) == *old(card),
            r is Ok ==> spec_is_device_report(r->Ok_0),
            r is Ok || spec_device_error(r->Err_0),
    ;

    /// Secure lock needs an ECDH session that this layer does not implement.
    fn enable_secure_lock(&self) -> (r: Result<(), HsmError>)
        ensures
            r == Err::<(), HsmError>(HsmError::NotSupported),
    ;

    /// Secure lock needs an ECDH session that this layer does not implement.
    fn disable_secure_lock(&self) -> (r: Result<(), HsmError>)
        ensures
            r == Err::<(), HsmError>(HsmError::NotSupported),
    ;

    fn set_led_config<C: CardChannel>(&self, card: &mut C, config: &LedConfig) -> (r: Result<(), HsmError>)
        ensures
            config.gpio is None && config.brightness is None ==> r is Ok && *final(card) == *old(card),
            (config.gpio is Some || config.brightness is Some) && self.bound_reader().len() == 0 ==> r is Err
                && r->Err_0 is CommunicationError && *final(card) == *old(card),
            r is Ok || spec_device_error(r->Err_0),
    ;
}

/// The device details that the replies to SELECT, to INITIALIZE without data
/// (sent only when SELECT carries no version) and to the memory query report;
/// `None` stands for a query not sent or not answered.
pub fn device_info_from(select_data: &[u8], init: Option<Vec<u8>>, memory: Option<Vec<u8>>) -> (r:
    HsmDeviceInfo)
    ensures
        spec_device_info(r, select_data@, spec_reply_bytes(init), spec_reply_bytes(memory)),
{
    let firmware_version = match find_version_tag(select_data) {
        Some(_) => HsmModuleImpl::parse_version_from_select(select_data).0,
        None => {
            let from_init = match &init {
                Some(data) => parse_init_version(data.as_slice()),
                None => None,
            };
            match from_init {
                Some(v) => v,
                None => unknown_string(),
            }
        },
    };
    let (free_memory, used_memory, total_memory, file_count) = match &memory {
        Some(data) => parse_memory_stats(data.as_slice()),
        None => (0, 0, 0, 0),
    };
    HsmDeviceInfo {
        firmware_version,
        serial_number: String::new(),
        free_memory,
        used_memory,
        total_memory,
        file_count,
    }
}

/// The outcome of exporting certificate `id` whose READ BINARY reply data
/// is `data`: an empty reply means there is no such certificate.
pub fn certificate_from_reply(id: u8, data: Vec<u8>) -> (r: Result<Vec<u8>, HsmError>)
    ensures
        data@.len() == 0 ==> r == Err::<Vec<u8>, HsmError>(HsmError::CertificateNotFound(id)),
        data@.len() > 0 ==> r == Ok::<Vec<u8>, HsmError>(data),
{
    if data.len() == 0 {
        Err(HsmError::CertificateNotFound(id))
    } else {
        Ok(data)
    }
}

/// A diagnostic line for a raw reply: "<label> response (<n> bytes): <hex dump>".
pub open spec fn spec_dump_line(label: Seq<char>, data: Seq<u8>) -> Seq<char> {
    label + " response ("@ + decimal(data.len()) + " bytes): "@ + hex_dump(data)
}

/// The option flags a SELECT reply carries, zero when it has no version tag.
pub open spec fn spec_select_options(data: Seq<u8>) -> u16 {
    match spec_select_version(data) {
        Some(v) => v.2,
        None => 0u16,
    }
}

/// The diagnostic line for what a SELECT reply carries:
/// "Parsed version: <version>, options: 0x<four hex digits>".
pub open spec fn spec_parsed_line(data: Seq<u8>) -> Seq<char> {
    "Parsed version: "@ + spec_select_version_text(data) + ", options: 0x"@ + hex_pair(
        (spec_select_options(data) / 256) as u8,
    ) + hex_pair((spec_select_options(data) % 256) as u8)
}

/// The diagnostic line for a raw exchange that ended in `e`.
pub open spec fn spec_error_line(label: Seq<char>, e: HsmError) -> Seq<char> {
    label + " error: "@ + match e {
        HsmError::CommunicationError(m) => m@,
        _ => "device error"@,
    }
}

/// A diagnostic line for the outcome of a raw exchange.
pub open spec fn spec_outcome_line(label: Seq<char>, line: Seq<char>) -> bool {
    (exists|d: Seq<u8>| line == #[trigger] spec_dump_line(label, d)) || (exists|e: HsmError|
        line == #[trigger] spec_error_line(label, e))
}

/// The four diagnostic lines, given the SELECT reply data.
pub open spec fn spec_debug_report(lines: Seq<String>, select: Seq<u8>) -> bool {
    &&& lines.len() == 4
    &&& lines[0]@ == spec_dump_line("SELECT"@, select)
    &&& lines[1]@ == spec_parsed_line(select)
    &&& spec_outcome_line("INIT(nc=0)"@, lines[2]@)
    &&& spec_outcome_line("CMD_MEMORY"@, lines[3]@)
}

/// `lines` is the diagnostic report of some SELECT reply.
pub open spec fn spec_is_debug_report(lines: Seq<String>) -> bool {
    exists|select: Seq<u8>| #[trigger] spec_debug_report(lines, select)
}

fn dump_line(label: &str, data: &[u8]) -> (r: String)
    ensures
        r@ == spec_dump_line(label@, data@),
{
    let mut line = String::from_str(label);
    line.append(" response (");
    push_decimal_usize(&mut line, data.len());
    line.append(" bytes): ");
    push_hex_dump(&mut line, data);
    line
}

/// The diagnostic line for a raw exchange: its dump, or the error it ended in.
fn exchange_line(label: &str, outcome: Result<Vec<u8>, HsmError>) -> (r: String)
    ensures
        outcome is Ok ==> r@ == spec_dump_line(label@, outcome->Ok_0@),
        outcome is Err ==> r@ == spec_error_line(label@, outcome->Err_0),
        spec_outcome_line(label@, r@),
{
    match outcome {
        Ok(reply) => dump_line(label, reply.as_slice()),
        Err(e) => {
            let mut line = String::from_str(label);
            line.append(" error: ");
            match e {
                HsmError::CommunicationError(m) => line.append(m.as_str()),
                _ => line.append("device error"),
            }
            line
        },
    }
}

/// The HSM command layer, bound to one reader by name.
pub struct HsmModuleImpl {
    device_path: String,
}

impl HsmModuleImpl {
    /// The name of the bound reader; empty when none is bound.
    pub closed spec fn device_path_view(&self) -> Seq<char> {
        self.device_path@
    }

    pub fn new(device_path: String) -> (r: Self)
        ensures
            r.device_path_view() == device_path@,
    {
        HsmModuleImpl { device_path }
    }

    /// Binds the module to the reader named `path`.
    pub fn set_device_path(&mut self, path: &str)
        ensures
            final(self).device_path_view() == path@,
    {
        self.device_path = String::from_str(path);
    }

    /// The name of the bound reader.
    pub fn device_path(&self) -> (r: &str)
        ensures
            r@ == self.device_path_view(),
    {
        self.device_path.as_str()
    }

    /// A user PIN must be 6 to 16 characters long.
    pub fn validate_pin(pin: &str) -> (r: Result<(), HsmError>)
        ensures
            spec_pin_format_ok(pin@) ==> r is Ok,
            !spec_pin_format_ok(pin@) ==> r == Err::<(), HsmError>(HsmError::PinFormatInvalid),
    {
        let len: usize = pin.unicode_len();
        if len < 6 || len > 16 {
            return Err(HsmError::PinFormatInvalid);
        }
        Ok(())
    }

    /// An SO-PIN must be exactly 16 hexadecimal characters, in either case.
    pub fn validate_so_pin(so_pin: &str) -> (r: Result<(), HsmError>)
        ensures
            spec_so_pin_format_ok(so_pin@) ==> r is Ok,
            !spec_so_pin_format_ok(so_pin@) ==> r == Err::<(), HsmError>(
                HsmError::SoPinFormatInvalid,
            ),
    {
        let len: usize = so_pin.unicode_len();
        if len != 16 {
            return Err(HsmError::SoPinFormatInvalid);
        }
        let mut i: usize = 0;
        while i < 16
            invariant
                so_pin@.len() == 16,
                i <= 16,
                forall|j: int| 0 <= j < i ==> #[trigger] spec_is_hex_char(so_pin@[j]),
            decreases 16 - i,
        {
            if !is_hex_char(so_pin.get_char(i)) {
                return Err(HsmError::SoPinFormatInvalid);
            }
            i = i + 1;
        }
        Ok(())
    }

    /// The firmware version and option flags of a SELECT reply, read from the
    /// first proprietary tag 0x85 (options 2 bytes, 0xFF, major, minor);
    /// "unknown" and 0 when there is none.
    pub fn parse_version_from_select(data: &[u8]) -> (r: (String, u16))
        ensures
            r.0@ == spec_select_version_text(data@),
            r.1 == match spec_select_version(data@) {
                Some(v) => v.2,
                None => 0u16,
            },
    {
        let n: usize = data.len();
        match find_version_tag(data) {
            Some(i) => {
                assert(spec_version_tag_at(data@, i as int));
                assert(i + 7 <= n);
                let hi: u16 = data[i + 2] as u16;
                let lo: u16 = data[i + 3] as u16;
                let options: u16 = hi * 256 + lo;
                (version_string(data[i + 5], data[i + 6]), options)
            },
            None => (unknown_string(), 0),
        }
    }

    /// Diagnostics: the raw SELECT reply with the version and options parsed
    /// from it, then the raw replies to INITIALIZE without data and to the
    /// memory query, each after a fresh SELECT.
    pub fn debug_device_raw<C: CardChannel>(&self, card: &mut C) -> (r: Result<Vec<String>, HsmError>)
        ensures
            self.device_path_view().len() == 0 ==> r is Err && r->Err_0 is CommunicationError
                && *final(card) == *old(card),
            r is Ok ==> spec_is_debug_report(r->Ok_0@),
            r is Err ==> spec_device_error(r->Err_0),
    {
        self.connect_card(card)?;
        let select_data = Self::select_hsm_applet(card)?;
        let mut lines: Vec<String> = Vec::new();
        lines.push(dump_line("SELECT", select_data.as_slice()));
        let (version, options) = Self::parse_version_from_select(select_data.as_slice());
        let mut parsed = String::from_str("Parsed version: ");
        parsed.append(version.as_str());
        parsed.append(", options: 0x");
        push_hex_byte(&mut parsed, (options / 256) as u8);
        push_hex_byte(&mut parsed, (options % 256) as u8);
        lines.push(parsed);
        let codec = ApduCodecImpl::new();
        Self::select_hsm_applet(card)?;
        let init = codec.encode_apdu(&read_command(0x80, 0x50, 0x00, 0x00));
        lines.push(exchange_line("INIT(nc=0)", transmit_raw(card, init.as_slice())));
        Self::select_hsm_applet(card)?;
        let memory = codec.encode_apdu(&read_command(0x80, 0x64, 0x05, 0x00));
        lines.push(exchange_line("CMD_MEMORY", transmit_raw(card, memory.as_slice())));
        proof {
            assert(lines@[1]@ =~= spec_parsed_line(select_data@));
            assert(spec_debug_report(lines@, select_data@));
        }
        Ok(lines)
    }

    /// Connects `card` to the bound reader.
    fn connect_card<C: CardChannel>(&self, card: &mut C) -> (r: Result<(), HsmError>)
        ensures
            self.device_path_view().len() == 0 ==> r is Err && r->Err_0 is CommunicationError
                && *final(card) == *old(card),
            r is Err ==> r->Err_0 is CommunicationError,
    {
        if self.device_path.as_str().is_empty() {
            return Err(
                HsmError::CommunicationError(
                    String::from_str("no device selected: choose a Pico-HSM device first"),
                ),
            );
        }
        match card.connect(self.device_path.as_str()) {
            Ok(()) => Ok(()),
            Err(e) => Err(HsmError::CommunicationError(e)),
        }
    }

    /// SELECTs the SC-HSM application and returns the SELECT reply data.
    fn select_hsm_applet<C: CardChannel>(card: &mut C) -> (r: Result<Vec<u8>, HsmError>)
        ensures
            r is Err ==> spec_device_error(r->Err_0),
    {
        let codec = ApduCodecImpl::new();
        let cmd = select_applet_command();
        let raw = codec.encode_apdu(&cmd);
        let reply = transmit_raw(card, raw.as_slice())?;
        response_outcome(reply.as_slice())
    }

    /// Connects, SELECTs the application, sends `cmd` and interprets the reply.
    /// A command too long for the extended form is refused before connecting.
    fn execute_apdu<C: CardChannel>(&self, card: &mut C, cmd: &ApduCommand) -> (r: Result<Vec<u8>, HsmError>)
        ensures
            !cmd.wf() ==> r is Err && r->Err_0 is CommunicationError && *final(card) == *old(card),
            self.device_path_view().len() == 0 ==> r is Err && r->Err_0 is CommunicationError
                && *final(card) == *old(card),
            r is Err ==> spec_device_error(r->Err_0),
    {
        let too_long: bool = match &cmd.data {
            Some(d) => d.len() > 0xFFFF,
            None => false,
        };
        if too_long {
            return Err(
                HsmError::CommunicationError(
                    String::from_str("command data longer than an extended APDU can carry"),
                ),
            );
        }
        self.connect_card(card)?;
        Self::select_hsm_applet(card)?;
        let codec = ApduCodecImpl::new();
        let raw = codec.encode_apdu(cmd);
        let reply = transmit_raw(card, raw.as_slice())?;
        response_outcome(reply.as_slice())
    }

    /// Connects and SELECTs the application, returning the SELECT reply data.
    fn select_and_get_info<C: CardChannel>(&self, card: &mut C) -> (r: Result<Vec<u8>, HsmError>)
        ensures
            r is Err ==> spec_device_error(r->Err_0),
            self.device_path_view().len() == 0 ==> r is Err && r->Err_0 is CommunicationError
                && *final(card) == *old(card),
    {
        self.connect_card(card)?;
        Self::select_hsm_applet(card)
    }
}


impl HsmModule for HsmModuleImpl {
    open spec fn bound_reader(&self) -> Seq<char> {
        self.device_path_view()
    }

    fn initialize<C: CardChannel>(&self, card: &mut C, pin: &str, so_pin: &str, dkek_shares: u8) -> (r: Result<(), HsmError>) {
        Self::validate_pin(pin)?;
        Self::validate_so_pin(so_pin)?;
        let so_pin_bytes = hex_to_bytes(so_pin)?;
        let cmd = initialize_command(pin, so_pin_bytes.as_slice(), dkek_shares);
        self.execute_apdu(card, &cmd)?;
        Ok(())
    }

    fn verify_pin<C: CardChannel>(&self, card: &mut C, pin: &str) -> (r: Result<(), HsmError>) {
        Self::validate_pin(pin)?;
        let cmd = verify_pin_command(pin);
        self.execute_apdu(card, &cmd)?;
        Ok(())
    }

    fn change_pin<C: CardChannel>(&self, card: &mut C, old_pin: &str, new_pin: &str) -> (r: Result<(), HsmError>) {
        Self::validate_pin(old_pin)?;
        Self::validate_pin(new_pin)?;
        let cmd = change_reference_command(0x81, old_pin.as_bytes(), new_pin.as_bytes());
        self.execute_apdu(card, &cmd)?;
        Ok(())
    }

    fn change_so_pin<C: CardChannel>(&self, card: &mut C, old_so_pin: &str, new_so_pin: &str) -> (r: Result<(), HsmError>) {
        Self::validate_so_pin(old_so_pin)?;
        Self::validate_so_pin(new_so_pin)?;
        let old_bytes = hex_to_bytes(old_so_pin)?;
        let new_bytes = hex_to_bytes(new_so_pin)?;
        let cmd = change_reference_command(0x88, old_bytes.as_slice(), new_bytes.as_slice());
        self.execute_apdu(card, &cmd)?;
        Ok(())
    }

    fn unblock_pin<C: CardChannel>(&self, card: &mut C, so_pin: &str, new_pin: &str) -> (r: Result<(), HsmError>) {
        Self::validate_so_pin(so_pin)?;
        Self::validate_pin(new_pin)?;
        let so_bytes = hex_to_bytes(so_pin)?;
        let cmd = reset_retry_counter_command(so_bytes.as_slice(), new_pin);
        self.execute_apdu(card, &cmd)?;
        Ok(())
    }

    fn list_keys<C: CardChannel>(&self, card: &mut C, pin: &str) -> (r: Result<Vec<HsmKeyInfo>, HsmError>) {
        Self::validate_pin(pin)?;
        self.verify_pin(card, pin)?;
        let cmd = read_command(0x80, 0x58, 0x00, 0x00);
        let data = self.execute_apdu(card, &cmd)?;
        let keys = parse_key_list(data.as_slice());
        assert(spec_key_listing(keys@, data@));
        assert(spec_is_key_listing(keys@));
        Ok(keys)
    }

    fn generate_rsa_key<C: CardChannel>(&self, card: &mut C, pin: &str, bits: u16, id: u8, label: &str) -> (r: Result<HsmKeyInfo, HsmError>) {
        if !(bits == 1024 || bits == 2048 || bits == 3072 || bits == 4096) {
            return Err(HsmError::NotSupported);
        }
        Self::validate_pin(pin)?;
        self.verify_pin(card, pin)?;
        let cmd = generate_rsa_command(bits, id, label);
        self.execute_apdu(card, &cmd)?;
        proof {
            reveal_strlit("sign");
            reveal_strlit("decrypt");
        }
        Ok(
            HsmKeyInfo {
                key_ref: id,
                id,
                label: String::from_str(label),
                key_type: HsmKeyType::Rsa,
                key_size: bits,
                usage: vec![String::from_str("sign"), String::from_str("decrypt")],
            },
        )
    }

    fn generate_ec_key<C: CardChannel>(&self, card: &mut C, pin: &str, curve: &str, id: u8, label: &str) -> (r: Result<HsmKeyInfo, HsmError>) {
        let key_size: u16 = match ec_curve_bits(curve) {
            Some(bits) => bits,
            None => {
                return Err(HsmError::NotSupported);
            },
        };
        Self::validate_pin(pin)?;
        self.verify_pin(card, pin)?;
        let cmd = generate_ec_command(curve, id, label);
        self.execute_apdu(card, &cmd)?;
        Ok(
            HsmKeyInfo {
                key_ref: id,
                id,
                label: String::from_str(label),
                key_type: HsmKeyType::Ec { curve: String::from_str(curve) },
                key_size,
                usage: vec![String::from_str("sign"), String::from_str("derive")],
            },
        )
    }

    fn generate_aes_key<C: CardChannel>(&self, card: &mut C, pin: &str, bits: u16, id: u8) -> (r: Result<HsmKeyInfo, HsmError>) {
        if !(bits == 128 || bits == 192 || bits == 256) {
            return Err(HsmError::NotSupported);
        }
        Self::validate_pin(pin)?;
        self.verify_pin(card, pin)?;
        let cmd = generate_aes_command(bits, id);
        self.execute_apdu(card, &cmd)?;
        Ok(
            HsmKeyInfo {
                key_ref: id,
                id,
                label: String::new(),
                key_type: HsmKeyType::Aes,
                key_size: bits,
                usage: vec![String::from_str("encrypt"), String::from_str("decrypt")],
            },
        )
    }

    fn delete_key<C: CardChannel>(&self, card: &mut C, pin: &str, id: u8, key_type: KeyObjectType) -> (r: Result<(), HsmError>) {
        Self::validate_pin(pin)?;
        self.verify_pin(card, pin)?;
        let cmd = delete_file_command(key_type, id);
        self.execute_apdu(card, &cmd)?;
        Ok(())
    }

    fn list_certificates<C: CardChannel>(&self, card: &mut C, pin: &str) -> (r: Result<Vec<HsmCertInfo>, HsmError>) {
        Self::validate_pin(pin)?;
        self.verify_pin(card, pin)?;
        let cmd = read_command(0x80, 0x58, 0x00, 0x00);
        let data = self.execute_apdu(card, &cmd)?;
        let certs = parse_certificate_list(data.as_slice());
        assert(spec_cert_listing(certs@, data@));
        assert(spec_is_cert_listing(certs@));
        Ok(certs)
    }

    fn import_certificate<C: CardChannel>(&self, card: &mut C, pin: &str, id: u8, cert_data: &[u8]) -> (r: Result<(), HsmError>) {
        Self::validate_pin(pin)?;
        if cert_data.len() == 0 {
            return Err(HsmError::CommunicationError(String::from_str("certificate data must not be empty")));
        }
        self.verify_pin(card, pin)?;
        let mut data: Vec<u8> = Vec::new();
        crate::bytes::append_bytes(&mut data, cert_data);
        let cmd = write_command(0x00, 0xD7, 0xCE, id, data);
        self.execute_apdu(card, &cmd)?;
        Ok(())
    }

    fn export_certificate<C: CardChannel>(&self, card: &mut C, id: u8) -> (r: Result<Vec<u8>, HsmError>) {
        let cmd = read_command(0x00, 0xB0, 0xCE, id);
        let data = self.execute_apdu(card, &cmd)?;
        certificate_from_reply(id, data)
    }

    fn create_dkek_share<C: CardChannel>(&self, card: &mut C, password: &str) -> (r: Result<Vec<u8>, HsmError>) {
        if password.is_empty() {
            return Err(HsmError::CommunicationError(String::from_str("DKEK password must not be empty")));
        }
        let cmd = dkek_export_command(password);
        self.execute_apdu(card, &cmd)
    }

    fn import_dkek_share<C: CardChannel>(&self, card: &mut C, share_data: &[u8], password: &str) -> (r: Result<DkekStatus, HsmError>) {
        if share_data.len() == 0 {
            return Err(HsmError::CommunicationError(String::from_str("DKEK share data must not be empty")));
        }
        if password.is_empty() {
            return Err(HsmError::CommunicationError(String::from_str("DKEK password must not be empty")));
        }
        let cmd = dkek_import_command(share_data, password);
        self.execute_apdu(card, &cmd)?;
        Ok(DkekStatus { total_shares: 0, imported_shares: 0, remaining_shares: 0, key_check_value: None })
    }

    fn wrap_key<C: CardChannel>(&self, card: &mut C, pin: &str, key_ref: u8) -> (r: Result<Vec<u8>, HsmError>) {
        Self::validate_pin(pin)?;
        self.verify_pin(card, pin)?;
        let cmd = read_command(0x80, 0x72, key_ref, 0x92);
        self.execute_apdu(card, &cmd)
    }

    fn unwrap_key<C: CardChannel>(&self, card: &mut C, pin: &str, key_ref: u8, wrapped: &[u8]) -> (r: Result<(), HsmError>) {
        Self::validate_pin(pin)?;
        if wrapped.len() == 0 {
            return Err(HsmError::CommunicationError(String::from_str("wrapped key data must not be empty")));
        }
        self.verify_pin(card, pin)?;
        let mut data: Vec<u8> = Vec::new();
        crate::bytes::append_bytes(&mut data, wrapped);
        let cmd = write_command(0x80, 0x74, key_ref, 0x93, data);
        self.execute_apdu(card, &cmd)?;
        Ok(())
    }

    fn get_options<C: CardChannel>(&self, card: &mut C) -> (r: Result<HsmOptions, HsmError>) {
        let cmd = read_command(0x80, 0x64, 0x06, 0x00);
        let data = self.execute_apdu(card, &cmd)?;
        let options = parse_options(data.as_slice());
        Ok(options)
    }

    fn set_option<C: CardChannel>(&self, card: &mut C, option: HsmOptionType, enabled: bool) -> (r: Result<(), HsmError>) {
        let current = self.get_options(card)?;
        let opts = options_byte(current, option, enabled);
        let cmd = write_command(0x80, 0x64, 0x06, 0x00, vec![opts]);
        self.execute_apdu(card, &cmd)?;
        Ok(())
    }

    fn set_datetime<C: CardChannel>(&self, card: &mut C, now: RtcTime) -> (r: Result<(), HsmError>) {
        let cmd = datetime_command(now);
        self.execute_apdu(card, &cmd)?;
        Ok(())
    }

    #[verifier::rlimit(40)]
    fn get_device_info<C: CardChannel>(&self, card: &mut C) -> (r: Result<HsmDeviceInfo, HsmError>) {
        let select_data = self.select_and_get_info(card)?;
        let init: Option<Vec<u8>> = match find_version_tag(select_data.as_slice()) {
            Some(_) => None,
            None => match self.execute_apdu(card, &read_command(0x80, 0x50, 0x00, 0x00)) {
                Ok(data) => Some(data),
                Err(_) => None,
            },
        };
        let memory: Option<Vec<u8>> = match self.execute_apdu(card, &read_command(0x80, 0x64, 0x05, 0x00)) {
            Ok(data) => Some(data),
            Err(_) => None,
        };
        let ghost init_bytes = spec_reply_bytes(init);
        let ghost memory_bytes = spec_reply_bytes(memory);
        let info = device_info_from(select_data.as_slice(), init, memory);
        assert(spec_device_info(info, select_data@, init_bytes, memory_bytes));
        assert(spec_is_device_report(info));
        Ok(info)
    }

    fn enable_secure_lock(&self) -> (r: Result<(), HsmError>) {
        Err(HsmError::NotSupported)
    }

    fn disable_secure_lock(&self) -> (r: Result<(), HsmError>) {
        Err(HsmError::NotSupported)
    }

    fn set_led_config<C: CardChannel>(&self, card: &mut C, config: &LedConfig) -> (r: Result<(), HsmError>) {
        if let Some(gpio) = config.gpio {
            let cmd = write_command(0x80, 0x64, 0x1B, 0x01, vec![gpio]);
            self.execute_apdu(card, &cmd)?;
        }
        if let Some(brightness) = config.brightness {
            let cmd = write_command(0x80, 0x64, 0x1B, 0x02, vec![brightness]);
            self.execute_apdu(card, &cmd)?;
        }
        Ok(())
    }
}

} // verus!
