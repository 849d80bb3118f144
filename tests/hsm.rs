use pico_manager::error::{FidoError, HsmError};
use pico_manager::fido::{FidoModule, FidoModuleImpl};
use pico_manager::hsm::clock::rtc_from_unix_seconds;
use pico_manager::hsm::commands::{
    datetime_command, generate_ec_command, hex_to_bytes, initialize_command, select_applet_command,
};
use pico_manager::hsm::exchange::{response_outcome, transmit_raw, CardChannel, ResponseChain};
use pico_manager::hsm::parse::{
    options_byte, parse_certificate_list, parse_key_list, parse_memory_stats, parse_options,
};
use pico_manager::hsm::types::{HsmKeyType, HsmOptionType, HsmOptions, RtcTime};
use pico_manager::hsm::{certificate_from_reply, device_info_from, HsmModule, HsmModuleImpl, SC_HSM_AID};
use pico_manager::types::LedConfig;

/// A host with no usable PC/SC reader: every connection attempt fails.
struct NoReaderService;

impl CardChannel for NoReaderService {
    fn connect(&mut self, reader: &str) -> Result<(), String> {
        Err(format!("cannot connect to reader {reader}"))
    }

    fn transmit(&mut self, _apdu: &[u8]) -> Result<Vec<u8>, String> {
        Err("no connection".to_string())
    }
}

/// A simulated token: answers each transmit with the next scripted reply and
/// records what it was sent.
struct ScriptedCard {
    replies: Vec<Vec<u8>>,
    sent: Vec<Vec<u8>>,
    connects: usize,
}

impl ScriptedCard {
    fn new(replies: Vec<Vec<u8>>) -> Self {
        ScriptedCard { replies, sent: Vec::new(), connects: 0 }
    }
}

impl CardChannel for ScriptedCard {
    fn connect(&mut self, _reader: &str) -> Result<(), String> {
        self.connects += 1;
        Ok(())
    }

    fn transmit(&mut self, apdu: &[u8]) -> Result<Vec<u8>, String> {
        self.sent.push(apdu.to_vec());
        if self.replies.is_empty() {
            return Err("no more replies".to_string());
        }
        Ok(self.replies.remove(0))
    }
}

fn module() -> HsmModuleImpl {
    HsmModuleImpl::new("test".to_string())
}

#[test]
fn test_validate_pin_valid_6_chars() {
    assert!(HsmModuleImpl::validate_pin("123456").is_ok());
}

#[test]
fn test_validate_pin_valid_16_chars() {
    let pin = "a".repeat(16);
    assert!(HsmModuleImpl::validate_pin(&pin).is_ok());
}

#[test]
fn mod_test_validate_pin_too_short() {
    assert!(matches!(HsmModuleImpl::validate_pin("12345"), Err(HsmError::PinFormatInvalid)));
    assert!(matches!(FidoModuleImpl::validate_pin("abc"), Err(FidoError::PinLengthInvalid)));
}

#[test]
fn mod_test_validate_pin_empty() {
    assert!(matches!(HsmModuleImpl::validate_pin(""), Err(HsmError::PinFormatInvalid)));
    assert!(matches!(FidoModuleImpl::validate_pin(""), Err(FidoError::PinLengthInvalid)));
}

#[test]
fn mod_test_validate_pin_too_long() {
    let pin = "a".repeat(17);
    assert!(matches!(HsmModuleImpl::validate_pin(&pin), Err(HsmError::PinFormatInvalid)));
    let pin = "a".repeat(64);
    assert!(matches!(FidoModuleImpl::validate_pin(&pin), Err(FidoError::PinLengthInvalid)));
}

#[test]
fn hsm_pin_counts_characters() {
    // six characters of three bytes each
    assert!(HsmModuleImpl::validate_pin("你好世界你好").is_ok());
    assert!(matches!(HsmModuleImpl::validate_pin("你好世界你"), Err(HsmError::PinFormatInvalid)));
}

#[test]
fn test_validate_so_pin_valid() {
    assert!(HsmModuleImpl::validate_so_pin("0123456789ABCDEF").is_ok());
}

#[test]
fn test_validate_so_pin_valid_lowercase() {
    assert!(HsmModuleImpl::validate_so_pin("0123456789abcdef").is_ok());
}

#[test]
fn test_validate_so_pin_too_short() {
    assert!(matches!(
        HsmModuleImpl::validate_so_pin("0123456789ABCDE"),
        Err(HsmError::SoPinFormatInvalid)
    ));
}

#[test]
fn test_validate_so_pin_too_long() {
    assert!(matches!(
        HsmModuleImpl::validate_so_pin("0123456789ABCDEF0"),
        Err(HsmError::SoPinFormatInvalid)
    ));
}

#[test]
fn test_validate_so_pin_non_hex() {
    assert!(matches!(
        HsmModuleImpl::validate_so_pin("0123456789ABCDEG"),
        Err(HsmError::SoPinFormatInvalid)
    ));
}

#[test]
fn test_validate_so_pin_empty() {
    assert!(matches!(HsmModuleImpl::validate_so_pin(""), Err(HsmError::SoPinFormatInvalid)));
}

#[test]
fn so_pin_mixed_case_and_multibyte() {
    assert!(HsmModuleImpl::validate_so_pin("aBcDeF0123456789").is_ok());
    // sixteen characters, one of them not a hex digit
    assert!(matches!(
        HsmModuleImpl::validate_so_pin("0123456789ABCDE\u{e9}"),
        Err(HsmError::SoPinFormatInvalid)
    ));
}

#[test]
fn test_hex_to_bytes_valid() {
    let bytes = hex_to_bytes("0123456789ABCDEF").unwrap();
    assert_eq!(bytes, vec![0x01, 0x23, 0x45, 0x67, 0x89, 0xAB, 0xCD, 0xEF]);
}

#[test]
fn test_hex_to_bytes_lowercase() {
    let bytes = hex_to_bytes("abcdef").unwrap();
    assert_eq!(bytes, vec![0xAB, 0xCD, 0xEF]);
}

#[test]
fn hex_to_bytes_rejects_non_hex_and_drops_odd_digit() {
    assert!(matches!(hex_to_bytes("0G"), Err(HsmError::SoPinFormatInvalid)));
    assert_eq!(hex_to_bytes("ABC").unwrap(), vec![0xAB]);
}

#[test]
fn test_parse_version_from_select() {
    let data = vec![0x6F, 0x0A, 0x85, 0x05, 0x00, 0x01, 0xFF, 0x06, 0x04];
    let (version, options) = HsmModuleImpl::parse_version_from_select(&data);
    assert_eq!(version, "6.4");
    assert_eq!(options, 0x0001);
}

#[test]
fn test_parse_version_from_select_not_found() {
    let data = vec![0x6F, 0x00];
    let (version, _) = HsmModuleImpl::parse_version_from_select(&data);
    assert_eq!(version, "unknown");
}

#[test]
fn parse_version_skips_truncated_tag() {
    // a 0x85 whose value would run past the end is ignored
    let data = vec![0x85, 0x09, 0x85, 0x05, 0x12, 0x34, 0xFF, 0x0A, 0x63];
    let (version, options) = HsmModuleImpl::parse_version_from_select(&data);
    assert_eq!(version, "10.99");
    assert_eq!(options, 0x1234);
}

#[test]
fn test_initialize_rejects_invalid_pin() {
    let mut card = NoReaderService;
    assert!(matches!(
        module().initialize(&mut card, "123", "0123456789ABCDEF", 2),
        Err(HsmError::PinFormatInvalid)
    ));
}

#[test]
fn test_initialize_rejects_invalid_so_pin() {
    let mut card = NoReaderService;
    assert!(matches!(
        module().initialize(&mut card, "123456", "not_hex_16_chars!", 2),
        Err(HsmError::SoPinFormatInvalid)
    ));
}

#[test]
fn test_initialize_valid_hits_device() {
    let mut card = NoReaderService;
    assert!(matches!(
        module().initialize(&mut card, "123456", "0123456789ABCDEF", 2),
        Err(HsmError::CommunicationError(_))
    ));
}

#[test]
fn test_verify_pin_rejects_invalid() {
    let mut card = NoReaderService;
    assert!(matches!(module().verify_pin(&mut card, "12345"), Err(HsmError::PinFormatInvalid)));
}

#[test]
fn test_verify_pin_valid_hits_device() {
    let mut card = NoReaderService;
    assert!(matches!(
        module().verify_pin(&mut card, "123456"),
        Err(HsmError::CommunicationError(_))
    ));
}

#[test]
fn test_change_pin_rejects_invalid_old() {
    let mut card = NoReaderService;
    assert!(matches!(
        module().change_pin(&mut card, "12345", "123456"),
        Err(HsmError::PinFormatInvalid)
    ));
}

#[test]
fn test_change_pin_rejects_invalid_new() {
    let mut card = NoReaderService;
    assert!(matches!(
        module().change_pin(&mut card, "123456", "12345"),
        Err(HsmError::PinFormatInvalid)
    ));
}

#[test]
fn test_change_pin_valid_hits_device() {
    let mut card = NoReaderService;
    assert!(matches!(
        module().change_pin(&mut card, "123456", "654321"),
        Err(HsmError::CommunicationError(_))
    ));
}

#[test]
fn test_change_so_pin_rejects_invalid_old() {
    let mut card = NoReaderService;
    assert!(matches!(
        module().change_so_pin(&mut card, "not_valid", "0123456789ABCDEF"),
        Err(HsmError::SoPinFormatInvalid)
    ));
}

#[test]
fn test_change_so_pin_valid_hits_device() {
    let mut card = NoReaderService;
    assert!(matches!(
        module().change_so_pin(&mut card, "0123456789ABCDEF", "FEDCBA9876543210"),
        Err(HsmError::CommunicationError(_))
    ));
}

#[test]
fn test_unblock_pin_rejects_invalid_so_pin() {
    let mut card = NoReaderService;
    assert!(matches!(
        module().unblock_pin(&mut card, "bad", "123456"),
        Err(HsmError::SoPinFormatInvalid)
    ));
}

#[test]
fn test_unblock_pin_rejects_invalid_new_pin() {
    let mut card = NoReaderService;
    assert!(matches!(
        module().unblock_pin(&mut card, "0123456789ABCDEF", "12345"),
        Err(HsmError::PinFormatInvalid)
    ));
}

#[test]
fn test_unblock_pin_valid_hits_device() {
    let mut card = NoReaderService;
    assert!(matches!(
        module().unblock_pin(&mut card, "0123456789ABCDEF", "123456"),
        Err(HsmError::CommunicationError(_))
    ));
}

#[test]
fn test_generate_rsa_key_rejects_invalid_size() {
    let mut card = NoReaderService;
    assert!(matches!(
        module().generate_rsa_key(&mut card, "123456", 512, 1, "test"),
        Err(HsmError::NotSupported)
    ));
}

#[test]
fn test_generate_ec_key_rejects_invalid_curve() {
    let mut card = NoReaderService;
    assert!(matches!(
        module().generate_ec_key(&mut card, "123456", "invalid_curve", 1, "test"),
        Err(HsmError::NotSupported)
    ));
}

#[test]
fn test_generate_aes_key_rejects_invalid_size() {
    let mut card = NoReaderService;
    assert!(matches!(
        module().generate_aes_key(&mut card, "123456", 64, 1),
        Err(HsmError::NotSupported)
    ));
}

#[test]
fn rsa_512_is_refused_before_any_transport_call_for_any_pin() {
    for pin in ["123456", "", "12", "a-much-too-long-pin-value"] {
        let mut card = ScriptedCard::new(vec![vec![0x90, 0x00]]);
        assert!(matches!(
            module().generate_rsa_key(&mut card, pin, 512, 7, "label"),
            Err(HsmError::NotSupported)
        ));
        assert_eq!(card.connects, 0);
        assert!(card.sent.is_empty());
    }
}

#[test]
fn test_import_certificate_rejects_empty_data() {
    let mut card = NoReaderService;
    assert!(matches!(
        module().import_certificate(&mut card, "123456", 1, &[]),
        Err(HsmError::CommunicationError(_))
    ));
}

#[test]
fn test_create_dkek_share_rejects_empty_password() {
    let mut card = NoReaderService;
    assert!(matches!(
        module().create_dkek_share(&mut card, ""),
        Err(HsmError::CommunicationError(_))
    ));
}

#[test]
fn test_import_dkek_share_rejects_empty_data() {
    let mut card = NoReaderService;
    assert!(matches!(
        module().import_dkek_share(&mut card, &[], "password"),
        Err(HsmError::CommunicationError(_))
    ));
}

#[test]
fn test_import_dkek_share_rejects_empty_password() {
    let mut card = NoReaderService;
    assert!(matches!(
        module().import_dkek_share(&mut card, &[0x01], ""),
        Err(HsmError::CommunicationError(_))
    ));
}

#[test]
fn test_sc_hsm_aid_constant() {
    assert_eq!(&SC_HSM_AID, &[0xE8, 0x2B, 0x06, 0x01, 0x04, 0x01, 0x81, 0xC3, 0x1F, 0x02, 0x01]);
}

#[test]
fn unbound_module_reports_no_device() {
    let module = HsmModuleImpl::new(String::new());
    let mut card = ScriptedCard::new(vec![]);
    assert!(matches!(
        module.verify_pin(&mut card, "123456"),
        Err(HsmError::CommunicationError(_))
    ));
    assert_eq!(card.connects, 0);
}

#[test]
fn get_response_chaining_concatenates_parts() {
    let mut card = ScriptedCard::new(vec![
        vec![0xAA, 0xBB, 0x61, 0x05],
        vec![0x01, 0x02, 0x03, 0x04, 0x05, 0x90, 0x00],
    ]);
    let reply = transmit_raw(&mut card, &[0x00, 0xB0, 0x00, 0x00, 0x00]).unwrap();
    assert_eq!(reply, vec![0xAA, 0xBB, 0x01, 0x02, 0x03, 0x04, 0x05, 0x90, 0x00]);
    // one command and one GET RESPONSE for the single 61 XX reply
    assert_eq!(card.sent.len(), 2);
    assert_eq!(card.sent[1], vec![0x00, 0xC0, 0x00, 0x00, 0x05]);
}

#[test]
fn get_response_chaining_stops_on_transmit_failure() {
    let mut card = ScriptedCard::new(vec![vec![0x61, 0x10]]);
    assert!(matches!(
        transmit_raw(&mut card, &[0x00, 0xB0, 0x00, 0x00, 0x00]),
        Err(HsmError::CommunicationError(_))
    ));
}

#[test]
fn get_response_chaining_is_bounded() {
    let replies = vec![vec![0x61, 0x01]; 400];
    let mut card = ScriptedCard::new(replies);
    assert!(matches!(
        transmit_raw(&mut card, &[0x00, 0xB0, 0x00, 0x00, 0x00]),
        Err(HsmError::CommunicationError(_))
    ));
    assert!(card.sent.len() <= 258);
}

#[test]
fn response_outcome_maps_status() {
    assert_eq!(response_outcome(&[0x01, 0x90, 0x00]).unwrap(), vec![0x01]);
    assert!(matches!(response_outcome(&[0x63, 0xC2]), Err(HsmError::PinInvalid(2))));
    assert!(matches!(response_outcome(&[0x90]), Err(HsmError::CommunicationError(_))));
}

#[test]
fn verify_pin_sends_select_then_verify() {
    let mut card = ScriptedCard::new(vec![vec![0x90, 0x00], vec![0x90, 0x00]]);
    assert!(module().verify_pin(&mut card, "123456").is_ok());
    assert_eq!(card.sent.len(), 2);
    let mut select = vec![0x00, 0xA4, 0x04, 0x00, 0x0B];
    select.extend_from_slice(&SC_HSM_AID);
    assert_eq!(card.sent[0], select);
    assert_eq!(card.sent[1], vec![0x00, 0x20, 0x00, 0x81, 0x06, b'1', b'2', b'3', b'4', b'5', b'6']);
}

#[test]
fn verify_pin_reports_remaining_retries() {
    let mut card = ScriptedCard::new(vec![vec![0x90, 0x00], vec![0x63, 0xC2]]);
    assert!(matches!(module().verify_pin(&mut card, "123456"), Err(HsmError::PinInvalid(2))));
}

#[test]
fn initialize_payload_layout() {
    let so = hex_to_bytes("0123456789ABCDEF").unwrap();
    let cmd = initialize_command("123456", &so, 2);
    assert_eq!((cmd.cla, cmd.ins, cmd.p1, cmd.p2), (0x80, 0x50, 0x00, 0x00));
    let mut expected = vec![0x81, 0x06];
    expected.extend_from_slice(b"123456");
    expected.extend_from_slice(&[0x82, 0x08, 0x01, 0x23, 0x45, 0x67, 0x89, 0xAB, 0xCD, 0xEF]);
    expected.extend_from_slice(&[0x92, 0x01, 0x02]);
    assert_eq!(cmd.data.unwrap(), expected);
    assert_eq!(cmd.le, None);
}

#[test]
fn select_and_ec_and_datetime_commands() {
    let select = select_applet_command();
    assert_eq!(select.data.unwrap(), SC_HSM_AID.to_vec());
    let ec = generate_ec_command("secp256r1", 3, "k");
    let mut expected = vec![0x31];
    expected.extend_from_slice(b"secp256r1");
    expected.push(0x00);
    expected.push(b'k');
    assert_eq!(ec.data.unwrap(), expected);
    assert_eq!((ec.ins, ec.p1), (0x46, 3));
    let t = RtcTime { year: 2026, month: 10, day: 19, weekday: 1, hour: 8, minute: 30, second: 5 };
    let dt = datetime_command(t);
    assert_eq!(dt.data.unwrap(), vec![0x07, 0xEA, 10, 19, 1, 8, 30, 5]);
    assert_eq!((dt.cla, dt.ins, dt.p1), (0x80, 0x64, 0x0A));
}

#[test]
fn key_and_certificate_listings() {
    let data = vec![0xCC, 0x01, 0xCE, 0x02, 0xCD, 0x03, 0xC4, 0x04, 0xCA, 0x05, 0x11, 0x06, 0xCC];
    let keys = parse_key_list(&data);
    assert_eq!(keys.len(), 3);
    assert_eq!(keys[0].id, 1);
    assert_eq!(keys[0].label, "Key-1");
    assert!(matches!(&keys[0].key_type, HsmKeyType::Ec { curve } if curve == "unknown"));
    assert_eq!(keys[1].id, 3);
    assert!(matches!(keys[1].key_type, HsmKeyType::Aes));
    assert_eq!(keys[2].key_ref, 4);
    let certs = parse_certificate_list(&data);
    assert_eq!(certs.len(), 2);
    assert_eq!(certs[0].id, 2);
    assert_eq!(certs[0].subject, "Certificate-2");
    assert_eq!(certs[1].key_id, Some(5));
}

#[test]
fn options_and_memory_parsing() {
    let o = parse_options(&[0x00, 0x03]);
    assert!(o.press_to_confirm && o.key_usage_counter);
    let o = parse_options(&[0x01]);
    assert!(!o.press_to_confirm && !o.key_usage_counter);
    let current = HsmOptions { press_to_confirm: true, key_usage_counter: false };
    assert_eq!(options_byte(current, HsmOptionType::KeyUsageCounter, true), 0x03);
    assert_eq!(options_byte(current, HsmOptionType::PressToConfirm, false), 0x00);
    let mem = [0, 0, 1, 0, 0, 0, 0, 255, 0, 1, 0, 0, 0, 0, 0, 7];
    assert_eq!(parse_memory_stats(&mem), (256, 255, 65536, 7));
    assert_eq!(parse_memory_stats(&mem[..15]), (0, 0, 0, 0));
}

#[test]
fn device_info_falls_back_and_tolerates_memory_failure() {
    // SELECT without a version tag, INITIALIZE reply with the version, memory query fails
    let mut card = ScriptedCard::new(vec![
        vec![0x6F, 0x00, 0x90, 0x00],
        vec![0x90, 0x00],
        vec![0, 0, 0, 0, 0, 5, 2, 0x90, 0x00],
        vec![0x90, 0x00],
        vec![0x6A, 0x82],
    ]);
    let info = module().get_device_info(&mut card).unwrap();
    assert_eq!(info.firmware_version, "5.2");
    assert_eq!(info.total_memory, 0);
    assert_eq!(info.file_count, 0);
    assert!(info.serial_number.is_empty());
}

#[test]
fn secure_lock_is_not_supported() {
    assert!(matches!(module().enable_secure_lock(), Err(HsmError::NotSupported)));
    assert!(matches!(module().disable_secure_lock(), Err(HsmError::NotSupported)));
}

#[test]
fn utc_reading_of_unix_time() {
    let t = rtc_from_unix_seconds(0).unwrap();
    assert_eq!((t.year, t.month, t.day, t.weekday, t.hour, t.minute, t.second), (1970, 1, 1, 4, 0, 0, 0));
    let t = rtc_from_unix_seconds(1_709_210_096).unwrap();
    assert_eq!((t.year, t.month, t.day, t.weekday, t.hour, t.minute, t.second), (2024, 2, 29, 4, 12, 34, 56));
    let t = rtc_from_unix_seconds(951_782_400).unwrap();
    assert_eq!((t.year, t.month, t.day, t.weekday), (2000, 2, 29, 2));
    let t = rtc_from_unix_seconds(4_102_444_799).unwrap();
    assert_eq!((t.year, t.month, t.day, t.hour, t.minute, t.second), (2099, 12, 31, 23, 59, 59));
    assert!(rtc_from_unix_seconds(20_000_000 * 86_400).is_none());
}

#[test]
fn export_of_missing_certificate_is_not_found() {
    let mut card = ScriptedCard::new(vec![vec![0x90, 0x00], vec![0x90, 0x00]]);
    assert!(matches!(module().export_certificate(&mut card, 9), Err(HsmError::CertificateNotFound(9))));
    assert_eq!(card.sent[1], vec![0x00, 0xB0, 0xCE, 0x09, 0x00]);
}

#[test]
fn set_option_keeps_the_other_flag() {
    // read options (press-to-confirm on), then write with the counter switched on
    let mut card = ScriptedCard::new(vec![
        vec![0x90, 0x00],
        vec![0x00, 0x01, 0x90, 0x00],
        vec![0x90, 0x00],
        vec![0x90, 0x00],
    ]);
    assert!(module().set_option(&mut card, HsmOptionType::KeyUsageCounter, true).is_ok());
    assert_eq!(card.sent[3], vec![0x80, 0x64, 0x06, 0x00, 0x01, 0x03]);
}

#[test]
fn led_config_sends_one_command_per_setting() {
    let config = LedConfig { gpio: Some(25), brightness: Some(128), dimmable: None, color: None };
    let mut card = ScriptedCard::new(vec![vec![0x90, 0x00]; 4]);
    assert!(module().set_led_config(&mut card, &config).is_ok());
    assert_eq!(card.sent[1], vec![0x80, 0x64, 0x1B, 0x01, 0x01, 25]);
    assert_eq!(card.sent[3], vec![0x80, 0x64, 0x1B, 0x02, 0x01, 128]);
    let empty = LedConfig { gpio: None, brightness: None, dimmable: Some(true), color: None };
    let mut untouched = ScriptedCard::new(vec![]);
    assert!(module().set_led_config(&mut untouched, &empty).is_ok());
    assert_eq!(untouched.connects, 0);
}

#[test]
fn rsa_generation_reports_the_new_key() {
    let mut card = ScriptedCard::new(vec![vec![0x90, 0x00]; 4]);
    let key = module().generate_rsa_key(&mut card, "123456", 2048, 4, "mykey").unwrap();
    assert_eq!((key.id, key.key_ref, key.key_size), (4, 4, 2048));
    assert_eq!(key.label, "mykey");
    assert!(matches!(key.key_type, HsmKeyType::Rsa));
    let mut expected = vec![0x00, 0x46, 0x04, 0x00, 0x08, 0x30, 0x08, 0x00];
    expected.extend_from_slice(b"mykey");
    assert_eq!(card.sent[3], expected);
}

#[test]
fn ec_and_aes_sizes() {
    let mut card = ScriptedCard::new(vec![vec![0x90, 0x00]; 4]);
    let key = module().generate_ec_key(&mut card, "123456", "secp521r1", 2, "").unwrap();
    assert_eq!(key.key_size, 521);
    assert!(matches!(&key.key_type, HsmKeyType::Ec { curve } if curve == "secp521r1"));
    let mut card = ScriptedCard::new(vec![vec![0x90, 0x00]; 4]);
    let key = module().generate_ec_key(&mut card, "123456", "brainpoolP256r1", 2, "").unwrap();
    assert_eq!(key.key_size, 256);
    let mut card = ScriptedCard::new(vec![vec![0x90, 0x00]; 4]);
    let key = module().generate_aes_key(&mut card, "123456", 192, 5).unwrap();
    assert_eq!(key.key_size, 192);
    assert_eq!(card.sent[3], vec![0x00, 0x48, 0x05, 0x00, 0x03, 0x32, 0x00, 0xC0]);
    let mut card = ScriptedCard::new(vec![]);
    assert!(matches!(
        module().generate_aes_key(&mut card, "12", 192, 5),
        Err(HsmError::PinFormatInvalid)
    ));
}

#[test]
fn raw_device_dump() {
    let mut card = ScriptedCard::new(vec![
        vec![0x85, 0x05, 0x00, 0x03, 0xFF, 0x06, 0x04, 0x90, 0x00],
        vec![0x90, 0x00],
        vec![0x00, 0x01, 0x90, 0x00],
        vec![0x90, 0x00],
    ]);
    let lines = module().debug_device_raw(&mut card).unwrap();
    assert_eq!(lines.len(), 4);
    assert_eq!(lines[0], "SELECT response (7 bytes): 85 05 00 03 FF 06 04");
    assert_eq!(lines[1], "Parsed version: 6.4, options: 0x0003");
    assert_eq!(lines[2], "INIT(nc=0) response (4 bytes): 00 01 90 00");
    assert!(lines[3].starts_with("CMD_MEMORY error: "));
}

#[test]
fn response_chain_steps() {
    let mut chain = ResponseChain::start(vec![0xAA, 0xBB, 0x61, 0x05]);
    assert_eq!(chain.request(), Some(vec![0x00, 0xC0, 0x00, 0x00, 0x05]));
    chain.absorb(vec![0x01, 0x02, 0x61, 0x00]);
    assert_eq!(chain.request(), Some(vec![0x00, 0xC0, 0x00, 0x00, 0x00]));
    chain.absorb(vec![0x03, 0x90, 0x00]);
    assert_eq!(chain.request(), None);
    assert_eq!(chain.finish(), vec![0xAA, 0xBB, 0x01, 0x02, 0x03, 0x90, 0x00]);
}

#[test]
fn device_info_from_replies() {
    let select = [0x85, 0x05, 0x00, 0x01, 0xFF, 0x07, 0x02];
    let mem = vec![0, 0, 0, 9, 0, 0, 0, 8, 0, 0, 0, 17, 0, 0, 0, 3];
    let info = device_info_from(&select, Some(vec![0, 0, 0, 0, 0, 1, 1]), Some(mem.clone()));
    assert_eq!(info.firmware_version, "7.2");
    assert_eq!((info.free_memory, info.used_memory, info.total_memory, info.file_count), (9, 8, 17, 3));
    assert!(info.serial_number.is_empty());
    let info = device_info_from(&[0x6F, 0x00], Some(vec![0, 0, 0, 0, 0, 1, 1]), None);
    assert_eq!(info.firmware_version, "1.1");
    assert_eq!(info.total_memory, 0);
    let info = device_info_from(&[0x6F, 0x00], Some(vec![0, 0, 0, 0, 0, 1]), Some(mem[..15].to_vec()));
    assert_eq!(info.firmware_version, "unknown");
    assert_eq!(info.file_count, 0);
    let info = device_info_from(&[], None, None);
    assert_eq!(info.firmware_version, "unknown");
}

#[test]
fn certificate_reply_outcomes() {
    assert!(matches!(certificate_from_reply(4, vec![]), Err(HsmError::CertificateNotFound(4))));
    assert_eq!(certificate_from_reply(4, vec![0x30, 0x82]).unwrap(), vec![0x30, 0x82]);
}
