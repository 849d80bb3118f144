use pico_manager::error::FidoError;
use pico_manager::fido::types::{OathCredentialParams, OathType};
use pico_manager::fido::{FidoModule, FidoModuleImpl};
use pico_manager::types::LedConfig;

#[test]
fn test_validate_pin_valid_4_bytes() {
    assert!(FidoModuleImpl::validate_pin("1234").is_ok());
}

#[test]
fn test_validate_pin_valid_63_bytes() {
    let pin = "a".repeat(63);
    assert!(FidoModuleImpl::validate_pin(&pin).is_ok());
}

#[test]
fn test_validate_pin_multibyte_utf8() {
    // "你好世界" = 12 bytes in UTF-8, valid range
    assert!(FidoModuleImpl::validate_pin("你好世界").is_ok());
}

#[test]
fn test_validate_pin_boundary_3_bytes() {
    let result = FidoModuleImpl::validate_pin("abc");
    assert!(matches!(result, Err(FidoError::PinLengthInvalid)));
}

#[test]
fn test_validate_pin_boundary_exact_4_bytes() {
    assert!(FidoModuleImpl::validate_pin("abcd").is_ok());
}

#[test]
fn test_validate_pin_boundary_exact_63_bytes() {
    let pin = "a".repeat(63);
    assert!(FidoModuleImpl::validate_pin(&pin).is_ok());
}

#[test]
fn test_validate_pin_boundary_64_bytes() {
    let pin = "a".repeat(64);
    assert!(matches!(
        FidoModuleImpl::validate_pin(&pin),
        Err(FidoError::PinLengthInvalid)
    ));
}

#[test]
fn test_set_pin_rejects_short_pin() {
    let module = FidoModuleImpl::new("test".to_string());
    let result = module.set_pin("ab");
    assert!(matches!(result, Err(FidoError::PinLengthInvalid)));
}

#[test]
fn test_set_pin_rejects_long_pin() {
    let module = FidoModuleImpl::new("test".to_string());
    let pin = "x".repeat(64);
    let result = module.set_pin(&pin);
    assert!(matches!(result, Err(FidoError::PinLengthInvalid)));
}

#[test]
fn test_set_pin_valid_pin_hits_device_communication() {
    // Valid PIN passes validation but fails at device communication (stub)
    let module = FidoModuleImpl::new("test".to_string());
    let result = module.set_pin("1234");
    assert!(matches!(result, Err(FidoError::CommunicationError(_))));
}

#[test]
fn test_change_pin_rejects_short_new_pin() {
    let module = FidoModuleImpl::new("test".to_string());
    let result = module.change_pin("old_pin", "ab");
    assert!(matches!(result, Err(FidoError::PinLengthInvalid)));
}

#[test]
fn test_change_pin_rejects_long_new_pin() {
    let module = FidoModuleImpl::new("test".to_string());
    let pin = "x".repeat(64);
    let result = module.change_pin("old_pin", &pin);
    assert!(matches!(result, Err(FidoError::PinLengthInvalid)));
}

#[test]
fn test_change_pin_valid_pins_hits_device_communication() {
    let module = FidoModuleImpl::new("test".to_string());
    let result = module.change_pin("old_pin_1234", "new_pin_5678");
    assert!(matches!(result, Err(FidoError::CommunicationError(_))));
}

#[test]
fn test_get_pin_retries_hits_device_communication() {
    let module = FidoModuleImpl::new("test".to_string());
    let result = module.get_pin_retries();
    assert!(matches!(result, Err(FidoError::CommunicationError(_))));
}

#[test]
fn test_list_credentials_validates_pin() {
    let module = FidoModuleImpl::new("test".to_string());
    assert!(matches!(
        module.list_credentials("ab"),
        Err(FidoError::PinLengthInvalid)
    ));
}

#[test]
fn test_list_credentials_valid_pin_hits_device() {
    let module = FidoModuleImpl::new("test".to_string());
    assert!(matches!(
        module.list_credentials("1234"),
        Err(FidoError::CommunicationError(_))
    ));
}

#[test]
fn test_delete_credential_validates_pin() {
    let module = FidoModuleImpl::new("test".to_string());
    assert!(matches!(
        module.delete_credential("ab", &[1, 2]),
        Err(FidoError::PinLengthInvalid)
    ));
}

#[test]
fn test_delete_credential_rejects_empty_id() {
    let module = FidoModuleImpl::new("test".to_string());
    assert!(matches!(
        module.delete_credential("1234", &[]),
        Err(FidoError::CommunicationError(_))
    ));
}

#[test]
fn test_delete_credential_valid_hits_device() {
    let module = FidoModuleImpl::new("test".to_string());
    assert!(matches!(
        module.delete_credential("1234", &[1, 2, 3]),
        Err(FidoError::CommunicationError(_))
    ));
}

#[test]
fn test_get_info_hits_device() {
    let module = FidoModuleImpl::new("test".to_string());
    assert!(matches!(
        module.get_info(),
        Err(FidoError::CommunicationError(_))
    ));
}

#[test]
fn test_set_min_pin_length_validates_pin() {
    let module = FidoModuleImpl::new("test".to_string());
    assert!(matches!(
        module.set_min_pin_length("ab", 6),
        Err(FidoError::PinLengthInvalid)
    ));
}

#[test]
fn test_set_min_pin_length_rejects_too_small() {
    let module = FidoModuleImpl::new("test".to_string());
    assert!(matches!(
        module.set_min_pin_length("1234", 3),
        Err(FidoError::PinLengthInvalid)
    ));
}

#[test]
fn test_set_min_pin_length_rejects_too_large() {
    let module = FidoModuleImpl::new("test".to_string());
    assert!(matches!(
        module.set_min_pin_length("1234", 64),
        Err(FidoError::PinLengthInvalid)
    ));
}

#[test]
fn test_set_min_pin_length_valid_hits_device() {
    let module = FidoModuleImpl::new("test".to_string());
    assert!(matches!(
        module.set_min_pin_length("1234", 6),
        Err(FidoError::CommunicationError(_))
    ));
}

#[test]
fn test_toggle_enterprise_attestation_validates_pin() {
    let module = FidoModuleImpl::new("test".to_string());
    assert!(matches!(
        module.toggle_enterprise_attestation("ab", true),
        Err(FidoError::PinLengthInvalid)
    ));
}

#[test]
fn test_toggle_enterprise_attestation_valid_hits_device() {
    let module = FidoModuleImpl::new("test".to_string());
    assert!(matches!(
        module.toggle_enterprise_attestation("1234", true),
        Err(FidoError::CommunicationError(_))
    ));
}

#[test]
fn test_set_led_config_hits_device() {
    let module = FidoModuleImpl::new("test".to_string());
    let config = LedConfig {
        gpio: Some(25),
        brightness: Some(128),
        dimmable: Some(true),
        color: Some("#FF0000".to_string()),
    };
    assert!(matches!(
        module.set_led_config(&config),
        Err(FidoError::CommunicationError(_))
    ));
}

#[test]
fn test_list_oath_credentials_hits_device() {
    let module = FidoModuleImpl::new("test".to_string());
    assert!(matches!(
        module.list_oath_credentials(),
        Err(FidoError::CommunicationError(_))
    ));
}

#[test]
fn test_add_oath_credential_rejects_empty_secret() {
    let module = FidoModuleImpl::new("test".to_string());
    let params = OathCredentialParams {
        secret: vec![],
        issuer: "Test".to_string(),
        account: "user@test.com".to_string(),
        oath_type: OathType::Totp,
        digits: 6,
        period: Some(30),
        counter: None,
    };
    assert!(matches!(
        module.add_oath_credential(&params),
        Err(FidoError::CommunicationError(_))
    ));
}

#[test]
fn test_add_oath_credential_rejects_empty_account() {
    let module = FidoModuleImpl::new("test".to_string());
    let params = OathCredentialParams {
        secret: vec![1, 2, 3],
        issuer: "Test".to_string(),
        account: "".to_string(),
        oath_type: OathType::Totp,
        digits: 6,
        period: Some(30),
        counter: None,
    };
    assert!(matches!(
        module.add_oath_credential(&params),
        Err(FidoError::CommunicationError(_))
    ));
}

#[test]
fn test_add_oath_credential_rejects_invalid_digits() {
    let module = FidoModuleImpl::new("test".to_string());
    let params = OathCredentialParams {
        secret: vec![1, 2, 3],
        issuer: "Test".to_string(),
        account: "user@test.com".to_string(),
        oath_type: OathType::Totp,
        digits: 7,
        period: Some(30),
        counter: None,
    };
    assert!(matches!(
        module.add_oath_credential(&params),
        Err(FidoError::CommunicationError(_))
    ));
}

#[test]
fn test_add_oath_credential_valid_hits_device() {
    let module = FidoModuleImpl::new("test".to_string());
    let params = OathCredentialParams {
        secret: vec![1, 2, 3],
        issuer: "Test".to_string(),
        account: "user@test.com".to_string(),
        oath_type: OathType::Totp,
        digits: 6,
        period: Some(30),
        counter: None,
    };
    assert!(matches!(
        module.add_oath_credential(&params),
        Err(FidoError::CommunicationError(_))
    ));
}

#[test]
fn test_calculate_oath_rejects_empty_id() {
    let module = FidoModuleImpl::new("test".to_string());
    assert!(matches!(
        module.calculate_oath(""),
        Err(FidoError::CommunicationError(_))
    ));
}

#[test]
fn test_calculate_oath_valid_hits_device() {
    let module = FidoModuleImpl::new("test".to_string());
    assert!(matches!(
        module.calculate_oath("some-id"),
        Err(FidoError::CommunicationError(_))
    ));
}

#[test]
fn test_delete_oath_credential_rejects_empty_id() {
    let module = FidoModuleImpl::new("test".to_string());
    assert!(matches!(
        module.delete_oath_credential(""),
        Err(FidoError::CommunicationError(_))
    ));
}

#[test]
fn test_delete_oath_credential_valid_hits_device() {
    let module = FidoModuleImpl::new("test".to_string());
    assert!(matches!(
        module.delete_oath_credential("some-id"),
        Err(FidoError::CommunicationError(_))
    ));
}

#[test]
fn test_get_backup_words_validates_pin() {
    let module = FidoModuleImpl::new("test".to_string());
    assert!(matches!(
        module.get_backup_words("ab"),
        Err(FidoError::PinLengthInvalid)
    ));
}

#[test]
fn test_get_backup_words_valid_hits_device() {
    let module = FidoModuleImpl::new("test".to_string());
    assert!(matches!(
        module.get_backup_words("1234"),
        Err(FidoError::CommunicationError(_))
    ));
}

#[test]
fn test_restore_from_words_validates_pin() {
    let module = FidoModuleImpl::new("test".to_string());
    let words: Vec<String> = (0..24).map(|i| format!("word{}", i)).collect();
    assert!(matches!(
        module.restore_from_words("ab", &words),
        Err(FidoError::PinLengthInvalid)
    ));
}

#[test]
fn test_restore_from_words_rejects_wrong_count() {
    let module = FidoModuleImpl::new("test".to_string());
    let words: Vec<String> = (0..12).map(|i| format!("word{}", i)).collect();
    assert!(matches!(
        module.restore_from_words("1234", &words),
        Err(FidoError::CommunicationError(_))
    ));
}

#[test]
fn test_restore_from_words_rejects_empty_word() {
    let module = FidoModuleImpl::new("test".to_string());
    let mut words: Vec<String> = (0..24).map(|i| format!("word{}", i)).collect();
    words[5] = "  ".to_string();
    assert!(matches!(
        module.restore_from_words("1234", &words),
        Err(FidoError::CommunicationError(_))
    ));
}

#[test]
fn test_restore_from_words_valid_hits_device() {
    let module = FidoModuleImpl::new("test".to_string());
    let words: Vec<String> = (0..24).map(|i| format!("word{}", i)).collect();
    assert!(matches!(
        module.restore_from_words("1234", &words),
        Err(FidoError::CommunicationError(_))
    ));
}

#[test]
fn test_reset_device_hits_device() {
    let module = FidoModuleImpl::new("test".to_string());
    assert!(matches!(
        module.reset_device(),
        Err(FidoError::CommunicationError(_))
    ));
}

#[test]
fn pin_length_is_counted_in_bytes() {
    // 21 characters of 3 bytes = 63 bytes; 22 of them = 66 bytes
    assert!(FidoModuleImpl::validate_pin(&"你".repeat(21)).is_ok());
    assert!(matches!(
        FidoModuleImpl::validate_pin(&"你".repeat(22)),
        Err(FidoError::PinLengthInvalid)
    ));
    // one character, four bytes
    assert!(FidoModuleImpl::validate_pin("\u{1F600}").is_ok());
}

#[test]
fn change_pin_checks_old_pin_length_too() {
    let module = FidoModuleImpl::new("test".to_string());
    assert!(matches!(module.change_pin("ab", "new_pin_5678"), Err(FidoError::PinLengthInvalid)));
}

#[test]
fn unbound_module_says_no_device_is_selected() {
    let module = FidoModuleImpl::new(String::new());
    match module.reset_device() {
        Err(FidoError::CommunicationError(m)) => assert!(m.contains("no device selected")),
        other => panic!("unexpected {other:?}"),
    }
    let mut bound = FidoModuleImpl::new(String::new());
    bound.set_device_path("/dev/hidraw3");
    match bound.reset_device() {
        Err(FidoError::CommunicationError(m)) => assert!(m.contains("/dev/hidraw3")),
        other => panic!("unexpected {other:?}"),
    }
}

#[test]
fn fido_validate_pin_too_short() {
    let result = FidoModuleImpl::validate_pin("abc");
    assert!(matches!(result, Err(FidoError::PinLengthInvalid)));
}

#[test]
fn fido_validate_pin_empty() {
    let result = FidoModuleImpl::validate_pin("");
    assert!(matches!(result, Err(FidoError::PinLengthInvalid)));
}

#[test]
fn fido_validate_pin_too_long() {
    let pin = "a".repeat(64);
    let result = FidoModuleImpl::validate_pin(&pin);
    assert!(matches!(result, Err(FidoError::PinLengthInvalid)));
}

fn message<T: std::fmt::Debug>(r: Result<T, FidoError>) -> String {
    match r {
        Err(FidoError::CommunicationError(m)) => m,
        other => panic!("unexpected {other:?}"),
    }
}

#[test]
fn rejections_are_distinguishable_from_the_boundary() {
    let module = FidoModuleImpl::new("dev0".to_string());
    let boundary = "CTAP HID communication is not implemented (device: dev0)";
    let mut params = OathCredentialParams {
        secret: vec![],
        issuer: "I".to_string(),
        account: "a".to_string(),
        oath_type: OathType::Hotp,
        digits: 8,
        period: None,
        counter: Some(1),
    };
    assert_eq!(message(module.add_oath_credential(&params)), "OATH secret must not be empty");
    params.secret = vec![1];
    params.account = String::new();
    assert_eq!(message(module.add_oath_credential(&params)), "OATH account must not be empty");
    params.account = "a".to_string();
    params.digits = 7;
    assert_eq!(message(module.add_oath_credential(&params)), "OTP digits must be 6 or 8");
    params.digits = 8;
    assert_eq!(message(module.add_oath_credential(&params)), boundary);
    assert_eq!(message(module.delete_credential("1234", &[])), "credential id must not be empty");
    assert_eq!(message(module.delete_credential("1234", &[1])), boundary);
    assert_eq!(message(module.calculate_oath("")), "OATH credential id must not be empty");
    assert_eq!(message(module.delete_oath_credential("x")), boundary);
    let mut words: Vec<String> = (0..24).map(|i| format!("word{}", i)).collect();
    assert_eq!(message(module.restore_from_words("1234", &words[..23])), "exactly 24 recovery words are needed");
    words[9] = "\t ".to_string();
    words[12] = String::new();
    assert_eq!(message(module.restore_from_words("1234", &words)), "blank recovery word at position 10");
    words[9] = "w".to_string();
    words[12] = "w".to_string();
    assert_eq!(message(module.restore_from_words("1234", &words)), boundary);
}
