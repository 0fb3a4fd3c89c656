use cobra::cobra::{
    check_fn_call_status, check_library_exists, decode_version, interpret_status_code,
    library_load_error, symbol_load_error, validate_access_key, validate_utf8, EngineProperties,
};
use cobra::error::{CobraError, CobraErrorStatus};
use cobra::status::{pv_status_code, pv_status_from_code, pv_status_name, PvStatus};
use cobra::text::dec_string;

#[test]
fn error_new_fields() {
    let e = CobraError::new(CobraErrorStatus::ArgumentError, "boom");
    assert!(matches!(e.status, CobraErrorStatus::ArgumentError));
    assert_eq!(e.message, "boom");
    assert!(e.message_stack.is_empty());
}

#[test]
fn error_new_with_stack_fields() {
    let stack = vec!["first".to_string(), "second".to_string()];
    let e = CobraError::new_with_stack(
        CobraErrorStatus::LibraryError(PvStatus::KEY_ERROR),
        "boom",
        stack.clone(),
    );
    assert!(matches!(
        e.status,
        CobraErrorStatus::LibraryError(PvStatus::KEY_ERROR)
    ));
    assert_eq!(e.message, "boom");
    assert_eq!(e.message_stack, stack);
}

#[test]
fn display_without_stack() {
    let e = CobraError::new(CobraErrorStatus::FrameLengthError, "process failed");
    assert_eq!(
        e.to_display_string(),
        "process failed with status 'FrameLengthError'"
    );
}

#[test]
fn display_with_stack() {
    let stack = vec!["invalid AccessKey".to_string(), "key not found".to_string()];
    let e = CobraError::new_with_stack(
        CobraErrorStatus::LibraryError(PvStatus::KEY_ERROR),
        "'pv_cobra_init' failed",
        stack,
    );
    assert_eq!(
        e.to_display_string(),
        "'pv_cobra_init' failed with status 'LibraryError(KEY_ERROR)':  [0] invalid AccessKey\n  [1] key not found\n"
    );
}

#[test]
fn status_code_round_trip() {
    for code in 0..=11 {
        let status = pv_status_from_code(code).expect("code inside the enumeration");
        assert_eq!(pv_status_code(&status), code);
    }
    assert!(pv_status_from_code(-1).is_none());
    assert!(pv_status_from_code(12).is_none());
    assert!(pv_status_from_code(i32::MAX).is_none());
}

#[test]
fn status_names() {
    assert_eq!(pv_status_name(&PvStatus::SUCCESS), "SUCCESS");
    assert_eq!(pv_status_name(&PvStatus::KEY_ERROR), "KEY_ERROR");
    assert_eq!(
        pv_status_name(&PvStatus::PV_STATUS_ACTIVATION_LIMIT_REACHED),
        "PV_STATUS_ACTIVATION_LIMIT_REACHED"
    );
}

#[test]
fn access_key_accepted() {
    assert!(validate_access_key("some-key==").is_ok());
}

#[test]
fn access_key_empty_is_argument_error() {
    let e = validate_access_key("").unwrap_err();
    assert!(matches!(e.status, CobraErrorStatus::ArgumentError));
    assert_eq!(e.message, "AccessKey is required for Cobra initialization");
    assert!(e.message_stack.is_empty());
}

#[test]
fn access_key_with_nul_is_argument_error() {
    let e = validate_access_key("ab\0c").unwrap_err();
    assert!(matches!(e.status, CobraErrorStatus::ArgumentError));
    assert_eq!(e.message, "AccessKey is not a valid C string");
}

#[test]
fn missing_library_is_argument_error() {
    assert!(check_library_exists("/somewhere/libpv_cobra.so", true).is_ok());
    let e = check_library_exists("/somewhere/libpv_cobra.so", false).unwrap_err();
    assert!(matches!(e.status, CobraErrorStatus::ArgumentError));
    assert_eq!(
        e.message,
        "Couldn't find Cobra's dynamic library at /somewhere/libpv_cobra.so"
    );
}

#[test]
fn load_error_messages() {
    let e = library_load_error("bad ELF header");
    assert!(matches!(e.status, CobraErrorStatus::LibraryLoadError));
    assert_eq!(
        e.message,
        "Failed to load cobra dynamic library: bad ELF header"
    );

    let e = symbol_load_error("undefined symbol: pv_cobra_init");
    assert!(matches!(e.status, CobraErrorStatus::LibraryLoadError));
    assert_eq!(
        e.message,
        "Failed to load function symbol from cobra library: undefined symbol: pv_cobra_init"
    );
}

#[test]
fn raw_codes_are_interpreted() {
    assert!(matches!(interpret_status_code(0), Ok(PvStatus::SUCCESS)));
    assert!(matches!(interpret_status_code(5), Ok(PvStatus::KEY_ERROR)));
    assert!(matches!(
        interpret_status_code(11),
        Ok(PvStatus::PV_STATUS_ACTIVATION_REFUSED)
    ));
    let e = interpret_status_code(99).unwrap_err();
    assert!(matches!(e.status, CobraErrorStatus::LibraryLoadError));
    assert_eq!(e.message, "Cobra returned an unknown status code");
}

#[test]
fn status_check_passes_success() {
    assert!(check_fn_call_status(PvStatus::SUCCESS, "pv_cobra_init", Vec::new()).is_ok());
}

#[test]
fn status_check_keeps_stack() {
    let stack = vec!["deep".to_string(), "deeper".to_string()];
    let e = check_fn_call_status(PvStatus::KEY_ERROR, "pv_cobra_init", stack.clone()).unwrap_err();
    assert!(matches!(
        e.status,
        CobraErrorStatus::LibraryError(PvStatus::KEY_ERROR)
    ));
    assert_eq!(e.message, "'pv_cobra_init' failed");
    assert_eq!(e.message_stack, stack);
}

#[test]
fn repeated_failure_gives_identical_errors() {
    let stack = vec!["invalid AccessKey".to_string()];
    let first = check_fn_call_status(PvStatus::KEY_ERROR, "pv_cobra_init", stack.clone());
    let second = check_fn_call_status(PvStatus::KEY_ERROR, "pv_cobra_init", stack.clone());
    let first = first.unwrap_err();
    let second = second.unwrap_err();
    assert_eq!(first.message, second.message);
    assert_eq!(first.message_stack.len(), second.message_stack.len());
    for i in 0..first.message_stack.len() {
        assert_eq!(first.message_stack[i], second.message_stack[i]);
    }
}

#[test]
fn version_decodes_utf8() {
    assert_eq!(decode_version(b"1.2.0").unwrap(), "1.2.0");
}

#[test]
fn version_decodes_multibyte_utf8() {
    let decoded = decode_version(&[0xC3, 0xA9]).unwrap();
    assert_eq!(decoded, "\u{e9}");
    assert_eq!(decoded.chars().count(), 1);
}

#[test]
fn version_decodes_four_byte_utf8() {
    let decoded = decode_version(&[0xF0, 0x9F, 0x99, 0x82]).unwrap();
    assert_eq!(decoded, "\u{1F642}");
}

#[test]
fn utf8_judgements_match_std() {
    let cases: Vec<Vec<u8>> = vec![
        vec![],
        b"plain ascii".to_vec(),
        vec![0xC3, 0xA9],
        vec![0xE2, 0x82, 0xAC],
        vec![0xF0, 0x9F, 0x99, 0x82],
        vec![0xC0, 0x80],             // overlong two-byte encoding of NUL
        vec![0xE0, 0x80, 0x80],       // overlong three-byte encoding
        vec![0xF0, 0x80, 0x80, 0x80], // overlong four-byte encoding
        vec![0xED, 0xA0, 0x80],       // surrogate
        vec![0xF4, 0x90, 0x80, 0x80], // beyond U+10FFFF
        vec![0xC3],                   // truncated sequence
        vec![0xE2, 0x82],             // truncated sequence
        vec![0x80],                   // stray continuation byte
        vec![0xFF],                   // no encoding starts with 0xFF
        vec![0x61, 0xC3, 0xA9, 0x62],
    ];
    for bytes in cases {
        assert_eq!(
            validate_utf8(&bytes),
            std::str::from_utf8(&bytes).is_ok(),
            "disagreement on {:?}",
            bytes
        );
    }
}

#[test]
fn version_rejects_invalid_utf8() {
    let e = decode_version(&[0xFF, 0x30]).unwrap_err();
    assert!(matches!(e.status, CobraErrorStatus::LibraryLoadError));
    assert_eq!(e.message, "Cobra version string is not valid UTF-8");
}

#[test]
fn properties_cache_native_values() {
    let p = EngineProperties::try_new(16000, 512, "1.2.0".to_string()).unwrap();
    assert_eq!(p.sample_rate(), 16000);
    assert_eq!(p.frame_length(), 512);
    assert_eq!(p.version(), "1.2.0");

    let again = EngineProperties::try_new(16000, 512, "1.2.0".to_string()).unwrap();
    assert_eq!(again.sample_rate(), p.sample_rate());
    assert_eq!(again.frame_length(), p.frame_length());
    assert_eq!(again.version(), p.version());
}

#[test]
fn properties_reject_zero_sample_rate() {
    let e = EngineProperties::try_new(0, 512, "1.2.0".to_string()).unwrap_err();
    assert!(matches!(e.status, CobraErrorStatus::LibraryLoadError));
    assert_eq!(e.message, "Cobra returned an invalid sample rate");
}

#[test]
fn properties_reject_zero_frame_length() {
    let e = EngineProperties::try_new(16000, 0, "1.2.0".to_string()).unwrap_err();
    assert!(matches!(e.status, CobraErrorStatus::LibraryLoadError));
    assert_eq!(e.message, "Cobra returned an invalid frame length");
}

#[test]
fn properties_reject_empty_version() {
    let e = EngineProperties::try_new(16000, 512, String::new()).unwrap_err();
    assert!(matches!(e.status, CobraErrorStatus::LibraryLoadError));
    assert_eq!(e.message, "Cobra returned an empty version string");
}

#[test]
fn frame_of_expected_length_passes() {
    let p = EngineProperties::try_new(16000, 4, "1.2.0".to_string()).unwrap();
    assert!(p.check_frame(&[0i16, 1, -2, 3]).is_ok());
}

#[test]
fn frame_of_wrong_length_is_rejected_locally() {
    let p = EngineProperties::try_new(16000, 512, "1.2.0".to_string()).unwrap();
    let short = vec![0i16; 100];
    let e = p.check_frame(&short).unwrap_err();
    assert!(matches!(e.status, CobraErrorStatus::FrameLengthError));
    assert_eq!(e.message, "Found a frame length of 100 Expected 512");
    assert!(e.message_stack.is_empty());
}

#[test]
fn decimal_rendering() {
    assert_eq!(dec_string(0), "0");
    assert_eq!(dec_string(7), "7");
    assert_eq!(dec_string(10), "10");
    assert_eq!(dec_string(255), "255");
    assert_eq!(dec_string(4096), "4096");
    assert_eq!(dec_string(u64::MAX), "18446744073709551615");
}
