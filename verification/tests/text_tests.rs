use win_fp_debug::databases::{
    attributes_string, database_key, decode_registry_value, friendly_name, registry_display,
    sensor_mode_display, strip_driver_store_prefix, REG_DWORD, REG_EXPAND_SZ, REG_SZ,
};
use win_fp_debug::elevation::{warn_if_not_elevated, Notice, NoticeLevel};
use win_fp_debug::error::{error_code, hresult_message, wrap_winbio_error};
use win_fp_debug::text::{
    decimal_len, decimal_string, hex_digit, join, push_decimal, push_decimal_padded,
    push_hex_u16, push_hex_u32, push_hex_u8, push_signed_decimal, same_text,
};
use win_fp_debug::time::{civil_time, format_system_time, CivilTime};
use win_fp_debug::winbio_helpers::{
    capabilities_string, pool_type_name, reject_reason, sensor_subtype_name, subfactor_name,
    wchar_to_string,
};

#[test]
fn numbers_are_written_digit_by_digit() {
    assert_eq!(hex_digit(0), '0');
    assert_eq!(hex_digit(9), '9');
    assert_eq!(hex_digit(10), 'A');
    assert_eq!(hex_digit(15), 'F');
    let mut s = String::from("x");
    push_hex_u8(&mut s, 0x0A);
    push_hex_u16(&mut s, 0x00FF);
    push_hex_u32(&mut s, 0x8009_800B);
    assert_eq!(s, "x0A00FF8009800B");
    assert_eq!(decimal_string(0), "0");
    assert_eq!(decimal_string(10), "10");
    assert_eq!(decimal_string(u64::MAX), "18446744073709551615");
    assert_eq!(decimal_len(0), 1);
    assert_eq!(decimal_len(999), 3);
    assert_eq!(decimal_len(u64::MAX), 20);
    let mut s = String::new();
    push_decimal(&mut s, 42);
    push_decimal_padded(&mut s, 7, 2);
    push_decimal_padded(&mut s, 123, 2);
    push_decimal_padded(&mut s, 5, 0);
    push_decimal_padded(&mut s, 0, 4);
    assert_eq!(s, "420712350000");
    let mut s = String::new();
    push_signed_decimal(&mut s, -1106);
    push_signed_decimal(&mut s, 0);
    push_signed_decimal(&mut s, i64::MIN);
    push_signed_decimal(&mut s, i64::MAX);
    assert_eq!(s, "-11060-92233720368547758089223372036854775807");
}

#[test]
fn parts_are_joined_with_the_separator_between() {
    assert_eq!(join(&vec![], ", "), "");
    assert_eq!(join(&vec!["a"], ", "), "a");
    assert_eq!(join(&vec!["a", "", "c"], " | "), "a |  | c");
    assert!(same_text("abc", "abc"));
    assert!(!same_text("abc", "abd"));
    assert!(!same_text("abc", "ab"));
    assert!(same_text("", ""));
}

#[test]
fn points_in_time_are_calendar_dates() {
    assert_eq!(format_system_time(0), "1970-01-01 00:00:00 UTC");
    assert_eq!(format_system_time(86399), "1970-01-01 23:59:59 UTC");
    assert_eq!(format_system_time(86400), "1970-01-02 00:00:00 UTC");
    assert_eq!(format_system_time(951_782_400), "2000-02-29 00:00:00 UTC");
    assert_eq!(format_system_time(951_868_800), "2000-03-01 00:00:00 UTC");
    assert_eq!(format_system_time(1_709_251_199), "2024-02-29 23:59:59 UTC");
    assert_eq!(format_system_time(4_107_542_400), "2100-03-01 00:00:00 UTC");
    assert_eq!(format_system_time(1_735_689_599), "2024-12-31 23:59:59 UTC");
    assert_eq!(
        civil_time(1_000_000_000),
        CivilTime { year: 2001, month: 9, day: 9, hour: 1, minute: 46, second: 40 }
    );
    assert_eq!(format_system_time(253_402_300_800), "10000-01-01 00:00:00 UTC");
    assert_eq!(
        CivilTime { year: 1999, month: 1, day: 2, hour: 3, minute: 4, second: 5 }.format(),
        "1999-01-02 03:04:05 UTC"
    );
}

#[test]
fn status_codes_speak() {
    assert_eq!(hresult_message(0), "Success (S_OK)");
    assert_eq!(hresult_message(0x8009_8005), "No match (WINBIO_E_NO_MATCH)");
    assert_eq!(hresult_message(0x8009_8014), "Not enrolled (WINBIO_E_UNKNOWN_ID)");
    assert_eq!(
        hresult_message(0x8009_8016),
        "Database no such record (WINBIO_E_DATABASE_NO_SUCH_RECORD)"
    );
    assert_eq!(hresult_message(0x0009_8001), "Sample needed for enrollment (WINBIO_I_MORE_DATA)");
    assert_eq!(hresult_message(0x0009_0001), "Unknown HRESULT");
    assert_eq!(hresult_message(0xDEAD_BEEF), "Unknown HRESULT");
    let err = wrap_winbio_error("WinBioOpenSession", 0x8009_800B);
    assert_eq!(error_code(&err), 0x8009_800B);
    assert_eq!(
        err.message(),
        "WinBioOpenSession: Session busy (WINBIO_E_SESSION_BUSY) (0x8009800B)"
    );
    assert_eq!(wrap_winbio_error("X", 5).message(), "X: Unknown HRESULT (0x00000005)");
}

#[test]
fn finger_positions_have_distinct_labels() {
    let expected = [
        "Right Thumb",
        "Right Index",
        "Right Middle",
        "Right Ring",
        "Right Little",
        "Left Thumb",
        "Left Index",
        "Left Middle",
        "Left Ring",
        "Left Little",
    ];
    for finger in 1u8..=10 {
        assert_eq!(subfactor_name(finger), expected[finger as usize - 1]);
    }
    assert_eq!(subfactor_name(0xFF), "Any Finger");
    assert_eq!(subfactor_name(0), "Unknown");
    assert_eq!(subfactor_name(0xF5), "Vendor-specific (0xF5)");
    assert_eq!(subfactor_name(11), "Vendor-specific (0x0B)");
    let mut seen: Vec<String> = Vec::new();
    for value in 0u8..=255 {
        let name = subfactor_name(value);
        assert!(!seen.contains(&name));
        assert_eq!(name, subfactor_name(value));
        seen.push(name);
    }
}

#[test]
fn numbers_of_the_subsystem_have_names() {
    assert_eq!(reject_reason(1), "Too high");
    assert_eq!(reject_reason(7), "Poor quality");
    assert_eq!(reject_reason(10), "Merge failure");
    assert_eq!(reject_reason(0), "Unknown rejection reason");
    assert_eq!(reject_reason(11), "Unknown rejection reason");
    assert_eq!(sensor_subtype_name(0), "Unknown");
    assert_eq!(sensor_subtype_name(1), "Swipe");
    assert_eq!(sensor_subtype_name(2), "Touch");
    assert_eq!(sensor_subtype_name(3), "Other");
    assert_eq!(pool_type_name(1), "System");
    assert_eq!(pool_type_name(2), "Private");
    assert_eq!(pool_type_name(0), "Unknown");
    assert_eq!(capabilities_string(0), "None");
    assert_eq!(capabilities_string(0x100), "None");
    assert_eq!(capabilities_string(0x01), "Sensor");
    assert_eq!(capabilities_string(0x0A), "Matching | Processing");
    assert_eq!(
        capabilities_string(0xFF),
        "Sensor | Matching | Database | Processing | Encryption | Navigation | Indicator | VirtualSensor"
    );
}

#[test]
fn text_ends_at_the_first_zero_unit() {
    let buf: Vec<u16> = "Goodix".encode_utf16().chain([0u16, 0x41, 0]).collect();
    assert_eq!(wchar_to_string(&buf), "Goodix");
    let full: Vec<u16> = "no end".encode_utf16().collect();
    assert_eq!(wchar_to_string(&full), "no end");
    assert_eq!(wchar_to_string(&[0u16, 0x41]), "");
    assert_eq!(wchar_to_string(&[]), "");
    assert_eq!(wchar_to_string(&[0xD83D, 0xDE00, 0xD800, 0x41, 0]), "\u{1F600}\u{FFFD}A");
}

#[test]
fn attributes_are_named_and_numbered() {
    assert_eq!(attributes_string(0), "0x00000000");
    assert_eq!(attributes_string(1), "OWNED (0x00000001)");
    assert_eq!(attributes_string(2), "REMOTE (0x00000002)");
    assert_eq!(attributes_string(3), "OWNED | REMOTE (0x00000003)");
    assert_eq!(attributes_string(0x10), "0x00000010");
    assert_eq!(attributes_string(0x8000_0001), "OWNED (0x80000001)");
}

#[test]
fn registry_values_are_read_as_text() {
    let wide: Vec<u8> = "C:\\db".encode_utf16().chain([0u16]).flat_map(|u| u.to_le_bytes()).collect();
    assert_eq!(decode_registry_value(REG_SZ, &wide), Some("C:\\db".to_string()));
    assert_eq!(decode_registry_value(REG_EXPAND_SZ, &wide[..4]), Some("C:".to_string()));
    assert_eq!(decode_registry_value(REG_SZ, &[0x41, 0, 0x42]), Some("A".to_string()));
    assert_eq!(decode_registry_value(REG_SZ, &[0, 0, 0x41, 0]), Some(String::new()));
    assert_eq!(decode_registry_value(REG_DWORD, &[8, 0, 0, 0]), Some("8".to_string()));
    assert_eq!(decode_registry_value(REG_DWORD, &[0x78, 0x56, 0x34, 0x12, 9]), Some("305419896".to_string()));
    assert_eq!(decode_registry_value(REG_DWORD, &[0xFF, 0xFF, 0xFF, 0xFF]), Some("4294967295".to_string()));
    assert_eq!(decode_registry_value(REG_DWORD, &[1, 0, 0]), None);
    assert_eq!(decode_registry_value(REG_SZ, &[]), None);
    assert_eq!(decode_registry_value(3, &[1, 2, 3, 4]), None);
}

#[test]
fn registry_values_are_shown_in_words() {
    assert_eq!(registry_display("BiometricType", "8"), "Fingerprint (0x08)");
    assert_eq!(registry_display("BiometricType", "4"), "4");
    assert_eq!(registry_display("SensorPool", "1"), "System (1)");
    assert_eq!(registry_display("SensorPool", "2"), "Private (2)");
    assert_eq!(registry_display("SensorPool", "3"), "3");
    assert_eq!(registry_display("AutoCreate", "1"), "Yes");
    assert_eq!(registry_display("AutoCreate", "0"), "No");
    assert_eq!(registry_display("AutoName", "1"), "Yes");
    assert_eq!(registry_display("AutoName", "0"), "No");
    assert_eq!(registry_display("AutoName", "2"), "2");
    assert_eq!(registry_display("Other", "1"), "1");
    assert_eq!(sensor_mode_display("1"), "Basic");
    assert_eq!(sensor_mode_display("2"), "Advanced");
    assert_eq!(sensor_mode_display(""), "Unknown ()");
    assert_eq!(sensor_mode_display("7"), "Unknown (7)");
}

#[test]
fn database_keys_are_upper_case_and_braced() {
    assert_eq!(database_key("{abc-1f}"), "{ABC-1F}");
    assert_eq!(database_key("abc-1f"), "{ABC-1F}");
    assert_eq!(database_key(""), "{}");
    assert_eq!(database_key("{AB}"), "{AB}");
}

#[test]
fn device_names_lose_the_driver_store_reference() {
    assert_eq!(strip_driver_store_prefix("@oem26.inf,%devdesc%;Actual Name"), "Actual Name");
    assert_eq!(strip_driver_store_prefix("a;b;c"), "c");
    assert_eq!(strip_driver_store_prefix("plain"), "plain");
    assert_eq!(strip_driver_store_prefix("ends;"), "");
    assert_eq!(strip_driver_store_prefix(""), "");
    assert_eq!(friendly_name(Some("x;Reader".to_string()), Some("y".to_string())), "Reader");
    assert_eq!(friendly_name(None, Some("@inf;Desc".to_string())), "Desc");
    assert_eq!(friendly_name(None, None), "");
}

#[test]
fn the_user_is_told_of_the_privileges() {
    assert_eq!(
        warn_if_not_elevated(Ok(true)),
        Notice { level: NoticeLevel::Pass, message: "Running as Administrator".to_string() }
    );
    assert_eq!(
        warn_if_not_elevated(Ok(false)),
        Notice {
            level: NoticeLevel::Warn,
            message: "Not running as Administrator — some operations may fail or hang".to_string(),
        }
    );
    assert_eq!(
        warn_if_not_elevated(Err("Access is denied.".to_string())),
        Notice {
            level: NoticeLevel::Warn,
            message: "Could not check elevation: Access is denied.".to_string(),
        }
    );
}
