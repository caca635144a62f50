use nvml_wrapper::error::ErrorValue;
use nvml_wrapper::raw::{RawLedState, LED_CAUSE_LEN, LED_COLOR_AMBER, LED_COLOR_GREEN};
use nvml_wrapper::unit::UnitLedState;

fn raw_led(color: u32, cause_bytes: &[u8]) -> RawLedState {
    let mut cause = [0u8; LED_CAUSE_LEN];
    cause[..cause_bytes.len()].copy_from_slice(cause_bytes);
    RawLedState { cause, color }
}

#[test]
fn green_converts_to_healthy_with_no_payload() {
    let raw = raw_led(LED_COLOR_GREEN, b"");
    assert_eq!(UnitLedState::try_from(raw), Ok(UnitLedState::Green));
}

#[test]
fn green_ignores_cause_bytes() {
    // The green discriminant carries no payload, whatever is in the buffer.
    let raw = raw_led(LED_COLOR_GREEN, b"leftover\0");
    assert_eq!(UnitLedState::try_from(raw), Ok(UnitLedState::Green));
}

#[test]
fn amber_converts_to_fault_with_cause() {
    let raw = raw_led(LED_COLOR_AMBER, b"fan-fault\0\0\0");
    assert_eq!(
        UnitLedState::try_from(raw),
        Ok(UnitLedState::Amber("fan-fault".to_string()))
    );
}

#[test]
fn amber_with_empty_cause() {
    let raw = raw_led(LED_COLOR_AMBER, b"\0");
    assert_eq!(
        UnitLedState::try_from(raw),
        Ok(UnitLedState::Amber(String::new()))
    );
}

#[test]
fn amber_reads_only_up_to_the_terminator() {
    // Invalid bytes after the first null must not matter.
    let raw = raw_led(LED_COLOR_AMBER, b"ok\0\xff\xfe");
    assert_eq!(
        UnitLedState::try_from(raw),
        Ok(UnitLedState::Amber("ok".to_string()))
    );
}

#[test]
fn amber_decodes_multibyte_text() {
    // "d\u{e9}grad\u{e9}" in UTF-8; the decoded text must differ from the raw bytes.
    let raw = raw_led(LED_COLOR_AMBER, b"d\xc3\xa9grad\xc3\xa9\0");
    let got = UnitLedState::try_from(raw).unwrap();
    match got {
        UnitLedState::Amber(cause) => {
            assert_eq!(cause, "d\u{e9}grad\u{e9}");
            assert_eq!(cause.chars().count(), 7);
        }
        other => panic!("expected Amber, got {:?}", other),
    }
}

#[test]
fn amber_with_invalid_encoding_is_an_encoding_failure() {
    // 0xff can never occur in UTF-8, and it sits before the terminator.
    let raw = raw_led(LED_COLOR_AMBER, b"fan\xff\0");
    assert_eq!(UnitLedState::try_from(raw), Err(ErrorValue::EncodingFailure));
}

#[test]
fn amber_with_truncated_sequence_is_an_encoding_failure() {
    // A lone UTF-8 leading byte with its continuation cut off by the null.
    let raw = raw_led(LED_COLOR_AMBER, b"\xc3\0");
    assert_eq!(UnitLedState::try_from(raw), Err(ErrorValue::EncodingFailure));
}

#[test]
fn amber_with_full_unterminated_buffer() {
    // No null byte anywhere: the whole buffer is the cause text.
    let raw = raw_led(LED_COLOR_AMBER, &[b'a'; LED_CAUSE_LEN]);
    match UnitLedState::try_from(raw).unwrap() {
        UnitLedState::Amber(cause) => assert_eq!(cause, "a".repeat(LED_CAUSE_LEN)),
        other => panic!("expected Amber, got {:?}", other),
    }
}

#[test]
fn unrecognized_discriminant_is_rejected_not_defaulted() {
    let raw = raw_led(7, b"whatever\0");
    assert_eq!(
        UnitLedState::try_from(raw),
        Err(ErrorValue::UnrecognizedValue(7))
    );
}

#[test]
fn unrecognized_discriminant_preserves_the_raw_value() {
    for bad in [2u32, 3, 100, u32::MAX] {
        let raw = raw_led(bad, b"\0");
        assert_eq!(
            UnitLedState::try_from(raw),
            Err(ErrorValue::UnrecognizedValue(bad))
        );
    }
}
