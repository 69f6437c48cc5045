use scaffold_core::classify::is_binary_buffer;
use scaffold_core::digest::digest_bytes;
use scaffold_core::entropy::byte_histogram;
use scaffold_core::pulse::{parse_connection, parse_uint_capped, pulse_from_fields};
use scaffold_core::records::record_for_entry;
use scaffold_core::textenc::decode_text;

#[test]
fn classify_empty_is_text() {
    assert!(!is_binary_buffer(&[]));
}

#[test]
fn classify_ascii_is_text() {
    let buffer = vec![b'a'; 9000];
    assert!(!is_binary_buffer(&buffer));
}

#[test]
fn classify_zero_at_100_is_binary() {
    let mut buffer = vec![b'a'; 9000];
    buffer[100] = 0;
    assert!(is_binary_buffer(&buffer));
}

#[test]
fn classify_zero_at_8500_is_text() {
    let mut buffer = vec![b'a'; 9000];
    buffer[8500] = 0;
    assert!(!is_binary_buffer(&buffer));
}

#[test]
fn classify_zero_at_window_edge() {
    let mut buffer = vec![b'a'; 9000];
    buffer[8191] = 0;
    assert!(is_binary_buffer(&buffer));
    let mut buffer = vec![b'a'; 9000];
    buffer[8192] = 0;
    assert!(!is_binary_buffer(&buffer));
}

#[test]
fn histogram_empty_is_all_zero() {
    let counts = byte_histogram(&[]);
    assert_eq!(counts.len(), 256);
    assert!(counts.iter().all(|&c| c == 0));
}

#[test]
fn histogram_uniform_buffer_has_one_bin() {
    let buffer = vec![0x41u8; 1000];
    let counts = byte_histogram(&buffer);
    assert_eq!(counts[0x41], 1000);
    for (value, &count) in counts.iter().enumerate() {
        if value != 0x41 {
            assert_eq!(count, 0);
        }
    }
}

#[test]
fn histogram_counts_each_value() {
    let buffer = [0u8, 1, 2, 1, 2, 2, 255];
    let counts = byte_histogram(&buffer);
    assert_eq!(counts[0], 1);
    assert_eq!(counts[1], 2);
    assert_eq!(counts[2], 3);
    assert_eq!(counts[255], 1);
    let total: usize = counts.iter().sum();
    assert_eq!(total, buffer.len());
}

#[test]
fn digest_of_empty_input_is_the_standard_value() {
    assert_eq!(
        digest_bytes(&[]),
        "e3b0c44298fc1c149afbf4c8996fb92427ae41e4649b934ca495991b7852b855"
    );
}

#[test]
fn digest_of_known_input() {
    assert_eq!(
        digest_bytes(b"abc"),
        "ba7816bf8f01cfea414140de5dae2223b00361a396177a9cb410ff61f20015ad"
    );
}

#[test]
fn digest_is_deterministic() {
    let data = b"the same bytes every time";
    assert_eq!(digest_bytes(data), digest_bytes(data));
}

#[test]
fn decode_text_keeps_valid_utf8() {
    let data = "h\u{e9}llo \u{4e16}\u{754c}".as_bytes();
    assert_eq!(decode_text(data), "h\u{e9}llo \u{4e16}\u{754c}");
}

#[test]
fn decode_text_falls_back_to_windows_1252() {
    // 0xE9 alone is not valid UTF-8; windows-1252 reads it as e-acute.
    let data = [b'h', 0xE9u8];
    assert_eq!(decode_text(&data), "h\u{e9}");
}

#[test]
fn record_normalizes_path_separators() {
    let record = record_for_entry("sub\\dir\\a.txt", 10, 0, None);
    assert_eq!(record.path, "sub/dir/a.txt");
    let record = record_for_entry("sub/dir/a.txt", 10, 0, None);
    assert_eq!(record.path, "sub/dir/a.txt");
}

#[test]
fn record_classifies_sniff_buffer() {
    let record = record_for_entry("a.bin", 3, 7, Some(vec![1, 0, 2]));
    assert!(record.is_binary);
    assert_eq!(record.size, 3);
    assert_eq!(record.mtime_nanos, 7);
    let record = record_for_entry("a.txt", 3, 7, Some(vec![1, 2, 3]));
    assert!(!record.is_binary);
    let record = record_for_entry("empty.txt", 0, 7, None);
    assert!(!record.is_binary);
}

#[test]
fn parse_uint_accepts_plain_and_signed_digits() {
    assert_eq!(parse_uint_capped("123", u32::MAX as u64), Some(123));
    assert_eq!(parse_uint_capped("+123", u32::MAX as u64), Some(123));
    assert_eq!(parse_uint_capped("0", u32::MAX as u64), Some(0));
}

#[test]
fn parse_uint_rejects_junk_and_overflow() {
    assert_eq!(parse_uint_capped("", u32::MAX as u64), None);
    assert_eq!(parse_uint_capped("+", u32::MAX as u64), None);
    assert_eq!(parse_uint_capped("12a", u32::MAX as u64), None);
    assert_eq!(parse_uint_capped(" 12", u32::MAX as u64), None);
    assert_eq!(parse_uint_capped("4294967296", u32::MAX as u64), None);
    assert_eq!(parse_uint_capped("4294967295", u32::MAX as u64), Some(4294967295));
    assert_eq!(parse_uint_capped("70000", u16::MAX as u64), None);
}

#[test]
fn parse_connection_legacy_line() {
    let conn = parse_connection("4242:5600:SECRET-REDACTED").unwrap();
    assert_eq!(conn.pid, 4242);
    assert_eq!(conn.port, 5600);
    assert_eq!(conn.token, "SECRET-REDACTED");
}

#[test]
fn parse_connection_legacy_defaults() {
    // An unparsable pid falls back to 0 and an unparsable port to 5555.
    let conn = parse_connection("nope:alsono:tok").unwrap();
    assert_eq!(conn.pid, 0);
    assert_eq!(conn.port, 5555);
    assert_eq!(conn.token, "tok");
    // A port above u16 range is unparsable as u16.
    let conn = parse_connection("1:70000:tok").unwrap();
    assert_eq!(conn.port, 5555);
}

#[test]
fn parse_connection_legacy_token_is_third_part() {
    let conn = parse_connection("1:2:tok:extra:parts").unwrap();
    assert_eq!(conn.token, "tok");
    let conn = parse_connection("1:2:").unwrap();
    assert_eq!(conn.token, "");
}

#[test]
fn parse_connection_legacy_needs_three_parts() {
    assert!(parse_connection("1:2").is_none());
    assert!(parse_connection("just-a-token").is_none());
    assert!(parse_connection("").is_none());
}

#[test]
fn parse_connection_trims_whitespace() {
    let conn = parse_connection("  7:8:tok  \n").unwrap();
    assert_eq!(conn.pid, 7);
    assert_eq!(conn.port, 8);
    assert_eq!(conn.token, "tok");
}

#[test]
fn parse_connection_json_object() {
    let conn = parse_connection("{\"pid\": 11, \"port\": 5600, \"token\": \"SECRET-REDACTED\"}")
        .unwrap();
    assert_eq!(conn.pid, 11);
    assert_eq!(conn.port, 5600);
    assert_eq!(conn.token, "SECRET-REDACTED");
}

#[test]
fn parse_connection_json_rejects_bad_fields() {
    assert!(parse_connection("{\"pid\": 1, \"port\": 2}").is_none());
    assert!(parse_connection("{\"pid\": \"x\", \"port\": 2, \"token\": \"t\"}").is_none());
    assert!(parse_connection("{\"pid\": 1, \"port\": 70000, \"token\": \"t\"}").is_none());
    assert!(parse_connection("{not json").is_none());
}

#[test]
fn pulse_from_fields_requires_all_fields_in_range() {
    let conn = pulse_from_fields(Some(1), Some(2), Some("t".to_string())).unwrap();
    assert_eq!((conn.pid, conn.port, conn.token.as_str()), (1, 2, "t"));
    assert!(pulse_from_fields(None, Some(2), Some("t".to_string())).is_none());
    assert!(pulse_from_fields(Some(1), None, Some("t".to_string())).is_none());
    assert!(pulse_from_fields(Some(1), Some(2), None).is_none());
    assert!(pulse_from_fields(Some(u32::MAX as u64 + 1), Some(2), Some("t".to_string())).is_none());
    assert!(pulse_from_fields(Some(1), Some(65536), Some("t".to_string())).is_none());
}
