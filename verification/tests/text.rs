use libatasmart::error::SmartError;
use libatasmart::identify::IdentifyParsedData;
use libatasmart::text::{decode_text, decode_text_lossy, encode_text, text_length};

#[test]
fn text_ends_at_the_first_nul() {
    assert_eq!(text_length(b"abc\0def\0"), 3);
    assert_eq!(text_length(b"\0abc"), 0);
    assert_eq!(text_length(b"abc\0"), 3);
}

#[test]
fn text_without_nul_is_the_whole_buffer() {
    assert_eq!(text_length(b"abc"), 3);
    assert_eq!(text_length(b""), 0);
}

#[test]
fn decode_text_stops_at_the_terminator() {
    assert_eq!(decode_text(b"WD-WCC4N0\0\0\0\0"), Ok(String::from("WD-WCC4N0")));
    assert_eq!(decode_text(b"abc\0def"), Ok(String::from("abc")));
}

#[test]
fn decode_text_of_empty_text() {
    assert_eq!(decode_text(b""), Ok(String::new()));
    assert_eq!(decode_text(b"\0"), Ok(String::new()));
    assert_eq!(decode_text(b"\0\xff\xfe"), Ok(String::new()));
}

#[test]
fn decode_text_without_terminator() {
    assert_eq!(decode_text(b"80.00A80"), Ok(String::from("80.00A80")));
}

#[test]
fn decode_text_takes_utf8() {
    let buf = [0xc3u8, 0xa9, 0x74, 0xc3, 0xa9, 0, 0];
    assert_eq!(decode_text(&buf), Ok(String::from("\u{e9}t\u{e9}")));
    let buf = [0xe2u8, 0x82, 0xac, 0];
    assert_eq!(decode_text(&buf), Ok(String::from("\u{20ac}")));
}

#[test]
fn decode_text_refuses_bytes_that_are_no_text() {
    assert_eq!(decode_text(b"ab\xffcd\0"), Err(SmartError::Decode));
    assert_eq!(decode_text(b"\x80\0"), Err(SmartError::Decode));
    assert_eq!(decode_text(&[0xc3u8]), Err(SmartError::Decode));
    assert_eq!(decode_text(&[0xc3u8, 0, 0xa9]), Err(SmartError::Decode));
    assert_eq!(decode_text(&[0xed, 0xa0, 0x80, 0]), Err(SmartError::Decode));
}

#[test]
fn decode_text_ignores_what_follows_the_terminator() {
    assert_eq!(decode_text(b"ok\0\xff\xff"), Ok(String::from("ok")));
}

#[test]
fn identify_data_is_decoded_field_by_field() {
    let mut serial = [0u8; 21];
    serial[..8].copy_from_slice(b"S1234567");
    let mut firmware = [0u8; 9];
    firmware[..8].copy_from_slice(b"80.00A80");
    let mut model = [0u8; 41];
    model[..14].copy_from_slice(b"WDC WD40EFRX-6");
    let data = IdentifyParsedData::decode(&serial, &firmware, &model).unwrap();
    assert_eq!(data.serial, "S1234567");
    assert_eq!(data.firmware, "80.00A80");
    assert_eq!(data.model, "WDC WD40EFRX-6");
}

#[test]
fn identify_data_fails_on_any_bad_field() {
    let good = b"good\0";
    let bad = b"b\xffd\0";
    assert_eq!(
        IdentifyParsedData::decode(bad, good, good).unwrap_err(),
        SmartError::Decode
    );
    assert_eq!(
        IdentifyParsedData::decode(good, bad, good).unwrap_err(),
        SmartError::Decode
    );
    assert_eq!(
        IdentifyParsedData::decode(good, good, bad).unwrap_err(),
        SmartError::Decode
    );
    assert_eq!(
        IdentifyParsedData::decode(bad, bad, bad).unwrap_err(),
        SmartError::Decode
    );
    assert!(IdentifyParsedData::decode(good, good, good).is_ok());
}

#[test]
fn lossy_text_of_valid_text_is_the_text() {
    assert_eq!(decode_text_lossy(b"short\0"), "short");
    assert_eq!(decode_text_lossy(b"extended"), "extended");
    assert_eq!(decode_text_lossy(b"\0"), "");
    assert_eq!(decode_text_lossy(b""), "");
    assert_eq!(decode_text_lossy(&[0xc3u8, 0xa9, 0]), "\u{e9}");
}

#[test]
fn lossy_text_agrees_with_strict_text() {
    let buffers: Vec<&[u8]> = vec![b"Unknown status\0", b"abc\0def", b"", b"\0\xff"];
    for buf in buffers {
        assert_eq!(Ok(decode_text_lossy(buf)), decode_text(buf));
    }
}

#[test]
fn lossy_text_replaces_what_is_no_text() {
    assert_eq!(decode_text_lossy(b"ab\xffcd\0"), "ab\u{fffd}cd");
    assert_eq!(decode_text_lossy(b"\x80"), "\u{fffd}");
    assert_eq!(decode_text_lossy(b"ok\0\xff"), "ok");
}

#[test]
fn encoded_text_ends_with_a_nul() {
    assert_eq!(encode_text("/dev/sda"), Some(b"/dev/sda\0".to_vec()));
    assert_eq!(encode_text("/dev/null"), Some(b"/dev/null\0".to_vec()));
    assert_eq!(encode_text(""), Some(vec![0u8]));
    assert_eq!(
        encode_text("/dev/\u{e9}"),
        Some(vec![b'/', b'd', b'e', b'v', b'/', 0xc3, 0xa9, 0])
    );
}

#[test]
fn text_with_a_nul_has_no_encoding() {
    assert_eq!(encode_text("/dev/\0sda"), None);
    assert_eq!(encode_text("\0"), None);
    assert_eq!(encode_text("/dev/sda\0"), None);
}

#[test]
fn encoded_text_decodes_to_itself() {
    let texts = vec!["/dev/sda", "", "a", "/dev/disk/by-id/ata-\u{20ac}", "WDC WD40EFRX"];
    for text in texts {
        let bytes = encode_text(text).unwrap();
        assert_eq!(text_length(&bytes), text.len());
        assert_eq!(decode_text(&bytes), Ok(String::from(text)));
        assert_eq!(decode_text_lossy(&bytes), text);
    }
}
