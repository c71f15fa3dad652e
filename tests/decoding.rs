use xinto::hexdigits::{bytes_from_hex, digit_from_hex, parse_u16, parse_u8, u8_from_hex};
use xinto::{FileParsingError, Record, RecordParsingError};

fn lines(text: &[&str]) -> Vec<String> {
    text.iter().map(|l| l.to_string()).collect()
}

#[test]
fn data_record_fields() {
    let record = Record::parse(":10010000214601360121470136007EFE09D2190140").unwrap();
    assert_eq!(record.length, 0x10);
    assert_eq!(record.load_offset, 0x0100);
    assert_eq!(record.record_type, 0x00);
    assert_eq!(record.checksum, 0x40);
    assert_eq!(
        record.data,
        vec![0x21, 0x46, 0x01, 0x36, 0x01, 0x21, 0x47, 0x01, 0x36, 0x00, 0x7E, 0xFE, 0x09, 0xD2, 0x19, 0x01]
    );
    assert!(record.verify_checksum());
}

#[test]
fn lower_case_digits_decode() {
    let record = Record::parse(":10010000214601360121470136007efe09d2190140").unwrap();
    assert_eq!(record.data[10], 0x7E);
    assert_eq!(record.data[13], 0xD2);
}

#[test]
fn end_of_file_round_trip() {
    let eof = Record::end_of_file();
    assert_eq!(eof.length, 0);
    assert_eq!(eof.load_offset, 0);
    assert_eq!(eof.record_type, 1);
    assert!(eof.data.is_empty());
    assert_eq!(eof.checksum, 0xFF);
    assert!(eof.verify_checksum());
    assert_eq!(Record::parse(":00000001FF"), Ok(Record::end_of_file()));
}

#[test]
fn recomputed_checksum_round_trip() {
    // length 2, offset 0x1234, type 4, data [0xAB, 0xCD]:
    // 2 + 0x12 + 0x34 + 4 + 0xAB + 0xCD = 0x1C4, so the checksum is 0x3C.
    let record = Record::parse(":02123404ABCD3C").unwrap();
    assert_eq!(record.length, 2);
    assert_eq!(record.load_offset, 0x1234);
    assert_eq!(record.record_type, 4);
    assert_eq!(record.data, vec![0xAB, 0xCD]);
    assert_eq!(record.checksum, 0x3C);
    assert_eq!(Record::parse(":02123404ABCD3D"), Err(RecordParsingError::InvalidChecksum));
}

#[test]
fn minimum_length_boundary() {
    assert_eq!(Record::parse(""), Err(RecordParsingError::TooSmall));
    assert_eq!(Record::parse(":00000001F"), Err(RecordParsingError::TooSmall));
    assert_ne!(Record::parse(":0000000000"), Err(RecordParsingError::TooSmall));
    assert_eq!(Record::parse(":0000000000").unwrap().record_type, 0);
}

#[test]
fn marker_required() {
    assert_eq!(Record::parse("00000000000"), Err(RecordParsingError::MissingTag));
    assert_eq!(Record::parse(";00000001FF"), Err(RecordParsingError::MissingTag));
}

#[test]
fn type_domain() {
    // Types 0 to 5 pass the type checks; each line below has a valid checksum.
    for t in 0u8..=5 {
        let line = format!(":000000{:02X}{:02X}", t, (0x100 - t as u16) as u8);
        let record = Record::parse(&line).unwrap();
        assert_eq!(record.record_type, t);
    }
    for t in 6u8..=15 {
        let line = format!(":000000{:02X}00", t);
        assert_eq!(Record::parse(&line), Err(RecordParsingError::InvalidType));
    }
    assert_eq!(Record::parse(":000000g000"), Err(RecordParsingError::InvalidTypeFormat));
    assert_eq!(Record::parse(":0000000z00"), Err(RecordParsingError::InvalidTypeFormat));
}

#[test]
fn length_exactness() {
    assert_eq!(Record::parse(":ff00000000"), Err(RecordParsingError::InvalidLength));
    assert_eq!(Record::parse(":0100000000"), Err(RecordParsingError::InvalidLength));
    assert_eq!(Record::parse(":0000000000aa"), Err(RecordParsingError::TooLarge));
    assert_eq!(Record::parse(":00000001FF0"), Err(RecordParsingError::TooLarge));
}

#[test]
fn every_error_variant() {
    assert_eq!(Record::parse(":zz00000000"), Err(RecordParsingError::InvalidLengthFormat));
    assert_eq!(Record::parse(":000x000000"), Err(RecordParsingError::InvalidLoadOffsetFormat));
    assert_eq!(Record::parse(":01000000zz00"), Err(RecordParsingError::InvalidDataFormat));
    assert_eq!(Record::parse(":010000000"), Err(RecordParsingError::TooSmall));
    assert_eq!(Record::parse(":0100000000zz"), Err(RecordParsingError::InvalidChecksumFormat));
    assert_eq!(Record::parse(":00000000xx"), Err(RecordParsingError::InvalidChecksumFormat));
    assert_eq!(Record::parse(":00000000ff"), Err(RecordParsingError::InvalidChecksum));
}

#[test]
fn data_checked_before_checksum_field() {
    assert_eq!(Record::parse(":01000000zzzz"), Err(RecordParsingError::InvalidDataFormat));
}

#[test]
fn non_ascii_text() {
    assert_eq!(Record::parse(":é0000000000"), Err(RecordParsingError::InvalidLengthFormat));
    assert_eq!(Record::parse(":01000000é000"), Err(RecordParsingError::InvalidDataFormat));
    assert_eq!(Record::parse("é00000001FF"), Err(RecordParsingError::MissingTag));
}

#[test]
fn checksum_law() {
    let mut record = Record::parse(":02123404ABCD3C").unwrap();
    assert!(record.verify_checksum());
    record.checksum = 0x3D;
    assert!(!record.verify_checksum());
    let big = Record {
        length: 0,
        load_offset: 0xFFFF,
        record_type: 0,
        data: vec![0xFF; 1000],
        checksum: ((0x100u32 - (0x1FEu32 + 1000 * 0xFF) % 256) % 256) as u8,
    };
    assert!(big.verify_checksum());
}

#[test]
fn hex_helpers() {
    assert_eq!(digit_from_hex('7'), Some(7));
    assert_eq!(digit_from_hex('c'), Some(12));
    assert_eq!(digit_from_hex('C'), Some(12));
    assert_eq!(digit_from_hex('g'), None);
    assert_eq!(u8_from_hex('f', '0'), Some(0xF0));
    assert_eq!(u8_from_hex('+', 'f'), None);
    assert_eq!(parse_u8(":1A", 1), Some(0x1A));
    assert_eq!(parse_u16(":BEEF", 1), Some(0xBEEF));
    assert_eq!(parse_u16(":BEXF", 1), None);
    assert_eq!(bytes_from_hex("0aFF10"), Some(vec![0x0A, 0xFF, 0x10]));
    assert_eq!(bytes_from_hex(""), Some(vec![]));
    assert_eq!(bytes_from_hex("0aF"), None);
    assert_eq!(bytes_from_hex("0g"), None);
}

#[test]
fn file_stops_at_first_bad_line() {
    let text = lines(&[":00000001FF", "bad record", ":02123404ABCD3C"]);
    assert_eq!(
        Record::from_lines(&text, false),
        Err(FileParsingError::RecordError { error: RecordParsingError::TooSmall, line_number: 2 })
    );
}

#[test]
fn file_keeps_order() {
    let text = lines(&[":02123404ABCD3C", ":10010000214601360121470136007EFE09D2190140", ":00000001FF"]);
    let records = Record::from_lines(&text, false).unwrap();
    assert_eq!(records.len(), 3);
    assert_eq!(records[0].load_offset, 0x1234);
    assert_eq!(records[1].load_offset, 0x0100);
    assert_eq!(records[2], Record::end_of_file());
}

#[test]
fn file_read_failure() {
    let text = lines(&[":00000001FF", ":00000001FF"]);
    assert_eq!(Record::from_lines(&text, true), Err(FileParsingError::IOError(3)));
    let text = lines(&[":00000001FF", ":0000000000aa"]);
    assert_eq!(
        Record::from_lines(&text, true),
        Err(FileParsingError::RecordError { error: RecordParsingError::TooLarge, line_number: 2 })
    );
    assert_eq!(Record::from_lines(&Vec::new(), false), Ok(vec![]));
    assert_eq!(Record::from_lines(&Vec::new(), true), Err(FileParsingError::IOError(1)));
}
