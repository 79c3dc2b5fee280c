use dbf_table::{
    cp_mapper, decode_character, decode_currency, decode_date, decode_date_time, decode_fields,
    decode_header, encode_character, encode_date, ConversionField, DBFType, Date, DbfError,
    FieldType, RawCharField, RawCurrencyField, RawDateField,
};

fn header_bytes(kind: u8, ymd: [u8; 3], codepage: u8) -> Vec<u8> {
    let mut h = vec![0u8; 32];
    h[0] = kind;
    h[1..4].copy_from_slice(&ymd);
    h[4..8].copy_from_slice(&4u32.to_le_bytes());
    h[8..10].copy_from_slice(&296u16.to_le_bytes());
    h[10..12].copy_from_slice(&26u16.to_le_bytes());
    h[28] = 0x03;
    h[29] = codepage;
    h
}

#[test]
fn header_fields_decode_exactly() {
    let h = decode_header(&header_bytes(0x30, [120, 2, 29], 3)).unwrap();
    assert_eq!(h.db_type, DBFType::VisualFoxPro);
    assert_eq!(h.last_update, Date::from_ymd(120, 2, 29).unwrap());
    assert_eq!(h.records_count, 4);
    assert_eq!(h.first_record_position, 296);
    assert_eq!(h.record_len, 26);
    assert_eq!(h.table_flag, 3);
    assert_eq!(h.codepage, "cp1252");
}

#[test]
fn unknown_type_byte_is_undefined() {
    let h = decode_header(&header_bytes(0x99, [120, 1, 1], 124)).unwrap();
    assert_eq!(h.db_type, DBFType::Undefined);
    assert_eq!(h.codepage, "tis620");
    assert_eq!(DBFType::parse_type(0xf5), DBFType::FoxProMemos);
    assert_eq!(DBFType::parse_type(0x00), DBFType::Undefined);
}

#[test]
fn header_errors() {
    assert!(matches!(decode_header(&[0x30; 31]), Err(DbfError::MalformedHeader)));
    assert!(matches!(decode_header(&header_bytes(0x30, [120, 1, 1], 0)), Err(DbfError::UnknownCodepage)));
    assert!(matches!(decode_header(&header_bytes(0x30, [120, 13, 1], 3)), Err(DbfError::MalformedHeader)));
    assert!(matches!(decode_header(&header_bytes(0x30, [119, 2, 29], 3)), Err(DbfError::MalformedHeader)));
}

#[test]
fn codepage_table() {
    assert_eq!(cp_mapper(1), Ok("cp437"));
    assert_eq!(cp_mapper(120), Ok("cp950"));
    assert_eq!(cp_mapper(200), Ok("cp1250"));
    assert!(cp_mapper(0).is_err());
    assert!(cp_mapper(255).is_err());
}

#[test]
fn field_type_tags() {
    assert_eq!(FieldType::from_flag("C"), Ok(FieldType::Character));
    assert_eq!(FieldType::from_flag("Y"), Ok(FieldType::Currency));
    assert_eq!(FieldType::from_flag("N"), Ok(FieldType::Float));
    assert_eq!(FieldType::from_flag("Varchar"), Ok(FieldType::Varchar));
    assert!(FieldType::from_flag("X").is_err());
    assert!(FieldType::from_flag("").is_err());
}

fn descriptor(name: &[u8], tag: u8, offset: u32, size: u8, flags: u8, next_id: u32, step: u8) -> Vec<u8> {
    let mut d = vec![0u8; 32];
    d[..name.len()].copy_from_slice(name);
    d[11] = tag;
    d[12..16].copy_from_slice(&offset.to_le_bytes());
    d[16] = size;
    d[17] = 2;
    d[18] = flags;
    d[19..23].copy_from_slice(&next_id.to_le_bytes());
    d[23] = step;
    d
}

#[test]
fn descriptors_stop_at_terminator_in_order() {
    let mut area = descriptor(b"NAME", b'C', 1, 10, 0x02, 0, 0);
    area.extend(descriptor(b"COST", b'Y', 11, 8, 0x0C, 5, 1));
    area.push(0x0D);
    area.extend(descriptor(b"AFTER", b'C', 1, 1, 0, 0, 0));
    let fields = decode_fields(&area, "cp1252", 19).unwrap();
    assert_eq!(fields.len(), 2);
    assert_eq!(fields[0].name, "NAME");
    assert_eq!(fields[0].datatype, b'C');
    assert_eq!(fields[0].offset, 1);
    assert_eq!(fields[0].size, 10);
    assert_eq!(fields[0].precision, 2);
    assert!(fields[0].nullable.is_some());
    assert!(fields[0].autoincrement.is_none());
    assert!(fields[0].system.is_none());
    assert_eq!(fields[1].name, "COST");
    assert_eq!(fields[1].offset, 11);
    assert!(fields[1].autoincrement.is_some());
    assert!(fields[1].binary.is_some());
    assert!(fields[1].nullable.is_none());
    assert_eq!(fields[1].next_id, 5);
    assert_eq!(fields[1].step, 1);
}

#[test]
fn zero_field_table_parses_to_empty() {
    let fields = decode_fields(&[0x0D], "cp1252", 1).unwrap();
    assert!(fields.is_empty());
}

#[test]
fn descriptor_errors() {
    let area = descriptor(b"NAME", b'C', 1, 10, 0, 0, 0);
    assert!(matches!(decode_fields(&area, "cp1252", 11), Err(DbfError::MalformedDescriptor)));
    let mut area = descriptor(b"NAME", b'X', 1, 10, 0, 0, 0);
    area.push(0x0D);
    assert!(matches!(decode_fields(&area, "cp1252", 11), Err(DbfError::UnsupportedFieldType)));
    let mut area = descriptor(b"NAME", b'C', 1, 10, 0, 0, 0);
    area.push(0x0D);
    assert!(matches!(decode_fields(&area, "cp1252", 10), Err(DbfError::BoundsError)));
    assert!(matches!(decode_fields(&area, "cp437", 11), Err(DbfError::UnknownCodepage)));
}

#[test]
fn character_round_trip() {
    let bytes = encode_character("ab", 2, "tis-620").unwrap();
    assert_eq!(bytes, b"ab".to_vec());
    assert_eq!(decode_character(&bytes, 2, "tis-620").unwrap(), "ab");
}

#[test]
fn character_codec_converts_between_encodings() {
    assert_eq!(decode_character(&[0xA1, b'a'], 2, "tis-620").unwrap(), "\u{0E01}a");
    assert_eq!(encode_character("\u{0E01}a", 2, "tis-620").unwrap(), vec![0xA1, b'a']);
}

#[test]
fn character_codec_errors() {
    assert_eq!(decode_character(b"abc", 2, "tis-620"), Err(DbfError::DecodeError));
    assert_eq!(decode_character(b"ab", 2, "cp437"), Err(DbfError::UnknownCodepage));
    assert_eq!(encode_character("abc", 2, "tis-620"), Err(DbfError::EncodeError));
    assert_eq!(encode_character("a", 2, "tis-620"), Err(DbfError::EncodeError));
}

#[test]
fn currency_codec() {
    assert_eq!(decode_currency(&1i64.to_le_bytes()).unwrap(), "0.0001");
    assert_eq!(decode_currency(&(-1i64).to_le_bytes()).unwrap(), "-0.0001");
    assert_eq!(decode_currency(&123456789i64.to_le_bytes()).unwrap(), "12345.6789");
    assert_eq!(decode_currency(&i64::MIN.to_le_bytes()).unwrap(), "-922337203685477.5808");
    assert_eq!(decode_currency(&[1, 0, 0]), Err(DbfError::DecodeError));
}

#[test]
fn date_codec_epoch_round_trip() {
    let d = decode_date(&[0u8; 8]).unwrap();
    assert_eq!(d.days(), 0);
    assert_eq!(d.to_text(), "0000-12-31");
    assert_eq!(encode_date(&d), vec![0u8; 8]);
}

#[test]
fn date_codec_values() {
    let d = decode_date(&[0xCC, 0x40, 0x0B, 0, 0, 0, 0, 0]).unwrap();
    assert_eq!(d.to_text(), "2020-02-29");
    assert_eq!(d, Date::from_ymd(2020, 2, 29).unwrap());
    let back = decode_date(&(-1i64).to_le_bytes()).unwrap();
    assert_eq!(back.to_text(), "0000-12-30");
    assert_eq!(encode_date(&back), (-1i64).to_le_bytes().to_vec());
    assert_eq!(decode_date(&i64::MAX.to_le_bytes()), Err(DbfError::DecodeError));
    assert_eq!(decode_date(&[0u8; 4]), Err(DbfError::DecodeError));
    assert!(Date::from_days(i32::MAX).is_none());
}

#[test]
fn date_time_codec() {
    let t = decode_date_time(&[0x1E, 0x85, 0x25, 0, 0x80, 0x1C, 0xCA, 2]).unwrap();
    assert_eq!(t.to_text(), "2020-02-29 13:00:00");
    assert_eq!(t.time(), (13, 0, 0));
    assert_eq!(t.date().to_text(), "2020-02-29");
    let mut late = [0x1E, 0x85, 0x25, 0, 0, 0, 0, 0];
    late[4..8].copy_from_slice(&(90_061_000u32).to_le_bytes());
    assert_eq!(decode_date_time(&late).unwrap().time(), (1, 1, 1));
    let mut far = [0u8; 8];
    far[0..4].copy_from_slice(&i32::MIN.to_le_bytes());
    assert_eq!(decode_date_time(&far), Err(DbfError::DecodeError));
    assert_eq!(decode_date_time(&[0u8; 7]), Err(DbfError::DecodeError));
}

#[test]
fn raw_fields_get_and_set() {
    let mut c = RawCharField::new(b"ab".to_vec(), "tis-620".to_string());
    assert_eq!(ConversionField::get(&c).unwrap(), "ab");
    assert!(c.set(&"cd".to_string()).is_ok());
    assert_eq!(c.bytes(), b"cd");
    assert_eq!(c.set(&"xyz".to_string()), Err(DbfError::EncodeError));
    assert_eq!(c.bytes(), b"cd");

    let mut m = RawCurrencyField::new(vec![1, 0, 0, 0, 0, 0, 0, 0]);
    assert_eq!(m.get(), Ok(1));
    assert!(m.set(&-20000).is_ok());
    assert_eq!(m.bytes(), &(-20000i64).to_le_bytes());

    let mut d = RawDateField::new(vec![0xCC, 0x40, 0x0B, 0, 0, 0, 0, 0]);
    assert_eq!(d.get().unwrap().to_text(), "2020-02-29");
    assert!(d.set(&Date::from_days(1).unwrap()).is_ok());
    assert_eq!(d.bytes(), &[1, 0, 0, 0, 0, 0, 0, 0]);
}
