use dbf_table::{CharField, CurrencyField, DateField, DateTimeField, Field, FieldValue, Record};

fn meta(name: &str, datatype: u8, offset: usize, size: usize) -> Field {
    Field {
        autoincrement: None,
        binary: None,
        datatype,
        name: name.to_owned(),
        next_id: 0u32,
        nullable: None,
        offset,
        precision: 0,
        size,
        step: 1u32,
        system: None,
    }
}

#[test]
fn test_create_records() {
    let record: &[u8] = &[
        b'a', b'b',
        1u8, 0, 0, 0, 0, 0, 0, 0,
        0xCC, 0x40, 0x0B, 0, 0, 0, 0, 0, // Feb 29, 2020
        0x1E, 0x85, 0x25, 0, 0x80, 0x1C, 0xCA, 2, // Feb 29, 2020: 13:00:00
    ];
    let expected = ["ab", "0.0001", "2020-02-29", "2020-02-29 13:00:00"];
    let mut r = Record(vec![
        FieldValue::Character(CharField::new(meta("Just a char field", b'C', 0, 2), "tis-620", record)),
        FieldValue::Currency(CurrencyField::new(meta("Just a money field", b'B', 2, 8), record)),
        FieldValue::Date(DateField::new(meta("Just a date field", b'D', 10, 8), record)),
        FieldValue::DateTime(DateTimeField::new(meta("Just a date_time field", b'T', 18, 8), record)),
    ]);

    for (i, f) in r.0.iter_mut().enumerate() {
        assert!(f.materialize().is_ok());
        assert_eq!(expected[i], f.to_text().unwrap());
    }
}

#[test]
fn load_all_materializes_every_field_in_order() {
    let record: &[u8] = &[
        b'a', b'b',
        1u8, 0, 0, 0, 0, 0, 0, 0,
        0xCC, 0x40, 0x0B, 0, 0, 0, 0, 0,
        0x1E, 0x85, 0x25, 0, 0x80, 0x1C, 0xCA, 2,
    ];
    let mut r = Record(vec![
        FieldValue::Character(CharField::new(meta("name", b'C', 0, 2), "tis-620", record)),
        FieldValue::Currency(CurrencyField::new(meta("cost", b'Y', 2, 8), record)),
        FieldValue::Date(DateField::new(meta("day", b'D', 10, 8), record)),
        FieldValue::DateTime(DateTimeField::new(meta("stamp", b'T', 18, 8), record)),
    ]);
    assert!(r.0.iter().all(|f| !f.ready()));
    let results = r.load_all();
    assert_eq!(results.len(), 4);
    assert!(results.iter().all(|x| x.is_ok()));
    assert!(r.0.iter().all(|f| f.ready()));
    assert_eq!(r.0[2].to_text().unwrap(), "2020-02-29");

    // A second pass yields the same values.
    let again = r.load_all_unordered();
    let order: Vec<usize> = again.iter().map(|(i, _)| *i).collect();
    assert_eq!(order, vec![0, 1, 2, 3]);
    assert_eq!(r.0[0].to_text().unwrap(), "ab");
    assert_eq!(r.0[1].to_text().unwrap(), "0.0001");
    assert_eq!(r.0[3].to_text().unwrap(), "2020-02-29 13:00:00");
}

#[test]
fn raw_bytes_return_the_backing_range() {
    let record: &[u8] = &[b'x', b'y', 9, 0, 0, 0, 0, 0, 0, 0];
    let f = FieldValue::Currency(CurrencyField::new(meta("cost", b'Y', 2, 8), record));
    assert_eq!(f.raw_bytes().unwrap(), &record[2..10]);
    assert_eq!(f.to_text().unwrap(), "");
}

#[test]
fn field_outside_record_is_a_bounds_error() {
    let record: &[u8] = &[1, 2, 3, 4];
    let mut f = FieldValue::Date(DateField::new(meta("day", b'D', 0, 8), record));
    assert_eq!(f.materialize(), Err(dbf_table::DbfError::BoundsError));
    assert!(!f.ready());
    assert!(f.to_text().is_none());
    assert_eq!(f.raw_bytes(), Err(dbf_table::DbfError::BoundsError));
}

#[test]
fn date_field_of_wrong_width_is_a_decode_error() {
    let record: &[u8] = &[0, 0, 0, 0];
    let mut f = FieldValue::Date(DateField::new(meta("day", b'D', 0, 4), record));
    assert_eq!(f.materialize(), Err(dbf_table::DbfError::DecodeError));
}

#[test]
fn character_field_with_unknown_encoding_fails() {
    let record: &[u8] = b"ab";
    let mut f = FieldValue::Character(CharField::new(meta("name", b'C', 0, 2), "no-such-codepage", record));
    assert_eq!(f.materialize(), Err(dbf_table::DbfError::UnknownCodepage));
}
