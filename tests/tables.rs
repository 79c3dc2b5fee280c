use chrono::NaiveDate;
use dbf_table::{
    decode_character, decode_date, encode_character, encode_date, join, Date, InMemoryTable,
    RecordOps,
};

#[derive(Clone, Debug, PartialEq)]
struct Rec {
    date: NaiveDate,
    name: String,
    cost: f64,
}

impl RecordOps for Rec {
    fn from_bytes(record: &[u8]) -> Rec {
        let name = decode_character(&record[0..2], 2, "tis-620").expect("Insufficient record data.");
        let cost = i64::from_le_bytes(record[2..10].try_into().unwrap());
        let days = decode_date(&record[10..18]).expect("Insufficient record data.").days();
        Rec {
            date: NaiveDate::from_num_days_from_ce_opt(days).unwrap(),
            name,
            cost: (cost as f64) / 10000f64,
        }
    }

    fn to_bytes(&self) -> Vec<u8> {
        let mut result = encode_character(&self.name, 2, "tis-620")
            .expect("Insufficient buffer to store converted string");
        result.extend_from_slice(&((self.cost * 10000f64).round() as i64).to_le_bytes());
        let days = chrono::Datelike::num_days_from_ce(&self.date);
        result.extend(encode_date(&Date::from_days(days).unwrap()));
        result
    }
}

#[derive(Debug, PartialEq)]
struct JoinedRec {
    name1: String,
    name2: String,
}

impl RecordOps for JoinedRec {
    fn from_bytes(record: &[u8]) -> Self {
        JoinedRec {
            name1: String::from_utf8_lossy(&record[0..2]).into_owned(),
            name2: String::from_utf8_lossy(&record[2..4]).into_owned(),
        }
    }

    fn to_bytes(&self) -> Vec<u8> {
        self.name1.as_bytes().iter().chain(self.name2.as_bytes().iter()).copied().collect()
    }
}

fn ymd(y: i32, m: u32, d: u32) -> NaiveDate {
    NaiveDate::from_ymd_opt(y, m, d).unwrap()
}

const AB: [u8; 18] = [
    b'a', b'b',
    1u8, 0, 0, 0, 0, 0, 0, 0,
    0xCC, 0x40, 0x0B, 0, 0, 0, 0, 0, // Feb 29, 2020
];

const CD: [u8; 18] = [
    b'c', b'd',
    2u8, 0, 0, 0, 0, 0, 0, 0,
    0xCD, 0x40, 0x0B, 0, 0, 0, 0, 0, // Mar 1, 2020
];

const GG: [u8; 18] = [
    b'g', b'g',
    1u8, 0, 0, 0, 0, 0, 0, 0,
    0xCC, 0x40, 0x0B, 0, 0, 0, 0, 0,
];

const FF: [u8; 18] = [
    b'f', b'f',
    2u8, 0, 0, 0, 0, 0, 0, 0,
    0xCD, 0x40, 0x0B, 0, 0, 0, 0, 0,
];

fn table_of(records: &[&[u8; 18]]) -> InMemoryTable<Rec> {
    InMemoryTable::from_rows(records.iter().map(|r| Rec::from_bytes(&r[..])).collect())
}

#[test]
fn test_convert_byte_to_struct() {
    let record = &AB;
    let rec = Rec::from_bytes(record);
    assert_eq!(rec, Rec { date: ymd(2020, 2, 29), name: "ab".to_string(), cost: 0.0001 });
    assert_eq!(&record[..], rec.to_bytes().as_slice());
}

#[test]
fn test_in_memory_table() {
    let tb1 = table_of(&[&AB, &CD]);
    let _records2 = table_of(&[&GG, &FF]);
    assert_eq!(
        tb1.rows(),
        &[
            Rec { date: ymd(2020, 2, 29), name: "ab".to_string(), cost: 0.0001 },
            Rec { date: ymd(2020, 3, 1), name: "cd".to_string(), cost: 0.0002 },
        ][..]
    );
}

fn same_cost(r1: &Rec, r2: &Rec) -> Option<JoinedRec> {
    if r1.cost == r2.cost {
        Some(JoinedRec { name1: r1.name.clone(), name2: r2.name.clone() })
    } else {
        None
    }
}

#[test]
fn test_join_table_fn() {
    let tb1 = table_of(&[&AB, &CD]);
    let tb2 = table_of(&[&GG, &FF]);
    let tb3: InMemoryTable<JoinedRec> = join(&tb1, &tb2, |r1, r2| same_cost(r1, r2));
    assert_eq!(
        tb3.into_rows(),
        vec![
            JoinedRec { name1: "ab".to_string(), name2: "gg".to_string() },
            JoinedRec { name1: "cd".to_string(), name2: "ff".to_string() },
        ]
    );
}

#[test]
fn test_join_table_trait() {
    let tb1 = table_of(&[&AB, &CD]);
    let tb2 = table_of(&[&GG, &FF]);
    let tb3: InMemoryTable<JoinedRec> = tb1.join(&tb2).on(|r1, r2| same_cost(r1, r2));
    assert_eq!(
        tb3.into_rows(),
        vec![
            JoinedRec { name1: "ab".to_string(), name2: "gg".to_string() },
            JoinedRec { name1: "cd".to_string(), name2: "ff".to_string() },
        ]
    );
}

#[test]
fn join_without_match_is_empty() {
    let tb1 = table_of(&[&AB, &CD]);
    let tb2 = table_of(&[&GG, &FF]);
    let tb3: InMemoryTable<JoinedRec> = join(&tb1, &tb2, |_r1, _r2| None);
    assert_eq!(tb3.len(), 0);
}

#[test]
fn join_keeps_left_major_order() {
    let tb1 = table_of(&[&AB, &CD]);
    let tb2 = table_of(&[&GG, &FF]);
    let tb3: InMemoryTable<JoinedRec> = join(&tb1, &tb2, |r1, r2| {
        Some(JoinedRec { name1: r1.name.clone(), name2: r2.name.clone() })
    });
    let pairs: Vec<String> = tb3.into_rows().into_iter().map(|j| j.name1 + &j.name2).collect();
    assert_eq!(pairs, vec!["abgg", "abff", "cdgg", "cdff"]);
}

#[test]
fn lazy_join_yields_matches_one_by_one() {
    let tb1 = table_of(&[&AB, &CD]);
    let tb2 = table_of(&[&GG, &FF]);
    let mut it = dbf_table::JoinTableIter::new(&tb1, &tb2, |r1: &Rec, r2: &Rec| same_cost(r1, r2));
    assert_eq!(it.next(), Some(JoinedRec { name1: "ab".to_string(), name2: "gg".to_string() }));
    assert_eq!(it.next(), Some(JoinedRec { name1: "cd".to_string(), name2: "ff".to_string() }));
    assert_eq!(it.next(), None);
    assert_eq!(it.next(), None);
}

#[test]
fn test_select() {
    let tb1 = table_of(&[&AB, &CD, &GG, &FF]);
    let result: InMemoryTable<Rec> = tb1.select(|r| if r.cost == 0.0001 { Some(r.clone()) } else { None });
    assert_eq!(
        result.rows(),
        &[
            Rec { date: ymd(2020, 2, 29), name: "ab".to_string(), cost: 0.0001 },
            Rec { date: ymd(2020, 2, 29), name: "gg".to_string(), cost: 0.0001 },
        ][..]
    );
}

#[test]
fn test_in_memory_update() {
    let mut tb1 = table_of(&[&AB, &CD]);
    tb1.update(|r| {
        let mut r = r.clone();
        if r.cost < 0.0002 {
            r.cost = 0.0002;
        }
        r
    });
    assert_eq!(
        tb1.rows(),
        &[
            Rec { date: ymd(2020, 2, 29), name: "ab".to_string(), cost: 0.0002 },
            Rec { date: ymd(2020, 3, 1), name: "cd".to_string(), cost: 0.0002 },
        ][..]
    );
}

#[test]
fn test_insert_rows() {
    let mut tb = InMemoryTable::<Rec>::new();
    tb.insert_owned(Rec { name: "ab".to_string(), cost: 1.0001, date: ymd(2020, 10, 20) });
    let recs = &[
        Rec { name: "cd".to_string(), cost: 2.0002, date: ymd(2019, 11, 21) },
        Rec { name: "ef".to_string(), cost: 3.0003, date: ymd(2021, 3, 31) },
    ];
    tb.insert(recs);
    assert_eq!(
        tb.rows(),
        &[
            Rec { name: "ab".to_string(), cost: 1.0001, date: ymd(2020, 10, 20) },
            Rec { name: "cd".to_string(), cost: 2.0002, date: ymd(2019, 11, 21) },
            Rec { name: "ef".to_string(), cost: 3.0003, date: ymd(2021, 3, 31) },
        ][..]
    );
}

#[test]
fn test_agg() {
    let tb = table_of(&[&AB, &CD]);
    let result = tb.aggregate(100f64, |v, r| v + r.cost);
    assert_eq!(format!("{:.4}", result), "100.0003");
    let result = tb.aggregate("".to_owned(), |v, r| v + &r.name);
    assert_eq!(result, "abcd");
}

#[test]
fn table_cursor_steps_and_jumps() {
    let tb = table_of(&[&AB, &CD, &GG, &FF]);
    let mut it = tb.iter();
    assert_eq!(it.len(), 4);
    assert_eq!(it.next().unwrap().name, "ab");
    assert_eq!(it.nth(1).unwrap().name, "gg");
    assert_eq!(it.len(), 1);
    assert_eq!(it.next().unwrap().name, "ff");
    assert!(it.next().is_none());
    let mut it = tb.iter();
    assert!(it.nth(4).is_none());
    assert!(it.next().is_none());
    assert_eq!(tb.index(3).name, "ff");
}
