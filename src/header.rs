use vstd::prelude::*;
use vstd::bytes::{spec_u16_from_le_bytes, spec_u32_from_le_bytes, u16_from_le_bytes, u32_from_le_bytes};
use vstd::slice::slice_subrange;

use crate::calendar::{days_of_civil, Date};
use crate::codepage::{codepage_label, cp_mapper};
use crate::error::DbfError;

verus! {

/// The file variant named by the first byte of a table file.
#[derive(Clone, Copy, Debug, PartialEq, Eq, Structural)]
pub enum DBFType {
    FoxBase,
    DBaseIIIPlus,
    DBaseIV,
    DBaseV,
    VisualFoxPro,
    VisualFoxProAutoInc,
    VisualFoxProVarBLOB,
    DBaseIVSQLTableFiles,
    DBaseIVSQLSystem,
    DBaseIIIPlusMemos,
    DBaseIVMemos,
    DBaseIVSQLTable,
    FoxProMemos,
    Undefined,
}

/// The variant that a type byte stands for; every byte has one.
pub open spec fn dbf_type_of(flag: u8) -> DBFType {
    match flag {
        0x02 => DBFType::FoxBase,
        0x03 => DBFType::DBaseIIIPlus,
        0x04 => DBFType::DBaseIV,
        0x05 => DBFType::DBaseV,
        0x30 => DBFType::VisualFoxPro,
        0x31 => DBFType::VisualFoxProAutoInc,
        0x32 => DBFType::VisualFoxProVarBLOB,
        0x43 => DBFType::DBaseIVSQLTableFiles,
        0x63 => DBFType::DBaseIVSQLSystem,
        0x83 => DBFType::DBaseIIIPlusMemos,
        0x8b => DBFType::DBaseIVMemos,
        0x8e => DBFType::DBaseIVSQLTable,
        0xf5 => DBFType::FoxProMemos,
        _ => DBFType::Undefined,
    }
}

impl DBFType {
    /// Reads the file variant from its type byte. A byte that names no
    /// variant gives `Undefined`: this byte is advisory, never an error.
    pub fn parse_type(flag: u8) -> (r: DBFType)
        ensures
            r == dbf_type_of(flag),
    {
        match flag {
            0x02 => DBFType::FoxBase,
            0x03 => DBFType::DBaseIIIPlus,
            0x04 => DBFType::DBaseIV,
            0x05 => DBFType::DBaseV,
            0x30 => DBFType::VisualFoxPro,
            0x31 => DBFType::VisualFoxProAutoInc,
            0x32 => DBFType::VisualFoxProVarBLOB,
            0x43 => DBFType::DBaseIVSQLTableFiles,
            0x63 => DBFType::DBaseIVSQLSystem,
            0x83 => DBFType::DBaseIIIPlusMemos,
            0x8b => DBFType::DBaseIVMemos,
            0x8e => DBFType::DBaseIVSQLTable,
            0xf5 => DBFType::FoxProMemos,
            _ => DBFType::Undefined,
        }
    }
}

/// Length of the fixed file header, which the field descriptors follow.
pub const HEADER_LEN: usize = 32;

/// The fixed part of a table file.
#[derive(Debug)]
pub struct Header {
    pub db_type: DBFType,
    pub last_update: Date,
    pub records_count: usize,
    pub first_record_position: usize,
    pub record_len: usize,
    pub table_flag: u8,
    pub codepage: &'static str,
}

/// Whether `h` is what the 32 header bytes `b` say, field by field.
pub open spec fn header_matches(h: Header, b: Seq<u8>) -> bool {
    &&& h.db_type == dbf_type_of(b[0])
    &&& days_of_civil(b[1] as int, b[2] as int, b[3] as int) == Some(h.last_update@)
    &&& h.records_count == spec_u32_from_le_bytes(b.subrange(4, 8))
    &&& h.first_record_position == spec_u16_from_le_bytes(b.subrange(8, 10))
    &&& h.record_len == spec_u16_from_le_bytes(b.subrange(10, 12))
    &&& h.table_flag == b[28]
    &&& codepage_label(b[29]) == Some(h.codepage@)
}

/// Whether 32 or more header bytes decode: the codepage marker is in the
/// codepage table and the last update names a date.
pub open spec fn header_decodes(b: Seq<u8>) -> bool {
    &&& b.len() >= HEADER_LEN
    &&& codepage_label(b[29]) is Some
    &&& days_of_civil(b[1] as int, b[2] as int, b[3] as int) is Some
}

/// The type byte never makes a header fail to decode: whatever byte 0
/// holds, the header decodes exactly when it decodes with any other, and a
/// byte that names no variant reads as `Undefined`.
pub proof fn lemma_type_byte_never_fails(b: Seq<u8>, flag: u8)
    requires
        b.len() >= HEADER_LEN,
    ensures
        header_decodes(b.update(0, flag)) == header_decodes(b),
        dbf_type_of(flag) == DBFType::Undefined <==> !(flag == 0x02 || flag == 0x03 || flag == 0x04
            || flag == 0x05 || flag == 0x30 || flag == 0x31 || flag == 0x32 || flag == 0x43
            || flag == 0x63 || flag == 0x83 || flag == 0x8b || flag == 0x8e || flag == 0xf5),
{
}

/// Decodes the fixed 32-byte file header. Byte 0 is the file variant,
/// bytes 1 to 3 the last update as raw year, month and day, bytes 4 to 7
/// the record count, 8 and 9 the position of the first record, 10 and 11
/// the record length, byte 28 the table flags and byte 29 the codepage.
pub fn decode_header(bytes: &[u8]) -> (r: Result<Header, DbfError>)
    ensures
        r is Ok <==> header_decodes(bytes@),
        bytes@.len() < HEADER_LEN ==> r == Err::<Header, DbfError>(DbfError::MalformedHeader),
        bytes@.len() >= HEADER_LEN ==> {
            let b = bytes@;
            match r {
                Ok(h) => header_matches(h, b),
                Err(e) => {
                    ||| (e == DbfError::UnknownCodepage && codepage_label(b[29]) is None)
                    ||| (e == DbfError::MalformedHeader && codepage_label(b[29]) is Some
                        && days_of_civil(b[1] as int, b[2] as int, b[3] as int) is None)
                },
            }
        },
{
    if bytes.len() < HEADER_LEN {
        return Err(DbfError::MalformedHeader);
    }
    let codepage = match cp_mapper(bytes[29]) {
        Ok(label) => label,
        Err(_) => {
            return Err(DbfError::UnknownCodepage);
        },
    };
    let last_update = match Date::from_ymd(bytes[1] as i32, bytes[2] as u32, bytes[3] as u32) {
        Some(d) => d,
        None => {
            return Err(DbfError::MalformedHeader);
        },
    };
    let records_count = u32_from_le_bytes(slice_subrange(bytes, 4, 8));
    let first_record_position = u16_from_le_bytes(slice_subrange(bytes, 8, 10));
    let record_len = u16_from_le_bytes(slice_subrange(bytes, 10, 12));
    Ok(Header {
        db_type: DBFType::parse_type(bytes[0]),
        last_update,
        records_count: records_count as usize,
        first_record_position: first_record_position as usize,
        record_len: record_len as usize,
        table_flag: bytes[28],
        codepage,
    })
}

} // verus!
